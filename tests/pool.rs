use stab::pool::{TcpPool, DEFAULT_POOL_SIZE};

#[test]
fn default_pool_size_is_eight() {
    assert_eq!(DEFAULT_POOL_SIZE, 8);
    let p: TcpPool<u32> = TcpPool::new(DEFAULT_POOL_SIZE);
    assert_eq!(p.pool_size(), 8);
}

#[test]
fn queue_is_fifo() {
    let mut p: TcpPool<u32> = TcpPool::new(8);
    p.open(10000);
    assert!(p.add_tcp_stream(10000, 1).is_none());
    assert!(p.add_tcp_stream(10000, 2).is_none());
    assert!(p.add_tcp_stream(10000, 3).is_none());
    assert_eq!(p.get_tcp_stream(10000), Some(Some(1)));
    assert_eq!(p.get_tcp_stream(10000), Some(Some(2)));
    assert_eq!(p.get_tcp_stream(10000), Some(Some(3)));
    assert_eq!(p.get_tcp_stream(10000), Some(None));
}

#[test]
fn full_queue_hands_stream_back() {
    let mut p: TcpPool<u32> = TcpPool::new(2);
    p.open(10000);
    assert!(p.add_tcp_stream(10000, 1).is_none());
    assert!(p.add_tcp_stream(10000, 2).is_none());
    assert_eq!(p.add_tcp_stream(10000, 3), Some(3));
    assert_eq!(p.get_tcp_stream(10000), Some(Some(1)));
    assert!(p.add_tcp_stream(10000, 4).is_none());
}

#[test]
fn closed_pool_drops_pushes_and_pops_nothing() {
    let mut p: TcpPool<u32> = TcpPool::new(8);
    assert_eq!(p.add_tcp_stream(10000, 1), Some(1));
    assert_eq!(p.get_tcp_stream(10000), None);
    p.open(10000);
    assert!(p.add_tcp_stream(10000, 2).is_none());
    p.remove(10000);
    assert_eq!(p.get_tcp_stream(10000), None);
    assert_eq!(p.add_tcp_stream(10000, 3), Some(3));
}

#[test]
fn ports_have_separate_queues() {
    let mut p: TcpPool<u32> = TcpPool::new(8);
    p.open(10000);
    p.open(10001);
    p.add_tcp_stream(10000, 1);
    p.add_tcp_stream(10001, 2);
    assert_eq!(p.get_tcp_stream(10001), Some(Some(2)));
    assert_eq!(p.get_tcp_stream(10000), Some(Some(1)));
}

#[test]
fn reopening_clears_old_entries() {
    let mut p: TcpPool<u32> = TcpPool::new(8);
    p.open(10000);
    p.add_tcp_stream(10000, 1);
    p.open(10000);
    assert_eq!(p.get_tcp_stream(10000), Some(None));
}
