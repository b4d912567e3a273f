use stab::registry::{CtlConInfo, CtlConns, CtlOpt, CtlReply};
use stab::server::keep_accepting;

fn info(port: u16) -> CtlConInfo {
    CtlConInfo {
        port,
        src: "1.2.3.4:5000".to_string(),
        time: "2024-01-01 00:00:00".to_string(),
        data: 0,
    }
}

#[test]
fn insert_get_contain() {
    let mut r = CtlConns::new();
    assert!(!r.contain(10000));
    assert!(r.insert(10000, info(10000)).is_none());
    assert!(r.contain(10000));
    let got = r.get(10000).unwrap();
    assert_eq!(got.port, 10000);
    assert_eq!(got.src, "1.2.3.4:5000");
    assert_eq!(got.data, 0);
    assert!(r.get(10001).is_none());
    let mut again = info(10000);
    again.src = "5.6.7.8:1".to_string();
    let prev = r.insert(10000, again).unwrap();
    assert_eq!(prev.src, "1.2.3.4:5000");
    assert_eq!(r.get(10000).unwrap().src, "5.6.7.8:1");
}

#[test]
fn remove_twice_is_one_remove() {
    let mut r = CtlConns::new();
    r.insert(10000, info(10000));
    r.insert(10001, info(10001));
    assert!(r.remove(10000).is_some());
    assert!(r.remove(10000).is_none());
    assert!(!r.contain(10000));
    assert!(r.contain(10001));
    assert_eq!(r.view().len(), 1);
}

#[test]
fn add_data_in_either_order() {
    let mut a = CtlConns::new();
    a.insert(10000, info(10000));
    let mut b = CtlConns::new();
    b.insert(10000, info(10000));
    a.add_data(10000, 3, 4);
    a.add_data(10000, 10, 20);
    b.add_data(10000, 10, 20);
    b.add_data(10000, 3, 4);
    assert_eq!(a.get(10000).unwrap().data, 37);
    assert_eq!(b.get(10000).unwrap().data, 37);
}

#[test]
fn add_data_happy_path_counts_ping_pong() {
    let mut r = CtlConns::new();
    r.insert(10000, info(10000));
    r.add_data(10000, 4, 4);
    assert_eq!(r.get(10000).unwrap().data, 8);
}

#[test]
fn add_data_without_tunnel_is_ignored() {
    let mut r = CtlConns::new();
    r.add_data(10000, 5, 5);
    assert!(!r.contain(10000));
    assert!(r.view().is_empty());
}

#[test]
fn add_data_saturates() {
    let mut r = CtlConns::new();
    let mut i = info(10000);
    i.data = u64::MAX - 1;
    r.insert(10000, i);
    r.add_data(10000, u64::MAX, 7);
    assert_eq!(r.get(10000).unwrap().data, u64::MAX);
}

#[test]
fn view_holds_every_record_once() {
    let mut r = CtlConns::new();
    for p in [10000u16, 10001, 10002] {
        r.insert(p, info(p));
    }
    let mut ports: Vec<u16> = r.view().iter().map(|i| i.port).collect();
    ports.sort();
    assert_eq!(ports, vec![10000, 10001, 10002]);
}

#[test]
fn apply_serves_each_operation() {
    let mut r = CtlConns::new();
    assert!(matches!(r.apply(CtlOpt::Insert(10000, info(10000))), CtlReply::Info(None)));
    assert!(matches!(r.apply(CtlOpt::Contain(10000)), CtlReply::Contain(true)));
    assert!(matches!(r.apply(CtlOpt::AddData(10000, 1, 2)), CtlReply::Done));
    match r.apply(CtlOpt::Get(10000)) {
        CtlReply::Info(Some(i)) => assert_eq!(i.data, 3),
        _ => panic!("expected a record"),
    }
    match r.apply(CtlOpt::View) {
        CtlReply::View(v) => assert_eq!(v.len(), 1),
        _ => panic!("expected a snapshot"),
    }
    assert!(matches!(r.apply(CtlOpt::Remove(10000)), CtlReply::Info(Some(_))));
    assert!(matches!(r.apply(CtlOpt::Remove(10000)), CtlReply::Info(None)));
    assert!(matches!(r.apply(CtlOpt::Contain(10000)), CtlReply::Contain(false)));
}

#[test]
fn management_delete_ends_tunnel() {
    let mut r = CtlConns::new();
    r.insert(10000, info(10000));
    assert!(keep_accepting(r.contain(10000), false));
    assert!(matches!(r.apply(CtlOpt::Remove(10000)), CtlReply::Info(Some(_))));
    assert!(!keep_accepting(r.contain(10000), false));
    assert!(matches!(r.apply(CtlOpt::Remove(10000)), CtlReply::Info(None)));
}

#[test]
fn view_lists_each_port_once_with_equal_payloads() {
    let mut r = CtlConns::new();
    for p in [1u16, 2, 3] {
        r.insert(p, info(p));
    }
    r.add_data(3, 1, 1);
    let v = r.view();
    assert_eq!(v.len(), 3);
    let mut ports: Vec<u16> = v.iter().map(|i| i.port).collect();
    ports.sort();
    ports.dedup();
    assert_eq!(ports, vec![1, 2, 3]);
    for rec in v.iter() {
        let stored = r.get(rec.port).unwrap();
        assert_eq!(stored.data, rec.data);
        assert_eq!(stored.src, rec.src);
    }
}
