//! The data-connection pool: for each public port with a live tunnel, a
//! bounded FIFO queue of streams that the local end opened in advance.

use std::collections::HashMap;
use std::collections::VecDeque;
use vstd::prelude::*;

verus! {

/// The pool size used where none is configured.
pub const DEFAULT_POOL_SIZE: usize = 8;

/// Queues of ready streams, one per open port, each holding at most
/// `pool_size` streams.
pub struct TcpPool<S> {
    pool_size: usize,
    queues: HashMap<u16, VecDeque<S>>,
}

impl<S> TcpPool<S> {
    /// The queue of each open port, front first.
    pub closed spec fn queues(&self) -> Map<u16, Seq<S>> {
        self.queues@.map_values(|q: VecDeque<S>| q@)
    }

    /// The most streams a queue holds.
    pub closed spec fn size(&self) -> nat {
        self.pool_size as nat
    }

    /// No queue is longer than the pool size.
    pub open spec fn wf(&self) -> bool {
        forall|port: u16| #[trigger]
            self.queues().contains_key(port) ==> self.queues()[port].len() <= self.size()
    }

    /// An empty pool whose queues hold at most `pool_size` streams.
    pub fn new(pool_size: usize) -> (r: Self)
        ensures
            r.wf(),
            r.size() == pool_size,
            r.queues() == Map::<u16, Seq<S>>::empty(),
    {
        let r = TcpPool { pool_size, queues: HashMap::new() };
        assert(r.queues() =~= Map::<u16, Seq<S>>::empty());
        r
    }

    /// The most streams a queue holds.
    pub fn pool_size(&self) -> (r: usize)
        ensures
            r == self.size(),
    {
        self.pool_size
    }

    /// Opens an empty queue for `port`, dropping whatever an earlier queue
    /// for it held.
    pub fn open(&mut self, port: u16)
        requires
            old(self).wf(),
        ensures
            final(self).wf(),
            final(self).size() == old(self).size(),
            final(self).queues() == old(self).queues().insert(port, Seq::<S>::empty()),
    {
        self.queues.insert(port, VecDeque::new());
        assert(self.queues() =~= old(self).queues().insert(port, Seq::<S>::empty()));
    }

    /// Files a stream at the back of the queue for `port`. A stream for a
    /// port without a queue, or for a full queue, is handed back so that
    /// the caller closes it.
    pub fn add_tcp_stream(&mut self, port: u16, tcp_stream: S) -> (r: Option<S>)
        requires
            old(self).wf(),
        ensures
            final(self).wf(),
            final(self).size() == old(self).size(),
            if old(self).queues().contains_key(port) && old(self).queues()[port].len()
                < old(self).size() {
                &&& r is None
                &&& final(self).queues() == old(self).queues().insert(
                    port,
                    old(self).queues()[port].push(tcp_stream),
                )
            } else {
                &&& r == Some(tcp_stream)
                &&& final(self).queues() == old(self).queues()
            },
    {
        match self.queues.remove(&port) {
            Some(mut q) => {
                assert(q@ == old(self).queues()[port]);
                if q.len() < self.pool_size {
                    q.push_back(tcp_stream);
                    self.queues.insert(port, q);
                    assert(self.queues() =~= old(self).queues().insert(
                        port,
                        old(self).queues()[port].push(tcp_stream),
                    ));
                    None
                } else {
                    self.queues.insert(port, q);
                    assert(self.queues() =~= old(self).queues());
                    Some(tcp_stream)
                }
            },
            None => {
                assert(self.queues() =~= old(self).queues());
                Some(tcp_stream)
            },
        }
    }

    /// Takes the stream at the front of the queue for `port`: `None` where
    /// the port has no queue (its tunnel is gone), `Some(None)` where the
    /// queue is empty.
    pub fn get_tcp_stream(&mut self, port: u16) -> (r: Option<Option<S>>)
        requires
            old(self).wf(),
        ensures
            final(self).wf(),
            final(self).size() == old(self).size(),
            !old(self).queues().contains_key(port) ==> r is None && final(self).queues()
                == old(self).queues(),
            old(self).queues().contains_key(port) && old(self).queues()[port].len() == 0 ==> r
                == Some(None::<S>) && final(self).queues() == old(self).queues(),
            old(self).queues().contains_key(port) && old(self).queues()[port].len() > 0 ==> r
                == Some(Some(old(self).queues()[port][0])) && final(self).queues() == old(
                self,
            ).queues().insert(port, old(self).queues()[port].drop_first()),
    {
        match self.queues.remove(&port) {
            Some(mut q) => {
                assert(q@ == old(self).queues()[port]);
                let front = q.pop_front();
                self.queues.insert(port, q);
                proof {
                    if old(self).queues()[port].len() > 0 {
                        assert(self.queues() =~= old(self).queues().insert(
                            port,
                            old(self).queues()[port].drop_first(),
                        ));
                    } else {
                        assert(self.queues() =~= old(self).queues());
                    }
                }
                Some(front)
            },
            None => {
                assert(self.queues() =~= old(self).queues());
                None
            },
        }
    }

    /// Closes the queue for `port`, dropping the streams it held.
    pub fn remove(&mut self, port: u16)
        requires
            old(self).wf(),
        ensures
            final(self).wf(),
            final(self).size() == old(self).size(),
            final(self).queues() == old(self).queues().remove(port),
    {
        self.queues.remove(&port);
        assert(self.queues() =~= old(self).queues().remove(port));
    }
}

} // verus!
