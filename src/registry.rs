//! The tunnel registry: which public ports have a live tunnel, where each
//! tunnel's control link came from, when it started and how many bytes it
//! has carried.

use std::collections::HashMap;
use vstd::prelude::*;
use vstd::std_specs::hash::spec_hash_map_iter;
use vstd::std_specs::iter::IteratorSpec;

verus! {

/// What the registry records of one tunnel.
#[derive(Debug)]
pub struct CtlConInfo {
    /// The public port.
    pub port: u16,
    /// The peer address of the control link.
    pub src: String,
    /// When the tunnel started.
    pub time: String,
    /// Bytes carried so far, both directions together.
    pub data: u64,
}

impl Clone for CtlConInfo {
    fn clone(&self) -> (r: Self)
        ensures
            r == *self,
    {
        CtlConInfo { port: self.port, src: self.src.clone(), time: self.time.clone(), data: self.data }
    }
}

/// `a + b`, or `u64::MAX` where the sum does not fit.
pub open spec fn saturating_sum(a: int, b: int) -> u64 {
    if a + b > u64::MAX {
        u64::MAX
    } else {
        (a + b) as u64
    }
}

/// The record `info` after a transfer of `up` bytes one way and `down` the
/// other.
pub open spec fn with_transfer(info: CtlConInfo, up: u64, down: u64) -> CtlConInfo {
    CtlConInfo { data: saturating_sum(info.data as int, up + down), ..info }
}

/// The registry `m` after a transfer on `port`: the tunnel's count grows by
/// `up + down`; without a tunnel on `port` nothing changes.
pub open spec fn added(m: Map<u16, CtlConInfo>, port: u16, up: u64, down: u64) -> Map<
    u16,
    CtlConInfo,
> {
    if m.contains_key(port) {
        m.insert(port, with_transfer(m[port], up, down))
    } else {
        m
    }
}

/// Each record of `m` is filed under its own port.
pub open spec fn records_match_ports(m: Map<u16, CtlConInfo>) -> bool {
    forall|port: u16| #[trigger] m.contains_key(port) ==> m[port].port == port
}

/// `v` holds the record of each port of `m` exactly once, in some order:
/// no two entries share a port, each entry is the record of its port, and
/// every port has an entry.
pub open spec fn is_snapshot(m: Map<u16, CtlConInfo>, v: Seq<CtlConInfo>) -> bool {
    &&& v.len() == m.dom().len()
    &&& forall|i: int, j: int| 0 <= i < j < v.len() ==> (#[trigger] v[i]).port != (#[trigger] v[j]).port
    &&& forall|i: int|
        0 <= i < v.len() ==> m.contains_key((#[trigger] v[i]).port) && m[v[i].port] == v[i]
    &&& forall|port: u16|
        m.contains_key(port) ==> exists|i: int| 0 <= i < v.len() && (#[trigger] v[i]).port == port
}

/// A sequence as long as a set, holding every member of the set and
/// nothing else, holds no member twice.
proof fn lemma_cover_has_no_duplicates(ks: Seq<u16>, dom: Set<u16>)
    requires
        dom.finite(),
        ks.len() == dom.len(),
        forall|k: u16| dom.contains(k) ==> ks.contains(k),
        forall|i: int| 0 <= i < ks.len() ==> dom.contains(#[trigger] ks[i]),
    ensures
        forall|i: int, j: int| 0 <= i < j < ks.len() ==> ks[i] != ks[j],
{
    assert forall|i: int, j: int| 0 <= i < j < ks.len() implies ks[i] != ks[j] by {
        if ks[i] == ks[j] {
            let shorter = ks.remove(j);
            assert forall|x: u16| dom.contains(x) implies shorter.to_set().contains(x) by {
                let t = choose|t: int| 0 <= t < ks.len() && ks[t] == x;
                if t < j {
                    assert(shorter[t] == x);
                } else if t > j {
                    assert(shorter[t - 1] == x);
                } else {
                    assert(shorter[i] == x);
                }
            }
            assert forall|x: u16| shorter.to_set().contains(x) implies dom.contains(x) by {
                let t = choose|t: int| 0 <= t < shorter.len() && shorter[t] == x;
                if t < j {
                    assert(ks[t] == x);
                } else {
                    assert(ks[t + 1] == x);
                }
            }
            assert(shorter.to_set() =~= dom);
            shorter.lemma_cardinality_of_set();
        }
    }
}

/// Removing a port a second time is a no-op: the registry stays as the first
/// removal left it, and the second finds no record.
pub proof fn lemma_remove_idempotent(m: Map<u16, CtlConInfo>, port: u16)
    ensures
        m.remove(port).remove(port) == m.remove(port),
        !m.remove(port).contains_key(port),
{
    assert(m.remove(port).remove(port) =~= m.remove(port));
}

/// Two transfers counted against one port leave the same registry in either
/// order, and where the count stays below `u64::MAX` it grows by the sum of
/// both.
pub proof fn lemma_add_data_commutes(
    m: Map<u16, CtlConInfo>,
    port: u16,
    a_up: u64,
    a_down: u64,
    b_up: u64,
    b_down: u64,
)
    ensures
        added(added(m, port, a_up, a_down), port, b_up, b_down) == added(
            added(m, port, b_up, b_down),
            port,
            a_up,
            a_down,
        ),
        m.contains_key(port) && m[port].data + a_up + a_down + b_up + b_down <= u64::MAX ==> added(
            added(m, port, a_up, a_down),
            port,
            b_up,
            b_down,
        )[port].data == m[port].data + a_up + a_down + b_up + b_down,
{
    if m.contains_key(port) {
        assert(added(added(m, port, a_up, a_down), port, b_up, b_down) =~= added(
            added(m, port, b_up, b_down),
            port,
            a_up,
            a_down,
        ));
    }
}

/// The registry `m` after the transfers `ts` on `port`, in order.
pub open spec fn added_all(m: Map<u16, CtlConInfo>, port: u16, ts: Seq<(u64, u64)>) -> Map<
    u16,
    CtlConInfo,
>
    decreases ts.len(),
{
    if ts.len() == 0 {
        m
    } else {
        added(added_all(m, port, ts.drop_last()), port, ts.last().0, ts.last().1)
    }
}

/// The bytes of the transfers `ts`, both directions together.
pub open spec fn transfer_total(ts: Seq<(u64, u64)>) -> int
    decreases ts.len(),
{
    if ts.len() == 0 {
        0
    } else {
        transfer_total(ts.drop_last()) + ts.last().0 + ts.last().1
    }
}

/// Counting the transfers `ts` against a tunnel adds each of them exactly
/// once, as long as the count stays below `u64::MAX`; the rest of its
/// record and every other tunnel stay as they were.
pub proof fn lemma_transfers_counted_once(m: Map<u16, CtlConInfo>, port: u16, ts: Seq<(u64, u64)>)
    requires
        m.contains_key(port),
        m[port].data + transfer_total(ts) <= u64::MAX,
    ensures
        added_all(m, port, ts).dom() == m.dom(),
        added_all(m, port, ts)[port] == (CtlConInfo {
            data: (m[port].data + transfer_total(ts)) as u64,
            ..m[port]
        }),
        forall|other: u16|
            other != port && m.contains_key(other) ==> #[trigger] added_all(m, port, ts)[other]
                == m[other],
    decreases ts.len(),
{
    if ts.len() > 0 {
        lemma_transfer_total_nonneg(ts.drop_last());
        lemma_transfers_counted_once(m, port, ts.drop_last());
        let before = added_all(m, port, ts.drop_last());
        assert(before.contains_key(port));
        assert(added_all(m, port, ts).dom() =~= m.dom());
    }
}

/// A total of transfers is never negative.
proof fn lemma_transfer_total_nonneg(ts: Seq<(u64, u64)>)
    ensures
        transfer_total(ts) >= 0,
    decreases ts.len(),
{
    if ts.len() > 0 {
        lemma_transfer_total_nonneg(ts.drop_last());
    }
}

/// An operation on the registry, as its owner receives them.
pub enum CtlOpt {
    /// The record of a port.
    Get(u16),
    /// Record a tunnel.
    Insert(u16, CtlConInfo),
    /// Forget a tunnel.
    Remove(u16),
    /// Whether a port has a tunnel.
    Contain(u16),
    /// Count a transfer, up and down.
    AddData(u16, u64, u64),
    /// Every record.
    View,
}

/// The answer to an operation.
pub enum CtlReply {
    /// The record that was there (for `Get`, `Insert` and `Remove`).
    Info(Option<CtlConInfo>),
    /// Whether the port has a tunnel.
    Contain(bool),
    /// Every record.
    View(Vec<CtlConInfo>),
    /// `AddData` answers nothing.
    Done,
}

/// The registry of live tunnels, keyed by public port.
pub struct CtlConns {
    conns: HashMap<u16, CtlConInfo>,
}

impl CtlConns {
    /// The tunnels, by public port.
    pub closed spec fn tunnels(&self) -> Map<u16, CtlConInfo> {
        self.conns@
    }

    /// Every record is filed under its own port.
    pub open spec fn wf(&self) -> bool {
        records_match_ports(self.tunnels())
    }

    /// An empty registry.
    pub fn new() -> (r: Self)
        ensures
            r.wf(),
            r.tunnels() == Map::<u16, CtlConInfo>::empty(),
    {
        CtlConns { conns: HashMap::new() }
    }

    /// The record of the tunnel on `port`.
    pub fn get(&self, port: u16) -> (r: Option<CtlConInfo>)
        ensures
            r == (if self.tunnels().contains_key(port) {
                Some(self.tunnels()[port])
            } else {
                None
            }),
    {
        match self.conns.get(&port) {
            Some(info) => Some(info.clone()),
            None => None,
        }
    }

    /// Records a tunnel on `port`, and returns the record it replaced.
    pub fn insert(&mut self, port: u16, ctl: CtlConInfo) -> (r: Option<CtlConInfo>)
        requires
            old(self).wf(),
            ctl.port == port,
        ensures
            final(self).wf(),
            final(self).tunnels() == old(self).tunnels().insert(port, ctl),
            r == (if old(self).tunnels().contains_key(port) {
                Some(old(self).tunnels()[port])
            } else {
                None
            }),
    {
        self.conns.insert(port, ctl)
    }

    /// Forgets the tunnel on `port`, and returns its record.
    pub fn remove(&mut self, port: u16) -> (r: Option<CtlConInfo>)
        requires
            old(self).wf(),
        ensures
            final(self).wf(),
            final(self).tunnels() == old(self).tunnels().remove(port),
            r == (if old(self).tunnels().contains_key(port) {
                Some(old(self).tunnels()[port])
            } else {
                None
            }),
    {
        self.conns.remove(&port)
    }

    /// Counts a finished transfer of `up_stream` bytes one way and
    /// `down_stream` the other against the tunnel on `port`; the count stops
    /// at `u64::MAX`.
    pub fn add_data(&mut self, port: u16, up_stream: u64, down_stream: u64)
        requires
            old(self).wf(),
        ensures
            final(self).wf(),
            final(self).tunnels() == added(old(self).tunnels(), port, up_stream, down_stream),
    {
        match self.conns.remove(&port) {
            Some(info) => {
                let total = up_stream.saturating_add(down_stream);
                let data = info.data.saturating_add(total);
                let updated = CtlConInfo { data, ..info };
                self.conns.insert(port, updated);
                assert(self.tunnels() =~= added(old(self).tunnels(), port, up_stream, down_stream));
            },
            None => {
                assert(self.tunnels() =~= old(self).tunnels());
            },
        }
    }

    /// Whether `port` has a tunnel.
    pub fn contain(&self, port: u16) -> (r: bool)
        ensures
            r == self.tunnels().contains_key(port),
    {
        self.conns.contains_key(&port)
    }

    /// A copy of every record, in no particular order.
    pub fn view(&self) -> (r: Vec<CtlConInfo>)
        requires
            self.wf(),
        ensures
            is_snapshot(self.tunnels(), r@),
    {
        let mut r: Vec<CtlConInfo> = Vec::new();
        let m = &self.conns;
        for (k, v) in it: m.iter()
            invariant
                it.seq() == spec_hash_map_iter(m).remaining(),
                r@.len() == it.index(),
                forall|i: int| 0 <= i < it.index() ==> r@[i] == *it.seq()[i].1,
        {
            r.push(v.clone());
        }
        proof {
            let pairs = spec_hash_map_iter(m).remaining();
            let ks = pairs.map_values(|kv: (&u16, &CtlConInfo)| *kv.0);
            assert forall|i: int| 0 <= i < r@.len() implies self.tunnels().contains_key(
                (#[trigger] r@[i]).port,
            ) && self.tunnels()[r@[i].port] == r@[i] && r@[i].port == ks[i] by {
                assert(m@.contains_key(*pairs[i].0));
            }
            assert forall|k: u16| m@.dom().contains(k) implies ks.contains(k) by {
                assert(pairs.contains((&k, &m@[k])));
                let j = choose|j: int| 0 <= j < pairs.len() && pairs[j] == (&k, &m@[k]);
                assert(ks[j] == k);
            }
            assert forall|i: int| 0 <= i < ks.len() implies m@.dom().contains(#[trigger] ks[i]) by {
                assert(m@.contains_key(*pairs[i].0));
            }
            lemma_cover_has_no_duplicates(ks, m@.dom());
            assert forall|i: int, j: int| 0 <= i < j < r@.len() implies (#[trigger] r@[i]).port
                != (#[trigger] r@[j]).port by {
                assert(r@[i].port == ks[i] && r@[j].port == ks[j]);
            }
            assert forall|port: u16| self.tunnels().contains_key(port) implies exists|i: int|
                0 <= i < r@.len() && (#[trigger] r@[i]).port == port by {
                assert(ks.contains(port));
                let j = choose|j: int| 0 <= j < ks.len() && ks[j] == port;
                assert(r@[j].port == ks[j]);
            }
        }
        r
    }

    /// Carries out one operation, as the registry's owner does for each it
    /// receives.
    pub fn apply(&mut self, op: CtlOpt) -> (r: CtlReply)
        requires
            old(self).wf(),
            op matches CtlOpt::Insert(port, ctl) ==> ctl.port == port,
        ensures
            final(self).wf(),
            match op {
                CtlOpt::Get(port) => final(self).tunnels() == old(self).tunnels() && r
                    == CtlReply::Info(
                    if old(self).tunnels().contains_key(port) {
                        Some(old(self).tunnels()[port])
                    } else {
                        None
                    },
                ),
                CtlOpt::Insert(port, ctl) => final(self).tunnels() == old(self).tunnels().insert(
                    port,
                    ctl,
                ) && r == CtlReply::Info(
                    if old(self).tunnels().contains_key(port) {
                        Some(old(self).tunnels()[port])
                    } else {
                        None
                    },
                ),
                CtlOpt::Remove(port) => final(self).tunnels() == old(self).tunnels().remove(port)
                    && r == CtlReply::Info(
                    if old(self).tunnels().contains_key(port) {
                        Some(old(self).tunnels()[port])
                    } else {
                        None
                    },
                ),
                CtlOpt::Contain(port) => final(self).tunnels() == old(self).tunnels() && r
                    == CtlReply::Contain(old(self).tunnels().contains_key(port)),
                CtlOpt::AddData(port, up, down) => final(self).tunnels() == added(
                    old(self).tunnels(),
                    port,
                    up,
                    down,
                ) && r == CtlReply::Done,
                CtlOpt::View => final(self).tunnels() == old(self).tunnels() && r is View
                    && is_snapshot(old(self).tunnels(), r->View_0@),
            },
    {
        match op {
            CtlOpt::Get(port) => CtlReply::Info(self.get(port)),
            CtlOpt::Insert(port, ctl) => CtlReply::Info(self.insert(port, ctl)),
            CtlOpt::Remove(port) => CtlReply::Info(self.remove(port)),
            CtlOpt::Contain(port) => CtlReply::Contain(self.contain(port)),
            CtlOpt::AddData(port, up, down) => {
                self.add_data(port, up, down);
                CtlReply::Done
            },
            CtlOpt::View => CtlReply::View(self.view()),
        }
    }
}

} // verus!
