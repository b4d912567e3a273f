//! The port allocator: which public port a new tunnel tries to bind, within
//! the configured range `[start, end)`.
//!
//! A search is a small state machine. Its caller binds each port it is
//! handed and reports a failure back, until a bind succeeds or the search
//! gives up. Where no particular port was asked for, the search starts at a
//! cursor that all searches share and wraps from the end of the range back
//! to its start; after a success the caller moves the cursor past the port.

use std::ops::Range;
use vstd::prelude::*;

verus! {

/// Why no port could be allocated.
#[derive(Debug)]
pub enum AllocError {
    /// The port asked for lies outside the range.
    NotInRange,
    /// Every port of the range was tried and none could be bound.
    NoPortAvailable,
    /// The port asked for could not be bound; the system's reason.
    Bind(String),
}

impl AllocError {
    /// The error's text.
    pub fn message(&self) -> (r: String)
        ensures
            r@ == alloc_error_text(*self),
    {
        match self {
            AllocError::NotInRange => String::from_str("port not in range"),
            AllocError::NoPortAvailable => String::from_str("no port available"),
            AllocError::Bind(detail) => detail.clone(),
        }
    }
}

/// The text of an allocation error.
pub open spec fn alloc_error_text(e: AllocError) -> Seq<char> {
    match e {
        AllocError::NotInRange => "port not in range"@,
        AllocError::NoPortAvailable => "no port available"@,
        AllocError::Bind(detail) => detail@,
    }
}

/// What the caller does next.
#[derive(Debug)]
pub enum AllocStep {
    /// Try to bind this port.
    TryBind(u16),
    /// Give up.
    Fail(AllocError),
}

/// The port tried after `k` failures of a search over `[min, max)` that
/// began at `first`.
pub open spec fn candidate(min: u16, max: u16, first: u16, k: int) -> int {
    min + (first - min + k) % (max - min)
}

/// Where a search for any port begins: at the cursor, or at the start of the
/// range where the cursor lies outside it.
pub open spec fn first_candidate(min: u16, max: u16, cursor: u16) -> u16 {
    if min <= cursor < max {
        cursor
    } else {
        min
    }
}

/// One search for a port.
#[derive(Debug)]
pub struct PortSearch {
    /// Start of the range.
    pub min: u16,
    /// End of the range, excluded.
    pub max: u16,
    /// The port asked for, or 0 for any.
    pub requested: u16,
    /// The first port tried where any will do.
    pub first: u16,
    /// How many ports failed so far.
    pub failed: u32,
}

impl PortSearch {
    /// The state of a search that is under way.
    pub open spec fn wf(&self) -> bool {
        &&& self.min < self.max
        &&& self.requested == 0 ==> {
            &&& self.min <= self.first < self.max
            &&& self.failed < self.max - self.min
        }
        &&& self.requested != 0 ==> {
            &&& self.min <= self.requested < self.max
            &&& self.failed == 0
        }
    }

    /// Starts a search for `requested` (0 for any) in `range`, with the
    /// shared cursor at `cursor`, and says what to do first.
    pub fn begin(range: &Range<u16>, cursor: u16, requested: u16) -> (r: (PortSearch, AllocStep))
        ensures
            requested != 0 && range.start <= requested < range.end ==> r.0.wf()
                && r.1 == AllocStep::TryBind(requested),
            requested != 0 && !(range.start <= requested < range.end) ==> r.1
                == AllocStep::Fail(AllocError::NotInRange),
            requested == 0 && range.start < range.end ==> r.0.wf() && r.1 == AllocStep::TryBind(
                first_candidate(range.start, range.end, cursor),
            ),
            requested == 0 && range.start >= range.end ==> r.1 == AllocStep::Fail(
                AllocError::NoPortAvailable,
            ),
            r.0.min == range.start,
            r.0.max == range.end,
            r.0.requested == requested,
            r.0.failed == 0,
            r.0.first == first_candidate(range.start, range.end, cursor),
            r.1 matches AllocStep::TryBind(port) ==> range.start <= port < range.end,
    {
        let min = range.start;
        let max = range.end;
        let first = if min <= cursor && cursor < max {
            cursor
        } else {
            min
        };
        let search = PortSearch { min, max, requested, first, failed: 0 };
        if requested != 0 {
            if min <= requested && requested < max {
                (search, AllocStep::TryBind(requested))
            } else {
                (search, AllocStep::Fail(AllocError::NotInRange))
            }
        } else if min < max {
            (search, AllocStep::TryBind(first))
        } else {
            (search, AllocStep::Fail(AllocError::NoPortAvailable))
        }
    }

    /// The port this search is trying now.
    pub open spec fn current(&self) -> int {
        if self.requested != 0 {
            self.requested as int
        } else {
            candidate(self.min, self.max, self.first, self.failed as int)
        }
    }

    /// Records that the current port could not be bound, for the reason
    /// `detail`, and says what to do next: a requested port fails with that
    /// reason; otherwise the next port of the range is tried, until every
    /// port has been.
    pub fn bind_failed(&mut self, detail: String) -> (r: AllocStep)
        requires
            old(self).wf(),
        ensures
            old(self).requested != 0 ==> r == AllocStep::Fail(AllocError::Bind(detail)),
            old(self).requested == 0 ==> final(self).failed == old(self).failed + 1,
            old(self).requested == 0 && old(self).failed + 1 == old(self).max - old(self).min ==> r
                == AllocStep::Fail(AllocError::NoPortAvailable),
            old(self).requested == 0 && old(self).failed + 1 < old(self).max - old(self).min ==> {
                &&& final(self).wf()
                &&& r == AllocStep::TryBind(final(self).current() as u16)
            },
            final(self).min == old(self).min,
            final(self).max == old(self).max,
            final(self).requested == old(self).requested,
            final(self).first == old(self).first,
            r matches AllocStep::TryBind(port) ==> old(self).min <= port < old(self).max,
    {
        if self.requested != 0 {
            return AllocStep::Fail(AllocError::Bind(detail));
        }
        self.failed = self.failed + 1;
        let span: u32 = (self.max - self.min) as u32;
        if self.failed >= span {
            return AllocStep::Fail(AllocError::NoPortAvailable);
        }
        let offset: u32 = ((self.first - self.min) as u32 + self.failed) % span;
        let port: u16 = (self.min as u32 + offset) as u16;
        AllocStep::TryBind(port)
    }

    /// The cursor to store once `port` is bound: the port after it, where
    /// any port would do; a requested port leaves the cursor alone.
    pub fn bound(&self, port: u16) -> (r: Option<u16>)
        requires
            self.wf(),
            port < self.max,
        ensures
            self.requested == 0 ==> r == Some((port + 1) as u16),
            self.requested != 0 ==> r is None,
    {
        if self.requested == 0 {
            Some(port + 1)
        } else {
            None
        }
    }
}

impl PortSearch {
    /// The cursor to store once the search has failed: the start of the
    /// range, where any port would do, so that the next search begins
    /// there; a requested port leaves the cursor alone.
    pub fn cursor_after_failure(&self) -> (r: Option<u16>)
        ensures
            self.requested == 0 ==> r == Some(self.min),
            self.requested != 0 ==> r is None,
    {
        if self.requested == 0 {
            Some(self.min)
        } else {
            None
        }
    }
}

/// Every port a search hands out lies within the range.
pub proof fn lemma_current_in_range(s: PortSearch)
    requires
        s.wf(),
    ensures
        s.min <= s.current() < s.max,
{
}

/// A search for any port tries each port of the range at most once.
pub proof fn lemma_candidates_distinct(min: u16, max: u16, first: u16, i: int, j: int)
    requires
        min <= first < max,
        0 <= i < j < max - min,
    ensures
        candidate(min, max, first, i) != candidate(min, max, first, j),
{
    let n = max - min;
    let a = first - min;
    assert((a + i) % n != (a + j) % n) by (nonlinear_arith)
        requires
            0 <= a < n,
            0 <= i < j < n,
    {
        vstd::arithmetic::div_mod::lemma_fundamental_div_mod(a + i, n);
        vstd::arithmetic::div_mod::lemma_fundamental_div_mod(a + j, n);
    }
}

} // verus!
