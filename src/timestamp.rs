use vstd::prelude::*;

verus! {

/// Nanoseconds in one second.
pub const NANOS_PER_SEC: u32 = 1_000_000_000;

/// A point in time, as the distance after the Unix epoch.
#[derive(PartialEq, Eq, Structural, Clone, Copy, Debug)]
pub struct Timestamp {
    pub secs: u64,
    pub nanos: u32,
}

/// For well-formed timestamps, comparing nanoseconds since the epoch is
/// comparing seconds first and the fraction second.
pub proof fn lemma_order_by_fields(a: Timestamp, b: Timestamp)
    requires
        a.wf(),
        b.wf(),
    ensures
        a.total_nanos() > b.total_nanos() <==> (a.secs > b.secs || (a.secs == b.secs && a.nanos
            > b.nanos)),
        a.total_nanos() == b.total_nanos() <==> a == b,
{
    let (sa, na, sb, nb) = (a.secs as int, a.nanos as int, b.secs as int, b.nanos as int);
    let k = NANOS_PER_SEC as int;
    assert(sa > sb ==> sa * k + na > sb * k + nb) by (nonlinear_arith)
        requires
            0 <= na < k,
            0 <= nb < k,
    ;
    assert(sa < sb ==> sa * k + na < sb * k + nb) by (nonlinear_arith)
        requires
            0 <= na < k,
            0 <= nb < k,
    ;
}

/// Distinct well-formed timestamps name distinct instants, and a timestamp
/// other than the epoch lies strictly after it.
pub proof fn lemma_positive_unless_epoch(t: Timestamp)
    requires
        t.wf(),
    ensures
        t.total_nanos() >= 0,
        t.total_nanos() == 0 <==> (t.secs == 0 && t.nanos == 0),
{
    let (s, n) = (t.secs as int, t.nanos as int);
    let k = NANOS_PER_SEC as int;
    assert(s >= 1 ==> s * k + n >= k) by (nonlinear_arith)
        requires
            0 <= n,
            k > 0,
    ;
    assert(s * k >= 0) by (nonlinear_arith)
        requires
            s >= 0,
            k > 0,
    ;
}

impl Timestamp {
    /// The fractional part is below one second.
    pub open spec fn wf(self) -> bool {
        self.nanos < NANOS_PER_SEC
    }

    /// The instant as nanoseconds after the epoch.
    pub open spec fn total_nanos(self) -> int {
        self.secs * NANOS_PER_SEC + self.nanos
    }

    /// Builds a timestamp; `None` when `nanos` is a whole second or more.
    pub fn new(secs: u64, nanos: u32) -> (r: Option<Timestamp>)
        ensures
            r matches Some(t) <==> nanos < NANOS_PER_SEC,
            r matches Some(t) ==> t.secs == secs && t.nanos == nanos,
    {
        if nanos < NANOS_PER_SEC {
            Some(Timestamp { secs, nanos })
        } else {
            None
        }
    }

    /// The Unix epoch itself.
    pub fn epoch() -> (r: Timestamp)
        ensures
            r.wf(),
            r.total_nanos() == 0,
    {
        Timestamp { secs: 0, nanos: 0 }
    }

    /// Whether this instant lies strictly after `other`.
    pub fn is_later_than(&self, other: &Timestamp) -> (r: bool)
        requires
            self.wf(),
            other.wf(),
        ensures
            r == (self.total_nanos() > other.total_nanos()),
    {
        proof {
            lemma_order_by_fields(*self, *other);
        }
        self.secs > other.secs || (self.secs == other.secs && self.nanos > other.nanos)
    }
}

} // verus!
