use std::collections::VecDeque;
use vstd::prelude::*;

verus! {

/// How the platform itself names a monitor.
#[derive(Debug, PartialEq, Eq)]
pub enum NativeMonitorId {
    /// A numeric identifier.
    Numeric(u32),
    /// A textual identifier.
    Name(String),
    /// The platform gives no identifier.
    Unavailable,
}

/// An independent copy of a native identifier.
pub fn copy_native_id(id: &NativeMonitorId) -> (r: NativeMonitorId)
    ensures
        r == *id,
{
    match id {
        NativeMonitorId::Numeric(n) => NativeMonitorId::Numeric(*n),
        NativeMonitorId::Name(s) => NativeMonitorId::Name(s.clone()),
        NativeMonitorId::Unavailable => NativeMonitorId::Unavailable,
    }
}

/// An independent copy of an optional string.
pub fn copy_opt_string(s: &Option<String>) -> (r: Option<String>)
    ensures
        r == *s,
{
    match s {
        Some(t) => Some(t.clone()),
        None => None,
    }
}

/// Identifier for a monitor, as the platform reported it when monitors were enumerated.
#[derive(Debug)]
pub struct MonitorId {
    pub name: Option<String>,
    pub native_id: NativeMonitorId,
    pub dimensions: (u32, u32),
}

impl MonitorId {
    /// A monitor with the given name, native identifier and size in pixels.
    pub fn new(name: Option<String>, native_id: NativeMonitorId, dimensions: (u32, u32)) -> (r:
        MonitorId)
        ensures
            r.name == name,
            r.native_id == native_id,
            r.dimensions == dimensions,
    {
        MonitorId { name, native_id, dimensions }
    }

    /// Returns a human-readable name of the monitor, if the platform gave one.
    pub fn get_name(&self) -> (r: Option<String>)
        ensures
            r == self.name,
    {
        copy_opt_string(&self.name)
    }

    /// Returns the native platform identifier for this monitor.
    pub fn get_native_identifier(&self) -> (r: NativeMonitorId)
        ensures
            r == self.native_id,
    {
        copy_native_id(&self.native_id)
    }

    /// Returns the number of pixels currently displayed on the monitor.
    pub fn get_dimensions(&self) -> (r: (u32, u32))
        ensures
            r == self.dimensions,
    {
        self.dimensions
    }

    /// An independent copy of this identifier.
    pub fn duplicate(&self) -> (r: MonitorId)
        ensures
            r == *self,
    {
        MonitorId {
            name: copy_opt_string(&self.name),
            native_id: copy_native_id(&self.native_id),
            dimensions: self.dimensions,
        }
    }
}

/// The monitors of one enumeration, served one by one in the order they were listed.
pub struct AvailableMonitorsIter {
    data: VecDeque<MonitorId>,
}

impl View for AvailableMonitorsIter {
    type V = Seq<MonitorId>;

    /// The monitors not yet served.
    closed spec fn view(&self) -> Seq<MonitorId> {
        self.data@
    }
}

/// What one call of `next` returns, and what remains after it, when `s` remains.
pub open spec fn next_step(s: Seq<MonitorId>) -> (Option<MonitorId>, Seq<MonitorId>) {
    if s.len() == 0 {
        (None, s)
    } else {
        (Some(s[0]), s.drop_first())
    }
}

/// What remains after `k` calls of `next`, when `s` remained.
pub open spec fn after_calls(s: Seq<MonitorId>, k: nat) -> Seq<MonitorId>
    decreases k,
{
    if k == 0 {
        s
    } else {
        after_calls(next_step(s).1, (k - 1) as nat)
    }
}

/// `k` calls of `next`, at most as many as remain, leave the monitors after the
/// first `k`.
pub proof fn lemma_after_calls(s: Seq<MonitorId>, k: nat)
    requires
        k <= s.len(),
    ensures
        after_calls(s, k) == s.skip(k as int),
    decreases k,
{
    if k == 0 {
        assert(s.skip(0) =~= s);
    } else {
        lemma_after_calls(next_step(s).1, (k - 1) as nat);
        assert(s.drop_first().skip(k - 1) =~= s.skip(k as int));
    }
}

/// An enumeration of `n` monitors serves each of them in order on the first `n`
/// calls of `next`, and `None` on the call after: iterating it to the end takes
/// `n + 1` calls.
pub proof fn lemma_enumeration_ends(s: Seq<MonitorId>)
    ensures
        forall|i: nat| i < s.len() ==> #[trigger] next_step(after_calls(s, i)).0 == Some(s[i as int]),
        next_step(after_calls(s, s.len())).0 is None,
{
    assert forall|i: nat| i < s.len() implies #[trigger] next_step(after_calls(s, i)).0 == Some(s[i as int]) by {
        lemma_after_calls(s, i);
    }
    lemma_after_calls(s, s.len());
}

impl AvailableMonitorsIter {
    /// Serves the next monitor of the snapshot; `None` once all were served.
    pub fn next(&mut self) -> (r: Option<MonitorId>)
        ensures
            (r, final(self)@) == next_step(old(self)@),
            old(self)@.len() == 0 ==> r is None && final(self)@ == old(self)@,
            old(self)@.len() > 0 ==> r == Some(old(self)@[0]) && final(self)@ == old(self)@.drop_first(),
    {
        self.data.pop_front()
    }

    /// Lower and upper bound on the number of monitors still to come; both are exact.
    pub fn size_hint(&self) -> (r: (usize, Option<usize>))
        ensures
            r.0 == self@.len(),
            r.1 == Some(self@.len() as usize),
    {
        let n = self.data.len();
        (n, Some(n))
    }
}

impl AvailableMonitorsIter {
    /// Serves every remaining monitor, in order; this always ends.
    pub fn into_vec(self) -> (r: Vec<MonitorId>)
        ensures
            r@ == self@,
    {
        let mut it = self;
        let mut out: Vec<MonitorId> = Vec::new();
        let ghost all = it@;
        loop
            invariant
                all == out@ + it@,
            ensures
                out@ == all,
            decreases it@.len(),
        {
            match it.next() {
                Some(m) => {
                    out.push(m);
                    assert(all =~= out@ + it@);
                },
                None => {
                    assert(out@ =~= all);
                    break;
                },
            }
        }
        out
    }
}

/// Returns the monitors of one enumeration snapshot, in the order the platform listed them.
/// Later changes to the platform's monitors do not reach an iterator already made.
pub fn get_available_monitors(snapshot: Vec<MonitorId>) -> (r: AvailableMonitorsIter)
    ensures
        r@ == snapshot@,
{
    let ghost all = snapshot@;
    let mut rest = snapshot;
    let mut data: VecDeque<MonitorId> = VecDeque::new();
    while rest.len() > 0
        invariant
            rest@.len() <= all.len(),
            rest@ == all.subrange(0, rest@.len() as int),
            data@ == all.subrange(rest@.len() as int, all.len() as int),
        decreases rest.len(),
    {
        let m = rest.pop().unwrap();
        data.push_front(m);
        assert(data@ =~= all.subrange(rest@.len() as int, all.len() as int));
    }
    AvailableMonitorsIter { data }
}

/// Returns the primary monitor: an enumeration lists it first.
pub fn get_primary_monitor(snapshot: &Vec<MonitorId>) -> (r: MonitorId)
    requires
        snapshot@.len() > 0,
    ensures
        r == snapshot@[0],
{
    snapshot[0].duplicate()
}

} // verus!
