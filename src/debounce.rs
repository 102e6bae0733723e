use vstd::prelude::*;

verus! {

/// Minimum quiet interval, in milliseconds, between two accepted change events.
pub const QUIET_INTERVAL_MS: u64 = 25;

/// Milliseconds elapsed from `last` to `now`; zero when `now` lies before `last`.
pub open spec fn elapsed(last: u64, now: u64) -> nat {
    if now >= last {
        (now - last) as nat
    } else {
        0
    }
}

/// Whether an event at `now` is accepted, given the time of the previous event.
pub open spec fn accepts(last: Option<u64>, now: u64) -> bool {
    match last {
        None => true,
        Some(t) => elapsed(t, now) >= QUIET_INTERVAL_MS,
    }
}

/// The accept decisions for events at `times`, evaluated in order, starting from `last`.
pub open spec fn decisions(last: Option<u64>, times: Seq<u64>) -> Seq<bool>
    decreases times.len(),
{
    if times.len() == 0 {
        Seq::empty()
    } else {
        seq![accepts(last, times[0])] + decisions(Some(times[0]), times.drop_first())
    }
}

/// A burst of events, each arriving inside the quiet interval after the one before,
/// is accepted at most once: only its first event can be accepted, and it is whenever
/// the guard would accept it alone.
pub proof fn lemma_burst_accepted_once(last: Option<u64>, times: Seq<u64>)
    requires
        times.len() >= 1,
        forall|i: int| 0 < i < times.len() ==> elapsed(times[i - 1], #[trigger] times[i]) < QUIET_INTERVAL_MS,
    ensures
        decisions(last, times).len() == times.len(),
        decisions(last, times)[0] == accepts(last, times[0]),
        forall|i: int| 0 < i < times.len() ==> !#[trigger] decisions(last, times)[i],
    decreases times.len(),
{
    let rest = times.drop_first();
    if rest.len() >= 1 {
        assert forall|i: int| 0 < i < rest.len() implies elapsed(rest[i - 1], #[trigger] rest[i]) < QUIET_INTERVAL_MS by {
            assert(rest[i - 1] == times[i] && rest[i] == times[i + 1]);
        }
        lemma_burst_accepted_once(Some(times[0]), rest);
        assert(rest[0] == times[1]);
        assert(!accepts(Some(times[0]), rest[0]));
        assert forall|i: int| 0 < i < times.len() implies !#[trigger] decisions(last, times)[i] by {
            assert(decisions(last, times)[i] == decisions(Some(times[0]), rest)[i - 1]);
        }
    } else {
        assert(decisions(Some(times[0]), rest) =~= Seq::empty());
    }
}

/// Of two consecutive events, the second is accepted exactly when at least the quiet
/// interval separates them: closer events collapse into one, events further apart
/// are each accepted.
pub proof fn lemma_two_events(last: Option<u64>, t1: u64, t2: u64)
    ensures
        decisions(last, seq![t1, t2]).len() == 2,
        decisions(last, seq![t1, t2])[0] == accepts(last, t1),
        decisions(last, seq![t1, t2])[1] == (elapsed(t1, t2) >= QUIET_INTERVAL_MS),
{
    let s = seq![t1, t2];
    assert(s.drop_first() =~= seq![t2]);
    assert(seq![t2].drop_first() =~= Seq::<u64>::empty());
    assert(decisions(Some(t2), Seq::<u64>::empty()) =~= Seq::<bool>::empty());
    reveal_with_fuel(decisions, 3);
}

/// Suppresses change events that arrive inside the quiet interval.
pub struct DebounceGuard {
    last_event_ms: Option<u64>,
}

impl DebounceGuard {
    /// The time of the last evaluated event; `None` when no event was seen yet.
    pub closed spec fn last(&self) -> Option<u64> {
        self.last_event_ms
    }

    /// A guard that accepts the first event it sees.
    pub fn new() -> (r: Self)
        ensures
            r.last() is None,
    {
        DebounceGuard { last_event_ms: None }
    }

    /// Forgets the last event, so that the next one is accepted.
    pub fn reset(&mut self)
        ensures
            final(self).last() is None,
    {
        self.last_event_ms = None;
    }

    /// Decides whether an event at `now_ms` is accepted, and records it as the last event.
    pub fn should_accept(&mut self, now_ms: u64) -> (r: bool)
        ensures
            r == accepts(old(self).last(), now_ms),
            final(self).last() == Some(now_ms),
    {
        let r = match self.last_event_ms {
            None => true,
            Some(t) => {
                let gap: u64 = if now_ms >= t { now_ms - t } else { 0 };
                gap >= QUIET_INTERVAL_MS
            },
        };
        self.last_event_ms = Some(now_ms);
        r
    }
}

} // verus!
