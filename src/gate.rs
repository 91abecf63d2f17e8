//! The rate limiter in front of the upstream profile service, and the decision
//! of what a request does about enrichment.
//!
//! Times are nanoseconds on a monotonic clock, as the caller reads it.
use vstd::prelude::*;
use crate::params::RenderParams;

verus! {

/// Least time between two lookups that get through: 500 ms.
pub const DEBOUNCE_NANOS: u64 = 500_000_000;

/// When a lookup last got through, shared by all callers.
#[derive(Clone, Copy, Debug, PartialEq, Eq, Structural)]
pub struct RateGate {
    /// `None` until a lookup has passed.
    pub last: Option<u64>,
}

/// What a request does about enrichment.
#[derive(Clone, Copy, Debug, PartialEq, Eq, Structural)]
pub enum EnrichStep {
    /// No lookup was asked for, or there is no player name to look up.
    Skip,
    /// A lookup got through too recently: answer with the rate-limit
    /// message and make no outbound call.
    RateLimited,
    /// Fetch the player's profile.
    Fetch,
}

/// Whether a lookup at `now` may pass a limiter last passed at `last`: more than
/// the debounce window has gone by. A clock reading before `last` counts as no
/// time gone by.
pub open spec fn may_pass(last: Option<u64>, now: u64) -> bool {
    match last {
        Some(t) => now as int - t as int > DEBOUNCE_NANOS as int,
        None => true,
    }
}

/// The limiter after a lookup at `now` was let through or not.
pub open spec fn after_attempt(g: RateGate, now: u64) -> RateGate {
    if may_pass(g.last, now) {
        RateGate { last: Some(now) }
    } else {
        g
    }
}

/// The step a request takes: a lookup needs to be asked for and a player name
/// to look up; then the limiter decides.
pub open spec fn step_spec(g: RateGate, wanted: bool, has_name: bool, now: u64) -> EnrichStep {
    if !(wanted && has_name) {
        EnrichStep::Skip
    } else if may_pass(g.last, now) {
        EnrichStep::Fetch
    } else {
        EnrichStep::RateLimited
    }
}

pub open spec fn wants_lookup(p: RenderParams) -> bool {
    p.use_player_api == Some(true)
}

impl RateGate {
    /// A gate that no lookup has passed yet.
    pub fn new() -> (r: RateGate)
        ensures
            r.last is None,
    {
        RateGate { last: None }
    }

    /// Tests and sets the limiter in one step: a lookup at `now` passes if the
    /// window has gone by since the last one that passed, and then becomes the
    /// last one.
    pub fn try_pass(&mut self, now: u64) -> (passed: bool)
        ensures
            passed == may_pass(old(self).last, now),
            *final(self) == after_attempt(*old(self), now),
    {
        let passed = match self.last {
            Some(t) => now > t && now - t > DEBOUNCE_NANOS,
            None => true,
        };
        if passed {
            self.last = Some(now);
        }
        passed
    }
}

/// Decides what a request does about enrichment, taking the limiter's time slot
/// when it fetches. The limiter is touched only when a lookup is asked for and a
/// player name is there.
pub fn plan_enrichment(gate: &mut RateGate, p: &RenderParams, now: u64) -> (step: EnrichStep)
    ensures
        step == step_spec(*old(gate), wants_lookup(*p), p.player_name is Some, now),
        *final(gate) == (if wants_lookup(*p) && p.player_name is Some {
            after_attempt(*old(gate), now)
        } else {
            *old(gate)
        }),
{
    let wanted = match p.use_player_api {
        Some(b) => b,
        None => false,
    };
    if !(wanted && p.player_name.is_some()) {
        return EnrichStep::Skip;
    }
    if gate.try_pass(now) {
        EnrichStep::Fetch
    } else {
        EnrichStep::RateLimited
    }
}

/// Of two lookups whose clock readings lie within the debounce window of each
/// other, at most one gets through, whatever state it was in.
pub proof fn lemma_at_most_one_within_window(g: RateGate, t1: u64, t2: u64)
    requires
        t1 <= t2,
        t2 - t1 <= DEBOUNCE_NANOS,
    ensures
        !(may_pass(g.last, t1) && may_pass(after_attempt(g, t1).last, t2)),
{
}

/// Two requests that both ask for a lookup of a named player, within the
/// debounce window of each other, on a limiter that lets the first through:
/// exactly one fetches, and the other is rate limited without a fetch.
pub proof fn lemma_exactly_one_fetches(g: RateGate, t1: u64, t2: u64)
    requires
        t1 <= t2,
        t2 - t1 <= DEBOUNCE_NANOS,
        may_pass(g.last, t1),
    ensures
        step_spec(g, true, true, t1) == EnrichStep::Fetch,
        step_spec(after_attempt(g, t1), true, true, t2) == EnrichStep::RateLimited,
{
}

} // verus!
