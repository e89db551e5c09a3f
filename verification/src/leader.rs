//! Which agent leads. The one that holds a lease does; it asks for more time on the lease well
//! before the lease ends.
use crate::views::DeepClone;
use vstd::prelude::*;

verus! {

/// How long an agent rests after it could not ask for the lease.
pub const LEASE_RETRY_NANOS: u128 = 2_000_000_000;

/// Whether this agent leads.
#[derive(Clone, Debug, PartialEq, Eq)]
pub struct LeaderState {
    pub leader: bool,
}

/// The view of [`LeaderState`].
pub struct LeaderStateView {
    pub leader: bool,
}

impl DeepView for LeaderState {
    type V = LeaderStateView;

    open spec fn deep_view(&self) -> LeaderStateView {
        LeaderStateView {
            leader: self.leader.deep_view(),
        }
    }
}

impl DeepClone for LeaderState {
    fn deep_clone(&self) -> (copy: Self) {
        LeaderState {
            leader: self.leader.deep_clone(),
        }
    }
}

/// What came of asking for the lease, or for more time on it.
#[derive(Clone, Copy, Debug, PartialEq, Eq)]
pub enum LeaseOutcome {
    Acquired,
    NotAcquired,
    Failed,
}

impl DeepView for LeaseOutcome {
    type V = LeaseOutcome;

    open spec fn deep_view(&self) -> LeaseOutcome {
        *self
    }
}

impl DeepClone for LeaseOutcome {
    fn deep_clone(&self) -> (copy: Self) {
        *self
    }
}

/// What follows from it.
#[derive(Clone, Debug, PartialEq, Eq)]
pub struct LeaderStep {
    pub state: LeaderState,
    /// Whether the agent now leads, where that changed.
    pub changed: Option<bool>,
    /// How long it rests before it asks again.
    pub wait_nanos: u128,
}

/// The view of [`LeaderStep`].
pub struct LeaderStepView {
    pub state: LeaderStateView,
    pub changed: Option<bool>,
    pub wait_nanos: u128,
}

impl DeepView for LeaderStep {
    type V = LeaderStepView;

    open spec fn deep_view(&self) -> LeaderStepView {
        LeaderStepView {
            state: self.state.deep_view(),
            changed: self.changed.deep_view(),
            wait_nanos: self.wait_nanos.deep_view(),
        }
    }
}

impl DeepClone for LeaderStep {
    fn deep_clone(&self) -> (copy: Self) {
        LeaderStep {
            state: self.state.deep_clone(),
            changed: self.changed.deep_clone(),
            wait_nanos: self.wait_nanos.deep_clone(),
        }
    }
}

impl LeaderState {
    /// An agent does not lead before it holds the lease.
    pub fn new() -> (r: Self)
        ensures
            r.deep_view() == (LeaderStateView { leader: false }),
    {
        LeaderState { leader: false }
    }

    /// Whether the agent leads.
    pub fn is_leader(&self) -> (r: bool)
        ensures
            r == self.deep_view().leader,
    {
        self.leader
    }

    /// Sets whether the agent leads; says so where that changed.
    pub fn set(&mut self, value: bool) -> (r: Option<bool>)
        ensures
            final(self).deep_view().leader == value,
            r == (if old(self).deep_view().leader != value {
                Some(value)
            } else {
                None
            }),
    {
        let changed = if self.leader != value {
            Some(value)
        } else {
            None
        };
        self.leader = value;
        changed
    }
}

/// A third of the time for which a lease is given.
pub open spec fn renew_nanos(lease_ttl_secs: u64) -> u128 {
    (lease_ttl_secs * 1_000_000_000 / 3) as u128
}

/// What follows from asking for the lease. Where that failed, the agent leads or not as before:
/// a lease that it holds is good until it ends.
pub open spec fn leader_next(state: LeaderStateView, outcome: LeaseOutcome, lease_ttl_secs: u64) -> LeaderStepView {
    match outcome {
        LeaseOutcome::Failed => LeaderStepView { state, changed: None, wait_nanos: LEASE_RETRY_NANOS },
        _ => {
            let leader = outcome == LeaseOutcome::Acquired;
            LeaderStepView {
                state: LeaderStateView { leader },
                changed: if state.leader != leader {
                    Some(leader)
                } else {
                    None
                },
                wait_nanos: renew_nanos(lease_ttl_secs),
            }
        },
    }
}

/// What follows from asking for the lease.
pub fn leader_step(state: LeaderState, outcome: LeaseOutcome, lease_ttl_secs: u64) -> (r: LeaderStep)
    ensures
        r.deep_view() == leader_next(state.deep_view(), outcome, lease_ttl_secs),
{
    match outcome {
        LeaseOutcome::Failed => LeaderStep { state, changed: None, wait_nanos: LEASE_RETRY_NANOS },
        _ => {
            let mut state = state;
            let changed = state.set(matches!(outcome, LeaseOutcome::Acquired));
            let wait_nanos: u128 = lease_ttl_secs as u128 * 1_000_000_000 / 3;
            LeaderStep { state, changed, wait_nanos }
        },
    }
}

/// An agent asks again well before the lease ends: in no more than a third of its time, whatever
/// that is, unless it could not ask.
pub proof fn lemma_renewed_in_time(state: LeaderStateView, outcome: LeaseOutcome, lease_ttl_secs: u64)
    ensures
        outcome != LeaseOutcome::Failed ==> leader_next(state, outcome, lease_ttl_secs).wait_nanos * 3
            <= lease_ttl_secs * 1_000_000_000,
        outcome == LeaseOutcome::Failed ==> leader_next(state, outcome, lease_ttl_secs).state == state,
{
}

// ------------------------------------------------------------- what it is for

/// An agent leads exactly where it last got the lease; where it could not ask, it stays what it was
/// and asks again in two seconds. A change is told, and nothing else is.
pub proof fn lemma_leads_who_has_the_lease(state: LeaderStateView, outcome: LeaseOutcome, lease_ttl_secs: u64)
    ensures
        ({
            let step = leader_next(state, outcome, lease_ttl_secs);
            &&& outcome == LeaseOutcome::Acquired ==> step.state.leader
            &&& outcome == LeaseOutcome::NotAcquired ==> !step.state.leader
            &&& outcome == LeaseOutcome::Failed ==> step.state.leader == state.leader && step.wait_nanos == 2_000_000_000
            &&& step.changed == (if step.state.leader != state.leader {
                Some(step.state.leader)
            } else {
                None
            })
            &&& outcome != LeaseOutcome::Failed ==> 3 * step.wait_nanos <= lease_ttl_secs * 1_000_000_000 < 3
                * step.wait_nanos + 3
        }),
{
}

} // verus!
