//! Recovery from a lost connection: a bounded number of attempts, a fixed
//! delay before each.

use vstd::prelude::*;

verus! {

/// How often and how fast to try again.
#[derive(Clone, Copy, Debug, PartialEq, Eq, Structural)]
pub struct ReconnectPolicy {
    /// The number of attempts after which recovery is given up.
    pub max_attempts: u32,
    /// The wait before each attempt, in milliseconds.
    pub delay_ms: u64,
}

impl ReconnectPolicy {
    /// Twelve attempts, five seconds apart.
    pub open spec fn standard() -> ReconnectPolicy {
        ReconnectPolicy { max_attempts: 12, delay_ms: 5000 }
    }
}

impl Default for ReconnectPolicy {
    fn default() -> (policy: ReconnectPolicy)
        ensures
            policy == ReconnectPolicy::standard(),
    {
        ReconnectPolicy { max_attempts: 12, delay_ms: 5000 }
    }
}

/// One attempt to reconnect: wait, then try.
#[derive(Clone, Copy, Debug, PartialEq, Eq, Structural)]
pub struct Attempt {
    /// The attempt's number since the connection was lost, from 1.
    pub number: u32,
    /// The wait before the attempt, in milliseconds.
    pub after_ms: u64,
}

/// The attempt that is due when `made` attempts have failed, or `None` when
/// the budget is used up.
pub open spec fn attempt_after(policy: ReconnectPolicy, made: nat) -> Option<Attempt> {
    if made < policy.max_attempts {
        Some(Attempt { number: (made + 1) as u32, after_ms: policy.delay_ms })
    } else {
        None
    }
}

/// How a recovery ended.
pub struct Recovery {
    /// Whether an attempt reconnected.
    pub reconnected: bool,
    /// The number of attempts that were made.
    pub attempts: nat,
}

/// The recovery that starts after `made` failed attempts when the attempts
/// still to come end as `outcomes` say, each `true` a success. It stops at
/// the first success, when the budget is used up, or when `outcomes` ends.
pub open spec fn recovery_from(policy: ReconnectPolicy, made: nat, outcomes: Seq<bool>) -> Recovery
    decreases outcomes.len(),
{
    if attempt_after(policy, made) is None || outcomes.len() == 0 {
        Recovery { reconnected: false, attempts: made }
    } else if outcomes[0] {
        Recovery { reconnected: true, attempts: made + 1 }
    } else {
        recovery_from(policy, made + 1, outcomes.drop_first())
    }
}

/// The recovery from a lost connection when the attempts end as `outcomes`
/// say.
pub open spec fn recovery(policy: ReconnectPolicy, outcomes: Seq<bool>) -> Recovery {
    recovery_from(policy, 0, outcomes)
}

/// Counts the attempts of one recovery and says which one is due.
#[derive(Clone, Copy, Debug)]
pub struct ReconnectController {
    policy: ReconnectPolicy,
    made: u32,
}

impl ReconnectController {
    #[verifier::type_invariant]
    closed spec fn inv(self) -> bool {
        self.made <= self.policy.max_attempts
    }

    pub closed spec fn policy(self) -> ReconnectPolicy {
        self.policy
    }

    /// The number of attempts handed out since the last reset.
    pub closed spec fn made(self) -> u32 {
        self.made
    }

    /// A controller that has handed out no attempt.
    pub fn new(policy: ReconnectPolicy) -> (c: ReconnectController)
        ensures
            c.policy() == policy,
            c.made() == 0,
    {
        ReconnectController { policy, made: 0 }
    }

    /// The number of attempts handed out since the last reset. It never
    /// exceeds the policy's bound.
    pub fn attempts(&self) -> (made: u32)
        ensures
            made == self.made(),
            made <= self.policy().max_attempts,
    {
        proof {
            use_type_invariant(self);
        }
        self.made
    }

    /// Hands out the next attempt, or `None` when the budget is used up.
    pub fn next_attempt(&mut self) -> (attempt: Option<Attempt>)
        ensures
            attempt == attempt_after(old(self).policy(), old(self).made() as nat),
            final(self).policy() == old(self).policy(),
            final(self).made() == (if attempt is Some {
                old(self).made() + 1
            } else {
                old(self).made() as int
            }),
    {
        proof {
            use_type_invariant(&*self);
        }
        if self.made < self.policy.max_attempts {
            let number: u32 = self.made + 1;
            *self = ReconnectController { policy: self.policy, made: number };
            Some(Attempt { number, after_ms: self.policy.delay_ms })
        } else {
            None
        }
    }

    /// Forgets the attempts made: the connection is back, or a new recovery
    /// begins.
    pub fn reset(&mut self)
        ensures
            final(self).policy() == old(self).policy(),
            final(self).made() == 0,
    {
        *self = ReconnectController { policy: self.policy, made: 0 };
    }
}

/// A recovery never makes more attempts than the policy allows, and none
/// less than were made before it started.
pub proof fn recovery_is_bounded(policy: ReconnectPolicy, made: nat, outcomes: Seq<bool>)
    requires
        made <= policy.max_attempts,
    ensures
        made <= recovery_from(policy, made, outcomes).attempts <= policy.max_attempts,
        recovery_from(policy, made, outcomes).attempts <= made + outcomes.len(),
    decreases outcomes.len(),
{
    if attempt_after(policy, made) is Some && outcomes.len() > 0 && !outcomes[0] {
        recovery_is_bounded(policy, made + 1, outcomes.drop_first());
    }
}

/// A recovery reconnects exactly when one of the attempts within the budget
/// succeeds, and then the last attempt made is the first that succeeds.
pub proof fn recovery_stops_at_first_success(policy: ReconnectPolicy, outcomes: Seq<bool>)
    ensures
        recovery(policy, outcomes).reconnected <==> exists|i: int|
            0 <= i < outcomes.len() && i < policy.max_attempts && outcomes[i],
        recovery(policy, outcomes).reconnected ==> {
            let n = recovery(policy, outcomes).attempts;
            &&& 1 <= n <= outcomes.len()
            &&& outcomes[n - 1]
            &&& forall|j: int| 0 <= j < n - 1 ==> !outcomes[j]
        },
{
    recovery_from_first_success(policy, 0, outcomes);
}

/// A recovery whose attempts all fail gives up after exactly as many
/// attempts as the policy allows.
pub proof fn recovery_gives_up_when_exhausted(policy: ReconnectPolicy, outcomes: Seq<bool>)
    requires
        outcomes.len() >= policy.max_attempts,
        forall|i: int| 0 <= i < policy.max_attempts ==> !outcomes[i],
    ensures
        !recovery(policy, outcomes).reconnected,
        recovery(policy, outcomes).attempts == policy.max_attempts,
{
    recovery_stops_at_first_success(policy, outcomes);
    failed_recovery_tries_all(policy, 0, outcomes);
}

/// A recovery that does not reconnect has made every attempt that the
/// policy and the outcomes at hand allow.
pub proof fn failed_recovery_tries_all(policy: ReconnectPolicy, made: nat, outcomes: Seq<bool>)
    requires
        made <= policy.max_attempts,
        !recovery_from(policy, made, outcomes).reconnected,
    ensures
        recovery_from(policy, made, outcomes).attempts == (if made + outcomes.len()
            <= policy.max_attempts {
            made + outcomes.len()
        } else {
            policy.max_attempts as nat
        }),
    decreases outcomes.len(),
{
    if attempt_after(policy, made) is Some && outcomes.len() > 0 {
        failed_recovery_tries_all(policy, made + 1, outcomes.drop_first());
    }
}

proof fn recovery_from_first_success(policy: ReconnectPolicy, made: nat, outcomes: Seq<bool>)
    ensures
        recovery_from(policy, made, outcomes).reconnected <==> exists|i: int|
            0 <= i < outcomes.len() && made + i < policy.max_attempts && outcomes[i],
        recovery_from(policy, made, outcomes).reconnected ==> {
            let n = recovery_from(policy, made, outcomes).attempts - made;
            &&& 1 <= n <= outcomes.len()
            &&& outcomes[n - 1]
            &&& forall|j: int| 0 <= j < n - 1 ==> !outcomes[j]
        },
    decreases outcomes.len(),
{
    if attempt_after(policy, made) is Some && outcomes.len() > 0 && !outcomes[0] {
        let rest = outcomes.drop_first();
        recovery_from_first_success(policy, made + 1, rest);
        if recovery_from(policy, made, outcomes).reconnected {
            let n = recovery_from(policy, made, outcomes).attempts - made;
            assert forall|j: int| 0 <= j < n - 1 implies !outcomes[j] by {
                if j > 0 {
                    assert(!rest[j - 1]);
                }
            }
        }
        if exists|i: int| 0 <= i < outcomes.len() && made + i < policy.max_attempts && outcomes[i] {
            let i = choose|i: int|
                0 <= i < outcomes.len() && made + i < policy.max_attempts && outcomes[i];
            assert(rest[i - 1]);
        }
    }
}

} // verus!
