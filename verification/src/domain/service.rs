//! What a service does with a create, whatever it creates.
//!
//! A service hands the request to its repository and returns what the
//! repository returned, unchanged and without trying again. In between it
//! reports the outcome to the metrics and, after a success, has the creation
//! notified. Those side effects are advisory: they are not asked what came
//! of them, and nothing they do changes what is returned.

use vstd::prelude::*;

verus! {

/// A side effect that the service asks for once the repository has answered.
#[derive(Clone, Copy, Debug, PartialEq, Eq, Structural)]
pub enum SideEffect {
    /// Count a creation that failed.
    RecordFailure,
    /// Count a creation that succeeded.
    RecordSuccess,
    /// Tell of what was created.
    Notify,
}

/// The side effects that follow a create, in order: after a failure the
/// failure is counted; after a success the success is counted and then the
/// creation is notified.
pub open spec fn effects_after(succeeded: bool) -> Seq<SideEffect> {
    if succeeded {
        seq![SideEffect::RecordSuccess, SideEffect::Notify]
    } else {
        seq![SideEffect::RecordFailure]
    }
}

/// Takes what the repository returned for a create and gives it back as it
/// is, with the side effects that are due.
pub fn complete<A, E>(persisted: Result<A, E>) -> (completed: (Result<A, E>, Vec<SideEffect>))
    ensures
        completed.0 == persisted,
        completed.1@ == effects_after(persisted is Ok),
{
    let mut effects = Vec::new();
    if persisted.is_err() {
        effects.push(SideEffect::RecordFailure);
    } else {
        effects.push(SideEffect::RecordSuccess);
        effects.push(SideEffect::Notify);
    }
    assert(effects@ =~= effects_after(persisted is Ok));
    (persisted, effects)
}

/// Every create is counted exactly once, as what it was; a creation is
/// notified exactly once, after it was counted, and a failure never is.
pub proof fn lemma_effects_match_outcome(succeeded: bool)
    ensures
        effects_after(succeeded).contains(SideEffect::RecordSuccess) <==> succeeded,
        effects_after(succeeded).contains(SideEffect::RecordFailure) <==> !succeeded,
        effects_after(succeeded).contains(SideEffect::Notify) <==> succeeded,
        effects_after(succeeded).no_duplicates(),
        succeeded ==> effects_after(succeeded).index_of(SideEffect::RecordSuccess)
            < effects_after(succeeded).index_of(SideEffect::Notify),
{
    let effects = effects_after(succeeded);
    if succeeded {
        assert(effects[0] == SideEffect::RecordSuccess);
        assert(effects[1] == SideEffect::Notify);
    } else {
        assert(effects[0] == SideEffect::RecordFailure);
    }
}

} // verus!
