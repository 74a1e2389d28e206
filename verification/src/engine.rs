//! The reconciliation engine: classification of a resource's lifecycle state
//! into an action, and the pass state machine that sequences the port calls
//! of one reconciliation pass.
//!
//! A pass makes at most two calls on the outside world. The machine fixes
//! their order: on the create path the lifecycle guard is attached before the
//! topic is created, and on the delete path the topic is deleted before the
//! guard is released. A driver starts a pass with [`start_pass`], performs
//! each requested [`PortCall`], and feeds the observed [`PortOutcome`] back
//! through [`advance`] until the pass is [`PassState::Done`].

use crate::model::ResourceHandle;
use vstd::prelude::*;

verus! {

/// Seconds until re-invocation after a successful create pass or a no-op pass.
pub const STEADY_REQUEUE_SECONDS: u64 = 10;

/// Seconds until re-invocation after a failed pass.
pub const FAILURE_REQUEUE_SECONDS: u64 = 5;

/// The action a reconciliation pass takes, derived from the resource's
/// lifecycle state alone.
#[derive(Clone, Copy, Debug, PartialEq, Eq)]
pub enum KafkaTopicAction {
    /// First observation of a new declaration: attach the guard, then create
    /// the topic.
    Create,
    /// Deletion was requested: delete the topic, then release the guard.
    Delete,
    /// Steady state: the resource is as declared; take no action.
    NoOp,
}

/// Classification is a pure function of the two lifecycle booleans: a
/// requested deletion always wins, an unguarded live resource is created,
/// and a guarded live resource is left alone.
pub open spec fn classify(deletion_requested: bool, guard_present: bool) -> KafkaTopicAction {
    if deletion_requested {
        KafkaTopicAction::Delete
    } else if !guard_present {
        KafkaTopicAction::Create
    } else {
        KafkaTopicAction::NoOp
    }
}

/// Looks at the lifecycle state of the given resource and decides which
/// action the pass must perform.
pub fn determine_action(kafka_topic: &ResourceHandle) -> (action: KafkaTopicAction)
    ensures
        action == classify(kafka_topic.deletion_requested, kafka_topic.guard_present),
{
    if kafka_topic.deletion_requested {
        KafkaTopicAction::Delete
    } else if !kafka_topic.guard_present {
        KafkaTopicAction::Create
    } else {
        KafkaTopicAction::NoOp
    }
}

/// The scheduling instruction a pass returns to the external scheduler.
#[derive(Clone, Copy, Debug, PartialEq, Eq)]
pub enum Directive {
    /// Re-invoke reconciliation after the given number of seconds.
    Requeue { seconds: u64 },
    /// Do not schedule a timer; wait for the next observed change.
    AwaitNextChange,
}

/// The failure taxonomy of a reconciliation pass.
#[derive(Clone, Copy, Debug, PartialEq, Eq)]
pub enum Error {
    /// The resource declaration is structurally invalid (missing namespace).
    UserInputError,
    /// The cluster store rejected a guard attach or release.
    GuardError,
    /// The topic backend rejected a create or delete.
    ProvisioningError,
}

/// One call on an outside port, requested by the pass state machine.
#[derive(Clone, Copy, Debug, PartialEq, Eq)]
pub enum PortCall {
    /// Attach the lifecycle guard marker to the resource.
    AttachGuard,
    /// Create the topic on the backend.
    CreateTopic,
    /// Delete the topic from the backend.
    DeleteTopic,
    /// Release the lifecycle guard marker from the resource.
    ReleaseGuard,
}

/// What a port call reported back.
#[derive(Clone, Copy, Debug, PartialEq, Eq)]
pub enum PortOutcome {
    /// The call performed its change.
    Completed,
    /// The desired condition already held: the topic already existed on a
    /// create, was already gone on a delete, or the guard marker was already
    /// in the requested state. Treated as success.
    AlreadySatisfied,
    /// The call failed.
    Failed,
}

/// A port outcome counts as success unless the call failed.
pub open spec fn outcome_ok(outcome: PortOutcome) -> bool {
    outcome != PortOutcome::Failed
}

/// The state of one reconciliation pass: either a port call is pending, or
/// the pass is complete with its result.
#[derive(Clone, Copy, Debug, PartialEq)]
pub enum PassState {
    /// The driver must perform this call and feed its outcome to [`advance`].
    Pending(PortCall),
    /// The pass is complete.
    Done(Result<Directive, Error>),
}

/// The state a pass starts in, given the resource's lifecycle metadata:
/// validation first, then classification.
pub open spec fn spec_start_pass(handle: ResourceHandle) -> PassState {
    if !handle.namespaced() {
        PassState::Done(Err(Error::UserInputError))
    } else {
        match classify(handle.deletion_requested, handle.guard_present) {
            KafkaTopicAction::Create => PassState::Pending(PortCall::AttachGuard),
            KafkaTopicAction::Delete => PassState::Pending(PortCall::DeleteTopic),
            KafkaTopicAction::NoOp => PassState::Done(
                Ok(Directive::Requeue { seconds: STEADY_REQUEUE_SECONDS }),
            ),
        }
    }
}

/// Starts a reconciliation pass: rejects a handle without a namespace before
/// any port call, finishes a steady-state pass at once, and otherwise
/// requests the first call of the create or delete sequence.
pub fn start_pass(handle: &ResourceHandle) -> (state: PassState)
    ensures
        state == spec_start_pass(*handle),
{
    if handle.namespace.is_none() {
        return PassState::Done(Err(Error::UserInputError));
    }
    match determine_action(handle) {
        KafkaTopicAction::Create => PassState::Pending(PortCall::AttachGuard),
        KafkaTopicAction::Delete => PassState::Pending(PortCall::DeleteTopic),
        KafkaTopicAction::NoOp => PassState::Done(
            Ok(Directive::Requeue { seconds: STEADY_REQUEUE_SECONDS }),
        ),
    }
}

/// The transition relation of the pass state machine. Success on a guard
/// attach hands over to the topic create; success on a topic delete hands
/// over to the guard release; every failure ends the pass with the error of
/// the port that failed.
pub open spec fn spec_advance(call: PortCall, outcome: PortOutcome) -> PassState {
    match call {
        PortCall::AttachGuard => if outcome_ok(outcome) {
            PassState::Pending(PortCall::CreateTopic)
        } else {
            PassState::Done(Err(Error::GuardError))
        },
        PortCall::CreateTopic => if outcome_ok(outcome) {
            PassState::Done(Ok(Directive::Requeue { seconds: STEADY_REQUEUE_SECONDS }))
        } else {
            PassState::Done(Err(Error::ProvisioningError))
        },
        PortCall::DeleteTopic => if outcome_ok(outcome) {
            PassState::Pending(PortCall::ReleaseGuard)
        } else {
            PassState::Done(Err(Error::ProvisioningError))
        },
        PortCall::ReleaseGuard => if outcome_ok(outcome) {
            PassState::Done(Ok(Directive::AwaitNextChange))
        } else {
            PassState::Done(Err(Error::GuardError))
        },
    }
}

/// Feeds the outcome of the pending call back into the pass.
pub fn advance(call: PortCall, outcome: PortOutcome) -> (state: PassState)
    ensures
        state == spec_advance(call, outcome),
{
    let ok = match outcome {
        PortOutcome::Completed => true,
        PortOutcome::AlreadySatisfied => true,
        PortOutcome::Failed => false,
    };
    match call {
        PortCall::AttachGuard => if ok {
            PassState::Pending(PortCall::CreateTopic)
        } else {
            PassState::Done(Err(Error::GuardError))
        },
        PortCall::CreateTopic => if ok {
            PassState::Done(Ok(Directive::Requeue { seconds: STEADY_REQUEUE_SECONDS }))
        } else {
            PassState::Done(Err(Error::ProvisioningError))
        },
        PortCall::DeleteTopic => if ok {
            PassState::Pending(PortCall::ReleaseGuard)
        } else {
            PassState::Done(Err(Error::ProvisioningError))
        },
        PortCall::ReleaseGuard => if ok {
            PassState::Done(Ok(Directive::AwaitNextChange))
        } else {
            PassState::Done(Err(Error::GuardError))
        },
    }
}

/// Runs the machine from `state` through the given outcomes, collecting the
/// calls it requests in order. The run stops early when the pass completes;
/// if the outcomes run out first, the trace ends at the still-pending state.
pub open spec fn spec_run_from(state: PassState, outcomes: Seq<PortOutcome>) -> (Seq<
    PortCall,
>, PassState)
    decreases outcomes.len(),
{
    match state {
        PassState::Done(_) => (Seq::<PortCall>::empty(), state),
        PassState::Pending(call) => if outcomes.len() == 0 {
            (Seq::<PortCall>::empty(), state)
        } else {
            let rest = spec_run_from(spec_advance(call, outcomes[0]), outcomes.skip(1));
            (seq![call] + rest.0, rest.1)
        },
    }
}

/// The calls a full pass on `handle` makes, in order, when the ports answer
/// with `outcomes`.
pub open spec fn pass_calls(handle: ResourceHandle, outcomes: Seq<PortOutcome>) -> Seq<PortCall> {
    spec_run_from(spec_start_pass(handle), outcomes).0
}

/// The state a full pass on `handle` ends in when the ports answer with
/// `outcomes`.
pub open spec fn pass_result(handle: ResourceHandle, outcomes: Seq<PortOutcome>) -> PassState {
    spec_run_from(spec_start_pass(handle), outcomes).1
}

/// Classification matches the action table: a new, unguarded declaration is
/// created; a guarded one is left alone; a requested deletion is acted on
/// whatever the guard state. Determinism holds because `classify` is a pure
/// function of the two booleans and of nothing else.
pub proof fn lemma_classification_table()
    ensures
        classify(false, false) == KafkaTopicAction::Create,
        classify(false, true) == KafkaTopicAction::NoOp,
        classify(true, false) == KafkaTopicAction::Delete,
        classify(true, true) == KafkaTopicAction::Delete,
{
}

/// Guard before create: whenever a pass requests the topic create, it has
/// already requested the guard attach as its first call and seen it succeed.
pub proof fn lemma_guard_before_create(handle: ResourceHandle, outcomes: Seq<PortOutcome>, i: int)
    requires
        0 <= i < pass_calls(handle, outcomes).len(),
        pass_calls(handle, outcomes)[i] == PortCall::CreateTopic,
    ensures
        i == 1,
        pass_calls(handle, outcomes)[0] == PortCall::AttachGuard,
        outcome_ok(outcomes[0]),
{
    reveal_with_fuel(spec_run_from, 4);
}

/// Delete before unguard: whenever a pass requests the guard release, it has
/// already requested the topic delete as its first call and seen it succeed.
/// In particular, a failed delete leaves the guard attached.
pub proof fn lemma_delete_before_unguard(handle: ResourceHandle, outcomes: Seq<PortOutcome>, i: int)
    requires
        0 <= i < pass_calls(handle, outcomes).len(),
        pass_calls(handle, outcomes)[i] == PortCall::ReleaseGuard,
    ensures
        i == 1,
        pass_calls(handle, outcomes)[0] == PortCall::DeleteTopic,
        outcome_ok(outcomes[0]),
{
    reveal_with_fuel(spec_run_from, 4);
}

/// A create pass whose guard attach succeeds makes exactly two calls: the
/// guard attach, then the topic create, in that order.
pub proof fn lemma_create_pass_trace(handle: ResourceHandle, outcomes: Seq<PortOutcome>)
    requires
        handle.namespaced(),
        !handle.deletion_requested,
        !handle.guard_present,
        outcomes.len() >= 2,
        outcome_ok(outcomes[0]),
    ensures
        pass_calls(handle, outcomes) == seq![PortCall::AttachGuard, PortCall::CreateTopic],
{
    reveal_with_fuel(spec_run_from, 4);
    assert(pass_calls(handle, outcomes) =~= seq![PortCall::AttachGuard, PortCall::CreateTopic]);
}

/// A delete pass whose topic delete succeeds makes exactly two calls: the
/// topic delete, then the guard release, in that order.
pub proof fn lemma_delete_pass_trace(handle: ResourceHandle, outcomes: Seq<PortOutcome>)
    requires
        handle.namespaced(),
        handle.deletion_requested,
        outcomes.len() >= 2,
        outcome_ok(outcomes[0]),
    ensures
        pass_calls(handle, outcomes) == seq![PortCall::DeleteTopic, PortCall::ReleaseGuard],
{
    reveal_with_fuel(spec_run_from, 4);
    assert(pass_calls(handle, outcomes) =~= seq![PortCall::DeleteTopic, PortCall::ReleaseGuard]);
}

/// Idempotent re-entry: a create pass succeeds with the steady requeue
/// directive whenever neither port call fails — in particular when the
/// backend merely reports that the topic already exists, as it does on the
/// second run of a re-entered pass.
pub proof fn lemma_idempotent_reentry(
    handle: ResourceHandle,
    first: PortOutcome,
    second: PortOutcome,
)
    requires
        handle.namespace is Some,
        !handle.deletion_requested,
        !handle.guard_present,
        outcome_ok(first),
        outcome_ok(second),
    ensures
        pass_result(handle, seq![first, second]) == PassState::Done(
            Ok(Directive::Requeue { seconds: STEADY_REQUEUE_SECONDS }),
        ),
{
    reveal_with_fuel(spec_run_from, 4);
}

/// Validation short-circuit: a pass on a handle without a namespace ends at
/// once with the user-input error and makes no port call at all, whatever
/// the ports would have answered.
pub proof fn lemma_validation_short_circuit(handle: ResourceHandle, outcomes: Seq<PortOutcome>)
    requires
        handle.namespace is None,
    ensures
        pass_calls(handle, outcomes) == Seq::<PortCall>::empty(),
        pass_result(handle, outcomes) == PassState::Done(Err(Error::UserInputError)),
{
    reveal_with_fuel(spec_run_from, 2);
}

/// Directive policy: a pass that completes successfully returns the steady
/// requeue directive on the create and no-op paths, and awaits the next
/// change on the delete path, where the resource is about to disappear.
pub proof fn lemma_directive_policy(
    handle: ResourceHandle,
    outcomes: Seq<PortOutcome>,
    directive: Directive,
)
    requires
        pass_result(handle, outcomes) == PassState::Done(Ok(directive)),
    ensures
        (classify(handle.deletion_requested, handle.guard_present) == KafkaTopicAction::Delete
            && handle.namespace is Some) ==> directive == Directive::AwaitNextChange,
        classify(handle.deletion_requested, handle.guard_present) != KafkaTopicAction::Delete
            ==> directive == (Directive::Requeue { seconds: STEADY_REQUEUE_SECONDS }),
{
    reveal_with_fuel(spec_run_from, 4);
}

} // verus!
