//! The capability ports on the outside world, and the reconciliation entry
//! points that use them.
//!
//! The two traits are implemented outside this crate: by the real adapters
//! against the topic backend and the cluster store, and by test doubles.
//! Nothing is assumed of their behaviour; [`reconcile`] states only what
//! holds whatever the ports answer, and the exact decision for each answer
//! is fixed by the pass state machine in [`crate::engine`].

use crate::engine::{
    classify, determine_action, pass_result, spec_run_from, Directive, Error, KafkaTopicAction,
    PassState, PortOutcome, FAILURE_REQUEUE_SECONDS, STEADY_REQUEUE_SECONDS,
};
use crate::model::{KafkaTopicSpec, ResourceHandle};
use vstd::prelude::*;

verus! {

/// Topic Provisioner port: create, delete and existence-check of the actual
/// topic on the message-bus backend.
pub trait KafkaTopicOps {
    /// Create the declared topic. Reports `AlreadySatisfied` when the topic
    /// already exists.
    fn create_topic(&self, kafka_topic: &KafkaTopicSpec) -> PortOutcome;

    /// Delete the declared topic. Reports `AlreadySatisfied` when the topic
    /// does not exist.
    fn delete_topic(&self, kafka_topic: &KafkaTopicSpec) -> PortOutcome;

    /// Advisory existence check, used by adapters to make create and delete
    /// idempotent at their boundary; not used for classification.
    fn topic_exists(&self, kafka_topic: &KafkaTopicSpec) -> Result<bool, Error>;
}

/// Lifecycle Guard port: attach and release of the guard marker on the
/// declarative resource, with merge-patch semantics (attaching an attached
/// guard and releasing an absent one are successful no-ops).
pub trait KubeClientCrdOps {
    /// Attach the guard marker to the named resource.
    fn add_finalizer(&self, name: &str, namespace: &str) -> PortOutcome;

    /// Release the guard marker from the named resource.
    fn delete_finalizer(&self, name: &str, namespace: &str) -> PortOutcome;
}

/// The two port implementations a reconciliation pass works with.
pub struct ContextData<T: KafkaTopicOps, E: KubeClientCrdOps> {
    /// Adapter for the topic backend.
    pub kafka_topic_client: T,
    /// Adapter for the cluster store.
    pub kube_client: E,
}

impl<T: KafkaTopicOps, E: KubeClientCrdOps> ContextData<T, E> {
    /// Bundles the two port adapters.
    pub fn new(kafka_topic_client: T, kube_client: E) -> (r: Self)
        ensures
            r.kafka_topic_client == kafka_topic_client,
            r.kube_client == kube_client,
    {
        ContextData { kafka_topic_client, kube_client }
    }
}

/// Whether the topic name occurs in a list of names.
pub open spec fn topic_in_list(names: Seq<Seq<char>>, topic: Seq<char>) -> bool {
    exists|i: int| 0 <= i < names.len() && names[i] == topic
}

/// The compute half of the advisory existence check: a backend adapter
/// fetches the metadata's topic names and asks here whether the declared
/// topic is among them.
pub fn topic_listed(names: &Vec<String>, topic: &String) -> (r: bool)
    ensures
        r == topic_in_list(names.deep_view(), topic@),
{
    let mut idx: usize = 0;
    while idx < names.len()
        invariant
            idx <= names@.len(),
            forall|j: int| 0 <= j < idx ==> names@[j]@ != topic@,
        decreases names@.len() - idx,
    {
        if names[idx] == *topic {
            proof {
                assert(names.deep_view()[idx as int] == topic@);
            }
            return true;
        }
        idx += 1;
    }
    false
}

/// Runs one reconciliation pass over the given ports: validates the handle,
/// classifies it, and performs the action's calls in the order the pass
/// state machine prescribes. The result is always one the machine can
/// produce, success is owed on the validation and steady-state paths where
/// no port decides, and each error names the port that failed.
pub fn reconcile<T: KafkaTopicOps, E: KubeClientCrdOps>(
    kafka_topic: &ResourceHandle,
    topic_spec: &KafkaTopicSpec,
    context: &ContextData<T, E>,
) -> (r: Result<Directive, Error>)
    ensures
        (exists|outcomes: Seq<PortOutcome>|
            pass_result(*kafka_topic, outcomes) == PassState::Done(r)),
        (kafka_topic.namespace is None) ==> r == Err::<Directive, Error>(Error::UserInputError),
        (kafka_topic.namespace is Some && classify(
            kafka_topic.deletion_requested,
            kafka_topic.guard_present,
        ) == KafkaTopicAction::NoOp) ==> r == Ok::<Directive, Error>(
            Directive::Requeue { seconds: STEADY_REQUEUE_SECONDS },
        ),
        (kafka_topic.namespace is Some && classify(
            kafka_topic.deletion_requested,
            kafka_topic.guard_present,
        ) == KafkaTopicAction::Create) ==> (r == Ok::<Directive, Error>(
            Directive::Requeue { seconds: STEADY_REQUEUE_SECONDS },
        ) || r == Err::<Directive, Error>(Error::GuardError) || r == Err::<Directive, Error>(
            Error::ProvisioningError,
        )),
        (kafka_topic.namespace is Some && classify(
            kafka_topic.deletion_requested,
            kafka_topic.guard_present,
        ) == KafkaTopicAction::Delete) ==> (r == Ok::<Directive, Error>(Directive::AwaitNextChange)
            || r == Err::<Directive, Error>(Error::GuardError) || r == Err::<Directive, Error>(
            Error::ProvisioningError,
        )),
{
    let namespace: &String = match &kafka_topic.namespace {
        Option::None => {
            proof {
                reveal_with_fuel(spec_run_from, 2);
                assert(pass_result(*kafka_topic, Seq::<PortOutcome>::empty()) == PassState::Done(
                    Err(Error::UserInputError),
                ));
            }
            return Err(Error::UserInputError);
        },
        Option::Some(ns) => ns,
    };
    match determine_action(kafka_topic) {
        KafkaTopicAction::Create => {
            // The guard is attached first: were the operator stopped and
            // restarted between the two calls, the next pass would find the
            // guard in place and only repeat the idempotent topic create.
            let guard_outcome = context.kube_client.add_finalizer(
                kafka_topic.name.as_str(),
                namespace.as_str(),
            );
            if let PortOutcome::Failed = guard_outcome {
                proof {
                    reveal_with_fuel(spec_run_from, 4);
                    assert(pass_result(*kafka_topic, seq![guard_outcome]) == PassState::Done(
                        Err(Error::GuardError),
                    ));
                }
                return Err(Error::GuardError);
            }
            let create_outcome = context.kafka_topic_client.create_topic(topic_spec);
            proof {
                reveal_with_fuel(spec_run_from, 4);
            }
            if let PortOutcome::Failed = create_outcome {
                proof {
                    assert(pass_result(*kafka_topic, seq![guard_outcome, create_outcome])
                        == PassState::Done(Err(Error::ProvisioningError)));
                }
                return Err(Error::ProvisioningError);
            }
            proof {
                assert(pass_result(*kafka_topic, seq![guard_outcome, create_outcome])
                    == PassState::Done(
                    Ok(Directive::Requeue { seconds: STEADY_REQUEUE_SECONDS }),
                ));
            }
            Ok(Directive::Requeue { seconds: STEADY_REQUEUE_SECONDS })
        },
        KafkaTopicAction::Delete => {
            // The topic is deleted first; only once that has succeeded may
            // the guard be released, so that the resource can never vanish
            // while its topic still exists.
            let delete_outcome = context.kafka_topic_client.delete_topic(topic_spec);
            if let PortOutcome::Failed = delete_outcome {
                proof {
                    reveal_with_fuel(spec_run_from, 4);
                    assert(pass_result(*kafka_topic, seq![delete_outcome]) == PassState::Done(
                        Err(Error::ProvisioningError),
                    ));
                }
                return Err(Error::ProvisioningError);
            }
            let release_outcome = context.kube_client.delete_finalizer(
                kafka_topic.name.as_str(),
                namespace.as_str(),
            );
            proof {
                reveal_with_fuel(spec_run_from, 4);
            }
            if let PortOutcome::Failed = release_outcome {
                proof {
                    assert(pass_result(*kafka_topic, seq![delete_outcome, release_outcome])
                        == PassState::Done(Err(Error::GuardError)));
                }
                return Err(Error::GuardError);
            }
            proof {
                assert(pass_result(*kafka_topic, seq![delete_outcome, release_outcome])
                    == PassState::Done(Ok(Directive::AwaitNextChange)));
            }
            Ok(Directive::AwaitNextChange)
        },
        KafkaTopicAction::NoOp => {
            proof {
                reveal_with_fuel(spec_run_from, 2);
                assert(pass_result(*kafka_topic, Seq::<PortOutcome>::empty()) == PassState::Done(
                    Ok(Directive::Requeue { seconds: STEADY_REQUEUE_SECONDS }),
                ));
            }
            Ok(Directive::Requeue { seconds: STEADY_REQUEUE_SECONDS })
        },
    }
}

/// Maps any reconciliation failure to the short retry directive: the pass is
/// re-invoked after a brief delay, quicker than the steady poll interval but
/// without hot-looping against an unavailable backend. Never fatal.
pub fn on_error(error: &Error) -> (directive: Directive)
    ensures
        directive == (Directive::Requeue { seconds: FAILURE_REQUEUE_SECONDS }),
{
    Directive::Requeue { seconds: FAILURE_REQUEUE_SECONDS }
}

} // verus!
