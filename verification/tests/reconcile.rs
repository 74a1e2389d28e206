use std::cell::RefCell;
use std::rc::Rc;

use kafka_topic_operator::engine::{Directive, Error, PortOutcome};
use kafka_topic_operator::model::{KafkaTopicSpec, ResourceHandle};
use kafka_topic_operator::ports::{
    on_error, reconcile, ContextData, KafkaTopicOps, KubeClientCrdOps,
};

type CallLog = Rc<RefCell<Vec<String>>>;

struct FakeKafkaClient {
    log: CallLog,
    create_outcomes: RefCell<Vec<PortOutcome>>,
    delete_outcome: PortOutcome,
}

impl KafkaTopicOps for FakeKafkaClient {
    fn create_topic(&self, kafka_topic: &KafkaTopicSpec) -> PortOutcome {
        self.log.borrow_mut().push(format!(
            "create_topic {} {} {}",
            kafka_topic.topic, kafka_topic.partitions, kafka_topic.replication_factor
        ));
        self.create_outcomes.borrow_mut().remove(0)
    }

    fn delete_topic(&self, kafka_topic: &KafkaTopicSpec) -> PortOutcome {
        self.log
            .borrow_mut()
            .push(format!("delete_topic {}", kafka_topic.topic));
        self.delete_outcome
    }

    fn topic_exists(&self, _kafka_topic: &KafkaTopicSpec) -> Result<bool, Error> {
        Ok(false)
    }
}

struct FakeKubeClient {
    log: CallLog,
    attach_outcome: PortOutcome,
    release_outcome: PortOutcome,
}

impl KubeClientCrdOps for FakeKubeClient {
    fn add_finalizer(&self, name: &str, namespace: &str) -> PortOutcome {
        self.log
            .borrow_mut()
            .push(format!("add_finalizer {} {}", name, namespace));
        self.attach_outcome
    }

    fn delete_finalizer(&self, name: &str, namespace: &str) -> PortOutcome {
        self.log
            .borrow_mut()
            .push(format!("delete_finalizer {} {}", name, namespace));
        self.release_outcome
    }
}

fn fake_context(
    log: &CallLog,
    create_outcomes: Vec<PortOutcome>,
    delete_outcome: PortOutcome,
    attach_outcome: PortOutcome,
    release_outcome: PortOutcome,
) -> ContextData<FakeKafkaClient, FakeKubeClient> {
    ContextData::new(
        FakeKafkaClient {
            log: log.clone(),
            create_outcomes: RefCell::new(create_outcomes),
            delete_outcome,
        },
        FakeKubeClient {
            log: log.clone(),
            attach_outcome,
            release_outcome,
        },
    )
}

fn all_ok_context(log: &CallLog) -> ContextData<FakeKafkaClient, FakeKubeClient> {
    fake_context(
        log,
        vec![PortOutcome::Completed, PortOutcome::Completed],
        PortOutcome::Completed,
        PortOutcome::Completed,
        PortOutcome::Completed,
    )
}

fn orders_spec() -> KafkaTopicSpec {
    KafkaTopicSpec {
        bootstrap_server: "b:9092".to_string(),
        topic: "orders".to_string(),
        partitions: 3,
        replication_factor: 1,
    }
}

fn orders_handle(deletion_requested: bool, guard_present: bool) -> ResourceHandle {
    ResourceHandle {
        name: "orders".to_string(),
        namespace: Some("default".to_string()),
        deletion_requested,
        guard_present,
    }
}

#[test]
fn test_reconcile_create_action() {
    let log: CallLog = Rc::new(RefCell::new(Vec::new()));
    let context = all_ok_context(&log);
    let kafka_topic = ResourceHandle {
        name: "test-topic".to_string(),
        namespace: Some("default".to_string()),
        deletion_requested: false,
        guard_present: false,
    };
    let topic_spec = KafkaTopicSpec {
        bootstrap_server: "offline:9092".to_string(),
        topic: "test-topic".to_string(),
        partitions: 3,
        replication_factor: 1,
    };

    let result = reconcile(&kafka_topic, &topic_spec, &context);

    assert!(result.is_ok());
    assert_eq!(result.unwrap(), Directive::Requeue { seconds: 10 });
}

#[test]
fn test_happy_path_create() {
    let log: CallLog = Rc::new(RefCell::new(Vec::new()));
    let context = all_ok_context(&log);

    let result = reconcile(&orders_handle(false, false), &orders_spec(), &context);

    assert_eq!(result, Ok(Directive::Requeue { seconds: 10 }));
    assert_eq!(
        *log.borrow(),
        vec![
            "add_finalizer orders default".to_string(),
            "create_topic orders 3 1".to_string(),
        ]
    );
}

#[test]
fn test_happy_path_delete() {
    let log: CallLog = Rc::new(RefCell::new(Vec::new()));
    let context = all_ok_context(&log);

    let result = reconcile(&orders_handle(true, true), &orders_spec(), &context);

    assert_eq!(result, Ok(Directive::AwaitNextChange));
    assert_eq!(
        *log.borrow(),
        vec![
            "delete_topic orders".to_string(),
            "delete_finalizer orders default".to_string(),
        ]
    );
}

#[test]
fn test_steady_state() {
    let log: CallLog = Rc::new(RefCell::new(Vec::new()));
    let context = all_ok_context(&log);

    let result = reconcile(&orders_handle(false, true), &orders_spec(), &context);

    assert_eq!(result, Ok(Directive::Requeue { seconds: 10 }));
    assert!(log.borrow().is_empty());
}

#[test]
fn test_validation_short_circuit() {
    let log: CallLog = Rc::new(RefCell::new(Vec::new()));
    let context = all_ok_context(&log);
    let unnamespaced = ResourceHandle {
        name: "orders".to_string(),
        namespace: None,
        deletion_requested: false,
        guard_present: false,
    };

    let result = reconcile(&unnamespaced, &orders_spec(), &context);

    assert_eq!(result, Err(Error::UserInputError));
    assert!(log.borrow().is_empty());
}

#[test]
fn test_idempotent_reentry() {
    // The same create pass runs twice; the backend reports "already exists"
    // on the second create call. Both passes succeed with the same directive.
    let log: CallLog = Rc::new(RefCell::new(Vec::new()));
    let context = fake_context(
        &log,
        vec![PortOutcome::Completed, PortOutcome::AlreadySatisfied],
        PortOutcome::Completed,
        PortOutcome::Completed,
        PortOutcome::Completed,
    );
    let handle = orders_handle(false, false);

    let first = reconcile(&handle, &orders_spec(), &context);
    let second = reconcile(&handle, &orders_spec(), &context);

    assert_eq!(first, Ok(Directive::Requeue { seconds: 10 }));
    assert_eq!(second, Ok(Directive::Requeue { seconds: 10 }));
}

#[test]
fn test_guard_failure_stops_create() {
    // A failed guard attach surfaces a guard error and the topic create is
    // never attempted: no topic may exist without its guard.
    let log: CallLog = Rc::new(RefCell::new(Vec::new()));
    let context = fake_context(
        &log,
        vec![PortOutcome::Completed],
        PortOutcome::Completed,
        PortOutcome::Failed,
        PortOutcome::Completed,
    );

    let result = reconcile(&orders_handle(false, false), &orders_spec(), &context);

    assert_eq!(result, Err(Error::GuardError));
    assert_eq!(*log.borrow(), vec!["add_finalizer orders default".to_string()]);
}

#[test]
fn test_create_failure_after_guard() {
    let log: CallLog = Rc::new(RefCell::new(Vec::new()));
    let context = fake_context(
        &log,
        vec![PortOutcome::Failed],
        PortOutcome::Completed,
        PortOutcome::Completed,
        PortOutcome::Completed,
    );

    let result = reconcile(&orders_handle(false, false), &orders_spec(), &context);

    assert_eq!(result, Err(Error::ProvisioningError));
    assert_eq!(
        *log.borrow(),
        vec![
            "add_finalizer orders default".to_string(),
            "create_topic orders 3 1".to_string(),
        ]
    );
}

#[test]
fn test_provisioning_failure_during_delete() {
    // The delete fails: the guard release is never requested, the pass
    // surfaces a provisioning error, and the error path schedules the short
    // retry.
    let log: CallLog = Rc::new(RefCell::new(Vec::new()));
    let context = fake_context(
        &log,
        vec![PortOutcome::Completed],
        PortOutcome::Failed,
        PortOutcome::Completed,
        PortOutcome::Completed,
    );

    let result = reconcile(&orders_handle(true, true), &orders_spec(), &context);

    assert_eq!(result, Err(Error::ProvisioningError));
    assert_eq!(*log.borrow(), vec!["delete_topic orders".to_string()]);
    assert_eq!(
        on_error(&result.unwrap_err()),
        Directive::Requeue { seconds: 5 }
    );
}

#[test]
fn test_release_failure_after_delete() {
    let log: CallLog = Rc::new(RefCell::new(Vec::new()));
    let context = fake_context(
        &log,
        vec![PortOutcome::Completed],
        PortOutcome::Completed,
        PortOutcome::Completed,
        PortOutcome::Failed,
    );

    let result = reconcile(&orders_handle(true, true), &orders_spec(), &context);

    assert_eq!(result, Err(Error::GuardError));
    assert_eq!(
        *log.borrow(),
        vec![
            "delete_topic orders".to_string(),
            "delete_finalizer orders default".to_string(),
        ]
    );
}

#[test]
fn test_delete_of_absent_topic_succeeds() {
    // Deleting a topic that is already gone is reported as satisfied and the
    // pass completes normally.
    let log: CallLog = Rc::new(RefCell::new(Vec::new()));
    let context = fake_context(
        &log,
        vec![PortOutcome::Completed],
        PortOutcome::AlreadySatisfied,
        PortOutcome::Completed,
        PortOutcome::Completed,
    );

    let result = reconcile(&orders_handle(true, false), &orders_spec(), &context);

    assert_eq!(result, Ok(Directive::AwaitNextChange));
}
