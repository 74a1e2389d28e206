use kafka_topic_operator::model::KafkaTopicSpec;
use kafka_topic_operator::ports::topic_listed;

fn spec_with(bootstrap_server: &str, topic: &str, partitions: i32, replication: i32) -> KafkaTopicSpec {
    KafkaTopicSpec {
        bootstrap_server: bootstrap_server.to_string(),
        topic: topic.to_string(),
        partitions,
        replication_factor: replication,
    }
}

#[test]
fn test_valid_spec() {
    assert!(spec_with("b:9092", "orders", 3, 1).is_valid());
    assert!(spec_with("b:9092", "orders", 1, 1).is_valid());
}

#[test]
fn test_invalid_specs() {
    assert!(!spec_with("", "orders", 3, 1).is_valid());
    assert!(!spec_with("b:9092", "", 3, 1).is_valid());
    assert!(!spec_with("b:9092", "orders", 0, 1).is_valid());
    assert!(!spec_with("b:9092", "orders", 3, 0).is_valid());
    assert!(!spec_with("b:9092", "orders", -1, 1).is_valid());
}

#[test]
fn test_topic_listed() {
    let names = vec![
        "orders".to_string(),
        "payments".to_string(),
        "shipments".to_string(),
    ];
    assert!(topic_listed(&names, &"orders".to_string()));
    assert!(topic_listed(&names, &"shipments".to_string()));
    assert!(!topic_listed(&names, &"returns".to_string()));
    assert!(!topic_listed(&Vec::new(), &"orders".to_string()));
}
