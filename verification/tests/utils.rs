use danube_connect_core::utils::serialization::{json, string};
use danube_connect_core::utils::SerializationError;
use danube_connect_core::{flush_due, Batcher, HealthChecker, HealthStatus};
use serde::de::{Deserialize, Deserializer};
use serde::ser::{Serialize, SerializeStruct, Serializer};
use serde_json::Value;
use std::collections::BTreeMap;
use std::time::Duration;

#[derive(Debug, PartialEq)]
struct TestData {
    name: String,
    value: i32,
}

impl Serialize for TestData {
    fn serialize<S: Serializer>(&self, serializer: S) -> Result<S::Ok, S::Error> {
        let mut s = serializer.serialize_struct("TestData", 2)?;
        s.serialize_field("name", &self.name)?;
        s.serialize_field("value", &self.value)?;
        s.end()
    }
}

impl<'de> Deserialize<'de> for TestData {
    fn deserialize<D: Deserializer<'de>>(deserializer: D) -> Result<Self, D::Error> {
        let mut fields = BTreeMap::<String, Value>::deserialize(deserializer)?;
        let name = match fields.remove("name") {
            Some(Value::String(s)) => s,
            _ => return Err(serde::de::Error::custom("missing name")),
        };
        let value = match fields.remove("value").and_then(|v| v.as_i64()) {
            Some(v) => v as i32,
            None => return Err(serde::de::Error::custom("missing value")),
        };
        Ok(TestData { name, value })
    }
}

#[test]
fn test_batcher_size() {
    let mut batcher = Batcher::new(3, Duration::from_secs(10));

    assert!(!batcher.should_flush());

    batcher.add(1);
    batcher.add(2);
    assert!(!batcher.should_flush());

    batcher.add(3);
    assert!(batcher.should_flush());

    let items = batcher.flush();
    assert_eq!(items, vec![1, 2, 3]);
    assert!(!batcher.should_flush());
}

#[test]
fn test_batcher_empty() {
    let batcher: Batcher<i32> = Batcher::new(10, Duration::from_secs(1));
    assert!(batcher.is_empty());
    assert_eq!(batcher.len(), 0);
}

#[test]
fn batcher_keeps_items_in_order_until_flushed() {
    let mut batcher = Batcher::new(10, Duration::from_secs(60));
    batcher.add("a");
    batcher.add("b");
    assert_eq!(batcher.items(), &["a", "b"]);
    assert_eq!(batcher.len(), 2);
    assert_eq!(batcher.flush(), vec!["a", "b"]);
    assert!(batcher.is_empty());
    assert_eq!(batcher.flush(), Vec::<&str>::new());
    let zero_timeout: Batcher<u8> = Batcher::new(10, Duration::from_secs(0));
    assert!(zero_timeout.should_flush());
}

#[test]
fn test_health_checker_success() {
    let mut checker = HealthChecker::new(3);

    assert_eq!(checker.status(), HealthStatus::Healthy);
    assert!(checker.is_healthy());

    checker.record_success();
    assert_eq!(checker.status(), HealthStatus::Healthy);
}

#[test]
fn test_health_checker_degraded() {
    let mut checker = HealthChecker::new(3);

    checker.record_failure();
    assert_eq!(checker.status(), HealthStatus::Degraded);
    assert_eq!(checker.consecutive_failures(), 1);

    checker.record_failure();
    assert_eq!(checker.status(), HealthStatus::Degraded);
    assert_eq!(checker.consecutive_failures(), 2);
}

#[test]
fn test_health_checker_unhealthy() {
    let mut checker = HealthChecker::new(3);

    checker.record_failure();
    checker.record_failure();
    checker.record_failure();

    assert_eq!(checker.status(), HealthStatus::Unhealthy);
    assert!(!checker.is_healthy());
    assert_eq!(checker.consecutive_failures(), 3);
}

#[test]
fn test_health_checker_recovery() {
    let mut checker = HealthChecker::new(3);

    checker.record_failure();
    checker.record_failure();
    assert_eq!(checker.status(), HealthStatus::Degraded);

    checker.record_success();
    assert_eq!(checker.status(), HealthStatus::Healthy);
    assert_eq!(checker.consecutive_failures(), 0);
}

#[test]
fn health_checker_timestamps() {
    let mut checker = HealthChecker::new(0);
    assert!(checker.time_since_last_success().is_some());
    assert!(checker.time_since_last_failure().is_none());
    checker.record_failure();
    assert_eq!(checker.status(), HealthStatus::Unhealthy);
    assert!(checker.time_since_last_failure().is_some());
    assert_eq!(checker.failure_threshold(), 0);
}

#[test]
fn test_json_serialization() {
    let data = TestData { name: "test".to_string(), value: 42 };

    let bytes = json::to_bytes(&data).unwrap();
    let deserialized: TestData = json::from_bytes(&bytes).unwrap();

    assert_eq!(data, deserialized);
}

#[test]
fn json_helpers_report_json_errors() {
    let text = json::to_string(&TestData { name: "n".to_string(), value: 1 }).unwrap();
    assert_eq!(text, r#"{"name":"n","value":1}"#);
    let back: TestData = json::from_string(&text).unwrap();
    assert_eq!(back.value, 1);
    let pretty = json::to_bytes_pretty(&back).unwrap();
    assert!(pretty.contains(&b'\n'));
    match json::from_bytes::<TestData>(b"not json") {
        Err(e @ SerializationError::Json(_)) => assert!(e.to_display_string().starts_with("JSON error: ")),
        other => panic!("unexpected {:?}", other),
    }
}

#[test]
fn test_string_conversion() {
    let text = "hello world";
    let bytes = text.as_bytes();

    let converted = string::from_bytes(bytes).unwrap();
    assert_eq!(text, converted);

    let owned = string::from_bytes_owned(bytes).unwrap();
    assert_eq!(text, owned);
}

#[test]
fn invalid_utf8_is_a_utf8_error() {
    match string::from_bytes(&[0xff, 0xfe]) {
        Err(e @ SerializationError::Utf8(_)) => assert!(e.to_display_string().starts_with("UTF-8 error: ")),
        other => panic!("unexpected {:?}", other),
    }
    assert!(string::from_bytes_owned(&[0xc3]).is_err());
    assert_eq!(
        SerializationError::InvalidFormat("x".to_string()).to_display_string(),
        "Invalid format: x"
    );
}

#[test]
fn flush_is_due_at_the_size_or_the_timeout() {
    let timeout = Duration::from_secs(10);
    assert!(!flush_due(2, 3, &Duration::from_secs(1), &timeout));
    assert!(flush_due(3, 3, &Duration::from_secs(1), &timeout));
    assert!(flush_due(0, 3, &Duration::from_secs(10), &timeout));
    assert!(flush_due(1, 3, &Duration::from_secs(11), &timeout));
}

#[test]
fn health_status_follows_the_failure_count() {
    let mut checker = HealthChecker::new(2);
    assert!(checker.is_healthy());
    checker.record_failure();
    assert_eq!((checker.status(), checker.consecutive_failures()), (HealthStatus::Degraded, 1));
    assert!(!checker.is_healthy());
    checker.record_failure();
    assert_eq!((checker.status(), checker.consecutive_failures()), (HealthStatus::Unhealthy, 2));
    checker.record_success();
    assert_eq!((checker.status(), checker.consecutive_failures()), (HealthStatus::Healthy, 0));
    assert!(checker.is_healthy());
}
