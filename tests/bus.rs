use longshot::bluetooth::{match_peripheral, CHARACTERISTIC_UUID, SERVICE_UUID};
use longshot::ecam::EcamStatus;
use longshot::mqtt::{accept_publish, order_topic, should_publish, starts_with, topic_prefix};

#[test]
fn prefix_drops_wildcard() {
    assert_eq!(topic_prefix("orders/in/+"), "orders/in/");
    assert_eq!(topic_prefix("+"), "");
}

#[test]
fn publishes_are_filtered() {
    assert!(accept_publish(false, "orders/in/o", "orders/in/"));
    assert!(!accept_publish(true, "orders/in/o", "orders/in/"));
    assert!(!accept_publish(false, "other/o", "orders/in/"));
    assert!(starts_with("abc", ""));
    assert!(!starts_with("ab", "abc"));
}

#[test]
fn order_topic_joins_with_slash() {
    assert_eq!(order_topic("orders/out", "o"), "orders/out/o");
}

#[test]
fn status_changes_only_are_published() {
    let seen = [
        EcamStatus::Ready,
        EcamStatus::Busy,
        EcamStatus::Busy,
        EcamStatus::Busy,
        EcamStatus::Ready,
        EcamStatus::Ready,
    ];
    let mut last = None;
    let mut published = Vec::new();
    for s in seen.iter() {
        if should_publish(last, *s) {
            published.push(*s);
            last = Some(*s);
        }
    }
    assert_eq!(published, vec![EcamStatus::Ready, EcamStatus::Busy, EcamStatus::Ready]);
}

#[test]
fn peripheral_matching() {
    assert_eq!(SERVICE_UUID + 1, CHARACTERISTIC_UUID);
    let uuids = [1u128, SERVICE_UUID, CHARACTERISTIC_UUID, CHARACTERISTIC_UUID];
    assert_eq!(match_peripheral(true, &uuids), Some(2));
    assert_eq!(match_peripheral(false, &uuids), None);
    assert_eq!(match_peripheral(true, &[1, 2]), None);
    assert_eq!(match_peripheral(true, &[]), None);
}
