use peripheral_core::delivery::DeliveryEngine;
use peripheral_core::delivery::DeliveryStatus;
use peripheral_core::delivery::RetryAction;
use peripheral_core::delivery::addr_eq;
use peripheral_core::delivery::copy_bytes;

const ADDR_A: [u8; 6] = [1, 2, 3, 4, 5, 6];
const ADDR_B: [u8; 6] = [9, 9, 9, 9, 9, 9];

#[test]
fn fresh_engine_reports_empty() {
    let engine = DeliveryEngine::new();
    assert_eq!(engine.get_status(&ADDR_A), DeliveryStatus::Empty);
    assert!(!engine.is_pending(&ADDR_A));
}

#[test]
fn send_records_pending_and_status() {
    let mut engine = DeliveryEngine::new();
    engine.send(ADDR_A, vec![10, 20, 30]);
    assert!(engine.is_pending(&ADDR_A));
    assert!(!engine.is_pending(&ADDR_B));
    assert_eq!(engine.get_status(&ADDR_A), DeliveryStatus::Sending(0));
    assert_eq!(engine.get_status(&ADDR_B), DeliveryStatus::Empty);
}

#[test]
fn ack_confirms_delivery() {
    let mut engine = DeliveryEngine::new();
    engine.send(ADDR_A, vec![1]);
    engine.confirm(&ADDR_A);
    assert!(!engine.is_pending(&ADDR_A));
    assert_eq!(engine.get_status(&ADDR_A), DeliveryStatus::Delivered(0));
}

#[test]
fn retry_ceiling_fails_after_fifteen_nacks() {
    let mut engine = DeliveryEngine::new();
    engine.send(ADDR_A, vec![42, 43]);
    for n in 1u8..15 {
        let act = engine.on_nack(&ADDR_A);
        match act {
            RetryAction::Resend(payload) => assert_eq!(payload, vec![42, 43]),
            _ => panic!("nack {n} should ask for a resend"),
        }
        assert_eq!(engine.get_status(&ADDR_A), DeliveryStatus::Sending(n));
        assert!(engine.is_pending(&ADDR_A));
    }
    let act = engine.on_nack(&ADDR_A);
    assert!(matches!(act, RetryAction::GaveUp));
    assert_eq!(engine.get_status(&ADDR_A), DeliveryStatus::Failed);
    assert!(!engine.is_pending(&ADDR_A));
}

#[test]
fn nack_without_pending_is_ignored() {
    let mut engine = DeliveryEngine::new();
    let act = engine.on_nack(&ADDR_A);
    assert!(matches!(act, RetryAction::Ignored));
    assert_eq!(engine.get_status(&ADDR_A), DeliveryStatus::Empty);
}

#[test]
fn statuses_are_kept_per_address() {
    let mut engine = DeliveryEngine::new();
    engine.send(ADDR_A, vec![1]);
    engine.send(ADDR_B, vec![2]);
    engine.confirm(&ADDR_A);
    let _ = engine.on_nack(&ADDR_B);
    assert_eq!(engine.get_status(&ADDR_A), DeliveryStatus::Delivered(0));
    assert_eq!(engine.get_status(&ADDR_B), DeliveryStatus::Sending(1));
}

#[test]
fn stop_clears_pending_but_keeps_statuses() {
    let mut engine = DeliveryEngine::new();
    engine.send(ADDR_A, vec![1]);
    engine.stop();
    assert!(!engine.is_pending(&ADDR_A));
    assert_eq!(engine.get_status(&ADDR_A), DeliveryStatus::Sending(0));
}

#[test]
fn delivery_after_retries_records_delivered() {
    let mut engine = DeliveryEngine::new();
    engine.send(ADDR_A, vec![7]);
    let _ = engine.on_nack(&ADDR_A);
    let _ = engine.on_nack(&ADDR_A);
    assert_eq!(engine.get_status(&ADDR_A), DeliveryStatus::Sending(2));
    engine.confirm(&ADDR_A);
    assert_eq!(engine.get_status(&ADDR_A), DeliveryStatus::Delivered(0));
    assert!(!engine.is_pending(&ADDR_A));
}

#[test]
fn ack_without_pending_still_records_delivered() {
    let mut engine = DeliveryEngine::new();
    engine.confirm(&ADDR_A);
    assert!(!engine.is_pending(&ADDR_A));
    assert_eq!(engine.get_status(&ADDR_A), DeliveryStatus::Delivered(0));
}

#[test]
fn a_failed_peer_accepts_a_fresh_send() {
    let mut engine = DeliveryEngine::new();
    engine.send(ADDR_A, vec![1]);
    for _ in 0..15 {
        let _ = engine.on_nack(&ADDR_A);
    }
    assert_eq!(engine.get_status(&ADDR_A), DeliveryStatus::Failed);
    engine.send(ADDR_A, vec![2]);
    assert_eq!(engine.get_status(&ADDR_A), DeliveryStatus::Sending(0));
    assert!(engine.is_pending(&ADDR_A));
}

#[test]
fn addr_eq_compares_by_value() {
    assert!(addr_eq(&ADDR_A, &[1, 2, 3, 4, 5, 6]));
    assert!(!addr_eq(&ADDR_A, &ADDR_B));
}

#[test]
fn copy_bytes_copies() {
    let v = vec![1u8, 2, 3];
    assert_eq!(copy_bytes(&v), v);
}
