use tag_relay::delivery::{DeliveryAction, DeliveryEvent, DeliveryLoop};
use tag_relay::shipping::{ShippingAction, ShippingEvent, ShippingLoop};
use tag_relay::tag::AnimalTag;

fn sample_tag(card: u64) -> AnimalTag {
    AnimalTag {
        head: 1,
        card_number: card,
        country_id: 40,
        data: 0,
        animal_flag: 0,
        _reserved: [0; 4],
        user_data: [0; 6],
        check_sum: [0; 2],
        tail: 0xFF,
    }
}

#[test]
fn one_failed_connect_one_backoff_one_delivery() {
    let t = sample_tag(42);
    let mut m = DeliveryLoop::new();
    // The first connect fails: one backoff, then retry.
    assert_eq!(m.step(DeliveryEvent::ConnectFailed), DeliveryAction::BackoffThenConnect);
    // The retry succeeds with nothing owed: wait for a record.
    assert_eq!(m.step(DeliveryEvent::ConnectSucceeded), DeliveryAction::AwaitTag);
    // A record arrives and is transmitted exactly once.
    assert_eq!(m.step(DeliveryEvent::TagReceived(t)), DeliveryAction::Transmit(t));
    assert_eq!(m.step(DeliveryEvent::WriteSucceeded), DeliveryAction::AwaitTag);
    assert_eq!(m.held, None);
    assert!(m.connected);
}

#[test]
fn held_record_is_retried_after_write_failure() {
    let t = sample_tag(7);
    let mut m = DeliveryLoop::new();
    m.step(DeliveryEvent::ConnectSucceeded);
    assert_eq!(m.step(DeliveryEvent::TagReceived(t)), DeliveryAction::Transmit(t));
    // The write fails: reconnect immediately, record retained.
    assert_eq!(m.step(DeliveryEvent::WriteFailed), DeliveryAction::Connect);
    assert_eq!(m.held, Some(t));
    assert!(!m.connected);
    // The next successful connection transmits the same record again.
    let retry = m.step(DeliveryEvent::ConnectSucceeded);
    assert_eq!(retry, DeliveryAction::Transmit(t));
    if let DeliveryAction::Transmit(again) = retry {
        assert_eq!(again.id_bytes(), t.id_bytes());
    }
    assert_eq!(m.step(DeliveryEvent::WriteSucceeded), DeliveryAction::AwaitTag);
    assert_eq!(m.held, None);
}

#[test]
fn record_survives_repeated_connect_failures() {
    let t = sample_tag(9);
    let mut m = DeliveryLoop::new();
    m.step(DeliveryEvent::ConnectSucceeded);
    m.step(DeliveryEvent::TagReceived(t));
    m.step(DeliveryEvent::WriteFailed);
    assert_eq!(m.step(DeliveryEvent::ConnectFailed), DeliveryAction::BackoffThenConnect);
    assert_eq!(m.step(DeliveryEvent::ConnectFailed), DeliveryAction::BackoffThenConnect);
    assert_eq!(m.held, Some(t));
    assert_eq!(m.step(DeliveryEvent::ConnectSucceeded), DeliveryAction::Transmit(t));
}

#[test]
fn shipping_loop_backs_off_and_forwards() {
    let mut m = ShippingLoop::new();
    assert_eq!(m.step(ShippingEvent::ConnectFailed), ShippingAction::BackoffThenConnect);
    assert_eq!(m.step(ShippingEvent::ConnectSucceeded), ShippingAction::ForwardChunk);
    assert!(m.connected);
    assert_eq!(m.step(ShippingEvent::WriteSucceeded), ShippingAction::ForwardChunk);
    // A write failure drops the chunk in flight and reconnects after a
    // backoff; nothing is retained for replay.
    assert_eq!(m.step(ShippingEvent::WriteFailed), ShippingAction::BackoffThenConnect);
    assert!(!m.connected);
    assert_eq!(m.step(ShippingEvent::ConnectSucceeded), ShippingAction::ForwardChunk);
}
