use tag_relay::reader::process_frame;
use tag_relay::signal::LatestSignal;
use tag_relay::tag::AnimalTag;

#[test]
fn publish_then_take() {
    let mut s: LatestSignal<u32> = LatestSignal::new();
    assert!(!s.is_pending());
    s.publish(7);
    assert!(s.is_pending());
    assert_eq!(s.take(), Some(7));
    assert!(!s.is_pending());
    assert_eq!(s.take(), None);
}

#[test]
fn second_publish_overwrites_first() {
    let mut s: LatestSignal<u32> = LatestSignal::new();
    s.publish(1);
    s.publish(2);
    // Exactly one take yields a value, and it carries the second publish;
    // the first value is never observed.
    assert_eq!(s.take(), Some(2));
    assert_eq!(s.take(), None);
}

#[test]
fn reader_step_decodes_and_publishes() {
    let mut s: LatestSignal<AnimalTag> = LatestSignal::new();
    let mut f = [0u8; 30];
    f[1..11].copy_from_slice(b"0123456789");
    f[11..15].copy_from_slice(b"1234");
    let t = process_frame(&mut s, &f);
    assert_eq!(t.card_number, 0x9876543210);
    let got = s.take().unwrap();
    assert_eq!(got, t);
    assert_eq!(s.take(), None);
}

#[test]
fn reader_bursts_coalesce_to_latest_frame() {
    let mut s: LatestSignal<AnimalTag> = LatestSignal::new();
    let mut f1 = [0u8; 30];
    f1[1..11].copy_from_slice(b"1111111111");
    f1[11..15].copy_from_slice(b"1234");
    let mut f2 = [0u8; 30];
    f2[1..11].copy_from_slice(b"2222222222");
    f2[11..15].copy_from_slice(b"1234");
    process_frame(&mut s, &f1);
    let t2 = process_frame(&mut s, &f2);
    assert_eq!(s.take(), Some(t2));
    assert_eq!(s.take(), None);
}
