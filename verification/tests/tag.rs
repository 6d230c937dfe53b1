use tag_relay::tag::{raw_card_hex, AnimalTag};

fn frame(card_field: &[u8; 10], country_field: &[u8; 4]) -> [u8; 30] {
    let mut f = [0u8; 30];
    f[0] = 0x01;
    f[1..11].copy_from_slice(card_field);
    f[11..15].copy_from_slice(country_field);
    f[29] = 0xFF;
    f
}

#[test]
fn decodes_reversed_hex_fields() {
    // The card field holds "9876543210" reversed as bytes, the country
    // field "4321" reversed as bytes.
    let f = frame(b"0123456789", b"1234");
    let t = AnimalTag::from_frame(&f);
    assert_eq!(t.head, 0x01);
    assert_eq!(t.card_number, 0x9876543210);
    assert_eq!(t.country_id, 0x4321);
    assert_eq!(t.tail, 0xFF);
}

#[test]
fn non_hex_card_field_decodes_to_zero() {
    let mut f = frame(b"z123456789", b"1234");
    f[15] = 7;
    f[16] = 9;
    f[21..27].copy_from_slice(b"abcdef");
    f[27] = 0xAA;
    f[28] = 0xBB;
    let t = AnimalTag::from_frame(&f);
    // The malformed field degrades to zero; nothing fails and every other
    // field is still populated from its own bytes.
    assert_eq!(t.card_number, 0);
    assert_eq!(t.country_id, 0x4321);
    assert_eq!(t.data, 7);
    assert_eq!(t.animal_flag, 9);
    assert_eq!(&t.user_data, b"abcdef");
    assert_eq!(t.check_sum, [0xAA, 0xBB]);
    assert_eq!(t.head, 0x01);
    assert_eq!(t.tail, 0xFF);
}

#[test]
fn uppercase_hex_digits_accepted() {
    let f = frame(b"FFFFFFFFFF", b"aAbB");
    let t = AnimalTag::from_frame(&f);
    assert_eq!(t.card_number, 0xFFFFFFFFFF);
    assert_eq!(t.country_id, 0xBbAa);
}

#[test]
fn id_pads_card_number_to_twelve_digits() {
    let t = AnimalTag {
        head: 0,
        card_number: 42,
        country_id: 1,
        data: 0,
        animal_flag: 0,
        _reserved: [0; 4],
        user_data: [0; 6],
        check_sum: [0; 2],
        tail: 0,
    };
    assert_eq!(t.id(), "1-000000000042");
    assert_eq!(t.id_bytes(), b"1-000000000042".to_vec());
}

#[test]
fn id_matches_reference_format() {
    let f = frame(b"0123456789", b"1234");
    let t = AnimalTag::from_frame(&f);
    let expected = format!("{}-{:0width$}", t.country_id, t.card_number, width = 12);
    assert_eq!(t.id(), expected);
}

#[test]
fn id_does_not_truncate_wide_card_numbers() {
    let t = AnimalTag {
        head: 0,
        card_number: 0xFFFFFFFFFF,  // 13 decimal digits
        country_id: 40,
        data: 0,
        animal_flag: 0,
        _reserved: [0; 4],
        user_data: [0; 6],
        check_sum: [0; 2],
        tail: 0,
    };
    assert_eq!(t.id(), "40-1099511627775");
}

#[test]
fn raw_hex_rendering_keeps_original_order() {
    let f = frame(b"0123456789", b"1234");
    assert_eq!(raw_card_hex(&f), "0123456789");
}

#[test]
fn raw_hex_rendering_is_independent_of_decoding() {
    // Even a field that decodes to zero is re-emitted verbatim.
    let f = frame(b"z123456789", b"1234");
    assert_eq!(raw_card_hex(&f), "z123456789");
    let t = AnimalTag::from_frame(&f);
    assert_eq!(t.card_number, 0);
}
