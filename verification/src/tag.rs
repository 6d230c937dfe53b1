//! Frame decoder.
//!
//! A tag presentation arrives as an exactly-30-byte capture from the serial
//! line.  Decoding is a total function: the two numeric fields are stored as
//! ASCII hex digit sequences in *reversed* byte order, and a field that is
//! not entirely hex digits decodes to zero rather than failing.  All other
//! fields are copied verbatim; in particular the checksum bytes are captured
//! but never verified against the frame content — that is a property of the
//! wire format's consumers, not of this decoder.
//!
//! Two identity-string renderings are in use by downstream collectors and
//! both are exposed: the decimal form `"{country}-{card:012}"` built from
//! the decoded record, and the raw ten hex characters of the card-number
//! field in their original (un-reversed) order.

use crate::text::bytes_as_chars;
use crate::text::bytes_to_string;
use crate::text::spec_dec_bytes;
use crate::text::spec_zero_pad;
use crate::text::u64_to_dec_bytes;
use crate::text::zero_pad;
use vstd::prelude::*;
use vstd::slice::slice_subrange;

verus! {

/// A decoded tag record.  `card_number` and `country_id` hold the values of
/// the two reversed-hex fields; every other field is a verbatim copy of its
/// bytes in the frame.
#[derive(Clone, Copy, PartialEq, Eq, Debug)]
pub struct AnimalTag {
    pub head: u8,
    pub card_number: u64,
    pub country_id: u32,
    pub data: u8,
    pub animal_flag: u8,
    pub _reserved: [u8; 4],
    pub user_data: [u8; 6],
    pub check_sum: [u8; 2],
    pub tail: u8,
}

/// `b` is an ASCII hexadecimal digit.
pub open spec fn is_hex_digit(b: u8) -> bool {
    (48 <= b <= 57) || (97 <= b <= 102) || (65 <= b <= 70)
}

/// Numeric value of the ASCII hexadecimal digit `b`.
pub open spec fn hex_digit_value(b: u8) -> nat
    recommends
        is_hex_digit(b),
{
    if 48 <= b <= 57 {
        (b - 48) as nat
    } else if 97 <= b <= 102 {
        (b - 87) as nat
    } else {
        (b - 55) as nat
    }
}

/// Every byte of `s` is an ASCII hexadecimal digit.
pub open spec fn all_hex_digits(s: Seq<u8>) -> bool {
    forall|i: int| 0 <= i < s.len() ==> is_hex_digit(#[trigger] s[i])
}

/// `16^n`.
pub open spec fn pow16(n: nat) -> nat
    decreases n,
{
    if n == 0 {
        1
    } else {
        16 * pow16((n - 1) as nat)
    }
}

/// Value of a hex digit sequence read least-significant digit first: the
/// digit at index `i` contributes `16^i`.  Reversing `s` and reading it as
/// an ordinary (most-significant-first) hex numeral yields this value.
pub open spec fn le_hex_value(s: Seq<u8>) -> nat
    recommends
        all_hex_digits(s),
    decreases s.len(),
{
    if s.len() == 0 {
        0
    } else {
        hex_digit_value(s[0]) + 16 * le_hex_value(s.skip(1))
    }
}

/// Value decoded from a reversed-hex field: the field read in reversed byte
/// order as a hex numeral, or zero when it is empty or holds any byte that
/// is not a hex digit.
pub open spec fn reversed_hex_field(s: Seq<u8>) -> nat {
    if all_hex_digits(s) && s.len() >= 1 {
        le_hex_value(s)
    } else {
        0
    }
}

/// `t` is the decode of the 30-byte frame `f`.
pub open spec fn is_decode_of(t: AnimalTag, f: Seq<u8>) -> bool
    recommends
        f.len() == 30,
{
    &&& t.head == f[0]
    &&& t.card_number == reversed_hex_field(f.subrange(1, 11))
    &&& t.country_id == reversed_hex_field(f.subrange(11, 15))
    &&& t.data == f[15]
    &&& t.animal_flag == f[16]
    &&& t._reserved@ == f.subrange(17, 21)
    &&& t.user_data@ == f.subrange(21, 27)
    &&& t.check_sum@ == f.subrange(27, 29)
    &&& t.tail == f[29]
}

/// Decimal identity rendering: the country code, a dash, and the card
/// number zero-padded to twelve digits, as ASCII bytes.
pub open spec fn spec_id_bytes(country: nat, card: nat) -> Seq<u8> {
    spec_dec_bytes(country) + seq![45u8] + spec_zero_pad(spec_dec_bytes(card), 12)
}

/// `16^n >= 1`.
pub proof fn lemma_pow16_pos(n: nat)
    ensures
        pow16(n) >= 1,
    decreases n,
{
    if n > 0 {
        lemma_pow16_pos((n - 1) as nat);
    }
}

/// `16^i <= 16^j` when `i <= j`.
pub proof fn lemma_pow16_increases(i: nat, j: nat)
    requires
        i <= j,
    ensures
        pow16(i) <= pow16(j),
    decreases j,
{
    if i < j {
        lemma_pow16_increases(i, (j - 1) as nat);
        lemma_pow16_pos((j - 1) as nat);
    }
}

/// Numeric value of one ASCII hex digit, or `None` for any other byte.
fn hex_digit(b: u8) -> (r: Option<u8>)
    ensures
        (r is Some) == is_hex_digit(b),
        r matches Some(d) ==> d == hex_digit_value(b) && d < 16,
{
    if 48 <= b && b <= 57 {
        Some(b - 48)
    } else if 97 <= b && b <= 102 {
        Some(b - 87)
    } else if 65 <= b && b <= 70 {
        Some(b - 55)
    } else {
        None
    }
}

/// Reads a reversed-hex field: the bytes are scanned from the most
/// significant (last) digit down, and any byte that is not a hex digit
/// makes the whole field decode to zero.
fn parse_reversed_hex(field: &[u8]) -> (v: u64)
    requires
        field@.len() <= 15,
    ensures
        v == reversed_hex_field(field@),
        v < pow16(field@.len()),
{
    proof {
        lemma_pow16_pos(field@.len());
    }
    let n = field.len();
    if n == 0 {
        return 0;
    }
    let mut value: u64 = 0;
    let mut i = n;
    while i > 0
        invariant
            n == field@.len() <= 15,
            i <= n,
            all_hex_digits(field@.skip(i as int)),
            value == le_hex_value(field@.skip(i as int)),
            value < pow16((n - i) as nat),
        decreases i,
    {
        i = i - 1;
        match hex_digit(field[i]) {
            Some(d) => {
                proof {
                    lemma_pow16_increases((n - i - 1) as nat, 14);
                    assert(pow16(14) == 0x100000000000000) by {
                        reveal_with_fuel(pow16, 15);
                    }
                    assert(field@.skip(i as int).skip(1) =~= field@.skip(i as int + 1));
                    assert forall|j: int| 0 <= j < field@.skip(i as int).len() implies is_hex_digit(
                        #[trigger] field@.skip(i as int)[j],
                    ) by {
                        if j > 0 {
                            assert(field@.skip(i as int)[j] == field@.skip(i as int + 1)[j - 1]);
                        }
                    }
                }
                value = value * 16 + d as u64;
            },
            None => {
                proof {
                    lemma_pow16_pos(field@.len());
                    assert(field@.skip(0)[i as int] == field@[i as int]);
                    assert(!all_hex_digits(field@));
                }
                return 0;
            },
        }
    }
    proof {
        assert(field@.skip(0) =~= field@);
    }
    value
}

impl AnimalTag {
    /// Decodes a 30-byte frame.  Decoding is total: it never fails, and a
    /// reversed-hex field holding any non-hex byte decodes to zero while
    /// every other field is still populated from its own bytes.
    pub fn from_frame(frame: &[u8; 30]) -> (t: AnimalTag)
        ensures
            is_decode_of(t, frame@),
    {
        let f = frame.as_slice();
        let card = parse_reversed_hex(slice_subrange(f, 1, 11));
        let country_wide = parse_reversed_hex(slice_subrange(f, 11, 15));
        proof {
            assert(pow16(4) == 0x10000) by {
                reveal_with_fuel(pow16, 5);
            }
        }
        let country = country_wide as u32;
        let mut reserved = [0u8; 4];
        reserved[0] = f[17];
        reserved[1] = f[18];
        reserved[2] = f[19];
        reserved[3] = f[20];
        let mut user = [0u8; 6];
        user[0] = f[21];
        user[1] = f[22];
        user[2] = f[23];
        user[3] = f[24];
        user[4] = f[25];
        user[5] = f[26];
        let mut check = [0u8; 2];
        check[0] = f[27];
        check[1] = f[28];
        let t = AnimalTag {
            head: f[0],
            card_number: card,
            country_id: country,
            data: f[15],
            animal_flag: f[16],
            _reserved: reserved,
            user_data: user,
            check_sum: check,
            tail: f[29],
        };
        proof {
            assert(t._reserved@ =~= frame@.subrange(17, 21));
            assert(t.user_data@ =~= frame@.subrange(21, 27));
            assert(t.check_sum@ =~= frame@.subrange(27, 29));
        }
        t
    }

    /// Decimal identity rendering as bytes: `"{country}-{card:012}"`.
    pub fn id_bytes(&self) -> (v: Vec<u8>)
        ensures
            v@ == spec_id_bytes(self.country_id as nat, self.card_number as nat),
    {
        let mut v = u64_to_dec_bytes(self.country_id as u64);
        v.push(45u8);  // ASCII '-'
        let card = u64_to_dec_bytes(self.card_number);
        let mut padded = zero_pad(card, 12);
        v.append(&mut padded);
        proof {
            assert(v@ =~= spec_id_bytes(self.country_id as nat, self.card_number as nat));
        }
        v
    }

    /// Decimal identity rendering: `"{country}-{card:012}"`.
    pub fn id(&self) -> (s: String)
        ensures
            s@ == bytes_as_chars(spec_id_bytes(self.country_id as nat, self.card_number as nat)),
    {
        let v = self.id_bytes();
        bytes_to_string(v.as_slice())
    }
}

/// Raw identity rendering: the ten bytes of the card-number field emitted
/// as characters in their original (un-reversed) order.
pub fn raw_card_hex(frame: &[u8; 30]) -> (s: String)
    ensures
        s@ == bytes_as_chars(frame@.subrange(1, 11)),
{
    let field = slice_subrange(frame.as_slice(), 1, 11);
    bytes_to_string(field)
}

} // verus!
