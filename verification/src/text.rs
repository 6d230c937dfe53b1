//! Rendering helpers shared by the identity strings, the log lines and the
//! response builder: decimal digits of an unsigned number, zero padding,
//! and the step from ASCII bytes to a `String`.

use vstd::prelude::*;

verus! {

/// Decimal digits of `n`, most significant first, as ASCII bytes.
pub open spec fn spec_dec_bytes(n: nat) -> Seq<u8>
    decreases n,
{
    if n < 10 {
        seq![(48 + n) as u8]
    } else {
        spec_dec_bytes(n / 10).push((48 + n % 10) as u8)
    }
}

/// `s` left-padded with ASCII `'0'` bytes up to `width`; `s` itself when it
/// is already that wide.
pub open spec fn spec_zero_pad(s: Seq<u8>, width: nat) -> Seq<u8> {
    if s.len() >= width {
        s
    } else {
        Seq::new((width - s.len()) as nat, |i: int| 48u8) + s
    }
}

/// The characters spelled by a sequence of ASCII bytes.
pub open spec fn bytes_as_chars(s: Seq<u8>) -> Seq<char> {
    s.map_values(|b: u8| b as char)
}

/// Decimal rendering of `n`, most significant digit first.
pub fn u64_to_dec_bytes(n: u64) -> (v: Vec<u8>)
    ensures
        v@ == spec_dec_bytes(n as nat),
        v@.len() >= 1,
    decreases n,
{
    if n < 10 {
        let mut v: Vec<u8> = Vec::new();
        v.push(48 + n as u8);
        assert(v@ =~= spec_dec_bytes(n as nat));
        v
    } else {
        let mut v = u64_to_dec_bytes(n / 10);
        v.push(48 + (n % 10) as u8);
        v
    }
}

/// Left-pads `v` with ASCII `'0'` bytes so that it is at least `width` long.
pub fn zero_pad(v: Vec<u8>, width: usize) -> (out: Vec<u8>)
    ensures
        out@ == spec_zero_pad(v@, width as nat),
{
    let ghost v0 = v@;
    let mut out: Vec<u8> = Vec::new();
    let mut have = v.len();
    while have < width
        invariant
            have == v0.len() + out@.len(),
            out@ =~= Seq::new((have - v0.len()) as nat, |i: int| 48u8),
            have <= width || have == v0.len(),
        decreases width - have,
    {
        out.push(48u8);
        have = have + 1;
    }
    let mut tail = v;
    out.append(&mut tail);
    proof {
        assert(out@ =~= spec_zero_pad(v0, width as nat));
    }
    out
}

/// Relies on `String::push`: it appends the given character to the end of
/// the string.
#[verifier::external_body]
fn push_char(s: &mut String, c: char)
    ensures
        final(s)@ == old(s)@.push(c),
{
    s.push(c)
}

/// The string spelled by a sequence of ASCII bytes, each byte one character.
pub fn bytes_to_string(v: &[u8]) -> (s: String)
    ensures
        s@ == bytes_as_chars(v@),
{
    let mut s = String::new();
    let n = v.len();
    let mut i: usize = 0;
    while i < n
        invariant
            n == v@.len(),
            i <= n,
            s@ =~= bytes_as_chars(v@.take(i as int)),
        decreases n - i,
    {
        let c = v[i] as char;
        push_char(&mut s, c);
        proof {
            assert(v@.take(i as int + 1) =~= v@.take(i as int).push(v@[i as int]));
            assert(s@ =~= bytes_as_chars(v@.take(i as int + 1)));
        }
        i = i + 1;
    }
    proof {
        assert(v@.take(n as int) =~= v@);
    }
    s
}

} // verus!
