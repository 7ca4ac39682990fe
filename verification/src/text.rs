//! Verified construction of ASCII text. Strings handed out by the library
//! (memory dumps, device snapshots, error reports) are first built as vectors
//! of ASCII bytes with exact contracts, then decoded once at the end.

use vstd::prelude::*;

verus! {

/// The lower-case hexadecimal digit for a nibble value.
pub open spec fn spec_hex_digit(n: int) -> u8 {
    if n < 10 {
        (0x30 + n) as u8
    } else {
        (0x57 + n) as u8
    }
}

/// The upper-case hexadecimal digit for a nibble value.
pub open spec fn spec_hex_digit_upper(n: int) -> u8 {
    if n < 10 {
        (0x30 + n) as u8
    } else {
        (0x37 + n) as u8
    }
}

/// The two lower-case hexadecimal digits of a byte.
pub open spec fn spec_hex2(b: u8) -> Seq<u8> {
    seq![spec_hex_digit(b as int / 16), spec_hex_digit(b as int % 16)]
}

/// The four lower-case hexadecimal digits of a 16-bit value.
pub open spec fn spec_hex4(w: u16) -> Seq<u8> {
    seq![
        spec_hex_digit(w as int / 4096 % 16),
        spec_hex_digit(w as int / 256 % 16),
        spec_hex_digit(w as int / 16 % 16),
        spec_hex_digit(w as int % 16),
    ]
}

/// The five upper-case hexadecimal digits of a 20-bit address.
pub open spec fn spec_hex5_upper(a: int) -> Seq<u8> {
    seq![
        spec_hex_digit_upper(a / 65536 % 16),
        spec_hex_digit_upper(a / 4096 % 16),
        spec_hex_digit_upper(a / 256 % 16),
        spec_hex_digit_upper(a / 16 % 16),
        spec_hex_digit_upper(a % 16),
    ]
}

/// The decimal digits of `v`, most significant first.
pub open spec fn spec_dec(v: int) -> Seq<u8>
    decreases v,
{
    if v <= 0 {
        Seq::<u8>::empty()
    } else {
        spec_dec(v / 10).push((0x30 + v % 10) as u8)
    }
}

/// The decimal rendering of `v`: its digits, or a single zero.
pub open spec fn spec_dec_str(v: int) -> Seq<u8> {
    if v == 0 {
        seq![0x30u8]
    } else {
        spec_dec(v)
    }
}

/// Every byte is ASCII.
pub open spec fn all_ascii(s: Seq<u8>) -> bool {
    forall|i: int| 0 <= i < s.len() ==> s[i] < 128
}

/// The characters spelled by a sequence of ASCII bytes.
pub open spec fn ascii_view(s: Seq<u8>) -> Seq<char> {
    s.map_values(|b: u8| b as char)
}

/// Appends the lower-case hexadecimal digit of a nibble.
pub fn push_hex_digit(out: &mut Vec<u8>, n: u8)
    requires
        n < 16,
    ensures
        final(out)@ == old(out)@.push(spec_hex_digit(n as int)),
{
    if n < 10 {
        out.push(0x30 + n);
    } else {
        out.push(0x57 + n);
    }
}

/// Appends the upper-case hexadecimal digit of a nibble.
pub fn push_hex_digit_upper(out: &mut Vec<u8>, n: u8)
    requires
        n < 16,
    ensures
        final(out)@ == old(out)@.push(spec_hex_digit_upper(n as int)),
{
    if n < 10 {
        out.push(0x30 + n);
    } else {
        out.push(0x37 + n);
    }
}

/// Appends the two lower-case hexadecimal digits of a byte.
pub fn push_hex2(out: &mut Vec<u8>, b: u8)
    ensures
        final(out)@ == old(out)@ + spec_hex2(b),
{
    push_hex_digit(out, b / 16);
    push_hex_digit(out, b % 16);
    assert(out@ =~= old(out)@ + spec_hex2(b));
}

/// Appends the four lower-case hexadecimal digits of a 16-bit value.
pub fn push_hex4(out: &mut Vec<u8>, w: u16)
    ensures
        final(out)@ == old(out)@ + spec_hex4(w),
{
    push_hex_digit(out, ((w / 4096) % 16) as u8);
    push_hex_digit(out, ((w / 256) % 16) as u8);
    push_hex_digit(out, ((w / 16) % 16) as u8);
    push_hex_digit(out, (w % 16) as u8);
    assert(out@ =~= old(out)@ + spec_hex4(w));
}

/// Appends the five upper-case hexadecimal digits of a 20-bit address.
pub fn push_hex5_upper(out: &mut Vec<u8>, a: usize)
    requires
        a < 0x100000,
    ensures
        final(out)@ == old(out)@ + spec_hex5_upper(a as int),
{
    push_hex_digit_upper(out, ((a / 65536) % 16) as u8);
    push_hex_digit_upper(out, ((a / 4096) % 16) as u8);
    push_hex_digit_upper(out, ((a / 256) % 16) as u8);
    push_hex_digit_upper(out, ((a / 16) % 16) as u8);
    push_hex_digit_upper(out, (a % 16) as u8);
    assert(out@ =~= old(out)@ + spec_hex5_upper(a as int));
}

/// Appends the decimal rendering of `v`.
pub fn push_dec(out: &mut Vec<u8>, v: u64)
    ensures
        final(out)@ == old(out)@ + spec_dec_str(v as int),
{
    if v == 0 {
        out.push(0x30);
        assert(out@ =~= old(out)@ + spec_dec_str(0));
        return ;
    }
    let mut digits: Vec<u8> = Vec::new();
    let mut rest: u64 = v;
    while rest > 0
        invariant
            spec_dec(v as int) =~= spec_dec(rest as int) + digits@,
        decreases rest,
    {
        let ghost pre = digits@;
        let d: u8 = (rest % 10) as u8;
        digits.insert(0, 0x30 + d);
        proof {
            assert(digits@ =~= seq![(0x30 + rest as int % 10) as u8] + pre);
            assert(spec_dec(rest as int) =~= spec_dec(rest as int / 10) + seq![
                (0x30 + rest as int % 10) as u8,
            ]);
        }
        rest = rest / 10;
    }
    let mut i: usize = 0;
    while i < digits.len()
        invariant
            i <= digits@.len(),
            out@ =~= old(out)@ + digits@.subrange(0, i as int),
        decreases digits@.len() - i,
    {
        let b = digits[i];
        out.push(b);
        i = i + 1;
        assert(out@ =~= old(out)@ + digits@.subrange(0, i as int));
    }
    assert(digits@.subrange(0, digits@.len() as int) =~= digits@);
}

/// Relies on `String::from_utf8`: a vector of ASCII bytes decodes to the
/// string with exactly those characters.
#[verifier::external_body]
pub fn ascii_to_string(bytes: &Vec<u8>) -> (s: String)
    requires
        all_ascii(bytes@),
    ensures
        s@ == ascii_view(bytes@),
{
    String::from_utf8(bytes.clone()).unwrap_or_default()
}

/// The two lower-case hexadecimal digits of a byte, as a string.
pub fn hex2_string(b: u8) -> (s: String)
    ensures
        s@ == ascii_view(spec_hex2(b)),
{
    let mut out: Vec<u8> = Vec::new();
    push_hex2(&mut out, b);
    proof {
        assert forall|i: int| 0 <= i < out@.len() implies out@[i] < 128 by {
            lemma_hex_digits_ascii(b as int / 16);
            lemma_hex_digits_ascii(b as int % 16);
        }
    }
    ascii_to_string(&out)
}

/// The four lower-case hexadecimal digits of a 16-bit value, as a string.
pub fn hex4_string(w: u16) -> (s: String)
    ensures
        s@ == ascii_view(spec_hex4(w)),
{
    let mut out: Vec<u8> = Vec::new();
    push_hex4(&mut out, w);
    proof {
        assert forall|i: int| 0 <= i < out@.len() implies out@[i] < 128 by {
            lemma_hex_digits_ascii(w as int / 4096 % 16);
            lemma_hex_digits_ascii(w as int / 256 % 16);
            lemma_hex_digits_ascii(w as int / 16 % 16);
            lemma_hex_digits_ascii(w as int % 16);
        }
    }
    ascii_to_string(&out)
}

/// The decimal rendering of `v`, as a string.
pub fn dec_string(v: u64) -> (s: String)
    ensures
        s@ == ascii_view(spec_dec_str(v as int)),
{
    let mut out: Vec<u8> = Vec::new();
    push_dec(&mut out, v);
    proof {
        lemma_dec_ascii(v as int);
    }
    ascii_to_string(&out)
}

/// Hexadecimal digits are ASCII.
pub proof fn lemma_hex_digits_ascii(n: int)
    requires
        0 <= n < 16,
    ensures
        spec_hex_digit(n) < 128,
        spec_hex_digit_upper(n) < 128,
{
}

/// Decimal renderings are ASCII.
pub proof fn lemma_dec_ascii(v: int)
    ensures
        all_ascii(spec_dec_str(v)),
    decreases v,
{
    if v > 0 {
        lemma_dec_ascii(v / 10);
        assert forall|i: int| 0 <= i < spec_dec(v).len() implies spec_dec(v)[i] < 128 by {
            if i < spec_dec(v / 10).len() {
                if v / 10 == 0 {
                    assert(spec_dec(v / 10) =~= Seq::<u8>::empty());
                } else {
                    assert(spec_dec(v / 10)[i] < 128);
                }
            }
        }
    }
}

} // verus!
