//! Text that the kernel sends over its serial line, built as bytes:
//! literal pieces, numbers in upper-case hexadecimal (as `{:X}` prints them)
//! and in decimal (as `{}` prints them).

use vstd::prelude::*;
use vstd::string::StringSliceAdditionalSpecFns;

verus! {

/// ASCII character of a hexadecimal digit, `A`..`F` above nine.
pub open spec fn hex_digit(d: nat) -> u8
    recommends
        d < 16,
{
    if d < 10 {
        (0x30 + d) as u8
    } else {
        (0x37 + d) as u8
    }
}

/// Shortest upper-case hexadecimal text of `v` (`"0"` for zero).
pub open spec fn hex_text(v: nat) -> Seq<u8>
    decreases v,
{
    if v < 16 {
        seq![hex_digit(v)]
    } else {
        hex_text(v / 16).push(hex_digit(v % 16))
    }
}

/// ASCII character of a decimal digit.
pub open spec fn dec_digit(d: nat) -> u8 {
    (0x30 + d) as u8
}

/// Shortest decimal text of `v` (`"0"` for zero).
pub open spec fn dec_text(v: nat) -> Seq<u8>
    decreases v,
{
    if v < 10 {
        seq![dec_digit(v)]
    } else {
        dec_text(v / 10).push(dec_digit(v % 10))
    }
}

/// Two-digit decimal text of `v` (below 100), with a leading zero.
pub open spec fn dec2_text(v: nat) -> Seq<u8> {
    seq![dec_digit(v / 10), dec_digit(v % 10)]
}

/// Numeric value of an upper-case hexadecimal digit character.
pub open spec fn hex_value(c: u8) -> int {
    if c <= 0x39 {
        c - 0x30
    } else {
        c - 0x37
    }
}

/// Value of a sequence of hexadecimal digit characters, most significant first.
pub open spec fn parse_hex(s: Seq<u8>) -> int
    decreases s.len(),
{
    if s.len() == 0 {
        0
    } else {
        parse_hex(s.drop_last()) * 16 + hex_value(s.last())
    }
}

/// Value of a sequence of decimal digit characters, most significant first.
pub open spec fn parse_dec(s: Seq<u8>) -> int
    decreases s.len(),
{
    if s.len() == 0 {
        0
    } else {
        parse_dec(s.drop_last()) * 10 + (s.last() - 0x30)
    }
}

pub fn hex_char(d: u64) -> (c: u8)
    requires
        d < 16,
    ensures
        c == hex_digit(d as nat),
{
    if d < 10 {
        0x30 + d as u8
    } else {
        0x37 + d as u8
    }
}

/// The bytes of the literal text `s`.
pub fn text_of(s: &str) -> (out: Vec<u8>)
    ensures
        out@ == s.spec_bytes(),
{
    let mut out: Vec<u8> = Vec::new();
    push_str(&mut out, s);
    assert(Seq::<u8>::empty() + s.spec_bytes() == s.spec_bytes());
    out
}

/// Appends the literal text `s`.
pub fn push_str(out: &mut Vec<u8>, s: &str)
    ensures
        final(out)@ == old(out)@ + s.spec_bytes(),
{
    let b = s.as_bytes();
    let mut i: usize = 0;
    while i < b.len()
        invariant
            b@ == s.spec_bytes(),
            i <= b@.len(),
            out@ == old(out)@ + b@.subrange(0, i as int),
        decreases b@.len() - i,
    {
        out.push(b[i]);
        i = i + 1;
        assert(b@.subrange(0, i as int) == b@.subrange(0, i - 1).push(b@[i - 1]));
    }
    assert(b@.subrange(0, b@.len() as int) == b@);
}

/// Appends `v` in upper-case hexadecimal without leading zeros.
pub fn push_hex(out: &mut Vec<u8>, v: u64)
    ensures
        final(out)@ == old(out)@ + hex_text(v as nat),
    decreases v,
{
    if v >= 16 {
        push_hex(out, v / 16);
    }
    out.push(hex_char(v % 16));
    assert(old(out)@ + hex_text(v as nat) == if v >= 16 {
        old(out)@ + hex_text((v / 16) as nat) + seq![hex_digit((v % 16) as nat)]
    } else {
        old(out)@ + seq![hex_digit((v % 16) as nat)]
    });
}

/// A labelled line: the label, the value in hexadecimal, a newline.
pub open spec fn hex_line(label: &str, v: nat) -> Seq<u8> {
    label.spec_bytes() + hex_text(v) + "\n".spec_bytes()
}

/// Appends a labelled line with the value in hexadecimal.
pub fn push_hex_line(out: &mut Vec<u8>, label: &str, v: u64)
    ensures
        final(out)@ == old(out)@ + hex_line(label, v as nat),
{
    let ghost start = out@;
    push_str(out, label);
    push_hex(out, v);
    push_str(out, "\n");
    assert(start + label.spec_bytes() + hex_text(v as nat) + "\n".spec_bytes() == start + hex_line(label, v as nat));
}

/// Appends the bytes of `b`.
pub fn push_bytes(out: &mut Vec<u8>, b: &[u8])
    ensures
        final(out)@ == old(out)@ + b@,
{
    let mut i: usize = 0;
    while i < b.len()
        invariant
            i <= b@.len(),
            out@ == old(out)@ + b@.subrange(0, i as int),
        decreases b@.len() - i,
    {
        out.push(b[i]);
        i = i + 1;
        assert(b@.subrange(0, i as int) == b@.subrange(0, i - 1).push(b@[i - 1]));
    }
    assert(b@.subrange(0, b@.len() as int) == b@);
}

/// Appends `v` in decimal without leading zeros.
pub fn push_dec(out: &mut Vec<u8>, v: u64)
    ensures
        final(out)@ == old(out)@ + dec_text(v as nat),
    decreases v,
{
    if v >= 10 {
        push_dec(out, v / 10);
    }
    out.push(0x30 + (v % 10) as u8);
    assert(old(out)@ + dec_text(v as nat) == if v >= 10 {
        old(out)@ + dec_text((v / 10) as nat) + seq![dec_digit((v % 10) as nat)]
    } else {
        old(out)@ + seq![dec_digit((v % 10) as nat)]
    });
}

/// Appends `v` as two decimal digits, with a leading zero below ten.
pub fn push_dec2(out: &mut Vec<u8>, v: u16)
    requires
        v < 100,
    ensures
        final(out)@ == old(out)@ + dec2_text(v as nat),
{
    out.push(0x30 + (v / 10) as u8);
    out.push(0x30 + (v % 10) as u8);
    assert(final(out)@ =~= old(out)@ + dec2_text(v as nat));
}

/// Reading back the hexadecimal text of a number gives the number.
pub proof fn lemma_hex_text_roundtrip(v: nat)
    ensures
        parse_hex(hex_text(v)) == v,
    decreases v,
{
    let d = v % 16;
    assert(hex_value(hex_digit(d)) == d);
    if v >= 16 {
        lemma_hex_text_roundtrip(v / 16);
        assert(hex_text(v).drop_last() == hex_text(v / 16));
        assert(hex_text(v).last() == hex_digit(d));
        assert(parse_hex(hex_text(v)) == parse_hex(hex_text(v / 16)) * 16 + hex_value(hex_digit(d)));
    } else {
        assert(seq![hex_digit(v)].drop_last() == Seq::<u8>::empty());
        assert(parse_hex(Seq::<u8>::empty()) == 0);
    }
}

/// Reading back the decimal text of a number gives the number.
pub proof fn lemma_dec_text_roundtrip(v: nat)
    ensures
        parse_dec(dec_text(v)) == v,
    decreases v,
{
    let d = v % 10;
    assert(dec_digit(d) - 0x30 == d);
    if v >= 10 {
        lemma_dec_text_roundtrip(v / 10);
        assert(dec_text(v).drop_last() == dec_text(v / 10));
        assert(dec_text(v).last() == dec_digit(d));
        assert(parse_dec(dec_text(v)) == parse_dec(dec_text(v / 10)) * 10 + (dec_digit(d) - 0x30));
    } else {
        assert(seq![dec_digit(v)].drop_last() == Seq::<u8>::empty());
        assert(parse_dec(Seq::<u8>::empty()) == 0);
    }
}

} // verus!
