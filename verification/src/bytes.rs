//! Little-endian numbers, UTF-16 and padding, as bytes.
use crate::text::chars_of;
use vstd::prelude::*;

verus! {

/// The lower 16 bits of a number, in little-endian order.
pub open spec fn le16(n: nat) -> Seq<u8> {
    seq![(n % 256) as u8, (n / 256 % 256) as u8]
}

/// The lower 32 bits of a number, in little-endian order.
pub open spec fn le32(n: nat) -> Seq<u8> {
    seq![
        (n % 256) as u8,
        (n / 256 % 256) as u8,
        (n / 65536 % 256) as u8,
        (n / 16777216 % 256) as u8,
    ]
}

/// The 16-bit number that stands in little-endian order from `at` on.
pub open spec fn u16_at(b: Seq<u8>, at: int) -> nat {
    (b[at] + 256 * b[at + 1]) as nat
}

/// The 32-bit number that stands in little-endian order from `at` on.
pub open spec fn u32_at(b: Seq<u8>, at: int) -> nat {
    (b[at] + 256 * b[at + 1] + 65536 * b[at + 2] + 16777216 * b[at + 3]) as nat
}

/// Reading 16 bits gives back what was written, modulo 2^16.
pub proof fn lemma_le16_read(b: Seq<u8>, at: int, n: nat)
    requires
        0 <= at,
        at + 2 <= b.len(),
        b.subrange(at, at + 2) == le16(n),
    ensures
        u16_at(b, at) == n % 65536,
{
    assert(b[at] == b.subrange(at, at + 2)[0]);
    assert(b[at + 1] == b.subrange(at, at + 2)[1]);
}

/// Reading 32 bits gives back what was written, modulo 2^32.
pub proof fn lemma_le32_read(b: Seq<u8>, at: int, n: nat)
    requires
        0 <= at,
        at + 4 <= b.len(),
        b.subrange(at, at + 4) == le32(n),
    ensures
        u32_at(b, at) == n % 0x1_0000_0000,
{
    assert(b[at] == b.subrange(at, at + 4)[0]);
    assert(b[at + 1] == b.subrange(at, at + 4)[1]);
    assert(b[at + 2] == b.subrange(at, at + 4)[2]);
    assert(b[at + 3] == b.subrange(at, at + 4)[3]);
    lemma_four_digits(n);
}

/// A number below 2^32 is the sum of its four digits to base 256.
proof fn lemma_four_digits(n: nat)
    ensures
        n % 256 + 256 * (n / 256 % 256) + 65536 * (n / 65536 % 256) + 16777216 * (n / 16777216
            % 256) == n % 0x1_0000_0000,
{
    let a = n / 256;
    let b = a / 256;
    let c = b / 256;
    let d = c / 256;
    assert(b == n / 65536);
    assert(c == n / 16777216);
    assert(d == n / 0x1_0000_0000);
    assert(n == 256 * a + n % 256);
    assert(a == 256 * b + a % 256);
    assert(b == 256 * c + b % 256);
    assert(c == 256 * d + c % 256);
    assert(n == 0x1_0000_0000 * d + n % 0x1_0000_0000);
}

/// Appends a slice of bytes.
pub fn push_bytes(buf: &mut Vec<u8>, src: &[u8])
    ensures
        final(buf)@ == old(buf)@ + src@,
{
    let mut i: usize = 0;
    while i < src.len()
        invariant
            i <= src@.len(),
            buf@ == old(buf)@ + src@.take(i as int),
        decreases src@.len() - i,
    {
        buf.push(src[i]);
        assert(src@.take(i + 1) =~= src@.take(i as int).push(src@[i as int]));
        i = i + 1;
    }
    assert(src@.take(src@.len() as int) =~= src@);
}

/// Appends a part of a slice of bytes.
pub fn push_range(buf: &mut Vec<u8>, src: &[u8], from: usize, to: usize)
    requires
        from <= to <= src@.len(),
    ensures
        final(buf)@ == old(buf)@ + src@.subrange(from as int, to as int),
{
    let mut i: usize = from;
    assert(src@.subrange(from as int, from as int) =~= Seq::empty());
    while i < to
        invariant
            from <= i <= to <= src@.len(),
            buf@ =~= old(buf)@ + src@.subrange(from as int, i as int),
        decreases to - i,
    {
        buf.push(src[i]);
        i = i + 1;
    }
}

/// Appends a 16-bit number in little-endian order.
pub fn push_le16(buf: &mut Vec<u8>, n: u16)
    ensures
        final(buf)@ == old(buf)@ + le16(n as nat),
{
    buf.push((n % 256) as u8);
    buf.push((n / 256) as u8);
    assert(buf@ =~= old(buf)@ + le16(n as nat));
}

/// Appends a 32-bit number in little-endian order.
pub fn push_le32(buf: &mut Vec<u8>, n: u32)
    ensures
        final(buf)@ == old(buf)@ + le32(n as nat),
{
    buf.push((n % 256) as u8);
    buf.push((n / 256 % 256) as u8);
    buf.push((n / 65536 % 256) as u8);
    buf.push((n / 16777216) as u8);
    assert(buf@ =~= old(buf)@ + le32(n as nat));
}

/// How many zeroes bring a length to a multiple of four.
pub open spec fn pad_len(n: nat) -> nat {
    ((4 - n % 4) % 4) as nat
}

/// The bytes with zeroes behind them up to a multiple of four.
pub open spec fn padded(b: Seq<u8>) -> Seq<u8> {
    b + Seq::new(pad_len(b.len()), |i: int| 0u8)
}

/// Padding ends at a multiple of four.
pub proof fn lemma_padded_len(b: Seq<u8>)
    ensures
        padded(b).len() == b.len() + pad_len(b.len()),
        padded(b).len() % 4 == 0,
        padded(b).len() < b.len() + 4,
{
}

/// Appends zeroes up to a multiple of four.
pub fn pad4(buf: &mut Vec<u8>)
    ensures
        final(buf)@ == padded(old(buf)@),
{
    let ghost start = buf@;
    let ghost mut k: nat = 0;
    while buf.len() % 4 != 0
        invariant
            k <= pad_len(start.len()),
            start == old(buf)@,
            buf@ =~= start + Seq::new(k, |i: int| 0u8),
        decreases pad_len(start.len()) - k,
    {
        assert(k < pad_len(start.len()));
        buf.push(0);
        proof {
            k = k + 1;
        }
    }
    assert(k == pad_len(start.len()));
}

/// The UTF-16 code units of one character: one below U+10000, else a
/// surrogate pair.
pub open spec fn utf16_units(c: char) -> Seq<u16> {
    let u = c as u32;
    if u < 0x10000 {
        seq![u as u16]
    } else {
        seq![
            (0xD800 + (u - 0x10000) / 0x400) as u16,
            (0xDC00 + (u - 0x10000) % 0x400) as u16,
        ]
    }
}

/// A text in UTF-16.
pub open spec fn utf16(s: Seq<char>) -> Seq<u16>
    decreases s.len(),
{
    if s.len() == 0 {
        Seq::empty()
    } else {
        utf16(s.drop_last()) + utf16_units(s.last())
    }
}

/// 16-bit words, each in little-endian order.
pub open spec fn words_le(w: Seq<u16>) -> Seq<u8>
    decreases w.len(),
{
    if w.len() == 0 {
        Seq::empty()
    } else {
        words_le(w.drop_last()) + le16(w.last() as nat)
    }
}

/// A text in UTF-16 with a zero word behind it.
pub open spec fn wide(s: Seq<char>) -> Seq<u16> {
    utf16(s).push(0)
}

/// A text in UTF-16 with a zero word behind it, as bytes.
pub open spec fn wide_bytes(s: Seq<char>) -> Seq<u8> {
    words_le(wide(s))
}

/// Each word takes two bytes.
pub proof fn lemma_words_le_len(w: Seq<u16>)
    ensures
        words_le(w).len() == 2 * w.len(),
    decreases w.len(),
{
    if w.len() > 0 {
        lemma_words_le_len(w.drop_last());
    }
}

/// Writes a text in UTF-16 with a zero word behind it.
pub fn to_wide(s: &str) -> (w: Vec<u16>)
    ensures
        w@ == wide(s@),
{
    let v = chars_of(s);
    let mut w: Vec<u16> = Vec::new();
    let mut i: usize = 0;
    while i < v.len()
        invariant
            i <= v@.len(),
            w@ == utf16(v@.take(i as int)),
        decreases v@.len() - i,
    {
        let u: u32 = v[i] as u32;
        let ghost done = w@;
        if u < 0x10000 {
            w.push(u as u16);
        } else {
            w.push((0xD800 + (u - 0x10000) / 0x400) as u16);
            w.push((0xDC00 + (u - 0x10000) % 0x400) as u16);
        }
        assert(w@ =~= done + utf16_units(v@[i as int]));
        assert(v@.take(i + 1).drop_last() =~= v@.take(i as int));
        i = i + 1;
    }
    assert(v@.take(v@.len() as int) =~= s@);
    w.push(0);
    w
}

/// Appends words in little-endian order.
pub fn push_words(buf: &mut Vec<u8>, w: &Vec<u16>)
    ensures
        final(buf)@ == old(buf)@ + words_le(w@),
{
    let mut i: usize = 0;
    while i < w.len()
        invariant
            i <= w@.len(),
            buf@ =~= old(buf)@ + words_le(w@.take(i as int)),
        decreases w@.len() - i,
    {
        push_le16(buf, w[i]);
        assert(w@.take(i + 1).drop_last() =~= w@.take(i as int));
        i = i + 1;
    }
    assert(w@.take(w@.len() as int) =~= w@);
}

} // verus!
