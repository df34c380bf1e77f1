//! Byte-level encoding helpers shared by every record of the format:
//! little-endian integers, UTF-16LE text, and single-byte ASCII text.

use vstd::prelude::*;

verus! {

/// The two bytes of `x`, least significant first.
pub open spec fn le16(x: u16) -> Seq<u8> {
    seq![(x & 0xff) as u8, ((x >> 8) & 0xff) as u8]
}

/// The four bytes of `x`, least significant first.
pub open spec fn le32(x: u32) -> Seq<u8> {
    seq![
        (x & 0xff) as u8,
        ((x >> 8) & 0xff) as u8,
        ((x >> 16) & 0xff) as u8,
        ((x >> 24) & 0xff) as u8,
    ]
}

/// The eight bytes of `x`, least significant first.
pub open spec fn le64(x: u64) -> Seq<u8> {
    seq![
        (x & 0xff) as u8,
        ((x >> 8) & 0xff) as u8,
        ((x >> 16) & 0xff) as u8,
        ((x >> 24) & 0xff) as u8,
        ((x >> 32) & 0xff) as u8,
        ((x >> 40) & 0xff) as u8,
        ((x >> 48) & 0xff) as u8,
        ((x >> 56) & 0xff) as u8,
    ]
}

/// The 16-bit value stored little-endian at offset `i` of `s`.
pub open spec fn le16_at(s: Seq<u8>, i: int) -> u16 {
    (s[i] as u16) | ((s[i + 1] as u16) << 8)
}

/// The 32-bit value stored little-endian at offset `i` of `s`.
pub open spec fn le32_at(s: Seq<u8>, i: int) -> u32 {
    (s[i] as u32) | ((s[i + 1] as u32) << 8) | ((s[i + 2] as u32) << 16) | ((s[i + 3] as u32)
        << 24)
}

proof fn lemma_le_parts_fit_u8(x16: u16, x32: u32, x64: u64)
    by (bit_vector)
    ensures
        x16 & 0xff < 256,
        (x16 >> 8) & 0xff < 256,
        x32 & 0xff < 256,
        (x32 >> 8) & 0xff < 256,
        (x32 >> 16) & 0xff < 256,
        (x32 >> 24) & 0xff < 256,
        x64 & 0xff < 256,
        (x64 >> 8) & 0xff < 256,
        (x64 >> 16) & 0xff < 256,
        (x64 >> 24) & 0xff < 256,
        (x64 >> 32) & 0xff < 256,
        (x64 >> 40) & 0xff < 256,
        (x64 >> 48) & 0xff < 256,
        (x64 >> 56) & 0xff < 256,
{
}

/// Storing and re-reading a 16-bit value gives the value back.
pub proof fn lemma_le16_roundtrip(x: u16)
    by (bit_vector)
    ensures
        (((x & 0xff) as u8) as u16) | (((((x >> 8) & 0xff) as u8) as u16) << 8) == x,
{
}

/// Reading `le16` back through `le16_at` gives the value that was stored.
pub proof fn lemma_le16_at_le16(x: u16, s: Seq<u8>, i: int)
    requires
        0 <= i,
        i + 2 <= s.len(),
        s.subrange(i, i + 2) == le16(x),
    ensures
        le16_at(s, i) == x,
{
    assert(s[i] == (x & 0xff) as u8);
    assert(s[i + 1] == ((x >> 8) & 0xff) as u8);
    lemma_le16_roundtrip(x);
}

/// Appends the two little-endian bytes of `x`.
pub fn push_le16(out: &mut Vec<u8>, x: u16)
    ensures
        final(out)@ == old(out)@ + le16(x),
{
    proof {
        lemma_le_parts_fit_u8(x, 0, 0);
    }
    out.push((x & 0xff) as u8);
    out.push(((x >> 8) & 0xff) as u8);
    assert(out@ =~= old(out)@ + le16(x));
}

/// Appends the four little-endian bytes of `x`.
pub fn push_le32(out: &mut Vec<u8>, x: u32)
    ensures
        final(out)@ == old(out)@ + le32(x),
{
    proof {
        lemma_le_parts_fit_u8(0, x, 0);
    }
    out.push((x & 0xff) as u8);
    out.push(((x >> 8) & 0xff) as u8);
    out.push(((x >> 16) & 0xff) as u8);
    out.push(((x >> 24) & 0xff) as u8);
    assert(out@ =~= old(out)@ + le32(x));
}

/// Appends the eight little-endian bytes of `x`.
pub fn push_le64(out: &mut Vec<u8>, x: u64)
    ensures
        final(out)@ == old(out)@ + le64(x),
{
    proof {
        lemma_le_parts_fit_u8(0, 0, x);
    }
    out.push((x & 0xff) as u8);
    out.push(((x >> 8) & 0xff) as u8);
    out.push(((x >> 16) & 0xff) as u8);
    out.push(((x >> 24) & 0xff) as u8);
    out.push(((x >> 32) & 0xff) as u8);
    out.push(((x >> 40) & 0xff) as u8);
    out.push(((x >> 48) & 0xff) as u8);
    out.push(((x >> 56) & 0xff) as u8);
    assert(out@ =~= old(out)@ + le64(x));
}

/// Reads the 32-bit value stored little-endian at offset `off` of `data`.
pub fn read_le32(data: &[u8], off: usize) -> (x: u32)
    requires
        off + 4 <= data@.len(),
    ensures
        x == le32_at(data@, off as int),
{
    let n: usize = data.len();
    assert(off + 4 <= n);
    let b0 = *vstd::slice::slice_index_get(data, off) as u32;
    let b1 = *vstd::slice::slice_index_get(data, off + 1) as u32;
    let b2 = *vstd::slice::slice_index_get(data, off + 2) as u32;
    let b3 = *vstd::slice::slice_index_get(data, off + 3) as u32;
    b0 | (b1 << 8) | (b2 << 16) | (b3 << 24)
}

/// The UTF-16LE bytes of one character: one code unit for values below
/// 0x10000, a surrogate pair for the rest.
pub open spec fn utf16le_char(c: char) -> Seq<u8> {
    let v = c as u32;
    if v < 0x10000 {
        le16(v as u16)
    } else {
        le16((0xD800 + (v - 0x10000) / 0x400) as u16) + le16(
            (0xDC00 + (v - 0x10000) % 0x400) as u16,
        )
    }
}

/// The UTF-16LE bytes of a character sequence, with no terminator.
pub open spec fn utf16le(s: Seq<char>) -> Seq<u8>
    decreases s.len(),
{
    if s.len() == 0 {
        seq![]
    } else {
        utf16le_char(s[0]) + utf16le(s.drop_first())
    }
}

/// Encoding one character more extends the encoding of the prefix.
pub proof fn lemma_utf16le_push(s: Seq<char>, c: char)
    ensures
        utf16le(s.push(c)) == utf16le(s) + utf16le_char(c),
    decreases s.len(),
{
    if s.len() == 0 {
        assert(s.push(c)[0] == c);
        assert(s.push(c).drop_first() =~= s);
        assert(utf16le(s.push(c)) =~= utf16le(s) + utf16le_char(c));
    } else {
        assert(s.push(c)[0] == s[0]);
        assert(s.push(c).drop_first() =~= s.drop_first().push(c));
        lemma_utf16le_push(s.drop_first(), c);
        assert(utf16le(s.push(c)) =~= utf16le(s) + utf16le_char(c));
    }
}

/// True for characters of the basic multilingual plane, which take a
/// single UTF-16 code unit.
pub open spec fn is_bmp_char(c: char) -> bool {
    (c as u32) < 0x10000
}

/// A sequence of basic-plane characters takes exactly two bytes per
/// character in UTF-16LE.
pub proof fn lemma_utf16le_len_bmp(s: Seq<char>)
    requires
        forall|i: int| 0 <= i < s.len() ==> is_bmp_char(#[trigger] s[i]),
    ensures
        utf16le(s).len() == 2 * s.len(),
    decreases s.len(),
{
    if s.len() > 0 {
        assert(forall|i: int|
            0 <= i < s.drop_first().len() ==> #[trigger] s.drop_first()[i] == s[i + 1]);
        lemma_utf16le_len_bmp(s.drop_first());
    }
}

/// Appends the UTF-16LE bytes of one character.
pub fn push_utf16le_char(out: &mut Vec<u8>, c: char)
    ensures
        final(out)@ == old(out)@ + utf16le_char(c),
{
    let v = c as u32;
    proof {
        vstd::utf8::char_is_scalar(c);
    }
    if v < 0x10000 {
        push_le16(out, v as u16);
    } else {
        let w = v - 0x10000;
        push_le16(out, (0xD800 + w / 0x400) as u16);
        push_le16(out, (0xDC00 + w % 0x400) as u16);
        assert(out@ =~= old(out)@ + utf16le_char(c));
    }
}

/// Appends the UTF-16LE bytes of `s`, with no terminator.
pub fn push_utf16le(out: &mut Vec<u8>, s: &str)
    ensures
        final(out)@ == old(out)@ + utf16le(s@),
{
    let n: usize = s.unicode_len();
    let mut i: usize = 0;
    while i < n
        invariant
            i <= n,
            n == s@.len(),
            out@ == old(out)@ + utf16le(s@.take(i as int)),
        decreases n - i,
    {
        let c = s.get_char(i);
        push_utf16le_char(out, c);
        proof {
            assert(s@.take(i + 1 as int) =~= s@.take(i as int).push(s@[i as int]));
            lemma_utf16le_push(s@.take(i as int), s@[i as int]);
        }
        i = i + 1;
    }
    proof {
        assert(s@.take(n as int) =~= s@);
    }
}

/// Each character of an ASCII sequence as a single byte.
pub open spec fn ascii_bytes(s: Seq<char>) -> Seq<u8> {
    Seq::new(s.len(), |i| s[i] as u8)
}

/// Appends each character of the ASCII string `s` as one byte.
pub fn push_ascii(out: &mut Vec<u8>, s: &str)
    requires
        vstd::string::is_ascii(s),
    ensures
        final(out)@ == old(out)@ + ascii_bytes(s@),
{
    let mut bytes = s.as_bytes_vec();
    proof {
        broadcast use vstd::string::is_ascii_spec_bytes;

        assert(bytes@ =~= ascii_bytes(s@));
    }
    out.append(&mut bytes);
}

/// The first byte of the UTF-8 encoding of `c`.
pub open spec fn utf8_first_byte(c: char) -> u8 {
    vstd::utf8::encode_scalar(c as u32)[0]
}

} // verus!
