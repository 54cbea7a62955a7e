//! Byte-level reader primitives: little-endian integer reads, terminator
//! scans, and the two inline text encodings used by HII string data
//! (8-bit Latin-1 and 16-bit UCS-2 code units).

use vstd::prelude::*;
use vstd::string::StringExecFns;

verus! {

/// Little-endian 16-bit read at `i`.
pub open spec fn le16(d: Seq<u8>, i: int) -> u16
    recommends
        0 <= i,
        i + 2 <= d.len(),
{
    (d[i] as nat + d[i + 1] as nat * 0x100) as u16
}

/// Little-endian 24-bit read at `i`.
pub open spec fn le24(d: Seq<u8>, i: int) -> u32
    recommends
        0 <= i,
        i + 3 <= d.len(),
{
    (d[i] as nat + d[i + 1] as nat * 0x100 + d[i + 2] as nat * 0x1_0000) as u32
}

/// Little-endian 32-bit read at `i`.
pub open spec fn le32(d: Seq<u8>, i: int) -> u32
    recommends
        0 <= i,
        i + 4 <= d.len(),
{
    (d[i] as nat + d[i + 1] as nat * 0x100 + d[i + 2] as nat * 0x1_0000 + d[i + 3] as nat
        * 0x100_0000) as u32
}

/// Little-endian 64-bit read at `i`.
pub open spec fn le64(d: Seq<u8>, i: int) -> u64
    recommends
        0 <= i,
        i + 8 <= d.len(),
{
    (le32(d, i) as nat + le32(d, i + 4) as nat * 0x1_0000_0000) as u64
}

pub fn read_le16(d: &[u8], i: usize) -> (r: u16)
    requires
        i + 2 <= d.len(),
    ensures
        r == le16(d@, i as int),
{
    d[i] as u16 + d[i + 1] as u16 * 0x100
}

pub fn read_le24(d: &[u8], i: usize) -> (r: u32)
    requires
        i + 3 <= d.len(),
    ensures
        r == le24(d@, i as int),
{
    d[i] as u32 + d[i + 1] as u32 * 0x100 + d[i + 2] as u32 * 0x1_0000
}

pub fn read_le32(d: &[u8], i: usize) -> (r: u32)
    requires
        i + 4 <= d.len(),
    ensures
        r == le32(d@, i as int),
{
    d[i] as u32 + d[i + 1] as u32 * 0x100 + d[i + 2] as u32 * 0x1_0000 + d[i + 3] as u32
        * 0x100_0000
}

pub fn read_le64(d: &[u8], i: usize) -> (r: u64)
    requires
        i + 8 <= d.len(),
    ensures
        r == le64(d@, i as int),
{
    let lo = read_le32(d, i);
    let hi = read_le32(d, i + 4);
    lo as u64 + hi as u64 * 0x1_0000_0000
}

/// Position of the first zero byte in `[s, e)`, if any.
pub open spec fn first_nul(d: Seq<u8>, s: int, e: int) -> Option<int>
    recommends
        0 <= s,
        e <= d.len(),
    decreases e - s,
{
    if s < 0 || s >= e {
        None
    } else if d[s] == 0 {
        Some(s)
    } else {
        first_nul(d, s + 1, e)
    }
}

/// Scans `[s, e)` for the first zero byte.
pub fn find_nul(d: &[u8], s: usize, e: usize) -> (r: Option<usize>)
    requires
        e <= d.len(),
    ensures
        match r {
            Some(j) => first_nul(d@, s as int, e as int) == Some(j as int) && s <= j < e,
            None => first_nul(d@, s as int, e as int) is None,
        },
{
    let mut k: usize = s;
    while k < e
        invariant
            s <= k,
            e <= d.len(),
            first_nul(d@, s as int, e as int) == first_nul(d@, k as int, e as int),
        decreases e - k,
    {
        if d[k] == 0 {
            return Some(k);
        }
        k = k + 1;
    }
    None
}

/// Position of the first zero 16-bit unit at even stride from `s` in `[s, e)`.
pub open spec fn first_nul16(d: Seq<u8>, s: int, e: int) -> Option<int>
    recommends
        0 <= s,
        e <= d.len(),
    decreases e - s,
{
    if s < 0 || s + 2 > e {
        None
    } else if le16(d, s) == 0 {
        Some(s)
    } else {
        first_nul16(d, s + 2, e)
    }
}

/// Scans `[s, e)` in 16-bit steps for the first zero unit.
pub fn find_nul16(d: &[u8], s: usize, e: usize) -> (r: Option<usize>)
    requires
        e <= d.len(),
    ensures
        match r {
            Some(j) => first_nul16(d@, s as int, e as int) == Some(j as int) && s <= j && j + 2
                <= e,
            None => first_nul16(d@, s as int, e as int) is None,
        },
{
    let mut k: usize = s;
    while k <= e && e - k >= 2
        invariant
            s <= k,
            e <= d.len(),
            first_nul16(d@, s as int, e as int) == first_nul16(d@, k as int, e as int),
        decreases e - k,
    {
        if read_le16(d, k) == 0 {
            return Some(k);
        }
        k = k + 2;
    }
    None
}

/// Where `first_nul` finds a terminator, it lies inside the scanned range.
pub proof fn lemma_first_nul_bounds(d: Seq<u8>, s: int, e: int)
    ensures
        first_nul(d, s, e) matches Some(j) ==> s <= j < e,
    decreases e - s,
{
    if s >= 0 && s < e && d[s] != 0 {
        lemma_first_nul_bounds(d, s + 1, e);
    }
}

/// Where `first_nul16` finds a terminator, the unit lies inside the range.
pub proof fn lemma_first_nul16_bounds(d: Seq<u8>, s: int, e: int)
    ensures
        first_nul16(d, s, e) matches Some(j) ==> s <= j && j + 2 <= e,
    decreases e - s,
{
    if s >= 0 && s + 2 <= e && le16(d, s) != 0 {
        lemma_first_nul16_bounds(d, s + 2, e);
    }
}

/// A Unicode scalar value: what a `char` may hold.
pub open spec fn is_unicode_scalar(v: u32) -> bool {
    v < 0xD800 || (0xE000 <= v && v <= 0x10FFFF)
}

/// Relies on char::from_u32: it returns `Some` exactly for Unicode scalar
/// values, holding the character with that code point.
#[verifier::external_body]
fn char_from_u32(v: u32) -> (r: char)
    requires
        is_unicode_scalar(v),
    ensures
        r == (v as char),
{
    char::from_u32(v).unwrap()
}

/// 8-bit text in `[s, e)` decoded as Latin-1: each byte is the code point.
pub open spec fn latin1(d: Seq<u8>, s: int, e: int) -> Seq<char>
    recommends
        0 <= s,
        e <= d.len(),
    decreases e - s,
{
    if s < 0 || s >= e {
        Seq::empty()
    } else {
        seq![(d[s] as u32) as char] + latin1(d, s + 1, e)
    }
}

/// Appends the Latin-1 decoding of the bytes in `[s, e)`.
pub fn append_latin1(out: &mut String, d: &[u8], s: usize, e: usize)
    requires
        e <= d.len(),
    ensures
        final(out)@ == old(out)@ + latin1(d@, s as int, e as int),
{
    let mut k: usize = s;
    proof {
        assert(out@ + latin1(d@, s as int, e as int) =~= old(out)@ + latin1(
            d@,
            s as int,
            e as int,
        ));
    }
    while k < e
        invariant
            s <= k,
            e <= d.len(),
            out@ + latin1(d@, k as int, e as int) == old(out)@ + latin1(d@, s as int, e as int),
        decreases e - k,
    {
        let c = char_from_u32(d[k] as u32);
        let ghost prev = out@;
        crate::textbuf::push_char(out, c);
        k = k + 1;
        proof {
            assert(out@ + latin1(d@, k as int, e as int) =~= prev + latin1(
                d@,
                (k - 1) as int,
                e as int,
            ));
        }
    }
}

/// The character a lone (unpaired) UTF-16 unit decodes to.
pub open spec fn lone_unit_char(u: u16) -> char {
    if u < 0xD800 || u >= 0xE000 {
        (u as u32) as char
    } else {
        '\u{FFFD}'
    }
}

/// The character encoded by a surrogate pair.
pub open spec fn pair_char(hi: u16, lo: u16) -> char
    recommends
        0xD800 <= hi < 0xDC00,
        0xDC00 <= lo < 0xE000,
{
    ((0x10000 + (hi - 0xD800) * 0x400 + (lo - 0xDC00)) as u32) as char
}

/// UCS-2 text in `[s, e)` decoded as little-endian 16-bit units; valid
/// surrogate pairs combine, unpaired surrogates become U+FFFD.
pub open spec fn ucs2(d: Seq<u8>, s: int, e: int) -> Seq<char>
    recommends
        0 <= s,
        e <= d.len(),
    decreases e - s,
{
    if s < 0 || s + 2 > e {
        Seq::empty()
    } else {
        let u = le16(d, s);
        if 0xD800 <= u < 0xDC00 && s + 4 <= e && 0xDC00 <= le16(d, s + 2) < 0xE000 {
            seq![pair_char(u, le16(d, s + 2))] + ucs2(d, s + 4, e)
        } else {
            seq![lone_unit_char(u)] + ucs2(d, s + 2, e)
        }
    }
}

/// Appends the UCS-2 decoding of the bytes in `[s, e)`.
pub fn append_ucs2(out: &mut String, d: &[u8], s: usize, e: usize)
    requires
        e <= d.len(),
    ensures
        final(out)@ == old(out)@ + ucs2(d@, s as int, e as int),
{
    let mut k: usize = s;
    proof {
        assert(out@ + ucs2(d@, s as int, e as int) =~= old(out)@ + ucs2(d@, s as int, e as int));
    }
    while k <= e && e - k >= 2
        invariant
            s <= k,
            e <= d.len(),
            out@ + ucs2(d@, k as int, e as int) == old(out)@ + ucs2(d@, s as int, e as int),
        decreases e - k,
    {
        let u = read_le16(d, k);
        let ghost prev = out@;
        let ghost kk = k as int;
        if 0xD800 <= u && u < 0xDC00 && e - k >= 4 && {
            let lo = read_le16(d, k + 2);
            0xDC00 <= lo && lo < 0xE000
        } {
            let lo = read_le16(d, k + 2);
            let v: u32 = 0x10000 + (u - 0xD800) as u32 * 0x400 + (lo - 0xDC00) as u32;
            let c = char_from_u32(v);
            crate::textbuf::push_char(out, c);
            k = k + 4;
            proof {
                assert(c == pair_char(u, le16(d@, kk + 2)));
                assert(out@ + ucs2(d@, k as int, e as int) =~= prev + ucs2(d@, kk, e as int));
            }
        } else {
            let c = if u < 0xD800 || u >= 0xE000 {
                char_from_u32(u as u32)
            } else {
                '\u{FFFD}'
            };
            crate::textbuf::push_char(out, c);
            k = k + 2;
            proof {
                assert(c == lone_unit_char(u));
                assert(out@ + ucs2(d@, k as int, e as int) =~= prev + ucs2(d@, kk, e as int));
            }
        }
    }
    proof {
        assert(ucs2(d@, k as int, e as int) =~= Seq::<char>::empty());
        assert(out@ =~= out@ + ucs2(d@, k as int, e as int));
    }
}

/// RFC 4122 textual form of the 16-byte GUID at `g`: the first three groups
/// little-endian, the last two as stored.
pub open spec fn guid_text(d: Seq<u8>, g: int) -> Seq<char>
    recommends
        0 <= g,
        g + 16 <= d.len(),
{
    crate::textbuf::hex_fixed(le32(d, g) as nat, 8) + "-"@ + crate::textbuf::hex_fixed(
        le16(d, g + 4) as nat,
        4,
    ) + "-"@ + crate::textbuf::hex_fixed(le16(d, g + 6) as nat, 4) + "-"@
        + crate::textbuf::hex_fixed(d[g + 8] as nat, 2) + crate::textbuf::hex_fixed(
        d[g + 9] as nat,
        2,
    ) + "-"@ + crate::textbuf::hex_fixed(d[g + 10] as nat, 2) + crate::textbuf::hex_fixed(
        d[g + 11] as nat,
        2,
    ) + crate::textbuf::hex_fixed(d[g + 12] as nat, 2) + crate::textbuf::hex_fixed(
        d[g + 13] as nat,
        2,
    ) + crate::textbuf::hex_fixed(d[g + 14] as nat, 2) + crate::textbuf::hex_fixed(
        d[g + 15] as nat,
        2,
    )
}

/// Appends the textual form of the GUID stored at `g`.
#[verifier::rlimit(30)]
pub fn append_guid(out: &mut String, d: &[u8], g: usize)
    requires
        g + 16 <= d.len(),
    ensures
        final(out)@ == old(out)@ + guid_text(d@, g as int),
{
    crate::textbuf::append_hex_fixed(out, read_le32(d, g) as u64, 8);
    out.append("-");
    crate::textbuf::append_hex_fixed(out, read_le16(d, g + 4) as u64, 4);
    out.append("-");
    crate::textbuf::append_hex_fixed(out, read_le16(d, g + 6) as u64, 4);
    out.append("-");
    crate::textbuf::append_hex_fixed(out, d[g + 8] as u64, 2);
    crate::textbuf::append_hex_fixed(out, d[g + 9] as u64, 2);
    out.append("-");
    crate::textbuf::append_hex_fixed(out, d[g + 10] as u64, 2);
    crate::textbuf::append_hex_fixed(out, d[g + 11] as u64, 2);
    crate::textbuf::append_hex_fixed(out, d[g + 12] as u64, 2);
    crate::textbuf::append_hex_fixed(out, d[g + 13] as u64, 2);
    crate::textbuf::append_hex_fixed(out, d[g + 14] as u64, 2);
    crate::textbuf::append_hex_fixed(out, d[g + 15] as u64, 2);
    proof {
        assert(final(out)@ =~= old(out)@ + guid_text(d@, g as int));
    }
}

} // verus!
