//! Text assembly helpers: hexadecimal rendering, indentation, and string
//! lookup, each tied to a spec-level description of the produced characters.

use vstd::prelude::*;
use vstd::string::StringExecFns;
use std::collections::HashMap;

verus! {

broadcast use vstd::std_specs::hash::group_hash_axioms;

/// One uppercase hexadecimal digit, as the character sequence of its literal.
pub open spec fn hex_digit(v: nat) -> Seq<char> {
    if v == 0 {
        "0"@
    } else if v == 1 {
        "1"@
    } else if v == 2 {
        "2"@
    } else if v == 3 {
        "3"@
    } else if v == 4 {
        "4"@
    } else if v == 5 {
        "5"@
    } else if v == 6 {
        "6"@
    } else if v == 7 {
        "7"@
    } else if v == 8 {
        "8"@
    } else if v == 9 {
        "9"@
    } else if v == 10 {
        "A"@
    } else if v == 11 {
        "B"@
    } else if v == 12 {
        "C"@
    } else if v == 13 {
        "D"@
    } else if v == 14 {
        "E"@
    } else {
        "F"@
    }
}

fn hex_digit_str(v: u8) -> (r: &'static str)
    requires
        v < 16,
    ensures
        r@ == hex_digit(v as nat),
{
    if v == 0 {
        "0"
    } else if v == 1 {
        "1"
    } else if v == 2 {
        "2"
    } else if v == 3 {
        "3"
    } else if v == 4 {
        "4"
    } else if v == 5 {
        "5"
    } else if v == 6 {
        "6"
    } else if v == 7 {
        "7"
    } else if v == 8 {
        "8"
    } else if v == 9 {
        "9"
    } else if v == 10 {
        "A"
    } else if v == 11 {
        "B"
    } else if v == 12 {
        "C"
    } else if v == 13 {
        "D"
    } else if v == 14 {
        "E"
    } else {
        "F"
    }
}

/// Shortest uppercase hexadecimal rendering of a value, without a prefix.
pub open spec fn hex_of(v: nat) -> Seq<char>
    decreases v,
{
    if v < 16 {
        hex_digit(v)
    } else {
        hex_of(v / 16) + hex_digit(v % 16)
    }
}

/// Appends the shortest uppercase hexadecimal rendering of `v`.
pub fn append_hex(out: &mut String, v: u64)
    ensures
        final(out)@ == old(out)@ + hex_of(v as nat),
    decreases v,
{
    if v < 16 {
        out.append(hex_digit_str(v as u8));
    } else {
        append_hex(out, v / 16);
        out.append(hex_digit_str((v % 16) as u8));
        proof {
            assert(final(out)@ =~= old(out)@ + hex_of(v as nat));
        }
    }
}

/// Fixed-width uppercase hexadecimal rendering (low `w` digits of `v`).
pub open spec fn hex_fixed(v: nat, w: nat) -> Seq<char>
    decreases w,
{
    if w <= 1 {
        hex_digit(v % 16)
    } else {
        hex_fixed(v / 16, (w - 1) as nat) + hex_digit(v % 16)
    }
}

/// Appends exactly `w` uppercase hexadecimal digits (the low digits of `v`).
pub fn append_hex_fixed(out: &mut String, v: u64, w: u8)
    ensures
        final(out)@ == old(out)@ + hex_fixed(v as nat, w as nat),
    decreases w,
{
    if w <= 1 {
        out.append(hex_digit_str((v % 16) as u8));
    } else {
        append_hex_fixed(out, v / 16, w - 1);
        out.append(hex_digit_str((v % 16) as u8));
        proof {
            assert(final(out)@ =~= old(out)@ + hex_fixed(v as nat, w as nat));
        }
    }
}

/// `n` space characters.
pub open spec fn spaces(n: nat) -> Seq<char>
    decreases n,
{
    if n == 0 {
        Seq::empty()
    } else {
        spaces((n - 1) as nat) + " "@
    }
}

/// Appends `n` space characters.
pub fn append_spaces(out: &mut String, n: usize)
    ensures
        final(out)@ == old(out)@ + spaces(n as nat),
{
    let mut k: usize = 0;
    while k < n
        invariant
            k <= n,
            out@ == old(out)@ + spaces(k as nat),
        decreases n - k,
    {
        out.append(" ");
        k = k + 1;
        proof {
            assert(out@ =~= old(out)@ + spaces(k as nat));
        }
    }
}

/// The bytes of `[s, e)` as a bracketed list of two-digit uppercase
/// hexadecimal values, comma separated.
pub open spec fn hex_byte_pairs(d: Seq<u8>, s: int, e: int) -> Seq<char>
    decreases e - s,
{
    if s < 0 || s >= e {
        Seq::empty()
    } else {
        hex_fixed(d[s] as nat, 2) + (if s + 1 < e {
            ", "@ + hex_byte_pairs(d, s + 1, e)
        } else {
            Seq::empty()
        })
    }
}

/// The raw-byte rendering of `[s, e)`: the bracketed hexadecimal list.
pub open spec fn raw_list(d: Seq<u8>, s: int, e: int) -> Seq<char> {
    "["@ + hex_byte_pairs(d, s, e) + "]"@
}

/// Appends the bracketed hexadecimal rendering of the bytes in `[s, e)`.
#[verifier::loop_isolation(false)]
pub fn append_raw_list(out: &mut String, d: &[u8], s: usize, e: usize)
    requires
        e <= d.len(),
    ensures
        final(out)@ == old(out)@ + raw_list(d@, s as int, e as int),
{
    out.append("[");
    let ghost mark = out@;
    let mut k: usize = s;
    while k < e
        invariant
            s <= k,
            out@ + hex_byte_pairs(d@, k as int, e as int) == mark + hex_byte_pairs(
                d@,
                s as int,
                e as int,
            ),
        decreases e - k,
    {
        let ghost prev = out@;
        let ghost kk = k as int;
        append_hex_fixed(out, d[k] as u64, 2);
        if k + 1 < e {
            out.append(", ");
        }
        k = k + 1;
        proof {
            assert(out@ + hex_byte_pairs(d@, k as int, e as int) =~= prev + hex_byte_pairs(
                d@,
                kk,
                e as int,
            ));
        }
    }
    out.append("]");
    proof {
        assert(hex_byte_pairs(d@, k as int, e as int) =~= Seq::<char>::empty());
        assert(final(out)@ =~= old(out)@ + raw_list(d@, s as int, e as int));
    }
}

/// The mathematical contents of a string table: each held identifier
/// mapped to the characters of its entry.
pub open spec fn map_view_of(m: Map<u16, String>) -> Map<u16, Seq<char>> {
    Map::new(|k: u16| m.contains_key(k), |k: u16| m[k]@)
}

/// Relies on String::push: it appends exactly the one character given.
#[verifier::external_body]
pub fn push_char(out: &mut String, c: char)
    ensures
        final(out)@ == old(out)@ + seq![c],
{
    out.push(c);
}

/// The text a string identifier resolves to: the table entry when present,
/// the literal `InvalidId` otherwise.
pub open spec fn resolve(m: Map<u16, String>, id: u16) -> Seq<char> {
    if m.contains_key(id) {
        m[id]@
    } else {
        "InvalidId"@
    }
}

/// Appends the resolution of `id` against the string table `m`.
pub fn append_resolved(out: &mut String, m: &HashMap<u16, String>, id: u16)
    ensures
        final(out)@ == old(out)@ + resolve(m@, id),
{
    match m.get(&id) {
        Some(s) => {
            out.append(s.as_str());
        },
        None => {
            out.append("InvalidId");
        },
    }
}

} // verus!
