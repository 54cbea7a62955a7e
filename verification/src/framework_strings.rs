//! Decoding of Framework string packages: a pack header, a table of
//! 32-bit offsets into the pack body, and a pool of NUL-terminated 8-bit
//! strings the offsets point into.

use vstd::prelude::*;
use std::collections::HashMap;
use crate::bytes::{le16, le32, first_nul, latin1};
use crate::textbuf::map_view_of;
use crate::uefi_strings::StrPkgG;

verus! {

broadcast use vstd::std_specs::hash::group_hash_axioms;

/// The pack type tag of a Framework string pack.
pub const FR_STRING_PKG: u16 = 0x02;

/// One step through the string-pointer table: entry `k` is decoded as the
/// NUL-terminated string at its offset into the pack body and inserted
/// under identifier `k`. A pointer outside the body, or a string without
/// a terminator, fails the walk.
pub open spec fn fr_ptr_walk(
    d: Seq<u8>,
    bs: int,
    be: int,
    n: int,
    k: int,
    m: Map<u16, Seq<char>>,
) -> Option<Map<u16, Seq<char>>>
    decreases n - k,
{
    if k < 0 || k >= n {
        Some(m)
    } else {
        let p = le32(d, bs + 24 + 4 * k) as int;
        if bs + p <= be {
            match first_nul(d, bs + p, be) {
                Some(nl) => fr_ptr_walk(
                    d,
                    bs,
                    be,
                    n,
                    k + 1,
                    m.insert(k as u16, latin1(d, bs + p, nl)),
                ),
                None => None,
            }
        } else {
            None
        }
    }
}

/// The index of the string whose pointer equals the pack's language-name
/// offset; index zero when none matches.
pub open spec fn fr_lang_pos(d: Seq<u8>, bs: int, n: int, k: int) -> int
    decreases n - k,
{
    if k < 0 || k >= n {
        0
    } else if le32(d, bs + 24 + 4 * k) == le32(d, bs + 16) {
        k
    } else {
        fr_lang_pos(d, bs, n, k + 1)
    }
}

/// The language tag of the pack: the string the language index points at,
/// or the empty string when the pack holds no strings.
pub open spec fn fr_lang_text(d: Seq<u8>, bs: int, be: int, n: int) -> Seq<char> {
    if n > 0 {
        let li = fr_lang_pos(d, bs, n, 0);
        let p = le32(d, bs + 24 + 4 * li) as int;
        match first_nul(d, bs + p, be) {
            Some(nl) => latin1(d, bs + p, nl),
            None => Seq::empty(),
        }
    } else {
        Seq::empty()
    }
}

/// Where a match exists the language index lies in the table; it is zero
/// otherwise.
proof fn lemma_fr_lang_pos_bounds(d: Seq<u8>, bs: int, n: int, k: int)
    requires
        0 <= k,
    ensures
        k <= fr_lang_pos(d, bs, n, k) < n || fr_lang_pos(d, bs, n, k) == 0,
    decreases n - k,
{
    if 0 <= k < n && le32(d, bs + 24 + 4 * k) != le32(d, bs + 16) {
        lemma_fr_lang_pos_bounds(d, bs, n, k + 1);
    }
}

/// The string pack starting at `i`, when one is well formed there: a pack
/// header with the string type, the fixed header fields, a pointer table
/// that fits the body, and a decodable string for every pointer.
pub open spec fn fr_str_pkg(d: Seq<u8>, i: int) -> Option<StrPkgG> {
    if 0 <= i && i + 6 <= d.len() {
        let l = le32(d, i) as int;
        if le16(d, i + 4) == FR_STRING_PKG && 6 <= l && i + l <= d.len() && l - 6 >= 24 {
            let bs = i + 6;
            let be = i + l;
            let n = le32(d, bs + 8) as int;
            if 24 + 4 * n <= l - 6 && n <= 0x10000 {
                match fr_ptr_walk(d, bs, be, n, 0, Map::empty()) {
                    Some(m) => Some(
                        StrPkgG { len: l, lang: fr_lang_text(d, bs, be, n), map: m },
                    ),
                    None => None,
                }
            } else {
                None
            }
        } else {
            None
        }
    } else {
        None
    }
}

/// Finds the index of the pointer equal to the pack's language-name
/// offset, falling back to index zero.
#[verifier::loop_isolation(false)]
fn find_lang_index(d: &[u8], bs: usize, n: usize) -> (r: usize)
    requires
        bs + 24 + 4 * n <= d.len(),
        bs + 20 <= d.len(),
    ensures
        r as int == fr_lang_pos(d@, bs as int, n as int, 0),
        r == 0 || r < n,
{
    let target = crate::bytes::read_le32(d, bs + 16);
    let mut k: usize = 0;
    while k < n
        invariant
            k <= n,
            fr_lang_pos(d@, bs as int, n as int, 0) == fr_lang_pos(
                d@,
                bs as int,
                n as int,
                k as int,
            ),
        decreases n - k,
    {
        if crate::bytes::read_le32(d, bs + 24 + 4 * k) == target {
            return k;
        }
        k = k + 1;
    }
    0
}

/// Reads the Framework string pack starting at `i`, if one is well formed
/// there, as its on-wire length, language tag, and string table.
#[verifier::loop_isolation(false)]
pub fn read_fr_str_pkg(d: &[u8], i: usize) -> (r: Option<(usize, String, HashMap<u16, String>)>)
    requires
        i <= d.len(),
    ensures
        match r {
            Some(t) => fr_str_pkg(d@, i as int) matches Some(g) && g.len == t.0 as int && g.lang
                == t.1@ && g.map == map_view_of(t.2@) && 6 <= t.0 && i + t.0 <= d.len(),
            None => fr_str_pkg(d@, i as int) is None,
        },
{
    if d.len() - i < 6 {
        return None;
    }
    let l32 = crate::bytes::read_le32(d, i);
    if !(crate::bytes::read_le16(d, i + 4) == FR_STRING_PKG && 6 <= l32 && l32 as usize <= d.len()
        - i && l32 >= 30) {
        return None;
    }
    let l = l32 as usize;
    let bs = i + 6;
    let be = i + l;
    let n32 = crate::bytes::read_le32(d, bs + 8);
    if !(n32 as usize <= (l - 6 - 24) / 4 && n32 <= 0x10000) {
        return None;
    }
    let n = n32 as usize;
    proof {
        assert(24 + 4 * (n as int) <= l - 6);
    }
    let li = find_lang_index(d, bs, n);
    let mut m: HashMap<u16, String> = HashMap::new();
    let mut lang = String::new();
    proof {
        assert(map_view_of(m@) =~= Map::<u16, Seq<char>>::empty());
    }
    let ghost total = fr_ptr_walk(d@, bs as int, be as int, n as int, 0, Map::empty());
    let mut k: usize = 0;
    while k < n
        invariant
            k <= n,
            total == fr_ptr_walk(d@, bs as int, be as int, n as int, k as int, map_view_of(m@)),
            k > li || n == 0 ==> lang@ == fr_lang_text(d@, bs as int, be as int, n as int),
        decreases n - k,
    {
        let p32 = crate::bytes::read_le32(d, bs + 24 + 4 * k);
        if !(p32 as usize <= be - bs) {
            return None;
        }
        let p = p32 as usize;
        let nl = match crate::bytes::find_nul(d, bs + p, be) {
            Some(nl) => nl,
            None => {
                return None;
            },
        };
        let mut t = String::new();
        crate::bytes::append_latin1(&mut t, d, bs + p, nl);
        proof {
            assert(t@ =~= latin1(d@, bs + p, nl as int));
        }
        if k == li && n > 0 {
            lang = t.clone();
            proof {
                assert(lang@ == fr_lang_text(d@, bs as int, be as int, n as int));
            }
        }
        let ghost prevm = m@;
        let ghost tv = t@;
        m.insert(k as u16, t);
        proof {
            assert(map_view_of(m@) =~= map_view_of(prevm).insert(k as u16, tv));
        }
        k = k + 1;
    }
    proof {
        if n > 0 {
            lemma_fr_lang_pos_bounds(d@, bs as int, n as int, 0);
            assert(li < n);
        } else {
            assert(lang@ =~= fr_lang_text(d@, bs as int, be as int, n as int));
        }
    }
    Some((l, lang, m))
}

} // verus!
