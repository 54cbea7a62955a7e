//! Decoding of UEFI string packages: the package header, the language tag,
//! and the stream of string-information blocks that populates the table of
//! identifier-indexed strings.

use vstd::prelude::*;
use std::collections::HashMap;
use crate::bytes::{le16, le24, le32, first_nul, first_nul16, latin1, ucs2};
use crate::bytes::{lemma_first_nul_bounds, lemma_first_nul16_bounds};
use crate::textbuf::map_view_of;

verus! {

broadcast use vstd::std_specs::hash::group_hash_axioms;

/// The package type tag of a UEFI string package.
pub const UEFI_STRING_PKG: u8 = 0x04;

/// One step through the string-information block stream.
///
/// `pending` strings of the current encoding (`wide` selects 16-bit units)
/// are still owed to the table before the next block tag; `id` is the
/// identifier the next decoded string receives. The walk succeeds when an
/// end block arrives or the body is exhausted, and fails on a malformed or
/// unknown block, a missing terminator, or an identifier that leaves the
/// 16-bit range.
pub open spec fn sibt_walk(
    d: Seq<u8>,
    pos: int,
    end: int,
    id: int,
    pending: int,
    wide: bool,
    m: Map<u16, Seq<char>>,
) -> Option<Map<u16, Seq<char>>>
    decreases end - pos,
        via sibt_walk_dec
{
    if pending > 0 {
        if wide {
            match first_nul16(d, pos, end) {
                Some(nl) => if id <= 0xFFFF {
                    sibt_walk(
                        d,
                        nl + 2,
                        end,
                        id + 1,
                        pending - 1,
                        wide,
                        m.insert(id as u16, ucs2(d, pos, nl)),
                    )
                } else {
                    None
                },
                None => None,
            }
        } else {
            match first_nul(d, pos, end) {
                Some(nl) => if id <= 0xFFFF {
                    sibt_walk(
                        d,
                        nl + 1,
                        end,
                        id + 1,
                        pending - 1,
                        wide,
                        m.insert(id as u16, latin1(d, pos, nl)),
                    )
                } else {
                    None
                },
                None => None,
            }
        }
    } else if pos < 0 || pos >= end || end > d.len() {
        if pos == end {
            Some(m)
        } else {
            None
        }
    } else {
        let b = d[pos];
        if b == 0x00 {
            Some(m)
        } else if b == 0x10 {
            sibt_walk(d, pos + 1, end, id, 1, false, m)
        } else if b == 0x11 {
            if pos + 2 <= end {
                sibt_walk(d, pos + 2, end, id, 1, false, m)
            } else {
                None
            }
        } else if b == 0x12 {
            if pos + 3 <= end {
                sibt_walk(d, pos + 3, end, id, le16(d, pos + 1) as int, false, m)
            } else {
                None
            }
        } else if b == 0x13 {
            if pos + 4 <= end {
                sibt_walk(d, pos + 4, end, id, le16(d, pos + 2) as int, false, m)
            } else {
                None
            }
        } else if b == 0x14 {
            sibt_walk(d, pos + 1, end, id, 1, true, m)
        } else if b == 0x15 {
            if pos + 2 <= end {
                sibt_walk(d, pos + 2, end, id, 1, true, m)
            } else {
                None
            }
        } else if b == 0x16 {
            if pos + 3 <= end {
                sibt_walk(d, pos + 3, end, id, le16(d, pos + 1) as int, true, m)
            } else {
                None
            }
        } else if b == 0x17 {
            if pos + 4 <= end {
                sibt_walk(d, pos + 4, end, id, le16(d, pos + 2) as int, true, m)
            } else {
                None
            }
        } else if b == 0x20 {
            if pos + 3 <= end && id + 1 <= 0x10000 {
                sibt_walk(d, pos + 3, end, id + 1, 0, wide, m)
            } else {
                None
            }
        } else if b == 0x21 {
            if pos + 3 <= end && id + le16(d, pos + 1) <= 0x10000 {
                sibt_walk(d, pos + 3, end, id + le16(d, pos + 1), 0, wide, m)
            } else {
                None
            }
        } else if b == 0x22 {
            if pos + 2 <= end && id + d[pos + 1] <= 0x10000 {
                sibt_walk(d, pos + 2, end, id + d[pos + 1], 0, wide, m)
            } else {
                None
            }
        } else if b == 0x30 {
            if pos + 3 <= end && d[pos + 2] >= 3 && pos + d[pos + 2] <= end {
                sibt_walk(d, pos + d[pos + 2], end, id, 0, wide, m)
            } else {
                None
            }
        } else if b == 0x31 {
            if pos + 4 <= end && le16(d, pos + 2) >= 4 && pos + le16(d, pos + 2) <= end {
                sibt_walk(d, pos + le16(d, pos + 2), end, id, 0, wide, m)
            } else {
                None
            }
        } else if b == 0x32 {
            if pos + 6 <= end && le32(d, pos + 2) >= 6 && pos + le32(d, pos + 2) <= end {
                sibt_walk(d, pos + le32(d, pos + 2), end, id, 0, wide, m)
            } else {
                None
            }
        } else {
            None
        }
    }
}

#[via_fn]
proof fn sibt_walk_dec(
    d: Seq<u8>,
    pos: int,
    end: int,
    id: int,
    pending: int,
    wide: bool,
    m: Map<u16, Seq<char>>,
) {
    lemma_first_nul_bounds(d, pos, end);
    lemma_first_nul16_bounds(d, pos, end);
}

/// The decoded form of a string package: its total on-wire length, its
/// language tag, and its identifier-indexed table.
pub struct StrPkgG {
    pub len: int,
    pub lang: Seq<char>,
    pub map: Map<u16, Seq<char>>,
}

/// The table every walk starts from: identifier zero is reserved and maps
/// to the empty string.
pub open spec fn initial_table() -> Map<u16, Seq<char>> {
    Map::empty().insert(0u16, Seq::empty())
}

/// The string package starting at `i`, when one is well formed there: a
/// package header with the string type, a body holding the fixed header
/// fields, a terminated language tag, and a block stream that decodes.
pub open spec fn uefi_str_pkg(d: Seq<u8>, i: int) -> Option<StrPkgG> {
    if 0 <= i && i + 4 <= d.len() {
        let l = le24(d, i) as int;
        if d[i + 3] == UEFI_STRING_PKG && 4 <= l && i + l <= d.len() && l - 4 >= 42 {
            let bs = i + 4;
            let be = i + l;
            match first_nul(d, bs + 42, be) {
                Some(nl) => match sibt_walk(d, nl + 1, be, 1, 0, false, initial_table()) {
                    Some(map) => Some(StrPkgG { len: l, lang: latin1(d, bs + 42, nl), map }),
                    None => None,
                },
                None => None,
            }
        } else {
            None
        }
    } else {
        None
    }
}

/// Reads the string package starting at `i`, if one is well formed there,
/// as its on-wire length, language tag, and string table.
#[verifier::loop_isolation(false)]
pub fn read_str_pkg(d: &[u8], i: usize) -> (r: Option<(usize, String, HashMap<u16, String>)>)
    requires
        i <= d.len(),
    ensures
        match r {
            Some(t) => uefi_str_pkg(d@, i as int) matches Some(g) && g.len == t.0 as int
                && g.lang == t.1@ && g.map == map_view_of(t.2@) && 4 <= t.0 && i + t.0 <= d.len(),
            None => uefi_str_pkg(d@, i as int) is None,
        },
{
    if d.len() - i < 4 {
        return None;
    }
    let l24 = crate::bytes::read_le24(d, i);
    if !(d[i + 3] == UEFI_STRING_PKG && 4 <= l24 && l24 as usize <= d.len() - i && l24 >= 46) {
        return None;
    }
    let l = l24 as usize;
    let bs = i + 4;
    let be = i + l;
    let nl = match crate::bytes::find_nul(d, bs + 42, be) {
        Some(nl) => nl,
        None => {
            return None;
        },
    };
    let mut lang = String::new();
    crate::bytes::append_latin1(&mut lang, d, bs + 42, nl);
    let mut m: HashMap<u16, String> = HashMap::new();
    m.insert(0u16, String::new());
    proof {
        assert(map_view_of(m@) =~= initial_table());
    }

    let mut pos: usize = nl + 1;
    let mut id: u32 = 1;
    let mut pending: u32 = 0;
    let mut wide: bool = false;
    let ghost total = sibt_walk(d@, nl + 1, be as int, 1, 0, false, initial_table());

    while pending > 0 || pos < be
        invariant
            pos <= be,
            be <= d.len(),
            id <= 0x10000,
            total == sibt_walk(
                d@,
                pos as int,
                be as int,
                id as int,
                pending as int,
                wide,
                map_view_of(m@),
            ),
        decreases be - pos, pending,
    {
        if pending > 0 {
            if wide {
                let snl = match crate::bytes::find_nul16(d, pos, be) {
                    Some(snl) => snl,
                    None => {
                        return None;
                    },
                };
                if id > 0xFFFF {
                    return None;
                }
                let mut t = String::new();
                crate::bytes::append_ucs2(&mut t, d, pos, snl);
                let ghost prevm = m@;
                let ghost tv = t@;
                let ghost oldid = id;
                proof {
                    assert(tv =~= ucs2(d@, pos as int, snl as int));
                }
                m.insert(id as u16, t);
                proof {
                    assert(map_view_of(m@) =~= map_view_of(prevm).insert(oldid as u16, tv));
                }
                pos = snl + 2;
                id = id + 1;
                pending = pending - 1;
            } else {
                let snl = match crate::bytes::find_nul(d, pos, be) {
                    Some(snl) => snl,
                    None => {
                        return None;
                    },
                };
                if id > 0xFFFF {
                    return None;
                }
                let mut t = String::new();
                crate::bytes::append_latin1(&mut t, d, pos, snl);
                let ghost prevm = m@;
                let ghost tv = t@;
                let ghost oldid = id;
                proof {
                    assert(tv =~= latin1(d@, pos as int, snl as int));
                }
                m.insert(id as u16, t);
                proof {
                    assert(map_view_of(m@) =~= map_view_of(prevm).insert(oldid as u16, tv));
                }
                pos = snl + 1;
                id = id + 1;
                pending = pending - 1;
            }
        } else {
            let b = d[pos];
            if b == 0x00 {
                return Some((l, lang, m));
            } else if b == 0x10 {
                pos = pos + 1;
                pending = 1;
                wide = false;
            } else if b == 0x11 {
                if be - pos < 2 {
                    return None;
                }
                pos = pos + 2;
                pending = 1;
                wide = false;
            } else if b == 0x12 {
                if be - pos < 3 {
                    return None;
                }
                pending = crate::bytes::read_le16(d, pos + 1) as u32;
                pos = pos + 3;
                wide = false;
            } else if b == 0x13 {
                if be - pos < 4 {
                    return None;
                }
                pending = crate::bytes::read_le16(d, pos + 2) as u32;
                pos = pos + 4;
                wide = false;
            } else if b == 0x14 {
                pos = pos + 1;
                pending = 1;
                wide = true;
            } else if b == 0x15 {
                if be - pos < 2 {
                    return None;
                }
                pos = pos + 2;
                pending = 1;
                wide = true;
            } else if b == 0x16 {
                if be - pos < 3 {
                    return None;
                }
                pending = crate::bytes::read_le16(d, pos + 1) as u32;
                pos = pos + 3;
                wide = true;
            } else if b == 0x17 {
                if be - pos < 4 {
                    return None;
                }
                pending = crate::bytes::read_le16(d, pos + 2) as u32;
                pos = pos + 4;
                wide = true;
            } else if b == 0x20 {
                if !(be - pos >= 3 && id + 1 <= 0x10000) {
                    return None;
                }
                pos = pos + 3;
                id = id + 1;
            } else if b == 0x21 {
                let skip = if be - pos >= 3 {
                    crate::bytes::read_le16(d, pos + 1) as u32
                } else {
                    0
                };
                if !(be - pos >= 3 && id + skip <= 0x10000) {
                    return None;
                }
                pos = pos + 3;
                id = id + skip;
            } else if b == 0x22 {
                let skip = if be - pos >= 2 {
                    d[pos + 1] as u32
                } else {
                    0
                };
                if !(be - pos >= 2 && id + skip <= 0x10000) {
                    return None;
                }
                pos = pos + 2;
                id = id + skip;
            } else if b == 0x30 {
                if !(be - pos >= 3 && d[pos + 2] >= 3 && d[pos + 2] as usize <= be - pos) {
                    return None;
                }
                pos = pos + d[pos + 2] as usize;
            } else if b == 0x31 {
                if !(be - pos >= 4) {
                    return None;
                }
                let ext = crate::bytes::read_le16(d, pos + 2);
                if !(ext >= 4 && ext as usize <= be - pos) {
                    return None;
                }
                pos = pos + ext as usize;
            } else if b == 0x32 {
                if !(be - pos >= 6) {
                    return None;
                }
                let ext = crate::bytes::read_le32(d, pos + 2);
                if !(ext >= 6 && ext as usize <= be - pos) {
                    return None;
                }
                pos = pos + ext as usize;
            } else {
                return None;
            }
        }
    }
    Some((l, lang, m))
}

} // verus!
