//! The UEFI package locator: a linear scan that tries a package header at
//! every offset, records each package that fully decodes, and steps past
//! it; a failed attempt advances a single byte.

use vstd::prelude::*;
use crate::{StringPackage, FormPackage};
use crate::bytes::le24;
use crate::textbuf::map_view_of;
use crate::uefi_parse::{ops_ok, ids_in_ops, collect_form_ids};
use crate::uefi_strings::{uefi_str_pkg, read_str_pkg};
use crate::sorted::{sorted_unique, lemma_sorted_bounds};

verus! {

/// The package type tag of a UEFI form package.
pub const UEFI_FORM_PKG: u8 = 0x02;

/// The on-wire length of the form package starting at `i`, when one is
/// well formed there: a form-type header whose declared length fits the
/// buffer and whose whole body splits into opcode frames.
pub open spec fn uefi_form_pkg_len(d: Seq<u8>, i: int) -> Option<int> {
    if 0 <= i && i + 4 <= d.len() {
        let l = le24(d, i) as int;
        if d[i + 3] == UEFI_FORM_PKG && 4 <= l && i + l <= d.len() && ops_ok(d, i + 4, i + l) {
            Some(l)
        } else {
            None
        }
    } else {
        None
    }
}

/// The string identifiers the form package at `i` (of length `l`)
/// references, in stream order.
pub open spec fn uefi_form_ids(d: Seq<u8>, i: int, l: int) -> Seq<u16> {
    ids_in_ops(d, i + 4, i + l)
}

/// The offsets and lengths of the string packages a scan of `d` records,
/// starting the scan at `i`.
pub open spec fn uefi_str_scan(d: Seq<u8>, i: int) -> Seq<(int, int)>
    decreases d.len() - i,
{
    if i < 0 || i >= d.len() {
        Seq::empty()
    } else {
        match uefi_str_pkg(d, i) {
            Some(g) => seq![(i, g.len)] + uefi_str_scan(d, i + g.len),
            None => uefi_str_scan(d, i + 1),
        }
    }
}

/// The offsets and lengths of the form packages a scan of `d` records,
/// starting the scan at `i`. A package that references no string at all
/// is stepped past but not recorded.
pub open spec fn uefi_form_scan(d: Seq<u8>, i: int) -> Seq<(int, int)>
    decreases d.len() - i,
{
    if i < 0 || i >= d.len() {
        Seq::empty()
    } else {
        match uefi_form_pkg_len(d, i) {
            Some(l) => if uefi_form_ids(d, i, l).len() > 0 {
                seq![(i, l)] + uefi_form_scan(d, i + l)
            } else {
                uefi_form_scan(d, i + l)
            },
            None => uefi_form_scan(d, i + 1),
        }
    }
}

/// The offset and length fields of a list of string packages.
pub open spec fn str_desc_pairs(v: Seq<StringPackage>) -> Seq<(int, int)> {
    v.map_values(|p: StringPackage| (p.offset as int, p.length as int))
}

/// The offset and length fields of a list of form packages.
pub open spec fn form_desc_pairs(v: Seq<FormPackage>) -> Seq<(int, int)> {
    v.map_values(|p: FormPackage| (p.offset as int, p.length as int))
}

/// The descriptor faithfully reports the string package at its offset:
/// the recorded length, language, and table are those the bytes decode to.
pub open spec fn uefi_string_pkg_matches(d: Seq<u8>, sp: StringPackage) -> bool {
    match uefi_str_pkg(d, sp.offset as int) {
        Some(g) => sp.length as int == g.len && sp.language@ == g.lang && map_view_of(
            sp.string_id_map@,
        ) == g.map,
        None => false,
    }
}

/// The descriptor faithfully summarises the form package at its offset:
/// re-walking the opcode stream yields a set of string identifiers whose
/// cardinality, minimum and maximum are the recorded fields.
pub open spec fn uefi_form_pkg_matches(d: Seq<u8>, fp: FormPackage) -> bool {
    &&& uefi_form_pkg_len(d, fp.offset as int) == Some(fp.length as int)
    &&& {
        let s = uefi_form_ids(d, fp.offset as int, fp.length as int).to_set();
        &&& fp.used_strings as nat == s.len()
        &&& s.contains(fp.min_string_id)
        &&& s.contains(fp.max_string_id)
        &&& forall|y: u16| s.contains(y) ==> fp.min_string_id <= y && y <= fp.max_string_id
    }
}

/// Bounds, strict offset order, and same-kind disjointness of a list of
/// recorded ranges: each range lies inside the buffer, ends before the
/// next begins, and the offsets strictly ascend.
pub open spec fn ranges_well_formed(ps: Seq<(int, int)>, n: int) -> bool {
    &&& forall|k: int| 0 <= k < ps.len() ==> 1 <= #[trigger] ps[k].1 && ps[k].0 >= 0 && ps[k].0
        + ps[k].1 <= n
    &&& forall|k: int| 0 <= k < ps.len() - 1 ==> #[trigger] ps[k].0 + ps[k].1 <= ps[k + 1].0
    &&& forall|k: int| 0 <= k < ps.len() - 1 ==> #[trigger] ps[k].0 < ps[k + 1].0
}

/// Ranges that are well formed pairwise overlap nowhere: every earlier
/// range ends at or before every later one begins.
pub proof fn lemma_ranges_disjoint(ps: Seq<(int, int)>, n: int, a: int, b: int)
    requires
        ranges_well_formed(ps, n),
        0 <= a < b < ps.len(),
    ensures
        ps[a].0 + ps[a].1 <= ps[b].0,
    decreases b - a,
{
    if a + 1 < b {
        lemma_ranges_disjoint(ps, n, a, b - 1);
    }
}

/// Identifier-set consistency: a descriptor that faithfully summarises
/// its form package agrees with any re-walk of the opcode stream — the
/// set of identifiers the walk yields has exactly the recorded
/// cardinality, minimum and maximum.
pub proof fn lemma_uefi_summary_consistent(d: Seq<u8>, fp: FormPackage, ids: Seq<u16>)
    requires
        uefi_form_pkg_matches(d, fp),
        ids == uefi_form_ids(d, fp.offset as int, fp.length as int),
    ensures
        fp.used_strings as nat == ids.to_set().len(),
        ids.to_set().contains(fp.min_string_id),
        ids.to_set().contains(fp.max_string_id),
        forall|y: u16|
            ids.to_set().contains(y) ==> fp.min_string_id <= y && y <= fp.max_string_id,
{
}

/// Re-walks the opcode stream of a recorded form package and returns every
/// referenced string identifier in stream order.
pub fn uefi_form_referenced_ids(data: &[u8], offset: usize, length: usize) -> (r: Option<
    Vec<u16>,
>)
    ensures
        match r {
            Some(v) => offset + length <= data@.len() && length >= 4 && ops_ok(
                data@,
                offset + 4,
                offset + length,
            ) && v@ == uefi_form_ids(data@, offset as int, length as int),
            None => !(offset + length <= data@.len() && length >= 4 && ops_ok(
                data@,
                offset + 4,
                offset + length,
            )),
        },
{
    if length > data.len() || offset > data.len() - length || length < 4 {
        return None;
    }
    collect_form_ids(data, offset + 4, offset + length)
}

/// Scans `data` for every UEFI string package.
#[verifier::loop_isolation(false)]
fn scan_string_packages(data: &[u8]) -> (ss: Vec<StringPackage>)
    ensures
        str_desc_pairs(ss@) == uefi_str_scan(data@, 0),
        forall|k: int| 0 <= k < ss@.len() ==> uefi_string_pkg_matches(data@, #[trigger] ss@[k]),
        ranges_well_formed(str_desc_pairs(ss@), data@.len() as int),
{
    let mut ss: Vec<StringPackage> = Vec::new();
    let mut i: usize = 0;
    proof {
        assert(str_desc_pairs(ss@) + uefi_str_scan(data@, 0) =~= uefi_str_scan(data@, 0));
    }
    while i < data.len()
        invariant
            i <= data.len(),
            str_desc_pairs(ss@) + uefi_str_scan(data@, i as int) == uefi_str_scan(data@, 0),
            forall|k: int|
                0 <= k < ss@.len() ==> uefi_string_pkg_matches(data@, #[trigger] ss@[k]),
            forall|k: int|
                0 <= k < ss@.len() ==> 1 <= #[trigger] ss@[k].length && ss@[k].offset
                    + ss@[k].length <= i,
            forall|k: int|
                0 <= k < ss@.len() - 1 ==> #[trigger] ss@[k].offset as int + ss@[k].length as int
                    <= ss@[k + 1].offset as int,
        decreases data.len() - i,
    {
        let ghost prev = ss@;
        let ghost ii = i as int;
        match read_str_pkg(data, i) {
            Some((l, lang, m)) => {
                ss.push(StringPackage { offset: i, length: l, language: lang, string_id_map: m });
                i = i + l;
                proof {
                    assert(str_desc_pairs(ss@) =~= str_desc_pairs(prev).push((ii, l as int)));
                    assert(str_desc_pairs(ss@) + uefi_str_scan(data@, i as int)
                        =~= str_desc_pairs(prev) + (seq![(ii, l as int)] + uefi_str_scan(
                        data@,
                        i as int,
                    )));
                }
            },
            None => {
                i = i + 1;
            },
        }
    }
    proof {
        assert(uefi_str_scan(data@, i as int) =~= Seq::<(int, int)>::empty());
        assert(str_desc_pairs(ss@) =~= str_desc_pairs(ss@) + uefi_str_scan(data@, i as int));
        assert(ranges_well_formed(str_desc_pairs(ss@), data@.len() as int));
    }
    ss
}

/// Scans `data` for every UEFI form package that references at least one
/// string, and summarises each one's referenced identifiers.
#[verifier::loop_isolation(false)]
fn scan_form_packages(data: &[u8]) -> (fs: Vec<FormPackage>)
    ensures
        form_desc_pairs(fs@) == uefi_form_scan(data@, 0),
        forall|k: int| 0 <= k < fs@.len() ==> uefi_form_pkg_matches(data@, #[trigger] fs@[k]),
        ranges_well_formed(form_desc_pairs(fs@), data@.len() as int),
{
    let mut fs: Vec<FormPackage> = Vec::new();
    let mut i: usize = 0;
    proof {
        assert(form_desc_pairs(fs@) + uefi_form_scan(data@, 0) =~= uefi_form_scan(data@, 0));
    }
    while i < data.len()
        invariant
            i <= data.len(),
            form_desc_pairs(fs@) + uefi_form_scan(data@, i as int) == uefi_form_scan(data@, 0),
            forall|k: int| 0 <= k < fs@.len() ==> uefi_form_pkg_matches(data@, #[trigger] fs@[k]),
            forall|k: int|
                0 <= k < fs@.len() ==> 1 <= #[trigger] fs@[k].length && fs@[k].offset
                    + fs@[k].length <= i,
            forall|k: int|
                0 <= k < fs@.len() - 1 ==> #[trigger] fs@[k].offset as int + fs@[k].length as int
                    <= fs@[k + 1].offset as int,
        decreases data.len() - i,
    {
        let ghost prev = fs@;
        let ghost ii = i as int;
        let mut advance: usize = 1;
        if data.len() - i >= 4 {
            let l24 = crate::bytes::read_le24(data, i);
            if data[i + 3] == UEFI_FORM_PKG && 4 <= l24 && l24 as usize <= data.len() - i {
                let l = l24 as usize;
                match collect_form_ids(data, i + 4, i + l) {
                    Some(ids) => {
                        proof {
                            assert(uefi_form_pkg_len(data@, ii) == Some(l as int));
                        }
                        if ids.len() > 0 {
                            let sids = sorted_unique(&ids);
                            proof {
                                assert(ids@.to_set().contains(ids@[0]));
                                assert(sids@.to_set().contains(ids@[0]));
                                assert(sids@.len() > 0);
                                lemma_sorted_bounds(sids@);
                            }
                            fs.push(
                                FormPackage {
                                    offset: i,
                                    length: l,
                                    used_strings: sids.len(),
                                    min_string_id: sids[0],
                                    max_string_id: sids[sids.len() - 1],
                                },
                            );
                            proof {
                                assert(uefi_form_pkg_matches(data@, fs@[fs@.len() - 1]));
                                assert(form_desc_pairs(fs@) =~= form_desc_pairs(prev).push(
                                    (ii, l as int),
                                ));
                                assert(form_desc_pairs(fs@) + uefi_form_scan(data@, ii + l)
                                    =~= form_desc_pairs(prev) + (seq![(ii, l as int)]
                                    + uefi_form_scan(data@, ii + l)));
                            }
                        } else {
                            proof {
                                assert(uefi_form_ids(data@, ii, l as int).len() == 0);
                            }
                        }
                        advance = l;
                    },
                    None => {
                        proof {
                            assert(uefi_form_pkg_len(data@, ii) is None);
                        }
                    },
                }
            }
        }
        i = i + advance;
    }
    proof {
        assert(uefi_form_scan(data@, i as int) =~= Seq::<(int, int)>::empty());
        assert(form_desc_pairs(fs@) =~= form_desc_pairs(fs@) + uefi_form_scan(data@, i as int));
        assert(ranges_well_formed(form_desc_pairs(fs@), data@.len() as int));
    }
    fs
}

/// Scans `data` for every UEFI string and form package. Either both lists
/// carry every package the scan records, or — when either scan comes up
/// empty — both lists are empty.
pub fn find(data: &[u8]) -> (r: (Vec<StringPackage>, Vec<FormPackage>))
    ensures
        uefi_str_scan(data@, 0).len() == 0 || uefi_form_scan(data@, 0).len() == 0 ==> r.0@.len()
            == 0 && r.1@.len() == 0,
        uefi_str_scan(data@, 0).len() > 0 && uefi_form_scan(data@, 0).len() > 0 ==> str_desc_pairs(
            r.0@,
        ) == uefi_str_scan(data@, 0) && form_desc_pairs(r.1@) == uefi_form_scan(data@, 0),
        forall|k: int|
            0 <= k < r.0@.len() ==> uefi_string_pkg_matches(data@, #[trigger] r.0@[k]),
        forall|k: int| 0 <= k < r.1@.len() ==> uefi_form_pkg_matches(data@, #[trigger] r.1@[k]),
        ranges_well_formed(str_desc_pairs(r.0@), data@.len() as int),
        ranges_well_formed(form_desc_pairs(r.1@), data@.len() as int),
{
    let ss = scan_string_packages(data);
    if ss.len() == 0 {
        proof {
            assert(str_desc_pairs(Seq::<StringPackage>::empty()) =~= Seq::<(int, int)>::empty());
            assert(form_desc_pairs(Seq::<FormPackage>::empty()) =~= Seq::<(int, int)>::empty());
            assert(ranges_well_formed(Seq::<(int, int)>::empty(), data@.len() as int));
        }
        return (Vec::new(), Vec::new());
    }
    let fs = scan_form_packages(data);
    if fs.len() == 0 {
        proof {
            assert(str_desc_pairs(Seq::<StringPackage>::empty()) =~= Seq::<(int, int)>::empty());
            assert(form_desc_pairs(Seq::<FormPackage>::empty()) =~= Seq::<(int, int)>::empty());
            assert(ranges_well_formed(Seq::<(int, int)>::empty(), data@.len() as int));
        }
        return (Vec::new(), Vec::new());
    }
    (ss, fs)
}

} // verus!
