//! The Framework package locator: the same linear scan as the UEFI one,
//! over the older six-byte pack header.

use vstd::prelude::*;
use crate::{StringPackage, FormPackage};
use crate::bytes::{le16, le32};
use crate::textbuf::map_view_of;
use crate::framework_parse::{fr_ops_ok, fr_ids_in_ops, fr_collect_form_ids};
use crate::framework_strings::{fr_str_pkg, read_fr_str_pkg};
use crate::sorted::{sorted_unique, lemma_sorted_bounds};
use crate::uefi::ranges_well_formed;

verus! {

/// The pack type tag of a Framework form pack.
pub const FR_FORM_PKG: u16 = 0x03;

/// The on-wire length of the Framework form pack starting at `i`, when
/// one is well formed there: a form-type header whose declared length
/// fits the buffer and whose whole body splits into opcode frames.
pub open spec fn fr_form_pkg_len(d: Seq<u8>, i: int) -> Option<int> {
    if 0 <= i && i + 6 <= d.len() {
        let l = le32(d, i) as int;
        if le16(d, i + 4) == FR_FORM_PKG && 6 <= l && i + l <= d.len() && fr_ops_ok(
            d,
            i + 6,
            i + l,
        ) {
            Some(l)
        } else {
            None
        }
    } else {
        None
    }
}

/// The string identifiers the Framework form pack at `i` (of length `l`)
/// references, in stream order.
pub open spec fn fr_form_ids(d: Seq<u8>, i: int, l: int) -> Seq<u16> {
    fr_ids_in_ops(d, i + 6, i + l)
}

/// The offsets and lengths of the string packs a Framework scan of `d`
/// records, starting the scan at `i`.
pub open spec fn fr_str_scan(d: Seq<u8>, i: int) -> Seq<(int, int)>
    decreases d.len() - i,
{
    if i < 0 || i >= d.len() {
        Seq::empty()
    } else {
        match fr_str_pkg(d, i) {
            Some(g) => seq![(i, g.len)] + fr_str_scan(d, i + g.len),
            None => fr_str_scan(d, i + 1),
        }
    }
}

/// The offsets and lengths of the form packs a Framework scan of `d`
/// records, starting the scan at `i`. A pack that references no string at
/// all is stepped past but not recorded.
pub open spec fn fr_form_scan(d: Seq<u8>, i: int) -> Seq<(int, int)>
    decreases d.len() - i,
{
    if i < 0 || i >= d.len() {
        Seq::empty()
    } else {
        match fr_form_pkg_len(d, i) {
            Some(l) => if fr_form_ids(d, i, l).len() > 0 {
                seq![(i, l)] + fr_form_scan(d, i + l)
            } else {
                fr_form_scan(d, i + l)
            },
            None => fr_form_scan(d, i + 1),
        }
    }
}

/// The descriptor faithfully reports the string pack at its offset.
pub open spec fn fr_string_pkg_matches(d: Seq<u8>, sp: StringPackage) -> bool {
    match fr_str_pkg(d, sp.offset as int) {
        Some(g) => sp.length as int == g.len && sp.language@ == g.lang && map_view_of(
            sp.string_id_map@,
        ) == g.map,
        None => false,
    }
}

/// The descriptor faithfully summarises the form pack at its offset:
/// re-walking the opcode stream yields a set of string identifiers whose
/// cardinality, minimum and maximum are the recorded fields.
pub open spec fn fr_form_pkg_matches(d: Seq<u8>, fp: FormPackage) -> bool {
    &&& fr_form_pkg_len(d, fp.offset as int) == Some(fp.length as int)
    &&& {
        let s = fr_form_ids(d, fp.offset as int, fp.length as int).to_set();
        &&& fp.used_strings as nat == s.len()
        &&& s.contains(fp.min_string_id)
        &&& s.contains(fp.max_string_id)
        &&& forall|y: u16| s.contains(y) ==> fp.min_string_id <= y && y <= fp.max_string_id
    }
}

/// Identifier-set consistency: a descriptor that faithfully summarises
/// its form pack agrees with any re-walk of the opcode stream — the set
/// of identifiers the walk yields has exactly the recorded cardinality,
/// minimum and maximum.
pub proof fn lemma_fr_summary_consistent(d: Seq<u8>, fp: FormPackage, ids: Seq<u16>)
    requires
        fr_form_pkg_matches(d, fp),
        ids == fr_form_ids(d, fp.offset as int, fp.length as int),
    ensures
        fp.used_strings as nat == ids.to_set().len(),
        ids.to_set().contains(fp.min_string_id),
        ids.to_set().contains(fp.max_string_id),
        forall|y: u16|
            ids.to_set().contains(y) ==> fp.min_string_id <= y && y <= fp.max_string_id,
{
}

/// Re-walks the opcode stream of a recorded Framework form pack and
/// returns every referenced string identifier in stream order.
pub fn fr_form_referenced_ids(data: &[u8], offset: usize, length: usize) -> (r: Option<
    Vec<u16>,
>)
    ensures
        match r {
            Some(v) => offset + length <= data@.len() && length >= 6 && fr_ops_ok(
                data@,
                offset + 6,
                offset + length,
            ) && v@ == fr_form_ids(data@, offset as int, length as int),
            None => !(offset + length <= data@.len() && length >= 6 && fr_ops_ok(
                data@,
                offset + 6,
                offset + length,
            )),
        },
{
    if length > data.len() || offset > data.len() - length || length < 6 {
        return None;
    }
    fr_collect_form_ids(data, offset + 6, offset + length)
}

/// Scans `data` for every Framework string pack.
#[verifier::loop_isolation(false)]
fn scan_string_packages(data: &[u8]) -> (ss: Vec<StringPackage>)
    ensures
        crate::uefi::str_desc_pairs(ss@) == fr_str_scan(data@, 0),
        forall|k: int| 0 <= k < ss@.len() ==> fr_string_pkg_matches(data@, #[trigger] ss@[k]),
        ranges_well_formed(crate::uefi::str_desc_pairs(ss@), data@.len() as int),
{
    let mut ss: Vec<StringPackage> = Vec::new();
    let mut i: usize = 0;
    proof {
        assert(crate::uefi::str_desc_pairs(ss@) + fr_str_scan(data@, 0) =~= fr_str_scan(
            data@,
            0,
        ));
    }
    while i < data.len()
        invariant
            i <= data.len(),
            crate::uefi::str_desc_pairs(ss@) + fr_str_scan(data@, i as int) == fr_str_scan(
                data@,
                0,
            ),
            forall|k: int| 0 <= k < ss@.len() ==> fr_string_pkg_matches(data@, #[trigger] ss@[k]),
            forall|k: int|
                0 <= k < ss@.len() ==> 1 <= #[trigger] ss@[k].length && ss@[k].offset
                    + ss@[k].length <= i,
            forall|k: int|
                0 <= k < ss@.len() - 1 ==> #[trigger] ss@[k].offset as int + ss@[k].length as int
                    <= ss@[k + 1].offset as int,
        decreases data.len() - i,
    {
        let ghost prev = ss@;
        let ghost ii = i as int;
        match read_fr_str_pkg(data, i) {
            Some((l, lang, m)) => {
                ss.push(StringPackage { offset: i, length: l, language: lang, string_id_map: m });
                i = i + l;
                proof {
                    assert(crate::uefi::str_desc_pairs(ss@) =~= crate::uefi::str_desc_pairs(
                        prev,
                    ).push((ii, l as int)));
                    assert(crate::uefi::str_desc_pairs(ss@) + fr_str_scan(data@, i as int)
                        =~= crate::uefi::str_desc_pairs(prev) + (seq![(ii, l as int)]
                        + fr_str_scan(data@, i as int)));
                }
            },
            None => {
                i = i + 1;
            },
        }
    }
    proof {
        assert(fr_str_scan(data@, i as int) =~= Seq::<(int, int)>::empty());
        assert(crate::uefi::str_desc_pairs(ss@) =~= crate::uefi::str_desc_pairs(ss@)
            + fr_str_scan(data@, i as int));
        assert(ranges_well_formed(crate::uefi::str_desc_pairs(ss@), data@.len() as int));
    }
    ss
}

/// Scans `data` for every Framework form pack that references at least
/// one string, and summarises each one's referenced identifiers.
#[verifier::loop_isolation(false)]
fn scan_form_packages(data: &[u8]) -> (fs: Vec<FormPackage>)
    ensures
        crate::uefi::form_desc_pairs(fs@) == fr_form_scan(data@, 0),
        forall|k: int| 0 <= k < fs@.len() ==> fr_form_pkg_matches(data@, #[trigger] fs@[k]),
        ranges_well_formed(crate::uefi::form_desc_pairs(fs@), data@.len() as int),
{
    let mut fs: Vec<FormPackage> = Vec::new();
    let mut i: usize = 0;
    proof {
        assert(crate::uefi::form_desc_pairs(fs@) + fr_form_scan(data@, 0) =~= fr_form_scan(
            data@,
            0,
        ));
    }
    while i < data.len()
        invariant
            i <= data.len(),
            crate::uefi::form_desc_pairs(fs@) + fr_form_scan(data@, i as int) == fr_form_scan(
                data@,
                0,
            ),
            forall|k: int| 0 <= k < fs@.len() ==> fr_form_pkg_matches(data@, #[trigger] fs@[k]),
            forall|k: int|
                0 <= k < fs@.len() ==> 1 <= #[trigger] fs@[k].length && fs@[k].offset
                    + fs@[k].length <= i,
            forall|k: int|
                0 <= k < fs@.len() - 1 ==> #[trigger] fs@[k].offset as int + fs@[k].length as int
                    <= fs@[k + 1].offset as int,
        decreases data.len() - i,
    {
        let ghost prev = fs@;
        let ghost ii = i as int;
        let mut advance: usize = 1;
        if data.len() - i >= 6 {
            let l32 = crate::bytes::read_le32(data, i);
            if crate::bytes::read_le16(data, i + 4) == FR_FORM_PKG && 6 <= l32 && l32
                as usize <= data.len() - i {
                let l = l32 as usize;
                match fr_collect_form_ids(data, i + 6, i + l) {
                    Some(ids) => {
                        proof {
                            assert(fr_form_pkg_len(data@, ii) == Some(l as int));
                        }
                        if ids.len() > 0 {
                            let sids = sorted_unique(&ids);
                            proof {
                                assert(ids@.to_set().contains(ids@[0]));
                                assert(sids@.to_set().contains(ids@[0]));
                                assert(sids@.len() > 0);
                                lemma_sorted_bounds(sids@);
                            }
                            fs.push(
                                FormPackage {
                                    offset: i,
                                    length: l,
                                    used_strings: sids.len(),
                                    min_string_id: sids[0],
                                    max_string_id: sids[sids.len() - 1],
                                },
                            );
                            proof {
                                assert(fr_form_pkg_matches(data@, fs@[fs@.len() - 1]));
                                assert(crate::uefi::form_desc_pairs(fs@)
                                    =~= crate::uefi::form_desc_pairs(prev).push((ii, l as int)));
                                assert(crate::uefi::form_desc_pairs(fs@) + fr_form_scan(
                                    data@,
                                    ii + l,
                                ) =~= crate::uefi::form_desc_pairs(prev) + (seq![(ii, l as int)]
                                    + fr_form_scan(data@, ii + l)));
                            }
                        } else {
                            proof {
                                assert(fr_form_ids(data@, ii, l as int).len() == 0);
                            }
                        }
                        advance = l;
                    },
                    None => {
                        proof {
                            assert(fr_form_pkg_len(data@, ii) is None);
                        }
                    },
                }
            }
        }
        i = i + advance;
    }
    proof {
        assert(fr_form_scan(data@, i as int) =~= Seq::<(int, int)>::empty());
        assert(crate::uefi::form_desc_pairs(fs@) =~= crate::uefi::form_desc_pairs(fs@)
            + fr_form_scan(data@, i as int));
        assert(ranges_well_formed(crate::uefi::form_desc_pairs(fs@), data@.len() as int));
    }
    fs
}

/// Scans `data` for every Framework string and form pack. Either both
/// lists carry every pack the scan records, or — when either scan comes
/// up empty — both lists are empty.
pub fn find(data: &[u8]) -> (r: (Vec<StringPackage>, Vec<FormPackage>))
    ensures
        fr_str_scan(data@, 0).len() == 0 || fr_form_scan(data@, 0).len() == 0 ==> r.0@.len() == 0
            && r.1@.len() == 0,
        fr_str_scan(data@, 0).len() > 0 && fr_form_scan(data@, 0).len() > 0
            ==> crate::uefi::str_desc_pairs(r.0@) == fr_str_scan(data@, 0)
            && crate::uefi::form_desc_pairs(r.1@) == fr_form_scan(data@, 0),
        forall|k: int| 0 <= k < r.0@.len() ==> fr_string_pkg_matches(data@, #[trigger] r.0@[k]),
        forall|k: int| 0 <= k < r.1@.len() ==> fr_form_pkg_matches(data@, #[trigger] r.1@[k]),
        ranges_well_formed(crate::uefi::str_desc_pairs(r.0@), data@.len() as int),
        ranges_well_formed(crate::uefi::form_desc_pairs(r.1@), data@.len() as int),
{
    let ss = scan_string_packages(data);
    if ss.len() == 0 {
        proof {
            assert(crate::uefi::str_desc_pairs(Seq::<StringPackage>::empty()) =~= Seq::<
                (int, int),
            >::empty());
            assert(crate::uefi::form_desc_pairs(Seq::<FormPackage>::empty()) =~= Seq::<
                (int, int),
            >::empty());
            assert(ranges_well_formed(Seq::<(int, int)>::empty(), data@.len() as int));
        }
        return (Vec::new(), Vec::new());
    }
    let fs = scan_form_packages(data);
    if fs.len() == 0 {
        proof {
            assert(crate::uefi::str_desc_pairs(Seq::<StringPackage>::empty()) =~= Seq::<
                (int, int),
            >::empty());
            assert(crate::uefi::form_desc_pairs(Seq::<FormPackage>::empty()) =~= Seq::<
                (int, int),
            >::empty());
            assert(ranges_well_formed(Seq::<(int, int)>::empty(), data@.len() as int));
        }
        return (Vec::new(), Vec::new());
    }
    (ss, fs)
}

} // verus!
