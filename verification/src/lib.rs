//! Extraction of human-readable IFR (Internal Forms Representation)
//! listings from binary HII (Human Interface Infrastructure) data.
//!
//! The crate scans an opaque byte buffer for embedded HII string and form
//! packages, in both the UEFI dialect and the older Framework dialect,
//! decodes the string tables into identifier-indexed text, and renders a
//! form package's opcode stream as one indented line per opcode.
//!
//! Every entry point is total: any byte buffer is accepted, the scans
//! terminate, and what they return is pinned down — bounds, disjointness
//! and ascending order of the recorded ranges, the exact decoded string
//! tables, and the exact summary of the string identifiers each form
//! package references. Rendering is a pure function of its inputs.

use vstd::prelude::*;
use std::collections::HashMap;

pub mod bytes;
pub mod framework;
pub mod framework_ops;
pub mod framework_parse;
pub mod framework_strings;
pub mod framework_text;
pub mod scope;
pub mod sorted;
pub mod textbuf;
pub mod uefi;
pub mod uefi_ops;
pub mod uefi_parse;
pub mod uefi_strings;
pub mod uefi_text;

verus! {

/// A located HII string package: where it lies in the scanned buffer, its
/// language tag, and its table of identifier-indexed strings.
#[derive(Debug, Clone)]
pub struct StringPackage {
    /// Byte offset in the scanned buffer.
    pub offset: usize,
    /// Total length in bytes, header included.
    pub length: usize,
    /// The package's language tag.
    pub language: String,
    /// Map from string identifier to decoded string.
    pub string_id_map: HashMap<u16, String>,
}

/// A located HII form package: where it lies in the scanned buffer and a
/// summary of the string identifiers its opcode stream references.
#[derive(Debug, Clone)]
pub struct FormPackage {
    /// Byte offset in the scanned buffer.
    pub offset: usize,
    /// Total length in bytes, header included.
    pub length: usize,
    /// Number of distinct string identifiers referenced.
    pub used_strings: usize,
    /// Smallest string identifier referenced.
    pub min_string_id: u16,
    /// Largest string identifier referenced.
    pub max_string_id: u16,
}

/// Scans `data` for every UEFI HII string and form package.
///
/// Both lists come back in strictly ascending, pairwise disjoint offset
/// order, each range inside the buffer; they carry exactly the packages
/// the linear scan records, faithfully decoded — unless either scan comes
/// up empty, in which case both lists are empty.
pub fn find_uefi_packages(data: &[u8]) -> (r: (Vec<StringPackage>, Vec<FormPackage>))
    ensures
        uefi::uefi_str_scan(data@, 0).len() == 0 || uefi::uefi_form_scan(data@, 0).len() == 0
            ==> r.0@.len() == 0 && r.1@.len() == 0,
        uefi::uefi_str_scan(data@, 0).len() > 0 && uefi::uefi_form_scan(data@, 0).len() > 0
            ==> uefi::str_desc_pairs(r.0@) == uefi::uefi_str_scan(data@, 0)
            && uefi::form_desc_pairs(r.1@) == uefi::uefi_form_scan(data@, 0),
        forall|k: int|
            0 <= k < r.0@.len() ==> uefi::uefi_string_pkg_matches(data@, #[trigger] r.0@[k]),
        forall|k: int|
            0 <= k < r.1@.len() ==> uefi::uefi_form_pkg_matches(data@, #[trigger] r.1@[k]),
        uefi::ranges_well_formed(uefi::str_desc_pairs(r.0@), data@.len() as int),
        uefi::ranges_well_formed(uefi::form_desc_pairs(r.1@), data@.len() as int),
{
    uefi::find(data)
}

/// Renders the IFR text of one located UEFI form package against a chosen
/// string package. With `verbose`, each line is prefixed by the opcode's
/// absolute byte offset.
pub fn extract_uefi_ifr(
    data: &[u8],
    form_pkg: &FormPackage,
    string_pkg: &StringPackage,
    verbose: bool,
) -> (r: String)
    ensures
        r@ == uefi_text::uefi_extract_text(
            data@,
            form_pkg.offset as int,
            string_pkg.string_id_map@,
            verbose,
        ),
{
    uefi_text::extract(data, form_pkg, string_pkg, verbose)
}

/// Scans `data` for every Framework HII string and form pack, with the
/// same guarantees as the UEFI scan.
pub fn find_framework_packages(data: &[u8]) -> (r: (Vec<StringPackage>, Vec<FormPackage>))
    ensures
        framework::fr_str_scan(data@, 0).len() == 0 || framework::fr_form_scan(data@, 0).len()
            == 0 ==> r.0@.len() == 0 && r.1@.len() == 0,
        framework::fr_str_scan(data@, 0).len() > 0 && framework::fr_form_scan(data@, 0).len() > 0
            ==> uefi::str_desc_pairs(r.0@) == framework::fr_str_scan(data@, 0)
            && uefi::form_desc_pairs(r.1@) == framework::fr_form_scan(data@, 0),
        forall|k: int|
            0 <= k < r.0@.len() ==> framework::fr_string_pkg_matches(data@, #[trigger] r.0@[k]),
        forall|k: int|
            0 <= k < r.1@.len() ==> framework::fr_form_pkg_matches(data@, #[trigger] r.1@[k]),
        uefi::ranges_well_formed(uefi::str_desc_pairs(r.0@), data@.len() as int),
        uefi::ranges_well_formed(uefi::form_desc_pairs(r.1@), data@.len() as int),
{
    framework::find(data)
}

/// Renders the IFR text of one located Framework form pack against a
/// chosen string pack. With `verbose`, each line is prefixed by the
/// opcode's absolute byte offset.
pub fn extract_framework_ifr(
    data: &[u8],
    form_pkg: &FormPackage,
    string_pkg: &StringPackage,
    verbose: bool,
) -> (r: String)
    ensures
        r@ == framework_text::fr_extract_text(
            data@,
            form_pkg.offset as int,
            string_pkg.string_id_map@,
            verbose,
        ),
{
    framework_text::extract(data, form_pkg, string_pkg, verbose)
}

} // verus!
