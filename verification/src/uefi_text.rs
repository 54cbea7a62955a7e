//! Rendering of a UEFI form package as text: one line per opcode, indented
//! by scope depth, with the operands of the recognised opcodes written as
//! `key: value` pairs and string identifiers resolved against a table.

use vstd::prelude::*;
use vstd::string::StringExecFns;
use std::collections::HashMap;
use crate::bytes::{le16, le24, le32, first_nul, latin1, guid_text, append_guid};
use crate::textbuf::{
    hex_of, spaces, resolve, raw_list, append_hex, append_spaces, append_resolved,
    append_raw_list,
};
use crate::{FormPackage, StringPackage};
use crate::uefi_ops::{IfrOpcode, op_name, op_name_str};
use crate::scope::{ScopeEv, scope_emit, scope_step, depth_after, emit_depths, lemma_depth_shift, lemma_scope_balance};
use crate::uefi_parse::{
    Mms, TypeVal, parse_form, parse_subtitle, parse_text, parse_image, parse_numeric,
    parse_check_box, parse_one_of_option, parse_form_set, parse_err_if, parse_warn_if,
    parse_dev_path, read_form, read_subtitle, read_text, read_image, read_numeric,
    read_check_box, read_one_of_option, read_form_set, read_err_if, read_warn_if, read_dev_path,
    op_at, read_op,
};

verus! {

/// The `Size/Min/Max/Step` tail of a `OneOf` or `Numeric` line.
pub open spec fn mms_text(v: Mms) -> Seq<char> {
    match v {
        Mms::M8(mn, mx, st) => ", Size: 8, Min: 0x"@ + hex_of(mn as nat) + ", Max: 0x"@ + hex_of(
            mx as nat,
        ) + ", Step: 0x"@ + hex_of(st as nat),
        Mms::M16(mn, mx, st) => ", Size: 16, Min: 0x"@ + hex_of(mn as nat) + ", Max: 0x"@
            + hex_of(mx as nat) + ", Step: 0x"@ + hex_of(st as nat),
        Mms::M32(mn, mx, st) => ", Size: 32, Min: 0x"@ + hex_of(mn as nat) + ", Max: 0x"@
            + hex_of(mx as nat) + ", Step: 0x"@ + hex_of(st as nat),
        Mms::M64(mn, mx, st) => ", Size: 64, Min: 0x"@ + hex_of(mn as nat) + ", Max: 0x"@
            + hex_of(mx as nat) + ", Step: 0x"@ + hex_of(st as nat),
    }
}

fn append_mms(out: &mut String, v: &Mms)
    ensures
        final(out)@ == old(out)@ + mms_text(*v),
{
    match v {
        Mms::M8(mn, mx, st) => {
            out.append(", Size: 8, Min: 0x");
            append_hex(out, *mn as u64);
            out.append(", Max: 0x");
            append_hex(out, *mx as u64);
            out.append(", Step: 0x");
            append_hex(out, *st as u64);
        },
        Mms::M16(mn, mx, st) => {
            out.append(", Size: 16, Min: 0x");
            append_hex(out, *mn as u64);
            out.append(", Max: 0x");
            append_hex(out, *mx as u64);
            out.append(", Step: 0x");
            append_hex(out, *st as u64);
        },
        Mms::M32(mn, mx, st) => {
            out.append(", Size: 32, Min: 0x");
            append_hex(out, *mn as u64);
            out.append(", Max: 0x");
            append_hex(out, *mx as u64);
            out.append(", Step: 0x");
            append_hex(out, *st as u64);
        },
        Mms::M64(mn, mx, st) => {
            out.append(", Size: 64, Min: 0x");
            append_hex(out, *mn as u64);
            out.append(", Max: 0x");
            append_hex(out, *mx as u64);
            out.append(", Step: 0x");
            append_hex(out, *st as u64);
        },
    }
    proof {
        assert(final(out)@ =~= old(out)@ + mms_text(*v));
    }
}

/// The rendering of a typed IFR value.
pub open spec fn tv_text(v: TypeVal) -> Seq<char> {
    match v {
        TypeVal::U8(x) => "0x"@ + hex_of(x as nat),
        TypeVal::U16(x) => "0x"@ + hex_of(x as nat),
        TypeVal::U32(x) => "0x"@ + hex_of(x as nat),
        TypeVal::U64(x) => "0x"@ + hex_of(x as nat),
        TypeVal::Bool(x) => "0x"@ + hex_of(x as nat),
        TypeVal::TimeV(h, mi, s) => "0x"@ + hex_of(h as nat) + ":0x"@ + hex_of(mi as nat)
            + ":0x"@ + hex_of(s as nat),
        TypeVal::DateV(y, mo, dy) => "0x"@ + hex_of(y as nat) + "-0x"@ + hex_of(mo as nat)
            + "-0x"@ + hex_of(dy as nat),
        TypeVal::StrId(x) => "0x"@ + hex_of(x as nat),
        TypeVal::ActionId(x) => "0x"@ + hex_of(x as nat),
        TypeVal::Other => "Unknown"@,
    }
}

fn append_tv(out: &mut String, v: &TypeVal)
    ensures
        final(out)@ == old(out)@ + tv_text(*v),
{
    match v {
        TypeVal::U8(x) => {
            out.append("0x");
            append_hex(out, *x as u64);
        },
        TypeVal::U16(x) => {
            out.append("0x");
            append_hex(out, *x as u64);
        },
        TypeVal::U32(x) => {
            out.append("0x");
            append_hex(out, *x as u64);
        },
        TypeVal::U64(x) => {
            out.append("0x");
            append_hex(out, *x);
        },
        TypeVal::Bool(x) => {
            out.append("0x");
            append_hex(out, *x as u64);
        },
        TypeVal::TimeV(h, mi, s) => {
            out.append("0x");
            append_hex(out, *h as u64);
            out.append(":0x");
            append_hex(out, *mi as u64);
            out.append(":0x");
            append_hex(out, *s as u64);
        },
        TypeVal::DateV(y, mo, dy) => {
            out.append("0x");
            append_hex(out, *y as u64);
            out.append("-0x");
            append_hex(out, *mo as u64);
            out.append("-0x");
            append_hex(out, *dy as u64);
        },
        TypeVal::StrId(x) => {
            out.append("0x");
            append_hex(out, *x as u64);
        },
        TypeVal::ActionId(x) => {
            out.append("0x");
            append_hex(out, *x as u64);
        },
        TypeVal::Other => {
            out.append("Unknown");
        },
    }
    proof {
        assert(final(out)@ =~= old(out)@ + tv_text(*v));
    }
}

/// The literal a flag bit renders to.
pub open spec fn enabled_text(b: bool) -> Seq<char> {
    if b {
        "Enabled"@
    } else {
        "Disabled"@
    }
}

/// The operand text of a `Form` payload.
pub open spec fn form_optext(d: Seq<u8>, s: int, e: int, m: Map<u16, String>) -> Seq<char>
    recommends
        0 <= s <= e <= d.len(),
{
    match parse_form(d, s, e) {
        Some(f) => "FormId: 0x"@ + hex_of(f.form_id as nat) + ", Title: \""@ + resolve(m, f.title) + "\""@,
        None => Seq::empty(),
    }
}

fn append_form_optext(out: &mut String, d: &[u8], s: usize, e: usize, m: &HashMap<u16, String>)
    requires
        s <= e,
        e <= d.len(),
    ensures
        final(out)@ == old(out)@ + form_optext(d@, s as int, e as int, m@),
{
    match read_form(d, s, e) {
        Some(f) => {
                out.append("FormId: 0x");
                append_hex(out, f.form_id as u64);
                out.append(", Title: \"");
                append_resolved(out, m, f.title);
                out.append("\"");
        },
        None => {},
    }
    proof {
        assert(final(out)@ =~= old(out)@ + form_optext(d@, s as int, e as int, m@));
    }
}

/// The operand text of a `Subtitle` payload.
pub open spec fn subtitle_optext(d: Seq<u8>, s: int, e: int, m: Map<u16, String>) -> Seq<char>
    recommends
        0 <= s <= e <= d.len(),
{
    match parse_subtitle(d, s, e) {
        Some(x) => "Prompt: \""@ + resolve(m, x.prompt) + "\", Help: \""@ + resolve(m, x.help) + "\", Flags: 0x"@ + hex_of(x.flags as nat),
        None => Seq::empty(),
    }
}

fn append_subtitle_optext(out: &mut String, d: &[u8], s: usize, e: usize, m: &HashMap<u16, String>)
    requires
        s <= e,
        e <= d.len(),
    ensures
        final(out)@ == old(out)@ + subtitle_optext(d@, s as int, e as int, m@),
{
    match read_subtitle(d, s, e) {
        Some(x) => {
                out.append("Prompt: \"");
                append_resolved(out, m, x.prompt);
                out.append("\", Help: \"");
                append_resolved(out, m, x.help);
                out.append("\", Flags: 0x");
                append_hex(out, x.flags as u64);
        },
        None => {},
    }
    proof {
        assert(final(out)@ =~= old(out)@ + subtitle_optext(d@, s as int, e as int, m@));
    }
}

/// The operand text of a `Textline` payload.
pub open spec fn textline_optext(d: Seq<u8>, s: int, e: int, m: Map<u16, String>) -> Seq<char>
    recommends
        0 <= s <= e <= d.len(),
{
    match parse_text(d, s, e) {
        Some(x) => "Prompt: \""@ + resolve(m, x.prompt) + "\", Help: \""@ + resolve(m, x.help) + "\", Text: \""@ + resolve(m, x.text) + "\""@,
        None => Seq::empty(),
    }
}

fn append_textline_optext(out: &mut String, d: &[u8], s: usize, e: usize, m: &HashMap<u16, String>)
    requires
        s <= e,
        e <= d.len(),
    ensures
        final(out)@ == old(out)@ + textline_optext(d@, s as int, e as int, m@),
{
    match read_text(d, s, e) {
        Some(x) => {
                out.append("Prompt: \"");
                append_resolved(out, m, x.prompt);
                out.append("\", Help: \"");
                append_resolved(out, m, x.help);
                out.append("\", Text: \"");
                append_resolved(out, m, x.text);
                out.append("\"");
        },
        None => {},
    }
    proof {
        assert(final(out)@ =~= old(out)@ + textline_optext(d@, s as int, e as int, m@));
    }
}

/// The operand text of a `Image` payload.
pub open spec fn image_optext(d: Seq<u8>, s: int, e: int, m: Map<u16, String>) -> Seq<char>
    recommends
        0 <= s <= e <= d.len(),
{
    match parse_image(d, s, e) {
        Some(x) => "ImageId: 0x"@ + hex_of(x.image_id as nat),
        None => Seq::empty(),
    }
}

fn append_image_optext(out: &mut String, d: &[u8], s: usize, e: usize, m: &HashMap<u16, String>)
    requires
        s <= e,
        e <= d.len(),
    ensures
        final(out)@ == old(out)@ + image_optext(d@, s as int, e as int, m@),
{
    match read_image(d, s, e) {
        Some(x) => {
                out.append("ImageId: 0x");
                append_hex(out, x.image_id as u64);
        },
        None => {},
    }
    proof {
        assert(final(out)@ =~= old(out)@ + image_optext(d@, s as int, e as int, m@));
    }
}

/// The operand text of a `Oneofopt` payload.
pub open spec fn oneofopt_optext(d: Seq<u8>, s: int, e: int, m: Map<u16, String>) -> Seq<char>
    recommends
        0 <= s <= e <= d.len(),
{
    match parse_one_of_option(d, s, e) {
        Some(x) => "Option: \""@ + resolve(m, x.option) + "\", Value: "@ + tv_text(x.val) + ", Flags: 0x"@ + hex_of(x.flags as nat),
        None => Seq::empty(),
    }
}

fn append_oneofopt_optext(out: &mut String, d: &[u8], s: usize, e: usize, m: &HashMap<u16, String>)
    requires
        s <= e,
        e <= d.len(),
    ensures
        final(out)@ == old(out)@ + oneofopt_optext(d@, s as int, e as int, m@),
{
    match read_one_of_option(d, s, e) {
        Some(x) => {
                out.append("Option: \"");
                append_resolved(out, m, x.option);
                out.append("\", Value: ");
                append_tv(out, &x.val);
                out.append(", Flags: 0x");
                append_hex(out, x.flags as u64);
        },
        None => {},
    }
    proof {
        assert(final(out)@ =~= old(out)@ + oneofopt_optext(d@, s as int, e as int, m@));
    }
}

/// The operand text of a `Devpath` payload.
pub open spec fn devpath_optext(d: Seq<u8>, s: int, e: int, m: Map<u16, String>) -> Seq<char>
    recommends
        0 <= s <= e <= d.len(),
{
    match parse_dev_path(d, s, e) {
        Some(x) => "DevicePath: \""@ + resolve(m, x.dp) + "\""@,
        None => Seq::empty(),
    }
}

fn append_devpath_optext(out: &mut String, d: &[u8], s: usize, e: usize, m: &HashMap<u16, String>)
    requires
        s <= e,
        e <= d.len(),
    ensures
        final(out)@ == old(out)@ + devpath_optext(d@, s as int, e as int, m@),
{
    match read_dev_path(d, s, e) {
        Some(x) => {
                out.append("DevicePath: \"");
                append_resolved(out, m, x.dp);
                out.append("\"");
        },
        None => {},
    }
    proof {
        assert(final(out)@ =~= old(out)@ + devpath_optext(d@, s as int, e as int, m@));
    }
}

/// The operand text of a `Errif` payload.
pub open spec fn errif_optext(d: Seq<u8>, s: int, e: int, m: Map<u16, String>) -> Seq<char>
    recommends
        0 <= s <= e <= d.len(),
{
    match parse_err_if(d, s, e) {
        Some(x) => "Error: \""@ + resolve(m, x.err) + "\""@,
        None => Seq::empty(),
    }
}

fn append_errif_optext(out: &mut String, d: &[u8], s: usize, e: usize, m: &HashMap<u16, String>)
    requires
        s <= e,
        e <= d.len(),
    ensures
        final(out)@ == old(out)@ + errif_optext(d@, s as int, e as int, m@),
{
    match read_err_if(d, s, e) {
        Some(x) => {
                out.append("Error: \"");
                append_resolved(out, m, x.err);
                out.append("\"");
        },
        None => {},
    }
    proof {
        assert(final(out)@ =~= old(out)@ + errif_optext(d@, s as int, e as int, m@));
    }
}

/// The operand text of a `Warnif` payload.
pub open spec fn warnif_optext(d: Seq<u8>, s: int, e: int, m: Map<u16, String>) -> Seq<char>
    recommends
        0 <= s <= e <= d.len(),
{
    match parse_warn_if(d, s, e) {
        Some(x) => "Warning: \""@ + resolve(m, x.warn) + "\", Timeout: 0x"@ + hex_of(x.timeout as nat),
        None => Seq::empty(),
    }
}

fn append_warnif_optext(out: &mut String, d: &[u8], s: usize, e: usize, m: &HashMap<u16, String>)
    requires
        s <= e,
        e <= d.len(),
    ensures
        final(out)@ == old(out)@ + warnif_optext(d@, s as int, e as int, m@),
{
    match read_warn_if(d, s, e) {
        Some(x) => {
                out.append("Warning: \"");
                append_resolved(out, m, x.warn);
                out.append("\", Timeout: 0x");
                append_hex(out, x.timeout as u64);
        },
        None => {},
    }
    proof {
        assert(final(out)@ =~= old(out)@ + warnif_optext(d@, s as int, e as int, m@));
    }
}

/// The operand text of a `OneOf` or `Numeric` payload.
pub open spec fn numeric_optext(d: Seq<u8>, s: int, e: int, m: Map<u16, String>) -> Seq<char>
    recommends
        0 <= s <= e <= d.len(),
{
    match parse_numeric(d, s, e) {
        Some(x) => "Prompt: \""@ + resolve(m, x.q.prompt) + "\", Help: \""@ + resolve(m, x.q.help)
            + "\", QuestionFlags: 0x"@ + hex_of(x.q.qflags as nat) + ", QuestionId: 0x"@ + hex_of(
            x.q.qid as nat,
        ) + ", VarStoreId: 0x"@ + hex_of(x.q.vsid as nat) + ", VarOffset: 0x"@ + hex_of(
            x.q.vinfo as nat,
        ) + ", Flags: 0x"@ + hex_of(x.flags as nat) + mms_text(x.mms),
        None => Seq::empty(),
    }
}

fn append_numeric_optext(out: &mut String, d: &[u8], s: usize, e: usize, m: &HashMap<u16, String>)
    requires
        s <= e,
        e <= d.len(),
    ensures
        final(out)@ == old(out)@ + numeric_optext(d@, s as int, e as int, m@),
{
    match read_numeric(d, s, e) {
        Some(x) => {
            let mut t = String::new();
            t.append("Prompt: \"");
            proof {
                assert(t@ =~= "Prompt: \""@);
            }
            append_resolved(&mut t, m, x.q.prompt);
            t.append("\", Help: \"");
            append_resolved(&mut t, m, x.q.help);
            t.append("\", QuestionFlags: 0x");
            append_hex(&mut t, x.q.qflags as u64);
            t.append(", QuestionId: 0x");
            append_hex(&mut t, x.q.qid as u64);
            t.append(", VarStoreId: 0x");
            append_hex(&mut t, x.q.vsid as u64);
            t.append(", VarOffset: 0x");
            append_hex(&mut t, x.q.vinfo as u64);
            t.append(", Flags: 0x");
            append_hex(&mut t, x.flags as u64);
            append_mms(&mut t, &x.mms);
            out.append(t.as_str());
        },
        None => {},
    }
    proof {
        assert(final(out)@ =~= old(out)@ + numeric_optext(d@, s as int, e as int, m@));
    }
}

/// The operand text of a `CheckBox` payload; the two default flag bits are
/// spelled out.
pub open spec fn checkbox_optext(d: Seq<u8>, s: int, e: int, m: Map<u16, String>) -> Seq<char>
    recommends
        0 <= s <= e <= d.len(),
{
    match parse_check_box(d, s, e) {
        Some(x) => "Prompt: \""@ + resolve(m, x.q.prompt) + "\", Help: \""@ + resolve(m, x.q.help)
            + "\", QuestionFlags: 0x"@ + hex_of(x.q.qflags as nat) + ", QuestionId: 0x"@ + hex_of(
            x.q.qid as nat,
        ) + ", VarStoreId: 0x"@ + hex_of(x.q.vsid as nat) + ", VarOffset: 0x"@ + hex_of(
            x.q.vinfo as nat,
        ) + ", Flags: 0x"@ + hex_of(x.flags as nat) + ", Default: "@ + enabled_text(
            x.flags & 0x01 != 0,
        ) + ", MfgDefault: "@ + enabled_text(x.flags & 0x02 != 0),
        None => Seq::empty(),
    }
}

fn append_checkbox_optext(out: &mut String, d: &[u8], s: usize, e: usize, m: &HashMap<u16, String>)
    requires
        s <= e,
        e <= d.len(),
    ensures
        final(out)@ == old(out)@ + checkbox_optext(d@, s as int, e as int, m@),
{
    match read_check_box(d, s, e) {
        Some(x) => {
            let mut t = String::new();
            t.append("Prompt: \"");
            proof {
                assert(t@ =~= "Prompt: \""@);
            }
            append_resolved(&mut t, m, x.q.prompt);
            t.append("\", Help: \"");
            append_resolved(&mut t, m, x.q.help);
            t.append("\", QuestionFlags: 0x");
            append_hex(&mut t, x.q.qflags as u64);
            t.append(", QuestionId: 0x");
            append_hex(&mut t, x.q.qid as u64);
            t.append(", VarStoreId: 0x");
            append_hex(&mut t, x.q.vsid as u64);
            t.append(", VarOffset: 0x");
            append_hex(&mut t, x.q.vinfo as u64);
            t.append(", Flags: 0x");
            append_hex(&mut t, x.flags as u64);
            t.append(", Default: ");
            if x.flags & 0x01 != 0 {
                t.append("Enabled");
            } else {
                t.append("Disabled");
            }
            t.append(", MfgDefault: ");
            if x.flags & 0x02 != 0 {
                t.append("Enabled");
            } else {
                t.append("Disabled");
            }
            out.append(t.as_str());
        },
        None => {},
    }
    proof {
        assert(final(out)@ =~= old(out)@ + checkbox_optext(d@, s as int, e as int, m@));
    }
}

/// The operand text of a `FormSet` payload.
pub open spec fn formset_optext(d: Seq<u8>, s: int, e: int, m: Map<u16, String>) -> Seq<char>
    recommends
        0 <= s <= e <= d.len(),
{
    match parse_form_set(d, s, e) {
        Some(x) => "Title: \""@ + resolve(m, x.title) + "\", Help: \""@ + resolve(m, x.help)
            + "\", Guid: "@ + guid_text(d, s),
        None => Seq::empty(),
    }
}

fn append_formset_optext(out: &mut String, d: &[u8], s: usize, e: usize, m: &HashMap<u16, String>)
    requires
        s <= e,
        e <= d.len(),
    ensures
        final(out)@ == old(out)@ + formset_optext(d@, s as int, e as int, m@),
{
    match read_form_set(d, s, e) {
        Some(x) => {
            out.append("Title: \"");
            append_resolved(out, m, x.title);
            out.append("\", Help: \"");
            append_resolved(out, m, x.help);
            out.append("\", Guid: ");
            append_guid(out, d, s);
        },
        None => {},
    }
    proof {
        assert(final(out)@ =~= old(out)@ + formset_optext(d@, s as int, e as int, m@));
    }
}

/// The operand text of a `VarStore` payload: identifier, GUID, the
/// NUL-terminated name, and declared size.
pub open spec fn varstore_optext(d: Seq<u8>, s: int, e: int) -> Seq<char>
    recommends
        0 <= s <= e <= d.len(),
{
    if e - s >= 20 {
        match first_nul(d, s + 20, e) {
            Some(nl) => "VarStoreId: 0x"@ + hex_of(le16(d, s + 16) as nat) + ", Guid: "@
                + guid_text(d, s) + ", Name: \""@ + latin1(d, s + 20, nl) + "\", Size: 0x"@
                + hex_of(le16(d, s + 18) as nat),
            None => Seq::empty(),
        }
    } else {
        Seq::empty()
    }
}

fn append_varstore_optext(out: &mut String, d: &[u8], s: usize, e: usize)
    requires
        s <= e,
        e <= d.len(),
    ensures
        final(out)@ == old(out)@ + varstore_optext(d@, s as int, e as int),
{
    if e - s >= 20 {
        match crate::bytes::find_nul(d, s + 20, e) {
            Some(nl) => {
                out.append("VarStoreId: 0x");
                append_hex(out, crate::bytes::read_le16(d, s + 16) as u64);
                out.append(", Guid: ");
                append_guid(out, d, s);
                out.append(", Name: \"");
                crate::bytes::append_latin1(out, d, s + 20, nl);
                out.append("\", Size: 0x");
                append_hex(out, crate::bytes::read_le16(d, s + 18) as u64);
            },
            None => {},
        }
    }
    proof {
        assert(final(out)@ =~= old(out)@ + varstore_optext(d@, s as int, e as int));
    }
}

/// The operand text of a `VarStoreNameValue` payload.
pub open spec fn varstore_nv_optext(d: Seq<u8>, s: int, e: int) -> Seq<char>
    recommends
        0 <= s <= e <= d.len(),
{
    if e - s >= 18 {
        "VarStoreId: 0x"@ + hex_of(le16(d, s) as nat) + ", Guid: "@ + guid_text(d, s + 2)
    } else {
        Seq::empty()
    }
}

fn append_varstore_nv_optext(out: &mut String, d: &[u8], s: usize, e: usize)
    requires
        s <= e,
        e <= d.len(),
    ensures
        final(out)@ == old(out)@ + varstore_nv_optext(d@, s as int, e as int),
{
    if e - s >= 18 {
        out.append("VarStoreId: 0x");
        append_hex(out, crate::bytes::read_le16(d, s) as u64);
        out.append(", Guid: ");
        append_guid(out, d, s + 2);
    }
    proof {
        assert(final(out)@ =~= old(out)@ + varstore_nv_optext(d@, s as int, e as int));
    }
}

/// The operand text of a `VarStoreEfi` payload.
pub open spec fn varstore_efi_optext(d: Seq<u8>, s: int, e: int) -> Seq<char>
    recommends
        0 <= s <= e <= d.len(),
{
    if e - s >= 22 {
        "VarStoreId: 0x"@ + hex_of(le16(d, s) as nat) + ", Guid: "@ + guid_text(d, s + 2)
            + ", Attributes: 0x"@ + hex_of(le32(d, s + 18) as nat)
    } else {
        Seq::empty()
    }
}

fn append_varstore_efi_optext(out: &mut String, d: &[u8], s: usize, e: usize)
    requires
        s <= e,
        e <= d.len(),
    ensures
        final(out)@ == old(out)@ + varstore_efi_optext(d@, s as int, e as int),
{
    if e - s >= 22 {
        out.append("VarStoreId: 0x");
        append_hex(out, crate::bytes::read_le16(d, s) as u64);
        out.append(", Guid: ");
        append_guid(out, d, s + 2);
        out.append(", Attributes: 0x");
        append_hex(out, crate::bytes::read_le32(d, s + 18) as u64);
    }
    proof {
        assert(final(out)@ =~= old(out)@ + varstore_efi_optext(d@, s as int, e as int));
    }
}

/// The operand text of an opcode outside the defined range: its raw bytes.
pub open spec fn raw_optext(d: Seq<u8>, s: int, e: int) -> Seq<char>
    recommends
        0 <= s <= e <= d.len(),
{
    "RawData: "@ + raw_list(d, s, e)
}

fn append_raw_optext(out: &mut String, d: &[u8], s: usize, e: usize)
    requires
        s <= e,
        e <= d.len(),
    ensures
        final(out)@ == old(out)@ + raw_optext(d@, s as int, e as int),
{
    out.append("RawData: ");
    append_raw_list(out, d, s, e);
    proof {
        assert(final(out)@ =~= old(out)@ + raw_optext(d@, s as int, e as int));
    }
}

/// The operand text of one UEFI opcode's payload `[s, e)`; empty where the
/// payload does not parse or the opcode is not one of those rendered.
#[verifier::opaque]
pub open spec fn payload_text(d: Seq<u8>, s: int, e: int, op: IfrOpcode, m: Map<u16, String>)
    -> Seq<char>
    recommends
        0 <= s <= e <= d.len(),
{
    match op {
        IfrOpcode::Form => form_optext(d, s, e, m),
        IfrOpcode::Subtitle => subtitle_optext(d, s, e, m),
        IfrOpcode::Text => textline_optext(d, s, e, m),
        IfrOpcode::Image => image_optext(d, s, e, m),
        IfrOpcode::OneOf => numeric_optext(d, s, e, m),
        IfrOpcode::Numeric => numeric_optext(d, s, e, m),
        IfrOpcode::CheckBox => checkbox_optext(d, s, e, m),
        IfrOpcode::OneOfOption => oneofopt_optext(d, s, e, m),
        IfrOpcode::FormSet => formset_optext(d, s, e, m),
        IfrOpcode::VarStore => varstore_optext(d, s, e),
        IfrOpcode::VarStoreNameValue => varstore_nv_optext(d, s, e),
        IfrOpcode::VarStoreEfi => varstore_efi_optext(d, s, e),
        IfrOpcode::VarStoreDevice => devpath_optext(d, s, e, m),
        IfrOpcode::NoSubmitIf => errif_optext(d, s, e, m),
        IfrOpcode::InconsistentIf => errif_optext(d, s, e, m),
        IfrOpcode::WarningIf => warnif_optext(d, s, e, m),
        IfrOpcode::Unknown(_) => raw_optext(d, s, e),
        _ => Seq::empty(),
    }
}

/// Appends the operand text of one opcode's payload.
fn append_payload(
    out: &mut String,
    d: &[u8],
    s: usize,
    e: usize,
    op: IfrOpcode,
    m: &HashMap<u16, String>,
)
    requires
        s <= e,
        e <= d.len(),
    ensures
        final(out)@ == old(out)@ + payload_text(d@, s as int, e as int, op, m@),
{
    proof {
        reveal(payload_text);
    }
    match op {
        IfrOpcode::Form => append_form_optext(out, d, s, e, m),
        IfrOpcode::Subtitle => append_subtitle_optext(out, d, s, e, m),
        IfrOpcode::Text => append_textline_optext(out, d, s, e, m),
        IfrOpcode::Image => append_image_optext(out, d, s, e, m),
        IfrOpcode::OneOf => append_numeric_optext(out, d, s, e, m),
        IfrOpcode::Numeric => append_numeric_optext(out, d, s, e, m),
        IfrOpcode::CheckBox => append_checkbox_optext(out, d, s, e, m),
        IfrOpcode::OneOfOption => append_oneofopt_optext(out, d, s, e, m),
        IfrOpcode::FormSet => append_formset_optext(out, d, s, e, m),
        IfrOpcode::VarStore => append_varstore_optext(out, d, s, e),
        IfrOpcode::VarStoreNameValue => append_varstore_nv_optext(out, d, s, e),
        IfrOpcode::VarStoreEfi => append_varstore_efi_optext(out, d, s, e),
        IfrOpcode::VarStoreDevice => append_devpath_optext(out, d, s, e, m),
        IfrOpcode::NoSubmitIf => append_errif_optext(out, d, s, e, m),
        IfrOpcode::InconsistentIf => append_errif_optext(out, d, s, e, m),
        IfrOpcode::WarningIf => append_warnif_optext(out, d, s, e, m),
        IfrOpcode::Unknown(_) => append_raw_optext(out, d, s, e),
        _ => {
            proof {
                assert(final(out)@ =~= old(out)@ + payload_text(d@, s as int, e as int, op, m@));
            }
        },
    }
}

/// The line prefix in verbose mode: the opcode's absolute byte offset.
pub open spec fn offset_prefix(pos: int, verbose: bool) -> Seq<char> {
    if verbose {
        "0x"@ + hex_of(pos as nat) + ": "@
    } else {
        Seq::empty()
    }
}

/// The listing of the opcode stream `[pos, end)`: one line per frame,
/// stopping at the first malformed frame. `End` closes the scope before
/// its own line is laid out; an opcode's scope-start flag opens one after.
pub open spec fn uefi_ops_text(
    d: Seq<u8>,
    pos: int,
    end: int,
    depth: nat,
    m: Map<u16, String>,
    verbose: bool,
) -> Seq<char>
    decreases end - pos,
{
    match op_at(d, pos, end) {
        Some((op, sc, ln)) => {
            let ev = ScopeEv { opens: sc, closes: op == IfrOpcode::End };
            offset_prefix(pos, verbose) + spaces(scope_emit(depth, ev)) + op_name(op) + " "@ + (
            if ln > 2 {
                payload_text(d, pos + 2, pos + ln, op, m)
            } else {
                Seq::empty()
            }) + "\n"@ + uefi_ops_text(d, pos + ln, end, scope_step(depth, ev), m, verbose)
        },
        None => Seq::empty(),
    }
}

/// The scope event of each opcode of the stream `[pos, end)`: a UEFI
/// opcode opens a scope when its scope-start flag is set, and `End`
/// closes one.
pub open spec fn uefi_scope_events(d: Seq<u8>, pos: int, end: int) -> Seq<ScopeEv>
    decreases end - pos,
{
    match op_at(d, pos, end) {
        Some((op, sc, ln)) => seq![ScopeEv { opens: sc, closes: op == IfrOpcode::End }]
            + uefi_scope_events(d, pos + ln, end),
        None => Seq::empty(),
    }
}

/// The indentation depth of each line of `uefi_ops_text`, in order.
pub open spec fn uefi_line_depths(d: Seq<u8>, pos: int, end: int, depth: nat) -> Seq<nat>
    decreases end - pos,
{
    match op_at(d, pos, end) {
        Some((op, sc, ln)) => {
            let ev = ScopeEv { opens: sc, closes: op == IfrOpcode::End };
            seq![scope_emit(depth, ev)] + uefi_line_depths(
                d,
                pos + ln,
                end,
                scope_step(depth, ev),
            )
        },
        None => Seq::empty(),
    }
}

/// The line depths are the layout depths of the scope-event fold.
pub proof fn lemma_uefi_line_depths(d: Seq<u8>, pos: int, end: int, d0: nat)
    ensures
        uefi_line_depths(d, pos, end, d0) == emit_depths(uefi_scope_events(d, pos, end), d0),
    decreases end - pos,
{
    match op_at(d, pos, end) {
        Some((op, sc, ln)) => {
            let ev = ScopeEv { opens: sc, closes: op == IfrOpcode::End };
            let evs = uefi_scope_events(d, pos, end);
            let evs2 = uefi_scope_events(d, pos + ln, end);
            lemma_uefi_line_depths(d, pos + ln, end, scope_step(d0, ev));
            assert forall|k: int| 0 <= k < evs.len() implies emit_depths(evs, d0)[k] == (
            seq![scope_emit(d0, ev)] + emit_depths(evs2, scope_step(d0, ev)))[k] by {
                if k >= 1 {
                    lemma_depth_shift(evs2, ev, d0, k);
                    assert(evs[k] == evs2[k - 1]);
                }
            };
            assert(emit_depths(evs, d0) =~= seq![scope_emit(d0, ev)] + emit_depths(
                evs2,
                scope_step(d0, ev),
            ));
            assert(uefi_line_depths(d, pos, end, d0) =~= emit_depths(evs, d0));
        },
        None => {
            assert(uefi_line_depths(d, pos, end, d0) =~= emit_depths(
                uefi_scope_events(d, pos, end),
                d0,
            ));
        },
    }
}

/// Scope balance of a rendered UEFI opcode stream: where opcode `i` opens
/// a scope and `j` is the first later opcode at which the depth falls
/// back below the level inside that scope, opcode `j` is a closing one
/// and its line is indented exactly as deep as the opener's.
pub proof fn lemma_uefi_scope_balance(d: Seq<u8>, pos: int, end: int, i: int, j: int)
    requires
        ({
            let evs = uefi_scope_events(d, pos, end);
            &&& 0 <= i < j < evs.len()
            &&& evs[i].opens
            &&& depth_after(evs, 0, j + 1) < depth_after(evs, 0, i + 1)
            &&& forall|k: int|
                i < k < j ==> #[trigger] depth_after(evs, 0, k + 1) >= depth_after(evs, 0, i + 1)
        }),
    ensures
        uefi_scope_events(d, pos, end)[j].closes,
        uefi_line_depths(d, pos, end, 0)[j] == uefi_line_depths(d, pos, end, 0)[i],
{
    let evs = uefi_scope_events(d, pos, end);
    lemma_scope_balance(evs, 0, i, j);
    lemma_uefi_line_depths(d, pos, end, 0);
}

/// Appends the listing of the opcode stream `[s, e)`, starting at scope
/// depth zero.
#[verifier::loop_isolation(false)]
#[verifier::rlimit(60)]
pub fn append_ops_text(
    out: &mut String,
    d: &[u8],
    s: usize,
    e: usize,
    m: &HashMap<u16, String>,
    verbose: bool,
)
    requires
        s <= e,
        e <= d.len(),
    ensures
        final(out)@ == old(out)@ + uefi_ops_text(d@, s as int, e as int, 0, m@, verbose),
{
    let mut pos: usize = s;
    let mut depth: usize = 0;
    proof {
        assert(out@ + uefi_ops_text(d@, s as int, e as int, 0, m@, verbose) =~= old(out)@
            + uefi_ops_text(d@, s as int, e as int, 0, m@, verbose));
    }
    while pos < e
        invariant
            s <= pos,
            2 * depth <= pos - s,
            out@ + uefi_ops_text(d@, pos as int, e as int, depth as nat, m@, verbose) == old(
                out,
            )@ + uefi_ops_text(d@, s as int, e as int, 0, m@, verbose),
        decreases e - pos,
    {
        let ghost prev = out@;
        let ghost pp = pos as int;
        let ghost pd = depth as nat;
        match read_op(d, pos, e) {
            Some((op, sc, ln)) => {
                let ghost ev = ScopeEv { opens: sc, closes: op == IfrOpcode::End };
                let ed = if op == IfrOpcode::End && depth > 0 {
                    depth - 1
                } else {
                    depth
                };
                proof {
                    assert(ed as nat == scope_emit(pd, ev));
                }
                let mut t = String::new();
                if verbose {
                    t.append("0x");
                    proof {
                        assert(t@ =~= "0x"@);
                    }
                    append_hex(&mut t, pos as u64);
                    t.append(": ");
                }
                proof {
                    assert(t@ =~= offset_prefix(pp, verbose));
                }
                append_spaces(&mut t, ed);
                t.append(op_name_str(op));
                t.append(" ");
                if ln > 2 {
                    append_payload(&mut t, d, pos + 2, pos + ln, op, m);
                } else {
                    proof {
                        assert(t@ =~= t@ + Seq::<char>::empty());
                    }
                }
                t.append("\n");
                out.append(t.as_str());
                depth = if sc {
                    ed + 1
                } else {
                    ed
                };
                pos = pos + ln;
                proof {
                    assert(depth as nat == scope_step(pd, ev));
                    assert(out@ + uefi_ops_text(
                        d@,
                        pos as int,
                        e as int,
                        depth as nat,
                        m@,
                        verbose,
                    ) =~= prev + uefi_ops_text(d@, pp, e as int, pd, m@, verbose));
                }
            },
            None => {
                proof {
                    assert(uefi_ops_text(d@, pos as int, e as int, depth as nat, m@, verbose)
                        =~= Seq::<char>::empty());
                    assert(final(out)@ =~= old(out)@ + uefi_ops_text(
                        d@,
                        s as int,
                        e as int,
                        0,
                        m@,
                        verbose,
                    ));
                }
                return ;
            },
        }
    }
    proof {
        assert(uefi_ops_text(d@, pos as int, e as int, depth as nat, m@, verbose) =~= Seq::<
            char,
        >::empty());
        assert(final(out)@ =~= old(out)@ + uefi_ops_text(d@, s as int, e as int, 0, m@, verbose));
    }
}

/// The complete listing `extract` produces for a form package at `off`:
/// the preamble line, then — when a form-type header with a length that
/// fits the buffer stands at `off` — one line per opcode of its stream.
pub open spec fn uefi_extract_text(d: Seq<u8>, off: int, m: Map<u16, String>, verbose: bool)
    -> Seq<char>
{
    let pre = "Program version: 0.1.0, Extraction mode: UEFI\n"@;
    if 0 <= off && off + 4 <= d.len() {
        let l = le24(d, off) as int;
        if d[off + 3] == crate::uefi::UEFI_FORM_PKG && 4 <= l && off + l <= d.len() {
            pre + uefi_ops_text(d, off + 4, off + l, 0, m, verbose)
        } else {
            pre
        }
    } else {
        pre
    }
}

/// Renders the form package recorded at `form_pkg.offset` against the
/// given string table.
pub fn extract(data: &[u8], form_pkg: &FormPackage, string_pkg: &StringPackage, verbose: bool)
    -> (r: String)
    ensures
        r@ == uefi_extract_text(data@, form_pkg.offset as int, string_pkg.string_id_map@, verbose),
{
    let mut out = String::new();
    out.append("Program version: 0.1.0, Extraction mode: UEFI\n");
    let off = form_pkg.offset;
    if off <= data.len() && data.len() - off >= 4 {
        let l24 = crate::bytes::read_le24(data, off);
        if data[off + 3] == crate::uefi::UEFI_FORM_PKG && 4 <= l24 && l24 as usize <= data.len()
            - off {
            let l = l24 as usize;
            append_ops_text(&mut out, data, off + 4, off + l, &string_pkg.string_id_map, verbose);
        }
    }
    proof {
        assert(out@ =~= uefi_extract_text(
            data@,
            form_pkg.offset as int,
            string_pkg.string_id_map@,
            verbose,
        ));
    }
    out
}


/// Extraction is pure: two renderings of the same package against the
/// same table, with the same verbosity, are character for character the
/// same text.
pub proof fn lemma_uefi_extract_pure(
    d: Seq<u8>,
    off: int,
    m: Map<u16, String>,
    verbose: bool,
    r1: Seq<char>,
    r2: Seq<char>,
)
    requires
        r1 == uefi_extract_text(d, off, m, verbose),
        r2 == uefi_extract_text(d, off, m, verbose),
    ensures
        r1 == r2,
{
}

} // verus!
