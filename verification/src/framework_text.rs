//! Rendering of a Framework form pack as text: one line per opcode,
//! indented by scope depth, with operands written as `key: value` pairs
//! and string identifiers resolved against a table.

use vstd::prelude::*;
use vstd::string::StringExecFns;
use std::collections::HashMap;
use crate::bytes::{le16, le32, first_nul, latin1, guid_text, append_guid};
use crate::textbuf::{
    hex_of, spaces, resolve, raw_list, append_hex, append_spaces, append_resolved,
    append_raw_list,
};
use crate::{FormPackage, StringPackage};
use crate::framework_ops::{FrOpcode, fr_op_name, fr_op_name_str};
use crate::framework_parse::{
    parse_fr_form, parse_fr_subtitle, parse_fr_text, parse_fr_one_of, parse_fr_check_box,
    parse_fr_numeric, parse_fr_password, parse_fr_one_of_option, parse_fr_flags1,
    parse_fr_hidden, parse_fr_form_set, parse_fr_ref, parse_fr_inconsistent,
    parse_fr_eq_id_val, parse_fr_eq_id_id, parse_fr_eq_id_list_hdr, parse_fr_string,
    parse_fr_label, parse_fr_banner, parse_fr_inventory, parse_fr_eq_var_val,
    parse_fr_ordered_list, parse_fr_vs_select, parse_fr_vs_select_pair, u16_list,
    read_fr_form, read_fr_subtitle, read_fr_text, read_fr_one_of, read_fr_check_box,
    read_fr_numeric, read_fr_password, read_fr_one_of_option, read_fr_flags1, read_fr_hidden,
    read_fr_form_set, read_fr_ref, read_fr_inconsistent, read_fr_eq_id_val, read_fr_eq_id_id,
    read_fr_eq_id_list, read_fr_string, read_fr_label, read_fr_banner, read_fr_inventory,
    read_fr_eq_var_val, read_fr_ordered_list, read_fr_vs_select, read_fr_vs_select_pair,
    fr_op_at, read_fr_op,
};
use crate::uefi_text::offset_prefix;
use crate::scope::{ScopeEv, scope_emit, scope_step, depth_after, emit_depths, lemma_depth_shift, lemma_scope_balance};

verus! {

/// The operand text of a Framework `Form` payload.
pub open spec fn fr_form_optext(d: Seq<u8>, s: int, e: int, m: Map<u16, String>) -> Seq<char>
    recommends
        0 <= s <= e <= d.len(),
{
    match parse_fr_form(d, s, e) {
        Some(x) => "Title: \""@ + resolve(m, x.title) + "\", FormId: 0x"@ + hex_of(x.form_id as nat),
        None => Seq::empty(),
    }
}

fn append_fr_form_optext(out: &mut String, d: &[u8], s: usize, e: usize, m: &HashMap<u16, String>)
    requires
        s <= e,
        e <= d.len(),
    ensures
        final(out)@ == old(out)@ + fr_form_optext(d@, s as int, e as int, m@),
{
    match read_fr_form(d, s, e) {
        Some(x) => {
                out.append("Title: \"");
                append_resolved(out, m, x.title);
                out.append("\", FormId: 0x");
                append_hex(out, x.form_id as u64);
        },
        None => {},
    }
    proof {
        assert(final(out)@ =~= old(out)@ + fr_form_optext(d@, s as int, e as int, m@));
    }
}

/// The operand text of a Framework `Subtitle` payload.
pub open spec fn fr_subtitle_optext(d: Seq<u8>, s: int, e: int, m: Map<u16, String>) -> Seq<char>
    recommends
        0 <= s <= e <= d.len(),
{
    match parse_fr_subtitle(d, s, e) {
        Some(x) => "Subtitle: \""@ + resolve(m, x.sub) + "\""@,
        None => Seq::empty(),
    }
}

fn append_fr_subtitle_optext(out: &mut String, d: &[u8], s: usize, e: usize, m: &HashMap<u16, String>)
    requires
        s <= e,
        e <= d.len(),
    ensures
        final(out)@ == old(out)@ + fr_subtitle_optext(d@, s as int, e as int, m@),
{
    match read_fr_subtitle(d, s, e) {
        Some(x) => {
                out.append("Subtitle: \"");
                append_resolved(out, m, x.sub);
                out.append("\"");
        },
        None => {},
    }
    proof {
        assert(final(out)@ =~= old(out)@ + fr_subtitle_optext(d@, s as int, e as int, m@));
    }
}

/// The operand text of a Framework `Text` payload.
pub open spec fn fr_text_optext(d: Seq<u8>, s: int, e: int, m: Map<u16, String>) -> Seq<char>
    recommends
        0 <= s <= e <= d.len(),
{
    match parse_fr_text(d, s, e) {
        Some(x) => "Text: \""@ + resolve(m, x.text) + "\", TextTwo: \""@ + resolve(m, x.text_two) + "\", Help: \""@ + resolve(m, x.help) + "\", Flags: 0x"@ + hex_of(x.flags as nat) + ", Key: 0x"@ + hex_of(x.key as nat),
        None => Seq::empty(),
    }
}

fn append_fr_text_optext(out: &mut String, d: &[u8], s: usize, e: usize, m: &HashMap<u16, String>)
    requires
        s <= e,
        e <= d.len(),
    ensures
        final(out)@ == old(out)@ + fr_text_optext(d@, s as int, e as int, m@),
{
    match read_fr_text(d, s, e) {
        Some(x) => {
                out.append("Text: \"");
                append_resolved(out, m, x.text);
                out.append("\", TextTwo: \"");
                append_resolved(out, m, x.text_two);
                out.append("\", Help: \"");
                append_resolved(out, m, x.help);
                out.append("\", Flags: 0x");
                append_hex(out, x.flags as u64);
                out.append(", Key: 0x");
                append_hex(out, x.key as u64);
        },
        None => {},
    }
    proof {
        assert(final(out)@ =~= old(out)@ + fr_text_optext(d@, s as int, e as int, m@));
    }
}

/// The operand text of a Framework `OneOf` payload.
pub open spec fn fr_one_of_optext(d: Seq<u8>, s: int, e: int, m: Map<u16, String>) -> Seq<char>
    recommends
        0 <= s <= e <= d.len(),
{
    match parse_fr_one_of(d, s, e) {
        Some(x) => "Prompt: \""@ + resolve(m, x.prompt) + "\", Help: \""@ + resolve(m, x.help) + "\", QuestionId: 0x"@ + hex_of(x.qid as nat) + ", Width: 0x"@ + hex_of(x.width as nat),
        None => Seq::empty(),
    }
}

fn append_fr_one_of_optext(out: &mut String, d: &[u8], s: usize, e: usize, m: &HashMap<u16, String>)
    requires
        s <= e,
        e <= d.len(),
    ensures
        final(out)@ == old(out)@ + fr_one_of_optext(d@, s as int, e as int, m@),
{
    match read_fr_one_of(d, s, e) {
        Some(x) => {
                out.append("Prompt: \"");
                append_resolved(out, m, x.prompt);
                out.append("\", Help: \"");
                append_resolved(out, m, x.help);
                out.append("\", QuestionId: 0x");
                append_hex(out, x.qid as u64);
                out.append(", Width: 0x");
                append_hex(out, x.width as u64);
        },
        None => {},
    }
    proof {
        assert(final(out)@ =~= old(out)@ + fr_one_of_optext(d@, s as int, e as int, m@));
    }
}

/// The operand text of a Framework `CheckBox` payload.
pub open spec fn fr_check_box_optext(d: Seq<u8>, s: int, e: int, m: Map<u16, String>) -> Seq<char>
    recommends
        0 <= s <= e <= d.len(),
{
    match parse_fr_check_box(d, s, e) {
        Some(x) => "Prompt: \""@ + resolve(m, x.prompt) + "\", Help: \""@ + resolve(m, x.help) + "\", QuestionId: 0x"@ + hex_of(x.qid as nat) + ", Width: 0x"@ + hex_of(x.width as nat) + ", Flags: 0x"@ + hex_of(x.flags as nat) + ", Key: 0x"@ + hex_of(x.key as nat),
        None => Seq::empty(),
    }
}

fn append_fr_check_box_optext(out: &mut String, d: &[u8], s: usize, e: usize, m: &HashMap<u16, String>)
    requires
        s <= e,
        e <= d.len(),
    ensures
        final(out)@ == old(out)@ + fr_check_box_optext(d@, s as int, e as int, m@),
{
    match read_fr_check_box(d, s, e) {
        Some(x) => {
                out.append("Prompt: \"");
                append_resolved(out, m, x.prompt);
                out.append("\", Help: \"");
                append_resolved(out, m, x.help);
                out.append("\", QuestionId: 0x");
                append_hex(out, x.qid as u64);
                out.append(", Width: 0x");
                append_hex(out, x.width as u64);
                out.append(", Flags: 0x");
                append_hex(out, x.flags as u64);
                out.append(", Key: 0x");
                append_hex(out, x.key as u64);
        },
        None => {},
    }
    proof {
        assert(final(out)@ =~= old(out)@ + fr_check_box_optext(d@, s as int, e as int, m@));
    }
}

/// The operand text of a Framework `Numeric`, `Date` or `Time` payload.
pub open spec fn fr_numeric_optext(d: Seq<u8>, s: int, e: int, m: Map<u16, String>) -> Seq<char>
    recommends
        0 <= s <= e <= d.len(),
{
    match parse_fr_numeric(d, s, e) {
        Some(x) => "Prompt: \""@ + resolve(m, x.prompt) + "\", Help: \""@ + resolve(m, x.help) + "\", QuestionId: 0x"@ + hex_of(x.qid as nat) + ", Width: 0x"@ + hex_of(x.width as nat) + ", Flags: 0x"@ + hex_of(x.flags as nat) + ", Key: 0x"@ + hex_of(x.key as nat) + ", Min: 0x"@ + hex_of(x.min as nat) + ", Max: 0x"@ + hex_of(x.max as nat) + ", Step: 0x"@ + hex_of(x.step as nat) + ", Default: 0x"@ + hex_of(x.default as nat),
        None => Seq::empty(),
    }
}

fn append_fr_numeric_optext(out: &mut String, d: &[u8], s: usize, e: usize, m: &HashMap<u16, String>)
    requires
        s <= e,
        e <= d.len(),
    ensures
        final(out)@ == old(out)@ + fr_numeric_optext(d@, s as int, e as int, m@),
{
    match read_fr_numeric(d, s, e) {
        Some(x) => {
            let mut t = String::new();
            t.append("Prompt: \"");
            proof {
                assert(t@ =~= "Prompt: \""@);
            }
            append_resolved(&mut t, m, x.prompt);
            t.append("\", Help: \"");
            append_resolved(&mut t, m, x.help);
            t.append("\", QuestionId: 0x");
            append_hex(&mut t, x.qid as u64);
            t.append(", Width: 0x");
            append_hex(&mut t, x.width as u64);
            t.append(", Flags: 0x");
            append_hex(&mut t, x.flags as u64);
            t.append(", Key: 0x");
            append_hex(&mut t, x.key as u64);
            t.append(", Min: 0x");
            append_hex(&mut t, x.min as u64);
            t.append(", Max: 0x");
            append_hex(&mut t, x.max as u64);
            t.append(", Step: 0x");
            append_hex(&mut t, x.step as u64);
            t.append(", Default: 0x");
            append_hex(&mut t, x.default as u64);
            out.append(t.as_str());
        },
        None => {},
    }
    proof {
        assert(final(out)@ =~= old(out)@ + fr_numeric_optext(d@, s as int, e as int, m@));
    }
}

/// The operand text of a Framework `Password` payload.
pub open spec fn fr_password_optext(d: Seq<u8>, s: int, e: int, m: Map<u16, String>) -> Seq<char>
    recommends
        0 <= s <= e <= d.len(),
{
    match parse_fr_password(d, s, e) {
        Some(x) => "Prompt: \""@ + resolve(m, x.prompt) + "\", Help: \""@ + resolve(m, x.help) + "\", QuestionId: 0x"@ + hex_of(x.qid as nat) + ", Width: 0x"@ + hex_of(x.width as nat) + ", Flags: 0x"@ + hex_of(x.flags as nat) + ", Key: 0x"@ + hex_of(x.key as nat) + ", MinSize: 0x"@ + hex_of(x.min_size as nat) + ", MaxSize: 0x"@ + hex_of(x.max_size as nat) + ", Encoding: 0x"@ + hex_of(x.encoding as nat),
        None => Seq::empty(),
    }
}

fn append_fr_password_optext(out: &mut String, d: &[u8], s: usize, e: usize, m: &HashMap<u16, String>)
    requires
        s <= e,
        e <= d.len(),
    ensures
        final(out)@ == old(out)@ + fr_password_optext(d@, s as int, e as int, m@),
{
    match read_fr_password(d, s, e) {
        Some(x) => {
            let mut t = String::new();
            t.append("Prompt: \"");
            proof {
                assert(t@ =~= "Prompt: \""@);
            }
            append_resolved(&mut t, m, x.prompt);
            t.append("\", Help: \"");
            append_resolved(&mut t, m, x.help);
            t.append("\", QuestionId: 0x");
            append_hex(&mut t, x.qid as u64);
            t.append(", Width: 0x");
            append_hex(&mut t, x.width as u64);
            t.append(", Flags: 0x");
            append_hex(&mut t, x.flags as u64);
            t.append(", Key: 0x");
            append_hex(&mut t, x.key as u64);
            t.append(", MinSize: 0x");
            append_hex(&mut t, x.min_size as u64);
            t.append(", MaxSize: 0x");
            append_hex(&mut t, x.max_size as u64);
            t.append(", Encoding: 0x");
            append_hex(&mut t, x.encoding as u64);
            out.append(t.as_str());
        },
        None => {},
    }
    proof {
        assert(final(out)@ =~= old(out)@ + fr_password_optext(d@, s as int, e as int, m@));
    }
}

/// The operand text of a Framework `OneOfOption` payload.
pub open spec fn fr_one_of_option_optext(d: Seq<u8>, s: int, e: int, m: Map<u16, String>) -> Seq<char>
    recommends
        0 <= s <= e <= d.len(),
{
    match parse_fr_one_of_option(d, s, e) {
        Some(x) => "Option: \""@ + resolve(m, x.option) + "\", Value: 0x"@ + hex_of(x.value as nat) + ", Flags: 0x"@ + hex_of(x.flags as nat) + ", Key: 0x"@ + hex_of(x.key as nat),
        None => Seq::empty(),
    }
}

fn append_fr_one_of_option_optext(out: &mut String, d: &[u8], s: usize, e: usize, m: &HashMap<u16, String>)
    requires
        s <= e,
        e <= d.len(),
    ensures
        final(out)@ == old(out)@ + fr_one_of_option_optext(d@, s as int, e as int, m@),
{
    match read_fr_one_of_option(d, s, e) {
        Some(x) => {
                out.append("Option: \"");
                append_resolved(out, m, x.option);
                out.append("\", Value: 0x");
                append_hex(out, x.value as u64);
                out.append(", Flags: 0x");
                append_hex(out, x.flags as u64);
                out.append(", Key: 0x");
                append_hex(out, x.key as u64);
        },
        None => {},
    }
    proof {
        assert(final(out)@ =~= old(out)@ + fr_one_of_option_optext(d@, s as int, e as int, m@));
    }
}

/// The operand text of a Framework `SuppressIf` or `GrayOutIf` payload.
pub open spec fn fr_flags1_optext(d: Seq<u8>, s: int, e: int, m: Map<u16, String>) -> Seq<char>
    recommends
        0 <= s <= e <= d.len(),
{
    match parse_fr_flags1(d, s, e) {
        Some(x) => "Flags: 0x"@ + hex_of(x.flags as nat),
        None => Seq::empty(),
    }
}

fn append_fr_flags1_optext(out: &mut String, d: &[u8], s: usize, e: usize, m: &HashMap<u16, String>)
    requires
        s <= e,
        e <= d.len(),
    ensures
        final(out)@ == old(out)@ + fr_flags1_optext(d@, s as int, e as int, m@),
{
    match read_fr_flags1(d, s, e) {
        Some(x) => {
                out.append("Flags: 0x");
                append_hex(out, x.flags as u64);
        },
        None => {},
    }
    proof {
        assert(final(out)@ =~= old(out)@ + fr_flags1_optext(d@, s as int, e as int, m@));
    }
}

/// The operand text of a Framework `Hidden` payload.
pub open spec fn fr_hidden_optext(d: Seq<u8>, s: int, e: int, m: Map<u16, String>) -> Seq<char>
    recommends
        0 <= s <= e <= d.len(),
{
    match parse_fr_hidden(d, s, e) {
        Some(x) => "Value: 0x"@ + hex_of(x.value as nat) + ", Key: 0x"@ + hex_of(x.key as nat),
        None => Seq::empty(),
    }
}

fn append_fr_hidden_optext(out: &mut String, d: &[u8], s: usize, e: usize, m: &HashMap<u16, String>)
    requires
        s <= e,
        e <= d.len(),
    ensures
        final(out)@ == old(out)@ + fr_hidden_optext(d@, s as int, e as int, m@),
{
    match read_fr_hidden(d, s, e) {
        Some(x) => {
                out.append("Value: 0x");
                append_hex(out, x.value as u64);
                out.append(", Key: 0x");
                append_hex(out, x.key as u64);
        },
        None => {},
    }
    proof {
        assert(final(out)@ =~= old(out)@ + fr_hidden_optext(d@, s as int, e as int, m@));
    }
}

/// The operand text of a Framework `Ref`, `SaveDefaults` or `RestoreDefaults` payload.
pub open spec fn fr_ref_optext(d: Seq<u8>, s: int, e: int, m: Map<u16, String>) -> Seq<char>
    recommends
        0 <= s <= e <= d.len(),
{
    match parse_fr_ref(d, s, e) {
        Some(x) => "Prompt: \""@ + resolve(m, x.prompt) + "\", Help: \""@ + resolve(m, x.help) + "\", FormId: 0x"@ + hex_of(x.form_id as nat) + ", Flags: 0x"@ + hex_of(x.flags as nat) + ", Key: 0x"@ + hex_of(x.key as nat),
        None => Seq::empty(),
    }
}

fn append_fr_ref_optext(out: &mut String, d: &[u8], s: usize, e: usize, m: &HashMap<u16, String>)
    requires
        s <= e,
        e <= d.len(),
    ensures
        final(out)@ == old(out)@ + fr_ref_optext(d@, s as int, e as int, m@),
{
    match read_fr_ref(d, s, e) {
        Some(x) => {
                out.append("Prompt: \"");
                append_resolved(out, m, x.prompt);
                out.append("\", Help: \"");
                append_resolved(out, m, x.help);
                out.append("\", FormId: 0x");
                append_hex(out, x.form_id as u64);
                out.append(", Flags: 0x");
                append_hex(out, x.flags as u64);
                out.append(", Key: 0x");
                append_hex(out, x.key as u64);
        },
        None => {},
    }
    proof {
        assert(final(out)@ =~= old(out)@ + fr_ref_optext(d@, s as int, e as int, m@));
    }
}

/// The operand text of a Framework `InconsistentIf` payload.
pub open spec fn fr_inconsistent_optext(d: Seq<u8>, s: int, e: int, m: Map<u16, String>) -> Seq<char>
    recommends
        0 <= s <= e <= d.len(),
{
    match parse_fr_inconsistent(d, s, e) {
        Some(x) => "Popup: \""@ + resolve(m, x.popup) + "\", Flags: 0x"@ + hex_of(x.flags as nat),
        None => Seq::empty(),
    }
}

fn append_fr_inconsistent_optext(out: &mut String, d: &[u8], s: usize, e: usize, m: &HashMap<u16, String>)
    requires
        s <= e,
        e <= d.len(),
    ensures
        final(out)@ == old(out)@ + fr_inconsistent_optext(d@, s as int, e as int, m@),
{
    match read_fr_inconsistent(d, s, e) {
        Some(x) => {
                out.append("Popup: \"");
                append_resolved(out, m, x.popup);
                out.append("\", Flags: 0x");
                append_hex(out, x.flags as u64);
        },
        None => {},
    }
    proof {
        assert(final(out)@ =~= old(out)@ + fr_inconsistent_optext(d@, s as int, e as int, m@));
    }
}

/// The operand text of a Framework `EqIdVal` payload.
pub open spec fn fr_eq_id_val_optext(d: Seq<u8>, s: int, e: int, m: Map<u16, String>) -> Seq<char>
    recommends
        0 <= s <= e <= d.len(),
{
    match parse_fr_eq_id_val(d, s, e) {
        Some(x) => "QuestionId: 0x"@ + hex_of(x.qid as nat) + ", Value: 0x"@ + hex_of(x.value as nat),
        None => Seq::empty(),
    }
}

fn append_fr_eq_id_val_optext(out: &mut String, d: &[u8], s: usize, e: usize, m: &HashMap<u16, String>)
    requires
        s <= e,
        e <= d.len(),
    ensures
        final(out)@ == old(out)@ + fr_eq_id_val_optext(d@, s as int, e as int, m@),
{
    match read_fr_eq_id_val(d, s, e) {
        Some(x) => {
                out.append("QuestionId: 0x");
                append_hex(out, x.qid as u64);
                out.append(", Value: 0x");
                append_hex(out, x.value as u64);
        },
        None => {},
    }
    proof {
        assert(final(out)@ =~= old(out)@ + fr_eq_id_val_optext(d@, s as int, e as int, m@));
    }
}

/// The operand text of a Framework `EqIdId` payload.
pub open spec fn fr_eq_id_id_optext(d: Seq<u8>, s: int, e: int, m: Map<u16, String>) -> Seq<char>
    recommends
        0 <= s <= e <= d.len(),
{
    match parse_fr_eq_id_id(d, s, e) {
        Some(x) => "Question1: 0x"@ + hex_of(x.qid1 as nat) + ", Question2: 0x"@ + hex_of(x.qid2 as nat),
        None => Seq::empty(),
    }
}

fn append_fr_eq_id_id_optext(out: &mut String, d: &[u8], s: usize, e: usize, m: &HashMap<u16, String>)
    requires
        s <= e,
        e <= d.len(),
    ensures
        final(out)@ == old(out)@ + fr_eq_id_id_optext(d@, s as int, e as int, m@),
{
    match read_fr_eq_id_id(d, s, e) {
        Some(x) => {
                out.append("Question1: 0x");
                append_hex(out, x.qid1 as u64);
                out.append(", Question2: 0x");
                append_hex(out, x.qid2 as u64);
        },
        None => {},
    }
    proof {
        assert(final(out)@ =~= old(out)@ + fr_eq_id_id_optext(d@, s as int, e as int, m@));
    }
}

/// The operand text of a Framework `Label` payload.
pub open spec fn fr_label_optext(d: Seq<u8>, s: int, e: int, m: Map<u16, String>) -> Seq<char>
    recommends
        0 <= s <= e <= d.len(),
{
    match parse_fr_label(d, s, e) {
        Some(x) => "LabelId: 0x"@ + hex_of(x.label_id as nat),
        None => Seq::empty(),
    }
}

fn append_fr_label_optext(out: &mut String, d: &[u8], s: usize, e: usize, m: &HashMap<u16, String>)
    requires
        s <= e,
        e <= d.len(),
    ensures
        final(out)@ == old(out)@ + fr_label_optext(d@, s as int, e as int, m@),
{
    match read_fr_label(d, s, e) {
        Some(x) => {
                out.append("LabelId: 0x");
                append_hex(out, x.label_id as u64);
        },
        None => {},
    }
    proof {
        assert(final(out)@ =~= old(out)@ + fr_label_optext(d@, s as int, e as int, m@));
    }
}

/// The operand text of a Framework `Banner` payload.
pub open spec fn fr_banner_optext(d: Seq<u8>, s: int, e: int, m: Map<u16, String>) -> Seq<char>
    recommends
        0 <= s <= e <= d.len(),
{
    match parse_fr_banner(d, s, e) {
        Some(x) => "Title: \""@ + resolve(m, x.title) + "\", LineNumber: 0x"@ + hex_of(x.line as nat) + ", Alignment: 0x"@ + hex_of(x.align as nat),
        None => Seq::empty(),
    }
}

fn append_fr_banner_optext(out: &mut String, d: &[u8], s: usize, e: usize, m: &HashMap<u16, String>)
    requires
        s <= e,
        e <= d.len(),
    ensures
        final(out)@ == old(out)@ + fr_banner_optext(d@, s as int, e as int, m@),
{
    match read_fr_banner(d, s, e) {
        Some(x) => {
                out.append("Title: \"");
                append_resolved(out, m, x.title);
                out.append("\", LineNumber: 0x");
                append_hex(out, x.line as u64);
                out.append(", Alignment: 0x");
                append_hex(out, x.align as u64);
        },
        None => {},
    }
    proof {
        assert(final(out)@ =~= old(out)@ + fr_banner_optext(d@, s as int, e as int, m@));
    }
}

/// The operand text of a Framework `Inventory` payload.
pub open spec fn fr_inventory_optext(d: Seq<u8>, s: int, e: int, m: Map<u16, String>) -> Seq<char>
    recommends
        0 <= s <= e <= d.len(),
{
    match parse_fr_inventory(d, s, e) {
        Some(x) => "Text: \""@ + resolve(m, x.text) + "\", TextTwo: \""@ + resolve(m, x.text_two) + "\", Help: \""@ + resolve(m, x.help) + "\""@,
        None => Seq::empty(),
    }
}

fn append_fr_inventory_optext(out: &mut String, d: &[u8], s: usize, e: usize, m: &HashMap<u16, String>)
    requires
        s <= e,
        e <= d.len(),
    ensures
        final(out)@ == old(out)@ + fr_inventory_optext(d@, s as int, e as int, m@),
{
    match read_fr_inventory(d, s, e) {
        Some(x) => {
                out.append("Text: \"");
                append_resolved(out, m, x.text);
                out.append("\", TextTwo: \"");
                append_resolved(out, m, x.text_two);
                out.append("\", Help: \"");
                append_resolved(out, m, x.help);
                out.append("\"");
        },
        None => {},
    }
    proof {
        assert(final(out)@ =~= old(out)@ + fr_inventory_optext(d@, s as int, e as int, m@));
    }
}

/// The operand text of a Framework `EqVarVal` payload.
pub open spec fn fr_eq_var_val_optext(d: Seq<u8>, s: int, e: int, m: Map<u16, String>) -> Seq<char>
    recommends
        0 <= s <= e <= d.len(),
{
    match parse_fr_eq_var_val(d, s, e) {
        Some(x) => "VariableId: 0x"@ + hex_of(x.var_id as nat) + ", Value: 0x"@ + hex_of(x.value as nat),
        None => Seq::empty(),
    }
}

fn append_fr_eq_var_val_optext(out: &mut String, d: &[u8], s: usize, e: usize, m: &HashMap<u16, String>)
    requires
        s <= e,
        e <= d.len(),
    ensures
        final(out)@ == old(out)@ + fr_eq_var_val_optext(d@, s as int, e as int, m@),
{
    match read_fr_eq_var_val(d, s, e) {
        Some(x) => {
                out.append("VariableId: 0x");
                append_hex(out, x.var_id as u64);
                out.append(", Value: 0x");
                append_hex(out, x.value as u64);
        },
        None => {},
    }
    proof {
        assert(final(out)@ =~= old(out)@ + fr_eq_var_val_optext(d@, s as int, e as int, m@));
    }
}

/// The operand text of a Framework `OrderedList` payload.
pub open spec fn fr_ordered_list_optext(d: Seq<u8>, s: int, e: int, m: Map<u16, String>) -> Seq<char>
    recommends
        0 <= s <= e <= d.len(),
{
    match parse_fr_ordered_list(d, s, e) {
        Some(x) => "Prompt: \""@ + resolve(m, x.prompt) + "\", Help: \""@ + resolve(m, x.help) + "\", QuestionId: 0x"@ + hex_of(x.qid as nat) + ", MaxEntries: 0x"@ + hex_of(x.max_entries as nat),
        None => Seq::empty(),
    }
}

fn append_fr_ordered_list_optext(out: &mut String, d: &[u8], s: usize, e: usize, m: &HashMap<u16, String>)
    requires
        s <= e,
        e <= d.len(),
    ensures
        final(out)@ == old(out)@ + fr_ordered_list_optext(d@, s as int, e as int, m@),
{
    match read_fr_ordered_list(d, s, e) {
        Some(x) => {
                out.append("Prompt: \"");
                append_resolved(out, m, x.prompt);
                out.append("\", Help: \"");
                append_resolved(out, m, x.help);
                out.append("\", QuestionId: 0x");
                append_hex(out, x.qid as u64);
                out.append(", MaxEntries: 0x");
                append_hex(out, x.max_entries as u64);
        },
        None => {},
    }
    proof {
        assert(final(out)@ =~= old(out)@ + fr_ordered_list_optext(d@, s as int, e as int, m@));
    }
}

/// The operand text of a Framework `VarStoreSelect` payload.
pub open spec fn fr_vs_select_optext(d: Seq<u8>, s: int, e: int, m: Map<u16, String>) -> Seq<char>
    recommends
        0 <= s <= e <= d.len(),
{
    match parse_fr_vs_select(d, s, e) {
        Some(x) => "VarstoreId: 0x"@ + hex_of(x.vsid as nat),
        None => Seq::empty(),
    }
}

fn append_fr_vs_select_optext(out: &mut String, d: &[u8], s: usize, e: usize, m: &HashMap<u16, String>)
    requires
        s <= e,
        e <= d.len(),
    ensures
        final(out)@ == old(out)@ + fr_vs_select_optext(d@, s as int, e as int, m@),
{
    match read_fr_vs_select(d, s, e) {
        Some(x) => {
                out.append("VarstoreId: 0x");
                append_hex(out, x.vsid as u64);
        },
        None => {},
    }
    proof {
        assert(final(out)@ =~= old(out)@ + fr_vs_select_optext(d@, s as int, e as int, m@));
    }
}

/// The operand text of a Framework `VarStoreSelectPair` payload.
pub open spec fn fr_vs_select_pair_optext(d: Seq<u8>, s: int, e: int, m: Map<u16, String>) -> Seq<char>
    recommends
        0 <= s <= e <= d.len(),
{
    match parse_fr_vs_select_pair(d, s, e) {
        Some(x) => "VarstoreId: 0x"@ + hex_of(x.vsid as nat) + ", SecondaryVarStoreId: 0x"@ + hex_of(x.secondary as nat),
        None => Seq::empty(),
    }
}

fn append_fr_vs_select_pair_optext(out: &mut String, d: &[u8], s: usize, e: usize, m: &HashMap<u16, String>)
    requires
        s <= e,
        e <= d.len(),
    ensures
        final(out)@ == old(out)@ + fr_vs_select_pair_optext(d@, s as int, e as int, m@),
{
    match read_fr_vs_select_pair(d, s, e) {
        Some(x) => {
                out.append("VarstoreId: 0x");
                append_hex(out, x.vsid as u64);
                out.append(", SecondaryVarStoreId: 0x");
                append_hex(out, x.secondary as u64);
        },
        None => {},
    }
    proof {
        assert(final(out)@ =~= old(out)@ + fr_vs_select_pair_optext(d@, s as int, e as int, m@));
    }
}
/// The operand text of a Framework `FormSet` payload.
pub open spec fn fr_form_set_optext(d: Seq<u8>, s: int, e: int, m: Map<u16, String>) -> Seq<char>
    recommends
        0 <= s <= e <= d.len(),
{
    match parse_fr_form_set(d, s, e) {
        Some(x) => "Title: \""@ + resolve(m, x.title) + "\", Help: \""@ + resolve(m, x.help)
            + "\", Guid: "@ + guid_text(d, s) + ", Callback: 0x"@ + hex_of(x.callback as nat)
            + ", Class: 0x"@ + hex_of(x.class as nat) + ", SubClass: 0x"@ + hex_of(
            x.subclass as nat,
        ) + ", NvDataSize: 0x"@ + hex_of(x.nv_size as nat),
        None => Seq::empty(),
    }
}

fn append_fr_form_set_optext(
    out: &mut String,
    d: &[u8],
    s: usize,
    e: usize,
    m: &HashMap<u16, String>,
)
    requires
        s <= e,
        e <= d.len(),
    ensures
        final(out)@ == old(out)@ + fr_form_set_optext(d@, s as int, e as int, m@),
{
    match read_fr_form_set(d, s, e) {
        Some(x) => {
            let mut t = String::new();
            t.append("Title: \"");
            proof {
                assert(t@ =~= "Title: \""@);
            }
            append_resolved(&mut t, m, x.title);
            t.append("\", Help: \"");
            append_resolved(&mut t, m, x.help);
            t.append("\", Guid: ");
            append_guid(&mut t, d, s);
            t.append(", Callback: 0x");
            append_hex(&mut t, x.callback);
            t.append(", Class: 0x");
            append_hex(&mut t, x.class as u64);
            t.append(", SubClass: 0x");
            append_hex(&mut t, x.subclass as u64);
            t.append(", NvDataSize: 0x");
            append_hex(&mut t, x.nv_size as u64);
            out.append(t.as_str());
        },
        None => {},
    }
    proof {
        assert(final(out)@ =~= old(out)@ + fr_form_set_optext(d@, s as int, e as int, m@));
    }
}

/// The operand text of a Framework `VarStore` payload.
pub open spec fn fr_var_store_optext(d: Seq<u8>, s: int, e: int) -> Seq<char>
    recommends
        0 <= s <= e <= d.len(),
{
    if e - s >= 20 {
        match first_nul(d, s + 20, e) {
            Some(nl) => "VarstoreId: 0x"@ + hex_of(le16(d, s + 16) as nat) + ", Guid: "@
                + guid_text(d, s) + ", Name: \""@ + latin1(d, s + 20, nl) + "\", Size: 0x"@
                + hex_of(le16(d, s + 18) as nat),
            None => Seq::empty(),
        }
    } else {
        Seq::empty()
    }
}

fn append_fr_var_store_optext(out: &mut String, d: &[u8], s: usize, e: usize)
    requires
        s <= e,
        e <= d.len(),
    ensures
        final(out)@ == old(out)@ + fr_var_store_optext(d@, s as int, e as int),
{
    if e - s >= 20 {
        match crate::bytes::find_nul(d, s + 20, e) {
            Some(nl) => {
                let mut t = String::new();
                t.append("VarstoreId: 0x");
                proof {
                    assert(t@ =~= "VarstoreId: 0x"@);
                }
                append_hex(&mut t, crate::bytes::read_le16(d, s + 16) as u64);
                t.append(", Guid: ");
                append_guid(&mut t, d, s);
                t.append(", Name: \"");
                crate::bytes::append_latin1(&mut t, d, s + 20, nl);
                t.append("\", Size: 0x");
                append_hex(&mut t, crate::bytes::read_le16(d, s + 18) as u64);
                out.append(t.as_str());
            },
            None => {},
        }
    }
    proof {
        assert(final(out)@ =~= old(out)@ + fr_var_store_optext(d@, s as int, e as int));
    }
}

/// The rendering of the elements of an identifier list, one ` 0x<id>,`
/// each.
pub open spec fn id_list_items(l: Seq<u16>) -> Seq<char>
    decreases l.len(),
{
    if l.len() == 0 {
        Seq::empty()
    } else {
        " 0x"@ + hex_of(l[0] as nat) + ","@ + id_list_items(l.drop_first())
    }
}

/// The operand text of a Framework `EqIdList` payload.
pub open spec fn fr_eq_id_list_optext(d: Seq<u8>, s: int, e: int) -> Seq<char>
    recommends
        0 <= s <= e <= d.len(),
{
    match parse_fr_eq_id_list_hdr(d, s, e) {
        Some((qid, width, count)) => "QuestionId: 0x"@ + hex_of(qid as nat) + ", Width: 0x"@
            + hex_of(width as nat) + ", List: {"@ + id_list_items(
            u16_list(d, s + 5, count as int),
        ) + " }"@,
        None => Seq::empty(),
    }
}

#[verifier::loop_isolation(false)]
fn append_fr_eq_id_list_optext(out: &mut String, d: &[u8], s: usize, e: usize)
    requires
        s <= e,
        e <= d.len(),
    ensures
        final(out)@ == old(out)@ + fr_eq_id_list_optext(d@, s as int, e as int),
{
    match read_fr_eq_id_list(d, s, e) {
        Some(x) => {
            let mut t = String::new();
            t.append("QuestionId: 0x");
            proof {
                assert(t@ =~= "QuestionId: 0x"@);
            }
            append_hex(&mut t, x.qid as u64);
            t.append(", Width: 0x");
            append_hex(&mut t, x.width as u64);
            t.append(", List: {");
            let ghost mark = t@;
            let ghost items = x.list@;
            proof {
                assert(items.subrange(0, items.len() as int) =~= items);
            }
            let mut k: usize = 0;
            while k < x.list.len()
                invariant
                    k <= x.list.len(),
                    t@ + id_list_items(items.subrange(k as int, items.len() as int)) == mark
                        + id_list_items(items),
                decreases x.list.len() - k,
            {
                let ghost prevt = t@;
                let ghost kk = k as int;
                t.append(" 0x");
                append_hex(&mut t, x.list[k] as u64);
                t.append(",");
                k = k + 1;
                proof {
                    let tail = items.subrange(kk, items.len() as int);
                    assert(tail.drop_first() =~= items.subrange(k as int, items.len() as int));
                    assert(t@ + id_list_items(items.subrange(k as int, items.len() as int))
                        =~= prevt + id_list_items(tail));
                }
            }
            proof {
                assert(items.subrange(k as int, items.len() as int) =~= Seq::<u16>::empty());
                assert(id_list_items(items.subrange(k as int, items.len() as int)) =~= Seq::<
                    char,
                >::empty());
            }
            t.append(" }");
            out.append(t.as_str());
        },
        None => {},
    }
    proof {
        assert(final(out)@ =~= old(out)@ + fr_eq_id_list_optext(d@, s as int, e as int));
    }
}

/// The operand text of one Framework opcode's payload `[s, e)`; empty
/// where the payload does not parse or the opcode carries no operands.
#[verifier::opaque]
pub open spec fn fr_payload_text(d: Seq<u8>, s: int, e: int, op: FrOpcode, m: Map<u16, String>)
    -> Seq<char>
    recommends
        0 <= s <= e <= d.len(),
{
    match op {
        FrOpcode::Form => fr_form_optext(d, s, e, m),
        FrOpcode::Subtitle => fr_subtitle_optext(d, s, e, m),
        FrOpcode::Text => fr_text_optext(d, s, e, m),
        FrOpcode::OneOf => fr_one_of_optext(d, s, e, m),
        FrOpcode::CheckBox => fr_check_box_optext(d, s, e, m),
        FrOpcode::Numeric => fr_numeric_optext(d, s, e, m),
        FrOpcode::Password => fr_password_optext(d, s, e, m),
        FrOpcode::OneOfOption => fr_one_of_option_optext(d, s, e, m),
        FrOpcode::SuppressIf => fr_flags1_optext(d, s, e, m),
        FrOpcode::Hidden => fr_hidden_optext(d, s, e, m),
        FrOpcode::FormSet => fr_form_set_optext(d, s, e, m),
        FrOpcode::Ref => fr_ref_optext(d, s, e, m),
        FrOpcode::InconsistentIf => fr_inconsistent_optext(d, s, e, m),
        FrOpcode::EqIdVal => fr_eq_id_val_optext(d, s, e, m),
        FrOpcode::EqIdId => fr_eq_id_id_optext(d, s, e, m),
        FrOpcode::EqIdList => fr_eq_id_list_optext(d, s, e),
        FrOpcode::GrayOutIf => fr_flags1_optext(d, s, e, m),
        FrOpcode::Date => fr_numeric_optext(d, s, e, m),
        FrOpcode::Time => fr_numeric_optext(d, s, e, m),
        FrOpcode::StringOp => fr_string_optext(d, s, e, m),
        FrOpcode::Label => fr_label_optext(d, s, e, m),
        FrOpcode::SaveDefaults => fr_ref_optext(d, s, e, m),
        FrOpcode::RestoreDefaults => fr_ref_optext(d, s, e, m),
        FrOpcode::Banner => fr_banner_optext(d, s, e, m),
        FrOpcode::Inventory => fr_inventory_optext(d, s, e, m),
        FrOpcode::EqVarVal => fr_eq_var_val_optext(d, s, e, m),
        FrOpcode::OrderedList => fr_ordered_list_optext(d, s, e, m),
        FrOpcode::VarStore => fr_var_store_optext(d, s, e),
        FrOpcode::VarStoreSelect => fr_vs_select_optext(d, s, e, m),
        FrOpcode::VarStoreSelectPair => fr_vs_select_pair_optext(d, s, e, m),
        FrOpcode::Unknown(_) => "RawData: "@ + raw_list(d, s, e),
        _ => Seq::empty(),
    }
}

/// The operand text of a Framework `String` payload.
pub open spec fn fr_string_optext(d: Seq<u8>, s: int, e: int, m: Map<u16, String>) -> Seq<char>
    recommends
        0 <= s <= e <= d.len(),
{
    match parse_fr_string(d, s, e) {
        Some(x) => "Prompt: \""@ + resolve(m, x.prompt) + "\", Help: \""@ + resolve(m, x.help)
            + "\", QuestionId: 0x"@ + hex_of(x.qid as nat) + ", Width: 0x"@ + hex_of(
            x.width as nat,
        ) + ", Flags: 0x"@ + hex_of(x.flags as nat) + ", Key: 0x"@ + hex_of(x.key as nat)
            + ", MinSize: 0x"@ + hex_of(x.min_size as nat) + ", MaxSize: 0x"@ + hex_of(
            x.max_size as nat,
        ),
        None => Seq::empty(),
    }
}

fn append_fr_string_optext(out: &mut String, d: &[u8], s: usize, e: usize, m: &HashMap<u16, String>)
    requires
        s <= e,
        e <= d.len(),
    ensures
        final(out)@ == old(out)@ + fr_string_optext(d@, s as int, e as int, m@),
{
    match read_fr_string(d, s, e) {
        Some(x) => {
            let mut t = String::new();
            t.append("Prompt: \"");
            proof {
                assert(t@ =~= "Prompt: \""@);
            }
            append_resolved(&mut t, m, x.prompt);
            t.append("\", Help: \"");
            append_resolved(&mut t, m, x.help);
            t.append("\", QuestionId: 0x");
            append_hex(&mut t, x.qid as u64);
            t.append(", Width: 0x");
            append_hex(&mut t, x.width as u64);
            t.append(", Flags: 0x");
            append_hex(&mut t, x.flags as u64);
            t.append(", Key: 0x");
            append_hex(&mut t, x.key as u64);
            t.append(", MinSize: 0x");
            append_hex(&mut t, x.min_size as u64);
            t.append(", MaxSize: 0x");
            append_hex(&mut t, x.max_size as u64);
            out.append(t.as_str());
        },
        None => {},
    }
    proof {
        assert(final(out)@ =~= old(out)@ + fr_string_optext(d@, s as int, e as int, m@));
    }
}

fn append_fr_raw_optext(out: &mut String, d: &[u8], s: usize, e: usize)
    requires
        s <= e,
        e <= d.len(),
    ensures
        final(out)@ == old(out)@ + "RawData: "@ + raw_list(d@, s as int, e as int),
{
    out.append("RawData: ");
    append_raw_list(out, d, s, e);
    proof {
        assert(final(out)@ =~= old(out)@ + "RawData: "@ + raw_list(d@, s as int, e as int));
    }
}

/// Appends the operand text of one Framework opcode's payload.
fn append_fr_payload(
    out: &mut String,
    d: &[u8],
    s: usize,
    e: usize,
    op: FrOpcode,
    m: &HashMap<u16, String>,
)
    requires
        s <= e,
        e <= d.len(),
    ensures
        final(out)@ == old(out)@ + fr_payload_text(d@, s as int, e as int, op, m@),
{
    proof {
        reveal(fr_payload_text);
    }
    match op {
        FrOpcode::Form => append_fr_form_optext(out, d, s, e, m),
        FrOpcode::Subtitle => append_fr_subtitle_optext(out, d, s, e, m),
        FrOpcode::Text => append_fr_text_optext(out, d, s, e, m),
        FrOpcode::OneOf => append_fr_one_of_optext(out, d, s, e, m),
        FrOpcode::CheckBox => append_fr_check_box_optext(out, d, s, e, m),
        FrOpcode::Numeric => append_fr_numeric_optext(out, d, s, e, m),
        FrOpcode::Password => append_fr_password_optext(out, d, s, e, m),
        FrOpcode::OneOfOption => append_fr_one_of_option_optext(out, d, s, e, m),
        FrOpcode::SuppressIf => append_fr_flags1_optext(out, d, s, e, m),
        FrOpcode::Hidden => append_fr_hidden_optext(out, d, s, e, m),
        FrOpcode::FormSet => append_fr_form_set_optext(out, d, s, e, m),
        FrOpcode::Ref => append_fr_ref_optext(out, d, s, e, m),
        FrOpcode::InconsistentIf => append_fr_inconsistent_optext(out, d, s, e, m),
        FrOpcode::EqIdVal => append_fr_eq_id_val_optext(out, d, s, e, m),
        FrOpcode::EqIdId => append_fr_eq_id_id_optext(out, d, s, e, m),
        FrOpcode::EqIdList => append_fr_eq_id_list_optext(out, d, s, e),
        FrOpcode::GrayOutIf => append_fr_flags1_optext(out, d, s, e, m),
        FrOpcode::Date => append_fr_numeric_optext(out, d, s, e, m),
        FrOpcode::Time => append_fr_numeric_optext(out, d, s, e, m),
        FrOpcode::StringOp => append_fr_string_optext(out, d, s, e, m),
        FrOpcode::Label => append_fr_label_optext(out, d, s, e, m),
        FrOpcode::SaveDefaults => append_fr_ref_optext(out, d, s, e, m),
        FrOpcode::RestoreDefaults => append_fr_ref_optext(out, d, s, e, m),
        FrOpcode::Banner => append_fr_banner_optext(out, d, s, e, m),
        FrOpcode::Inventory => append_fr_inventory_optext(out, d, s, e, m),
        FrOpcode::EqVarVal => append_fr_eq_var_val_optext(out, d, s, e, m),
        FrOpcode::OrderedList => append_fr_ordered_list_optext(out, d, s, e, m),
        FrOpcode::VarStore => append_fr_var_store_optext(out, d, s, e),
        FrOpcode::VarStoreSelect => append_fr_vs_select_optext(out, d, s, e, m),
        FrOpcode::VarStoreSelectPair => append_fr_vs_select_pair_optext(out, d, s, e, m),
        FrOpcode::Unknown(_) => append_fr_raw_optext(out, d, s, e),
        _ => {
            proof {
                assert(final(out)@ =~= old(out)@ + fr_payload_text(
                    d@,
                    s as int,
                    e as int,
                    op,
                    m@,
                ));
            }
        },
    }
}

/// Whether an opcode closes a scope: the paired end opcodes do.
pub open spec fn fr_closes(op: FrOpcode) -> bool {
    op == FrOpcode::EndForm || op == FrOpcode::EndFormSet
}

/// Whether an opcode opens a scope: `Form` and `FormSet` do, when their
/// payload parses.
pub open spec fn fr_opens(d: Seq<u8>, s: int, e: int, op: FrOpcode) -> bool {
    ||| op == FrOpcode::Form && parse_fr_form(d, s, e) is Some
    ||| op == FrOpcode::FormSet && parse_fr_form_set(d, s, e) is Some
}

/// The listing of the Framework opcode stream `[pos, end)`: one line per
/// frame, stopping at the first malformed frame. `EndForm` and
/// `EndFormSet` close the scope (never below zero) before their own line
/// is laid out; `Form` and `FormSet` open one after theirs.
pub open spec fn fr_ops_text(
    d: Seq<u8>,
    pos: int,
    end: int,
    depth: nat,
    m: Map<u16, String>,
    verbose: bool,
) -> Seq<char>
    decreases end - pos,
{
    match fr_op_at(d, pos, end) {
        Some((op, ln)) => {
            let ev = ScopeEv {
                opens: fr_opens(d, pos + 2, pos + ln, op),
                closes: fr_closes(op),
            };
            offset_prefix(pos, verbose) + spaces(scope_emit(depth, ev)) + fr_op_name(op) + " "@
                + (if ln > 2 {
                fr_payload_text(d, pos + 2, pos + ln, op, m)
            } else {
                Seq::empty()
            }) + "\n"@ + fr_ops_text(d, pos + ln, end, scope_step(depth, ev), m, verbose)
        },
        None => Seq::empty(),
    }
}

/// The scope event of each opcode of the Framework stream `[pos, end)`.
pub open spec fn fr_scope_events(d: Seq<u8>, pos: int, end: int) -> Seq<ScopeEv>
    decreases end - pos,
{
    match fr_op_at(d, pos, end) {
        Some((op, ln)) => seq![
            ScopeEv { opens: fr_opens(d, pos + 2, pos + ln, op), closes: fr_closes(op) },
        ] + fr_scope_events(d, pos + ln, end),
        None => Seq::empty(),
    }
}

/// The indentation depth of each line of `fr_ops_text`, in order.
pub open spec fn fr_line_depths(d: Seq<u8>, pos: int, end: int, depth: nat) -> Seq<nat>
    decreases end - pos,
{
    match fr_op_at(d, pos, end) {
        Some((op, ln)) => {
            let ev = ScopeEv {
                opens: fr_opens(d, pos + 2, pos + ln, op),
                closes: fr_closes(op),
            };
            seq![scope_emit(depth, ev)] + fr_line_depths(d, pos + ln, end, scope_step(depth, ev))
        },
        None => Seq::empty(),
    }
}

/// The line depths are the layout depths of the scope-event fold.
pub proof fn lemma_fr_line_depths(d: Seq<u8>, pos: int, end: int, d0: nat)
    ensures
        fr_line_depths(d, pos, end, d0) == emit_depths(fr_scope_events(d, pos, end), d0),
    decreases end - pos,
{
    match fr_op_at(d, pos, end) {
        Some((op, ln)) => {
            let ev = ScopeEv {
                opens: fr_opens(d, pos + 2, pos + ln, op),
                closes: fr_closes(op),
            };
            let evs = fr_scope_events(d, pos, end);
            let evs2 = fr_scope_events(d, pos + ln, end);
            lemma_fr_line_depths(d, pos + ln, end, scope_step(d0, ev));
            assert forall|k: int| 0 <= k < evs.len() implies emit_depths(evs, d0)[k] == (
            seq![scope_emit(d0, ev)] + emit_depths(evs2, scope_step(d0, ev)))[k] by {
                if k >= 1 {
                    lemma_depth_shift(evs2, ev, d0, k);
                    assert(evs[k] == evs2[k - 1]);
                }
            };
            assert(emit_depths(evs, d0) =~= seq![scope_emit(d0, ev)] + emit_depths(
                evs2,
                scope_step(d0, ev),
            ));
            assert(fr_line_depths(d, pos, end, d0) =~= emit_depths(evs, d0));
        },
        None => {
            assert(fr_line_depths(d, pos, end, d0) =~= emit_depths(
                fr_scope_events(d, pos, end),
                d0,
            ));
        },
    }
}

/// Scope balance of a rendered Framework opcode stream: where opcode `i`
/// opens a scope and `j` is the first later opcode at which the depth
/// falls back below the level inside that scope, opcode `j` is a closing
/// one and its line is indented exactly as deep as the opener's.
pub proof fn lemma_fr_scope_balance(d: Seq<u8>, pos: int, end: int, i: int, j: int)
    requires
        ({
            let evs = fr_scope_events(d, pos, end);
            &&& 0 <= i < j < evs.len()
            &&& evs[i].opens
            &&& depth_after(evs, 0, j + 1) < depth_after(evs, 0, i + 1)
            &&& forall|k: int|
                i < k < j ==> #[trigger] depth_after(evs, 0, k + 1) >= depth_after(evs, 0, i + 1)
        }),
    ensures
        fr_scope_events(d, pos, end)[j].closes,
        fr_line_depths(d, pos, end, 0)[j] == fr_line_depths(d, pos, end, 0)[i],
{
    let evs = fr_scope_events(d, pos, end);
    lemma_scope_balance(evs, 0, i, j);
    lemma_fr_line_depths(d, pos, end, 0);
}

/// Appends the listing of the Framework opcode stream `[s, e)`, starting
/// at scope depth zero.
#[verifier::loop_isolation(false)]
#[verifier::rlimit(60)]
pub fn append_fr_ops_text(
    out: &mut String,
    d: &[u8],
    s: usize,
    e: usize,
    m: &HashMap<u16, String>,
    verbose: bool,
)
    requires
        s <= e,
        e <= d.len(),
    ensures
        final(out)@ == old(out)@ + fr_ops_text(d@, s as int, e as int, 0, m@, verbose),
{
    let mut pos: usize = s;
    let mut depth: usize = 0;
    proof {
        assert(out@ + fr_ops_text(d@, s as int, e as int, 0, m@, verbose) =~= old(out)@
            + fr_ops_text(d@, s as int, e as int, 0, m@, verbose));
    }
    while pos < e
        invariant
            s <= pos,
            2 * depth <= pos - s,
            out@ + fr_ops_text(d@, pos as int, e as int, depth as nat, m@, verbose) == old(out)@
                + fr_ops_text(d@, s as int, e as int, 0, m@, verbose),
        decreases e - pos,
    {
        let ghost prev = out@;
        let ghost pp = pos as int;
        let ghost pd = depth as nat;
        match read_fr_op(d, pos, e) {
            Some((op, ln)) => {
                let ghost ev = ScopeEv {
                    opens: fr_opens(d@, pos + 2, pos + ln, op),
                    closes: fr_closes(op),
                };
                let closes = match op {
                    FrOpcode::EndForm => true,
                    FrOpcode::EndFormSet => true,
                    _ => false,
                };
                let ed = if closes && depth > 0 {
                    depth - 1
                } else {
                    depth
                };
                proof {
                    assert(ed as nat == scope_emit(pd, ev));
                }
                let opens = match op {
                    FrOpcode::Form => read_fr_form(d, pos + 2, pos + ln).is_some(),
                    FrOpcode::FormSet => read_fr_form_set(d, pos + 2, pos + ln).is_some(),
                    _ => false,
                };
                proof {
                    assert(opens == ev.opens);
                    assert(closes == ev.closes);
                }
                let mut t = String::new();
                if verbose {
                    t.append("0x");
                    proof {
                        assert(t@ =~= "0x"@);
                    }
                    append_hex(&mut t, pos as u64);
                    t.append(": ");
                }
                proof {
                    assert(t@ =~= offset_prefix(pp, verbose));
                }
                append_spaces(&mut t, ed);
                t.append(fr_op_name_str(op));
                t.append(" ");
                if ln > 2 {
                    append_fr_payload(&mut t, d, pos + 2, pos + ln, op, m);
                } else {
                    proof {
                        assert(t@ =~= t@ + Seq::<char>::empty());
                    }
                }
                t.append("\n");
                out.append(t.as_str());
                depth = if opens {
                    ed + 1
                } else {
                    ed
                };
                pos = pos + ln;
                proof {
                    assert(depth as nat == scope_step(pd, ev));
                    assert(out@ + fr_ops_text(d@, pos as int, e as int, depth as nat, m@, verbose)
                        =~= prev + fr_ops_text(d@, pp, e as int, pd, m@, verbose));
                }
            },
            None => {
                proof {
                    assert(fr_ops_text(d@, pos as int, e as int, depth as nat, m@, verbose)
                        =~= Seq::<char>::empty());
                    assert(final(out)@ =~= old(out)@ + fr_ops_text(
                        d@,
                        s as int,
                        e as int,
                        0,
                        m@,
                        verbose,
                    ));
                }
                return ;
            },
        }
    }
    proof {
        assert(fr_ops_text(d@, pos as int, e as int, depth as nat, m@, verbose) =~= Seq::<
            char,
        >::empty());
        assert(final(out)@ =~= old(out)@ + fr_ops_text(d@, s as int, e as int, 0, m@, verbose));
    }
}

/// The complete listing `extract` produces for a Framework form pack at
/// `off`: the preamble line, then — when a form-type pack header whose
/// length fits the buffer stands at `off` — one line per opcode of its
/// stream.
pub open spec fn fr_extract_text(d: Seq<u8>, off: int, m: Map<u16, String>, verbose: bool)
    -> Seq<char>
{
    let pre = "Program version: 0.1.0, Extraction mode: Framework\n"@;
    if 0 <= off && off + 6 <= d.len() {
        let l = le32(d, off) as int;
        if le16(d, off + 4) == crate::framework::FR_FORM_PKG && 6 <= l && off + l <= d.len() {
            pre + fr_ops_text(d, off + 6, off + l, 0, m, verbose)
        } else {
            pre
        }
    } else {
        pre
    }
}

/// Renders the Framework form pack recorded at `form_pkg.offset` against
/// the given string table.
pub fn extract(data: &[u8], form_pkg: &FormPackage, string_pkg: &StringPackage, verbose: bool)
    -> (r: String)
    ensures
        r@ == fr_extract_text(data@, form_pkg.offset as int, string_pkg.string_id_map@, verbose),
{
    let mut out = String::new();
    out.append("Program version: 0.1.0, Extraction mode: Framework\n");
    let off = form_pkg.offset;
    if off <= data.len() && data.len() - off >= 6 {
        let l32 = crate::bytes::read_le32(data, off);
        if crate::bytes::read_le16(data, off + 4) == crate::framework::FR_FORM_PKG && 6 <= l32
            && l32 as usize <= data.len() - off {
            let l = l32 as usize;
            append_fr_ops_text(
                &mut out,
                data,
                off + 6,
                off + l,
                &string_pkg.string_id_map,
                verbose,
            );
        }
    }
    proof {
        assert(out@ =~= fr_extract_text(
            data@,
            form_pkg.offset as int,
            string_pkg.string_id_map@,
            verbose,
        ));
    }
    out
}


/// Extraction is pure: two renderings of the same pack against the same
/// table, with the same verbosity, are character for character the same
/// text.
pub proof fn lemma_fr_extract_pure(
    d: Seq<u8>,
    off: int,
    m: Map<u16, String>,
    verbose: bool,
    r1: Seq<char>,
    r2: Seq<char>,
)
    requires
        r1 == fr_extract_text(d, off, m, verbose),
        r2 == fr_extract_text(d, off, m, verbose),
    ensures
        r1 == r2,
{
}

} // verus!
