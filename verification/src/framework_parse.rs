//! Parsing of the Framework IFR opcode stream: opcode framing, the
//! payload layouts of the opcodes that carry string references, and the
//! collection of every string identifier a form package references.

use vstd::prelude::*;
use crate::framework_ops::{FrOpcode, fr_spec_decode_op, fr_decode_op};

verus! {

/// Payload of a Framework `Form` opcode.
pub struct FrFormF {
    pub form_id: u16,
    pub title: u16,
}

pub open spec fn parse_fr_form(d: Seq<u8>, s: int, e: int) -> Option<FrFormF>
    recommends
        0 <= s <= e <= d.len(),
{
    if e - s >= 4 {
        Some(FrFormF {
            form_id: crate::bytes::le16(d, s),
            title: crate::bytes::le16(d, s + 2),
        })
    } else {
        None
    }
}

pub fn read_fr_form(d: &[u8], s: usize, e: usize) -> (r: Option<FrFormF>)
    requires
        s <= e,
        e <= d.len(),
    ensures
        r == parse_fr_form(d@, s as int, e as int),
{
    if e - s >= 4 {
        Some(FrFormF {
            form_id: crate::bytes::read_le16(d, s),
            title: crate::bytes::read_le16(d, s + 2),
        })
    } else {
        None
    }
}

/// Payload of a Framework `Subtitle` opcode.
pub struct FrSubtitleF {
    pub sub: u16,
}

pub open spec fn parse_fr_subtitle(d: Seq<u8>, s: int, e: int) -> Option<FrSubtitleF>
    recommends
        0 <= s <= e <= d.len(),
{
    if e - s >= 2 {
        Some(FrSubtitleF {
            sub: crate::bytes::le16(d, s),
        })
    } else {
        None
    }
}

pub fn read_fr_subtitle(d: &[u8], s: usize, e: usize) -> (r: Option<FrSubtitleF>)
    requires
        s <= e,
        e <= d.len(),
    ensures
        r == parse_fr_subtitle(d@, s as int, e as int),
{
    if e - s >= 2 {
        Some(FrSubtitleF {
            sub: crate::bytes::read_le16(d, s),
        })
    } else {
        None
    }
}

/// Payload of a Framework `Text` opcode.
pub struct FrTextF {
    pub help: u16,
    pub text: u16,
    pub text_two: u16,
    pub flags: u8,
    pub key: u16,
}

pub open spec fn parse_fr_text(d: Seq<u8>, s: int, e: int) -> Option<FrTextF>
    recommends
        0 <= s <= e <= d.len(),
{
    if e - s >= 9 {
        Some(FrTextF {
            help: crate::bytes::le16(d, s),
            text: crate::bytes::le16(d, s + 2),
            text_two: crate::bytes::le16(d, s + 4),
            flags: d[s + 6],
            key: crate::bytes::le16(d, s + 7),
        })
    } else {
        None
    }
}

pub fn read_fr_text(d: &[u8], s: usize, e: usize) -> (r: Option<FrTextF>)
    requires
        s <= e,
        e <= d.len(),
    ensures
        r == parse_fr_text(d@, s as int, e as int),
{
    if e - s >= 9 {
        Some(FrTextF {
            help: crate::bytes::read_le16(d, s),
            text: crate::bytes::read_le16(d, s + 2),
            text_two: crate::bytes::read_le16(d, s + 4),
            flags: d[s + 6],
            key: crate::bytes::read_le16(d, s + 7),
        })
    } else {
        None
    }
}

/// Payload of a Framework `OneOf` opcode.
pub struct FrOneOfF {
    pub qid: u16,
    pub width: u8,
    pub prompt: u16,
    pub help: u16,
}

pub open spec fn parse_fr_one_of(d: Seq<u8>, s: int, e: int) -> Option<FrOneOfF>
    recommends
        0 <= s <= e <= d.len(),
{
    if e - s >= 7 {
        Some(FrOneOfF {
            qid: crate::bytes::le16(d, s),
            width: d[s + 2],
            prompt: crate::bytes::le16(d, s + 3),
            help: crate::bytes::le16(d, s + 5),
        })
    } else {
        None
    }
}

pub fn read_fr_one_of(d: &[u8], s: usize, e: usize) -> (r: Option<FrOneOfF>)
    requires
        s <= e,
        e <= d.len(),
    ensures
        r == parse_fr_one_of(d@, s as int, e as int),
{
    if e - s >= 7 {
        Some(FrOneOfF {
            qid: crate::bytes::read_le16(d, s),
            width: d[s + 2],
            prompt: crate::bytes::read_le16(d, s + 3),
            help: crate::bytes::read_le16(d, s + 5),
        })
    } else {
        None
    }
}

/// Payload of a Framework `CheckBox` opcode.
pub struct FrCheckBoxF {
    pub qid: u16,
    pub width: u8,
    pub prompt: u16,
    pub help: u16,
    pub flags: u8,
    pub key: u16,
}

pub open spec fn parse_fr_check_box(d: Seq<u8>, s: int, e: int) -> Option<FrCheckBoxF>
    recommends
        0 <= s <= e <= d.len(),
{
    if e - s >= 10 {
        Some(FrCheckBoxF {
            qid: crate::bytes::le16(d, s),
            width: d[s + 2],
            prompt: crate::bytes::le16(d, s + 3),
            help: crate::bytes::le16(d, s + 5),
            flags: d[s + 7],
            key: crate::bytes::le16(d, s + 8),
        })
    } else {
        None
    }
}

pub fn read_fr_check_box(d: &[u8], s: usize, e: usize) -> (r: Option<FrCheckBoxF>)
    requires
        s <= e,
        e <= d.len(),
    ensures
        r == parse_fr_check_box(d@, s as int, e as int),
{
    if e - s >= 10 {
        Some(FrCheckBoxF {
            qid: crate::bytes::read_le16(d, s),
            width: d[s + 2],
            prompt: crate::bytes::read_le16(d, s + 3),
            help: crate::bytes::read_le16(d, s + 5),
            flags: d[s + 7],
            key: crate::bytes::read_le16(d, s + 8),
        })
    } else {
        None
    }
}

/// Payload of a Framework `Numeric`, `Date` or `Time` opcode.
pub struct FrNumericF {
    pub qid: u16,
    pub width: u8,
    pub prompt: u16,
    pub help: u16,
    pub flags: u8,
    pub key: u16,
    pub min: u16,
    pub max: u16,
    pub step: u16,
    pub default: u16,
}

pub open spec fn parse_fr_numeric(d: Seq<u8>, s: int, e: int) -> Option<FrNumericF>
    recommends
        0 <= s <= e <= d.len(),
{
    if e - s >= 18 {
        Some(FrNumericF {
            qid: crate::bytes::le16(d, s),
            width: d[s + 2],
            prompt: crate::bytes::le16(d, s + 3),
            help: crate::bytes::le16(d, s + 5),
            flags: d[s + 7],
            key: crate::bytes::le16(d, s + 8),
            min: crate::bytes::le16(d, s + 10),
            max: crate::bytes::le16(d, s + 12),
            step: crate::bytes::le16(d, s + 14),
            default: crate::bytes::le16(d, s + 16),
        })
    } else {
        None
    }
}

pub fn read_fr_numeric(d: &[u8], s: usize, e: usize) -> (r: Option<FrNumericF>)
    requires
        s <= e,
        e <= d.len(),
    ensures
        r == parse_fr_numeric(d@, s as int, e as int),
{
    if e - s >= 18 {
        Some(FrNumericF {
            qid: crate::bytes::read_le16(d, s),
            width: d[s + 2],
            prompt: crate::bytes::read_le16(d, s + 3),
            help: crate::bytes::read_le16(d, s + 5),
            flags: d[s + 7],
            key: crate::bytes::read_le16(d, s + 8),
            min: crate::bytes::read_le16(d, s + 10),
            max: crate::bytes::read_le16(d, s + 12),
            step: crate::bytes::read_le16(d, s + 14),
            default: crate::bytes::read_le16(d, s + 16),
        })
    } else {
        None
    }
}

/// Payload of a Framework `Password` opcode.
pub struct FrPasswordF {
    pub qid: u16,
    pub width: u8,
    pub prompt: u16,
    pub help: u16,
    pub flags: u8,
    pub key: u16,
    pub min_size: u8,
    pub max_size: u8,
    pub encoding: u16,
}

pub open spec fn parse_fr_password(d: Seq<u8>, s: int, e: int) -> Option<FrPasswordF>
    recommends
        0 <= s <= e <= d.len(),
{
    if e - s >= 14 {
        Some(FrPasswordF {
            qid: crate::bytes::le16(d, s),
            width: d[s + 2],
            prompt: crate::bytes::le16(d, s + 3),
            help: crate::bytes::le16(d, s + 5),
            flags: d[s + 7],
            key: crate::bytes::le16(d, s + 8),
            min_size: d[s + 10],
            max_size: d[s + 11],
            encoding: crate::bytes::le16(d, s + 12),
        })
    } else {
        None
    }
}

pub fn read_fr_password(d: &[u8], s: usize, e: usize) -> (r: Option<FrPasswordF>)
    requires
        s <= e,
        e <= d.len(),
    ensures
        r == parse_fr_password(d@, s as int, e as int),
{
    if e - s >= 14 {
        Some(FrPasswordF {
            qid: crate::bytes::read_le16(d, s),
            width: d[s + 2],
            prompt: crate::bytes::read_le16(d, s + 3),
            help: crate::bytes::read_le16(d, s + 5),
            flags: d[s + 7],
            key: crate::bytes::read_le16(d, s + 8),
            min_size: d[s + 10],
            max_size: d[s + 11],
            encoding: crate::bytes::read_le16(d, s + 12),
        })
    } else {
        None
    }
}

/// Payload of a Framework `OneOfOption` opcode.
pub struct FrOneOfOptF {
    pub option: u16,
    pub value: u16,
    pub flags: u8,
    pub key: u16,
}

pub open spec fn parse_fr_one_of_option(d: Seq<u8>, s: int, e: int) -> Option<FrOneOfOptF>
    recommends
        0 <= s <= e <= d.len(),
{
    if e - s >= 7 {
        Some(FrOneOfOptF {
            option: crate::bytes::le16(d, s),
            value: crate::bytes::le16(d, s + 2),
            flags: d[s + 4],
            key: crate::bytes::le16(d, s + 5),
        })
    } else {
        None
    }
}

pub fn read_fr_one_of_option(d: &[u8], s: usize, e: usize) -> (r: Option<FrOneOfOptF>)
    requires
        s <= e,
        e <= d.len(),
    ensures
        r == parse_fr_one_of_option(d@, s as int, e as int),
{
    if e - s >= 7 {
        Some(FrOneOfOptF {
            option: crate::bytes::read_le16(d, s),
            value: crate::bytes::read_le16(d, s + 2),
            flags: d[s + 4],
            key: crate::bytes::read_le16(d, s + 5),
        })
    } else {
        None
    }
}

/// Payload of a Framework `SuppressIf` or `GrayOutIf` opcode.
pub struct FrFlagsF {
    pub flags: u8,
}

pub open spec fn parse_fr_flags1(d: Seq<u8>, s: int, e: int) -> Option<FrFlagsF>
    recommends
        0 <= s <= e <= d.len(),
{
    if e - s >= 1 {
        Some(FrFlagsF {
            flags: d[s],
        })
    } else {
        None
    }
}

pub fn read_fr_flags1(d: &[u8], s: usize, e: usize) -> (r: Option<FrFlagsF>)
    requires
        s <= e,
        e <= d.len(),
    ensures
        r == parse_fr_flags1(d@, s as int, e as int),
{
    if e - s >= 1 {
        Some(FrFlagsF {
            flags: d[s],
        })
    } else {
        None
    }
}

/// Payload of a Framework `Hidden` opcode.
pub struct FrHiddenF {
    pub value: u16,
    pub key: u16,
}

pub open spec fn parse_fr_hidden(d: Seq<u8>, s: int, e: int) -> Option<FrHiddenF>
    recommends
        0 <= s <= e <= d.len(),
{
    if e - s >= 4 {
        Some(FrHiddenF {
            value: crate::bytes::le16(d, s),
            key: crate::bytes::le16(d, s + 2),
        })
    } else {
        None
    }
}

pub fn read_fr_hidden(d: &[u8], s: usize, e: usize) -> (r: Option<FrHiddenF>)
    requires
        s <= e,
        e <= d.len(),
    ensures
        r == parse_fr_hidden(d@, s as int, e as int),
{
    if e - s >= 4 {
        Some(FrHiddenF {
            value: crate::bytes::read_le16(d, s),
            key: crate::bytes::read_le16(d, s + 2),
        })
    } else {
        None
    }
}

/// Payload of a Framework `FormSet` opcode; its GUID stays in the buffer.
pub struct FrFormSetF {
    pub title: u16,
    pub help: u16,
    pub callback: u64,
    pub class: u16,
    pub subclass: u16,
    pub nv_size: u16,
}

pub open spec fn parse_fr_form_set(d: Seq<u8>, s: int, e: int) -> Option<FrFormSetF>
    recommends
        0 <= s <= e <= d.len(),
{
    if e - s >= 34 {
        Some(FrFormSetF {
            title: crate::bytes::le16(d, s + 16),
            help: crate::bytes::le16(d, s + 18),
            callback: crate::bytes::le64(d, s + 20),
            class: crate::bytes::le16(d, s + 28),
            subclass: crate::bytes::le16(d, s + 30),
            nv_size: crate::bytes::le16(d, s + 32),
        })
    } else {
        None
    }
}

pub fn read_fr_form_set(d: &[u8], s: usize, e: usize) -> (r: Option<FrFormSetF>)
    requires
        s <= e,
        e <= d.len(),
    ensures
        r == parse_fr_form_set(d@, s as int, e as int),
{
    if e - s >= 34 {
        Some(FrFormSetF {
            title: crate::bytes::read_le16(d, s + 16),
            help: crate::bytes::read_le16(d, s + 18),
            callback: crate::bytes::read_le64(d, s + 20),
            class: crate::bytes::read_le16(d, s + 28),
            subclass: crate::bytes::read_le16(d, s + 30),
            nv_size: crate::bytes::read_le16(d, s + 32),
        })
    } else {
        None
    }
}

/// Payload of a Framework `Ref`, `SaveDefaults` or `RestoreDefaults` opcode.
pub struct FrRefF {
    pub form_id: u16,
    pub prompt: u16,
    pub help: u16,
    pub flags: u8,
    pub key: u16,
}

pub open spec fn parse_fr_ref(d: Seq<u8>, s: int, e: int) -> Option<FrRefF>
    recommends
        0 <= s <= e <= d.len(),
{
    if e - s >= 9 {
        Some(FrRefF {
            form_id: crate::bytes::le16(d, s),
            prompt: crate::bytes::le16(d, s + 2),
            help: crate::bytes::le16(d, s + 4),
            flags: d[s + 6],
            key: crate::bytes::le16(d, s + 7),
        })
    } else {
        None
    }
}

pub fn read_fr_ref(d: &[u8], s: usize, e: usize) -> (r: Option<FrRefF>)
    requires
        s <= e,
        e <= d.len(),
    ensures
        r == parse_fr_ref(d@, s as int, e as int),
{
    if e - s >= 9 {
        Some(FrRefF {
            form_id: crate::bytes::read_le16(d, s),
            prompt: crate::bytes::read_le16(d, s + 2),
            help: crate::bytes::read_le16(d, s + 4),
            flags: d[s + 6],
            key: crate::bytes::read_le16(d, s + 7),
        })
    } else {
        None
    }
}

/// Payload of a Framework `InconsistentIf` opcode.
pub struct FrIncIfF {
    pub popup: u16,
    pub flags: u8,
}

pub open spec fn parse_fr_inconsistent(d: Seq<u8>, s: int, e: int) -> Option<FrIncIfF>
    recommends
        0 <= s <= e <= d.len(),
{
    if e - s >= 3 {
        Some(FrIncIfF {
            popup: crate::bytes::le16(d, s),
            flags: d[s + 2],
        })
    } else {
        None
    }
}

pub fn read_fr_inconsistent(d: &[u8], s: usize, e: usize) -> (r: Option<FrIncIfF>)
    requires
        s <= e,
        e <= d.len(),
    ensures
        r == parse_fr_inconsistent(d@, s as int, e as int),
{
    if e - s >= 3 {
        Some(FrIncIfF {
            popup: crate::bytes::read_le16(d, s),
            flags: d[s + 2],
        })
    } else {
        None
    }
}

/// Payload of a Framework `EqIdVal` opcode.
pub struct FrEqIdValF {
    pub qid: u16,
    pub width: u8,
    pub value: u16,
}

pub open spec fn parse_fr_eq_id_val(d: Seq<u8>, s: int, e: int) -> Option<FrEqIdValF>
    recommends
        0 <= s <= e <= d.len(),
{
    if e - s >= 5 {
        Some(FrEqIdValF {
            qid: crate::bytes::le16(d, s),
            width: d[s + 2],
            value: crate::bytes::le16(d, s + 3),
        })
    } else {
        None
    }
}

pub fn read_fr_eq_id_val(d: &[u8], s: usize, e: usize) -> (r: Option<FrEqIdValF>)
    requires
        s <= e,
        e <= d.len(),
    ensures
        r == parse_fr_eq_id_val(d@, s as int, e as int),
{
    if e - s >= 5 {
        Some(FrEqIdValF {
            qid: crate::bytes::read_le16(d, s),
            width: d[s + 2],
            value: crate::bytes::read_le16(d, s + 3),
        })
    } else {
        None
    }
}

/// Payload of a Framework `EqIdId` opcode.
pub struct FrEqIdIdF {
    pub qid1: u16,
    pub width: u8,
    pub qid2: u16,
}

pub open spec fn parse_fr_eq_id_id(d: Seq<u8>, s: int, e: int) -> Option<FrEqIdIdF>
    recommends
        0 <= s <= e <= d.len(),
{
    if e - s >= 5 {
        Some(FrEqIdIdF {
            qid1: crate::bytes::le16(d, s),
            width: d[s + 2],
            qid2: crate::bytes::le16(d, s + 3),
        })
    } else {
        None
    }
}

pub fn read_fr_eq_id_id(d: &[u8], s: usize, e: usize) -> (r: Option<FrEqIdIdF>)
    requires
        s <= e,
        e <= d.len(),
    ensures
        r == parse_fr_eq_id_id(d@, s as int, e as int),
{
    if e - s >= 5 {
        Some(FrEqIdIdF {
            qid1: crate::bytes::read_le16(d, s),
            width: d[s + 2],
            qid2: crate::bytes::read_le16(d, s + 3),
        })
    } else {
        None
    }
}

/// Payload of a Framework `String` opcode.
pub struct FrStringF {
    pub qid: u16,
    pub width: u8,
    pub prompt: u16,
    pub help: u16,
    pub flags: u8,
    pub key: u16,
    pub min_size: u8,
    pub max_size: u8,
}

pub open spec fn parse_fr_string(d: Seq<u8>, s: int, e: int) -> Option<FrStringF>
    recommends
        0 <= s <= e <= d.len(),
{
    if e - s >= 12 {
        Some(FrStringF {
            qid: crate::bytes::le16(d, s),
            width: d[s + 2],
            prompt: crate::bytes::le16(d, s + 3),
            help: crate::bytes::le16(d, s + 5),
            flags: d[s + 7],
            key: crate::bytes::le16(d, s + 8),
            min_size: d[s + 10],
            max_size: d[s + 11],
        })
    } else {
        None
    }
}

pub fn read_fr_string(d: &[u8], s: usize, e: usize) -> (r: Option<FrStringF>)
    requires
        s <= e,
        e <= d.len(),
    ensures
        r == parse_fr_string(d@, s as int, e as int),
{
    if e - s >= 12 {
        Some(FrStringF {
            qid: crate::bytes::read_le16(d, s),
            width: d[s + 2],
            prompt: crate::bytes::read_le16(d, s + 3),
            help: crate::bytes::read_le16(d, s + 5),
            flags: d[s + 7],
            key: crate::bytes::read_le16(d, s + 8),
            min_size: d[s + 10],
            max_size: d[s + 11],
        })
    } else {
        None
    }
}

/// Payload of a Framework `Label` opcode.
pub struct FrLabelF {
    pub label_id: u16,
}

pub open spec fn parse_fr_label(d: Seq<u8>, s: int, e: int) -> Option<FrLabelF>
    recommends
        0 <= s <= e <= d.len(),
{
    if e - s >= 2 {
        Some(FrLabelF {
            label_id: crate::bytes::le16(d, s),
        })
    } else {
        None
    }
}

pub fn read_fr_label(d: &[u8], s: usize, e: usize) -> (r: Option<FrLabelF>)
    requires
        s <= e,
        e <= d.len(),
    ensures
        r == parse_fr_label(d@, s as int, e as int),
{
    if e - s >= 2 {
        Some(FrLabelF {
            label_id: crate::bytes::read_le16(d, s),
        })
    } else {
        None
    }
}

/// Payload of a Framework `Banner` opcode.
pub struct FrBannerF {
    pub title: u16,
    pub line: u16,
    pub align: u8,
}

pub open spec fn parse_fr_banner(d: Seq<u8>, s: int, e: int) -> Option<FrBannerF>
    recommends
        0 <= s <= e <= d.len(),
{
    if e - s >= 5 {
        Some(FrBannerF {
            title: crate::bytes::le16(d, s),
            line: crate::bytes::le16(d, s + 2),
            align: d[s + 4],
        })
    } else {
        None
    }
}

pub fn read_fr_banner(d: &[u8], s: usize, e: usize) -> (r: Option<FrBannerF>)
    requires
        s <= e,
        e <= d.len(),
    ensures
        r == parse_fr_banner(d@, s as int, e as int),
{
    if e - s >= 5 {
        Some(FrBannerF {
            title: crate::bytes::read_le16(d, s),
            line: crate::bytes::read_le16(d, s + 2),
            align: d[s + 4],
        })
    } else {
        None
    }
}

/// Payload of a Framework `Inventory` opcode.
pub struct FrInventoryF {
    pub help: u16,
    pub text: u16,
    pub text_two: u16,
}

pub open spec fn parse_fr_inventory(d: Seq<u8>, s: int, e: int) -> Option<FrInventoryF>
    recommends
        0 <= s <= e <= d.len(),
{
    if e - s >= 6 {
        Some(FrInventoryF {
            help: crate::bytes::le16(d, s),
            text: crate::bytes::le16(d, s + 2),
            text_two: crate::bytes::le16(d, s + 4),
        })
    } else {
        None
    }
}

pub fn read_fr_inventory(d: &[u8], s: usize, e: usize) -> (r: Option<FrInventoryF>)
    requires
        s <= e,
        e <= d.len(),
    ensures
        r == parse_fr_inventory(d@, s as int, e as int),
{
    if e - s >= 6 {
        Some(FrInventoryF {
            help: crate::bytes::read_le16(d, s),
            text: crate::bytes::read_le16(d, s + 2),
            text_two: crate::bytes::read_le16(d, s + 4),
        })
    } else {
        None
    }
}

/// Payload of a Framework `EqVarVal` opcode.
pub struct FrEqVarValF {
    pub var_id: u16,
    pub value: u16,
}

pub open spec fn parse_fr_eq_var_val(d: Seq<u8>, s: int, e: int) -> Option<FrEqVarValF>
    recommends
        0 <= s <= e <= d.len(),
{
    if e - s >= 4 {
        Some(FrEqVarValF {
            var_id: crate::bytes::le16(d, s),
            value: crate::bytes::le16(d, s + 2),
        })
    } else {
        None
    }
}

pub fn read_fr_eq_var_val(d: &[u8], s: usize, e: usize) -> (r: Option<FrEqVarValF>)
    requires
        s <= e,
        e <= d.len(),
    ensures
        r == parse_fr_eq_var_val(d@, s as int, e as int),
{
    if e - s >= 4 {
        Some(FrEqVarValF {
            var_id: crate::bytes::read_le16(d, s),
            value: crate::bytes::read_le16(d, s + 2),
        })
    } else {
        None
    }
}

/// Payload of a Framework `OrderedList` opcode.
pub struct FrOrderedF {
    pub qid: u16,
    pub max_entries: u8,
    pub prompt: u16,
    pub help: u16,
}

pub open spec fn parse_fr_ordered_list(d: Seq<u8>, s: int, e: int) -> Option<FrOrderedF>
    recommends
        0 <= s <= e <= d.len(),
{
    if e - s >= 7 {
        Some(FrOrderedF {
            qid: crate::bytes::le16(d, s),
            max_entries: d[s + 2],
            prompt: crate::bytes::le16(d, s + 3),
            help: crate::bytes::le16(d, s + 5),
        })
    } else {
        None
    }
}

pub fn read_fr_ordered_list(d: &[u8], s: usize, e: usize) -> (r: Option<FrOrderedF>)
    requires
        s <= e,
        e <= d.len(),
    ensures
        r == parse_fr_ordered_list(d@, s as int, e as int),
{
    if e - s >= 7 {
        Some(FrOrderedF {
            qid: crate::bytes::read_le16(d, s),
            max_entries: d[s + 2],
            prompt: crate::bytes::read_le16(d, s + 3),
            help: crate::bytes::read_le16(d, s + 5),
        })
    } else {
        None
    }
}

/// Payload of a Framework `VarStoreSelect` opcode.
pub struct FrVsSelF {
    pub vsid: u16,
}

pub open spec fn parse_fr_vs_select(d: Seq<u8>, s: int, e: int) -> Option<FrVsSelF>
    recommends
        0 <= s <= e <= d.len(),
{
    if e - s >= 2 {
        Some(FrVsSelF {
            vsid: crate::bytes::le16(d, s),
        })
    } else {
        None
    }
}

pub fn read_fr_vs_select(d: &[u8], s: usize, e: usize) -> (r: Option<FrVsSelF>)
    requires
        s <= e,
        e <= d.len(),
    ensures
        r == parse_fr_vs_select(d@, s as int, e as int),
{
    if e - s >= 2 {
        Some(FrVsSelF {
            vsid: crate::bytes::read_le16(d, s),
        })
    } else {
        None
    }
}

/// Payload of a Framework `VarStoreSelectPair` opcode.
pub struct FrVsSelPairF {
    pub vsid: u16,
    pub secondary: u16,
}

pub open spec fn parse_fr_vs_select_pair(d: Seq<u8>, s: int, e: int) -> Option<FrVsSelPairF>
    recommends
        0 <= s <= e <= d.len(),
{
    if e - s >= 4 {
        Some(FrVsSelPairF {
            vsid: crate::bytes::le16(d, s),
            secondary: crate::bytes::le16(d, s + 2),
        })
    } else {
        None
    }
}

pub fn read_fr_vs_select_pair(d: &[u8], s: usize, e: usize) -> (r: Option<FrVsSelPairF>)
    requires
        s <= e,
        e <= d.len(),
    ensures
        r == parse_fr_vs_select_pair(d@, s as int, e as int),
{
    if e - s >= 4 {
        Some(FrVsSelPairF {
            vsid: crate::bytes::read_le16(d, s),
            secondary: crate::bytes::read_le16(d, s + 2),
        })
    } else {
        None
    }
}
/// The `n` little-endian 16-bit values starting at `s`.
pub open spec fn u16_list(d: Seq<u8>, s: int, n: int) -> Seq<u16> {
    Seq::new(n as nat, |i: int| crate::bytes::le16(d, s + 2 * i))
}

/// Header fields of a Framework `EqIdList` payload: question, width, and
/// the declared element count, which must fit the payload.
pub open spec fn parse_fr_eq_id_list_hdr(d: Seq<u8>, s: int, e: int) -> Option<(u16, u8, u16)>
    recommends
        0 <= s <= e <= d.len(),
{
    if e - s >= 5 && e - s >= 5 + 2 * (crate::bytes::le16(d, s + 3) as int) {
        Some((crate::bytes::le16(d, s), d[s + 2], crate::bytes::le16(d, s + 3)))
    } else {
        None
    }
}

/// Payload of a Framework `EqIdList` opcode.
pub struct FrEqIdListF {
    pub qid: u16,
    pub width: u8,
    pub count: u16,
    pub list: Vec<u16>,
}

#[verifier::loop_isolation(false)]
pub fn read_fr_eq_id_list(d: &[u8], s: usize, e: usize) -> (r: Option<FrEqIdListF>)
    requires
        s <= e,
        e <= d.len(),
    ensures
        match r {
            Some(x) => parse_fr_eq_id_list_hdr(d@, s as int, e as int) == Some(
                (x.qid, x.width, x.count),
            ) && x.list@ == u16_list(d@, s as int + 5, x.count as int),
            None => parse_fr_eq_id_list_hdr(d@, s as int, e as int) is None,
        },
{
    if e - s < 5 {
        return None;
    }
    let count = crate::bytes::read_le16(d, s + 3);
    if (e - s - 5) / 2 < count as usize {
        return None;
    }
    let mut list: Vec<u16> = Vec::new();
    let mut k: usize = 0;
    proof {
        assert(list@ =~= u16_list(d@, s as int + 5, 0));
    }
    while k < count as usize
        invariant
            k <= count as usize,
            list@ == u16_list(d@, s as int + 5, k as int),
        decreases count as usize - k,
    {
        list.push(crate::bytes::read_le16(d, s + 5 + 2 * k));
        k = k + 1;
        proof {
            assert(list@ =~= u16_list(d@, s as int + 5, k as int));
        }
    }
    Some(FrEqIdListF { qid: crate::bytes::read_le16(d, s), width: d[s + 2], count, list })
}

/// The opcode frame at `pos` in `[pos, end)`: its opcode and on-wire
/// length (header included), when a well-formed frame starts there.
pub open spec fn fr_op_at(d: Seq<u8>, pos: int, end: int) -> Option<(FrOpcode, int)> {
    if 0 <= pos && pos + 2 <= end && end <= d.len() {
        let ln = d[pos + 1] as int;
        if 2 <= ln && pos + ln <= end {
            Some((fr_spec_decode_op(d[pos]), ln))
        } else {
            None
        }
    } else {
        None
    }
}

/// Reads the opcode frame at `pos`, if one is well formed.
pub fn read_fr_op(d: &[u8], pos: usize, end: usize) -> (r: Option<(FrOpcode, usize)>)
    requires
        end <= d.len(),
    ensures
        match r {
            Some(t) => fr_op_at(d@, pos as int, end as int) == Some((t.0, t.1 as int)) && 2 <= t.1
                && pos + t.1 <= end,
            None => fr_op_at(d@, pos as int, end as int) is None,
        },
{
    if pos <= end && end - pos >= 2 {
        let ln = d[pos + 1] as usize;
        if 2 <= ln && ln <= end - pos {
            Some((fr_decode_op(d[pos]), ln))
        } else {
            None
        }
    } else {
        None
    }
}

/// The string identifiers one Framework opcode's payload references, in
/// the order the payload lists them.
pub open spec fn fr_op_ids(d: Seq<u8>, op: FrOpcode, s: int, e: int) -> Seq<u16>
    recommends
        0 <= s <= e <= d.len(),
{
    match op {
        FrOpcode::Form => match parse_fr_form(d, s, e) {
            Some(x) => seq![x.title],
            None => Seq::empty(),
        },
        FrOpcode::Subtitle => match parse_fr_subtitle(d, s, e) {
            Some(x) => seq![x.sub],
            None => Seq::empty(),
        },
        FrOpcode::Text => match parse_fr_text(d, s, e) {
            Some(x) => seq![x.help, x.text, x.text_two],
            None => Seq::empty(),
        },
        FrOpcode::OneOf => match parse_fr_one_of(d, s, e) {
            Some(x) => seq![x.prompt, x.help],
            None => Seq::empty(),
        },
        FrOpcode::CheckBox => match parse_fr_check_box(d, s, e) {
            Some(x) => seq![x.prompt, x.help],
            None => Seq::empty(),
        },
        FrOpcode::Numeric => match parse_fr_numeric(d, s, e) {
            Some(x) => seq![x.prompt, x.help],
            None => Seq::empty(),
        },
        FrOpcode::Password => match parse_fr_password(d, s, e) {
            Some(x) => seq![x.prompt, x.help],
            None => Seq::empty(),
        },
        FrOpcode::OneOfOption => match parse_fr_one_of_option(d, s, e) {
            Some(x) => seq![x.option],
            None => Seq::empty(),
        },
        FrOpcode::FormSet => match parse_fr_form_set(d, s, e) {
            Some(x) => seq![x.title, x.help],
            None => Seq::empty(),
        },
        FrOpcode::Ref => match parse_fr_ref(d, s, e) {
            Some(x) => seq![x.prompt, x.help],
            None => Seq::empty(),
        },
        FrOpcode::InconsistentIf => match parse_fr_inconsistent(d, s, e) {
            Some(x) => seq![x.popup],
            None => Seq::empty(),
        },
        FrOpcode::Date => match parse_fr_numeric(d, s, e) {
            Some(x) => seq![x.prompt, x.help],
            None => Seq::empty(),
        },
        FrOpcode::Time => match parse_fr_numeric(d, s, e) {
            Some(x) => seq![x.prompt, x.help],
            None => Seq::empty(),
        },
        FrOpcode::StringOp => match parse_fr_string(d, s, e) {
            Some(x) => seq![x.prompt, x.help],
            None => Seq::empty(),
        },
        FrOpcode::SaveDefaults => match parse_fr_ref(d, s, e) {
            Some(x) => seq![x.prompt, x.help],
            None => Seq::empty(),
        },
        FrOpcode::RestoreDefaults => match parse_fr_ref(d, s, e) {
            Some(x) => seq![x.prompt, x.help],
            None => Seq::empty(),
        },
        FrOpcode::Banner => match parse_fr_banner(d, s, e) {
            Some(x) => seq![x.title],
            None => Seq::empty(),
        },
        FrOpcode::Inventory => match parse_fr_inventory(d, s, e) {
            Some(x) => seq![x.help, x.text, x.text_two],
            None => Seq::empty(),
        },
        FrOpcode::OrderedList => match parse_fr_ordered_list(d, s, e) {
            Some(x) => seq![x.prompt, x.help],
            None => Seq::empty(),
        },
        _ => Seq::empty(),
    }
}

/// Appends to `ids` every string identifier the opcode's payload references.
pub fn push_fr_op_ids(ids: &mut Vec<u16>, d: &[u8], op: FrOpcode, s: usize, e: usize)
    requires
        s <= e,
        e <= d.len(),
    ensures
        final(ids)@ == old(ids)@ + fr_op_ids(d@, op, s as int, e as int),
{
    let ghost target = old(ids)@ + fr_op_ids(d@, op, s as int, e as int);
    match op {
        FrOpcode::Form => {
            if let Some(x) = read_fr_form(d, s, e) {
                ids.push(x.title);
            }
        },
        FrOpcode::Subtitle => {
            if let Some(x) = read_fr_subtitle(d, s, e) {
                ids.push(x.sub);
            }
        },
        FrOpcode::Text => {
            if let Some(x) = read_fr_text(d, s, e) {
                ids.push(x.help);
                ids.push(x.text);
                ids.push(x.text_two);
            }
        },
        FrOpcode::OneOf => {
            if let Some(x) = read_fr_one_of(d, s, e) {
                ids.push(x.prompt);
                ids.push(x.help);
            }
        },
        FrOpcode::CheckBox => {
            if let Some(x) = read_fr_check_box(d, s, e) {
                ids.push(x.prompt);
                ids.push(x.help);
            }
        },
        FrOpcode::Numeric => {
            if let Some(x) = read_fr_numeric(d, s, e) {
                ids.push(x.prompt);
                ids.push(x.help);
            }
        },
        FrOpcode::Password => {
            if let Some(x) = read_fr_password(d, s, e) {
                ids.push(x.prompt);
                ids.push(x.help);
            }
        },
        FrOpcode::OneOfOption => {
            if let Some(x) = read_fr_one_of_option(d, s, e) {
                ids.push(x.option);
            }
        },
        FrOpcode::FormSet => {
            if let Some(x) = read_fr_form_set(d, s, e) {
                ids.push(x.title);
                ids.push(x.help);
            }
        },
        FrOpcode::Ref => {
            if let Some(x) = read_fr_ref(d, s, e) {
                ids.push(x.prompt);
                ids.push(x.help);
            }
        },
        FrOpcode::InconsistentIf => {
            if let Some(x) = read_fr_inconsistent(d, s, e) {
                ids.push(x.popup);
            }
        },
        FrOpcode::Date => {
            if let Some(x) = read_fr_numeric(d, s, e) {
                ids.push(x.prompt);
                ids.push(x.help);
            }
        },
        FrOpcode::Time => {
            if let Some(x) = read_fr_numeric(d, s, e) {
                ids.push(x.prompt);
                ids.push(x.help);
            }
        },
        FrOpcode::StringOp => {
            if let Some(x) = read_fr_string(d, s, e) {
                ids.push(x.prompt);
                ids.push(x.help);
            }
        },
        FrOpcode::SaveDefaults => {
            if let Some(x) = read_fr_ref(d, s, e) {
                ids.push(x.prompt);
                ids.push(x.help);
            }
        },
        FrOpcode::RestoreDefaults => {
            if let Some(x) = read_fr_ref(d, s, e) {
                ids.push(x.prompt);
                ids.push(x.help);
            }
        },
        FrOpcode::Banner => {
            if let Some(x) = read_fr_banner(d, s, e) {
                ids.push(x.title);
            }
        },
        FrOpcode::Inventory => {
            if let Some(x) = read_fr_inventory(d, s, e) {
                ids.push(x.help);
                ids.push(x.text);
                ids.push(x.text_two);
            }
        },
        FrOpcode::OrderedList => {
            if let Some(x) = read_fr_ordered_list(d, s, e) {
                ids.push(x.prompt);
                ids.push(x.help);
            }
        },
        _ => {},
    }
    proof {
        assert(ids@ =~= target);
    }
}

/// Whether the whole of `[pos, end)` splits into well-formed opcode frames.
pub open spec fn fr_ops_ok(d: Seq<u8>, pos: int, end: int) -> bool
    decreases end - pos,
{
    if pos == end {
        true
    } else {
        match fr_op_at(d, pos, end) {
            Some((op, ln)) => fr_ops_ok(d, pos + ln, end),
            None => false,
        }
    }
}

/// Every string identifier referenced from the opcode frames of
/// `[pos, end)`, in stream order, stopping at the first malformed frame.
pub open spec fn fr_ids_in_ops(d: Seq<u8>, pos: int, end: int) -> Seq<u16>
    decreases end - pos,
{
    match fr_op_at(d, pos, end) {
        Some((op, ln)) => fr_op_ids(d, op, pos + 2, pos + ln) + fr_ids_in_ops(d, pos + ln, end),
        None => Seq::empty(),
    }
}

/// Walks the opcode stream of a Framework form package body. Returns the
/// referenced string identifiers exactly when every frame is well formed.
pub fn fr_collect_form_ids(d: &[u8], s: usize, e: usize) -> (r: Option<Vec<u16>>)
    requires
        s <= e,
        e <= d.len(),
    ensures
        match r {
            Some(v) => fr_ops_ok(d@, s as int, e as int) && v@ == fr_ids_in_ops(
                d@,
                s as int,
                e as int,
            ),
            None => !fr_ops_ok(d@, s as int, e as int),
        },
{
    let mut ids: Vec<u16> = Vec::new();
    let mut pos: usize = s;
    proof {
        assert(ids@ + fr_ids_in_ops(d@, s as int, e as int) =~= fr_ids_in_ops(
            d@,
            s as int,
            e as int,
        ));
    }
    while pos < e
        invariant
            s <= pos <= e,
            e <= d.len(),
            fr_ops_ok(d@, s as int, e as int) == fr_ops_ok(d@, pos as int, e as int),
            ids@ + fr_ids_in_ops(d@, pos as int, e as int) == fr_ids_in_ops(
                d@,
                s as int,
                e as int,
            ),
        decreases e - pos,
    {
        match read_fr_op(d, pos, e) {
            Some((op, ln)) => {
                let ghost prev = ids@;
                let ghost pp = pos as int;
                push_fr_op_ids(&mut ids, d, op, pos + 2, pos + ln);
                pos = pos + ln;
                proof {
                    assert(ids@ + fr_ids_in_ops(d@, pos as int, e as int) =~= prev
                        + fr_ids_in_ops(d@, pp, e as int));
                }
            },
            None => {
                return None;
            },
        }
    }
    proof {
        assert(fr_ids_in_ops(d@, pos as int, e as int) =~= Seq::<u16>::empty());
        assert(ids@ =~= fr_ids_in_ops(d@, s as int, e as int));
    }
    Some(ids)
}

} // verus!
