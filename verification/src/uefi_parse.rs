//! Parsing of the UEFI IFR opcode stream: opcode framing, the payload
//! layouts of the opcodes that carry string references, and the collection
//! of every string identifier a form package's stream references.

use vstd::prelude::*;
use crate::uefi_ops::IfrOpcode;
use crate::uefi_ops::spec_decode_op;
use crate::uefi_ops::decode_op;

verus! {

/// The question header shared by UEFI question opcodes.
pub struct QHdr {
    pub prompt: u16,
    pub help: u16,
    pub qid: u16,
    pub vsid: u16,
    pub vinfo: u16,
    pub qflags: u8,
}

pub open spec fn parse_qhdr(d: Seq<u8>, s: int, e: int) -> Option<QHdr>
    recommends
        0 <= s <= e <= d.len(),
{
    if e - s >= 11 {
        Some(QHdr {
            prompt: crate::bytes::le16(d, s),
            help: crate::bytes::le16(d, s + 2),
            qid: crate::bytes::le16(d, s + 4),
            vsid: crate::bytes::le16(d, s + 6),
            vinfo: crate::bytes::le16(d, s + 8),
            qflags: d[s + 10],
        })
    } else {
        None
    }
}

pub fn read_qhdr(d: &[u8], s: usize, e: usize) -> (r: Option<QHdr>)
    requires
        s <= e,
        e <= d.len(),
    ensures
        r == parse_qhdr(d@, s as int, e as int),
{
    if e - s >= 11 {
        Some(QHdr {
            prompt: crate::bytes::read_le16(d, s),
            help: crate::bytes::read_le16(d, s + 2),
            qid: crate::bytes::read_le16(d, s + 4),
            vsid: crate::bytes::read_le16(d, s + 6),
            vinfo: crate::bytes::read_le16(d, s + 8),
            qflags: d[s + 10],
        })
    } else {
        None
    }
}

/// Payload of a `Form` opcode.
pub struct FormF {
    pub form_id: u16,
    pub title: u16,
}

pub open spec fn parse_form(d: Seq<u8>, s: int, e: int) -> Option<FormF>
    recommends
        0 <= s <= e <= d.len(),
{
    if e - s >= 4 {
        Some(FormF {
            form_id: crate::bytes::le16(d, s),
            title: crate::bytes::le16(d, s + 2),
        })
    } else {
        None
    }
}

pub fn read_form(d: &[u8], s: usize, e: usize) -> (r: Option<FormF>)
    requires
        s <= e,
        e <= d.len(),
    ensures
        r == parse_form(d@, s as int, e as int),
{
    if e - s >= 4 {
        Some(FormF {
            form_id: crate::bytes::read_le16(d, s),
            title: crate::bytes::read_le16(d, s + 2),
        })
    } else {
        None
    }
}

/// Payload of a `Subtitle` opcode.
pub struct SubtitleF {
    pub prompt: u16,
    pub help: u16,
    pub flags: u8,
}

pub open spec fn parse_subtitle(d: Seq<u8>, s: int, e: int) -> Option<SubtitleF>
    recommends
        0 <= s <= e <= d.len(),
{
    if e - s >= 5 {
        Some(SubtitleF {
            prompt: crate::bytes::le16(d, s),
            help: crate::bytes::le16(d, s + 2),
            flags: d[s + 4],
        })
    } else {
        None
    }
}

pub fn read_subtitle(d: &[u8], s: usize, e: usize) -> (r: Option<SubtitleF>)
    requires
        s <= e,
        e <= d.len(),
    ensures
        r == parse_subtitle(d@, s as int, e as int),
{
    if e - s >= 5 {
        Some(SubtitleF {
            prompt: crate::bytes::read_le16(d, s),
            help: crate::bytes::read_le16(d, s + 2),
            flags: d[s + 4],
        })
    } else {
        None
    }
}

/// Payload of a `Text` opcode.
pub struct TextF {
    pub prompt: u16,
    pub help: u16,
    pub text: u16,
}

pub open spec fn parse_text(d: Seq<u8>, s: int, e: int) -> Option<TextF>
    recommends
        0 <= s <= e <= d.len(),
{
    if e - s >= 6 {
        Some(TextF {
            prompt: crate::bytes::le16(d, s),
            help: crate::bytes::le16(d, s + 2),
            text: crate::bytes::le16(d, s + 4),
        })
    } else {
        None
    }
}

pub fn read_text(d: &[u8], s: usize, e: usize) -> (r: Option<TextF>)
    requires
        s <= e,
        e <= d.len(),
    ensures
        r == parse_text(d@, s as int, e as int),
{
    if e - s >= 6 {
        Some(TextF {
            prompt: crate::bytes::read_le16(d, s),
            help: crate::bytes::read_le16(d, s + 2),
            text: crate::bytes::read_le16(d, s + 4),
        })
    } else {
        None
    }
}

/// Payload of an `Image` opcode.
pub struct ImageF {
    pub image_id: u16,
}

pub open spec fn parse_image(d: Seq<u8>, s: int, e: int) -> Option<ImageF>
    recommends
        0 <= s <= e <= d.len(),
{
    if e - s >= 2 {
        Some(ImageF {
            image_id: crate::bytes::le16(d, s),
        })
    } else {
        None
    }
}

pub fn read_image(d: &[u8], s: usize, e: usize) -> (r: Option<ImageF>)
    requires
        s <= e,
        e <= d.len(),
    ensures
        r == parse_image(d@, s as int, e as int),
{
    if e - s >= 2 {
        Some(ImageF {
            image_id: crate::bytes::read_le16(d, s),
        })
    } else {
        None
    }
}

/// Payload of a `ResetButton` opcode.
pub struct ResetF {
    pub prompt: u16,
    pub help: u16,
    pub default_id: u16,
}

pub open spec fn parse_reset(d: Seq<u8>, s: int, e: int) -> Option<ResetF>
    recommends
        0 <= s <= e <= d.len(),
{
    if e - s >= 6 {
        Some(ResetF {
            prompt: crate::bytes::le16(d, s),
            help: crate::bytes::le16(d, s + 2),
            default_id: crate::bytes::le16(d, s + 4),
        })
    } else {
        None
    }
}

pub fn read_reset(d: &[u8], s: usize, e: usize) -> (r: Option<ResetF>)
    requires
        s <= e,
        e <= d.len(),
    ensures
        r == parse_reset(d@, s as int, e as int),
{
    if e - s >= 6 {
        Some(ResetF {
            prompt: crate::bytes::read_le16(d, s),
            help: crate::bytes::read_le16(d, s + 2),
            default_id: crate::bytes::read_le16(d, s + 4),
        })
    } else {
        None
    }
}

/// Payload of a `NoSubmitIf` or `InconsistentIf` opcode.
pub struct ErrIfF {
    pub err: u16,
}

pub open spec fn parse_err_if(d: Seq<u8>, s: int, e: int) -> Option<ErrIfF>
    recommends
        0 <= s <= e <= d.len(),
{
    if e - s >= 2 {
        Some(ErrIfF {
            err: crate::bytes::le16(d, s),
        })
    } else {
        None
    }
}

pub fn read_err_if(d: &[u8], s: usize, e: usize) -> (r: Option<ErrIfF>)
    requires
        s <= e,
        e <= d.len(),
    ensures
        r == parse_err_if(d@, s as int, e as int),
{
    if e - s >= 2 {
        Some(ErrIfF {
            err: crate::bytes::read_le16(d, s),
        })
    } else {
        None
    }
}

/// Payload of a `WarningIf` opcode.
pub struct WarnIfF {
    pub warn: u16,
    pub timeout: u8,
}

pub open spec fn parse_warn_if(d: Seq<u8>, s: int, e: int) -> Option<WarnIfF>
    recommends
        0 <= s <= e <= d.len(),
{
    if e - s >= 3 {
        Some(WarnIfF {
            warn: crate::bytes::le16(d, s),
            timeout: d[s + 2],
        })
    } else {
        None
    }
}

pub fn read_warn_if(d: &[u8], s: usize, e: usize) -> (r: Option<WarnIfF>)
    requires
        s <= e,
        e <= d.len(),
    ensures
        r == parse_warn_if(d@, s as int, e as int),
{
    if e - s >= 3 {
        Some(WarnIfF {
            warn: crate::bytes::read_le16(d, s),
            timeout: d[s + 2],
        })
    } else {
        None
    }
}

/// Payload of a `VarStoreDevice` opcode.
pub struct DevPathF {
    pub dp: u16,
}

pub open spec fn parse_dev_path(d: Seq<u8>, s: int, e: int) -> Option<DevPathF>
    recommends
        0 <= s <= e <= d.len(),
{
    if e - s >= 2 {
        Some(DevPathF {
            dp: crate::bytes::le16(d, s),
        })
    } else {
        None
    }
}

pub fn read_dev_path(d: &[u8], s: usize, e: usize) -> (r: Option<DevPathF>)
    requires
        s <= e,
        e <= d.len(),
    ensures
        r == parse_dev_path(d@, s as int, e as int),
{
    if e - s >= 2 {
        Some(DevPathF {
            dp: crate::bytes::read_le16(d, s),
        })
    } else {
        None
    }
}

/// Payload of a `StringRef1` opcode.
pub struct StrRef1F {
    pub sid: u16,
}

pub open spec fn parse_str_ref1(d: Seq<u8>, s: int, e: int) -> Option<StrRef1F>
    recommends
        0 <= s <= e <= d.len(),
{
    if e - s >= 2 {
        Some(StrRef1F {
            sid: crate::bytes::le16(d, s),
        })
    } else {
        None
    }
}

pub fn read_str_ref1(d: &[u8], s: usize, e: usize) -> (r: Option<StrRef1F>)
    requires
        s <= e,
        e <= d.len(),
    ensures
        r == parse_str_ref1(d@, s as int, e as int),
{
    if e - s >= 2 {
        Some(StrRef1F {
            sid: crate::bytes::read_le16(d, s),
        })
    } else {
        None
    }
}

/// Payload of a `DefaultStore` opcode.
pub struct DefaultStoreF {
    pub name: u16,
    pub default_id: u16,
}

pub open spec fn parse_default_store(d: Seq<u8>, s: int, e: int) -> Option<DefaultStoreF>
    recommends
        0 <= s <= e <= d.len(),
{
    if e - s >= 4 {
        Some(DefaultStoreF {
            name: crate::bytes::le16(d, s),
            default_id: crate::bytes::le16(d, s + 2),
        })
    } else {
        None
    }
}

pub fn read_default_store(d: &[u8], s: usize, e: usize) -> (r: Option<DefaultStoreF>)
    requires
        s <= e,
        e <= d.len(),
    ensures
        r == parse_default_store(d@, s as int, e as int),
{
    if e - s >= 4 {
        Some(DefaultStoreF {
            name: crate::bytes::read_le16(d, s),
            default_id: crate::bytes::read_le16(d, s + 2),
        })
    } else {
        None
    }
}

/// String fields of a `FormSet` opcode; its GUID stays in the buffer.
pub struct FormSetF {
    pub title: u16,
    pub help: u16,
}

pub open spec fn parse_form_set(d: Seq<u8>, s: int, e: int) -> Option<FormSetF>
    recommends
        0 <= s <= e <= d.len(),
{
    if e - s >= 20 {
        Some(FormSetF {
            title: crate::bytes::le16(d, s + 16),
            help: crate::bytes::le16(d, s + 18),
        })
    } else {
        None
    }
}

pub fn read_form_set(d: &[u8], s: usize, e: usize) -> (r: Option<FormSetF>)
    requires
        s <= e,
        e <= d.len(),
    ensures
        r == parse_form_set(d@, s as int, e as int),
{
    if e - s >= 20 {
        Some(FormSetF {
            title: crate::bytes::read_le16(d, s + 16),
            help: crate::bytes::read_le16(d, s + 18),
        })
    } else {
        None
    }
}
/// Payload of a `CheckBox` opcode.
pub struct CheckBoxF {
    pub q: QHdr,
    pub flags: u8,
}

pub open spec fn parse_check_box(d: Seq<u8>, s: int, e: int) -> Option<CheckBoxF>
    recommends
        0 <= s <= e <= d.len(),
{
    match parse_qhdr(d, s, e) {
        Some(q) => if e - s >= 12 {
            Some(CheckBoxF { q, flags: d[s + 11] })
        } else {
            None
        },
        None => None,
    }
}

pub fn read_check_box(d: &[u8], s: usize, e: usize) -> (r: Option<CheckBoxF>)
    requires
        s <= e,
        e <= d.len(),
    ensures
        r == parse_check_box(d@, s as int, e as int),
{
    match read_qhdr(d, s, e) {
        Some(q) => if e - s >= 12 {
            Some(CheckBoxF { q, flags: d[s + 11] })
        } else {
            None
        },
        None => None,
    }
}

/// Payload of a `Password` opcode.
pub struct PasswordF {
    pub q: QHdr,
    pub min_size: u16,
    pub max_size: u16,
}

pub open spec fn parse_password(d: Seq<u8>, s: int, e: int) -> Option<PasswordF>
    recommends
        0 <= s <= e <= d.len(),
{
    match parse_qhdr(d, s, e) {
        Some(q) => if e - s >= 15 {
            Some(
                PasswordF {
                    q,
                    min_size: crate::bytes::le16(d, s + 11),
                    max_size: crate::bytes::le16(d, s + 13),
                },
            )
        } else {
            None
        },
        None => None,
    }
}

pub fn read_password(d: &[u8], s: usize, e: usize) -> (r: Option<PasswordF>)
    requires
        s <= e,
        e <= d.len(),
    ensures
        r == parse_password(d@, s as int, e as int),
{
    match read_qhdr(d, s, e) {
        Some(q) => if e - s >= 15 {
            Some(
                PasswordF {
                    q,
                    min_size: crate::bytes::read_le16(d, s + 11),
                    max_size: crate::bytes::read_le16(d, s + 13),
                },
            )
        } else {
            None
        },
        None => None,
    }
}

/// Payload of a `Date` or `Time` opcode.
pub struct DateTimeF {
    pub q: QHdr,
    pub flags: u8,
}

pub open spec fn parse_date_time(d: Seq<u8>, s: int, e: int) -> Option<DateTimeF>
    recommends
        0 <= s <= e <= d.len(),
{
    match parse_qhdr(d, s, e) {
        Some(q) => if e - s >= 12 {
            Some(DateTimeF { q, flags: d[s + 11] })
        } else {
            None
        },
        None => None,
    }
}

pub fn read_date_time(d: &[u8], s: usize, e: usize) -> (r: Option<DateTimeF>)
    requires
        s <= e,
        e <= d.len(),
    ensures
        r == parse_date_time(d@, s as int, e as int),
{
    match read_qhdr(d, s, e) {
        Some(q) => if e - s >= 12 {
            Some(DateTimeF { q, flags: d[s + 11] })
        } else {
            None
        },
        None => None,
    }
}

/// Payload of a `String` opcode.
pub struct StringQF {
    pub q: QHdr,
    pub min_size: u8,
    pub max_size: u8,
    pub flags: u8,
}

pub open spec fn parse_string_q(d: Seq<u8>, s: int, e: int) -> Option<StringQF>
    recommends
        0 <= s <= e <= d.len(),
{
    match parse_qhdr(d, s, e) {
        Some(q) => if e - s >= 14 {
            Some(StringQF { q, min_size: d[s + 11], max_size: d[s + 12], flags: d[s + 13] })
        } else {
            None
        },
        None => None,
    }
}

pub fn read_string_q(d: &[u8], s: usize, e: usize) -> (r: Option<StringQF>)
    requires
        s <= e,
        e <= d.len(),
    ensures
        r == parse_string_q(d@, s as int, e as int),
{
    match read_qhdr(d, s, e) {
        Some(q) => if e - s >= 14 {
            Some(StringQF { q, min_size: d[s + 11], max_size: d[s + 12], flags: d[s + 13] })
        } else {
            None
        },
        None => None,
    }
}

/// Payload of an `OrderedList` opcode.
pub struct OrderedF {
    pub q: QHdr,
    pub max_containers: u8,
    pub flags: u8,
}

pub open spec fn parse_ordered(d: Seq<u8>, s: int, e: int) -> Option<OrderedF>
    recommends
        0 <= s <= e <= d.len(),
{
    match parse_qhdr(d, s, e) {
        Some(q) => if e - s >= 13 {
            Some(OrderedF { q, max_containers: d[s + 11], flags: d[s + 12] })
        } else {
            None
        },
        None => None,
    }
}

pub fn read_ordered(d: &[u8], s: usize, e: usize) -> (r: Option<OrderedF>)
    requires
        s <= e,
        e <= d.len(),
    ensures
        r == parse_ordered(d@, s as int, e as int),
{
    match read_qhdr(d, s, e) {
        Some(q) => if e - s >= 13 {
            Some(OrderedF { q, max_containers: d[s + 11], flags: d[s + 12] })
        } else {
            None
        },
        None => None,
    }
}

/// Payload of an `Action` opcode; the configuration string is optional.
pub struct ActionF {
    pub q: QHdr,
    pub config: Option<u16>,
}

pub open spec fn parse_action(d: Seq<u8>, s: int, e: int) -> Option<ActionF>
    recommends
        0 <= s <= e <= d.len(),
{
    match parse_qhdr(d, s, e) {
        Some(q) => Some(
            ActionF {
                q,
                config: if e - s >= 13 {
                    Some(crate::bytes::le16(d, s + 11))
                } else {
                    None
                },
            },
        ),
        None => None,
    }
}

pub fn read_action(d: &[u8], s: usize, e: usize) -> (r: Option<ActionF>)
    requires
        s <= e,
        e <= d.len(),
    ensures
        r == parse_action(d@, s as int, e as int),
{
    match read_qhdr(d, s, e) {
        Some(q) => Some(
            ActionF {
                q,
                config: if e - s >= 13 {
                    Some(crate::bytes::read_le16(d, s + 11))
                } else {
                    None
                },
            },
        ),
        None => None,
    }
}

/// Payload of a `Ref` opcode.
pub struct RefF {
    pub q: QHdr,
    pub form_id: u16,
}

pub open spec fn parse_ref(d: Seq<u8>, s: int, e: int) -> Option<RefF>
    recommends
        0 <= s <= e <= d.len(),
{
    match parse_qhdr(d, s, e) {
        Some(q) => if e - s >= 13 {
            Some(RefF { q, form_id: crate::bytes::le16(d, s + 11) })
        } else {
            None
        },
        None => None,
    }
}

pub fn read_ref(d: &[u8], s: usize, e: usize) -> (r: Option<RefF>)
    requires
        s <= e,
        e <= d.len(),
    ensures
        r == parse_ref(d@, s as int, e as int),
{
    match read_qhdr(d, s, e) {
        Some(q) => if e - s >= 13 {
            Some(RefF { q, form_id: crate::bytes::read_le16(d, s + 11) })
        } else {
            None
        },
        None => None,
    }
}

/// Payload of a `QuestionRef3` opcode: a device-path string is present
/// only in the longer layouts.
pub struct QRef3F {
    pub dp: Option<u16>,
}

pub open spec fn parse_qref3(d: Seq<u8>, s: int, e: int) -> Option<QRef3F>
    recommends
        0 <= s <= e <= d.len(),
{
    if e - s == 0 {
        Some(QRef3F { dp: None })
    } else if e - s >= 2 {
        Some(QRef3F { dp: Some(crate::bytes::le16(d, s)) })
    } else {
        None
    }
}

pub fn read_qref3(d: &[u8], s: usize, e: usize) -> (r: Option<QRef3F>)
    requires
        s <= e,
        e <= d.len(),
    ensures
        r == parse_qref3(d@, s as int, e as int),
{
    if e - s == 0 {
        Some(QRef3F { dp: None })
    } else if e - s >= 2 {
        Some(QRef3F { dp: Some(crate::bytes::read_le16(d, s)) })
    } else {
        None
    }
}

/// A typed IFR value, as found in `OneOfOption` and `Default` payloads.
pub enum TypeVal {
    U8(u8),
    U16(u16),
    U32(u32),
    U64(u64),
    Bool(u8),
    TimeV(u8, u8, u8),
    DateV(u16, u8, u8),
    StrId(u16),
    ActionId(u16),
    Other,
}

pub open spec fn parse_typeval(d: Seq<u8>, s: int, e: int, kind: u8) -> Option<TypeVal>
    recommends
        0 <= s <= e <= d.len(),
{
    if kind == 0 {
        if e - s >= 1 {
            Some(TypeVal::U8(d[s]))
        } else {
            None
        }
    } else if kind == 1 {
        if e - s >= 2 {
            Some(TypeVal::U16(crate::bytes::le16(d, s)))
        } else {
            None
        }
    } else if kind == 2 {
        if e - s >= 4 {
            Some(TypeVal::U32(crate::bytes::le32(d, s)))
        } else {
            None
        }
    } else if kind == 3 {
        if e - s >= 8 {
            Some(TypeVal::U64(crate::bytes::le64(d, s)))
        } else {
            None
        }
    } else if kind == 4 {
        if e - s >= 1 {
            Some(TypeVal::Bool(d[s]))
        } else {
            None
        }
    } else if kind == 5 {
        if e - s >= 3 {
            Some(TypeVal::TimeV(d[s], d[s + 1], d[s + 2]))
        } else {
            None
        }
    } else if kind == 6 {
        if e - s >= 4 {
            Some(TypeVal::DateV(crate::bytes::le16(d, s), d[s + 2], d[s + 3]))
        } else {
            None
        }
    } else if kind == 7 {
        if e - s >= 2 {
            Some(TypeVal::StrId(crate::bytes::le16(d, s)))
        } else {
            None
        }
    } else if kind == 0x0A {
        if e - s >= 2 {
            Some(TypeVal::ActionId(crate::bytes::le16(d, s)))
        } else {
            None
        }
    } else {
        Some(TypeVal::Other)
    }
}

pub fn read_typeval(d: &[u8], s: usize, e: usize, kind: u8) -> (r: Option<TypeVal>)
    requires
        s <= e,
        e <= d.len(),
    ensures
        r == parse_typeval(d@, s as int, e as int, kind),
{
    if kind == 0 {
        if e - s >= 1 {
            Some(TypeVal::U8(d[s]))
        } else {
            None
        }
    } else if kind == 1 {
        if e - s >= 2 {
            Some(TypeVal::U16(crate::bytes::read_le16(d, s)))
        } else {
            None
        }
    } else if kind == 2 {
        if e - s >= 4 {
            Some(TypeVal::U32(crate::bytes::read_le32(d, s)))
        } else {
            None
        }
    } else if kind == 3 {
        if e - s >= 8 {
            Some(TypeVal::U64(crate::bytes::read_le64(d, s)))
        } else {
            None
        }
    } else if kind == 4 {
        if e - s >= 1 {
            Some(TypeVal::Bool(d[s]))
        } else {
            None
        }
    } else if kind == 5 {
        if e - s >= 3 {
            Some(TypeVal::TimeV(d[s], d[s + 1], d[s + 2]))
        } else {
            None
        }
    } else if kind == 6 {
        if e - s >= 4 {
            Some(TypeVal::DateV(crate::bytes::read_le16(d, s), d[s + 2], d[s + 3]))
        } else {
            None
        }
    } else if kind == 7 {
        if e - s >= 2 {
            Some(TypeVal::StrId(crate::bytes::read_le16(d, s)))
        } else {
            None
        }
    } else if kind == 0x0A {
        if e - s >= 2 {
            Some(TypeVal::ActionId(crate::bytes::read_le16(d, s)))
        } else {
            None
        }
    } else {
        Some(TypeVal::Other)
    }
}

/// Payload of a `OneOfOption` opcode.
pub struct OneOfOptF {
    pub option: u16,
    pub flags: u8,
    pub kind: u8,
    pub val: TypeVal,
}

pub open spec fn parse_one_of_option(d: Seq<u8>, s: int, e: int) -> Option<OneOfOptF>
    recommends
        0 <= s <= e <= d.len(),
{
    if e - s >= 4 {
        match parse_typeval(d, s + 4, e, d[s + 3]) {
            Some(v) => Some(
                OneOfOptF {
                    option: crate::bytes::le16(d, s),
                    flags: d[s + 2],
                    kind: d[s + 3],
                    val: v,
                },
            ),
            None => None,
        }
    } else {
        None
    }
}

pub fn read_one_of_option(d: &[u8], s: usize, e: usize) -> (r: Option<OneOfOptF>)
    requires
        s <= e,
        e <= d.len(),
    ensures
        r == parse_one_of_option(d@, s as int, e as int),
{
    if e - s >= 4 {
        match read_typeval(d, s + 4, e, d[s + 3]) {
            Some(v) => Some(
                OneOfOptF {
                    option: crate::bytes::read_le16(d, s),
                    flags: d[s + 2],
                    kind: d[s + 3],
                    val: v,
                },
            ),
            None => None,
        }
    } else {
        None
    }
}

/// Payload of a `Default` opcode.
pub struct DefaultF {
    pub default_id: u16,
    pub kind: u8,
    pub val: TypeVal,
}

pub open spec fn parse_default(d: Seq<u8>, s: int, e: int) -> Option<DefaultF>
    recommends
        0 <= s <= e <= d.len(),
{
    if e - s >= 3 {
        match parse_typeval(d, s + 3, e, d[s + 2]) {
            Some(v) => Some(
                DefaultF { default_id: crate::bytes::le16(d, s), kind: d[s + 2], val: v },
            ),
            None => None,
        }
    } else {
        None
    }
}

pub fn read_default(d: &[u8], s: usize, e: usize) -> (r: Option<DefaultF>)
    requires
        s <= e,
        e <= d.len(),
    ensures
        r == parse_default(d@, s as int, e as int),
{
    if e - s >= 3 {
        match read_typeval(d, s + 3, e, d[s + 2]) {
            Some(v) => Some(
                DefaultF { default_id: crate::bytes::read_le16(d, s), kind: d[s + 2], val: v },
            ),
            None => None,
        }
    } else {
        None
    }
}

/// The min/max/step triple of a `OneOf` or `Numeric` opcode, in the width
/// its flags select.
pub enum Mms {
    M8(u8, u8, u8),
    M16(u16, u16, u16),
    M32(u32, u32, u32),
    M64(u64, u64, u64),
}

/// Payload of a `OneOf` or `Numeric` opcode.
pub struct NumericF {
    pub q: QHdr,
    pub flags: u8,
    pub mms: Mms,
}

pub open spec fn parse_numeric(d: Seq<u8>, s: int, e: int) -> Option<NumericF>
    recommends
        0 <= s <= e <= d.len(),
{
    match parse_qhdr(d, s, e) {
        Some(q) => if e - s >= 12 {
            let flags = d[s + 11];
            let sz = flags & 0x03;
            if sz == 0 {
                if e - s >= 15 {
                    Some(
                        NumericF { q, flags, mms: Mms::M8(d[s + 12], d[s + 13], d[s + 14]) },
                    )
                } else {
                    None
                }
            } else if sz == 1 {
                if e - s >= 18 {
                    Some(
                        NumericF {
                            q,
                            flags,
                            mms: Mms::M16(
                                crate::bytes::le16(d, s + 12),
                                crate::bytes::le16(d, s + 14),
                                crate::bytes::le16(d, s + 16),
                            ),
                        },
                    )
                } else {
                    None
                }
            } else if sz == 2 {
                if e - s >= 24 {
                    Some(
                        NumericF {
                            q,
                            flags,
                            mms: Mms::M32(
                                crate::bytes::le32(d, s + 12),
                                crate::bytes::le32(d, s + 16),
                                crate::bytes::le32(d, s + 20),
                            ),
                        },
                    )
                } else {
                    None
                }
            } else {
                if e - s >= 36 {
                    Some(
                        NumericF {
                            q,
                            flags,
                            mms: Mms::M64(
                                crate::bytes::le64(d, s + 12),
                                crate::bytes::le64(d, s + 20),
                                crate::bytes::le64(d, s + 28),
                            ),
                        },
                    )
                } else {
                    None
                }
            }
        } else {
            None
        },
        None => None,
    }
}

pub fn read_numeric(d: &[u8], s: usize, e: usize) -> (r: Option<NumericF>)
    requires
        s <= e,
        e <= d.len(),
    ensures
        r == parse_numeric(d@, s as int, e as int),
{
    match read_qhdr(d, s, e) {
        Some(q) => if e - s >= 12 {
            let flags = d[s + 11];
            let sz = flags & 0x03;
            if sz == 0 {
                if e - s >= 15 {
                    Some(
                        NumericF { q, flags, mms: Mms::M8(d[s + 12], d[s + 13], d[s + 14]) },
                    )
                } else {
                    None
                }
            } else if sz == 1 {
                if e - s >= 18 {
                    Some(
                        NumericF {
                            q,
                            flags,
                            mms: Mms::M16(
                                crate::bytes::read_le16(d, s + 12),
                                crate::bytes::read_le16(d, s + 14),
                                crate::bytes::read_le16(d, s + 16),
                            ),
                        },
                    )
                } else {
                    None
                }
            } else if sz == 2 {
                if e - s >= 24 {
                    Some(
                        NumericF {
                            q,
                            flags,
                            mms: Mms::M32(
                                crate::bytes::read_le32(d, s + 12),
                                crate::bytes::read_le32(d, s + 16),
                                crate::bytes::read_le32(d, s + 20),
                            ),
                        },
                    )
                } else {
                    None
                }
            } else {
                if e - s >= 36 {
                    Some(
                        NumericF {
                            q,
                            flags,
                            mms: Mms::M64(
                                crate::bytes::read_le64(d, s + 12),
                                crate::bytes::read_le64(d, s + 20),
                                crate::bytes::read_le64(d, s + 28),
                            ),
                        },
                    )
                } else {
                    None
                }
            }
        } else {
            None
        },
        None => None,
    }
}

/// Whether the GUID at `s` is the Tiano extension GUID
/// 0F0B1735-87A0-4193-B266-538C38AF48CE.
pub open spec fn is_tiano_guid(d: Seq<u8>, s: int) -> bool
    recommends
        0 <= s,
        s + 16 <= d.len(),
{
    &&& crate::bytes::le32(d, s) == 0x0F0B1735u32
    &&& crate::bytes::le16(d, s + 4) == 0x87A0u16
    &&& crate::bytes::le16(d, s + 6) == 0x4193u16
    &&& d[s + 8] == 0xB2u8
    &&& d[s + 9] == 0x66u8
    &&& d[s + 10] == 0x53u8
    &&& d[s + 11] == 0x8Cu8
    &&& d[s + 12] == 0x38u8
    &&& d[s + 13] == 0xAFu8
    &&& d[s + 14] == 0x48u8
    &&& d[s + 15] == 0xCEu8
}

/// Whether the GUID at `s` is the Framework compatibility extension GUID
/// 31CA5D1A-D511-4931-B782-AE6B2B178CD7.
pub open spec fn is_framework_guid(d: Seq<u8>, s: int) -> bool
    recommends
        0 <= s,
        s + 16 <= d.len(),
{
    &&& crate::bytes::le32(d, s) == 0x31CA5D1Au32
    &&& crate::bytes::le16(d, s + 4) == 0xD511u16
    &&& crate::bytes::le16(d, s + 6) == 0x4931u16
    &&& d[s + 8] == 0xB7u8
    &&& d[s + 9] == 0x82u8
    &&& d[s + 10] == 0xAEu8
    &&& d[s + 11] == 0x6Bu8
    &&& d[s + 12] == 0x2Bu8
    &&& d[s + 13] == 0x17u8
    &&& d[s + 14] == 0x8Cu8
    &&& d[s + 15] == 0xD7u8
}

/// String identifiers referenced by a `Guid` extension opcode: the Tiano
/// banner title, or the Framework variable-name identifier. The latter is
/// decoded as high byte times 100 plus low byte, a decimal weighting kept
/// for output compatibility with existing listings.
pub open spec fn guid_ids(d: Seq<u8>, s: int, e: int) -> Seq<u16>
    recommends
        0 <= s <= e <= d.len(),
{
    if e - s >= 16 {
        if is_tiano_guid(d, s) {
            if e - s >= 19 && d[s + 16] == 0x01 {
                seq![crate::bytes::le16(d, s + 17)]
            } else {
                Seq::empty()
            }
        } else if is_framework_guid(d, s) {
            if e - s == 21 && d[s + 16] == 0x01 {
                seq![(d[s + 20] as u16 * 100 + d[s + 19] as u16) as u16]
            } else {
                Seq::empty()
            }
        } else {
            Seq::empty()
        }
    } else {
        Seq::empty()
    }
}

fn push_guid_ids(ids: &mut Vec<u16>, d: &[u8], s: usize, e: usize)
    requires
        s <= e,
        e <= d.len(),
    ensures
        final(ids)@ == old(ids)@ + guid_ids(d@, s as int, e as int),
{
    let ghost target = old(ids)@ + guid_ids(d@, s as int, e as int);
    if e - s >= 16 {
        let tiano = crate::bytes::read_le32(d, s) == 0x0F0B1735 && crate::bytes::read_le16(d, s + 4)
            == 0x87A0 && crate::bytes::read_le16(d, s + 6) == 0x4193 && d[s + 8] == 0xB2 && d[s + 9]
            == 0x66 && d[s + 10] == 0x53 && d[s + 11] == 0x8C && d[s + 12] == 0x38 && d[s + 13]
            == 0xAF && d[s + 14] == 0x48 && d[s + 15] == 0xCE;
        let framework = crate::bytes::read_le32(d, s) == 0x31CA5D1A && crate::bytes::read_le16(
            d,
            s + 4,
        ) == 0xD511 && crate::bytes::read_le16(d, s + 6) == 0x4931 && d[s + 8] == 0xB7 && d[s + 9]
            == 0x82 && d[s + 10] == 0xAE && d[s + 11] == 0x6B && d[s + 12] == 0x2B && d[s + 13]
            == 0x17 && d[s + 14] == 0x8C && d[s + 15] == 0xD7;
        if tiano {
            if e - s >= 19 && d[s + 16] == 0x01 {
                ids.push(crate::bytes::read_le16(d, s + 17));
            }
        } else if framework {
            if e - s == 21 && d[s + 16] == 0x01 {
                ids.push(d[s + 20] as u16 * 100 + d[s + 19] as u16);
            }
        }
    }
    proof {
        assert(ids@ =~= target);
    }
}

/// String identifiers of the method entries of a `FormMap` opcode: one
/// title per 18-byte method record.
pub open spec fn form_map_methods(d: Seq<u8>, p: int, e: int) -> Seq<u16>
    recommends
        0 <= p,
        e <= d.len(),
    decreases e - p,
{
    if p >= 0 && p + 18 <= e {
        seq![crate::bytes::le16(d, p + 16)] + form_map_methods(d, p + 18, e)
    } else {
        Seq::empty()
    }
}

/// String identifiers referenced by a `FormMap` opcode.
pub open spec fn form_map_ids(d: Seq<u8>, s: int, e: int) -> Seq<u16>
    recommends
        0 <= s <= e <= d.len(),
{
    if e - s >= 2 {
        form_map_methods(d, s + 2, e)
    } else {
        Seq::empty()
    }
}

fn push_form_map_ids(ids: &mut Vec<u16>, d: &[u8], s: usize, e: usize)
    requires
        s <= e,
        e <= d.len(),
    ensures
        final(ids)@ == old(ids)@ + form_map_ids(d@, s as int, e as int),
{
    let ghost target = old(ids)@ + form_map_ids(d@, s as int, e as int);
    if e - s >= 2 {
        let mut p: usize = s + 2;
        while p <= e && e - p >= 18
            invariant
                s + 2 <= p,
                e <= d.len(),
                ids@ + form_map_methods(d@, p as int, e as int) == old(ids)@ + form_map_ids(
                    d@,
                    s as int,
                    e as int,
                ),
            decreases e - p,
        {
            let ghost prev = ids@;
            let ghost pp = p as int;
            ids.push(crate::bytes::read_le16(d, p + 16));
            p = p + 18;
            proof {
                assert(ids@ + form_map_methods(d@, p as int, e as int) =~= prev
                    + form_map_methods(d@, pp, e as int));
            }
        }
        proof {
            assert(form_map_methods(d@, p as int, e as int) =~= Seq::<u16>::empty());
        }
    }
    proof {
        assert(ids@ =~= target);
    }
}

/// The string identifiers one opcode's payload references, in the order
/// the payload lists them.
pub open spec fn op_ids(d: Seq<u8>, op: IfrOpcode, s: int, e: int) -> Seq<u16>
    recommends
        0 <= s <= e <= d.len(),
{
    match op {
        IfrOpcode::Form => match parse_form(d, s, e) {
            Some(f) => seq![f.title],
            None => Seq::empty(),
        },
        IfrOpcode::Subtitle => match parse_subtitle(d, s, e) {
            Some(x) => seq![x.prompt, x.help],
            None => Seq::empty(),
        },
        IfrOpcode::Text => match parse_text(d, s, e) {
            Some(x) => seq![x.prompt, x.help, x.text],
            None => Seq::empty(),
        },
        IfrOpcode::OneOf => match parse_numeric(d, s, e) {
            Some(x) => seq![x.q.prompt, x.q.help],
            None => Seq::empty(),
        },
        IfrOpcode::CheckBox => match parse_check_box(d, s, e) {
            Some(x) => seq![x.q.prompt, x.q.help],
            None => Seq::empty(),
        },
        IfrOpcode::Numeric => match parse_numeric(d, s, e) {
            Some(x) => seq![x.q.prompt, x.q.help],
            None => Seq::empty(),
        },
        IfrOpcode::Password => match parse_password(d, s, e) {
            Some(x) => seq![x.q.prompt, x.q.help],
            None => Seq::empty(),
        },
        IfrOpcode::OneOfOption => match parse_one_of_option(d, s, e) {
            Some(x) => match x.val {
                TypeVal::StrId(v) => seq![x.option, v],
                TypeVal::ActionId(v) => seq![x.option, v],
                _ => seq![x.option],
            },
            None => Seq::empty(),
        },
        IfrOpcode::Action => match parse_action(d, s, e) {
            Some(x) => match x.config {
                Some(c) => seq![x.q.prompt, x.q.help, c],
                None => seq![x.q.prompt, x.q.help],
            },
            None => Seq::empty(),
        },
        IfrOpcode::ResetButton => match parse_reset(d, s, e) {
            Some(x) => seq![x.prompt, x.help],
            None => Seq::empty(),
        },
        IfrOpcode::FormSet => match parse_form_set(d, s, e) {
            Some(x) => seq![x.title, x.help],
            None => Seq::empty(),
        },
        IfrOpcode::Ref => match parse_ref(d, s, e) {
            Some(x) => seq![x.q.prompt, x.q.help],
            None => Seq::empty(),
        },
        IfrOpcode::NoSubmitIf => match parse_err_if(d, s, e) {
            Some(x) => seq![x.err],
            None => Seq::empty(),
        },
        IfrOpcode::InconsistentIf => match parse_err_if(d, s, e) {
            Some(x) => seq![x.err],
            None => Seq::empty(),
        },
        IfrOpcode::Date => match parse_date_time(d, s, e) {
            Some(x) => seq![x.q.prompt, x.q.help],
            None => Seq::empty(),
        },
        IfrOpcode::Time => match parse_date_time(d, s, e) {
            Some(x) => seq![x.q.prompt, x.q.help],
            None => Seq::empty(),
        },
        IfrOpcode::StringOp => match parse_string_q(d, s, e) {
            Some(x) => seq![x.q.prompt, x.q.help],
            None => Seq::empty(),
        },
        IfrOpcode::OrderedList => match parse_ordered(d, s, e) {
            Some(x) => seq![x.q.prompt, x.q.help],
            None => Seq::empty(),
        },
        IfrOpcode::VarStoreDevice => match parse_dev_path(d, s, e) {
            Some(x) => seq![x.dp],
            None => Seq::empty(),
        },
        IfrOpcode::StringRef1 => match parse_str_ref1(d, s, e) {
            Some(x) => seq![x.sid],
            None => Seq::empty(),
        },
        IfrOpcode::QuestionRef3 => match parse_qref3(d, s, e) {
            Some(x) => match x.dp {
                Some(v) => seq![v],
                None => Seq::empty(),
            },
            None => Seq::empty(),
        },
        IfrOpcode::DefaultOp => match parse_default(d, s, e) {
            Some(x) => match x.val {
                TypeVal::StrId(v) => seq![v],
                TypeVal::ActionId(v) => seq![v],
                _ => Seq::empty(),
            },
            None => Seq::empty(),
        },
        IfrOpcode::DefaultStore => match parse_default_store(d, s, e) {
            Some(x) => seq![x.name],
            None => Seq::empty(),
        },
        IfrOpcode::FormMap => form_map_ids(d, s, e),
        IfrOpcode::Guid => guid_ids(d, s, e),
        IfrOpcode::WarningIf => match parse_warn_if(d, s, e) {
            Some(x) => seq![x.warn],
            None => Seq::empty(),
        },
        _ => Seq::empty(),
    }
}

/// Appends to `ids` every string identifier the opcode's payload references.
pub fn push_op_ids(ids: &mut Vec<u16>, d: &[u8], op: IfrOpcode, s: usize, e: usize)
    requires
        s <= e,
        e <= d.len(),
    ensures
        final(ids)@ == old(ids)@ + op_ids(d@, op, s as int, e as int),
{
    let ghost target = old(ids)@ + op_ids(d@, op, s as int, e as int);
    match op {
        IfrOpcode::Form => {
            if let Some(f) = read_form(d, s, e) {
                ids.push(f.title);
            }
        },
        IfrOpcode::Subtitle => {
            if let Some(x) = read_subtitle(d, s, e) {
                ids.push(x.prompt);
                ids.push(x.help);
            }
        },
        IfrOpcode::Text => {
            if let Some(x) = read_text(d, s, e) {
                ids.push(x.prompt);
                ids.push(x.help);
                ids.push(x.text);
            }
        },
        IfrOpcode::OneOf => {
            if let Some(x) = read_numeric(d, s, e) {
                ids.push(x.q.prompt);
                ids.push(x.q.help);
            }
        },
        IfrOpcode::CheckBox => {
            if let Some(x) = read_check_box(d, s, e) {
                ids.push(x.q.prompt);
                ids.push(x.q.help);
            }
        },
        IfrOpcode::Numeric => {
            if let Some(x) = read_numeric(d, s, e) {
                ids.push(x.q.prompt);
                ids.push(x.q.help);
            }
        },
        IfrOpcode::Password => {
            if let Some(x) = read_password(d, s, e) {
                ids.push(x.q.prompt);
                ids.push(x.q.help);
            }
        },
        IfrOpcode::OneOfOption => {
            if let Some(x) = read_one_of_option(d, s, e) {
                ids.push(x.option);
                match x.val {
                    TypeVal::StrId(v) => {
                        ids.push(v);
                    },
                    TypeVal::ActionId(v) => {
                        ids.push(v);
                    },
                    _ => {},
                }
            }
        },
        IfrOpcode::Action => {
            if let Some(x) = read_action(d, s, e) {
                ids.push(x.q.prompt);
                ids.push(x.q.help);
                if let Some(c) = x.config {
                    ids.push(c);
                }
            }
        },
        IfrOpcode::ResetButton => {
            if let Some(x) = read_reset(d, s, e) {
                ids.push(x.prompt);
                ids.push(x.help);
            }
        },
        IfrOpcode::FormSet => {
            if let Some(x) = read_form_set(d, s, e) {
                ids.push(x.title);
                ids.push(x.help);
            }
        },
        IfrOpcode::Ref => {
            if let Some(x) = read_ref(d, s, e) {
                ids.push(x.q.prompt);
                ids.push(x.q.help);
            }
        },
        IfrOpcode::NoSubmitIf => {
            if let Some(x) = read_err_if(d, s, e) {
                ids.push(x.err);
            }
        },
        IfrOpcode::InconsistentIf => {
            if let Some(x) = read_err_if(d, s, e) {
                ids.push(x.err);
            }
        },
        IfrOpcode::Date => {
            if let Some(x) = read_date_time(d, s, e) {
                ids.push(x.q.prompt);
                ids.push(x.q.help);
            }
        },
        IfrOpcode::Time => {
            if let Some(x) = read_date_time(d, s, e) {
                ids.push(x.q.prompt);
                ids.push(x.q.help);
            }
        },
        IfrOpcode::StringOp => {
            if let Some(x) = read_string_q(d, s, e) {
                ids.push(x.q.prompt);
                ids.push(x.q.help);
            }
        },
        IfrOpcode::OrderedList => {
            if let Some(x) = read_ordered(d, s, e) {
                ids.push(x.q.prompt);
                ids.push(x.q.help);
            }
        },
        IfrOpcode::VarStoreDevice => {
            if let Some(x) = read_dev_path(d, s, e) {
                ids.push(x.dp);
            }
        },
        IfrOpcode::StringRef1 => {
            if let Some(x) = read_str_ref1(d, s, e) {
                ids.push(x.sid);
            }
        },
        IfrOpcode::QuestionRef3 => {
            if let Some(x) = read_qref3(d, s, e) {
                if let Some(v) = x.dp {
                    ids.push(v);
                }
            }
        },
        IfrOpcode::DefaultOp => {
            if let Some(x) = read_default(d, s, e) {
                match x.val {
                    TypeVal::StrId(v) => {
                        ids.push(v);
                    },
                    TypeVal::ActionId(v) => {
                        ids.push(v);
                    },
                    _ => {},
                }
            }
        },
        IfrOpcode::DefaultStore => {
            if let Some(x) = read_default_store(d, s, e) {
                ids.push(x.name);
            }
        },
        IfrOpcode::FormMap => {
            push_form_map_ids(ids, d, s, e);
        },
        IfrOpcode::Guid => {
            push_guid_ids(ids, d, s, e);
        },
        IfrOpcode::WarningIf => {
            if let Some(x) = read_warn_if(d, s, e) {
                ids.push(x.warn);
            }
        },
        _ => {},
    }
    proof {
        assert(ids@ =~= target);
    }
}

/// The opcode frame at `pos` in `[pos, end)`: its opcode, scope-start flag,
/// and on-wire length (header included), when a well-formed frame starts
/// there.
pub open spec fn op_at(d: Seq<u8>, pos: int, end: int) -> Option<(IfrOpcode, bool, int)> {
    if 0 <= pos && pos + 2 <= end && end <= d.len() {
        let ln = d[pos + 1] as int;
        if 2 <= ln && pos + ln <= end {
            Some(
                (spec_decode_op((d[pos] & 0x7F) as u8), (d[pos] & 0x80) != 0, ln),
            )
        } else {
            None
        }
    } else {
        None
    }
}

/// Reads the opcode frame at `pos`, if one is well formed.
pub fn read_op(d: &[u8], pos: usize, end: usize) -> (r: Option<(IfrOpcode, bool, usize)>)
    requires
        end <= d.len(),
    ensures
        match r {
            Some(t) => op_at(d@, pos as int, end as int) == Some((t.0, t.1, t.2 as int)) && 2
                <= t.2 && pos + t.2 <= end,
            None => op_at(d@, pos as int, end as int) is None,
        },
{
    if pos <= end && end - pos >= 2 {
        let b0 = d[pos];
        let ln = d[pos + 1] as usize;
        if 2 <= ln && ln <= end - pos {
            Some((decode_op(b0 & 0x7F), (b0 & 0x80) != 0, ln))
        } else {
            None
        }
    } else {
        None
    }
}

/// Whether the whole of `[pos, end)` splits into well-formed opcode frames.
pub open spec fn ops_ok(d: Seq<u8>, pos: int, end: int) -> bool
    decreases end - pos,
{
    if pos == end {
        true
    } else {
        match op_at(d, pos, end) {
            Some((op, sc, ln)) => ops_ok(d, pos + ln, end),
            None => false,
        }
    }
}

/// Every string identifier referenced from the opcode frames of
/// `[pos, end)`, in stream order, stopping at the first malformed frame.
pub open spec fn ids_in_ops(d: Seq<u8>, pos: int, end: int) -> Seq<u16>
    decreases end - pos,
{
    match op_at(d, pos, end) {
        Some((op, sc, ln)) => op_ids(d, op, pos + 2, pos + ln) + ids_in_ops(d, pos + ln, end),
        None => Seq::empty(),
    }
}

/// Walks the opcode stream of a form package body. Returns the referenced
/// string identifiers exactly when every frame is well formed.
pub fn collect_form_ids(d: &[u8], s: usize, e: usize) -> (r: Option<Vec<u16>>)
    requires
        s <= e,
        e <= d.len(),
    ensures
        match r {
            Some(v) => ops_ok(d@, s as int, e as int) && v@ == ids_in_ops(d@, s as int, e as int),
            None => !ops_ok(d@, s as int, e as int),
        },
{
    let mut ids: Vec<u16> = Vec::new();
    let mut pos: usize = s;
    proof {
        assert(ids@ + ids_in_ops(d@, s as int, e as int) =~= ids_in_ops(d@, s as int, e as int));
    }
    while pos < e
        invariant
            s <= pos <= e,
            e <= d.len(),
            ops_ok(d@, s as int, e as int) == ops_ok(d@, pos as int, e as int),
            ids@ + ids_in_ops(d@, pos as int, e as int) == ids_in_ops(d@, s as int, e as int),
        decreases e - pos,
    {
        match read_op(d, pos, e) {
            Some((op, sc, ln)) => {
                let ghost prev = ids@;
                let ghost pp = pos as int;
                push_op_ids(&mut ids, d, op, pos + 2, pos + ln);
                pos = pos + ln;
                proof {
                    assert(ids@ + ids_in_ops(d@, pos as int, e as int) =~= prev + ids_in_ops(
                        d@,
                        pp,
                        e as int,
                    ));
                }
            },
            None => {
                return None;
            },
        }
    }
    proof {
        assert(ids_in_ops(d@, pos as int, e as int) =~= Seq::<u16>::empty());
        assert(ids@ =~= ids_in_ops(d@, s as int, e as int));
    }
    Some(ids)
}

} // verus!
