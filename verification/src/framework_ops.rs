//! The Framework IFR opcode set: the closed tagged enumeration, its
//! decoding from the on-wire tag byte, and the canonical name of each
//! opcode.

use vstd::prelude::*;

verus! {

/// A Framework IFR opcode tag; tags outside the defined set carry their
/// raw value in `Unknown`.
#[derive(Clone, Copy, PartialEq, Eq, Structural)]
pub enum FrOpcode {
    Form,
    Subtitle,
    Text,
    Graphic,
    OneOf,
    CheckBox,
    Numeric,
    Password,
    OneOfOption,
    SuppressIf,
    EndForm,
    Hidden,
    EndFormSet,
    FormSet,
    Ref,
    End,
    InconsistentIf,
    EqIdVal,
    EqIdId,
    EqIdList,
    And,
    Or,
    Not,
    EndIf,
    GrayOutIf,
    Date,
    Time,
    StringOp,
    Label,
    SaveDefaults,
    RestoreDefaults,
    Banner,
    Inventory,
    EqVarVal,
    OrderedList,
    VarStore,
    VarStoreSelect,
    VarStoreSelectPair,
    True,
    False,
    Greater,
    GreaterEqual,
    OemDefined,
    Oem,
    NvAccessCommand,
    Unknown(u8),
}

/// The opcode a tag byte decodes to.
pub open spec fn fr_spec_decode_op(x: u8) -> FrOpcode {
    match x {
        0x01u8 => FrOpcode::Form,
        0x02u8 => FrOpcode::Subtitle,
        0x03u8 => FrOpcode::Text,
        0x04u8 => FrOpcode::Graphic,
        0x05u8 => FrOpcode::OneOf,
        0x06u8 => FrOpcode::CheckBox,
        0x07u8 => FrOpcode::Numeric,
        0x08u8 => FrOpcode::Password,
        0x09u8 => FrOpcode::OneOfOption,
        0x0Au8 => FrOpcode::SuppressIf,
        0x0Bu8 => FrOpcode::EndForm,
        0x0Cu8 => FrOpcode::Hidden,
        0x0Du8 => FrOpcode::EndFormSet,
        0x0Eu8 => FrOpcode::FormSet,
        0x0Fu8 => FrOpcode::Ref,
        0x10u8 => FrOpcode::End,
        0x11u8 => FrOpcode::InconsistentIf,
        0x12u8 => FrOpcode::EqIdVal,
        0x13u8 => FrOpcode::EqIdId,
        0x14u8 => FrOpcode::EqIdList,
        0x15u8 => FrOpcode::And,
        0x16u8 => FrOpcode::Or,
        0x17u8 => FrOpcode::Not,
        0x18u8 => FrOpcode::EndIf,
        0x19u8 => FrOpcode::GrayOutIf,
        0x1Au8 => FrOpcode::Date,
        0x1Bu8 => FrOpcode::Time,
        0x1Cu8 => FrOpcode::StringOp,
        0x1Du8 => FrOpcode::Label,
        0x1Eu8 => FrOpcode::SaveDefaults,
        0x1Fu8 => FrOpcode::RestoreDefaults,
        0x20u8 => FrOpcode::Banner,
        0x21u8 => FrOpcode::Inventory,
        0x22u8 => FrOpcode::EqVarVal,
        0x23u8 => FrOpcode::OrderedList,
        0x24u8 => FrOpcode::VarStore,
        0x25u8 => FrOpcode::VarStoreSelect,
        0x26u8 => FrOpcode::VarStoreSelectPair,
        0x27u8 => FrOpcode::True,
        0x28u8 => FrOpcode::False,
        0x29u8 => FrOpcode::Greater,
        0x2Au8 => FrOpcode::GreaterEqual,
        0x2Bu8 => FrOpcode::OemDefined,
        0xFEu8 => FrOpcode::Oem,
        0xFFu8 => FrOpcode::NvAccessCommand,
        _ => FrOpcode::Unknown(x),
    }
}

pub fn fr_decode_op(x: u8) -> (r: FrOpcode)
    ensures
        r == fr_spec_decode_op(x),
{
    match x {
        0x01u8 => FrOpcode::Form,
        0x02u8 => FrOpcode::Subtitle,
        0x03u8 => FrOpcode::Text,
        0x04u8 => FrOpcode::Graphic,
        0x05u8 => FrOpcode::OneOf,
        0x06u8 => FrOpcode::CheckBox,
        0x07u8 => FrOpcode::Numeric,
        0x08u8 => FrOpcode::Password,
        0x09u8 => FrOpcode::OneOfOption,
        0x0Au8 => FrOpcode::SuppressIf,
        0x0Bu8 => FrOpcode::EndForm,
        0x0Cu8 => FrOpcode::Hidden,
        0x0Du8 => FrOpcode::EndFormSet,
        0x0Eu8 => FrOpcode::FormSet,
        0x0Fu8 => FrOpcode::Ref,
        0x10u8 => FrOpcode::End,
        0x11u8 => FrOpcode::InconsistentIf,
        0x12u8 => FrOpcode::EqIdVal,
        0x13u8 => FrOpcode::EqIdId,
        0x14u8 => FrOpcode::EqIdList,
        0x15u8 => FrOpcode::And,
        0x16u8 => FrOpcode::Or,
        0x17u8 => FrOpcode::Not,
        0x18u8 => FrOpcode::EndIf,
        0x19u8 => FrOpcode::GrayOutIf,
        0x1Au8 => FrOpcode::Date,
        0x1Bu8 => FrOpcode::Time,
        0x1Cu8 => FrOpcode::StringOp,
        0x1Du8 => FrOpcode::Label,
        0x1Eu8 => FrOpcode::SaveDefaults,
        0x1Fu8 => FrOpcode::RestoreDefaults,
        0x20u8 => FrOpcode::Banner,
        0x21u8 => FrOpcode::Inventory,
        0x22u8 => FrOpcode::EqVarVal,
        0x23u8 => FrOpcode::OrderedList,
        0x24u8 => FrOpcode::VarStore,
        0x25u8 => FrOpcode::VarStoreSelect,
        0x26u8 => FrOpcode::VarStoreSelectPair,
        0x27u8 => FrOpcode::True,
        0x28u8 => FrOpcode::False,
        0x29u8 => FrOpcode::Greater,
        0x2Au8 => FrOpcode::GreaterEqual,
        0x2Bu8 => FrOpcode::OemDefined,
        0xFEu8 => FrOpcode::Oem,
        0xFFu8 => FrOpcode::NvAccessCommand,
        _ => FrOpcode::Unknown(x),
    }
}

/// The canonical name an opcode is listed under.
pub open spec fn fr_op_name(op: FrOpcode) -> Seq<char> {
    match op {
        FrOpcode::Form => "Form"@,
        FrOpcode::Subtitle => "Subtitle"@,
        FrOpcode::Text => "Text"@,
        FrOpcode::Graphic => "Graphic"@,
        FrOpcode::OneOf => "OneOf"@,
        FrOpcode::CheckBox => "CheckBox"@,
        FrOpcode::Numeric => "Numeric"@,
        FrOpcode::Password => "Password"@,
        FrOpcode::OneOfOption => "OneOfOption"@,
        FrOpcode::SuppressIf => "SuppressIf"@,
        FrOpcode::EndForm => "EndForm"@,
        FrOpcode::Hidden => "Hidden"@,
        FrOpcode::EndFormSet => "EndFormSet"@,
        FrOpcode::FormSet => "FormSet"@,
        FrOpcode::Ref => "Ref"@,
        FrOpcode::End => "End"@,
        FrOpcode::InconsistentIf => "InconsistentIf"@,
        FrOpcode::EqIdVal => "EqIdVal"@,
        FrOpcode::EqIdId => "EqIdId"@,
        FrOpcode::EqIdList => "EqIdList"@,
        FrOpcode::And => "And"@,
        FrOpcode::Or => "Or"@,
        FrOpcode::Not => "Not"@,
        FrOpcode::EndIf => "EndIf"@,
        FrOpcode::GrayOutIf => "GrayOutIf"@,
        FrOpcode::Date => "Date"@,
        FrOpcode::Time => "Time"@,
        FrOpcode::StringOp => "String"@,
        FrOpcode::Label => "Label"@,
        FrOpcode::SaveDefaults => "SaveDefaults"@,
        FrOpcode::RestoreDefaults => "RestoreDefaults"@,
        FrOpcode::Banner => "Banner"@,
        FrOpcode::Inventory => "Inventory"@,
        FrOpcode::EqVarVal => "EqVarVal"@,
        FrOpcode::OrderedList => "OrderedList"@,
        FrOpcode::VarStore => "VarStore"@,
        FrOpcode::VarStoreSelect => "VarStoreSelect"@,
        FrOpcode::VarStoreSelectPair => "VarStoreSelectPair"@,
        FrOpcode::True => "True"@,
        FrOpcode::False => "False"@,
        FrOpcode::Greater => "Greater"@,
        FrOpcode::GreaterEqual => "GreaterEqual"@,
        FrOpcode::OemDefined => "OemDefined"@,
        FrOpcode::Oem => "Oem"@,
        FrOpcode::NvAccessCommand => "NvAccessCommand"@,
        FrOpcode::Unknown(_) => "Unknown"@,
    }
}

pub fn fr_op_name_str(op: FrOpcode) -> (r: &'static str)
    ensures
        r@ == fr_op_name(op),
{
    match op {
        FrOpcode::Form => "Form",
        FrOpcode::Subtitle => "Subtitle",
        FrOpcode::Text => "Text",
        FrOpcode::Graphic => "Graphic",
        FrOpcode::OneOf => "OneOf",
        FrOpcode::CheckBox => "CheckBox",
        FrOpcode::Numeric => "Numeric",
        FrOpcode::Password => "Password",
        FrOpcode::OneOfOption => "OneOfOption",
        FrOpcode::SuppressIf => "SuppressIf",
        FrOpcode::EndForm => "EndForm",
        FrOpcode::Hidden => "Hidden",
        FrOpcode::EndFormSet => "EndFormSet",
        FrOpcode::FormSet => "FormSet",
        FrOpcode::Ref => "Ref",
        FrOpcode::End => "End",
        FrOpcode::InconsistentIf => "InconsistentIf",
        FrOpcode::EqIdVal => "EqIdVal",
        FrOpcode::EqIdId => "EqIdId",
        FrOpcode::EqIdList => "EqIdList",
        FrOpcode::And => "And",
        FrOpcode::Or => "Or",
        FrOpcode::Not => "Not",
        FrOpcode::EndIf => "EndIf",
        FrOpcode::GrayOutIf => "GrayOutIf",
        FrOpcode::Date => "Date",
        FrOpcode::Time => "Time",
        FrOpcode::StringOp => "String",
        FrOpcode::Label => "Label",
        FrOpcode::SaveDefaults => "SaveDefaults",
        FrOpcode::RestoreDefaults => "RestoreDefaults",
        FrOpcode::Banner => "Banner",
        FrOpcode::Inventory => "Inventory",
        FrOpcode::EqVarVal => "EqVarVal",
        FrOpcode::OrderedList => "OrderedList",
        FrOpcode::VarStore => "VarStore",
        FrOpcode::VarStoreSelect => "VarStoreSelect",
        FrOpcode::VarStoreSelectPair => "VarStoreSelectPair",
        FrOpcode::True => "True",
        FrOpcode::False => "False",
        FrOpcode::Greater => "Greater",
        FrOpcode::GreaterEqual => "GreaterEqual",
        FrOpcode::OemDefined => "OemDefined",
        FrOpcode::Oem => "Oem",
        FrOpcode::NvAccessCommand => "NvAccessCommand",
        FrOpcode::Unknown(_) => "Unknown",
    }
}

} // verus!
