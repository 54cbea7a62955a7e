//! The UEFI IFR opcode set: the closed tagged enumeration, its decoding
//! from the on-wire tag byte, and the canonical name of each opcode.

use vstd::prelude::*;

verus! {

/// A UEFI IFR opcode tag; tags outside the defined range carry their
/// raw value in `Unknown`.
#[derive(Clone, Copy, PartialEq, Eq, Structural)]
pub enum IfrOpcode {
    Form,
    Subtitle,
    Text,
    Image,
    OneOf,
    CheckBox,
    Numeric,
    Password,
    OneOfOption,
    SuppressIf,
    Locked,
    Action,
    ResetButton,
    FormSet,
    Ref,
    NoSubmitIf,
    InconsistentIf,
    EqIdVal,
    EqIdId,
    EqIdValList,
    And,
    Or,
    Not,
    Rule,
    GrayOutIf,
    Date,
    Time,
    StringOp,
    Refresh,
    DisableIf,
    Animation,
    ToLower,
    ToUpper,
    MapOp,
    OrderedList,
    VarStore,
    VarStoreNameValue,
    VarStoreEfi,
    VarStoreDevice,
    Version,
    End,
    Match,
    Get,
    SetOp,
    Read,
    Write,
    Equal,
    NotEqual,
    GreaterThan,
    GreaterEqual,
    LessThan,
    LessEqual,
    BitwiseAnd,
    BitwiseOr,
    BitwiseNot,
    ShiftLeft,
    ShiftRight,
    AddOp,
    Substract,
    Multiply,
    Divide,
    Modulo,
    RuleRef,
    QuestionRef1,
    QuestionRef2,
    Uint8,
    Uint16,
    Uint32,
    Uint64,
    True,
    False,
    ToUint,
    ToString,
    ToBoolean,
    Mid,
    Find,
    Token,
    StringRef1,
    StringRef2,
    Conditional,
    QuestionRef3,
    Zero,
    One,
    Ones,
    Undefined,
    Length,
    Dup,
    This,
    Span,
    Value,
    DefaultOp,
    DefaultStore,
    FormMap,
    Catenate,
    Guid,
    Security,
    ModalTag,
    RefreshId,
    WarningIf,
    Match2,
    Unknown(u8),
}

/// The opcode a 7-bit tag value decodes to.
pub open spec fn spec_decode_op(x: u8) -> IfrOpcode {
    match x {
        0x01u8 => IfrOpcode::Form,
        0x02u8 => IfrOpcode::Subtitle,
        0x03u8 => IfrOpcode::Text,
        0x04u8 => IfrOpcode::Image,
        0x05u8 => IfrOpcode::OneOf,
        0x06u8 => IfrOpcode::CheckBox,
        0x07u8 => IfrOpcode::Numeric,
        0x08u8 => IfrOpcode::Password,
        0x09u8 => IfrOpcode::OneOfOption,
        0x0Au8 => IfrOpcode::SuppressIf,
        0x0Bu8 => IfrOpcode::Locked,
        0x0Cu8 => IfrOpcode::Action,
        0x0Du8 => IfrOpcode::ResetButton,
        0x0Eu8 => IfrOpcode::FormSet,
        0x0Fu8 => IfrOpcode::Ref,
        0x10u8 => IfrOpcode::NoSubmitIf,
        0x11u8 => IfrOpcode::InconsistentIf,
        0x12u8 => IfrOpcode::EqIdVal,
        0x13u8 => IfrOpcode::EqIdId,
        0x14u8 => IfrOpcode::EqIdValList,
        0x15u8 => IfrOpcode::And,
        0x16u8 => IfrOpcode::Or,
        0x17u8 => IfrOpcode::Not,
        0x18u8 => IfrOpcode::Rule,
        0x19u8 => IfrOpcode::GrayOutIf,
        0x1Au8 => IfrOpcode::Date,
        0x1Bu8 => IfrOpcode::Time,
        0x1Cu8 => IfrOpcode::StringOp,
        0x1Du8 => IfrOpcode::Refresh,
        0x1Eu8 => IfrOpcode::DisableIf,
        0x1Fu8 => IfrOpcode::Animation,
        0x20u8 => IfrOpcode::ToLower,
        0x21u8 => IfrOpcode::ToUpper,
        0x22u8 => IfrOpcode::MapOp,
        0x23u8 => IfrOpcode::OrderedList,
        0x24u8 => IfrOpcode::VarStore,
        0x25u8 => IfrOpcode::VarStoreNameValue,
        0x26u8 => IfrOpcode::VarStoreEfi,
        0x27u8 => IfrOpcode::VarStoreDevice,
        0x28u8 => IfrOpcode::Version,
        0x29u8 => IfrOpcode::End,
        0x2Au8 => IfrOpcode::Match,
        0x2Bu8 => IfrOpcode::Get,
        0x2Cu8 => IfrOpcode::SetOp,
        0x2Du8 => IfrOpcode::Read,
        0x2Eu8 => IfrOpcode::Write,
        0x2Fu8 => IfrOpcode::Equal,
        0x30u8 => IfrOpcode::NotEqual,
        0x31u8 => IfrOpcode::GreaterThan,
        0x32u8 => IfrOpcode::GreaterEqual,
        0x33u8 => IfrOpcode::LessThan,
        0x34u8 => IfrOpcode::LessEqual,
        0x35u8 => IfrOpcode::BitwiseAnd,
        0x36u8 => IfrOpcode::BitwiseOr,
        0x37u8 => IfrOpcode::BitwiseNot,
        0x38u8 => IfrOpcode::ShiftLeft,
        0x39u8 => IfrOpcode::ShiftRight,
        0x3Au8 => IfrOpcode::AddOp,
        0x3Bu8 => IfrOpcode::Substract,
        0x3Cu8 => IfrOpcode::Multiply,
        0x3Du8 => IfrOpcode::Divide,
        0x3Eu8 => IfrOpcode::Modulo,
        0x3Fu8 => IfrOpcode::RuleRef,
        0x40u8 => IfrOpcode::QuestionRef1,
        0x41u8 => IfrOpcode::QuestionRef2,
        0x42u8 => IfrOpcode::Uint8,
        0x43u8 => IfrOpcode::Uint16,
        0x44u8 => IfrOpcode::Uint32,
        0x45u8 => IfrOpcode::Uint64,
        0x46u8 => IfrOpcode::True,
        0x47u8 => IfrOpcode::False,
        0x48u8 => IfrOpcode::ToUint,
        0x49u8 => IfrOpcode::ToString,
        0x4Au8 => IfrOpcode::ToBoolean,
        0x4Bu8 => IfrOpcode::Mid,
        0x4Cu8 => IfrOpcode::Find,
        0x4Du8 => IfrOpcode::Token,
        0x4Eu8 => IfrOpcode::StringRef1,
        0x4Fu8 => IfrOpcode::StringRef2,
        0x50u8 => IfrOpcode::Conditional,
        0x51u8 => IfrOpcode::QuestionRef3,
        0x52u8 => IfrOpcode::Zero,
        0x53u8 => IfrOpcode::One,
        0x54u8 => IfrOpcode::Ones,
        0x55u8 => IfrOpcode::Undefined,
        0x56u8 => IfrOpcode::Length,
        0x57u8 => IfrOpcode::Dup,
        0x58u8 => IfrOpcode::This,
        0x59u8 => IfrOpcode::Span,
        0x5Au8 => IfrOpcode::Value,
        0x5Bu8 => IfrOpcode::DefaultOp,
        0x5Cu8 => IfrOpcode::DefaultStore,
        0x5Du8 => IfrOpcode::FormMap,
        0x5Eu8 => IfrOpcode::Catenate,
        0x5Fu8 => IfrOpcode::Guid,
        0x60u8 => IfrOpcode::Security,
        0x61u8 => IfrOpcode::ModalTag,
        0x62u8 => IfrOpcode::RefreshId,
        0x63u8 => IfrOpcode::WarningIf,
        0x64u8 => IfrOpcode::Match2,
        _ => IfrOpcode::Unknown(x),
    }
}

pub fn decode_op(x: u8) -> (r: IfrOpcode)
    ensures
        r == spec_decode_op(x),
{
    match x {
        0x01u8 => IfrOpcode::Form,
        0x02u8 => IfrOpcode::Subtitle,
        0x03u8 => IfrOpcode::Text,
        0x04u8 => IfrOpcode::Image,
        0x05u8 => IfrOpcode::OneOf,
        0x06u8 => IfrOpcode::CheckBox,
        0x07u8 => IfrOpcode::Numeric,
        0x08u8 => IfrOpcode::Password,
        0x09u8 => IfrOpcode::OneOfOption,
        0x0Au8 => IfrOpcode::SuppressIf,
        0x0Bu8 => IfrOpcode::Locked,
        0x0Cu8 => IfrOpcode::Action,
        0x0Du8 => IfrOpcode::ResetButton,
        0x0Eu8 => IfrOpcode::FormSet,
        0x0Fu8 => IfrOpcode::Ref,
        0x10u8 => IfrOpcode::NoSubmitIf,
        0x11u8 => IfrOpcode::InconsistentIf,
        0x12u8 => IfrOpcode::EqIdVal,
        0x13u8 => IfrOpcode::EqIdId,
        0x14u8 => IfrOpcode::EqIdValList,
        0x15u8 => IfrOpcode::And,
        0x16u8 => IfrOpcode::Or,
        0x17u8 => IfrOpcode::Not,
        0x18u8 => IfrOpcode::Rule,
        0x19u8 => IfrOpcode::GrayOutIf,
        0x1Au8 => IfrOpcode::Date,
        0x1Bu8 => IfrOpcode::Time,
        0x1Cu8 => IfrOpcode::StringOp,
        0x1Du8 => IfrOpcode::Refresh,
        0x1Eu8 => IfrOpcode::DisableIf,
        0x1Fu8 => IfrOpcode::Animation,
        0x20u8 => IfrOpcode::ToLower,
        0x21u8 => IfrOpcode::ToUpper,
        0x22u8 => IfrOpcode::MapOp,
        0x23u8 => IfrOpcode::OrderedList,
        0x24u8 => IfrOpcode::VarStore,
        0x25u8 => IfrOpcode::VarStoreNameValue,
        0x26u8 => IfrOpcode::VarStoreEfi,
        0x27u8 => IfrOpcode::VarStoreDevice,
        0x28u8 => IfrOpcode::Version,
        0x29u8 => IfrOpcode::End,
        0x2Au8 => IfrOpcode::Match,
        0x2Bu8 => IfrOpcode::Get,
        0x2Cu8 => IfrOpcode::SetOp,
        0x2Du8 => IfrOpcode::Read,
        0x2Eu8 => IfrOpcode::Write,
        0x2Fu8 => IfrOpcode::Equal,
        0x30u8 => IfrOpcode::NotEqual,
        0x31u8 => IfrOpcode::GreaterThan,
        0x32u8 => IfrOpcode::GreaterEqual,
        0x33u8 => IfrOpcode::LessThan,
        0x34u8 => IfrOpcode::LessEqual,
        0x35u8 => IfrOpcode::BitwiseAnd,
        0x36u8 => IfrOpcode::BitwiseOr,
        0x37u8 => IfrOpcode::BitwiseNot,
        0x38u8 => IfrOpcode::ShiftLeft,
        0x39u8 => IfrOpcode::ShiftRight,
        0x3Au8 => IfrOpcode::AddOp,
        0x3Bu8 => IfrOpcode::Substract,
        0x3Cu8 => IfrOpcode::Multiply,
        0x3Du8 => IfrOpcode::Divide,
        0x3Eu8 => IfrOpcode::Modulo,
        0x3Fu8 => IfrOpcode::RuleRef,
        0x40u8 => IfrOpcode::QuestionRef1,
        0x41u8 => IfrOpcode::QuestionRef2,
        0x42u8 => IfrOpcode::Uint8,
        0x43u8 => IfrOpcode::Uint16,
        0x44u8 => IfrOpcode::Uint32,
        0x45u8 => IfrOpcode::Uint64,
        0x46u8 => IfrOpcode::True,
        0x47u8 => IfrOpcode::False,
        0x48u8 => IfrOpcode::ToUint,
        0x49u8 => IfrOpcode::ToString,
        0x4Au8 => IfrOpcode::ToBoolean,
        0x4Bu8 => IfrOpcode::Mid,
        0x4Cu8 => IfrOpcode::Find,
        0x4Du8 => IfrOpcode::Token,
        0x4Eu8 => IfrOpcode::StringRef1,
        0x4Fu8 => IfrOpcode::StringRef2,
        0x50u8 => IfrOpcode::Conditional,
        0x51u8 => IfrOpcode::QuestionRef3,
        0x52u8 => IfrOpcode::Zero,
        0x53u8 => IfrOpcode::One,
        0x54u8 => IfrOpcode::Ones,
        0x55u8 => IfrOpcode::Undefined,
        0x56u8 => IfrOpcode::Length,
        0x57u8 => IfrOpcode::Dup,
        0x58u8 => IfrOpcode::This,
        0x59u8 => IfrOpcode::Span,
        0x5Au8 => IfrOpcode::Value,
        0x5Bu8 => IfrOpcode::DefaultOp,
        0x5Cu8 => IfrOpcode::DefaultStore,
        0x5Du8 => IfrOpcode::FormMap,
        0x5Eu8 => IfrOpcode::Catenate,
        0x5Fu8 => IfrOpcode::Guid,
        0x60u8 => IfrOpcode::Security,
        0x61u8 => IfrOpcode::ModalTag,
        0x62u8 => IfrOpcode::RefreshId,
        0x63u8 => IfrOpcode::WarningIf,
        0x64u8 => IfrOpcode::Match2,
        _ => IfrOpcode::Unknown(x),
    }
}

/// The canonical name an opcode is listed under.
pub open spec fn op_name(op: IfrOpcode) -> Seq<char> {
    match op {
        IfrOpcode::Form => "Form"@,
        IfrOpcode::Subtitle => "Subtitle"@,
        IfrOpcode::Text => "Text"@,
        IfrOpcode::Image => "Image"@,
        IfrOpcode::OneOf => "OneOf"@,
        IfrOpcode::CheckBox => "CheckBox"@,
        IfrOpcode::Numeric => "Numeric"@,
        IfrOpcode::Password => "Password"@,
        IfrOpcode::OneOfOption => "OneOfOption"@,
        IfrOpcode::SuppressIf => "SuppressIf"@,
        IfrOpcode::Locked => "Locked"@,
        IfrOpcode::Action => "Action"@,
        IfrOpcode::ResetButton => "ResetButton"@,
        IfrOpcode::FormSet => "FormSet"@,
        IfrOpcode::Ref => "Ref"@,
        IfrOpcode::NoSubmitIf => "NoSubmitIf"@,
        IfrOpcode::InconsistentIf => "InconsistentIf"@,
        IfrOpcode::EqIdVal => "EqIdVal"@,
        IfrOpcode::EqIdId => "EqIdId"@,
        IfrOpcode::EqIdValList => "EqIdValList"@,
        IfrOpcode::And => "And"@,
        IfrOpcode::Or => "Or"@,
        IfrOpcode::Not => "Not"@,
        IfrOpcode::Rule => "Rule"@,
        IfrOpcode::GrayOutIf => "GrayOutIf"@,
        IfrOpcode::Date => "Date"@,
        IfrOpcode::Time => "Time"@,
        IfrOpcode::StringOp => "String"@,
        IfrOpcode::Refresh => "Refresh"@,
        IfrOpcode::DisableIf => "DisableIf"@,
        IfrOpcode::Animation => "Animation"@,
        IfrOpcode::ToLower => "ToLower"@,
        IfrOpcode::ToUpper => "ToUpper"@,
        IfrOpcode::MapOp => "Map"@,
        IfrOpcode::OrderedList => "OrderedList"@,
        IfrOpcode::VarStore => "VarStore"@,
        IfrOpcode::VarStoreNameValue => "VarStoreNameValue"@,
        IfrOpcode::VarStoreEfi => "VarStoreEfi"@,
        IfrOpcode::VarStoreDevice => "VarStoreDevice"@,
        IfrOpcode::Version => "Version"@,
        IfrOpcode::End => "End"@,
        IfrOpcode::Match => "Match"@,
        IfrOpcode::Get => "Get"@,
        IfrOpcode::SetOp => "Set"@,
        IfrOpcode::Read => "Read"@,
        IfrOpcode::Write => "Write"@,
        IfrOpcode::Equal => "Equal"@,
        IfrOpcode::NotEqual => "NotEqual"@,
        IfrOpcode::GreaterThan => "GreaterThan"@,
        IfrOpcode::GreaterEqual => "GreaterEqual"@,
        IfrOpcode::LessThan => "LessThan"@,
        IfrOpcode::LessEqual => "LessEqual"@,
        IfrOpcode::BitwiseAnd => "BitwiseAnd"@,
        IfrOpcode::BitwiseOr => "BitwiseOr"@,
        IfrOpcode::BitwiseNot => "BitwiseNot"@,
        IfrOpcode::ShiftLeft => "ShiftLeft"@,
        IfrOpcode::ShiftRight => "ShiftRight"@,
        IfrOpcode::AddOp => "Add"@,
        IfrOpcode::Substract => "Substract"@,
        IfrOpcode::Multiply => "Multiply"@,
        IfrOpcode::Divide => "Divide"@,
        IfrOpcode::Modulo => "Modulo"@,
        IfrOpcode::RuleRef => "RuleRef"@,
        IfrOpcode::QuestionRef1 => "QuestionRef1"@,
        IfrOpcode::QuestionRef2 => "QuestionRef2"@,
        IfrOpcode::Uint8 => "Uint8"@,
        IfrOpcode::Uint16 => "Uint16"@,
        IfrOpcode::Uint32 => "Uint32"@,
        IfrOpcode::Uint64 => "Uint64"@,
        IfrOpcode::True => "True"@,
        IfrOpcode::False => "False"@,
        IfrOpcode::ToUint => "ToUint"@,
        IfrOpcode::ToString => "ToString"@,
        IfrOpcode::ToBoolean => "ToBoolean"@,
        IfrOpcode::Mid => "Mid"@,
        IfrOpcode::Find => "Find"@,
        IfrOpcode::Token => "Token"@,
        IfrOpcode::StringRef1 => "StringRef1"@,
        IfrOpcode::StringRef2 => "StringRef2"@,
        IfrOpcode::Conditional => "Conditional"@,
        IfrOpcode::QuestionRef3 => "QuestionRef3"@,
        IfrOpcode::Zero => "Zero"@,
        IfrOpcode::One => "One"@,
        IfrOpcode::Ones => "Ones"@,
        IfrOpcode::Undefined => "Undefined"@,
        IfrOpcode::Length => "Length"@,
        IfrOpcode::Dup => "Dup"@,
        IfrOpcode::This => "This"@,
        IfrOpcode::Span => "Span"@,
        IfrOpcode::Value => "Value"@,
        IfrOpcode::DefaultOp => "Default"@,
        IfrOpcode::DefaultStore => "DefaultStore"@,
        IfrOpcode::FormMap => "FormMap"@,
        IfrOpcode::Catenate => "Catenate"@,
        IfrOpcode::Guid => "Guid"@,
        IfrOpcode::Security => "Security"@,
        IfrOpcode::ModalTag => "ModalTag"@,
        IfrOpcode::RefreshId => "RefreshId"@,
        IfrOpcode::WarningIf => "WarningIf"@,
        IfrOpcode::Match2 => "Match2"@,
        IfrOpcode::Unknown(_) => "Unknown"@,
    }
}

pub fn op_name_str(op: IfrOpcode) -> (r: &'static str)
    ensures
        r@ == op_name(op),
{
    match op {
        IfrOpcode::Form => "Form",
        IfrOpcode::Subtitle => "Subtitle",
        IfrOpcode::Text => "Text",
        IfrOpcode::Image => "Image",
        IfrOpcode::OneOf => "OneOf",
        IfrOpcode::CheckBox => "CheckBox",
        IfrOpcode::Numeric => "Numeric",
        IfrOpcode::Password => "Password",
        IfrOpcode::OneOfOption => "OneOfOption",
        IfrOpcode::SuppressIf => "SuppressIf",
        IfrOpcode::Locked => "Locked",
        IfrOpcode::Action => "Action",
        IfrOpcode::ResetButton => "ResetButton",
        IfrOpcode::FormSet => "FormSet",
        IfrOpcode::Ref => "Ref",
        IfrOpcode::NoSubmitIf => "NoSubmitIf",
        IfrOpcode::InconsistentIf => "InconsistentIf",
        IfrOpcode::EqIdVal => "EqIdVal",
        IfrOpcode::EqIdId => "EqIdId",
        IfrOpcode::EqIdValList => "EqIdValList",
        IfrOpcode::And => "And",
        IfrOpcode::Or => "Or",
        IfrOpcode::Not => "Not",
        IfrOpcode::Rule => "Rule",
        IfrOpcode::GrayOutIf => "GrayOutIf",
        IfrOpcode::Date => "Date",
        IfrOpcode::Time => "Time",
        IfrOpcode::StringOp => "String",
        IfrOpcode::Refresh => "Refresh",
        IfrOpcode::DisableIf => "DisableIf",
        IfrOpcode::Animation => "Animation",
        IfrOpcode::ToLower => "ToLower",
        IfrOpcode::ToUpper => "ToUpper",
        IfrOpcode::MapOp => "Map",
        IfrOpcode::OrderedList => "OrderedList",
        IfrOpcode::VarStore => "VarStore",
        IfrOpcode::VarStoreNameValue => "VarStoreNameValue",
        IfrOpcode::VarStoreEfi => "VarStoreEfi",
        IfrOpcode::VarStoreDevice => "VarStoreDevice",
        IfrOpcode::Version => "Version",
        IfrOpcode::End => "End",
        IfrOpcode::Match => "Match",
        IfrOpcode::Get => "Get",
        IfrOpcode::SetOp => "Set",
        IfrOpcode::Read => "Read",
        IfrOpcode::Write => "Write",
        IfrOpcode::Equal => "Equal",
        IfrOpcode::NotEqual => "NotEqual",
        IfrOpcode::GreaterThan => "GreaterThan",
        IfrOpcode::GreaterEqual => "GreaterEqual",
        IfrOpcode::LessThan => "LessThan",
        IfrOpcode::LessEqual => "LessEqual",
        IfrOpcode::BitwiseAnd => "BitwiseAnd",
        IfrOpcode::BitwiseOr => "BitwiseOr",
        IfrOpcode::BitwiseNot => "BitwiseNot",
        IfrOpcode::ShiftLeft => "ShiftLeft",
        IfrOpcode::ShiftRight => "ShiftRight",
        IfrOpcode::AddOp => "Add",
        IfrOpcode::Substract => "Substract",
        IfrOpcode::Multiply => "Multiply",
        IfrOpcode::Divide => "Divide",
        IfrOpcode::Modulo => "Modulo",
        IfrOpcode::RuleRef => "RuleRef",
        IfrOpcode::QuestionRef1 => "QuestionRef1",
        IfrOpcode::QuestionRef2 => "QuestionRef2",
        IfrOpcode::Uint8 => "Uint8",
        IfrOpcode::Uint16 => "Uint16",
        IfrOpcode::Uint32 => "Uint32",
        IfrOpcode::Uint64 => "Uint64",
        IfrOpcode::True => "True",
        IfrOpcode::False => "False",
        IfrOpcode::ToUint => "ToUint",
        IfrOpcode::ToString => "ToString",
        IfrOpcode::ToBoolean => "ToBoolean",
        IfrOpcode::Mid => "Mid",
        IfrOpcode::Find => "Find",
        IfrOpcode::Token => "Token",
        IfrOpcode::StringRef1 => "StringRef1",
        IfrOpcode::StringRef2 => "StringRef2",
        IfrOpcode::Conditional => "Conditional",
        IfrOpcode::QuestionRef3 => "QuestionRef3",
        IfrOpcode::Zero => "Zero",
        IfrOpcode::One => "One",
        IfrOpcode::Ones => "Ones",
        IfrOpcode::Undefined => "Undefined",
        IfrOpcode::Length => "Length",
        IfrOpcode::Dup => "Dup",
        IfrOpcode::This => "This",
        IfrOpcode::Span => "Span",
        IfrOpcode::Value => "Value",
        IfrOpcode::DefaultOp => "Default",
        IfrOpcode::DefaultStore => "DefaultStore",
        IfrOpcode::FormMap => "FormMap",
        IfrOpcode::Catenate => "Catenate",
        IfrOpcode::Guid => "Guid",
        IfrOpcode::Security => "Security",
        IfrOpcode::ModalTag => "ModalTag",
        IfrOpcode::RefreshId => "RefreshId",
        IfrOpcode::WarningIf => "WarningIf",
        IfrOpcode::Match2 => "Match2",
        IfrOpcode::Unknown(_) => "Unknown",
    }
}

} // verus!
