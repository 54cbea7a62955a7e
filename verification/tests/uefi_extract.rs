use std::collections::HashMap;
use ifrextractor::{find_uefi_packages, extract_uefi_ifr, FormPackage, StringPackage};

fn le24(v: usize) -> [u8; 3] {
    [(v & 0xFF) as u8, ((v >> 8) & 0xFF) as u8, ((v >> 16) & 0xFF) as u8]
}

fn ucs2(s: &str) -> Vec<u8> {
    let mut out = Vec::new();
    for u in s.encode_utf16() {
        out.push((u & 0xFF) as u8);
        out.push((u >> 8) as u8);
    }
    out.push(0);
    out.push(0);
    out
}

fn uefi_string_pkg(lang: &str, blocks: &[u8]) -> Vec<u8> {
    let total = 4 + 42 + lang.len() + 1 + blocks.len();
    let mut out = Vec::new();
    out.extend_from_slice(&le24(total));
    out.push(0x04);
    out.extend_from_slice(&[0; 40]);
    out.extend_from_slice(&[0; 2]);
    out.extend_from_slice(lang.as_bytes());
    out.push(0);
    out.extend_from_slice(blocks);
    out
}

fn uefi_form_pkg(ops: &[u8]) -> Vec<u8> {
    let mut out = Vec::new();
    out.extend_from_slice(&le24(4 + ops.len()));
    out.push(0x02);
    out.extend_from_slice(ops);
    out
}

fn op_form_set(title: u16, help: u16) -> Vec<u8> {
    let mut out = vec![0x8E, 22];
    out.extend_from_slice(&[0; 16]);
    out.extend_from_slice(&title.to_le_bytes());
    out.extend_from_slice(&help.to_le_bytes());
    out
}

fn s3_buffer() -> Vec<u8> {
    let mut blocks = vec![0x14];
    blocks.extend_from_slice(&ucs2("Title"));
    blocks.push(0x14);
    blocks.extend_from_slice(&ucs2("Help"));
    blocks.push(0x00);
    let mut data = uefi_string_pkg("en-US", &blocks);
    let mut ops = op_form_set(1, 2);
    ops.extend_from_slice(&[0x29, 0x02]);
    data.extend_from_slice(&uefi_form_pkg(&ops));
    data
}

fn empty_string_pkg() -> StringPackage {
    StringPackage {
        offset: 0,
        length: 0,
        language: String::new(),
        string_id_map: HashMap::new(),
    }
}

#[test]
fn form_set_and_end_render_one_line_each() {
    let data = s3_buffer();
    let (ss, fs) = find_uefi_packages(&data);
    let text = extract_uefi_ifr(&data, &fs[0], &ss[0], false);
    assert_eq!(
        text,
        "Program version: 0.1.0, Extraction mode: UEFI\n\
         FormSet Title: \"Title\", Help: \"Help\", Guid: 00000000-0000-0000-0000-000000000000\n\
         End \n"
    );
}

#[test]
fn verbose_lines_carry_absolute_offsets() {
    let data = s3_buffer();
    let (ss, fs) = find_uefi_packages(&data);
    let text = extract_uefi_ifr(&data, &fs[0], &ss[0], true);
    // The first opcode sits right after the four-byte package header, and
    // each following offset advances by the previous opcode's length.
    assert_eq!(fs[0].offset, 77);
    assert_eq!(
        text,
        "Program version: 0.1.0, Extraction mode: UEFI\n\
         0x51: FormSet Title: \"Title\", Help: \"Help\", Guid: 00000000-0000-0000-0000-000000000000\n\
         0x67: End \n"
    );
}

#[test]
fn unknown_opcode_renders_its_raw_bytes() {
    let data = uefi_form_pkg(&[0x7F, 0x04, 0xAA, 0xBB]);
    let fp = FormPackage { offset: 0, length: 8, used_strings: 0, min_string_id: 0, max_string_id: 0 };
    let text = extract_uefi_ifr(&data, &fp, &empty_string_pkg(), false);
    assert_eq!(
        text,
        "Program version: 0.1.0, Extraction mode: UEFI\n\
         Unknown RawData: [AA, BB]\n"
    );
}

#[test]
fn extraction_is_pure() {
    let data = s3_buffer();
    let (ss, fs) = find_uefi_packages(&data);
    let a = extract_uefi_ifr(&data, &fs[0], &ss[0], true);
    let b = extract_uefi_ifr(&data, &fs[0], &ss[0], true);
    assert_eq!(a, b);
}

#[test]
fn missing_identifier_renders_invalid_id() {
    let data = s3_buffer();
    let (_, fs) = find_uefi_packages(&data);
    let text = extract_uefi_ifr(&data, &fs[0], &empty_string_pkg(), false);
    assert!(text.contains("Title: \"InvalidId\", Help: \"InvalidId\""));
}

#[test]
fn check_box_default_flags_are_spelled_out() {
    // FormSet opens a scope; the check box inside it carries flag bit 0.
    let mut ops = op_form_set(1, 2);
    ops.extend_from_slice(&[0x06, 14]); // CheckBox, 12 payload bytes
    ops.extend_from_slice(&1u16.to_le_bytes()); // prompt
    ops.extend_from_slice(&2u16.to_le_bytes()); // help
    ops.extend_from_slice(&7u16.to_le_bytes()); // question id
    ops.extend_from_slice(&3u16.to_le_bytes()); // var store id
    ops.extend_from_slice(&8u16.to_le_bytes()); // var offset
    ops.push(0x10); // question flags
    ops.push(0x01); // flags: default set, manufacturing default clear
    ops.extend_from_slice(&[0x29, 0x02]);
    let data = uefi_form_pkg(&ops);
    let fp = FormPackage { offset: 0, length: data.len(), used_strings: 2, min_string_id: 1, max_string_id: 2 };
    let text = extract_uefi_ifr(&data, &fp, &empty_string_pkg(), false);
    assert!(text.contains(
        " CheckBox Prompt: \"InvalidId\", Help: \"InvalidId\", QuestionFlags: 0x10, \
         QuestionId: 0x7, VarStoreId: 0x3, VarOffset: 0x8, Flags: 0x1, \
         Default: Enabled, MfgDefault: Disabled\n"
    ));
}

#[test]
fn numeric_renders_its_selected_width_triple() {
    // A Numeric question with 16-bit minimum, maximum and step.
    let mut ops = op_form_set(1, 2);
    ops.extend_from_slice(&[0x07, 20]); // Numeric, 18 payload bytes
    ops.extend_from_slice(&1u16.to_le_bytes());
    ops.extend_from_slice(&2u16.to_le_bytes());
    ops.extend_from_slice(&5u16.to_le_bytes());
    ops.extend_from_slice(&1u16.to_le_bytes());
    ops.extend_from_slice(&0u16.to_le_bytes());
    ops.push(0x00); // question flags
    ops.push(0x01); // flags: 16-bit data
    ops.extend_from_slice(&0x10u16.to_le_bytes()); // min
    ops.extend_from_slice(&0xABCu16.to_le_bytes()); // max
    ops.extend_from_slice(&2u16.to_le_bytes()); // step
    ops.extend_from_slice(&[0x29, 0x02]);
    let data = uefi_form_pkg(&ops);
    let fp = FormPackage { offset: 0, length: data.len(), used_strings: 2, min_string_id: 1, max_string_id: 2 };
    let text = extract_uefi_ifr(&data, &fp, &empty_string_pkg(), false);
    assert!(text.contains(", Flags: 0x1, Size: 16, Min: 0x10, Max: 0xABC, Step: 0x2\n"));
}

#[test]
fn extraction_outside_the_buffer_yields_only_the_preamble() {
    let data = s3_buffer();
    let fp = FormPackage { offset: data.len() + 100, length: 8, used_strings: 1, min_string_id: 1, max_string_id: 1 };
    let text = extract_uefi_ifr(&data, &fp, &empty_string_pkg(), false);
    assert_eq!(text, "Program version: 0.1.0, Extraction mode: UEFI\n");
}
