use std::collections::HashMap;
use ifrextractor::{find_framework_packages, extract_framework_ifr, FormPackage, StringPackage};
use ifrextractor::framework::fr_form_referenced_ids;

/// A Framework string pack with the given pool strings; the language
/// offset points at entry `lang_index`.
fn fr_string_pack(strings: &[&str], lang_index: Option<usize>) -> Vec<u8> {
    let n = strings.len();
    let mut pool = Vec::new();
    let mut offsets = Vec::new();
    for s in strings {
        offsets.push(24 + 4 * n + pool.len());
        pool.extend_from_slice(s.as_bytes());
        pool.push(0);
    }
    let lang_off = match lang_index {
        Some(k) => offsets[k] as u32,
        None => 0xFFFF_FFFF,
    };
    let body_len = 24 + 4 * n + pool.len();
    let total = 6 + body_len;
    let mut out = Vec::new();
    out.extend_from_slice(&(total as u32).to_le_bytes());
    out.extend_from_slice(&2u16.to_le_bytes());
    out.extend_from_slice(&0u32.to_le_bytes()); // header size
    out.extend_from_slice(&0u32.to_le_bytes()); // string info offset
    out.extend_from_slice(&(n as u32).to_le_bytes()); // pointer count
    out.extend_from_slice(&0u32.to_le_bytes()); // attributes
    out.extend_from_slice(&lang_off.to_le_bytes()); // language name offset
    out.extend_from_slice(&0u32.to_le_bytes()); // printable name offset
    for off in &offsets {
        out.extend_from_slice(&(*off as u32).to_le_bytes());
    }
    out.extend_from_slice(&pool);
    assert_eq!(out.len(), total);
    out
}

fn fr_form_pack(ops: &[u8]) -> Vec<u8> {
    let total = 6 + ops.len();
    let mut out = Vec::new();
    out.extend_from_slice(&(total as u32).to_le_bytes());
    out.extend_from_slice(&3u16.to_le_bytes());
    out.extend_from_slice(ops);
    out
}

fn op_fr_form_set(title: u16, help: u16) -> Vec<u8> {
    let mut out = vec![0x0E, 36];
    out.extend_from_slice(&[0; 16]); // guid
    out.extend_from_slice(&title.to_le_bytes());
    out.extend_from_slice(&help.to_le_bytes());
    out.extend_from_slice(&[0; 8]); // callback handle
    out.extend_from_slice(&[0; 6]); // class, subclass, nv data size
    out
}

fn nested_buffer() -> Vec<u8> {
    let mut data = fr_string_pack(&["eng", "Ttl"], Some(0));
    let mut ops = op_fr_form_set(1, 1);
    ops.extend_from_slice(&[0x01, 6]); // Form
    ops.extend_from_slice(&1u16.to_le_bytes()); // form id
    ops.extend_from_slice(&1u16.to_le_bytes()); // title
    ops.extend_from_slice(&[0x0B, 2]); // EndForm
    ops.extend_from_slice(&[0x0D, 2]); // EndFormSet
    data.extend_from_slice(&fr_form_pack(&ops));
    data
}

#[test]
fn nested_form_indents_one_column() {
    let data = nested_buffer();
    let (ss, fs) = find_framework_packages(&data);
    assert_eq!(ss.len(), 1);
    assert_eq!(fs.len(), 1);
    assert_eq!(ss[0].language, "eng");
    assert_eq!(fs[0].used_strings, 1);
    assert_eq!(fs[0].min_string_id, 1);
    assert_eq!(fs[0].max_string_id, 1);
    let text = extract_framework_ifr(&data, &fs[0], &ss[0], false);
    assert_eq!(
        text,
        "Program version: 0.1.0, Extraction mode: Framework\n\
         FormSet Title: \"Ttl\", Help: \"Ttl\", Guid: 00000000-0000-0000-0000-000000000000, \
         Callback: 0x0, Class: 0x0, SubClass: 0x0, NvDataSize: 0x0\n \
         Form Title: \"Ttl\", FormId: 0x1\n \
         EndForm \n\
         EndFormSet \n"
    );
}

#[test]
fn verbose_offsets_start_after_the_six_byte_header() {
    let data = nested_buffer();
    let (ss, fs) = find_framework_packages(&data);
    let text = extract_framework_ifr(&data, &fs[0], &ss[0], true);
    let first = format!("0x{:X}: FormSet", fs[0].offset + 6);
    let second = format!("0x{:X}:  Form", fs[0].offset + 6 + 36);
    assert!(text.contains(&first));
    assert!(text.contains(&second));
}

#[test]
fn language_falls_back_to_the_first_string() {
    let data = {
        let mut d = fr_string_pack(&["first", "second"], None);
        let mut ops = op_fr_form_set(1, 1);
        ops.extend_from_slice(&[0x0D, 2]);
        d.extend_from_slice(&fr_form_pack(&ops));
        d
    };
    let (ss, _) = find_framework_packages(&data);
    assert_eq!(ss[0].language, "first");
}

#[test]
fn framework_identifiers_are_dense_from_zero() {
    let data = nested_buffer();
    let (ss, _) = find_framework_packages(&data);
    let m = &ss[0].string_id_map;
    assert_eq!(m.len(), 2);
    assert_eq!(m.get(&0).unwrap(), "eng");
    assert_eq!(m.get(&1).unwrap(), "Ttl");
}

#[test]
fn framework_rewalk_matches_the_summary() {
    let data = nested_buffer();
    let (_, fs) = find_framework_packages(&data);
    let fp = &fs[0];
    let mut ids = fr_form_referenced_ids(&data, fp.offset, fp.length).unwrap();
    ids.sort();
    ids.dedup();
    assert_eq!(ids.len(), fp.used_strings);
    assert_eq!(*ids.first().unwrap(), fp.min_string_id);
    assert_eq!(*ids.last().unwrap(), fp.max_string_id);
}

#[test]
fn eq_id_list_renders_each_element() {
    let mut ops = op_fr_form_set(1, 1);
    ops.extend_from_slice(&[0x14, 13]); // EqIdList, 11 payload bytes
    ops.extend_from_slice(&1u16.to_le_bytes()); // question id
    ops.push(2); // width
    ops.extend_from_slice(&2u16.to_le_bytes()); // element count
    ops.extend_from_slice(&3u16.to_le_bytes());
    ops.extend_from_slice(&4u16.to_le_bytes());
    ops.extend_from_slice(&[0x0D, 2]);
    let data = fr_form_pack(&ops);
    let fp = FormPackage { offset: 0, length: data.len(), used_strings: 1, min_string_id: 1, max_string_id: 1 };
    let sp = StringPackage {
        offset: 0,
        length: 0,
        language: String::new(),
        string_id_map: HashMap::new(),
    };
    let text = extract_framework_ifr(&data, &fp, &sp, false);
    assert!(text.contains("EqIdList QuestionId: 0x1, Width: 0x2, List: { 0x3, 0x4, }\n"));
}

#[test]
fn framework_extraction_is_pure() {
    let data = nested_buffer();
    let (ss, fs) = find_framework_packages(&data);
    let a = extract_framework_ifr(&data, &fs[0], &ss[0], true);
    let b = extract_framework_ifr(&data, &fs[0], &ss[0], true);
    assert_eq!(a, b);
}

#[test]
fn framework_empty_and_noise_inputs_yield_empty_lists() {
    let (ss, fs) = find_framework_packages(&[]);
    assert!(ss.is_empty() && fs.is_empty());
    let noise = [0u8; 2048];
    let (ss, fs) = find_framework_packages(&noise);
    assert!(ss.is_empty() && fs.is_empty());
}

#[test]
fn framework_text_and_option_payloads_render_their_keys() {
    let mut ops = op_fr_form_set(1, 1);
    ops.extend_from_slice(&[0x03, 11]); // Text, 9 payload bytes
    ops.extend_from_slice(&1u16.to_le_bytes()); // help
    ops.extend_from_slice(&1u16.to_le_bytes()); // text
    ops.extend_from_slice(&0u16.to_le_bytes()); // second text
    ops.push(0x0A); // flags
    ops.extend_from_slice(&0x1Fu16.to_le_bytes()); // key
    ops.extend_from_slice(&[0x09, 9]); // OneOfOption, 7 payload bytes
    ops.extend_from_slice(&1u16.to_le_bytes()); // option
    ops.extend_from_slice(&4u16.to_le_bytes()); // value
    ops.push(0x02); // flags
    ops.extend_from_slice(&9u16.to_le_bytes()); // key
    ops.extend_from_slice(&[0x0D, 2]);
    let data = fr_form_pack(&ops);
    let (ss, fs) = {
        let mut full = fr_string_pack(&["eng", "Ttl"], Some(0));
        full.extend_from_slice(&data);
        find_framework_packages(&full)
    };
    let mut full = fr_string_pack(&["eng", "Ttl"], Some(0));
    full.extend_from_slice(&data);
    let text = extract_framework_ifr(&full, &fs[0], &ss[0], false);
    assert!(text.contains(
        " Text Text: \"Ttl\", TextTwo: \"eng\", Help: \"Ttl\", Flags: 0xA, Key: 0x1F\n"
    ));
    assert!(text.contains(
        " OneOfOption Option: \"Ttl\", Value: 0x4, Flags: 0x2, Key: 0x9\n"
    ));
}

#[test]
fn framework_var_store_renders_its_inline_name() {
    let mut ops = op_fr_form_set(1, 1);
    let name = b"Setup\0";
    ops.extend_from_slice(&[0x24, (2 + 20 + name.len()) as u8]); // VarStore
    ops.extend_from_slice(&[0; 16]); // guid
    ops.extend_from_slice(&7u16.to_le_bytes()); // var store id
    ops.extend_from_slice(&0x40u16.to_le_bytes()); // size
    ops.extend_from_slice(name);
    ops.extend_from_slice(&[0x0D, 2]);
    let mut data = fr_string_pack(&["eng"], Some(0));
    data.extend_from_slice(&fr_form_pack(&ops));
    let (ss, fs) = find_framework_packages(&data);
    let text = extract_framework_ifr(&data, &fs[0], &ss[0], false);
    assert!(text.contains(
        " VarStore VarstoreId: 0x7, Guid: 00000000-0000-0000-0000-000000000000, \
         Name: \"Setup\", Size: 0x40\n"
    ));
}
