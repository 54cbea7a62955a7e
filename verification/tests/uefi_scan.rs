use ifrextractor::find_uefi_packages;
use ifrextractor::uefi::uefi_form_referenced_ids;

fn le24(v: usize) -> [u8; 3] {
    [(v & 0xFF) as u8, ((v >> 8) & 0xFF) as u8, ((v >> 16) & 0xFF) as u8]
}

fn ucs2(s: &str) -> Vec<u8> {
    let mut out = Vec::new();
    for u in s.encode_utf16() {
        out.push((u & 0xFF) as u8);
        out.push((u >> 8) as u8);
    }
    out.push(0);
    out.push(0);
    out
}

/// A UEFI string package: fixed header fields, a language tag, then the
/// given string-information blocks.
fn uefi_string_pkg(lang: &str, blocks: &[u8]) -> Vec<u8> {
    let body_len = 42 + lang.len() + 1 + blocks.len();
    let total = 4 + body_len;
    let mut out = Vec::new();
    out.extend_from_slice(&le24(total));
    out.push(0x04);
    out.extend_from_slice(&[0; 4]); // header size
    out.extend_from_slice(&[0; 4]); // string info offset
    out.extend_from_slice(&[0; 32]); // language window
    out.extend_from_slice(&[0; 2]); // language name string id
    out.extend_from_slice(lang.as_bytes());
    out.push(0);
    out.extend_from_slice(blocks);
    assert_eq!(out.len(), total);
    out
}

/// A UEFI form package holding the given opcode stream.
fn uefi_form_pkg(ops: &[u8]) -> Vec<u8> {
    let total = 4 + ops.len();
    let mut out = Vec::new();
    out.extend_from_slice(&le24(total));
    out.push(0x02);
    out.extend_from_slice(ops);
    out
}

/// A `FormSet` opcode with its scope flag set, and the given title and
/// help identifiers.
fn op_form_set(title: u16, help: u16) -> Vec<u8> {
    let mut out = vec![0x8E, 22];
    out.extend_from_slice(&[0; 16]);
    out.extend_from_slice(&title.to_le_bytes());
    out.extend_from_slice(&help.to_le_bytes());
    out
}

fn s3_buffer() -> Vec<u8> {
    let mut blocks = vec![0x14];
    blocks.extend_from_slice(&ucs2("Title"));
    blocks.push(0x14);
    blocks.extend_from_slice(&ucs2("Help"));
    blocks.push(0x00);
    let mut data = uefi_string_pkg("en-US", &blocks);
    let mut ops = op_form_set(1, 2);
    ops.extend_from_slice(&[0x29, 0x02]); // End
    data.extend_from_slice(&uefi_form_pkg(&ops));
    data
}

#[test]
fn one_string_and_one_form_package() {
    let data = s3_buffer();
    let (ss, fs) = find_uefi_packages(&data);
    assert_eq!(ss.len(), 1);
    assert_eq!(fs.len(), 1);
    let sp = &ss[0];
    assert_eq!(sp.offset, 0);
    assert_eq!(sp.length, 77);
    assert_eq!(sp.language, "en-US");
    assert_eq!(sp.string_id_map.get(&0).unwrap(), "");
    assert_eq!(sp.string_id_map.get(&1).unwrap(), "Title");
    assert_eq!(sp.string_id_map.get(&2).unwrap(), "Help");
    assert_eq!(sp.string_id_map.len(), 3);
    let fp = &fs[0];
    assert_eq!(fp.offset, 77);
    assert_eq!(fp.length, 28);
    assert_eq!(fp.used_strings, 2);
    assert_eq!(fp.min_string_id, 1);
    assert_eq!(fp.max_string_id, 2);
}

#[test]
fn descriptors_are_bounded_ordered_and_disjoint() {
    // Two string packages and two form packages separated by noise.
    let mut data = vec![0u8; 5];
    data.extend_from_slice(&s3_buffer());
    data.extend_from_slice(&[0u8; 3]);
    data.extend_from_slice(&s3_buffer());
    let (ss, fs) = find_uefi_packages(&data);
    assert_eq!(ss.len(), 2);
    assert_eq!(fs.len(), 2);
    for sp in &ss {
        assert!(sp.offset + sp.length <= data.len());
    }
    for fp in &fs {
        assert!(fp.offset + fp.length <= data.len());
    }
    assert!(ss[0].offset + ss[0].length <= ss[1].offset);
    assert!(fs[0].offset + fs[0].length <= fs[1].offset);
    assert!(ss[0].offset < ss[1].offset);
    assert!(fs[0].offset < fs[1].offset);
    assert_eq!(ss[0].offset, 5);
    assert_eq!(fs[0].offset, 5 + 77);
    assert_eq!(ss[1].offset, 5 + 105 + 3);
    assert_eq!(fs[1].offset, 5 + 105 + 3 + 77);
}

#[test]
fn rewalking_a_form_package_matches_its_summary() {
    let data = s3_buffer();
    let (_, fs) = find_uefi_packages(&data);
    let fp = &fs[0];
    let mut ids = uefi_form_referenced_ids(&data, fp.offset, fp.length).unwrap();
    ids.sort();
    ids.dedup();
    assert_eq!(ids.len(), fp.used_strings);
    assert_eq!(*ids.first().unwrap(), fp.min_string_id);
    assert_eq!(*ids.last().unwrap(), fp.max_string_id);
    assert_eq!(ids, vec![1, 2]);
}

#[test]
fn form_package_without_string_references_is_discarded() {
    // A form package whose only opcode carries no string identifier.
    let mut data = s3_buffer();
    data.extend_from_slice(&uefi_form_pkg(&[0x29, 0x02])); // lone End
    let (ss, fs) = find_uefi_packages(&data);
    assert_eq!(ss.len(), 1);
    assert_eq!(fs.len(), 1);
}

#[test]
fn string_packages_without_forms_yield_empty_lists() {
    let blocks = [0x00];
    let data = uefi_string_pkg("en-US", &blocks);
    let (ss, fs) = find_uefi_packages(&data);
    assert!(ss.is_empty());
    assert!(fs.is_empty());
}

#[test]
fn surrogate_pairs_combine_and_lone_surrogates_are_replaced() {
    // One string: a surrogate pair, a lone high surrogate, then 'A'.
    let mut blocks = vec![0x14];
    for u in [0xD83Du16, 0xDE00, 0xD800, 0x0041, 0x0000] {
        blocks.push((u & 0xFF) as u8);
        blocks.push((u >> 8) as u8);
    }
    blocks.push(0x00);
    let mut data = uefi_string_pkg("en-US", &blocks);
    let mut ops = op_form_set(1, 1);
    ops.extend_from_slice(&[0x29, 0x02]);
    data.extend_from_slice(&uefi_form_pkg(&ops));
    let (ss, _) = find_uefi_packages(&data);
    assert_eq!(ss[0].string_id_map.get(&1).unwrap(), "\u{1F600}\u{FFFD}A");
}

#[test]
fn skip_and_duplicate_blocks_advance_identifiers() {
    let mut blocks = vec![0x14];
    blocks.extend_from_slice(&ucs2("A")); // id 1
    blocks.push(0x22); // Skip1
    blocks.push(5); // 2 -> 7
    blocks.push(0x14);
    blocks.extend_from_slice(&ucs2("B")); // id 7
    blocks.push(0x21); // Skip2
    blocks.extend_from_slice(&[1, 0]); // 8 -> 9
    blocks.extend_from_slice(&[0x20, 0, 0]); // Duplicate: 9 -> 10
    blocks.push(0x14);
    blocks.extend_from_slice(&ucs2("C")); // id 10
    blocks.push(0x00);
    let mut data = uefi_string_pkg("en", &blocks);
    let mut ops = op_form_set(1, 1);
    ops.extend_from_slice(&[0x29, 0x02]);
    data.extend_from_slice(&uefi_form_pkg(&ops));
    let (ss, _) = find_uefi_packages(&data);
    let m = &ss[0].string_id_map;
    assert_eq!(m.get(&1).unwrap(), "A");
    assert_eq!(m.get(&7).unwrap(), "B");
    assert_eq!(m.get(&10).unwrap(), "C");
    assert!(m.get(&2).is_none());
    assert!(m.get(&9).is_none());
    assert_eq!(m.len(), 4);
}

#[test]
fn latin1_scsu_strings_decode_bytewise() {
    // An SCSU block in the default window: bytes are Latin-1.
    let mut blocks = vec![0x10];
    blocks.extend_from_slice(b"caf\xE9\0");
    blocks.push(0x00);
    let mut data = uefi_string_pkg("fr", &blocks);
    let mut ops = op_form_set(1, 1);
    ops.extend_from_slice(&[0x29, 0x02]);
    data.extend_from_slice(&uefi_form_pkg(&ops));
    let (ss, _) = find_uefi_packages(&data);
    assert_eq!(ss[0].string_id_map.get(&1).unwrap(), "caf\u{E9}");
}

#[test]
fn truncated_string_package_is_not_recorded() {
    // Declared length runs past the end of the buffer.
    let mut data = s3_buffer();
    let cut = data.len() - 10;
    data.truncate(cut);
    let (ss, fs) = find_uefi_packages(&data);
    // The form package was cut off, so nothing pairs up and the scan
    // reports the empty pair.
    assert!(ss.is_empty());
    assert!(fs.is_empty());
}

#[test]
fn guid_extension_opcodes_contribute_string_identifiers() {
    // A banner extension carries a title identifier; the variable-name
    // extension encodes its identifier as high byte times 100 plus low
    // byte.
    let mut blocks = vec![0x14];
    blocks.extend_from_slice(&ucs2("Title"));
    blocks.push(0x00);
    let mut data = uefi_string_pkg("en-US", &blocks);

    let mut ops = op_form_set(1, 2);
    // Banner extension: 0F0B1735-87A0-4193-B266-538C38AF48CE, tag 0x01,
    // then its title identifier.
    ops.extend_from_slice(&[0x5F, 24]);
    ops.extend_from_slice(&[
        0x35, 0x17, 0x0B, 0x0F, 0xA0, 0x87, 0x93, 0x41, 0xB2, 0x66, 0x53, 0x8C, 0x38, 0xAF,
        0x48, 0xCE,
    ]);
    ops.push(0x01);
    ops.extend_from_slice(&5u16.to_le_bytes()); // title
    ops.extend_from_slice(&[0, 0]); // line number
    ops.push(0); // alignment
    // Variable-name extension: 31CA5D1A-D511-4931-B782-AE6B2B178CD7,
    // tag 0x01, a question identifier, then the two name bytes.
    ops.extend_from_slice(&[0x5F, 23]);
    ops.extend_from_slice(&[
        0x1A, 0x5D, 0xCA, 0x31, 0x11, 0xD5, 0x31, 0x49, 0xB7, 0x82, 0xAE, 0x6B, 0x2B, 0x17,
        0x8C, 0xD7,
    ]);
    ops.push(0x01);
    ops.extend_from_slice(&9u16.to_le_bytes()); // question identifier
    ops.extend_from_slice(&[7, 1]); // name identifier 1 * 100 + 7
    ops.extend_from_slice(&[0x29, 0x02]);
    data.extend_from_slice(&uefi_form_pkg(&ops));

    let (_, fs) = find_uefi_packages(&data);
    assert_eq!(fs.len(), 1);
    let fp = &fs[0];
    assert_eq!(fp.used_strings, 4); // {1, 2, 5, 107}
    assert_eq!(fp.min_string_id, 1);
    assert_eq!(fp.max_string_id, 107);
}

#[test]
fn form_map_methods_each_contribute_a_title() {
    let mut blocks = vec![0x14];
    blocks.extend_from_slice(&ucs2("Title"));
    blocks.push(0x00);
    let mut data = uefi_string_pkg("en-US", &blocks);

    let mut ops = op_form_set(1, 2);
    // A form map with two 18-byte method records.
    ops.extend_from_slice(&[0x5D, 2 + 2 + 36]);
    ops.extend_from_slice(&4u16.to_le_bytes()); // form identifier
    ops.extend_from_slice(&[0; 16]);
    ops.extend_from_slice(&30u16.to_le_bytes()); // first method title
    ops.extend_from_slice(&[0; 16]);
    ops.extend_from_slice(&31u16.to_le_bytes()); // second method title
    ops.extend_from_slice(&[0x29, 0x02]);
    data.extend_from_slice(&uefi_form_pkg(&ops));

    let (_, fs) = find_uefi_packages(&data);
    assert_eq!(fs.len(), 1);
    let fp = &fs[0];
    assert_eq!(fp.used_strings, 4); // {1, 2, 30, 31}
    assert_eq!(fp.max_string_id, 31);
}

#[test]
fn counted_string_blocks_assign_successive_identifiers() {
    // One block carrying two UCS-2 strings back to back.
    let mut blocks = vec![0x16];
    blocks.extend_from_slice(&2u16.to_le_bytes());
    blocks.extend_from_slice(&ucs2("One"));
    blocks.extend_from_slice(&ucs2("Two"));
    blocks.push(0x00);
    let mut data = uefi_string_pkg("en", &blocks);
    let mut ops = op_form_set(1, 2);
    ops.extend_from_slice(&[0x29, 0x02]);
    data.extend_from_slice(&uefi_form_pkg(&ops));
    let (ss, _) = find_uefi_packages(&data);
    let m = &ss[0].string_id_map;
    assert_eq!(m.get(&1).unwrap(), "One");
    assert_eq!(m.get(&2).unwrap(), "Two");
}

#[test]
fn extension_blocks_are_skipped_by_their_declared_length() {
    let mut blocks = Vec::new();
    blocks.extend_from_slice(&[0x30, 0x99, 5, 0, 0]); // five bytes in all
    blocks.push(0x14);
    blocks.extend_from_slice(&ucs2("After"));
    blocks.push(0x00);
    let mut data = uefi_string_pkg("en", &blocks);
    let mut ops = op_form_set(1, 1);
    ops.extend_from_slice(&[0x29, 0x02]);
    data.extend_from_slice(&uefi_form_pkg(&ops));
    let (ss, _) = find_uefi_packages(&data);
    assert_eq!(ss[0].string_id_map.get(&1).unwrap(), "After");
}
