use ifrextractor::find_uefi_packages;

#[test]
fn empty_input_yields_empty_lists() {
    let (ss, fs) = find_uefi_packages(&[]);
    assert!(ss.is_empty());
    assert!(fs.is_empty());
}

#[test]
fn noise_only_yields_empty_lists() {
    let data = [0u8; 4096];
    let (ss, fs) = find_uefi_packages(&data);
    assert!(ss.is_empty());
    assert!(fs.is_empty());
}
