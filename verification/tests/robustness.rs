use ifrextractor::{find_framework_packages, find_uefi_packages};

/// A fixed-seed linear congruential generator, so the buffer is arbitrary
/// but reproducible.
fn pseudo_random_bytes(len: usize, mut state: u64) -> Vec<u8> {
    let mut out = Vec::with_capacity(len);
    for _ in 0..len {
        state = state.wrapping_mul(6364136223846793005).wrapping_add(1442695040888963407);
        out.push((state >> 56) as u8);
    }
    out
}

#[test]
fn uefi_scan_of_arbitrary_bytes_returns_valid_lists() {
    for seed in [1u64, 7, 42, 0xDEAD] {
        let data = pseudo_random_bytes(8192, seed);
        let (ss, fs) = find_uefi_packages(&data);
        let mut prev_end = 0usize;
        for sp in &ss {
            assert!(sp.offset + sp.length <= data.len());
            assert!(prev_end <= sp.offset);
            prev_end = sp.offset + sp.length;
        }
        prev_end = 0;
        for fp in &fs {
            assert!(fp.offset + fp.length <= data.len());
            assert!(prev_end <= fp.offset);
            prev_end = fp.offset + fp.length;
            assert!(fp.used_strings >= 1);
            assert!(fp.min_string_id <= fp.max_string_id);
        }
    }
}

#[test]
fn framework_scan_of_arbitrary_bytes_returns_valid_lists() {
    for seed in [3u64, 11, 99, 0xBEEF] {
        let data = pseudo_random_bytes(8192, seed);
        let (ss, fs) = find_framework_packages(&data);
        for sp in &ss {
            assert!(sp.offset + sp.length <= data.len());
        }
        for fp in &fs {
            assert!(fp.offset + fp.length <= data.len());
            assert!(fp.used_strings >= 1);
            assert!(fp.min_string_id <= fp.max_string_id);
        }
    }
}
