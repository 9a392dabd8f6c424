use xyron_core::hexfmt::{hex_string, u64_to_string};

#[test]
fn hex_string_matches_reference_encoder() {
    let cases: Vec<Vec<u8>> = vec![
        vec![],
        vec![0],
        vec![255],
        vec![0x0f, 0xf0, 0x5a],
        (0u8..=255).collect(),
    ];
    for bytes in cases {
        assert_eq!(hex_string(&bytes), hex::encode(&bytes));
    }
}

#[test]
fn u64_to_string_matches_decimal() {
    for n in [0u64, 1, 9, 10, 11, 99, 100, 1690000000, u64::MAX] {
        assert_eq!(u64_to_string(n), format!("{n}"));
    }
}
