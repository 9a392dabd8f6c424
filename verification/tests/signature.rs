use xyron_core::security::LQV;

#[test]
fn signature_string_joins_parts_exactly() {
    assert_eq!(
        LQV::signature_string("node-01", false, 1690000000, "token"),
        "X11_VAL_node-01_1690000000_token"
    );
    assert_eq!(
        LQV::signature_string("node-01", true, 0, "t"),
        "X11_SMS_node-01_0_t"
    );
}

#[test]
fn signature_has_documented_format() {
    let sig = LQV::generate_signature("nodeid0001", false);
    let parts: Vec<&str> = sig.split('_').collect();
    assert_eq!(parts.len(), 5);
    assert_eq!(parts[0], "X11");
    assert_eq!(parts[1], "VAL");
    assert_eq!(parts[2], "nodeid0001");
    assert!(!parts[3].is_empty());
    assert!(parts[3].bytes().all(|b| b.is_ascii_digit()));
    assert_eq!(parts[4].len(), 32);
    assert!(parts[4]
        .bytes()
        .all(|b| b.is_ascii_digit() || (b'a'..=b'f').contains(&b)));
}

#[test]
fn signature_tags_payload_presence() {
    let plain = LQV::generate_signature("nodeid0001", false);
    let with_payload = LQV::generate_signature("nodeid0001", true);
    assert!(plain.starts_with("X11_VAL_nodeid0001_"));
    assert!(with_payload.starts_with("X11_SMS_nodeid0001_"));
}

#[test]
fn signatures_never_repeat() {
    let mut seen = Vec::new();
    for _ in 0..200 {
        let sig = LQV::generate_signature("samenode01", true);
        assert!(!seen.contains(&sig));
        seen.push(sig);
    }
}
