use blake2::Digest;
use xyron_core::service::{CoreStats, ValidationRequest, XyronCore};
use xyron_core::x11_nano::X11Nano;

fn request(sms: Option<&str>) -> ValidationRequest {
    ValidationRequest {
        request_id: "r1".to_string(),
        node_id: "node-0000000001".to_string(),
        sms: sms.map(|s| s.to_string()),
        timestamp: 1690000000,
    }
}

#[test]
fn validate_without_payload() {
    let mut core = XyronCore::new("/tmp/xyron-core.sock");
    let resp = core.process_validation(request(None));
    assert_eq!(resp.request_id, "r1");
    assert_eq!(resp.node_id, "node-0000000001");
    assert!(resp.verified);
    assert_eq!(resp.status, "PIP");
    assert!(resp.sms_encrypted.is_none());
    assert_eq!(resp.layers_used, 11);
    assert!(resp.signature.starts_with("X11_VAL_node-0000000001_"));
}

#[test]
fn validate_with_payload() {
    let mut core = XyronCore::new("/tmp/xyron-core.sock");
    let resp = core.process_validation(request(Some("hello")));
    assert!(resp.verified);
    assert_eq!(resp.layers_used, 15);
    assert!(resp.signature.starts_with("X11_SMS_node-0000000001_"));
    let enc = resp.sms_encrypted.expect("payload must be transformed");
    let trace = "BLAKE3|GROESTL|SHA3-256|KECCAK-256|SHA2-256|RIPEMD-160|WHIRLPOOL|\
                 BLAKE2b|STREEBOG|SM3|BLAKE2s|BLAKE3|GROESTL|SHA3-256|KECCAK-256";
    assert!(enc.starts_with(&format!("X11N_ENC_{trace}_X11-")));
    assert_eq!(enc.len(), "X11N_ENC__X11-".len() + trace.len() + 32);
}

#[test]
fn encrypt_sms_at_matches_reference_chain() {
    // Recompute the transform with the underlying crates over the exact
    // combined bytes and the fixed timestamp.
    let out = X11Nano::encrypt_sms_at("hello", "node-0000000001", 1690000000);
    let mut current = b"hello|node-0000000001|1690000000".to_vec();
    for i in 0..15usize {
        current = match i % 11 {
            0 => blake3::hash(&current).as_bytes().to_vec(),
            1 => groestl::Groestl256::digest(&current).to_vec(),
            2 => sha3::Sha3_256::digest(&current).to_vec(),
            3 => keccak_hash::keccak(&current).as_bytes().to_vec(),
            4 => sha2::Sha256::digest(&current).to_vec(),
            5 => ripemd::Ripemd160::digest(&current).to_vec(),
            6 => whirlpool::Whirlpool::digest(&current).to_vec(),
            7 => blake2::Blake2b512::digest(&current)[0..32].to_vec(),
            8 => streebog::Streebog256::digest(&current).to_vec(),
            9 => sm3::Sm3::digest(&current).to_vec(),
            _ => blake2::Blake2s256::digest(&current).to_vec(),
        };
    }
    let last_hex = hex::encode(&current);
    let trace = "BLAKE3|GROESTL|SHA3-256|KECCAK-256|SHA2-256|RIPEMD-160|WHIRLPOOL|\
                 BLAKE2b|STREEBOG|SM3|BLAKE2s|BLAKE3|GROESTL|SHA3-256|KECCAK-256";
    assert_eq!(out, format!("X11N_ENC_{trace}_X11-{}", &last_hex[0..32]));
}

#[test]
fn thousand_validations_count_exactly() {
    let mut core = XyronCore::new("/tmp/xyron-core.sock");
    for i in 0..1000u32 {
        let sms = if i % 2 == 0 { None } else { Some("payload") };
        let resp = core.process_validation(request(sms));
        assert!(resp.verified);
    }
    let report = XyronCore::metrics(&core.stats);
    assert_eq!(report.processed, 1000);
    assert_eq!(report.errors, 0);
}

#[test]
fn record_error_moves_only_the_error_counter() {
    let mut core = XyronCore::new("/tmp/xyron-core.sock");
    core.process_validation(request(None));
    core.record_error();
    assert_eq!(core.stats.processed, 1);
    assert_eq!(core.stats.errors, 1);
}

#[test]
fn example_validation() {
    let mut core = XyronCore::new("/tmp/xyron-core.sock");
    let resp = core.process_validation(ValidationRequest {
        request_id: "r1".to_string(),
        node_id: "node-0000000001".to_string(),
        sms: None,
        timestamp: 1690000000,
    });
    assert!(resp.verified);
    assert_eq!(resp.layers_used, 11);
    assert!(resp.sms_encrypted.is_none());
    assert!(resp.signature.starts_with("X11_VAL_node-0000000001_"));
}

#[test]
fn new_core_starts_zeroed() {
    let core = XyronCore::new("/tmp/xyron-core.sock");
    assert_eq!(core.stats.processed, 0);
    assert_eq!(core.stats.errors, 0);
    assert_eq!(core.stats.total_time, 0);
    assert_eq!(core.stats.active_layers, 11);
    assert!(!core.alert_mode);
    assert_eq!(core.socket_path, "/tmp/xyron-core.sock");
}

#[test]
fn metrics_divide_and_flag_exactly() {
    let report = XyronCore::metrics(&CoreStats {
        processed: 4,
        errors: 1,
        total_time: 401,
        active_layers: 11,
    });
    assert_eq!(report.processed, 4);
    assert_eq!(report.errors, 1);
    assert_eq!(report.avg_time, 100);
    assert_eq!(report.error_pct, 25);
    assert_eq!(report.active_layers, 11);
    assert_eq!(report.status, "PIP PIP");

    let quiet = XyronCore::metrics(&CoreStats {
        processed: 100,
        errors: 10,
        total_time: 5000,
        active_layers: 15,
    });
    assert_eq!(quiet.avg_time, 50);
    assert_eq!(quiet.error_pct, 10);
    assert_eq!(quiet.status, "PIP");
}

#[test]
fn metrics_on_nothing_processed() {
    let report = XyronCore::metrics(&CoreStats {
        processed: 0,
        errors: 0,
        total_time: 0,
        active_layers: 11,
    });
    assert_eq!(report.avg_time, 0);
    assert_eq!(report.error_pct, 0);
    assert_eq!(report.status, "PIP");
}
