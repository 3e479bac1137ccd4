use tee_verifier::commitment::{decode_commitment, Commitment};
use tee_verifier::errors::VerifyError;
use tee_verifier::quote::{decode_quote, ReportBody};

/// Builds a minimal version-4 TDX quote: 48-byte header, 584-byte TD 1.0
/// report with the given registers and report data, and minimal version-4
/// auth data carrying an empty inner certificate chain of type 5.
fn build_td10_quote(rtmrs: &[Vec<u8>; 4], report_data: &[u8; 64]) -> Vec<u8> {
    let mut q = Vec::new();
    // Header.
    q.extend_from_slice(&4u16.to_le_bytes()); // version
    q.extend_from_slice(&2u16.to_le_bytes()); // attestation key type
    q.extend_from_slice(&0x81u32.to_le_bytes()); // TEE type: TDX
    q.extend_from_slice(&0u16.to_le_bytes()); // qe_svn
    q.extend_from_slice(&0u16.to_le_bytes()); // pce_svn
    q.extend_from_slice(&[0x11u8; 16]); // qe_vendor_id
    q.extend_from_slice(&[0x22u8; 20]); // user_data
    assert_eq!(q.len(), 48);
    // TD 1.0 report body.
    let mut body = vec![0u8; 584];
    for (i, mr) in rtmrs.iter().enumerate() {
        body[328 + 48 * i..376 + 48 * i].copy_from_slice(mr);
    }
    body[520..584].copy_from_slice(report_data);
    q.extend_from_slice(&body);
    // Auth data: signature, key, certification data with nested QE report
    // certification data (empty QE auth data, empty type-5 cert chain).
    let mut inner = Vec::new();
    inner.extend_from_slice(&[0u8; 384]); // qe_report
    inner.extend_from_slice(&[0u8; 64]); // qe_report_signature
    inner.extend_from_slice(&0u16.to_le_bytes()); // qe_auth_data length
    inner.extend_from_slice(&5u16.to_le_bytes()); // inner cert type
    inner.extend_from_slice(&0u32.to_le_bytes()); // inner cert length
    let mut auth = Vec::new();
    auth.extend_from_slice(&[0u8; 64]); // ecdsa_signature
    auth.extend_from_slice(&[0u8; 64]); // ecdsa_attestation_key
    auth.extend_from_slice(&6u16.to_le_bytes()); // outer cert type
    auth.extend_from_slice(&(inner.len() as u32).to_le_bytes());
    auth.extend_from_slice(&inner);
    q.extend_from_slice(&(auth.len() as u32).to_le_bytes());
    q.extend_from_slice(&auth);
    q
}

/// Builds a minimal version-4 SGX quote: 384-byte raw enclave report.
fn build_sgx_quote() -> Vec<u8> {
    let mut q = Vec::new();
    q.extend_from_slice(&4u16.to_le_bytes());
    q.extend_from_slice(&2u16.to_le_bytes());
    q.extend_from_slice(&0u32.to_le_bytes()); // TEE type: SGX
    q.extend_from_slice(&[0u8; 40]);
    q.extend_from_slice(&[0u8; 384]);
    let mut inner = Vec::new();
    inner.extend_from_slice(&[0u8; 384]);
    inner.extend_from_slice(&[0u8; 64]);
    inner.extend_from_slice(&0u16.to_le_bytes());
    inner.extend_from_slice(&5u16.to_le_bytes());
    inner.extend_from_slice(&0u32.to_le_bytes());
    let mut auth = Vec::new();
    auth.extend_from_slice(&[0u8; 64]);
    auth.extend_from_slice(&[0u8; 64]);
    auth.extend_from_slice(&6u16.to_le_bytes());
    auth.extend_from_slice(&(inner.len() as u32).to_le_bytes());
    auth.extend_from_slice(&inner);
    q.extend_from_slice(&(auth.len() as u32).to_le_bytes());
    q.extend_from_slice(&auth);
    q
}

fn sample_rtmrs() -> [Vec<u8>; 4] {
    [vec![0xa0; 48], vec![0xa1; 48], vec![0xa2; 48], vec![0xa3; 48]]
}

#[test]
fn decode_valid_td10_quote_fields() {
    let rtmrs = sample_rtmrs();
    let mut report_data = [0u8; 64];
    report_data[..32].copy_from_slice(&[0xcd; 32]);
    let bytes = build_td10_quote(&rtmrs, &report_data);
    let quote = decode_quote(&bytes).expect("fixture quote must decode");
    assert_eq!(quote.header.version, 4);
    assert_eq!(quote.header.attestation_key_type, 2);
    assert_eq!(quote.header.tee_type, 0x81);
    assert_eq!(quote.header.qe_vendor_id, vec![0x11u8; 16]);
    assert_eq!(quote.header.user_data, vec![0x22u8; 20]);
    match &quote.report {
        ReportBody::Td10(report) => {
            assert_eq!(report.rt_mr0, rtmrs[0]);
            assert_eq!(report.rt_mr1, rtmrs[1]);
            assert_eq!(report.rt_mr2, rtmrs[2]);
            assert_eq!(report.rt_mr3, rtmrs[3]);
            assert_eq!(report.report_data, report_data.to_vec());
            assert_eq!(report.mr_td, vec![0u8; 48]);
        },
        _ => panic!("expected a TD 1.0 report"),
    }
    assert_eq!(quote.signature.ecdsa_signature.len(), 64);
    assert_eq!(quote.signature.ecdsa_attestation_key.len(), 64);
    assert_eq!(quote.signature.qe_report.len(), 384);
    assert_eq!(quote.signature.qe_report_signature.len(), 64);
    assert_eq!(quote.signature.qe_auth_data.len(), 0);
    assert_eq!(quote.signature.cert_type, 5);
    assert_eq!(quote.signature.cert_data.len(), 0);
}

#[test]
fn decode_truncated_quote_fails() {
    let bytes = build_td10_quote(&sample_rtmrs(), &[0u8; 64]);
    for cut in [0, 10, 47, 48, 100, 632, bytes.len() - 1] {
        let r = decode_quote(&bytes[..cut]);
        assert_eq!(r.err(), Some(VerifyError::MalformedQuote), "cut at {cut}");
    }
    assert!(decode_quote(&bytes).is_ok());
}

#[test]
fn decode_unknown_version_fails() {
    let mut bytes = build_td10_quote(&sample_rtmrs(), &[0u8; 64]);
    bytes[0] = 9;
    assert_eq!(decode_quote(&bytes).err(), Some(VerifyError::MalformedQuote));
}

#[test]
fn decode_unknown_tee_type_fails() {
    let mut bytes = build_td10_quote(&sample_rtmrs(), &[0u8; 64]);
    bytes[4] = 0x7f;
    assert_eq!(decode_quote(&bytes).err(), Some(VerifyError::MalformedQuote));
}

#[test]
fn sgx_report_is_not_td10() {
    let bytes = build_sgx_quote();
    let quote = decode_quote(&bytes).expect("SGX fixture must decode structurally");
    assert!(matches!(quote.report, ReportBody::SgxEnclave(_)));
    assert!(quote.report.as_td10().is_none());
}

/// Builds a version-3 SGX quote with version-3 auth data: QE report and
/// signature inline, then length-prefixed QE auth data and certification data.
fn build_v3_sgx_quote(qe_auth: &[u8], cert_type: u16, cert_data: &[u8]) -> Vec<u8> {
    let mut q = Vec::new();
    q.extend_from_slice(&3u16.to_le_bytes());
    q.extend_from_slice(&2u16.to_le_bytes());
    q.extend_from_slice(&0u32.to_le_bytes());
    q.extend_from_slice(&[0u8; 40]);
    q.extend_from_slice(&[0x33u8; 384]); // enclave report
    let mut auth = Vec::new();
    auth.extend_from_slice(&[0x44u8; 64]); // ecdsa_signature
    auth.extend_from_slice(&[0x55u8; 64]); // ecdsa_attestation_key
    auth.extend_from_slice(&[0x66u8; 384]); // qe_report
    auth.extend_from_slice(&[0x77u8; 64]); // qe_report_signature
    auth.extend_from_slice(&(qe_auth.len() as u16).to_le_bytes());
    auth.extend_from_slice(qe_auth);
    auth.extend_from_slice(&cert_type.to_le_bytes());
    auth.extend_from_slice(&(cert_data.len() as u32).to_le_bytes());
    auth.extend_from_slice(cert_data);
    q.extend_from_slice(&(auth.len() as u32).to_le_bytes());
    q.extend_from_slice(&auth);
    q
}

#[test]
fn decode_v3_quote_signature_block() {
    let bytes = build_v3_sgx_quote(&[0xaa, 0xbb], 5, b"PEMPEM");
    let quote = decode_quote(&bytes).expect("v3 fixture must decode");
    assert_eq!(quote.header.version, 3);
    assert!(matches!(quote.report, ReportBody::SgxEnclave(_)));
    assert_eq!(quote.signature.ecdsa_signature, vec![0x44u8; 64]);
    assert_eq!(quote.signature.ecdsa_attestation_key, vec![0x55u8; 64]);
    assert_eq!(quote.signature.qe_report, vec![0x66u8; 384]);
    assert_eq!(quote.signature.qe_report_signature, vec![0x77u8; 64]);
    assert_eq!(quote.signature.qe_auth_data, vec![0xaa, 0xbb]);
    assert_eq!(quote.signature.cert_type, 5);
    assert_eq!(quote.signature.cert_data, b"PEMPEM".to_vec());
}

/// Builds a version-5 quote: the header is followed by a 6-byte body
/// descriptor, then the report body, then version-4 auth data.
fn build_v5_quote(body_type: u16, body: &[u8]) -> Vec<u8> {
    let mut q = Vec::new();
    q.extend_from_slice(&5u16.to_le_bytes());
    q.extend_from_slice(&2u16.to_le_bytes());
    q.extend_from_slice(&0x81u32.to_le_bytes());
    q.extend_from_slice(&[0u8; 40]);
    q.extend_from_slice(&body_type.to_le_bytes());
    q.extend_from_slice(&(body.len() as u32).to_le_bytes());
    q.extend_from_slice(body);
    let mut inner = Vec::new();
    inner.extend_from_slice(&[0u8; 384]);
    inner.extend_from_slice(&[0u8; 64]);
    inner.extend_from_slice(&0u16.to_le_bytes());
    inner.extend_from_slice(&5u16.to_le_bytes());
    inner.extend_from_slice(&0u32.to_le_bytes());
    let mut auth = Vec::new();
    auth.extend_from_slice(&[0u8; 64]);
    auth.extend_from_slice(&[0u8; 64]);
    auth.extend_from_slice(&6u16.to_le_bytes());
    auth.extend_from_slice(&(inner.len() as u32).to_le_bytes());
    auth.extend_from_slice(&inner);
    q.extend_from_slice(&(auth.len() as u32).to_le_bytes());
    q.extend_from_slice(&auth);
    q
}

#[test]
fn decode_v5_td10_quote() {
    let mut body = vec![0u8; 584];
    body[328..376].copy_from_slice(&[0xe0; 48]);
    let bytes = build_v5_quote(2, &body);
    let quote = decode_quote(&bytes).expect("v5 TD 1.0 fixture must decode");
    assert_eq!(quote.header.version, 5);
    let report = quote.report.as_td10().expect("v5 TD 1.0 report");
    assert_eq!(report.rt_mr0, vec![0xe0u8; 48]);
}

#[test]
fn decode_v5_td15_quote_is_structural_only() {
    let mut body = vec![0u8; 648];
    body[472..520].copy_from_slice(&[0xe3; 48]); // rt_mr3 of the base
    body[584..648].copy_from_slice(&[0xe4; 64]); // TD 1.5 trailer
    let bytes = build_v5_quote(3, &body);
    let quote = decode_quote(&bytes).expect("v5 TD 1.5 fixture must decode");
    match &quote.report {
        ReportBody::Td15 { base, extra } => {
            assert_eq!(base.rt_mr3, vec![0xe3u8; 48]);
            assert_eq!(extra, &vec![0xe4u8; 64]);
        },
        _ => panic!("expected a TD 1.5 report"),
    }
    // Only the TD 1.0 variant proper is consumable; the TD 1.5 report is
    // decoded structurally but rejected by the verifier.
    assert!(quote.report.as_td10().is_none());
}

#[test]
fn decode_v5_unknown_body_type_fails() {
    let body = vec![0u8; 584];
    let bytes = build_v5_quote(7, &body);
    assert_eq!(decode_quote(&bytes).err(), Some(VerifyError::MalformedQuote));
}

#[test]
fn trailing_bytes_after_auth_data_are_tolerated() {
    let mut bytes = build_td10_quote(&sample_rtmrs(), &[0u8; 64]);
    bytes.extend_from_slice(&[0u8; 7]);
    assert!(decode_quote(&bytes).is_ok());
}

#[test]
fn commitment_encode_layout() {
    let c = Commitment {
        rtmr0: vec![0xb0; 48],
        rtmr1: vec![0xb1; 48],
        rtmr2: vec![0xb2; 48],
        rtmr3: vec![0xb3; 48],
        committed_key: vec![0xd0; 32],
        compose_hash: vec![0xc1; 30],
        app_id: vec![0xc2; 20],
    };
    let encoded = c.encode();
    assert_eq!(encoded.len(), 276);
    assert_eq!(&encoded[0..48], &[0xb0; 48]);
    assert_eq!(&encoded[48..96], &[0xb1; 48]);
    assert_eq!(&encoded[96..144], &[0xb2; 48]);
    assert_eq!(&encoded[144..192], &[0xb3; 48]);
    assert_eq!(&encoded[192..224], c.committed_key.as_slice());
    // A short compose hash is zero-padded to its fixed 32-byte width.
    assert_eq!(&encoded[224..254], &[0xc1; 30]);
    assert_eq!(&encoded[254..256], &[0u8; 2]);
    assert_eq!(&encoded[256..276], &[0xc2; 20]);
}

#[test]
fn commitment_decode_round_trip() {
    let c = Commitment {
        rtmr0: vec![1; 48],
        rtmr1: vec![2; 48],
        rtmr2: vec![3; 48],
        rtmr3: vec![4; 48],
        committed_key: vec![5; 32],
        compose_hash: vec![6; 32],
        app_id: vec![7; 20],
    };
    let encoded = c.encode();
    let back = decode_commitment(&encoded).expect("a 276-byte buffer must decode");
    assert_eq!(back.rtmr0, c.rtmr0);
    assert_eq!(back.rtmr1, c.rtmr1);
    assert_eq!(back.rtmr2, c.rtmr2);
    assert_eq!(back.rtmr3, c.rtmr3);
    assert_eq!(back.committed_key, c.committed_key);
    assert_eq!(back.compose_hash, c.compose_hash);
    assert_eq!(back.app_id, c.app_id);
    assert!(decode_commitment(&encoded[..275]).is_none());
    assert!(decode_commitment(&[0u8; 277]).is_none());
}
