use dcap_attestation::chain::{validate_chain, CertInfo, ChainError};
use p256::ecdsa::signature::Signer;
use p256::ecdsa::{Signature, SigningKey};
use dcap_attestation::codec::fmspc_hex;
use dcap_attestation::collateral::{collateral_from_responses, CollateralError, DocumentError};
use dcap_attestation::tables::{parse_qe_identity, parse_tcb_info};
use dcap_attestation::tcb::TcbStatus;

fn key(seed: u8) -> SigningKey {
    SigningKey::from_slice(&[seed; 32]).unwrap()
}

fn sec1(k: &SigningKey) -> Vec<u8> {
    k.verifying_key().to_encoded_point(false).as_bytes().to_vec()
}

fn cert(subject: u8, issuer: u8, nb: u64, na: u64) -> CertInfo {
    let tbs = format!("certificate {subject} valid {nb}..{na}").into_bytes();
    let sig: Signature = key(issuer).sign(&tbs);
    CertInfo {
        public_key: sec1(&key(subject)),
        not_before: nb,
        not_after: na,
        tbs,
        signature: sig.to_der().as_bytes().to_vec(),
        extensions: Vec::new(),
    }
}

fn chain() -> Vec<CertInfo> {
    vec![cert(1, 2, 100, 200), cert(2, 9, 50, 300), cert(9, 9, 0, 400)]
}

#[test]
fn valid_chain_gives_leaf_key() {
    let anchor = sec1(&key(9));
    assert_eq!(validate_chain(&chain(), &anchor, 150), Ok(sec1(&key(1))));
    assert_eq!(validate_chain(&chain(), &anchor, 100), Ok(sec1(&key(1))));
    assert_eq!(validate_chain(&chain(), &anchor, 200), Ok(sec1(&key(1))));
}

#[test]
fn chain_errors_by_cause() {
    let anchor = sec1(&key(9));
    assert_eq!(validate_chain(&Vec::new(), &anchor, 150), Err(ChainError::MalformedPem));
    assert_eq!(validate_chain(&chain(), &anchor, 99), Err(ChainError::NotYetValid));
    assert_eq!(validate_chain(&chain(), &anchor, 201), Err(ChainError::Expired));
    assert_eq!(validate_chain(&chain(), &anchor, 401), Err(ChainError::Expired));
    let mut broken = chain();
    broken[1].tbs[0] ^= 1;
    assert_eq!(validate_chain(&broken, &anchor, 150), Err(ChainError::BrokenSignatureLink));
    let wrong_issuer = vec![cert(1, 3, 100, 200), cert(2, 9, 50, 300), cert(9, 9, 0, 400)];
    assert_eq!(validate_chain(&wrong_issuer, &anchor, 150), Err(ChainError::BrokenSignatureLink));
    assert_eq!(validate_chain(&chain(), &sec1(&key(8)), 150), Err(ChainError::UntrustedRoot));
    assert_eq!(validate_chain(&chain(), &vec![9; 3], 150), Err(ChainError::UntrustedRoot));
    let short = vec![cert(1, 2, 100, 200), cert(2, 9, 50, 300)];
    assert_eq!(validate_chain(&short, &anchor, 150), Err(ChainError::UntrustedRoot));
}

#[test]
fn fmspc_is_spelled_in_upper_case_hex() {
    assert_eq!(fmspc_hex(&vec![0x00, 0x90, 0x6e, 0xd5, 0x00, 0x00]), "00906ED50000");
    assert_eq!(fmspc_hex(&Vec::new()), "");
}

const TCB_BODY: &str = r#"{"tcbInfo":{"id":"SGX","fmspc":"00906ed50000","tcbLevels":[{"tcb":{"sgxtcbcomponents":[{"svn":3},{"svn":3}],"pcesvn":13},"tcbStatus":"UpToDate"},{"tcb":{"sgxtcbcomponents":[{"svn":2},{"svn":2}],"pcesvn":11},"tcbStatus":"ConfigurationAndSWHardeningNeeded","advisoryIDs":["INTEL-SA-00289","INTEL-SA-00615"]}]},"signature":"0aBc"}"#;

#[test]
fn collateral_keeps_member_text_and_decodes_signatures() {
    let qe = r#"{"enclaveIdentity":{"id":"QE"},"signature":"ff00"}"#;
    let c = collateral_from_responses("tcb%20chain", TCB_BODY, "qe chain", qe).unwrap();
    assert_eq!(c.tcb_info_issuer_chain, "tcb chain");
    assert_eq!(c.qe_identity_issuer_chain, "qe chain");
    assert!(c.tcb_info.starts_with(r#"{"id":"SGX","fmspc":"00906ed50000""#));
    assert_eq!(c.tcb_info_signature, vec![0x0a, 0xbc]);
    assert_eq!(c.qe_identity, r#"{"id":"QE"}"#);
    assert_eq!(c.qe_identity_signature, vec![0xff, 0x00]);
}

#[test]
fn collateral_errors_by_cause() {
    let qe = r#"{"enclaveIdentity":{},"signature":"00"}"#;
    let r = collateral_from_responses("", "not json", "", qe);
    assert_eq!(r.err(), Some(CollateralError::TcbInfo(DocumentError::NotJson)));
    let r = collateral_from_responses("", r#"{"signature":"00"}"#, "", qe);
    assert_eq!(r.err(), Some(CollateralError::TcbInfo(DocumentError::MissingField)));
    let r = collateral_from_responses("", r#"{"tcbInfo":{},"signature":"0g"}"#, "", qe);
    assert_eq!(r.err(), Some(CollateralError::TcbInfo(DocumentError::SignatureNotHex)));
    let r = collateral_from_responses("", r#"{"tcbInfo":{},"signature":7}"#, "", qe);
    assert_eq!(r.err(), Some(CollateralError::TcbInfo(DocumentError::SignatureNotHex)));
    let r = collateral_from_responses("%FF", TCB_BODY, "", qe);
    assert_eq!(r.err(), Some(CollateralError::TcbInfo(DocumentError::IssuerChainNotUrlEncoded)));
    let r = collateral_from_responses("", TCB_BODY, "%C3%28", qe);
    assert_eq!(r.err(), Some(CollateralError::QeIdentity(DocumentError::IssuerChainNotUrlEncoded)));
    let r = collateral_from_responses("", TCB_BODY, "", r#"{"signature":"00"}"#);
    assert_eq!(r.err(), Some(CollateralError::QeIdentity(DocumentError::MissingField)));
    let r = collateral_from_responses("", TCB_BODY, "", r#"{"enclaveIdentity":{},"signature":"abc"}"#);
    assert_eq!(r.err(), Some(CollateralError::QeIdentity(DocumentError::SignatureNotHex)));
}

#[test]
fn tcb_info_is_read_into_a_table() {
    let c = collateral_from_responses("", TCB_BODY, "", r#"{"enclaveIdentity":{},"signature":""}"#).unwrap();
    let t = parse_tcb_info(&c.tcb_info).unwrap();
    assert_eq!(t.fmspc, vec![0x00, 0x90, 0x6e, 0xd5, 0x00, 0x00]);
    assert_eq!(t.levels.len(), 2);
    assert_eq!(t.levels[0].svns, vec![3, 3, 13]);
    assert_eq!(t.levels[0].status, TcbStatus::UpToDate);
    assert!(t.levels[0].advisory_ids.is_empty());
    assert_eq!(t.levels[1].svns, vec![2, 2, 11]);
    assert_eq!(t.levels[1].advisory_ids, vec!["INTEL-SA-00289".to_string(), "INTEL-SA-00615".to_string()]);
    assert!(parse_tcb_info(r#"{"fmspc":"0","tcbLevels":[]}"#).is_none());
    assert!(parse_tcb_info(r#"{"fmspc":"00","tcbLevels":[{"tcb":{"pcesvn":1},"tcbStatus":"UpToDate"}]}"#).is_none());
    assert!(parse_tcb_info(r#"{"fmspc":"00","tcbLevels":[{"tcb":{"sgxtcbcomponents":[],"pcesvn":1},"tcbStatus":"Odd"}]}"#).is_none());
}

#[test]
fn tdx_components_follow_the_pce_svn() {
    let doc = r#"{"fmspc":"00806F050000","tcbLevels":[{"tcb":{"sgxtcbcomponents":[{"svn":2}],"pcesvn":11,"tdxtcbcomponents":[{"svn":5},{"svn":0}]},"tcbStatus":"UpToDate"}]}"#;
    let t = parse_tcb_info(doc).unwrap();
    assert_eq!(t.levels[0].svns, vec![2, 11, 5, 0]);
}

#[test]
fn qe_identity_is_read() {
    let doc = r#"{"id":"QE","miscselect":"00000000","miscselectMask":"FFFFFFFF","mrsigner":"ABAB","isvprodid":1,"tcbLevels":[{"tcb":{"isvsvn":8},"tcbStatus":"UpToDate"},{"tcb":{"isvsvn":6},"tcbStatus":"OutOfDate","advisoryIDs":["INTEL-SA-00615"]}]}"#;
    let q = parse_qe_identity(doc).unwrap();
    assert_eq!(q.mr_signer, vec![0xab, 0xab]);
    assert_eq!(q.misc_select, 0);
    assert_eq!(q.misc_select_mask, 0xFFFF_FFFF);
    assert_eq!(q.isv_prod_id, 1);
    assert_eq!(q.levels[1].svns, vec![6]);
    assert_eq!(q.levels[1].status, TcbStatus::OutOfDate);
    assert!(parse_qe_identity(r#"{"miscselect":"000000","miscselectMask":"FFFFFFFF","mrsigner":"AB","isvprodid":1,"tcbLevels":[]}"#).is_none());
}
