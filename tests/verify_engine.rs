use dcap_attestation::chain::ChainError;
use dcap_attestation::pck::quote_fmspc;
use dcap_attestation::quote::decode_quote;
use dcap_attestation::collateral::{collateral_from_responses, QuoteCollateralV3};
use dcap_attestation::quote::DecodeError;
use dcap_attestation::verify::{trust_anchor_key, verify, verify_with_anchor, VerifyError};
use p256::ecdsa::signature::Signer;
use p256::ecdsa::{Signature, SigningKey};
use sha2::{Digest, Sha256};

const VENDOR: [u8; 16] = [
    0x93, 0x9A, 0x72, 0x33, 0xF7, 0x9C, 0x4C, 0xA9, 0x94, 0x0A, 0x0D, 0xB3, 0x95, 0x7F, 0x06, 0x07,
];
const SGX_FMSPC: [u8; 6] = [0x00, 0x90, 0x6E, 0xD5, 0x00, 0x00];
const TDX_FMSPC: [u8; 6] = [0x00, 0x80, 0x6F, 0x05, 0x00, 0x00];
const NOW: u64 = 1699301000;
const ALPHABET: &[u8; 64] = b"ABCDEFGHIJKLMNOPQRSTUVWXYZabcdefghijklmnopqrstuvwxyz0123456789+/";

fn key(seed: u8) -> SigningKey {
    SigningKey::from_slice(&[seed; 32]).unwrap()
}

fn sec1(k: &SigningKey) -> Vec<u8> {
    k.verifying_key().to_encoded_point(false).as_bytes().to_vec()
}

fn sign(k: &SigningKey, msg: &[u8]) -> Vec<u8> {
    let s: Signature = k.sign(msg);
    s.to_bytes().to_vec()
}

fn b64(data: &[u8]) -> String {
    let mut out = String::new();
    for chunk in data.chunks(3) {
        let b = [chunk[0], *chunk.get(1).unwrap_or(&0), *chunk.get(2).unwrap_or(&0)];
        let n = (b[0] as u32) << 16 | (b[1] as u32) << 8 | b[2] as u32;
        for i in 0..4 {
            if i <= chunk.len() {
                out.push(ALPHABET[(n >> (18 - 6 * i) & 63) as usize] as char);
            } else {
                out.push('=');
            }
        }
    }
    out
}

fn pem(der: &[u8]) -> String {
    let text = b64(der);
    let lines: Vec<&str> = text.as_bytes().chunks(64).map(|l| std::str::from_utf8(l).unwrap()).collect();
    format!("-----BEGIN CERTIFICATE-----\n{}\n-----END CERTIFICATE-----\n", lines.join("\n"))
}

fn tlv(tag: u8, content: &[u8]) -> Vec<u8> {
    let mut out = vec![tag];
    let n = content.len();
    if n < 128 {
        out.push(n as u8);
    } else if n < 256 {
        out.extend_from_slice(&[0x81, n as u8]);
    } else {
        out.extend_from_slice(&[0x82, (n >> 8) as u8, n as u8]);
    }
    out.extend_from_slice(content);
    out
}

fn seq(parts: &[Vec<u8>]) -> Vec<u8> {
    tlv(0x30, &parts.concat())
}

fn oid(arcs: &[u8]) -> Vec<u8> {
    tlv(0x06, arcs)
}

fn name(cn: &str) -> Vec<u8> {
    seq(&[tlv(0x31, &seq(&[oid(&[0x55, 0x04, 0x03]), tlv(0x0C, cn.as_bytes())]))])
}

/// An X.509 certificate (DER) for `subject`'s key, signed by `issuer`, valid
/// between two UTCTimes, with an SGX extension where one is given.
fn cert_der(subject: &SigningKey, issuer: &SigningKey, nb: &str, na: &str, sgx: Option<Vec<u8>>) -> Vec<u8> {
    let alg = seq(&[oid(&[0x2A, 0x86, 0x48, 0xCE, 0x3D, 0x04, 0x03, 0x02])]);
    let mut key_bits = vec![0u8];
    key_bits.extend_from_slice(&sec1(subject));
    let spki = seq(&[
        seq(&[oid(&[0x2A, 0x86, 0x48, 0xCE, 0x3D, 0x02, 0x01]), oid(&[0x2A, 0x86, 0x48, 0xCE, 0x3D, 0x03, 0x01, 0x07])]),
        tlv(0x03, &key_bits),
    ]);
    let mut parts = vec![
        tlv(0xA0, &tlv(0x02, &[2])),
        tlv(0x02, &[1]),
        alg.clone(),
        name("issuer"),
        seq(&[tlv(0x17, nb.as_bytes()), tlv(0x17, na.as_bytes())]),
        name("subject"),
        spki,
    ];
    if let Some(v) = sgx {
        let ext = seq(&[oid(&[0x2A, 0x86, 0x48, 0x86, 0xF8, 0x4D, 0x01, 0x0D, 0x01]), tlv(0x04, &v)]);
        parts.push(tlv(0xA3, &seq(&[ext])));
    }
    let tbs = seq(&parts);
    let sig: Signature = issuer.sign(&tbs);
    let mut sig_bits = vec![0u8];
    sig_bits.extend_from_slice(sig.to_der().as_bytes());
    seq(&[tbs, alg, tlv(0x03, &sig_bits)])
}

/// The value of an SGX extension: FMSPC, component SVNs and PCE SVN.
fn sgx_ext(fmspc: [u8; 6], svns: [u8; 16], pce: u16) -> Vec<u8> {
    let tcb = [0x2Au8, 0x86, 0x48, 0x86, 0xF8, 0x4D, 0x01, 0x0D, 0x01, 0x02];
    let mut comps = Vec::new();
    for (i, v) in svns.iter().enumerate() {
        let mut o = tcb.to_vec();
        o.push(i as u8 + 1);
        let val = if *v >= 128 { vec![0, *v] } else { vec![*v] };
        comps.push(seq(&[oid(&o), tlv(0x02, &val)]));
    }
    let mut o = tcb.to_vec();
    o.push(17);
    comps.push(seq(&[oid(&o), tlv(0x02, &[pce as u8])]));
    let fm = seq(&[oid(&[0x2A, 0x86, 0x48, 0x86, 0xF8, 0x4D, 0x01, 0x0D, 0x01, 0x04]), tlv(0x04, &fmspc)]);
    seq(&[seq(&[oid(&tcb), seq(&comps)]), fm])
}

fn root() -> SigningKey {
    key(7)
}

fn root_pem() -> String {
    pem(&cert_der(&root(), &root(), "180101000000Z", "491231000000Z", None))
}

/// A chain for `leaf`'s key under the root, valid 2021 to 2026.
fn chain_pem(leaf: &SigningKey, sgx: Option<Vec<u8>>) -> String {
    format!("{}{}", pem(&cert_der(leaf, &root(), "210101000000Z", "260101000000Z", sgx)), root_pem())
}

fn pck_chain(fmspc: [u8; 6], svns: [u8; 16], pce: u16) -> String {
    chain_pem(&key(2), Some(sgx_ext(fmspc, svns, pce)))
}

fn svns(a: u8, b: u8) -> [u8; 16] {
    let mut s = [0u8; 16];
    s[0] = a;
    s[1] = b;
    s
}

struct QuoteParts {
    version: u16,
    tee: u32,
    tee_tcb_svn: [u8; 16],
    chain: String,
    qe_isv_svn: u16,
    qe_signer: u8,
}

fn sgx_parts() -> QuoteParts {
    QuoteParts {
        version: 3,
        tee: 0,
        tee_tcb_svn: [0; 16],
        chain: pck_chain(SGX_FMSPC, svns(2, 4), 13),
        qe_isv_svn: 8,
        qe_signer: 0xAB,
    }
}

fn build(p: &QuoteParts) -> Vec<u8> {
    let att = key(1);
    let att_raw = sec1(&att)[1..].to_vec();
    let body = if p.tee == 0x81 { 584 } else { 384 };
    let mut b = vec![0u8; 48 + body];
    b[0..2].copy_from_slice(&p.version.to_le_bytes());
    b[2..4].copy_from_slice(&2u16.to_le_bytes());
    b[4..8].copy_from_slice(&p.tee.to_le_bytes());
    b[12..28].copy_from_slice(&VENDOR);
    if p.tee == 0x81 {
        b[48..64].copy_from_slice(&p.tee_tcb_svn);
    }
    let mut qe_report = vec![0u8; 384];
    qe_report[128..160].copy_from_slice(&[p.qe_signer; 32]);
    qe_report[256..258].copy_from_slice(&1u16.to_le_bytes());
    qe_report[258..260].copy_from_slice(&p.qe_isv_svn.to_le_bytes());
    qe_report[320..352].copy_from_slice(&Sha256::digest(&att_raw));
    let mut qe = qe_report.clone();
    qe.extend_from_slice(&sign(&key(2), &qe_report));
    qe.extend_from_slice(&0u16.to_le_bytes());
    qe.extend_from_slice(&5u16.to_le_bytes());
    qe.extend_from_slice(&(p.chain.len() as u32).to_le_bytes());
    qe.extend_from_slice(p.chain.as_bytes());
    let mut auth = sign(&att, &b);
    auth.extend_from_slice(&att_raw);
    if p.version == 4 {
        auth.extend_from_slice(&6u16.to_le_bytes());
        auth.extend_from_slice(&(qe.len() as u32).to_le_bytes());
    }
    auth.extend_from_slice(&qe);
    b.extend_from_slice(&(auth.len() as u32).to_le_bytes());
    b.extend_from_slice(&auth);
    b
}

fn sgx_quote() -> Vec<u8> {
    build(&sgx_parts())
}

fn sixteen(a: u8, b: u8, c: u8) -> String {
    let mut v = vec![a, b, c];
    v.resize(16, 0);
    let items: Vec<String> = v.iter().map(|s| format!(r#"{{"svn":{s}}}"#)).collect();
    format!("[{}]", items.join(","))
}

fn signed_body(name: &str, text: &str, k: &SigningKey) -> String {
    format!(r#"{{"{name}":{text},"signature":"{}"}}"#, hex::encode(sign(k, text.as_bytes())))
}

fn sgx_tcb_text() -> String {
    format!(
        r#"{{"id":"SGX","fmspc":"00906ED50000","tcbLevels":[{{"tcb":{{"sgxtcbcomponents":{},"pcesvn":13}},"tcbStatus":"UpToDate"}},{{"tcb":{{"sgxtcbcomponents":{},"pcesvn":11}},"tcbStatus":"ConfigurationAndSWHardeningNeeded","advisoryIDs":["INTEL-SA-00289","INTEL-SA-00615"]}},{{"tcb":{{"sgxtcbcomponents":{},"pcesvn":5}},"tcbStatus":"OutOfDate","advisoryIDs":["INTEL-SA-00828"]}}]}}"#,
        sixteen(3, 3, 0),
        sixteen(2, 2, 0),
        sixteen(1, 1, 0)
    )
}

fn tdx_tcb_text() -> String {
    format!(
        r#"{{"id":"TDX","fmspc":"00806F050000","tcbLevels":[{{"tcb":{{"sgxtcbcomponents":{s},"pcesvn":11,"tdxtcbcomponents":{}}},"tcbStatus":"UpToDate"}},{{"tcb":{{"sgxtcbcomponents":{s},"pcesvn":11,"tdxtcbcomponents":{}}},"tcbStatus":"OutOfDate","advisoryIDs":["INTEL-SA-01036"]}}]}}"#,
        sixteen(5, 0, 2),
        sixteen(3, 0, 0),
        s = sixteen(2, 2, 0)
    )
}

const QE_TEXT: &str = r#"{"id":"QE","miscselect":"00000000","miscselectMask":"FFFFFFFF","mrsigner":"ABABABABABABABABABABABABABABABABABABABABABABABABABABABABABABABAB","isvprodid":1,"tcbLevels":[{"tcb":{"isvsvn":8},"tcbStatus":"UpToDate","advisoryIDs":["INTEL-SA-00615"]},{"tcb":{"isvsvn":0},"tcbStatus":"OutOfDate"}]}"#;

fn url(s: &str) -> String {
    s.bytes().map(|b| if b.is_ascii_alphanumeric() { (b as char).to_string() } else { format!("%{b:02X}") }).collect()
}

fn collateral_with(tcb_text: &str, tcb_chain: &str, qe_chain: &str) -> QuoteCollateralV3 {
    let tcb = signed_body("tcbInfo", tcb_text, &key(3));
    let qe = signed_body("enclaveIdentity", QE_TEXT, &key(4));
    collateral_from_responses(&url(tcb_chain), &tcb, &url(qe_chain), &qe).unwrap()
}

fn collateral_for(tcb_text: &str) -> QuoteCollateralV3 {
    collateral_with(tcb_text, &chain_pem(&key(3), None), &chain_pem(&key(4), None))
}

fn collateral() -> QuoteCollateralV3 {
    collateral_for(&sgx_tcb_text())
}

fn run(q: &[u8], c: &QuoteCollateralV3, now: u64) -> Result<(String, Vec<String>), VerifyError> {
    verify_with_anchor(q, c, now, &sec1(&root()))
}

#[test]
fn known_good_quote_gets_status_and_advisories() {
    let (status, ids) = run(&sgx_quote(), &collateral(), NOW).expect("verify");
    assert_eq!(status, "ConfigurationAndSWHardeningNeeded");
    assert_eq!(ids, ["INTEL-SA-00289", "INTEL-SA-00615"]);
}

#[test]
fn repeated_runs_agree() {
    let a = run(&sgx_quote(), &collateral(), NOW);
    let b = run(&sgx_quote(), &collateral(), NOW);
    assert_eq!(a, b);
    assert!(a.is_ok());
}

#[test]
fn worse_qe_status_is_reported() {
    let mut p = sgx_parts();
    p.qe_isv_svn = 3;
    let (status, ids) = run(&build(&p), &collateral(), NOW).unwrap();
    assert_eq!(status, "OutOfDate");
    assert_eq!(ids, ["INTEL-SA-00289", "INTEL-SA-00615"]);
}

#[test]
fn one_changed_byte_of_tcb_info_is_a_signature_error() {
    let mut c = collateral();
    c.tcb_info = c.tcb_info.replacen("INTEL-SA-00289", "INTEL-SA-00288", 1);
    assert_eq!(run(&sgx_quote(), &c, NOW), Err(VerifyError::Signature));
    let mut c = collateral();
    c.qe_identity_signature[0] ^= 1;
    assert_eq!(run(&sgx_quote(), &c, NOW), Err(VerifyError::Signature));
}

#[test]
fn tampered_quote_is_a_signature_error() {
    let mut q = sgx_quote();
    q[60] ^= 1;
    assert_eq!(run(&q, &collateral(), NOW), Err(VerifyError::Signature));
    let mut p = sgx_parts();
    p.chain = chain_pem(&key(9), Some(sgx_ext(SGX_FMSPC, svns(2, 4), 13)));
    assert_eq!(run(&build(&p), &collateral(), NOW), Err(VerifyError::Signature));
    let mut q = sgx_quote();
    q[48 + 384 + 4 + 128 + 320] ^= 1;
    assert_eq!(run(&q, &collateral(), NOW), Err(VerifyError::Signature));
}

#[test]
fn time_outside_a_window_is_a_chain_error() {
    assert_eq!(run(&sgx_quote(), &collateral(), 1_900_000_000), Err(VerifyError::Chain(ChainError::Expired)));
    assert_eq!(run(&sgx_quote(), &collateral(), 1_550_000_000), Err(VerifyError::Chain(ChainError::NotYetValid)));
    let expired_root = pem(&cert_der(&root(), &root(), "180101000000Z", "230101000000Z", None));
    let qe_chain = format!("{}{}", pem(&cert_der(&key(4), &root(), "210101000000Z", "260101000000Z", None)), expired_root);
    let c = collateral_with(&sgx_tcb_text(), &chain_pem(&key(3), None), &qe_chain);
    assert_eq!(run(&sgx_quote(), &c, NOW), Err(VerifyError::Chain(ChainError::Expired)));
    let other = key(6);
    let tcb_chain = format!(
        "{}{}",
        pem(&cert_der(&key(3), &other, "210101000000Z", "260101000000Z", None)),
        pem(&cert_der(&other, &other, "180101000000Z", "491231000000Z", None))
    );
    let c = collateral_with(&sgx_tcb_text(), &tcb_chain, &chain_pem(&key(4), None));
    assert_eq!(run(&sgx_quote(), &c, NOW), Err(VerifyError::Chain(ChainError::UntrustedRoot)));
    let mut p = sgx_parts();
    let leaf = cert_der(&key(2), &key(8), "210101000000Z", "260101000000Z", Some(sgx_ext(SGX_FMSPC, svns(2, 4), 13)));
    p.chain = format!("{}{}", pem(&leaf), root_pem());
    assert_eq!(run(&build(&p), &collateral(), NOW), Err(VerifyError::Chain(ChainError::BrokenSignatureLink)));
    let c = collateral_with(&sgx_tcb_text(), "not a chain", &chain_pem(&key(4), None));
    assert_eq!(run(&sgx_quote(), &c, NOW), Err(VerifyError::Chain(ChainError::MalformedPem)));
    let mut p = sgx_parts();
    p.chain = "garbage".to_string();
    assert_eq!(run(&build(&p), &collateral(), NOW), Err(VerifyError::Chain(ChainError::MalformedPem)));
}

#[test]
fn fixed_anchor_refuses_other_roots() {
    assert_eq!(trust_anchor_key().len(), 65);
    assert_eq!(verify(&sgx_quote(), &collateral(), NOW), Err(VerifyError::Chain(ChainError::UntrustedRoot)));
}

#[test]
fn quote_fmspc_is_read_from_the_pck_leaf() {
    let q = decode_quote(&sgx_quote()).unwrap();
    assert_eq!(quote_fmspc(&q), Some(SGX_FMSPC.to_vec()));
    let mut p = sgx_parts();
    p.chain = chain_pem(&key(2), None);
    assert_eq!(quote_fmspc(&decode_quote(&build(&p)).unwrap()), None);
    let mut loose = vec![0x06, 0x0A, 0x2A, 0x86, 0x48, 0x86, 0xF8, 0x4D, 0x01, 0x0D, 0x01, 0x04, 0x04, 0x06];
    loose.extend_from_slice(&SGX_FMSPC);
    p.chain = chain_pem(&key(2), Some(loose));
    let q = build(&p);
    assert_eq!(quote_fmspc(&decode_quote(&q).unwrap()), None);
    assert_eq!(run(&q, &collateral(), NOW), Err(VerifyError::PckExtension));
}

#[test]
fn collateral_for_another_platform_is_no_match() {
    let mut p = sgx_parts();
    p.chain = pck_chain(TDX_FMSPC, svns(2, 4), 13);
    assert_eq!(run(&build(&p), &collateral(), NOW), Err(VerifyError::NoMatch));
    p.chain = pck_chain(SGX_FMSPC, svns(0, 0), 13);
    assert_eq!(run(&build(&p), &collateral(), NOW), Err(VerifyError::NoMatch));
    p.chain = pck_chain(SGX_FMSPC, svns(2, 4), 4);
    assert_eq!(run(&build(&p), &collateral(), NOW), Err(VerifyError::NoMatch));
}

#[test]
fn quote_without_sgx_extension_is_refused() {
    let mut p = sgx_parts();
    p.chain = chain_pem(&key(2), None);
    assert_eq!(run(&build(&p), &collateral(), NOW), Err(VerifyError::PckExtension));
}

#[test]
fn foreign_qe_is_refused() {
    let mut p = sgx_parts();
    p.qe_signer = 0xCD;
    assert_eq!(run(&build(&p), &collateral(), NOW), Err(VerifyError::QeIdentityMismatch));
}

#[test]
fn malformed_inputs_are_refused() {
    assert_eq!(run(&sgx_quote()[..100], &collateral(), NOW), Err(VerifyError::Decode(DecodeError::Truncated)));
    assert_eq!(run(&sgx_quote(), &collateral_for("{}"), NOW), Err(VerifyError::MalformedCollateral));
    let mut q = sgx_quote();
    q[48 + 384 + 4 + 128 + 450] = 3;
    assert_eq!(
        run(&q, &collateral(), NOW),
        Err(VerifyError::Decode(DecodeError::UnknownCertificationDataType))
    );
}

fn tdx_parts(tee_tcb_svn: [u8; 16]) -> QuoteParts {
    QuoteParts {
        version: 4,
        tee: 0x81,
        tee_tcb_svn,
        chain: pck_chain(TDX_FMSPC, svns(2, 4), 13),
        qe_isv_svn: 8,
        qe_signer: 0xAB,
    }
}

#[test]
fn tdx_quote_verifies_against_its_collateral() {
    let mut svn = [0u8; 16];
    svn[0] = 5;
    svn[2] = 2;
    let c = collateral_for(&tdx_tcb_text());
    let (status, ids) = run(&build(&tdx_parts(svn)), &c, 1725258675).unwrap();
    assert_eq!(status, "UpToDate");
    assert_eq!(ids, ["INTEL-SA-00615"]);
    svn[2] = 1;
    let (status, ids) = run(&build(&tdx_parts(svn)), &c, 1725258675).unwrap();
    assert_eq!(status, "OutOfDate");
    assert_eq!(ids, ["INTEL-SA-01036", "INTEL-SA-00615"]);
}

#[test]
fn sgx_collateral_against_tdx_quote_never_gives_a_status() {
    let mut svn = [0u8; 16];
    svn[0] = 5;
    let r = run(&build(&tdx_parts(svn)), &collateral(), 1725258675);
    assert!(matches!(r, Err(VerifyError::NoMatch) | Err(VerifyError::Signature)));
    assert_eq!(r, Err(VerifyError::NoMatch));
}

#[test]
fn empty_or_line_end_chains_are_malformed() {
    let c = collateral_with(&sgx_tcb_text(), "", &chain_pem(&key(4), None));
    assert_eq!(run(&sgx_quote(), &c, NOW), Err(VerifyError::Chain(ChainError::MalformedPem)));
    let c = collateral_with(&sgx_tcb_text(), &chain_pem(&key(3), None), "\r\n\n");
    assert_eq!(run(&sgx_quote(), &c, NOW), Err(VerifyError::Chain(ChainError::MalformedPem)));
    let mut p = sgx_parts();
    p.chain = String::new();
    let q = build(&p);
    assert_eq!(run(&q, &collateral(), NOW), Err(VerifyError::Chain(ChainError::MalformedPem)));
    assert_eq!(quote_fmspc(&decode_quote(&q).unwrap()), None);
    p.chain = "\n".to_string();
    assert_eq!(quote_fmspc(&decode_quote(&build(&p)).unwrap()), None);
}
