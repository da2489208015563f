//! The verification engine: the steps in their order, each failure ending the
//! run with its own error, and the verdict built from the two table matches.

use vstd::prelude::*;
use crate::chain::{CertInfo, ChainError, cert_view, cert_fault, faultless_upto, chain_view, chain_or_empty, read_chain, chain_valid, in_window, lemma_outside_window_invalid, chain_error_of, validate_chain};
use crate::codec::{le16, le32, bytes_eq, copy_range, utf8_of, text_bytes};
use crate::crypto::{p256_verifies, sha256_of, ecdsa_verify, sha256};
use crate::pck::{sgx_extension_of, pck_from, pck_readable, pck_extension};
use crate::collateral::QuoteCollateralV3;
use crate::json::items_field;
use crate::tables::{level_from, levels_from, tcb_info_from, tcb_info_parses, qe_identity_from, qe_identity_parses, parse_tcb_info, parse_qe_identity};
use crate::quote::{lemma_decode_deterministic, bytes_at, cert_pos, Quote, Report, DecodeError, CERT_TYPE_PCK_CHAIN, TEE_TYPE_SGX, auth_size_pos, qe_section_start, quote_ok, quote_from, decode_error_of, decode_quote};
use crate::tcb::{level_matches, TcbLevel, TcbStatus, status_name, is_first_match, no_match, first_match, worse_status, combine_status, names, advisory_union, merge_advisories, lemma_first_match_wins};

verus! {

/// What the PCK leaf certificate's SGX extension states of the platform.
pub struct PckExtension {
    pub fmspc: Vec<u8>,
    /// The platform's component SVNs, in the table's order.
    pub cpu_svn: Vec<u16>,
    pub pce_svn: u16,
}

/// The certificates of the quote's PCK chain and of the issuer chains of the
/// TCB info and the QE identity, each chain leaf first.
pub struct Evidence {
    pub pck_chain: Vec<CertInfo>,
    pub tcb_info_chain: Vec<CertInfo>,
    pub qe_identity_chain: Vec<CertInfo>,
}

/// The platform TCB table of the signed TCB info.
pub struct TcbInfo {
    pub fmspc: Vec<u8>,
    pub levels: Vec<TcbLevel>,
}

/// The signed identity of the quoting enclave, with its TCB table.
pub struct QeIdentity {
    pub mr_signer: Vec<u8>,
    pub misc_select: u32,
    pub misc_select_mask: u32,
    pub isv_prod_id: u16,
    pub levels: Vec<TcbLevel>,
}

#[derive(Debug, Clone, Copy, PartialEq, Eq, Structural)]
pub enum VerifyError {
    Decode(DecodeError),
    Chain(ChainError),
    Signature,
    NoMatch,
    QeIdentityMismatch,
    MalformedCollateral,
    PckExtension,
}

pub struct Verdict {
    pub status: TcbStatus,
    pub advisory_ids: Vec<String>,
}

/// Intel's quoting-enclave vendor ID.
pub open spec fn intel_qe_vendor_id() -> Seq<u8> {
    seq![0x93u8, 0x9A, 0x72, 0x33, 0xF7, 0x9C, 0x4C, 0xA9, 0x94, 0x0A, 0x0D, 0xB3, 0x95, 0x7F, 0x06, 0x07]
}

fn qe_vendor_id() -> (r: Vec<u8>)
    ensures
        r@ == intel_qe_vendor_id(),
{
    let r: Vec<u8> = vec![0x93u8, 0x9A, 0x72, 0x33, 0xF7, 0x9C, 0x4C, 0xA9, 0x94, 0x0A, 0x0D, 0xB3, 0x95, 0x7F, 0x06, 0x07];
    assert(r@ =~= intel_qe_vendor_id());
    r
}

pub open spec fn widen(b: Seq<u8>) -> Seq<u16> {
    b.map_values(|x: u8| x as u16)
}

/// The SVNs that the platform table is matched against: the component SVNs,
/// the PCE SVN, and for a TD the TEE TCB SVN bytes.
pub open spec fn platform_svns(pck: PckExtension, report: Report) -> Seq<u16> {
    let tdx = match report {
        Report::TdReport10(r) => widen(r.tee_tcb_svn@),
        Report::SgxEnclave(_) => Seq::empty(),
    };
    pck.cpu_svn@ + seq![pck.pce_svn] + tdx
}

pub open spec fn qe_svns(q: Quote) -> Seq<u16> {
    seq![q.auth_data.qe_report.isv_svn]
}

/// The quote's QE is the one that the QE identity describes.
pub open spec fn qe_identity_matches(q: Quote, qe: QeIdentity) -> bool {
    let r = q.auth_data.qe_report;
    &&& q.header.qe_vendor_id@ == intel_qe_vendor_id()
    &&& r.mr_signer@ == qe.mr_signer@
    &&& r.misc_select & qe.misc_select_mask == qe.misc_select & qe.misc_select_mask
    &&& r.isv_prod_id == qe.isv_prod_id
}

/// A raw public key (x and y) in SEC1 uncompressed form.
pub open spec fn sec1(key: Seq<u8>) -> Seq<u8> {
    seq![4u8] + key
}

/// The quote is signed by its attestation key over header and report body;
/// the QE report is signed by the PCK leaf's key; and the QE report's data
/// begins with the digest of the attestation key and the QE authentication
/// data.
pub open spec fn quote_signatures_ok(s: Seq<u8>, q: Quote, pck_key: Seq<u8>) -> bool {
    let a = q.auth_data;
    let p = qe_section_start(s);
    &&& p256_verifies(s.subrange(0, auth_size_pos(s)), a.ecdsa_signature@, sec1(a.ecdsa_attestation_key@))
    &&& p256_verifies(s.subrange(p, p + 384), a.qe_report_signature@, pck_key)
    &&& sha256_of(a.ecdsa_attestation_key@ + a.qe_auth_data@) == a.qe_report.report_data@.subrange(0, 32)
}

/// Each collateral document's text, as UTF-8 bytes, is signed by the leaf
/// key of its issuer chain.
pub open spec fn collateral_signatures_ok(c: QuoteCollateralV3, tcb_key: Seq<u8>, qe_key: Seq<u8>) -> bool {
    &&& p256_verifies(utf8_of(c.tcb_info@), c.tcb_info_signature@, tcb_key)
    &&& p256_verifies(utf8_of(c.qe_identity@), c.qe_identity_signature@, qe_key)
}

/// The first level of the table that the SVNs meet.
pub open spec fn chosen(levels: Seq<TcbLevel>, observed: Seq<u16>) -> TcbLevel {
    levels[choose|i: int| is_first_match(levels, observed, i)]
}

/// The first failing step before the tables are consulted: certification
/// data type, PCK chain, quote signatures, the two collateral chains, the
/// two collateral signatures.
pub open spec fn precheck_error(
    s: Seq<u8>,
    q: Quote,
    c: QuoteCollateralV3,
    ev: Evidence,
    anchor: Seq<u8>,
    now: u64,
) -> Option<VerifyError> {
    if q.auth_data.certification_data.cert_type != CERT_TYPE_PCK_CHAIN {
        Some(VerifyError::Decode(DecodeError::UnknownCertificationDataType))
    } else if !chain_valid(ev.pck_chain@, anchor, now) {
        Some(VerifyError::Chain(chain_error_of(ev.pck_chain@, anchor, now)))
    } else if !quote_signatures_ok(s, q, ev.pck_chain@[0].public_key@) {
        Some(VerifyError::Signature)
    } else if !chain_valid(ev.tcb_info_chain@, anchor, now) {
        Some(VerifyError::Chain(chain_error_of(ev.tcb_info_chain@, anchor, now)))
    } else if !chain_valid(ev.qe_identity_chain@, anchor, now) {
        Some(VerifyError::Chain(chain_error_of(ev.qe_identity_chain@, anchor, now)))
    } else if !collateral_signatures_ok(c, ev.tcb_info_chain@[0].public_key@, ev.qe_identity_chain@[0].public_key@) {
        Some(VerifyError::Signature)
    } else {
        None
    }
}

/// The outcome of a run on a decoded quote: the first failing step's error,
/// else the worse of the two matched statuses and the union of their
/// advisories.
pub open spec fn verdict(
    s: Seq<u8>,
    q: Quote,
    pck: PckExtension,
    c: QuoteCollateralV3,
    ev: Evidence,
    tcb: TcbInfo,
    qe: QeIdentity,
    anchor: Seq<u8>,
    now: u64,
) -> Result<(TcbStatus, Seq<Seq<char>>), VerifyError> {
    let plat = platform_svns(pck, q.report);
    if precheck_error(s, q, c, ev, anchor, now) is Some {
        Err(precheck_error(s, q, c, ev, anchor, now)->0)
    } else if tcb.fmspc@ != pck.fmspc@ {
        Err(VerifyError::NoMatch)
    } else if no_match(tcb.levels@, plat) {
        Err(VerifyError::NoMatch)
    } else if !qe_identity_matches(q, qe) {
        Err(VerifyError::QeIdentityMismatch)
    } else if no_match(qe.levels@, qe_svns(q)) {
        Err(VerifyError::NoMatch)
    } else {
        let p = chosen(tcb.levels@, plat);
        let e = chosen(qe.levels@, qe_svns(q));
        Ok((worse_status(p.status, e.status), advisory_union(names(p.advisory_ids@), names(e.advisory_ids@))))
    }
}

/// The run's result is the stated outcome.
pub open spec fn result_is(r: Result<Verdict, VerifyError>, v: Result<(TcbStatus, Seq<Seq<char>>), VerifyError>) -> bool {
    match r {
        Ok(d) => v == Ok::<(TcbStatus, Seq<Seq<char>>), VerifyError>((d.status, names(d.advisory_ids@))),
        Err(e) => v == Err::<(TcbStatus, Seq<Seq<char>>), VerifyError>(e),
    }
}

fn platform_svn_vec(pck: &PckExtension, report: &Report) -> (r: Vec<u16>)
    ensures
        r@ == platform_svns(*pck, *report),
{
    let mut r: Vec<u16> = pck.cpu_svn.clone();
    r.push(pck.pce_svn);
    let ghost base = r@;
    assert(base =~= pck.cpu_svn@ + seq![pck.pce_svn]);
    match report {
        Report::TdReport10(t) => {
            let b = &t.tee_tcb_svn;
            let mut i: usize = 0;
            while i < b.len()
                invariant
                    i <= b@.len(),
                    r@ == base + widen(b@.take(i as int)),
                decreases b@.len() - i,
            {
                r.push(b[i] as u16);
                assert(widen(b@.take(i as int + 1)) =~= widen(b@.take(i as int)).push(b@[i as int] as u16));
                assert(r@ =~= base + widen(b@.take(i as int + 1)));
                i = i + 1;
            }
            assert(b@.take(b@.len() as int) =~= b@);
        },
        Report::SgxEnclave(_) => {
            assert(r@ =~= platform_svns(*pck, *report));
        },
    }
    r
}

fn sec1_key(key: &Vec<u8>) -> (r: Vec<u8>)
    ensures
        r@ == sec1(key@),
{
    let mut r: Vec<u8> = vec![4u8];
    let mut i: usize = 0;
    while i < key.len()
        invariant
            i <= key@.len(),
            r@ == seq![4u8] + key@.take(i as int),
        decreases key@.len() - i,
    {
        r.push(key[i]);
        assert(r@ =~= seq![4u8] + key@.take(i as int + 1));
        i = i + 1;
    }
    assert(key@.take(key@.len() as int) =~= key@);
    r
}

fn concat(a: &Vec<u8>, b: &Vec<u8>) -> (r: Vec<u8>)
    ensures
        r@ == a@ + b@,
{
    let mut r = a.clone();
    let mut i: usize = 0;
    while i < b.len()
        invariant
            i <= b@.len(),
            r@ == a@ + b@.take(i as int),
        decreases b@.len() - i,
    {
        r.push(b[i]);
        assert(r@ =~= a@ + b@.take(i as int + 1));
        i = i + 1;
    }
    assert(b@.take(b@.len() as int) =~= b@);
    r
}

fn check_quote_signatures(raw: &[u8], q: &Quote, pck_key: &Vec<u8>) -> (r: bool)
    requires
        quote_ok(raw@),
        quote_from(*q, raw@),
    ensures
        r == quote_signatures_ok(raw@, *q, pck_key@),
{
    let a = &q.auth_data;
    let body: usize = if q.header.tee_type == TEE_TYPE_SGX { 384 } else { 584 };
    let size_pos: usize = 48 + body;
    let qe_start: usize = if q.header.version == 3 { size_pos + 4 + 128 } else { size_pos + 4 + 134 };
    let signed = copy_range(raw, 0, size_pos);
    let qe_report = copy_range(raw, qe_start, 384);
    let quote_ok = ecdsa_verify(signed.as_slice(), a.ecdsa_signature.as_slice(), sec1_key(&a.ecdsa_attestation_key).as_slice());
    let qe_ok = ecdsa_verify(qe_report.as_slice(), a.qe_report_signature.as_slice(), pck_key.as_slice());
    let digest = sha256(concat(&a.ecdsa_attestation_key, &a.qe_auth_data).as_slice());
    let bound = bytes_eq(&digest, &copy_range(a.qe_report.report_data.as_slice(), 0, 32));
    quote_ok && qe_ok && bound
}

/// Runs the steps before the tables are consulted; the first failure's error.
fn precheck(
    raw: &[u8],
    q: &Quote,
    c: &QuoteCollateralV3,
    ev: &Evidence,
    anchor: &Vec<u8>,
    now: u64,
) -> (r: Option<VerifyError>)
    requires
        quote_ok(raw@),
        quote_from(*q, raw@),
    ensures
        r == precheck_error(raw@, *q, *c, *ev, anchor@, now),
{
    if q.auth_data.certification_data.cert_type != CERT_TYPE_PCK_CHAIN {
        return Some(VerifyError::Decode(DecodeError::UnknownCertificationDataType));
    }
    let pck_key = match validate_chain(&ev.pck_chain, anchor, now) {
        Err(e) => return Some(VerifyError::Chain(e)),
        Ok(k) => k,
    };
    if !check_quote_signatures(raw, q, &pck_key) {
        return Some(VerifyError::Signature);
    }
    let tcb_key = match validate_chain(&ev.tcb_info_chain, anchor, now) {
        Err(e) => return Some(VerifyError::Chain(e)),
        Ok(k) => k,
    };
    let qe_key = match validate_chain(&ev.qe_identity_chain, anchor, now) {
        Err(e) => return Some(VerifyError::Chain(e)),
        Ok(k) => k,
    };
    let tcb_ok = ecdsa_verify(text_bytes(c.tcb_info.as_str()).as_slice(), c.tcb_info_signature.as_slice(), tcb_key.as_slice());
    let qe_ok = ecdsa_verify(text_bytes(c.qe_identity.as_str()).as_slice(), c.qe_identity_signature.as_slice(), qe_key.as_slice());
    if !(tcb_ok && qe_ok) {
        return Some(VerifyError::Signature);
    }
    None
}

/// Judges a decoded quote against its collateral tables and the evidence of
/// its certificates and signatures, at time `now`.
fn judge(
    raw: &[u8],
    q: &Quote,
    pck: &PckExtension,
    c: &QuoteCollateralV3,
    ev: &Evidence,
    tcb: &TcbInfo,
    qe: &QeIdentity,
    anchor: &Vec<u8>,
    now: u64,
) -> (r: Result<Verdict, VerifyError>)
    requires
        quote_ok(raw@),
        quote_from(*q, raw@),
    ensures
        result_is(r, verdict(raw@, *q, *pck, *c, *ev, *tcb, *qe, anchor@, now)),
{
    match precheck(raw, q, c, ev, anchor, now) {
        Some(e) => return Err(e),
        None => {},
    }
    if !bytes_eq(&tcb.fmspc, &pck.fmspc) {
        return Err(VerifyError::NoMatch);
    }
    let plat = platform_svn_vec(pck, &q.report);
    let pi = match first_match(&tcb.levels, &plat) {
        None => return Err(VerifyError::NoMatch),
        Some(i) => i,
    };
    let r = &q.auth_data.qe_report;
    if !(bytes_eq(&q.header.qe_vendor_id, &qe_vendor_id()) && bytes_eq(&r.mr_signer, &qe.mr_signer)
        && r.misc_select & qe.misc_select_mask == qe.misc_select & qe.misc_select_mask
        && r.isv_prod_id == qe.isv_prod_id) {
        return Err(VerifyError::QeIdentityMismatch);
    }
    let qsvns: Vec<u16> = vec![r.isv_svn];
    assert(qsvns@ =~= qe_svns(*q));
    let qi = match first_match(&qe.levels, &qsvns) {
        None => return Err(VerifyError::NoMatch),
        Some(i) => i,
    };
    proof {
        let a = choose|i: int| is_first_match(tcb.levels@, plat@, i);
        lemma_first_match_wins(tcb.levels@, plat@, pi as int, a);
        lemma_first_match_wins(tcb.levels@, plat@, a, pi as int);
        let b = choose|i: int| is_first_match(qe.levels@, qsvns@, i);
        lemma_first_match_wins(qe.levels@, qsvns@, qi as int, b);
        lemma_first_match_wins(qe.levels@, qsvns@, b, qi as int);
    }
    let p = &tcb.levels[pi];
    let e = &qe.levels[qi];
    Ok(Verdict {
        status: combine_status(p.status, e.status),
        advisory_ids: merge_advisories(&p.advisory_ids, &e.advisory_ids),
    })
}

/// The reported pair is the stated outcome, the status by its name.
pub open spec fn output_is(r: Result<(String, Vec<String>), VerifyError>, v: Result<(TcbStatus, Seq<Seq<char>>), VerifyError>) -> bool {
    match r {
        Ok((s, a)) => v matches Ok((st, ids)) && s@ == status_name(st) && names(a@) == ids,
        Err(e) => v == Err::<(TcbStatus, Seq<Seq<char>>), VerifyError>(e),
    }
}

/// The outcome of a run on a decoded quote whose collateral documents are
/// given as text: the prechecks, then the reading of both documents, then
/// the verdict on the tables read.
pub open spec fn run_outcome(
    r: Result<(String, Vec<String>), VerifyError>,
    s: Seq<u8>,
    q: Quote,
    c: QuoteCollateralV3,
    ev: Evidence,
    anchor: Seq<u8>,
    now: u64,
) -> bool {
    if precheck_error(s, q, c, ev, anchor, now) is Some {
        r == Err::<(String, Vec<String>), VerifyError>(precheck_error(s, q, c, ev, anchor, now)->0)
    } else if !(sgx_extension_of(ev.pck_chain@[0]) matches Some(x) && pck_readable(x)) {
        r == Err::<(String, Vec<String>), VerifyError>(VerifyError::PckExtension)
    } else if !tcb_info_parses(c.tcb_info@) || !qe_identity_parses(c.qe_identity@) {
        r == Err::<(String, Vec<String>), VerifyError>(VerifyError::MalformedCollateral)
    } else {
        exists|p: PckExtension, t: TcbInfo, e: QeIdentity|
            pck_from(p, sgx_extension_of(ev.pck_chain@[0])->0)
                && tcb_info_from(t, c.tcb_info@) && qe_identity_from(e, c.qe_identity@)
                && output_is(r, verdict(s, q, p, c, ev, t, e, anchor, now))
    }
}

/// The chains of a run are those that the quote and the collateral carry:
/// the PCK chain of the quote's certification data and the two issuer
/// chains of the collateral, each read from its PEM text.
pub open spec fn evidence_from(ev: Evidence, q: Quote, c: QuoteCollateralV3) -> bool {
    &&& chain_view(ev.pck_chain@) == chain_or_empty(q.auth_data.certification_data.body@)
    &&& chain_view(ev.tcb_info_chain@) == chain_or_empty(utf8_of(c.tcb_info_issuer_chain@))
    &&& chain_view(ev.qe_identity_chain@) == chain_or_empty(utf8_of(c.qe_identity_issuer_chain@))
}

/// The outcome of `verify_with_anchor` on these inputs.
pub open spec fn verify_outcome(
    r: Result<(String, Vec<String>), VerifyError>,
    raw: Seq<u8>,
    c: QuoteCollateralV3,
    anchor: Seq<u8>,
    now: u64,
) -> bool {
    if !quote_ok(raw) {
        r == Err::<(String, Vec<String>), VerifyError>(VerifyError::Decode(decode_error_of(raw)))
    } else {
        exists|q: Quote, ev: Evidence|
            quote_from(q, raw) && evidence_from(ev, q, c) && run_outcome(r, raw, q, c, ev, anchor, now)
    }
}

/// The public key (SEC1, uncompressed) of the Intel SGX root CA, the trust
/// anchor of every chain.
pub open spec fn intel_root_key() -> Seq<u8> {
    seq![0x04u8, 0x0b, 0xa9, 0xc4, 0xc0, 0xc0, 0xc8, 0x61, 0x93, 0xa3, 0xfe, 0x23, 0xd6, 0xb0, 0x2c, 0xda,
        0x10, 0xa8, 0xbb, 0xd4, 0xe8, 0x8e, 0x48, 0xb4, 0x45, 0x85, 0x61, 0xa3, 0x6e, 0x70, 0x55, 0x25,
        0xf5, 0x67, 0x91, 0x8e, 0x2e, 0xdc, 0x88, 0xe4, 0x0d, 0x86, 0x0b, 0xd0, 0xcc, 0x4e, 0xe2, 0x6a,
        0xac, 0xc9, 0x88, 0xe5, 0x05, 0xa9, 0x53, 0x55, 0x8c, 0x45, 0x3f, 0x6b, 0x09, 0x04, 0xae, 0x73, 0x94]
}

/// The trust anchor: the one read-only source of the root key.
pub fn trust_anchor_key() -> (r: Vec<u8>)
    ensures
        r@ == intel_root_key(),
{
    let r: Vec<u8> = vec![0x04u8, 0x0b, 0xa9, 0xc4, 0xc0, 0xc0, 0xc8, 0x61, 0x93, 0xa3, 0xfe, 0x23, 0xd6, 0xb0, 0x2c, 0xda,
        0x10, 0xa8, 0xbb, 0xd4, 0xe8, 0x8e, 0x48, 0xb4, 0x45, 0x85, 0x61, 0xa3, 0x6e, 0x70, 0x55, 0x25,
        0xf5, 0x67, 0x91, 0x8e, 0x2e, 0xdc, 0x88, 0xe4, 0x0d, 0x86, 0x0b, 0xd0, 0xcc, 0x4e, 0xe2, 0x6a,
        0xac, 0xc9, 0x88, 0xe5, 0x05, 0xa9, 0x53, 0x55, 0x8c, 0x45, 0x3f, 0x6b, 0x09, 0x04, 0xae, 0x73, 0x94];
    assert(r@ =~= intel_root_key());
    r
}

/// Verifies a raw quote against its collateral at time `now`, with the
/// Intel SGX root CA as trust anchor. Returns the TCB status and advisory IDs.
pub fn verify(raw_quote: &[u8], collateral: &QuoteCollateralV3, now: u64) -> (r: Result<(String, Vec<String>), VerifyError>)
    ensures
        verify_outcome(r, raw_quote@, *collateral, intel_root_key(), now),
{
    verify_with_anchor(raw_quote, collateral, now, &trust_anchor_key())
}

/// Verifies a raw quote against its collateral at time `now`, with the given
/// root key as trust anchor. The chains checked are those that the quote and
/// the collateral carry.
pub fn verify_with_anchor(
    raw_quote: &[u8],
    collateral: &QuoteCollateralV3,
    now: u64,
    anchor: &Vec<u8>,
) -> (r: Result<(String, Vec<String>), VerifyError>)
    ensures
        verify_outcome(r, raw_quote@, *collateral, anchor@, now),
{
    let q = match decode_quote(raw_quote) {
        Ok(q) => q,
        Err(e) => return Err(VerifyError::Decode(e)),
    };
    let ev = Evidence {
        pck_chain: read_chain(q.auth_data.certification_data.body.as_slice()),
        tcb_info_chain: read_chain(text_bytes(collateral.tcb_info_issuer_chain.as_str()).as_slice()),
        qe_identity_chain: read_chain(text_bytes(collateral.qe_identity_issuer_chain.as_str()).as_slice()),
    };
    assert(evidence_from(ev, q, *collateral));
    let r = run(raw_quote, &q, collateral, &ev, anchor, now);
    assert(run_outcome(r, raw_quote@, q, *collateral, ev, anchor@, now));
    r
}

fn run(
    raw_quote: &[u8],
    q: &Quote,
    collateral: &QuoteCollateralV3,
    ev: &Evidence,
    anchor: &Vec<u8>,
    now: u64,
) -> (r: Result<(String, Vec<String>), VerifyError>)
    requires
        quote_ok(raw_quote@),
        quote_from(*q, raw_quote@),
    ensures
        run_outcome(r, raw_quote@, *q, *collateral, *ev, anchor@, now),
{
    match precheck(raw_quote, q, collateral, ev, anchor, now) {
        Some(e) => return Err(e),
        None => {},
    }
    let pck = match pck_extension(&ev.pck_chain[0]) {
        Some(p) => p,
        None => return Err(VerifyError::PckExtension),
    };
    let tcb = match parse_tcb_info(collateral.tcb_info.as_str()) {
        Some(t) => t,
        None => return Err(VerifyError::MalformedCollateral),
    };
    let qe = match parse_qe_identity(collateral.qe_identity.as_str()) {
        Some(e) => e,
        None => return Err(VerifyError::MalformedCollateral),
    };
    let r = match judge(raw_quote, q, &pck, collateral, ev, &tcb, &qe, anchor, now) {
        Ok(v) => Ok((v.status.name(), v.advisory_ids)),
        Err(e) => Err(e),
    };
    assert(tcb_info_from(tcb, collateral.tcb_info@));
    assert(qe_identity_from(qe, collateral.qe_identity@));
    assert(pck_from(pck, sgx_extension_of(ev.pck_chain@[0])->0));
    assert(output_is(r, verdict(raw_quote@, *q, pck, *collateral, *ev, tcb, qe, anchor@, now)));
    r
}

/// A run is a function of its inputs: two quotes decoded from the same bytes,
/// judged with the same platform data, collateral, chains, anchor and time,
/// get the same outcome.
pub proof fn lemma_verdict_deterministic(
    a: Quote,
    b: Quote,
    s: Seq<u8>,
    pck: PckExtension,
    c: QuoteCollateralV3,
    ev: Evidence,
    tcb: TcbInfo,
    qe: QeIdentity,
    anchor: Seq<u8>,
    now: u64,
)
    requires
        quote_from(a, s),
        quote_from(b, s),
    ensures
        verdict(s, a, pck, c, ev, tcb, qe, anchor, now) == verdict(s, b, pck, c, ev, tcb, qe, anchor, now),
{
    assert(platform_svns(pck, a.report) =~= platform_svns(pck, b.report));
    assert(qe_svns(a) =~= qe_svns(b));
    assert(a.auth_data.ecdsa_attestation_key@ + a.auth_data.qe_auth_data@
        =~= b.auth_data.ecdsa_attestation_key@ + b.auth_data.qe_auth_data@);
}

/// Once the quote itself has passed, a TCB info text that its signature does
/// not cover (as after a change to any byte of it) ends the run with a
/// signature error, whatever the rest holds, unless a collateral chain is
/// refused first.
pub proof fn lemma_bad_tcb_info_signature_refused(
    s: Seq<u8>,
    q: Quote,
    pck: PckExtension,
    c: QuoteCollateralV3,
    ev: Evidence,
    tcb: TcbInfo,
    qe: QeIdentity,
    anchor: Seq<u8>,
    now: u64,
)
    requires
        q.auth_data.certification_data.cert_type == CERT_TYPE_PCK_CHAIN,
        chain_valid(ev.pck_chain@, anchor, now),
        quote_signatures_ok(s, q, ev.pck_chain@[0].public_key@),
        chain_valid(ev.tcb_info_chain@, anchor, now),
        chain_valid(ev.qe_identity_chain@, anchor, now),
        !p256_verifies(utf8_of(c.tcb_info@), c.tcb_info_signature@, ev.tcb_info_chain@[0].public_key@),
    ensures
        verdict(s, q, pck, c, ev, tcb, qe, anchor, now) == Err::<(TcbStatus, Seq<Seq<char>>), VerifyError>(VerifyError::Signature),
{
}

/// A certificate of the PCK chain whose window does not hold `now` ends the
/// run with a chain error; so does one of either collateral chain, once the
/// quote itself has passed.
pub proof fn lemma_outside_window_refused(
    s: Seq<u8>,
    q: Quote,
    pck: PckExtension,
    c: QuoteCollateralV3,
    ev: Evidence,
    tcb: TcbInfo,
    qe: QeIdentity,
    anchor: Seq<u8>,
    now: u64,
    i: int,
)
    requires
        q.auth_data.certification_data.cert_type == CERT_TYPE_PCK_CHAIN,
        (0 <= i < ev.pck_chain@.len() && !in_window(ev.pck_chain@, i, now)) || (
            chain_valid(ev.pck_chain@, anchor, now) && quote_signatures_ok(s, q, ev.pck_chain@[0].public_key@) && (
                (0 <= i < ev.tcb_info_chain@.len() && !in_window(ev.tcb_info_chain@, i, now))
                || (0 <= i < ev.qe_identity_chain@.len() && !in_window(ev.qe_identity_chain@, i, now)))),
    ensures
        verdict(s, q, pck, c, ev, tcb, qe, anchor, now) is Err,
        verdict(s, q, pck, c, ev, tcb, qe, anchor, now)->Err_0 is Chain,
{
    if 0 <= i < ev.pck_chain@.len() && !in_window(ev.pck_chain@, i, now) {
        lemma_outside_window_invalid(ev.pck_chain@, anchor, now, i);
    } else if 0 <= i < ev.tcb_info_chain@.len() && !in_window(ev.tcb_info_chain@, i, now) {
        lemma_outside_window_invalid(ev.tcb_info_chain@, anchor, now, i);
    } else {
        lemma_outside_window_invalid(ev.qe_identity_chain@, anchor, now, i);
    }
}

/// A TCB info issued for another platform (its FMSPC differs from the PCK
/// certificate's) never yields a status.
pub proof fn lemma_fmspc_mismatch_refused(
    s: Seq<u8>,
    q: Quote,
    pck: PckExtension,
    c: QuoteCollateralV3,
    ev: Evidence,
    tcb: TcbInfo,
    qe: QeIdentity,
    anchor: Seq<u8>,
    now: u64,
)
    requires
        tcb.fmspc@ != pck.fmspc@,
    ensures
        verdict(s, q, pck, c, ev, tcb, qe, anchor, now) is Err,
{
}

/// In a run on the chains that the quote and the collateral carry, a
/// certificate of the quote's PCK chain whose window does not hold `now`
/// ends the run with a chain error; so does one of either issuer chain of
/// the collateral, once the quote itself has passed.
pub proof fn lemma_carried_chain_outside_window(
    r: Result<(String, Vec<String>), VerifyError>,
    s: Seq<u8>,
    q: Quote,
    c: QuoteCollateralV3,
    ev: Evidence,
    anchor: Seq<u8>,
    now: u64,
    i: int,
)
    requires
        evidence_from(ev, q, c),
        run_outcome(r, s, q, c, ev, anchor, now),
        q.auth_data.certification_data.cert_type == CERT_TYPE_PCK_CHAIN,
        (0 <= i < ev.pck_chain@.len() && !in_window(ev.pck_chain@, i, now)) || (
            chain_valid(ev.pck_chain@, anchor, now) && quote_signatures_ok(s, q, ev.pck_chain@[0].public_key@) && (
                (0 <= i < ev.tcb_info_chain@.len() && !in_window(ev.tcb_info_chain@, i, now))
                || (0 <= i < ev.qe_identity_chain@.len() && !in_window(ev.qe_identity_chain@, i, now)))),
    ensures
        r is Err,
        r->Err_0 is Chain,
{
    let p: PckExtension = vstd::pervasive::arbitrary();
    let t: TcbInfo = vstd::pervasive::arbitrary();
    let e: QeIdentity = vstd::pervasive::arbitrary();
    lemma_outside_window_refused(s, q, p, c, ev, t, e, anchor, now, i);
}

/// Two results say the same: the same status name and advisory IDs, or the
/// same error.
pub open spec fn same_result(a: Result<(String, Vec<String>), VerifyError>, b: Result<(String, Vec<String>), VerifyError>) -> bool {
    match (a, b) {
        (Ok((s1, v1)), Ok((s2, v2))) => s1@ == s2@ && names(v1@) == names(v2@),
        (Err(e1), Err(e2)) => e1 == e2,
        _ => false,
    }
}

proof fn lemma_status_name_injective(a: TcbStatus, b: TcbStatus)
    requires
        status_name(a) == status_name(b),
    ensures
        a == b,
{
    reveal_strlit("UpToDate");
    reveal_strlit("SWHardeningNeeded");
    reveal_strlit("ConfigurationNeeded");
    reveal_strlit("ConfigurationAndSWHardeningNeeded");
    reveal_strlit("OutOfDate");
    reveal_strlit("OutOfDateConfigurationNeeded");
    reveal_strlit("Revoked");
    assert("UpToDate"@.len() == 8);
    assert("SWHardeningNeeded"@.len() == 17);
    assert("ConfigurationNeeded"@.len() == 19);
    assert("ConfigurationAndSWHardeningNeeded"@.len() == 33);
    assert("OutOfDate"@.len() == 9);
    assert("OutOfDateConfigurationNeeded"@.len() == 28);
    assert("Revoked"@.len() == 7);
    assert(status_name(a).len() == status_name(b).len());
    match a {
        TcbStatus::UpToDate => assert(status_name(a).len() == 8),
        TcbStatus::SWHardeningNeeded => assert(status_name(a).len() == 17),
        TcbStatus::ConfigurationNeeded => assert(status_name(a).len() == 19),
        TcbStatus::ConfigurationAndSWHardeningNeeded => assert(status_name(a).len() == 33),
        TcbStatus::OutOfDate => assert(status_name(a).len() == 9),
        TcbStatus::OutOfDateConfigurationNeeded => assert(status_name(a).len() == 28),
        TcbStatus::Revoked => assert(status_name(a).len() == 7),
    }
}

/// Chains with the same certificates, as plain values, are judged alike.
proof fn lemma_chains_alike(c1: Seq<CertInfo>, c2: Seq<CertInfo>, anchor: Seq<u8>, now: u64)
    requires
        chain_view(c1) == chain_view(c2),
    ensures
        c1.len() == c2.len(),
        forall|i: int| 0 <= i < c1.len() ==> cert_view(#[trigger] c1[i]) == cert_view(c2[i]),
        chain_valid(c1, anchor, now) == chain_valid(c2, anchor, now),
        chain_error_of(c1, anchor, now) == chain_error_of(c2, anchor, now),
{
    assert(chain_view(c1).len() == c1.len());
    assert forall|i: int| 0 <= i < c1.len() implies cert_view(#[trigger] c1[i]) == cert_view(c2[i]) by {
        assert(chain_view(c1)[i] == cert_view(c1[i]));
        assert(chain_view(c2)[i] == cert_view(c2[i]));
    }
    assert forall|i: int| 0 <= i < c1.len() implies cert_fault(c1, i, now) == cert_fault(c2, i, now) by {
        assert(cert_view(c1[i]) == cert_view(c2[i]));
        if i + 1 < c1.len() {
            assert(cert_view(c1[i + 1]) == cert_view(c2[i + 1]));
        }
    }
    if c1.len() > 0 {
        assert(cert_view(c1[c1.len() - 1]) == cert_view(c2[c1.len() - 1]));
    }
    if exists|i: int| 0 <= i < c1.len() && cert_fault(c1, i, now).is_some() {
        let i1 = choose|i: int| 0 <= i < c1.len() && cert_fault(c1, i, now).is_some() && faultless_upto(c1, i, now);
        let i2 = choose|i: int| 0 <= i < c2.len() && cert_fault(c2, i, now).is_some() && faultless_upto(c2, i, now);
        let k = choose|i: int| 0 <= i < c1.len() && cert_fault(c1, i, now).is_some();
        lemma_first_fault_exists(c1, now, k);
        assert(cert_fault(c2, k, now).is_some());
        lemma_first_fault_exists(c2, now, k);
        if i1 < i2 {
            assert(cert_fault(c2, i1, now).is_some());
        } else if i2 < i1 {
            assert(cert_fault(c1, i2, now).is_some());
        }
    }
}

proof fn lemma_first_fault_exists(c: Seq<CertInfo>, now: u64, k: int)
    requires
        0 <= k < c.len(),
        cert_fault(c, k, now).is_some(),
    ensures
        exists|i: int| 0 <= i < c.len() && cert_fault(c, i, now).is_some() && faultless_upto(c, i, now),
    decreases k,
{
    if faultless_upto(c, k, now) {
    } else {
        let j = choose|j: int| 0 <= j < k && !cert_fault(c, j, now).is_none();
        lemma_first_fault_exists(c, now, j);
    }
}

/// Two tables read from one document agree level by level.
proof fn lemma_levels_alike(l1: Seq<TcbLevel>, l2: Seq<TcbLevel>, doc: Seq<char>, qe: bool)
    requires
        levels_from(l1, doc, qe),
        levels_from(l2, doc, qe),
    ensures
        l1.len() == l2.len(),
        forall|i: int| 0 <= i < l1.len() ==> (#[trigger] l1[i]).svns@ == l2[i].svns@ && l1[i].status == l2[i].status
            && names(l1[i].advisory_ids@) == names(l2[i].advisory_ids@),
{
    let xs = items_field(doc, "tcbLevels"@)->0;
    assert forall|i: int| 0 <= i < l1.len() implies (#[trigger] l1[i]).svns@ == l2[i].svns@ && l1[i].status == l2[i].status
        && names(l1[i].advisory_ids@) == names(l2[i].advisory_ids@) by {
        assert(level_from(l1[i], xs[i], qe));
        assert(level_from(l2[i], xs[i], qe));
        lemma_status_name_injective(l1[i].status, l2[i].status);
    }
}

/// Tables that agree level by level choose the same level.
proof fn lemma_choice_alike(l1: Seq<TcbLevel>, l2: Seq<TcbLevel>, obs: Seq<u16>)
    requires
        l1.len() == l2.len(),
        forall|i: int| 0 <= i < l1.len() ==> (#[trigger] l1[i]).svns@ == l2[i].svns@ && l1[i].status == l2[i].status
            && names(l1[i].advisory_ids@) == names(l2[i].advisory_ids@),
    ensures
        no_match(l1, obs) == no_match(l2, obs),
        !no_match(l1, obs) ==> chosen(l1, obs).status == chosen(l2, obs).status
            && names(chosen(l1, obs).advisory_ids@) == names(chosen(l2, obs).advisory_ids@),
{
    assert forall|j: int| 0 <= j < l1.len() implies level_matches(l1[j].svns@, obs) == level_matches(l2[j].svns@, obs) by {
        assert(l1[j].svns@ == l2[j].svns@);
    }
    if !no_match(l1, obs) {
        let k = choose|j: int| 0 <= j < l1.len() && level_matches(l1[j].svns@, obs);
        lemma_first_match_exists(l1, obs, k);
        assert(level_matches(l2[k].svns@, obs));
        lemma_first_match_exists(l2, obs, k);
        let i1 = choose|i: int| is_first_match(l1, obs, i);
        let i2 = choose|i: int| is_first_match(l2, obs, i);
        if i1 < i2 {
            assert(level_matches(l2[i1].svns@, obs));
        } else if i2 < i1 {
            assert(level_matches(l1[i2].svns@, obs));
        }
        assert(l1[i1].svns@ == l2[i1].svns@);
    }
}

proof fn lemma_first_match_exists(l: Seq<TcbLevel>, obs: Seq<u16>, k: int)
    requires
        0 <= k < l.len(),
        level_matches(l[k].svns@, obs),
    ensures
        exists|i: int| is_first_match(l, obs, i),
    decreases k,
{
    if forall|j: int| 0 <= j < k ==> !level_matches(l[j].svns@, obs) {
        assert(is_first_match(l, obs, k));
    } else {
        let j = choose|j: int| 0 <= j < k && level_matches(l[j].svns@, obs);
        lemma_first_match_exists(l, obs, j);
    }
}

proof fn lemma_runs_alike(
    r1: Result<(String, Vec<String>), VerifyError>,
    r2: Result<(String, Vec<String>), VerifyError>,
    s: Seq<u8>,
    c: QuoteCollateralV3,
    anchor: Seq<u8>,
    now: u64,
    q1: Quote,
    ev1: Evidence,
    q2: Quote,
    ev2: Evidence,
)
    requires
        quote_from(q1, s),
        quote_from(q2, s),
        evidence_from(ev1, q1, c),
        evidence_from(ev2, q2, c),
        run_outcome(r1, s, q1, c, ev1, anchor, now),
        run_outcome(r2, s, q2, c, ev2, anchor, now),
    ensures
        same_result(r1, r2),
{
    lemma_decode_deterministic(q1, q2, s);
    lemma_chains_alike(ev1.pck_chain@, ev2.pck_chain@, anchor, now);
    lemma_chains_alike(ev1.tcb_info_chain@, ev2.tcb_info_chain@, anchor, now);
    lemma_chains_alike(ev1.qe_identity_chain@, ev2.qe_identity_chain@, anchor, now);
    if ev1.pck_chain@.len() > 0 {
        assert(cert_view(ev1.pck_chain@[0]) == cert_view(ev2.pck_chain@[0]));
    }
    if ev1.tcb_info_chain@.len() > 0 {
        assert(cert_view(ev1.tcb_info_chain@[0]) == cert_view(ev2.tcb_info_chain@[0]));
    }
    if ev1.qe_identity_chain@.len() > 0 {
        assert(cert_view(ev1.qe_identity_chain@[0]) == cert_view(ev2.qe_identity_chain@[0]));
    }
    assert(q1.auth_data.ecdsa_attestation_key@ + q1.auth_data.qe_auth_data@
        =~= q2.auth_data.ecdsa_attestation_key@ + q2.auth_data.qe_auth_data@);
    assert(precheck_error(s, q1, c, ev1, anchor, now) == precheck_error(s, q2, c, ev2, anchor, now));
    if precheck_error(s, q1, c, ev1, anchor, now) is None {
        assert(sgx_extension_of(ev1.pck_chain@[0]) == sgx_extension_of(ev2.pck_chain@[0]));
        if (sgx_extension_of(ev1.pck_chain@[0]) matches Some(x) && pck_readable(x))
            && tcb_info_parses(c.tcb_info@) && qe_identity_parses(c.qe_identity@) {
            let x = sgx_extension_of(ev1.pck_chain@[0])->0;
            let (p1, t1, e1) = choose|p: PckExtension, t: TcbInfo, e: QeIdentity|
                pck_from(p, x) && tcb_info_from(t, c.tcb_info@) && qe_identity_from(e, c.qe_identity@)
                    && output_is(r1, verdict(s, q1, p, c, ev1, t, e, anchor, now));
            let (p2, t2, e2) = choose|p: PckExtension, t: TcbInfo, e: QeIdentity|
                pck_from(p, x) && tcb_info_from(t, c.tcb_info@) && qe_identity_from(e, c.qe_identity@)
                    && output_is(r2, verdict(s, q2, p, c, ev2, t, e, anchor, now));
            assert(p1.cpu_svn@ =~= p2.cpu_svn@);
            lemma_levels_alike(t1.levels@, t2.levels@, c.tcb_info@, false);
            lemma_levels_alike(e1.levels@, e2.levels@, c.qe_identity@, true);
            assert(platform_svns(p1, q1.report) =~= platform_svns(p2, q2.report));
            assert(qe_svns(q1) =~= qe_svns(q2));
            lemma_choice_alike(t1.levels@, t2.levels@, platform_svns(p1, q1.report));
            lemma_choice_alike(e1.levels@, e2.levels@, qe_svns(q1));
            assert(verdict(s, q1, p1, c, ev1, t1, e1, anchor, now) == verdict(s, q2, p2, c, ev2, t2, e2, anchor, now));
        }
    }
}

/// Verification is a function of its inputs: two runs on the same quote
/// bytes, collateral, anchor and time report the same status and advisory
/// IDs, or the same error.
pub proof fn lemma_verify_deterministic(
    r1: Result<(String, Vec<String>), VerifyError>,
    r2: Result<(String, Vec<String>), VerifyError>,
    raw: Seq<u8>,
    c: QuoteCollateralV3,
    anchor: Seq<u8>,
    now: u64,
)
    requires
        verify_outcome(r1, raw, c, anchor, now),
        verify_outcome(r2, raw, c, anchor, now),
    ensures
        same_result(r1, r2),
{
    if quote_ok(raw) {
        let (q1, ev1) = choose|q: Quote, ev: Evidence|
            quote_from(q, raw) && evidence_from(ev, q, c) && run_outcome(r1, raw, q, c, ev, anchor, now);
        let (q2, ev2) = choose|q: Quote, ev: Evidence|
            quote_from(q, raw) && evidence_from(ev, q, c) && run_outcome(r2, raw, q, c, ev, anchor, now);
        lemma_runs_alike(r1, r2, raw, c, anchor, now, q1, ev1, q2, ev2);
    }
}

/// The PEM text of the quote's certification data, where the layout puts it.
pub open spec fn pck_pem_of(s: Seq<u8>) -> Seq<u8> {
    let c = cert_pos(s, qe_section_start(s));
    bytes_at(s, c + 6, le32(s, c + 2))
}

/// The certificate at `i` of a chain read from PEM has a window that does
/// not hold `now`.
pub open spec fn outside_window_at(
    v: Seq<(Seq<u8>, u64, u64, Seq<u8>, Seq<u8>, Seq<(Seq<u8>, Seq<u8>)>)>,
    i: int,
    now: u64,
) -> bool {
    0 <= i < v.len() && (now < v[i].1 || now > v[i].2)
}

/// A certificate of the quote's own PCK chain whose window does not hold
/// `now` makes `verify` fail with a chain error, whatever the collateral holds.
pub proof fn lemma_verify_pck_outside_window(
    r: Result<(String, Vec<String>), VerifyError>,
    raw: Seq<u8>,
    c: QuoteCollateralV3,
    anchor: Seq<u8>,
    now: u64,
    i: int,
)
    requires
        verify_outcome(r, raw, c, anchor, now),
        quote_ok(raw),
        le16(raw, cert_pos(raw, qe_section_start(raw))) == CERT_TYPE_PCK_CHAIN,
        outside_window_at(chain_or_empty(pck_pem_of(raw)), i, now),
    ensures
        r is Err,
        r->Err_0 is Chain,
{
    let (q, ev) = choose|q: Quote, ev: Evidence|
        quote_from(q, raw) && evidence_from(ev, q, c) && run_outcome(r, raw, q, c, ev, anchor, now);
    assert(chain_view(ev.pck_chain@)[i] == cert_view(ev.pck_chain@[i]));
    assert(!in_window(ev.pck_chain@, i, now));
    lemma_carried_chain_outside_window(r, raw, q, c, ev, anchor, now, i);
}

/// A certificate of either issuer chain of the collateral whose window does
/// not hold `now` makes `verify` fail: with a chain error, unless the quote
/// itself was refused first (by its decoding, its PCK chain or its
/// signatures).
pub proof fn lemma_verify_collateral_outside_window(
    r: Result<(String, Vec<String>), VerifyError>,
    raw: Seq<u8>,
    c: QuoteCollateralV3,
    anchor: Seq<u8>,
    now: u64,
    i: int,
)
    requires
        verify_outcome(r, raw, c, anchor, now),
        outside_window_at(chain_or_empty(utf8_of(c.tcb_info_issuer_chain@)), i, now)
            || outside_window_at(chain_or_empty(utf8_of(c.qe_identity_issuer_chain@)), i, now),
    ensures
        r is Err,
        r->Err_0 is Chain || r->Err_0 is Signature || r->Err_0 is Decode,
{
    if quote_ok(raw) {
        let (q, ev) = choose|q: Quote, ev: Evidence|
            quote_from(q, raw) && evidence_from(ev, q, c) && run_outcome(r, raw, q, c, ev, anchor, now);
        if outside_window_at(chain_or_empty(utf8_of(c.tcb_info_issuer_chain@)), i, now) {
            assert(chain_view(ev.tcb_info_chain@)[i] == cert_view(ev.tcb_info_chain@[i]));
            lemma_outside_window_invalid(ev.tcb_info_chain@, anchor, now, i);
        } else {
            assert(chain_view(ev.qe_identity_chain@)[i] == cert_view(ev.qe_identity_chain@[i]));
            lemma_outside_window_invalid(ev.qe_identity_chain@, anchor, now, i);
        }
    }
}

/// A TCB info text that its signature does not cover under the leaf key of
/// the collateral's TCB issuer chain (as after a change to any of its bytes)
/// never yields a status: `verify` fails with a signature error, or earlier
/// with a decoding or chain error.
pub proof fn lemma_verify_unsigned_tcb_info_refused(
    r: Result<(String, Vec<String>), VerifyError>,
    raw: Seq<u8>,
    c: QuoteCollateralV3,
    anchor: Seq<u8>,
    now: u64,
)
    requires
        verify_outcome(r, raw, c, anchor, now),
        chain_or_empty(utf8_of(c.tcb_info_issuer_chain@)).len() > 0,
        !p256_verifies(utf8_of(c.tcb_info@), c.tcb_info_signature@, chain_or_empty(utf8_of(c.tcb_info_issuer_chain@))[0].0),
    ensures
        r is Err,
        r->Err_0 is Signature || r->Err_0 is Chain || r->Err_0 is Decode,
{
    if quote_ok(raw) {
        let (q, ev) = choose|q: Quote, ev: Evidence|
            quote_from(q, raw) && evidence_from(ev, q, c) && run_outcome(r, raw, q, c, ev, anchor, now);
        assert(chain_view(ev.tcb_info_chain@)[0] == cert_view(ev.tcb_info_chain@[0]));
        assert(!collateral_signatures_ok(c, ev.tcb_info_chain@[0].public_key@, ev.qe_identity_chain@[0].public_key@));
    }
}

} // verus!
