//! The binary quote: header, report body (SGX enclave or TDX TD), and the
//! signature block with its certification data.

use vstd::prelude::*;
use crate::codec::{le16, le32, read_u16, read_u32, copy_range};

verus! {

pub const HEADER_LEN: usize = 48;
pub const ENCLAVE_REPORT_LEN: usize = 384;
pub const TD_REPORT10_LEN: usize = 584;
pub const TEE_TYPE_SGX: u32 = 0;
pub const TEE_TYPE_TDX: u32 = 0x81;
/// Certification data holding a PEM chain: PCK leaf, intermediate, root.
pub const CERT_TYPE_PCK_CHAIN: u16 = 5;
/// Certification data holding the QE report section (quote version 4).
pub const CERT_TYPE_QE_REPORT: u16 = 6;
/// No shorter buffer is a quote: header, enclave report, the size field,
/// and the smallest version-3 signature block.
pub const MIN_QUOTE_LEN: usize = 1020;

pub struct Header {
    pub version: u16,
    pub attestation_key_type: u16,
    pub tee_type: u32,
    pub qe_svn: u16,
    pub pce_svn: u16,
    pub qe_vendor_id: Vec<u8>,
    pub user_data: Vec<u8>,
}

pub struct EnclaveReport {
    pub cpu_svn: Vec<u8>,
    pub misc_select: u32,
    pub attributes: Vec<u8>,
    pub mr_enclave: Vec<u8>,
    pub mr_signer: Vec<u8>,
    pub isv_prod_id: u16,
    pub isv_svn: u16,
    pub report_data: Vec<u8>,
}

pub struct TdReport10 {
    pub tee_tcb_svn: Vec<u8>,
    pub mr_seam: Vec<u8>,
    pub mr_signer_seam: Vec<u8>,
    pub seam_attributes: Vec<u8>,
    pub td_attributes: Vec<u8>,
    pub xfam: Vec<u8>,
    pub mr_td: Vec<u8>,
    pub mr_config_id: Vec<u8>,
    pub mr_owner: Vec<u8>,
    pub mr_owner_config: Vec<u8>,
    pub rt_mr0: Vec<u8>,
    pub rt_mr1: Vec<u8>,
    pub rt_mr2: Vec<u8>,
    pub rt_mr3: Vec<u8>,
    pub report_data: Vec<u8>,
}

pub enum Report {
    SgxEnclave(EnclaveReport),
    TdReport10(TdReport10),
}

pub struct CertificationData {
    pub cert_type: u16,
    pub body: Vec<u8>,
}

pub struct AuthData {
    pub ecdsa_signature: Vec<u8>,
    pub ecdsa_attestation_key: Vec<u8>,
    pub qe_report: EnclaveReport,
    pub qe_report_signature: Vec<u8>,
    pub qe_auth_data: Vec<u8>,
    pub certification_data: CertificationData,
}

pub struct Quote {
    pub header: Header,
    pub report: Report,
    pub auth_data: AuthData,
}

#[derive(Debug, Clone, Copy, PartialEq, Eq, Structural)]
pub enum DecodeError {
    Truncated,
    UnsupportedVersion,
    UnknownTeeType,
    UnknownCertificationDataType,
}

pub open spec fn bytes_at(s: Seq<u8>, p: int, n: int) -> Seq<u8> {
    s.subrange(p, p + n)
}

pub open spec fn header_from(h: Header, s: Seq<u8>) -> bool {
    &&& h.version == le16(s, 0)
    &&& h.attestation_key_type == le16(s, 2)
    &&& h.tee_type == le32(s, 4)
    &&& h.qe_svn == le16(s, 8)
    &&& h.pce_svn == le16(s, 10)
    &&& h.qe_vendor_id@ == bytes_at(s, 12, 16)
    &&& h.user_data@ == bytes_at(s, 28, 20)
}

pub open spec fn enclave_report_from(r: EnclaveReport, s: Seq<u8>, p: int) -> bool {
    &&& r.cpu_svn@ == bytes_at(s, p, 16)
    &&& r.misc_select == le32(s, p + 16)
    &&& r.attributes@ == bytes_at(s, p + 48, 16)
    &&& r.mr_enclave@ == bytes_at(s, p + 64, 32)
    &&& r.mr_signer@ == bytes_at(s, p + 128, 32)
    &&& r.isv_prod_id == le16(s, p + 256)
    &&& r.isv_svn == le16(s, p + 258)
    &&& r.report_data@ == bytes_at(s, p + 320, 64)
}

pub open spec fn td_report_from(r: TdReport10, s: Seq<u8>, p: int) -> bool {
    &&& r.tee_tcb_svn@ == bytes_at(s, p, 16)
    &&& r.mr_seam@ == bytes_at(s, p + 16, 48)
    &&& r.mr_signer_seam@ == bytes_at(s, p + 64, 48)
    &&& r.seam_attributes@ == bytes_at(s, p + 112, 8)
    &&& r.td_attributes@ == bytes_at(s, p + 120, 8)
    &&& r.xfam@ == bytes_at(s, p + 128, 8)
    &&& r.mr_td@ == bytes_at(s, p + 136, 48)
    &&& r.mr_config_id@ == bytes_at(s, p + 184, 48)
    &&& r.mr_owner@ == bytes_at(s, p + 232, 48)
    &&& r.mr_owner_config@ == bytes_at(s, p + 280, 48)
    &&& r.rt_mr0@ == bytes_at(s, p + 328, 48)
    &&& r.rt_mr1@ == bytes_at(s, p + 376, 48)
    &&& r.rt_mr2@ == bytes_at(s, p + 424, 48)
    &&& r.rt_mr3@ == bytes_at(s, p + 472, 48)
    &&& r.report_data@ == bytes_at(s, p + 520, 64)
}

/// Length of the report body that the TEE type selects.
pub open spec fn body_len(tee_type: int) -> int {
    if tee_type == TEE_TYPE_SGX {
        ENCLAVE_REPORT_LEN as int
    } else {
        TD_REPORT10_LEN as int
    }
}

/// Where the size field of the signature block stands.
pub open spec fn auth_size_pos(s: Seq<u8>) -> int {
    HEADER_LEN + body_len(le32(s, 4))
}

/// First byte of the signature block.
pub open spec fn auth_start(s: Seq<u8>) -> int {
    auth_size_pos(s) + 4
}

/// One past the last byte of the signature block.
pub open spec fn auth_end(s: Seq<u8>) -> int {
    auth_start(s) + le32(s, auth_size_pos(s))
}

/// Where the QE report section starts inside the signature block.
pub open spec fn qe_section_start(s: Seq<u8>) -> int {
    if le16(s, 0) == 3 {
        auth_start(s) + 128
    } else {
        auth_start(s) + 134
    }
}

/// Where the QE report section ends: the block's end for version 3, the end
/// of the enclosing certification data for version 4.
pub open spec fn qe_section_end(s: Seq<u8>) -> int {
    if le16(s, 0) == 3 {
        auth_end(s)
    } else {
        auth_start(s) + 134 + le32(s, auth_start(s) + 130)
    }
}

pub open spec fn qe_auth_len(s: Seq<u8>, p: int) -> int {
    le16(s, p + 448)
}

/// Position of the certification data's type tag in a QE section at `p`.
pub open spec fn cert_pos(s: Seq<u8>, p: int) -> int {
    p + 450 + qe_auth_len(s, p)
}

/// A QE section at `p` lies wholly before `end`.
pub open spec fn qe_section_fits(s: Seq<u8>, p: int, end: int) -> bool {
    &&& p + 450 <= end
    &&& cert_pos(s, p) + 6 <= end
    &&& cert_pos(s, p) + 6 + le32(s, cert_pos(s, p) + 2) <= end
}

pub open spec fn version_known(s: Seq<u8>) -> bool {
    le16(s, 0) == 3 || le16(s, 0) == 4
}

pub open spec fn tee_known(s: Seq<u8>) -> bool {
    le32(s, 4) == TEE_TYPE_SGX || le32(s, 4) == TEE_TYPE_TDX
}

/// The block is there, in full.
pub open spec fn auth_fits(s: Seq<u8>) -> bool {
    auth_start(s) <= s.len() && auth_end(s) <= s.len()
}

/// Version 4: the block is long enough to hold the wrapping certification
/// data's type and size.
pub open spec fn wrapper_fits(s: Seq<u8>) -> bool {
    auth_start(s) + 134 <= auth_end(s)
}

/// Version 4 with a wrapping certification data of another type than the QE
/// report section.
pub open spec fn wrapper_tag_unknown(s: Seq<u8>) -> bool {
    &&& le16(s, 0) == 4
    &&& wrapper_fits(s)
    &&& le16(s, auth_start(s) + 128) != CERT_TYPE_QE_REPORT
}

/// The bytes are a well-formed quote.
pub open spec fn quote_ok(s: Seq<u8>) -> bool {
    &&& s.len() >= HEADER_LEN
    &&& version_known(s)
    &&& tee_known(s)
    &&& auth_fits(s)
    &&& le16(s, 0) == 4 ==> {
        &&& wrapper_fits(s)
        &&& le16(s, auth_start(s) + 128) == CERT_TYPE_QE_REPORT
        &&& qe_section_end(s) <= auth_end(s)
    }
    &&& qe_section_fits(s, qe_section_start(s), qe_section_end(s))
}

/// Why bytes that are no quote are refused, by the first defect found.
pub open spec fn decode_error_of(s: Seq<u8>) -> DecodeError {
    if s.len() < HEADER_LEN {
        DecodeError::Truncated
    } else if !version_known(s) {
        DecodeError::UnsupportedVersion
    } else if !tee_known(s) {
        DecodeError::UnknownTeeType
    } else if auth_fits(s) && wrapper_tag_unknown(s) {
        DecodeError::UnknownCertificationDataType
    } else {
        DecodeError::Truncated
    }
}

pub open spec fn auth_data_from(a: AuthData, s: Seq<u8>) -> bool {
    let p = qe_section_start(s);
    let c = cert_pos(s, p);
    &&& a.ecdsa_signature@ == bytes_at(s, auth_start(s), 64)
    &&& a.ecdsa_attestation_key@ == bytes_at(s, auth_start(s) + 64, 64)
    &&& enclave_report_from(a.qe_report, s, p)
    &&& a.qe_report_signature@ == bytes_at(s, p + 384, 64)
    &&& a.qe_auth_data@ == bytes_at(s, p + 450, qe_auth_len(s, p))
    &&& a.certification_data.cert_type == le16(s, c)
    &&& a.certification_data.body@ == bytes_at(s, c + 6, le32(s, c + 2))
}

/// Every field of `q` is read from where the layout puts it in `s`.
pub open spec fn quote_from(q: Quote, s: Seq<u8>) -> bool {
    &&& header_from(q.header, s)
    &&& match q.report {
        Report::SgxEnclave(r) => le32(s, 4) == TEE_TYPE_SGX && enclave_report_from(r, s, 48),
        Report::TdReport10(r) => le32(s, 4) == TEE_TYPE_TDX && td_report_from(r, s, 48),
    }
    &&& auth_data_from(q.auth_data, s)
}

fn decode_header(b: &[u8]) -> (h: Header)
    requires
        HEADER_LEN <= b@.len(),
    ensures
        header_from(h, b@),
{
    Header {
        version: read_u16(b, 0),
        attestation_key_type: read_u16(b, 2),
        tee_type: read_u32(b, 4),
        qe_svn: read_u16(b, 8),
        pce_svn: read_u16(b, 10),
        qe_vendor_id: copy_range(b, 12, 16),
        user_data: copy_range(b, 28, 20),
    }
}

fn decode_enclave_report(b: &[u8], p: usize) -> (r: EnclaveReport)
    requires
        p + ENCLAVE_REPORT_LEN <= b@.len(),
    ensures
        enclave_report_from(r, b@, p as int),
{
    let _len = b.len();
    EnclaveReport {
        cpu_svn: copy_range(b, p, 16),
        misc_select: read_u32(b, p + 16),
        attributes: copy_range(b, p + 48, 16),
        mr_enclave: copy_range(b, p + 64, 32),
        mr_signer: copy_range(b, p + 128, 32),
        isv_prod_id: read_u16(b, p + 256),
        isv_svn: read_u16(b, p + 258),
        report_data: copy_range(b, p + 320, 64),
    }
}

fn decode_td_report(b: &[u8], p: usize) -> (r: TdReport10)
    requires
        p + TD_REPORT10_LEN <= b@.len(),
    ensures
        td_report_from(r, b@, p as int),
{
    let _len = b.len();
    TdReport10 {
        tee_tcb_svn: copy_range(b, p, 16),
        mr_seam: copy_range(b, p + 16, 48),
        mr_signer_seam: copy_range(b, p + 64, 48),
        seam_attributes: copy_range(b, p + 112, 8),
        td_attributes: copy_range(b, p + 120, 8),
        xfam: copy_range(b, p + 128, 8),
        mr_td: copy_range(b, p + 136, 48),
        mr_config_id: copy_range(b, p + 184, 48),
        mr_owner: copy_range(b, p + 232, 48),
        mr_owner_config: copy_range(b, p + 280, 48),
        rt_mr0: copy_range(b, p + 328, 48),
        rt_mr1: copy_range(b, p + 376, 48),
        rt_mr2: copy_range(b, p + 424, 48),
        rt_mr3: copy_range(b, p + 472, 48),
        report_data: copy_range(b, p + 520, 64),
    }
}

/// Decodes a quote from its wire form. Bytes after the signature block are
/// left unread.
pub fn decode_quote(b: &[u8]) -> (r: Result<Quote, DecodeError>)
    ensures
        match r {
            Ok(q) => quote_ok(b@) && quote_from(q, b@),
            Err(e) => !quote_ok(b@) && e == decode_error_of(b@),
        },
{
    let n = b.len();
    if n < HEADER_LEN {
        return Err(DecodeError::Truncated);
    }
    let header = decode_header(b);
    if header.version != 3 && header.version != 4 {
        return Err(DecodeError::UnsupportedVersion);
    }
    if header.tee_type != TEE_TYPE_SGX && header.tee_type != TEE_TYPE_TDX {
        return Err(DecodeError::UnknownTeeType);
    }
    let body_len: usize = if header.tee_type == TEE_TYPE_SGX {
        ENCLAVE_REPORT_LEN
    } else {
        TD_REPORT10_LEN
    };
    let size_pos: usize = HEADER_LEN + body_len;
    if n < size_pos + 4 {
        return Err(DecodeError::Truncated);
    }
    let report = if header.tee_type == TEE_TYPE_SGX {
        Report::SgxEnclave(decode_enclave_report(b, HEADER_LEN))
    } else {
        Report::TdReport10(decode_td_report(b, HEADER_LEN))
    };
    let size = read_u32(b, size_pos) as usize;
    let start: usize = size_pos + 4;
    if size > n - start {
        return Err(DecodeError::Truncated);
    }
    let end: usize = start + size;
    let qe_start: usize;
    let qe_end: usize;
    if header.version == 3 {
        qe_start = start + 128;
        qe_end = end;
    } else {
        if size < 134 {
            return Err(DecodeError::Truncated);
        }
        if read_u16(b, start + 128) != CERT_TYPE_QE_REPORT {
            return Err(DecodeError::UnknownCertificationDataType);
        }
        let inner = read_u32(b, start + 130) as usize;
        if inner > end - (start + 134) {
            return Err(DecodeError::Truncated);
        }
        qe_start = start + 134;
        qe_end = start + 134 + inner;
    }
    if qe_end < qe_start || qe_end - qe_start < 450 {
        return Err(DecodeError::Truncated);
    }
    let qad_len = read_u16(b, qe_start + 448) as usize;
    if qe_end - (qe_start + 450) < qad_len + 6 {
        return Err(DecodeError::Truncated);
    }
    let c: usize = qe_start + 450 + qad_len;
    let cert_len = read_u32(b, c + 2) as usize;
    if qe_end - (c + 6) < cert_len {
        return Err(DecodeError::Truncated);
    }
    let auth_data = AuthData {
        ecdsa_signature: copy_range(b, start, 64),
        ecdsa_attestation_key: copy_range(b, start + 64, 64),
        qe_report: decode_enclave_report(b, qe_start),
        qe_report_signature: copy_range(b, qe_start + 384, 64),
        qe_auth_data: copy_range(b, qe_start + 450, qad_len),
        certification_data: CertificationData {
            cert_type: read_u16(b, c),
            body: copy_range(b, c + 6, cert_len),
        },
    };
    Ok(Quote { header, report, auth_data })
}

pub open spec fn same_enclave_report(a: EnclaveReport, b: EnclaveReport) -> bool {
    &&& a.cpu_svn@ == b.cpu_svn@
    &&& a.misc_select == b.misc_select
    &&& a.attributes@ == b.attributes@
    &&& a.mr_enclave@ == b.mr_enclave@
    &&& a.mr_signer@ == b.mr_signer@
    &&& a.isv_prod_id == b.isv_prod_id
    &&& a.isv_svn == b.isv_svn
    &&& a.report_data@ == b.report_data@
}

pub open spec fn same_td_report(a: TdReport10, b: TdReport10) -> bool {
    &&& a.tee_tcb_svn@ == b.tee_tcb_svn@
    &&& a.mr_seam@ == b.mr_seam@
    &&& a.mr_signer_seam@ == b.mr_signer_seam@
    &&& a.seam_attributes@ == b.seam_attributes@
    &&& a.td_attributes@ == b.td_attributes@
    &&& a.xfam@ == b.xfam@
    &&& a.mr_td@ == b.mr_td@
    &&& a.mr_config_id@ == b.mr_config_id@
    &&& a.mr_owner@ == b.mr_owner@
    &&& a.mr_owner_config@ == b.mr_owner_config@
    &&& a.rt_mr0@ == b.rt_mr0@
    &&& a.rt_mr1@ == b.rt_mr1@
    &&& a.rt_mr2@ == b.rt_mr2@
    &&& a.rt_mr3@ == b.rt_mr3@
    &&& a.report_data@ == b.report_data@
}

/// Two quotes hold the same values in every field.
pub open spec fn same_quote(a: Quote, b: Quote) -> bool {
    &&& a.header.version == b.header.version
    &&& a.header.attestation_key_type == b.header.attestation_key_type
    &&& a.header.tee_type == b.header.tee_type
    &&& a.header.qe_svn == b.header.qe_svn
    &&& a.header.pce_svn == b.header.pce_svn
    &&& a.header.qe_vendor_id@ == b.header.qe_vendor_id@
    &&& a.header.user_data@ == b.header.user_data@
    &&& match (a.report, b.report) {
        (Report::SgxEnclave(x), Report::SgxEnclave(y)) => same_enclave_report(x, y),
        (Report::TdReport10(x), Report::TdReport10(y)) => same_td_report(x, y),
        _ => false,
    }
    &&& a.auth_data.ecdsa_signature@ == b.auth_data.ecdsa_signature@
    &&& a.auth_data.ecdsa_attestation_key@ == b.auth_data.ecdsa_attestation_key@
    &&& same_enclave_report(a.auth_data.qe_report, b.auth_data.qe_report)
    &&& a.auth_data.qe_report_signature@ == b.auth_data.qe_report_signature@
    &&& a.auth_data.qe_auth_data@ == b.auth_data.qe_auth_data@
    &&& a.auth_data.certification_data.cert_type == b.auth_data.certification_data.cert_type
    &&& a.auth_data.certification_data.body@ == b.auth_data.certification_data.body@
}

/// A buffer shorter than `MIN_QUOTE_LEN` is never a well-formed quote, so
/// `decode_quote` refuses it.
pub proof fn lemma_short_buffer_refused(s: Seq<u8>)
    requires
        s.len() < MIN_QUOTE_LEN,
    ensures
        !quote_ok(s),
{
}

/// Decoding is a function of the bytes: two quotes decoded from the same
/// bytes agree in every field.
pub proof fn lemma_decode_deterministic(a: Quote, b: Quote, s: Seq<u8>)
    requires
        quote_from(a, s),
        quote_from(b, s),
    ensures
        same_quote(a, b),
{
}

} // verus!
