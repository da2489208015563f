//! The collateral bundle, and how it is read from the collateral service's
//! two response bodies.

use vstd::prelude::*;
use crate::codec::{is_hex, hex_bytes, hex_decode};
use crate::json::{members_of, lookup, string_of, members_view, object_members, find_member, json_string};

verus! {

/// Signed TCB info and QE identity with the PEM chains of their issuers.
/// The two JSON texts are kept byte for byte as they were signed.
pub struct QuoteCollateralV3 {
    pub tcb_info_issuer_chain: String,
    pub tcb_info: String,
    pub tcb_info_signature: Vec<u8>,
    pub qe_identity_issuer_chain: String,
    pub qe_identity: String,
    pub qe_identity_signature: Vec<u8>,
}

#[derive(Debug, Clone, Copy, PartialEq, Eq, Structural)]
pub enum DocumentError {
    IssuerChainNotUrlEncoded,
    NotJson,
    MissingField,
    SignatureNotHex,
}

#[derive(Debug, Clone, Copy, PartialEq, Eq, Structural)]
pub enum CollateralError {
    TcbInfo(DocumentError),
    QeIdentity(DocumentError),
}

/// The text that URL-encoded text stands for; `None` where the decoded bytes
/// are no UTF-8.
pub uninterp spec fn url_decoded_of(s: Seq<char>) -> Option<Seq<char>>;

/// Relies on urlencoding::decode: percent-escapes replaced by their bytes,
/// refused where the result is no UTF-8.
#[verifier::external_body]
fn url_decode(s: &str) -> (r: Option<String>)
    ensures
        r matches Some(t) ==> url_decoded_of(s@) == Some(t@),
        r is None ==> url_decoded_of(s@) is None,
{
    urlencoding::decode(s).ok().map(|t| t.into_owned())
}

/// A response body `{"<key>": {...}, "signature": "<hex>"}` read into the
/// member's raw text and the signature's bytes.
pub open spec fn signed_part(body: Seq<char>, key: Seq<char>) -> Result<(Seq<char>, Seq<u8>), DocumentError> {
    match members_of(body) {
        None => Err(DocumentError::NotJson),
        Some(ms) => match (lookup(ms, key), lookup(ms, "signature"@)) {
            (Some(t), Some(sig)) => match string_of(sig) {
                Some(h) => if is_hex(h) {
                    Ok((t, hex_bytes(h)))
                } else {
                    Err(DocumentError::SignatureNotHex)
                },
                None => Err(DocumentError::SignatureNotHex),
            },
            _ => Err(DocumentError::MissingField),
        },
    }
}

/// Reads the signed member `key` and the signature of a response body.
pub fn read_signed_part(body: &str, key: &str) -> (r: Result<(String, Vec<u8>), DocumentError>)
    ensures
        match r {
            Ok((t, s)) => signed_part(body@, key@) == Ok::<(Seq<char>, Seq<u8>), DocumentError>((t@, s@)),
            Err(e) => signed_part(body@, key@) == Err::<(Seq<char>, Seq<u8>), DocumentError>(e),
        },
{
    let ms = match object_members(body) {
        Some(ms) => ms,
        None => return Err(DocumentError::NotJson),
    };
    assert(members_view(ms@) == ms@.map_values(|m: (String, String)| (m.0@, m.1@)));
    let t = find_member(&ms, key);
    let sig = find_member(&ms, "signature");
    match (t, sig) {
        (Some(t), Some(sig)) => match json_string(sig.as_str()) {
            Some(h) => match hex_decode(h.as_str()) {
                Some(b) => Ok((t, b)),
                None => Err(DocumentError::SignatureNotHex),
            },
            None => Err(DocumentError::SignatureNotHex),
        },
        _ => Err(DocumentError::MissingField),
    }
}

/// The bundle holds the two chains, URL-decoded from their headers, and the
/// members and signatures that the two bodies hold.
pub open spec fn collateral_from(
    c: QuoteCollateralV3,
    tcb_chain: Seq<char>,
    tcb_body: Seq<char>,
    qe_chain: Seq<char>,
    qe_body: Seq<char>,
) -> bool {
    &&& url_decoded_of(tcb_chain) == Some(c.tcb_info_issuer_chain@)
    &&& signed_part(tcb_body, "tcbInfo"@) == Ok::<(Seq<char>, Seq<u8>), DocumentError>((c.tcb_info@, c.tcb_info_signature@))
    &&& url_decoded_of(qe_chain) == Some(c.qe_identity_issuer_chain@)
    &&& signed_part(qe_body, "enclaveIdentity"@) == Ok::<(Seq<char>, Seq<u8>), DocumentError>((c.qe_identity@, c.qe_identity_signature@))
}

/// Why one response is refused: its issuer-chain header first, then its body.
pub open spec fn response_error(chain: Seq<char>, body: Seq<char>, key: Seq<char>) -> Option<DocumentError> {
    if url_decoded_of(chain) is None {
        Some(DocumentError::IssuerChainNotUrlEncoded)
    } else {
        match signed_part(body, key) {
            Ok(_) => None,
            Err(e) => Some(e),
        }
    }
}

/// Builds the collateral bundle from the two issuer-chain headers (as sent,
/// URL-encoded) and the two response bodies.
pub fn collateral_from_responses(
    tcb_info_issuer_chain: &str,
    raw_tcb_info: &str,
    qe_identity_issuer_chain: &str,
    raw_qe_identity: &str,
) -> (r: Result<QuoteCollateralV3, CollateralError>)
    ensures
        match r {
            Ok(c) => collateral_from(c, tcb_info_issuer_chain@, raw_tcb_info@, qe_identity_issuer_chain@, raw_qe_identity@),
            Err(CollateralError::TcbInfo(e)) => response_error(tcb_info_issuer_chain@, raw_tcb_info@, "tcbInfo"@) == Some(e),
            Err(CollateralError::QeIdentity(e)) => response_error(tcb_info_issuer_chain@, raw_tcb_info@, "tcbInfo"@) is None
                && response_error(qe_identity_issuer_chain@, raw_qe_identity@, "enclaveIdentity"@) == Some(e),
        },
{
    let tcb_chain = match url_decode(tcb_info_issuer_chain) {
        Some(t) => t,
        None => return Err(CollateralError::TcbInfo(DocumentError::IssuerChainNotUrlEncoded)),
    };
    let (tcb_info, tcb_info_signature) = match read_signed_part(raw_tcb_info, "tcbInfo") {
        Ok(p) => p,
        Err(e) => return Err(CollateralError::TcbInfo(e)),
    };
    let qe_chain = match url_decode(qe_identity_issuer_chain) {
        Some(t) => t,
        None => return Err(CollateralError::QeIdentity(DocumentError::IssuerChainNotUrlEncoded)),
    };
    let (qe_identity, qe_identity_signature) = match read_signed_part(raw_qe_identity, "enclaveIdentity") {
        Ok(p) => p,
        Err(e) => return Err(CollateralError::QeIdentity(e)),
    };
    Ok(QuoteCollateralV3 {
        tcb_info_issuer_chain: tcb_chain,
        tcb_info,
        tcb_info_signature,
        qe_identity_issuer_chain: qe_chain,
        qe_identity,
        qe_identity_signature,
    })
}

} // verus!
