//! Certificate-chain validation over what is read from each certificate: its
//! key, its validity window, its signed part and its signature, which must
//! verify under the next certificate's key.

use vstd::prelude::*;
use crate::crypto::{p256_der_verifies, ecdsa_verify_der};
use x509_cert::der::Encode;

verus! {

/// What the validator needs of one certificate of a chain, leaf first.
pub struct CertInfo {
    /// SEC1-encoded P-256 key.
    pub public_key: Vec<u8>,
    /// Seconds since the epoch.
    pub not_before: u64,
    pub not_after: u64,
    /// The DER of the signed part (`tbsCertificate`).
    pub tbs: Vec<u8>,
    /// The issuer's ECDSA signature over `tbs`, in DER.
    pub signature: Vec<u8>,
    /// Each extension's OID (its content octets) and value, in order.
    pub extensions: Vec<(Vec<u8>, Vec<u8>)>,
}

/// A certificate as plain values: key, validity window, signed part,
/// signature, extensions.
pub open spec fn cert_view(c: CertInfo) -> (Seq<u8>, u64, u64, Seq<u8>, Seq<u8>, Seq<(Seq<u8>, Seq<u8>)>) {
    (c.public_key@, c.not_before, c.not_after, c.tbs@, c.signature@,
        c.extensions@.map_values(|e: (Vec<u8>, Vec<u8>)| (e.0@, e.1@)))
}

pub open spec fn chain_view(v: Seq<CertInfo>) -> Seq<(Seq<u8>, u64, u64, Seq<u8>, Seq<u8>, Seq<(Seq<u8>, Seq<u8>)>)> {
    v.map_values(|c: CertInfo| cert_view(c))
}

/// The certificates of a PEM chain, in order, as plain values; `None` where
/// the text is no PEM chain of X.509 certificates.
pub uninterp spec fn pem_chain_of(pem: Seq<u8>) -> Option<Seq<(Seq<u8>, u64, u64, Seq<u8>, Seq<u8>, Seq<(Seq<u8>, Seq<u8>)>)>>;

/// The text holds a byte other than CR and LF: what x509-cert's PEM chain
/// reader needs before it trims line ends and scans.
pub open spec fn has_content(pem: Seq<u8>) -> bool {
    exists|i: int| 0 <= i < pem.len() && pem[i] != 10 && pem[i] != 13
}

/// Whether the text holds a byte other than CR and LF.
pub fn text_has_content(pem: &[u8]) -> (r: bool)
    ensures
        r == has_content(pem@),
{
    let mut i: usize = 0;
    while i < pem.len()
        invariant
            i <= pem@.len(),
            forall|j: int| 0 <= j < i ==> pem@[j] == 10 || pem@[j] == 13,
        decreases pem@.len() - i,
    {
        if pem[i] != 10 && pem[i] != 13 {
            return true;
        }
        i = i + 1;
    }
    false
}

/// Relies on x509-cert's `Certificate::load_pem_chain`: each certificate's
/// subject key, validity (seconds since the epoch), re-encoded signed part,
/// signature and extensions. On a text of line ends alone it would subtract
/// below zero, so such text is left out.
#[verifier::external_body]
pub(crate) fn read_pem_chain(pem: &[u8]) -> (r: Option<Vec<CertInfo>>)
    requires
        has_content(pem@),
    ensures
        r matches Some(v) ==> pem_chain_of(pem@) == Some(chain_view(v@)),
        r is None ==> pem_chain_of(pem@) is None,
{
    let mut out = Vec::new();
    for c in x509_cert::Certificate::load_pem_chain(pem).ok()? {
        let t = &c.tbs_certificate;
        out.push(CertInfo {
            public_key: t.subject_public_key_info.subject_public_key.raw_bytes().to_vec(),
            not_before: t.validity.not_before.to_unix_duration().as_secs(),
            not_after: t.validity.not_after.to_unix_duration().as_secs(),
            tbs: t.to_der().ok()?,
            signature: c.signature.raw_bytes().to_vec(),
            extensions: t.extensions.iter().flatten()
                .map(|e| (e.extn_id.as_bytes().to_vec(), e.extn_value.as_bytes().to_vec())).collect(),
        });
    }
    Some(out)
}

/// The chain that a PEM text holds; none where it holds no chain or nothing
/// but line ends, which validation then refuses as malformed.
pub open spec fn chain_or_empty(pem: Seq<u8>) -> Seq<(Seq<u8>, u64, u64, Seq<u8>, Seq<u8>, Seq<(Seq<u8>, Seq<u8>)>)> {
    if !has_content(pem) {
        Seq::empty()
    } else {
        match pem_chain_of(pem) {
            Some(v) => v,
            None => Seq::empty(),
        }
    }
}

/// Reads the certificates of a PEM chain; none where it holds no chain.
pub fn read_chain(pem: &[u8]) -> (r: Vec<CertInfo>)
    ensures
        chain_view(r@) == chain_or_empty(pem@),
{
    if !text_has_content(pem) {
        let v: Vec<CertInfo> = Vec::new();
        assert(chain_view(v@) =~= Seq::empty());
        return v;
    }
    match read_pem_chain(pem) {
        Some(v) => v,
        None => {
            let v: Vec<CertInfo> = Vec::new();
            assert(chain_view(v@) =~= Seq::empty());
            v
        },
    }
}

/// The certificate at `i` is signed by the next one's key.
pub open spec fn signed_by_next(certs: Seq<CertInfo>, i: int) -> bool {
    p256_der_verifies(certs[i].tbs@, certs[i].signature@, certs[i + 1].public_key@)
}

#[derive(Debug, Clone, Copy, PartialEq, Eq, Structural)]
pub enum ChainError {
    MalformedPem,
    NotYetValid,
    Expired,
    BrokenSignatureLink,
    UntrustedRoot,
}

/// The defect of the certificate at `i`, if it has one at time `now`.
pub open spec fn cert_fault(certs: Seq<CertInfo>, i: int, now: u64) -> Option<ChainError> {
    let c = certs[i];
    if now < c.not_before {
        Some(ChainError::NotYetValid)
    } else if now > c.not_after {
        Some(ChainError::Expired)
    } else if i + 1 < certs.len() && !signed_by_next(certs, i) {
        Some(ChainError::BrokenSignatureLink)
    } else {
        None
    }
}

pub open spec fn faultless_upto(certs: Seq<CertInfo>, n: int, now: u64) -> bool {
    forall|j: int| 0 <= j < n ==> cert_fault(certs, j, now).is_none()
}

/// `now` lies in the validity window of the certificate at `i`.
pub open spec fn in_window(certs: Seq<CertInfo>, i: int, now: u64) -> bool {
    certs[i].not_before <= now <= certs[i].not_after
}

/// The chain is sound at `now` and ends in the trust anchor's key.
pub open spec fn chain_valid(certs: Seq<CertInfo>, anchor: Seq<u8>, now: u64) -> bool {
    &&& certs.len() > 0
    &&& faultless_upto(certs, certs.len() as int, now)
    &&& certs.last().public_key@ == anchor
}

/// Why an invalid chain is refused: no certificate at all, else the first
/// faulty certificate's defect, else a root other than the anchor.
pub open spec fn chain_error_of(certs: Seq<CertInfo>, anchor: Seq<u8>, now: u64) -> ChainError {
    if certs.len() == 0 {
        ChainError::MalformedPem
    } else if exists|i: int| 0 <= i < certs.len() && cert_fault(certs, i, now).is_some() {
        let i = choose|i: int|
            0 <= i < certs.len() && cert_fault(certs, i, now).is_some() && faultless_upto(certs, i, now);
        cert_fault(certs, i, now).unwrap()
    } else {
        ChainError::UntrustedRoot
    }
}

/// Validates the chain at `now` against the anchor's key and returns the
/// leaf's key.
pub fn validate_chain(certs: &Vec<CertInfo>, anchor: &Vec<u8>, now: u64) -> (r: Result<Vec<u8>, ChainError>)
    ensures
        match r {
            Ok(k) => chain_valid(certs@, anchor@, now) && k@ == certs@[0].public_key@,
            Err(e) => !chain_valid(certs@, anchor@, now) && e == chain_error_of(certs@, anchor@, now),
        },
{
    let n = certs.len();
    if n == 0 {
        return Err(ChainError::MalformedPem);
    }
    let mut i: usize = 0;
    while i < n
        invariant
            n == certs@.len(),
            i <= n,
            faultless_upto(certs@, i as int, now),
        decreases n - i,
    {
        let c = &certs[i];
        let fault = if now < c.not_before {
            Some(ChainError::NotYetValid)
        } else if now > c.not_after {
            Some(ChainError::Expired)
        } else if i + 1 < n && !ecdsa_verify_der(c.tbs.as_slice(), c.signature.as_slice(), certs[i + 1].public_key.as_slice()) {
            Some(ChainError::BrokenSignatureLink)
        } else {
            None
        };
        assert(fault == cert_fault(certs@, i as int, now));
        match fault {
            Some(e) => {
                proof {
                    let k = choose|k: int|
                        0 <= k < certs@.len() && cert_fault(certs@, k, now).is_some()
                            && faultless_upto(certs@, k, now);
                    if k < i {
                    } else if k > i {
                    }
                    assert(k == i);
                }
                return Err(e);
            },
            None => {},
        }
        i = i + 1;
    }
    let root = &certs[n - 1];
    if root.public_key.len() != anchor.len() {
        return Err(ChainError::UntrustedRoot);
    }
    let mut j: usize = 0;
    while j < anchor.len()
        invariant
            j <= anchor@.len(),
            root.public_key@.len() == anchor@.len(),
            n > 0,
            root == certs@[n - 1],
            n == certs@.len(),
            faultless_upto(certs@, n as int, now),
            forall|k: int| 0 <= k < j ==> root.public_key@[k] == anchor@[k],
        decreases anchor@.len() - j,
    {
        if root.public_key[j] != anchor[j] {
            assert(root.public_key@[j as int] != anchor@[j as int]);
            return Err(ChainError::UntrustedRoot);
        }
        j = j + 1;
    }
    assert(root.public_key@ =~= anchor@);
    Ok(certs[0].public_key.clone())
}

/// A certificate anywhere in the chain whose window does not hold `now`
/// makes the chain invalid.
pub proof fn lemma_outside_window_invalid(certs: Seq<CertInfo>, anchor: Seq<u8>, now: u64, i: int)
    requires
        0 <= i < certs.len(),
        !in_window(certs, i, now),
    ensures
        !chain_valid(certs, anchor, now),
{
    assert(cert_fault(certs, i, now).is_some());
}

} // verus!
