//! What the PCK leaf certificate's SGX extension states of a platform: its
//! FMSPC, component SVNs and PCE SVN.

use vstd::prelude::*;
use crate::verify::PckExtension;
use crate::chain::{CertInfo, read_pem_chain};
use crate::codec::copy_range;
use crate::der::{tlv_at, member, read_tlv, find_member};
use crate::quote::{Quote, CERT_TYPE_PCK_CHAIN};

verus! {

/// The content octets of the OID `1.2.840.113741.1.13.1` followed by `arcs`.
pub open spec fn sgx_child(arcs: Seq<u8>) -> Seq<u8> {
    sgx_oid() + arcs
}

fn sgx_child_bytes(arcs: &Vec<u8>) -> (r: Vec<u8>)
    ensures
        r@ == sgx_child(arcs@),
{
    let mut r: Vec<u8> = vec![0x2Au8, 0x86, 0x48, 0x86, 0xF8, 0x4D, 0x01, 0x0D, 0x01];
    let ghost head = r@;
    assert(head =~= sgx_oid());
    let mut i: usize = 0;
    while i < arcs.len()
        invariant
            i <= arcs@.len(),
            head == sgx_oid(),
            r@ == head + arcs@.take(i as int),
        decreases arcs@.len() - i,
    {
        r.push(arcs[i]);
        assert(r@ =~= head + arcs@.take(i as int + 1));
        i = i + 1;
    }
    assert(arcs@.take(arcs@.len() as int) =~= arcs@);
    r
}

/// The content of the extension's outer SEQUENCE, which fills it.
pub open spec fn ext_top(x: Seq<u8>) -> Option<(int, int)> {
    match tlv_at(x, 0, x.len() as int) {
        Some((t, a, b)) => if t == 0x30 && b == x.len() { Some((a, b)) } else { None },
        None => None,
    }
}

/// The FMSPC that an SGX extension states: the six-byte OCTET STRING of its
/// FMSPC member (OID arc 4).
pub open spec fn fmspc_in(x: Seq<u8>) -> Option<Seq<u8>> {
    match ext_top(x) {
        Some((a, b)) => match member(x, a, b, sgx_child(seq![4u8])) {
            Some((t, va, vb)) => if t == 0x04 && vb - va == 6 { Some(x.subrange(va, vb)) } else { None },
            None => None,
        },
        None => None,
    }
}

/// The value of a DER INTEGER's content from `a` to `b`, where it is at most
/// two value bytes (a leading zero byte aside).
pub open spec fn int_value(x: Seq<u8>, a: int, b: int) -> Option<u16> {
    if b - a == 1 {
        Some(x[a] as u16)
    } else if b - a == 2 {
        Some((x[a] * 256 + x[a + 1]) as u16)
    } else if b - a == 3 && x[a] == 0 {
        Some((x[a + 1] * 256 + x[a + 2]) as u16)
    } else {
        None
    }
}

/// Component `n` of the extension's TCB member (OID arc 2): the INTEGER of
/// its member with OID arcs 2, `n`. `n` 17 is the PCE SVN.
pub open spec fn svn_in(x: Seq<u8>, n: u8) -> Option<u16> {
    match ext_top(x) {
        Some((a, b)) => match member(x, a, b, sgx_child(seq![2u8])) {
            Some((t, ta, tb)) => if t != 0x30 {
                None
            } else {
                match member(x, ta, tb, sgx_child(seq![2u8, n])) {
                    Some((vt, va, vb)) => if vt == 0x02 { int_value(x, va, vb) } else { None },
                    None => None,
                }
            },
            None => None,
        },
        None => None,
    }
}

fn read_top(x: &[u8]) -> (r: Option<(usize, usize)>)
    ensures
        match r {
            Some((a, b)) => ext_top(x@) == Some((a as int, b as int)),
            None => ext_top(x@) is None,
        },
{
    match read_tlv(x, 0, x.len()) {
        Some((t, a, b)) => if t == 0x30 && b == x.len() { Some((a, b)) } else { None },
        None => None,
    }
}

/// Reads the FMSPC from an SGX extension.
pub fn fmspc_from_der(x: &[u8]) -> (r: Option<Vec<u8>>)
    ensures
        r matches Some(f) ==> fmspc_in(x@) == Some(f@),
        r is None ==> fmspc_in(x@) is None,
{
    let (a, b) = match read_top(x) {
        Some(p) => p,
        None => return None,
    };
    let arcs: Vec<u8> = vec![4u8];
    assert(arcs@ =~= seq![4u8]);
    match find_member(x, a, b, &sgx_child_bytes(&arcs)) {
        Some((t, va, vb)) => if t == 0x04 && vb - va == 6 { Some(copy_range(x, va, 6)) } else { None },
        None => None,
    }
}

fn read_int(x: &[u8], a: usize, b: usize) -> (r: Option<u16>)
    requires
        a <= b <= x@.len(),
    ensures
        r == int_value(x@, a as int, b as int),
{
    if b - a == 1 {
        Some(x[a] as u16)
    } else if b - a == 2 {
        Some(x[a] as u16 * 256 + x[a + 1] as u16)
    } else if b - a == 3 && x[a] == 0 {
        Some(x[a + 1] as u16 * 256 + x[a + 2] as u16)
    } else {
        None
    }
}

fn find_svn(x: &[u8], n: u8) -> (r: Option<u16>)
    ensures
        r == svn_in(x@, n),
{
    let (a, b) = match read_top(x) {
        Some(p) => p,
        None => return None,
    };
    let tcb_arcs: Vec<u8> = vec![2u8];
    assert(tcb_arcs@ =~= seq![2u8]);
    let (t, ta, tb) = match find_member(x, a, b, &sgx_child_bytes(&tcb_arcs)) {
        Some(m) => m,
        None => return None,
    };
    if t != 0x30 {
        return None;
    }
    let comp_arcs: Vec<u8> = vec![2u8, n];
    assert(comp_arcs@ =~= seq![2u8, n]);
    match find_member(x, ta, tb, &sgx_child_bytes(&comp_arcs)) {
        Some((vt, va, vb)) => if vt == 0x02 { read_int(x, va, vb) } else { None },
        None => None,
    }
}

/// `p` holds what the certificate's SGX extension states: FMSPC, the
/// sixteen component SVNs in order, and the PCE SVN.
pub open spec fn pck_from(p: PckExtension, der: Seq<u8>) -> bool {
    &&& fmspc_in(der) == Some(p.fmspc@)
    &&& p.cpu_svn@.len() == 16
    &&& forall|k: int| 0 <= k < 16 ==> svn_in(der, (k + 1) as u8) == Some(p.cpu_svn@[k])
    &&& svn_in(der, 17) == Some(p.pce_svn)
}

pub open spec fn pck_readable(der: Seq<u8>) -> bool {
    &&& fmspc_in(der) is Some
    &&& forall|k: u8| 1 <= k <= 17 ==> (#[trigger] svn_in(der, k)) is Some
}




/// Reads the FMSPC and SVNs from an SGX extension.
pub fn pck_extension_from_der(der: &[u8]) -> (r: Option<PckExtension>)
    ensures
        r matches Some(p) ==> pck_from(p, der@),
        r is Some <==> pck_readable(der@),
{
    let fmspc = match fmspc_from_der(der) {
        Some(f) => f,
        None => return None,
    };
    let mut cpu_svn: Vec<u16> = Vec::new();
    let mut k: u8 = 1;
    while k <= 16
        invariant
            1 <= k <= 17,
            cpu_svn@.len() == k - 1,
            forall|j: int| 0 <= j < k - 1 ==> svn_in(der@, (j + 1) as u8) == Some(cpu_svn@[j]),
        decreases 17 - k,
    {
        match find_svn(der, k) {
            Some(v) => cpu_svn.push(v),
            None => {
                assert(svn_in(der@, ((k as int - 1) + 1) as u8) is None);
                return None;
            },
        }
        k = k + 1;
    }
    let pce_svn = match find_svn(der, 17) {
        Some(v) => v,
        None => return None,
    };
    let p = PckExtension { fmspc, cpu_svn, pce_svn };
    assert forall|j: u8| 1 <= j <= 17 implies (#[trigger] svn_in(der@, j)) is Some by {
        if j <= 16 {
            assert(svn_in(der@, ((j - 1) + 1) as u8) == Some(p.cpu_svn@[j - 1]));
        }
    }
    Some(p)
}

/// The content octets of the SGX extension's OID, 1.2.840.113741.1.13.1.
pub open spec fn sgx_oid() -> Seq<u8> {
    seq![0x2Au8, 0x86, 0x48, 0x86, 0xF8, 0x4D, 0x01, 0x0D, 0x01]
}

/// The value of the first extension with the given OID.
pub open spec fn ext_lookup(exts: Seq<(Seq<u8>, Seq<u8>)>, oid: Seq<u8>) -> Option<Seq<u8>>
    decreases exts.len(),
{
    if exts.len() == 0 {
        None
    } else if exts[0].0 == oid {
        Some(exts[0].1)
    } else {
        ext_lookup(exts.drop_first(), oid)
    }
}

/// The value of a certificate's SGX extension.
pub open spec fn sgx_extension_of(c: CertInfo) -> Option<Seq<u8>> {
    ext_lookup(c.extensions@.map_values(|e: (Vec<u8>, Vec<u8>)| (e.0@, e.1@)), sgx_oid())
}

/// Reads the value of a certificate's SGX extension.
pub fn sgx_extension(c: &CertInfo) -> (r: Option<Vec<u8>>)
    ensures
        r matches Some(x) ==> sgx_extension_of(*c) == Some(x@),
        r is None ==> sgx_extension_of(*c) is None,
{
    let oid: Vec<u8> = vec![0x2Au8, 0x86, 0x48, 0x86, 0xF8, 0x4D, 0x01, 0x0D, 0x01];
    assert(oid@ =~= sgx_oid());
    let ghost all = c.extensions@.map_values(|e: (Vec<u8>, Vec<u8>)| (e.0@, e.1@));
    assert(all.subrange(0, all.len() as int) =~= all);
    let mut i: usize = 0;
    while i < c.extensions.len()
        invariant
            i <= c.extensions@.len(),
            oid@ == sgx_oid(),
            all == c.extensions@.map_values(|e: (Vec<u8>, Vec<u8>)| (e.0@, e.1@)),
            sgx_extension_of(*c) == ext_lookup(all.subrange(i as int, all.len() as int), sgx_oid()),
        decreases c.extensions@.len() - i,
    {
        let ghost rest = all.subrange(i as int, all.len() as int);
        assert(rest[0] == all[i as int]);
        assert(rest.drop_first() =~= all.subrange(i as int + 1, all.len() as int));
        if crate::codec::bytes_eq(&c.extensions[i].0, &oid) {
            return Some(c.extensions[i].1.clone());
        }
        i = i + 1;
    }
    None
}

/// Reads the FMSPC and SVNs from a certificate's SGX extension.
pub fn pck_extension(c: &CertInfo) -> (r: Option<PckExtension>)
    ensures
        r matches Some(p) ==> sgx_extension_of(*c) matches Some(x) && pck_from(p, x),
        r is Some <==> (sgx_extension_of(*c) matches Some(x) && pck_readable(x)),
{
    match sgx_extension(c) {
        Some(x) => pck_extension_from_der(x.as_slice()),
        None => None,
    }
}

/// The FMSPC of a quote: read from the SGX extension of the first
/// certificate of its PCK chain.
pub open spec fn quote_fmspc_of(q: Quote) -> Option<Seq<u8>> {
    if q.auth_data.certification_data.cert_type != CERT_TYPE_PCK_CHAIN {
        None
    } else if !crate::chain::has_content(q.auth_data.certification_data.body@) {
        None
    } else {
        match crate::chain::pem_chain_of(q.auth_data.certification_data.body@) {
            Some(v) => if v.len() > 0 {
                match ext_lookup(v[0].5, sgx_oid()) {
                    Some(x) => fmspc_in(x),
                    None => None,
                }
            } else {
                None
            },
            None => None,
        }
    }
}

/// Reads the FMSPC of a quote from its PCK leaf certificate.
pub fn quote_fmspc(q: &Quote) -> (r: Option<Vec<u8>>)
    ensures
        r matches Some(f) ==> quote_fmspc_of(*q) == Some(f@),
        r is None ==> quote_fmspc_of(*q) is None,
{
    if q.auth_data.certification_data.cert_type != CERT_TYPE_PCK_CHAIN {
        return None;
    }
    if !crate::chain::text_has_content(q.auth_data.certification_data.body.as_slice()) {
        return None;
    }
    let chain = match read_pem_chain(q.auth_data.certification_data.body.as_slice()) {
        Some(v) => v,
        None => return None,
    };
    if chain.len() == 0 {
        return None;
    }
    assert(crate::chain::chain_view(chain@)[0].5 =~= chain@[0].extensions@.map_values(|e: (Vec<u8>, Vec<u8>)| (e.0@, e.1@)));
    match sgx_extension(&chain[0]) {
        Some(x) => fmspc_from_der(x.as_slice()),
        None => None,
    }
}

} // verus!
