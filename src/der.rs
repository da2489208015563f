//! DER structure: tag-length-value headers, and the members of a SEQUENCE of
//! `SEQUENCE { OID, value }` pairs, looked up by OID.

use vstd::prelude::*;
use crate::codec::{bytes_eq, copy_range};

verus! {

/// The DER element at `p`, lying wholly before `end`: its tag, and where its
/// content starts and ends. Lengths of up to two bytes.
pub open spec fn tlv_at(s: Seq<u8>, p: int, end: int) -> Option<(u8, int, int)> {
    if 0 <= p && p + 2 <= end && end <= s.len() {
        let l = s[p + 1] as int;
        if l < 128 {
            if p + 2 + l <= end { Some((s[p], p + 2, p + 2 + l)) } else { None }
        } else if l == 0x81 {
            if p + 3 <= end && p + 3 + s[p + 2] <= end {
                Some((s[p], p + 3, p + 3 + s[p + 2]))
            } else {
                None
            }
        } else if l == 0x82 {
            if p + 4 <= end && p + 4 + s[p + 2] * 256 + s[p + 3] <= end {
                Some((s[p], p + 4, p + 4 + s[p + 2] * 256 + s[p + 3]))
            } else {
                None
            }
        } else {
            None
        }
    } else {
        None
    }
}

/// Reads the DER header at `p`.
pub fn read_tlv(s: &[u8], p: usize, end: usize) -> (r: Option<(u8, usize, usize)>)
    requires
        end <= s@.len(),
    ensures
        match r {
            Some((t, a, b)) => tlv_at(s@, p as int, end as int) == Some((t, a as int, b as int)),
            None => tlv_at(s@, p as int, end as int) is None,
        },
        r matches Some((t, a, b)) ==> p < a <= b <= end,
{
    if p > end || end - p < 2 {
        return None;
    }
    let l = s[p + 1] as usize;
    if l < 128 {
        if end - (p + 2) >= l { Some((s[p], p + 2, p + 2 + l)) } else { None }
    } else if l == 0x81 {
        if end - p >= 3 && end - (p + 3) >= s[p + 2] as usize {
            Some((s[p], p + 3, p + 3 + s[p + 2] as usize))
        } else {
            None
        }
    } else if l == 0x82 {
        if end - p >= 4 && end - (p + 4) >= s[p + 2] as usize * 256 + s[p + 3] as usize {
            Some((s[p], p + 4, p + 4 + s[p + 2] as usize * 256 + s[p + 3] as usize))
        } else {
            None
        }
    } else {
        None
    }
}

/// In the elements from `p` to `e`, each `SEQUENCE { OID, value }` filling
/// its element exactly, the value of the first whose OID content is `oid`;
/// `None` where none is, or an element before it is malformed.
pub open spec fn member(s: Seq<u8>, p: int, e: int, oid: Seq<u8>) -> Option<(u8, int, int)>
    decreases e - p,
{
    if p >= e {
        None
    } else {
        match tlv_at(s, p, e) {
            Some((t, a, b)) => if t != 0x30 {
                None
            } else {
                match tlv_at(s, a, b) {
                    Some((ot, oa, ob)) => if ot != 0x06 {
                        None
                    } else {
                        match tlv_at(s, ob, b) {
                            Some((vt, va, vb)) => if vb != b {
                                None
                            } else if s.subrange(oa, ob) == oid {
                                Some((vt, va, vb))
                            } else if b > p {
                                member(s, b, e, oid)
                            } else {
                                None
                            },
                            None => None,
                        }
                    },
                    None => None,
                }
            },
            None => None,
        }
    }
}

/// Looks up the member with the given OID.
pub fn find_member(s: &[u8], p: usize, e: usize, oid: &Vec<u8>) -> (r: Option<(u8, usize, usize)>)
    requires
        e <= s@.len(),
    ensures
        match r {
            Some((t, a, b)) => member(s@, p as int, e as int, oid@) == Some((t, a as int, b as int)),
            None => member(s@, p as int, e as int, oid@) is None,
        },
        r matches Some((t, a, b)) ==> a <= b <= e,
{
    let mut q: usize = p;
    while q < e
        invariant
            e <= s@.len(),
            member(s@, p as int, e as int, oid@) == member(s@, q as int, e as int, oid@),
        decreases e - q,
    {
        let (t, a, b) = match read_tlv(s, q, e) {
            Some(x) => x,
            None => return None,
        };
        if t != 0x30 {
            return None;
        }
        let (ot, oa, ob) = match read_tlv(s, a, b) {
            Some(x) => x,
            None => return None,
        };
        if ot != 0x06 {
            return None;
        }
        let (vt, va, vb) = match read_tlv(s, ob, b) {
            Some(x) => x,
            None => return None,
        };
        if vb != b {
            return None;
        }
        if bytes_eq(&copy_range(s, oa, ob - oa), oid) {
            return Some((vt, va, vb));
        }
        if b <= q {
            return None;
        }
        q = b;
    }
    None
}

} // verus!
