//! The signed TCB info and QE identity documents, read into TCB tables.

use vstd::prelude::*;
use crate::codec::{is_hex, hex_bytes, hex_decode, be32};
use crate::json::{field, string_field, u64_field, items_field, items_of, string_of, get_field, get_string, get_u64, get_items, json_string, array_items};
use crate::tcb::{TcbLevel, TcbStatus, status_name, names};
use crate::verify::{TcbInfo, QeIdentity};

verus! {

pub open spec fn texts(v: Seq<String>) -> Seq<Seq<char>> {
    v.map_values(|t: String| t@)
}

/// The SVN of one component entry (`{"svn": n, ...}`).
pub open spec fn svn_of(item: Seq<char>) -> Option<u16> {
    match u64_field(item, "svn"@) {
        Some(n) => if n <= 0xFFFF { Some(n as u16) } else { None },
        None => None,
    }
}

pub open spec fn svns_of(items: Seq<Seq<char>>) -> Option<Seq<u16>>
    decreases items.len(),
{
    if items.len() == 0 {
        Some(Seq::empty())
    } else {
        match (svns_of(items.drop_last()), svn_of(items.last())) {
            (Some(a), Some(b)) => Some(a.push(b)),
            _ => None,
        }
    }
}

pub open spec fn strings_of(items: Seq<Seq<char>>) -> Option<Seq<Seq<char>>>
    decreases items.len(),
{
    if items.len() == 0 {
        Some(Seq::empty())
    } else {
        match (strings_of(items.drop_last()), string_of(items.last())) {
            (Some(a), Some(b)) => Some(a.push(b)),
            _ => None,
        }
    }
}

/// The component list under `k`; an absent list counts as empty where
/// `optional`.
pub open spec fn svn_list(obj: Seq<char>, k: Seq<char>, optional: bool) -> Option<Seq<u16>> {
    match field(obj, k) {
        None => if optional { Some(Seq::empty()) } else { None },
        Some(t) => match items_of(t) {
            Some(xs) => svns_of(xs),
            None => None,
        },
    }
}

pub open spec fn small(n: Option<u64>) -> Option<u16> {
    match n {
        Some(v) => if v <= 0xFFFF { Some(v as u16) } else { None },
        None => None,
    }
}

/// What a level asks of the platform: SGX component SVNs, PCE SVN, then any
/// TDX component SVNs; of a QE, its ISV SVN alone.
pub open spec fn level_svns(level: Seq<char>, qe: bool) -> Option<Seq<u16>> {
    match field(level, "tcb"@) {
        None => None,
        Some(tcb) => if qe {
            match small(u64_field(tcb, "isvsvn"@)) {
                Some(v) => Some(seq![v]),
                None => None,
            }
        } else {
            match (svn_list(tcb, "sgxtcbcomponents"@, false), small(u64_field(tcb, "pcesvn"@)), svn_list(tcb, "tdxtcbcomponents"@, true)) {
                (Some(a), Some(p), Some(t)) => Some(a + seq![p] + t),
                _ => None,
            }
        },
    }
}

/// A level's advisories; none where the list is absent.
pub open spec fn advisories_of(level: Seq<char>) -> Option<Seq<Seq<char>>> {
    match field(level, "advisoryIDs"@) {
        None => Some(Seq::empty()),
        Some(t) => match items_of(t) {
            Some(xs) => strings_of(xs),
            None => None,
        },
    }
}

pub open spec fn level_from(lv: TcbLevel, text: Seq<char>, qe: bool) -> bool {
    &&& level_svns(text, qe) == Some(lv.svns@)
    &&& string_field(text, "tcbStatus"@) == Some(status_name(lv.status))
    &&& advisories_of(text) == Some(names(lv.advisory_ids@))
}

pub open spec fn level_parses(text: Seq<char>, qe: bool) -> bool {
    &&& level_svns(text, qe) is Some
    &&& string_field(text, "tcbStatus"@) matches Some(s) && exists|t: TcbStatus| status_name(t) == s
    &&& advisories_of(text) is Some
}

pub open spec fn levels_from(levels: Seq<TcbLevel>, doc: Seq<char>, qe: bool) -> bool {
    match items_field(doc, "tcbLevels"@) {
        Some(xs) => xs.len() == levels.len() && forall|i: int|
            0 <= i < xs.len() ==> #[trigger] level_from(levels[i], xs[i], qe),
        None => false,
    }
}

pub open spec fn all_parse(xs: Seq<Seq<char>>, qe: bool) -> bool {
    forall|i: int| 0 <= i < xs.len() ==> #[trigger] level_parses(xs[i], qe)
}

pub open spec fn levels_parse(doc: Seq<char>, qe: bool) -> bool {
    match items_field(doc, "tcbLevels"@) {
        Some(xs) => all_parse(xs, qe),
        None => false,
    }
}

/// The hex member `k`, as bytes.
pub open spec fn hex_field(doc: Seq<char>, k: Seq<char>) -> Option<Seq<u8>> {
    match string_field(doc, k) {
        Some(s) => if is_hex(s) { Some(hex_bytes(s)) } else { None },
        None => None,
    }
}

proof fn lemma_svns_prefix(xs: Seq<Seq<char>>, k: int)
    requires
        0 <= k <= xs.len(),
        svns_of(xs.take(k)) is None,
    ensures
        svns_of(xs) is None,
    decreases xs.len() - k,
{
    if k < xs.len() {
        assert(xs.take(k + 1).drop_last() =~= xs.take(k));
        lemma_svns_prefix(xs, k + 1);
    } else {
        assert(xs.take(k) =~= xs);
    }
}

proof fn lemma_strings_prefix(xs: Seq<Seq<char>>, k: int)
    requires
        0 <= k <= xs.len(),
        strings_of(xs.take(k)) is None,
    ensures
        strings_of(xs) is None,
    decreases xs.len() - k,
{
    if k < xs.len() {
        assert(xs.take(k + 1).drop_last() =~= xs.take(k));
        lemma_strings_prefix(xs, k + 1);
    } else {
        assert(xs.take(k) =~= xs);
    }
}

fn parse_svns(items: &Vec<String>) -> (r: Option<Vec<u16>>)
    ensures
        r matches Some(v) ==> svns_of(texts(items@)) == Some(v@),
        r is None ==> svns_of(texts(items@)) is None,
{
    let ghost all = texts(items@);
    let mut out: Vec<u16> = Vec::new();
    let mut i: usize = 0;
    while i < items.len()
        invariant
            i <= items@.len(),
            all == texts(items@),
            svns_of(all.take(i as int)) == Some(out@),
        decreases items@.len() - i,
    {
        assert(all.take(i as int + 1).drop_last() =~= all.take(i as int));
        let n = match get_u64(items[i].as_str(), "svn") {
            Some(n) => n,
            None => {
                proof { lemma_svns_prefix(all, i as int + 1); }
                return None;
            },
        };
        if n > 0xFFFF {
            proof { lemma_svns_prefix(all, i as int + 1); }
            return None;
        }
        out.push(n as u16);
        i = i + 1;
    }
    assert(all.take(items@.len() as int) =~= all);
    Some(out)
}

fn parse_strings(items: &Vec<String>) -> (r: Option<Vec<String>>)
    ensures
        r matches Some(v) ==> strings_of(texts(items@)) == Some(names(v@)),
        r is None ==> strings_of(texts(items@)) is None,
{
    let ghost all = texts(items@);
    let mut out: Vec<String> = Vec::new();
    let mut i: usize = 0;
    while i < items.len()
        invariant
            i <= items@.len(),
            all == texts(items@),
            strings_of(all.take(i as int)) == Some(names(out@)),
        decreases items@.len() - i,
    {
        assert(all.take(i as int + 1).drop_last() =~= all.take(i as int));
        let t = match json_string(items[i].as_str()) {
            Some(t) => t,
            None => {
                proof { lemma_strings_prefix(all, i as int + 1); }
                return None;
            },
        };
        let ghost before = out@;
        out.push(t);
        assert(names(out@) =~= names(before).push(t@));
        i = i + 1;
    }
    assert(all.take(items@.len() as int) =~= all);
    Some(out)
}

fn parse_svn_list(obj: &str, k: &str, optional: bool) -> (r: Option<Vec<u16>>)
    ensures
        r matches Some(v) ==> svn_list(obj@, k@, optional) == Some(v@),
        r is None ==> svn_list(obj@, k@, optional) is None,
{
    match get_field(obj, k) {
        None => if optional { Some(Vec::new()) } else { None },
        Some(t) => match array_items(t.as_str()) {
            Some(xs) => parse_svns(&xs),
            None => None,
        },
    }
}

fn parse_small(n: Option<u64>) -> (r: Option<u16>)
    ensures
        r == small(n),
{
    match n {
        Some(v) => if v <= 0xFFFF { Some(v as u16) } else { None },
        None => None,
    }
}

fn parse_level_svns(level: &str, qe: bool) -> (r: Option<Vec<u16>>)
    ensures
        r matches Some(v) ==> level_svns(level@, qe) == Some(v@),
        r is None ==> level_svns(level@, qe) is None,
{
    let tcb = match get_field(level, "tcb") {
        Some(t) => t,
        None => return None,
    };
    if qe {
        match parse_small(get_u64(tcb.as_str(), "isvsvn")) {
            Some(v) => {
                let r: Vec<u16> = vec![v];
                assert(r@ =~= seq![v]);
                Some(r)
            },
            None => None,
        }
    } else {
        let sgx = parse_svn_list(tcb.as_str(), "sgxtcbcomponents", false);
        let pce = parse_small(get_u64(tcb.as_str(), "pcesvn"));
        let tdx = parse_svn_list(tcb.as_str(), "tdxtcbcomponents", true);
        match (sgx, pce, tdx) {
            (Some(a), Some(p), Some(t)) => {
                let mut r = a;
                r.push(p);
                let mut i: usize = 0;
                let ghost head = r@;
                assert(head =~= a@ + seq![p]);
                while i < t.len()
                    invariant
                        i <= t@.len(),
                        r@ == head + t@.take(i as int),
                    decreases t@.len() - i,
                {
                    r.push(t[i]);
                    assert(r@ =~= head + t@.take(i as int + 1));
                    i = i + 1;
                }
                assert(t@.take(t@.len() as int) =~= t@);
                Some(r)
            },
            _ => None,
        }
    }
}

fn parse_advisories(level: &str) -> (r: Option<Vec<String>>)
    ensures
        r matches Some(v) ==> advisories_of(level@) == Some(names(v@)),
        r is None ==> advisories_of(level@) is None,
{
    match get_field(level, "advisoryIDs") {
        None => {
            let v: Vec<String> = Vec::new();
            assert(names(v@) =~= Seq::<Seq<char>>::empty());
            Some(v)
        },
        Some(t) => match array_items(t.as_str()) {
            Some(xs) => parse_strings(&xs),
            None => None,
        },
    }
}

/// Reads one level of a TCB table.
pub fn parse_level(text: &str, qe: bool) -> (r: Option<TcbLevel>)
    ensures
        r matches Some(lv) ==> level_from(lv, text@, qe),
        r is Some <==> level_parses(text@, qe),
{
    let svns = parse_level_svns(text, qe);
    let status = match get_string(text, "tcbStatus") {
        Some(s) => TcbStatus::from_name(&s),
        None => None,
    };
    let advisories = parse_advisories(text);
    match (svns, status, advisories) {
        (Some(v), Some(st), Some(a)) => Some(TcbLevel { svns: v, status: st, advisory_ids: a }),
        _ => None,
    }
}

/// Reads the `tcbLevels` array of a document, in its order.
pub fn parse_levels(doc: &str, qe: bool) -> (r: Option<Vec<TcbLevel>>)
    ensures
        r matches Some(v) ==> levels_from(v@, doc@, qe),
        r is Some <==> levels_parse(doc@, qe),
{
    let items = match get_items(doc, "tcbLevels") {
        Some(xs) => xs,
        None => return None,
    };
    let ghost all = texts(items@);
    let mut out: Vec<TcbLevel> = Vec::new();
    let mut i: usize = 0;
    while i < items.len()
        invariant
            i <= items@.len(),
            all == texts(items@),
            items_field(doc@, "tcbLevels"@) == Some(all),
            out@.len() == i,
            forall|j: int| 0 <= j < i ==> level_from(out@[j], all[j], qe),
            forall|j: int| 0 <= j < i ==> level_parses(all[j], qe),
        decreases items@.len() - i,
    {
        match parse_level(items[i].as_str(), qe) {
            Some(lv) => out.push(lv),
            None => {
                assert(all[i as int] == items@[i as int]@);
                assert(!level_parses(all[i as int], qe));
                assert(i < all.len());
                assert(items_field(doc@, "tcbLevels"@) == Some(all));
                assert(!all_parse(all, qe));
                return None;
            },
        }
        i = i + 1;
    }
    assert(all.len() == out@.len());
    assert(levels_from(out@, doc@, qe));
    assert(all_parse(all, qe));
    Some(out)
}

pub open spec fn tcb_info_from(t: TcbInfo, doc: Seq<char>) -> bool {
    &&& hex_field(doc, "fmspc"@) == Some(t.fmspc@)
    &&& levels_from(t.levels@, doc, false)
}

pub open spec fn tcb_info_parses(doc: Seq<char>) -> bool {
    &&& hex_field(doc, "fmspc"@) is Some
    &&& levels_parse(doc, false)
}

fn parse_hex_field(doc: &str, k: &str) -> (r: Option<Vec<u8>>)
    ensures
        r matches Some(v) ==> hex_field(doc@, k@) == Some(v@),
        r is None ==> hex_field(doc@, k@) is None,
{
    match get_string(doc, k) {
        Some(s) => hex_decode(s.as_str()),
        None => None,
    }
}

/// Reads the platform TCB table from the text of a `tcbInfo` object.
pub fn parse_tcb_info(doc: &str) -> (r: Option<TcbInfo>)
    ensures
        r matches Some(t) ==> tcb_info_from(t, doc@),
        r is Some <==> tcb_info_parses(doc@),
{
    match (parse_hex_field(doc, "fmspc"), parse_levels(doc, false)) {
        (Some(f), Some(l)) => Some(TcbInfo { fmspc: f, levels: l }),
        _ => None,
    }
}

/// A four-byte mask or value, written in hex, high byte first.
pub open spec fn word_field(doc: Seq<char>, k: Seq<char>) -> Option<u32> {
    match hex_field(doc, k) {
        Some(b) => if b.len() == 4 { Some(be32(b) as u32) } else { None },
        None => None,
    }
}

fn parse_word_field(doc: &str, k: &str) -> (r: Option<u32>)
    ensures
        r == word_field(doc@, k@),
{
    match parse_hex_field(doc, k) {
        Some(b) => if b.len() == 4 {
            Some(b[0] as u32 * 16777216 + b[1] as u32 * 65536 + b[2] as u32 * 256 + b[3] as u32)
        } else {
            None
        },
        None => None,
    }
}

pub open spec fn qe_identity_from(q: QeIdentity, doc: Seq<char>) -> bool {
    &&& hex_field(doc, "mrsigner"@) == Some(q.mr_signer@)
    &&& word_field(doc, "miscselect"@) == Some(q.misc_select)
    &&& word_field(doc, "miscselectMask"@) == Some(q.misc_select_mask)
    &&& small(u64_field(doc, "isvprodid"@)) == Some(q.isv_prod_id)
    &&& levels_from(q.levels@, doc, true)
}

pub open spec fn qe_identity_parses(doc: Seq<char>) -> bool {
    &&& hex_field(doc, "mrsigner"@) is Some
    &&& word_field(doc, "miscselect"@) is Some
    &&& word_field(doc, "miscselectMask"@) is Some
    &&& small(u64_field(doc, "isvprodid"@)) is Some
    &&& levels_parse(doc, true)
}

/// Reads the QE identity and its TCB table from the text of an
/// `enclaveIdentity` object.
pub fn parse_qe_identity(doc: &str) -> (r: Option<QeIdentity>)
    ensures
        r matches Some(q) ==> qe_identity_from(q, doc@),
        r is Some <==> qe_identity_parses(doc@),
{
    let mr_signer = parse_hex_field(doc, "mrsigner");
    let misc_select = parse_word_field(doc, "miscselect");
    let misc_select_mask = parse_word_field(doc, "miscselectMask");
    let isv_prod_id = parse_small(get_u64(doc, "isvprodid"));
    let levels = parse_levels(doc, true);
    match (mr_signer, misc_select, misc_select_mask, isv_prod_id, levels) {
        (Some(m), Some(s), Some(k), Some(p), Some(l)) => Some(QeIdentity {
            mr_signer: m,
            misc_select: s,
            misc_select_mask: k,
            isv_prod_id: p,
            levels: l,
        }),
        _ => None,
    }
}

} // verus!
