//! Reads of JSON text through serde_json. Each read works on raw text and
//! hands back raw text or a plain value, so a member's text is kept byte for
//! byte as it stood in the document.

use vstd::prelude::*;

verus! {

/// The members of a JSON object, by name, each with its value's raw text;
/// `None` where the text is no JSON object.
pub uninterp spec fn members_of(s: Seq<char>) -> Option<Seq<(Seq<char>, Seq<char>)>>;

/// The raw text of each element of a JSON array; `None` where the text is no
/// JSON array.
pub uninterp spec fn items_of(s: Seq<char>) -> Option<Seq<Seq<char>>>;

/// The value of a JSON string; `None` where the text is no JSON string.
pub uninterp spec fn string_of(s: Seq<char>) -> Option<Seq<char>>;

/// The value of a JSON number that fits a `u64`; `None` otherwise.
pub uninterp spec fn u64_of(s: Seq<char>) -> Option<u64>;

/// Relies on serde_json::from_str into a map of names to
/// `serde_json::value::RawValue`: it parses one JSON object and keeps each
/// member's text unchanged.
#[verifier::external_body]
pub(crate) fn object_members(s: &str) -> (r: Option<Vec<(String, String)>>)
    ensures
        r matches Some(v) ==> members_of(s@) == Some(v@.map_values(|m: (String, String)| (m.0@, m.1@))),
        r is None ==> members_of(s@) is None,
{
    let m: std::collections::BTreeMap<String, Box<serde_json::value::RawValue>> =
        serde_json::from_str(s).ok()?;
    Some(m.into_iter().map(|(k, v)| (k, v.get().to_string())).collect())
}

/// Relies on serde_json::from_str into a `Vec` of
/// `serde_json::value::RawValue`: it parses one JSON array and keeps each
/// element's text unchanged.
#[verifier::external_body]
pub(crate) fn array_items(s: &str) -> (r: Option<Vec<String>>)
    ensures
        r matches Some(v) ==> items_of(s@) == Some(v@.map_values(|t: String| t@)),
        r is None ==> items_of(s@) is None,
{
    let v: Vec<Box<serde_json::value::RawValue>> = serde_json::from_str(s).ok()?;
    Some(v.into_iter().map(|t| t.get().to_string()).collect())
}

/// Relies on serde_json::from_str into a `String`: it reads one JSON string.
#[verifier::external_body]
pub(crate) fn json_string(s: &str) -> (r: Option<String>)
    ensures
        r matches Some(t) ==> string_of(s@) == Some(t@),
        r is None ==> string_of(s@) is None,
{
    serde_json::from_str::<String>(s).ok()
}

/// Relies on serde_json::from_str into a `u64`: it reads one JSON number
/// that fits.
#[verifier::external_body]
fn json_u64(s: &str) -> (r: Option<u64>)
    ensures
        r == u64_of(s@),
{
    serde_json::from_str::<u64>(s).ok()
}

/// The text of the first member named `k`.
pub open spec fn lookup(ms: Seq<(Seq<char>, Seq<char>)>, k: Seq<char>) -> Option<Seq<char>>
    decreases ms.len(),
{
    if ms.len() == 0 {
        None
    } else if ms[0].0 == k {
        Some(ms[0].1)
    } else {
        lookup(ms.drop_first(), k)
    }
}

/// The text of member `k` of the object `s`.
pub open spec fn field(s: Seq<char>, k: Seq<char>) -> Option<Seq<char>> {
    match members_of(s) {
        Some(ms) => lookup(ms, k),
        None => None,
    }
}

/// The string value of member `k` of the object `s`.
pub open spec fn string_field(s: Seq<char>, k: Seq<char>) -> Option<Seq<char>> {
    match field(s, k) {
        Some(t) => string_of(t),
        None => None,
    }
}

/// The number value of member `k` of the object `s`.
pub open spec fn u64_field(s: Seq<char>, k: Seq<char>) -> Option<u64> {
    match field(s, k) {
        Some(t) => u64_of(t),
        None => None,
    }
}

/// The element texts of the array member `k` of the object `s`.
pub open spec fn items_field(s: Seq<char>, k: Seq<char>) -> Option<Seq<Seq<char>>> {
    match field(s, k) {
        Some(t) => items_of(t),
        None => None,
    }
}

/// The text of the first member named `k` in a member list.
pub fn find_member(ms: &Vec<(String, String)>, k: &str) -> (r: Option<String>)
    ensures
        r matches Some(t) ==> lookup(members_view(ms@), k@) == Some(t@),
        r is None ==> lookup(members_view(ms@), k@) is None,
{
    let key = k.to_string();
    let ghost all = members_view(ms@);
    assert(all.subrange(0, all.len() as int) =~= all);
    let mut i: usize = 0;
    while i < ms.len()
        invariant
            i <= ms@.len(),
            key@ == k@,
            all == members_view(ms@),
            lookup(all, k@) == lookup(all.subrange(i as int, all.len() as int), k@),
        decreases ms@.len() - i,
    {
        let ghost rest = all.subrange(i as int, all.len() as int);
        assert(rest[0] == all[i as int]);
        assert(rest.drop_first() =~= all.subrange(i as int + 1, all.len() as int));
        if ms[i].0 == key {
            return Some(ms[i].1.clone());
        }
        i = i + 1;
    }
    None
}

pub open spec fn members_view(ms: Seq<(String, String)>) -> Seq<(Seq<char>, Seq<char>)> {
    ms.map_values(|m: (String, String)| (m.0@, m.1@))
}

/// The text of member `k`.
pub fn get_field(s: &str, k: &str) -> (r: Option<String>)
    ensures
        r matches Some(t) ==> field(s@, k@) == Some(t@),
        r is None ==> field(s@, k@) is None,
{
    match object_members(s) {
        Some(ms) => {
            assert(members_view(ms@) == ms@.map_values(|m: (String, String)| (m.0@, m.1@)));
            find_member(&ms, k)
        },
        None => None,
    }
}

/// The string value of member `k`.
pub fn get_string(s: &str, k: &str) -> (r: Option<String>)
    ensures
        r matches Some(t) ==> string_field(s@, k@) == Some(t@),
        r is None ==> string_field(s@, k@) is None,
{
    match get_field(s, k) {
        Some(t) => json_string(t.as_str()),
        None => None,
    }
}

/// The number value of member `k`.
pub fn get_u64(s: &str, k: &str) -> (r: Option<u64>)
    ensures
        r == u64_field(s@, k@),
{
    match get_field(s, k) {
        Some(t) => json_u64(t.as_str()),
        None => None,
    }
}

/// The element texts of the array member `k`.
pub fn get_items(s: &str, k: &str) -> (r: Option<Vec<String>>)
    ensures
        r matches Some(v) ==> items_field(s@, k@) == Some(v@.map_values(|t: String| t@)),
        r is None ==> items_field(s@, k@) is None,
{
    match get_field(s, k) {
        Some(t) => array_items(t.as_str()),
        None => None,
    }
}

} // verus!
