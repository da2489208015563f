//! TCB levels, their statuses, and the first-match rule over an ordered table.

use vstd::prelude::*;

verus! {

#[derive(Debug, Clone, Copy, PartialEq, Eq, Structural)]
pub enum TcbStatus {
    UpToDate,
    SWHardeningNeeded,
    ConfigurationNeeded,
    ConfigurationAndSWHardeningNeeded,
    OutOfDate,
    OutOfDateConfigurationNeeded,
    Revoked,
}

/// Rank of a status: the larger, the worse.
pub open spec fn severity(s: TcbStatus) -> int {
    match s {
        TcbStatus::UpToDate => 0,
        TcbStatus::ConfigurationNeeded => 1,
        TcbStatus::SWHardeningNeeded => 2,
        TcbStatus::ConfigurationAndSWHardeningNeeded => 3,
        TcbStatus::OutOfDate => 4,
        TcbStatus::OutOfDateConfigurationNeeded => 5,
        TcbStatus::Revoked => 6,
    }
}

/// The schema's name of each status.
pub open spec fn status_name(s: TcbStatus) -> Seq<char> {
    match s {
        TcbStatus::UpToDate => "UpToDate"@,
        TcbStatus::SWHardeningNeeded => "SWHardeningNeeded"@,
        TcbStatus::ConfigurationNeeded => "ConfigurationNeeded"@,
        TcbStatus::ConfigurationAndSWHardeningNeeded => "ConfigurationAndSWHardeningNeeded"@,
        TcbStatus::OutOfDate => "OutOfDate"@,
        TcbStatus::OutOfDateConfigurationNeeded => "OutOfDateConfigurationNeeded"@,
        TcbStatus::Revoked => "Revoked"@,
    }
}

impl TcbStatus {
    /// Rank of the status: the larger, the worse.
    pub fn severity(&self) -> (r: u8)
        ensures
            r == severity(*self),
    {
        match self {
            TcbStatus::UpToDate => 0,
            TcbStatus::ConfigurationNeeded => 1,
            TcbStatus::SWHardeningNeeded => 2,
            TcbStatus::ConfigurationAndSWHardeningNeeded => 3,
            TcbStatus::OutOfDate => 4,
            TcbStatus::OutOfDateConfigurationNeeded => 5,
            TcbStatus::Revoked => 6,
        }
    }

    /// The status's name in the issuer's schema.
    pub fn name(&self) -> (r: String)
        ensures
            r@ == status_name(*self),
    {
        let r = match self {
            TcbStatus::UpToDate => "UpToDate",
            TcbStatus::SWHardeningNeeded => "SWHardeningNeeded",
            TcbStatus::ConfigurationNeeded => "ConfigurationNeeded",
            TcbStatus::ConfigurationAndSWHardeningNeeded => "ConfigurationAndSWHardeningNeeded",
            TcbStatus::OutOfDate => "OutOfDate",
            TcbStatus::OutOfDateConfigurationNeeded => "OutOfDateConfigurationNeeded",
            TcbStatus::Revoked => "Revoked",
        };
        r.to_string()
    }

    /// The status of the given name, if the schema has one.
    pub fn from_name(s: &String) -> (r: Option<TcbStatus>)
        ensures
            match r {
                Some(t) => status_name(t) == s@,
                None => forall|t: TcbStatus| status_name(t) != s@,
            },
    {
        proof {
            reveal_strlit("UpToDate");
            reveal_strlit("SWHardeningNeeded");
            reveal_strlit("ConfigurationNeeded");
            reveal_strlit("ConfigurationAndSWHardeningNeeded");
            reveal_strlit("OutOfDate");
            reveal_strlit("OutOfDateConfigurationNeeded");
            reveal_strlit("Revoked");
        }
        let all = [
            TcbStatus::UpToDate,
            TcbStatus::SWHardeningNeeded,
            TcbStatus::ConfigurationNeeded,
            TcbStatus::ConfigurationAndSWHardeningNeeded,
            TcbStatus::OutOfDate,
            TcbStatus::OutOfDateConfigurationNeeded,
            TcbStatus::Revoked,
        ];
        let mut i: usize = 0;
        while i < 7
            invariant
                i <= 7,
                all@ == seq![
                    TcbStatus::UpToDate,
                    TcbStatus::SWHardeningNeeded,
                    TcbStatus::ConfigurationNeeded,
                    TcbStatus::ConfigurationAndSWHardeningNeeded,
                    TcbStatus::OutOfDate,
                    TcbStatus::OutOfDateConfigurationNeeded,
                    TcbStatus::Revoked,
                ],
                forall|j: int| 0 <= j < i ==> status_name(all@[j]) != s@,
            decreases 7 - i,
        {
            let t = all[i];
            if t.name() == *s {
                return Some(t);
            }
            i = i + 1;
        }
        assert forall|t: TcbStatus| status_name(t) != s@ by {
            assert(t == all@[0] || t == all@[1] || t == all@[2] || t == all@[3] || t == all@[4]
                || t == all@[5] || t == all@[6]);
        }
        None
    }
}

/// One row of a TCB table: the least SVN it asks at each position, its status
/// and the advisories that apply to it.
pub struct TcbLevel {
    pub svns: Vec<u16>,
    pub status: TcbStatus,
    pub advisory_ids: Vec<String>,
}

/// Each SVN that the level asks for is met by the observed one at its position.
pub open spec fn level_matches(required: Seq<u16>, observed: Seq<u16>) -> bool {
    &&& required.len() <= observed.len()
    &&& forall|i: int| 0 <= i < required.len() ==> required[i] <= observed[i]
}

/// `i` is the first level of the table that the observed SVNs meet.
pub open spec fn is_first_match(levels: Seq<TcbLevel>, observed: Seq<u16>, i: int) -> bool {
    &&& 0 <= i < levels.len()
    &&& level_matches(levels[i].svns@, observed)
    &&& forall|j: int| 0 <= j < i ==> !level_matches(levels[j].svns@, observed)
}

pub open spec fn no_match(levels: Seq<TcbLevel>, observed: Seq<u16>) -> bool {
    forall|j: int| 0 <= j < levels.len() ==> !level_matches(levels[j].svns@, observed)
}

fn svns_meet(required: &Vec<u16>, observed: &Vec<u16>) -> (r: bool)
    ensures
        r == level_matches(required@, observed@),
{
    if required.len() > observed.len() {
        return false;
    }
    let mut i: usize = 0;
    while i < required.len()
        invariant
            i <= required@.len(),
            required@.len() <= observed@.len(),
            forall|k: int| 0 <= k < i ==> required@[k] <= observed@[k],
        decreases required@.len() - i,
    {
        if required[i] > observed[i] {
            return false;
        }
        i = i + 1;
    }
    true
}

/// Index of the first level, in table order, that the observed SVNs meet;
/// `None` where none does.
pub fn first_match(levels: &Vec<TcbLevel>, observed: &Vec<u16>) -> (r: Option<usize>)
    ensures
        match r {
            Some(i) => is_first_match(levels@, observed@, i as int),
            None => no_match(levels@, observed@),
        },
{
    let mut i: usize = 0;
    while i < levels.len()
        invariant
            i <= levels@.len(),
            forall|j: int| 0 <= j < i ==> !level_matches(levels@[j].svns@, observed@),
        decreases levels@.len() - i,
    {
        if svns_meet(&levels[i].svns, observed) {
            return Some(i);
        }
        i = i + 1;
    }
    None
}

/// The worse of two statuses; the first where they rank alike.
pub open spec fn worse_status(a: TcbStatus, b: TcbStatus) -> TcbStatus {
    if severity(b) > severity(a) { b } else { a }
}

/// The more severe of two statuses, as `worse_status` ranks them.
pub fn combine_status(a: TcbStatus, b: TcbStatus) -> (r: TcbStatus)
    ensures
        r == worse_status(a, b),
{
    if b.severity() > a.severity() { b } else { a }
}

/// The names that a list of strings holds, in order.
pub open spec fn names(v: Seq<String>) -> Seq<Seq<char>> {
    v.map_values(|s: String| s@)
}

/// `acc` followed by each item of `xs` not already present, in the order of
/// first occurrence.
pub open spec fn add_unique(acc: Seq<Seq<char>>, xs: Seq<Seq<char>>) -> Seq<Seq<char>>
    decreases xs.len(),
{
    if xs.len() == 0 {
        acc
    } else {
        let r = add_unique(acc, xs.drop_last());
        if r.contains(xs.last()) {
            r
        } else {
            r.push(xs.last())
        }
    }
}

/// The union of two advisory lists: duplicates removed, first occurrence kept,
/// the first list's items before the second's.
pub open spec fn advisory_union(a: Seq<Seq<char>>, b: Seq<Seq<char>>) -> Seq<Seq<char>> {
    add_unique(add_unique(Seq::empty(), a), b)
}

fn contains_name(v: &Vec<String>, x: &String) -> (r: bool)
    ensures
        r == names(v@).contains(x@),
{
    let mut i: usize = 0;
    while i < v.len()
        invariant
            i <= v@.len(),
            forall|k: int| 0 <= k < i ==> v@[k]@ != x@,
        decreases v@.len() - i,
    {
        if v[i] == *x {
            assert(names(v@)[i as int] == x@);
            return true;
        }
        i = i + 1;
    }
    assert(!names(v@).contains(x@));
    false
}

fn push_unique(out: &mut Vec<String>, items: &Vec<String>)
    ensures
        names(final(out)@) == add_unique(names(old(out)@), names(items@)),
{
    let ghost acc = names(out@);
    let mut i: usize = 0;
    while i < items.len()
        invariant
            i <= items@.len(),
            names(out@) == add_unique(acc, names(items@).take(i as int)),
        decreases items@.len() - i,
    {
        let ghost xs = names(items@).take(i as int + 1);
        assert(xs.drop_last() =~= names(items@).take(i as int));
        assert(xs.last() == items@[i as int]@);
        if !contains_name(out, &items[i]) {
            out.push(items[i].clone());
            assert(names(out@) =~= add_unique(acc, names(items@).take(i as int)).push(items@[i as int]@));
        }
        i = i + 1;
    }
    assert(names(items@).take(items@.len() as int) =~= names(items@));
}

/// Platform advisories followed by QE advisories, each kept once, at its
/// first occurrence.
pub fn merge_advisories(a: &Vec<String>, b: &Vec<String>) -> (r: Vec<String>)
    ensures
        names(r@) == advisory_union(names(a@), names(b@)),
{
    let mut r: Vec<String> = Vec::new();
    assert(names(r@) =~= Seq::<Seq<char>>::empty());
    push_unique(&mut r, a);
    push_unique(&mut r, b);
    r
}

/// Where a later level also matches, the first matching level is the one
/// chosen: table order decides, and the chosen level is unique.
pub proof fn lemma_first_match_wins(levels: Seq<TcbLevel>, observed: Seq<u16>, i: int, j: int)
    requires
        is_first_match(levels, observed, i),
        0 <= j < levels.len(),
        level_matches(levels[j].svns@, observed),
    ensures
        i <= j,
        is_first_match(levels, observed, j) ==> i == j,
{
}

proof fn lemma_add_unique(acc: Seq<Seq<char>>, xs: Seq<Seq<char>>)
    requires
        acc.no_duplicates(),
    ensures
        add_unique(acc, xs).no_duplicates(),
        forall|x: Seq<char>| add_unique(acc, xs).contains(x) <==> (acc.contains(x) || xs.contains(x)),
        acc.len() <= add_unique(acc, xs).len(),
        add_unique(acc, xs).take(acc.len() as int) == acc,
    decreases xs.len(),
{
    if xs.len() > 0 {
        let r = add_unique(acc, xs.drop_last());
        lemma_add_unique(acc, xs.drop_last());
        assert forall|x: Seq<char>| xs.contains(x) <==> (xs.drop_last().contains(x) || x == xs.last()) by {
            if xs.contains(x) {
                let k = choose|k: int| 0 <= k < xs.len() && xs[k] == x;
                if k < xs.len() - 1 {
                    assert(xs.drop_last()[k] == x);
                }
            }
            if x == xs.last() {
                assert(xs[xs.len() - 1] == x);
            }
            if xs.drop_last().contains(x) {
                let k = choose|k: int| 0 <= k < xs.drop_last().len() && xs.drop_last()[k] == x;
                assert(xs[k] == x);
            }
        }
        if !r.contains(xs.last()) {
            let r2 = r.push(xs.last());
            assert forall|x: Seq<char>| r2.contains(x) <==> (r.contains(x) || x == xs.last()) by {
                if r2.contains(x) {
                    let k = choose|k: int| 0 <= k < r2.len() && r2[k] == x;
                    if k < r.len() {
                        assert(r[k] == x);
                    }
                }
                if r.contains(x) {
                    let k = choose|k: int| 0 <= k < r.len() && r[k] == x;
                    assert(r2[k] == x);
                }
                if x == xs.last() {
                    assert(r2[r.len() as int] == x);
                }
            }
            assert(r2.take(acc.len() as int) =~= r.take(acc.len() as int));
        }
    }
}

/// The advisory union holds each advisory of either list exactly once,
/// nothing else, and begins with the first list's advisories in their order.
pub proof fn lemma_advisory_union(a: Seq<Seq<char>>, b: Seq<Seq<char>>)
    ensures
        advisory_union(a, b).no_duplicates(),
        forall|x: Seq<char>| advisory_union(a, b).contains(x) <==> (a.contains(x) || b.contains(x)),
        advisory_union(a, b).take(add_unique(Seq::empty(), a).len() as int) == add_unique(Seq::empty(), a),
{
    let e = Seq::<Seq<char>>::empty();
    lemma_add_unique(e, a);
    lemma_add_unique(add_unique(e, a), b);
}

} // verus!
