//! Association lists keyed by text, where the newest entry for a key wins,
//! mirroring how repeated inserts into a keyed store overwrite each other.

use vstd::prelude::*;

verus! {

/// The value most recently stored under `k`, if any.
pub open spec fn assoc_lookup<V>(s: Seq<(String, V)>, k: Seq<char>) -> Option<V>
    decreases s.len(),
{
    if s.len() == 0 {
        None
    } else if s.last().0@ == k {
        Some(s.last().1)
    } else {
        assoc_lookup(s.drop_last(), k)
    }
}

/// If `i` is the last position holding `k`, the lookup yields its value.
pub proof fn lemma_assoc_lookup_at<V>(s: Seq<(String, V)>, k: Seq<char>, i: int)
    requires
        0 <= i < s.len(),
        s[i].0@ == k,
        forall|j: int| i < j < s.len() ==> (#[trigger] s[j]).0@ != k,
    ensures
        assoc_lookup(s, k) == Some(s[i].1),
    decreases s.len(),
{
    if i == s.len() - 1 {
    } else {
        lemma_assoc_lookup_at(s.drop_last(), k, i);
    }
}

/// If no position holds `k`, the lookup yields nothing.
pub proof fn lemma_assoc_lookup_none<V>(s: Seq<(String, V)>, k: Seq<char>)
    requires
        forall|j: int| 0 <= j < s.len() ==> (#[trigger] s[j]).0@ != k,
    ensures
        assoc_lookup(s, k) is None,
    decreases s.len(),
{
    if s.len() > 0 {
        lemma_assoc_lookup_none(s.drop_last(), k);
    }
}

/// Storing under one key leaves every other key's lookup unchanged.
pub proof fn lemma_assoc_lookup_push<V>(s: Seq<(String, V)>, e: (String, V), k: Seq<char>)
    ensures
        e.0@ == k ==> assoc_lookup(s.push(e), k) == Some(e.1),
        e.0@ != k ==> assoc_lookup(s.push(e), k) == assoc_lookup(s, k),
{
    assert(s.push(e).drop_last() =~= s);
}

/// The position of the newest entry for `k`, if one exists.
pub fn find_last<V>(v: &Vec<(String, V)>, k: &String) -> (r: Option<usize>)
    ensures
        r matches Some(i) ==> i < v@.len() && v@[i as int].0@ == k@ && assoc_lookup(v@, k@)
            == Some(v@[i as int].1),
        r is None ==> assoc_lookup(v@, k@) is None,
{
    let n = v.len();
    let mut found: Option<usize> = None;
    let mut i: usize = 0;
    while i < n
        invariant
            n == v@.len(),
            i <= n,
            match found {
                Some(f) => f < i && v@[f as int].0@ == k@ && forall|j: int|
                    f < j < i ==> (#[trigger] v@[j]).0@ != k@,
                None => forall|j: int| 0 <= j < i ==> (#[trigger] v@[j]).0@ != k@,
            },
        decreases n - i,
    {
        if v[i].0 == *k {
            found = Some(i);
        }
        i = i + 1;
    }
    proof {
        match found {
            Some(f) => lemma_assoc_lookup_at(v@, k@, f as int),
            None => lemma_assoc_lookup_none(v@, k@),
        }
    }
    found
}

} // verus!
