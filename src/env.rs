//! Environment variable mappings held as lists of (name, value) pairs.
use vstd::prelude::*;

verus! {

/// The mapping that a list of (name, value) pairs sets: where a name occurs
/// more than once, its last value wins.
pub open spec fn env_map(s: Seq<(String, String)>) -> Map<Seq<char>, Seq<char>>
    decreases s.len(),
{
    if s.len() == 0 {
        Map::empty()
    } else {
        env_map(s.drop_last()).insert(s.last().0@, s.last().1@)
    }
}

/// No name occurs twice in the list.
pub open spec fn names_unique(s: Seq<(String, String)>) -> bool {
    forall|i: int, j: int| 0 <= i < j < s.len() ==> s[i].0@ != s[j].0@
}

/// Giving a new value to a pair whose name occurs once sets that name to the
/// new value.
proof fn lemma_env_map_update(s: Seq<(String, String)>, idx: int, p: (String, String))
    requires
        names_unique(s),
        0 <= idx < s.len(),
        s[idx].0@ == p.0@,
    ensures
        env_map(s.update(idx, p)) == env_map(s).insert(p.0@, p.1@),
        names_unique(s.update(idx, p)),
    decreases s.len(),
{
    let t = s.update(idx, p);
    assert(t.drop_last() =~= if idx == s.len() - 1 {
        s.drop_last()
    } else {
        s.drop_last().update(idx, p)
    });
    if idx == s.len() - 1 {
        assert(env_map(t) =~= env_map(s).insert(p.0@, p.1@));
    } else {
        lemma_env_map_update(s.drop_last(), idx, p);
        assert(s[idx].0@ != s.last().0@);
        assert(env_map(t) =~= env_map(s).insert(p.0@, p.1@));
    }
}

/// A copy of a list of pairs.
pub fn copy_pairs(pairs: &Vec<(String, String)>) -> (r: Vec<(String, String)>)
    ensures
        r@ == pairs@,
{
    let mut out: Vec<(String, String)> = Vec::new();
    let n = pairs.len();
    let mut i: usize = 0;
    while i < n
        invariant
            n == pairs@.len(),
            0 <= i <= n,
            out@ == pairs@.subrange(0, i as int),
        decreases n - i,
    {
        out.push((pairs[i].0.clone(), pairs[i].1.clone()));
        assert(out@ =~= pairs@.subrange(0, i + 1));
        i = i + 1;
    }
    assert(pairs@.subrange(0, n as int) =~= pairs@);
    out
}

/// The same mapping as `pairs`, with each name once.
pub fn unique_env(pairs: &Vec<(String, String)>) -> (r: Vec<(String, String)>)
    ensures
        names_unique(r@),
        env_map(r@) == env_map(pairs@),
{
    let mut out: Vec<(String, String)> = Vec::new();
    let n = pairs.len();
    let mut i: usize = 0;
    while i < n
        invariant
            n == pairs@.len(),
            0 <= i <= n,
            names_unique(out@),
            env_map(out@) == env_map(pairs@.subrange(0, i as int)),
        decreases n - i,
    {
        let p = (pairs[i].0.clone(), pairs[i].1.clone());
        assert(pairs@.subrange(0, i + 1).drop_last() =~= pairs@.subrange(0, i as int));
        let m = out.len();
        let mut j: usize = 0;
        let mut found = false;
        while j < m && !found
            invariant
                m == out@.len(),
                0 <= j <= m,
                found ==> j > 0 && out@[j - 1].0@ == p.0@,
                !found ==> forall|k: int| 0 <= k < j ==> out@[k].0@ != p.0@,
            decreases m - j,
        {
            if out[j].0 == p.0 {
                found = true;
            }
            j = j + 1;
        }
        if found {
            proof {
                lemma_env_map_update(out@, j - 1, p);
            }
            out[j - 1] = p;
        } else {
            let ghost before = out@;
            out.push(p);
            assert(out@.drop_last() =~= before);
        }
        i = i + 1;
    }
    assert(pairs@.subrange(0, n as int) =~= pairs@);
    out
}

} // verus!
