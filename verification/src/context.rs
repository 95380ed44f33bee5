//! The per-invocation sandbox context: an environment table derived from the
//! request parameters.
//!
//! The table keeps one entry per distinct key. A key keeps the position of
//! its first occurrence in the parameters, and a later occurrence of the same
//! key overwrites the value in place: last write wins, order as supplied.

use vstd::prelude::*;

verus! {

/// The mathematical shape of an environment table: key/value pairs of text.
pub type EnvPairs = Seq<(Seq<char>, Seq<char>)>;

/// The view of an executable pair table: each component as its text.
pub open spec fn pairs_view(s: Seq<(String, String)>) -> EnvPairs {
    Seq::new(s.len(), |i: int| (s[i].0@, s[i].1@))
}

/// Whether some pair of `s` carries the key `k`.
pub open spec fn has_key(s: EnvPairs, k: Seq<char>) -> bool {
    exists|i: int| 0 <= i < s.len() && s[i].0 == k
}

/// The first position of `s` whose pair carries the key `k`.
pub open spec fn key_index(s: EnvPairs, k: Seq<char>) -> int
    decreases s.len(),
{
    if s.len() == 0 {
        0
    } else if s[0].0 == k {
        0
    } else {
        1 + key_index(s.drop_first(), k)
    }
}

/// The value `s` holds under the key `k` (meaningful when `has_key`).
pub open spec fn env_lookup(s: EnvPairs, k: Seq<char>) -> Seq<char> {
    s[key_index(s, k)].1
}

/// No two pairs of `s` carry the same key.
pub open spec fn uniq_keys(s: EnvPairs) -> bool {
    forall|i: int, j: int| 0 <= i < j < s.len() ==> s[i].0 != s[j].0
}

/// One parameter folded into a table: overwrite in place when the key is
/// already present, append otherwise.
pub open spec fn env_upsert(s: EnvPairs, p: (Seq<char>, Seq<char>)) -> EnvPairs {
    if has_key(s, p.0) {
        s.update(key_index(s, p.0), p)
    } else {
        s.push(p)
    }
}

/// The environment table of an ordered parameter sequence: the parameters
/// folded in order, so that for a repeated key the last write wins while the
/// key keeps its first position.
pub open spec fn env_table(params: EnvPairs) -> EnvPairs
    decreases params.len(),
{
    if params.len() == 0 {
        Seq::empty()
    } else {
        env_upsert(env_table(params.drop_last()), params.last())
    }
}

/// The value of the last parameter pair carrying the key `k` (meaningful
/// when `has_key(params, k)`).
pub open spec fn last_value(params: EnvPairs, k: Seq<char>) -> Seq<char>
    decreases params.len(),
{
    if params.len() == 0 {
        Seq::empty()
    } else if params.last().0 == k {
        params.last().1
    } else {
        last_value(params.drop_last(), k)
    }
}

/// `key_index` is the first position carrying the key: it is in bounds,
/// carries `k`, and nothing before it does.
pub proof fn lemma_key_index(s: EnvPairs, k: Seq<char>)
    requires
        has_key(s, k),
    ensures
        0 <= key_index(s, k) < s.len(),
        s[key_index(s, k)].0 == k,
        forall|i: int| 0 <= i < key_index(s, k) ==> s[i].0 != k,
    decreases s.len(),
{
    if s[0].0 == k {
    } else {
        let w = choose|i: int| 0 <= i < s.len() && s[i].0 == k;
        assert(s.drop_first()[w - 1].0 == k);
        lemma_key_index(s.drop_first(), k);
        assert forall|i: int| 0 <= i < key_index(s, k) implies s[i].0 != k by {
            if i > 0 {
                assert(s.drop_first()[i - 1].0 != k);
            }
        }
    }
}

/// A position carrying `k` with nothing before it carrying `k` is exactly
/// `key_index`.
pub proof fn lemma_key_index_unique(s: EnvPairs, k: Seq<char>, j: int)
    requires
        0 <= j < s.len(),
        s[j].0 == k,
        forall|i: int| 0 <= i < j ==> s[i].0 != k,
    ensures
        key_index(s, k) == j,
{
    assert(has_key(s, k));
    lemma_key_index(s, k);
    let ki = key_index(s, k);
    if ki < j {
        assert(s[ki].0 != k);
    } else if j < ki {
        assert(s[j].0 != k);
    }
}

/// What one upsert does to a uniquely-keyed table: the given key now maps to
/// the given value, and every other key is untouched.
pub proof fn lemma_upsert(s: EnvPairs, p: (Seq<char>, Seq<char>))
    requires
        uniq_keys(s),
    ensures
        uniq_keys(env_upsert(s, p)),
        has_key(env_upsert(s, p), p.0),
        env_lookup(env_upsert(s, p), p.0) == p.1,
        forall|k: Seq<char>| k != p.0 ==> (has_key(env_upsert(s, p), k) <==> has_key(s, k)),
        forall|k: Seq<char>| k != p.0 && has_key(s, k) ==> env_lookup(env_upsert(s, p), k)
            == env_lookup(s, k),
{
    let t = env_upsert(s, p);
    if has_key(s, p.0) {
        lemma_key_index(s, p.0);
        let ki = key_index(s, p.0);
        assert forall|i: int, j: int| 0 <= i < j < t.len() implies t[i].0 != t[j].0 by {
            assert(t[i].0 == s[i].0 && t[j].0 == s[j].0);
        }
        lemma_key_index_unique(t, p.0, ki);
        assert(t[ki] == p);
        assert forall|k: Seq<char>| k != p.0 implies (has_key(t, k) <==> has_key(s, k)) by {
            if has_key(t, k) {
                let w = choose|i: int| 0 <= i < t.len() && t[i].0 == k;
                assert(s[w].0 == k);
            }
            if has_key(s, k) {
                let w = choose|i: int| 0 <= i < s.len() && s[i].0 == k;
                assert(t[w].0 == k);
            }
        }
        assert forall|k: Seq<char>| k != p.0 && has_key(s, k) implies env_lookup(t, k)
            == env_lookup(s, k) by {
            lemma_key_index(s, k);
            let j = key_index(s, k);
            assert(t[j].0 == k);
            assert forall|i: int| 0 <= i < j implies t[i].0 != k by {
                assert(t[i].0 == s[i].0);
            }
            lemma_key_index_unique(t, k, j);
            assert(t[j] == s[j]);
        }
    } else {
        assert(t == s.push(p));
        assert forall|i: int, j: int| 0 <= i < j < t.len() implies t[i].0 != t[j].0 by {
            if j < s.len() {
                assert(t[i].0 == s[i].0 && t[j].0 == s[j].0);
            } else {
                assert(t[j] == p);
                assert(t[i].0 == s[i].0);
                assert(!(exists|w: int| 0 <= w < s.len() && s[w].0 == p.0));
            }
        }
        assert(t[s.len() as int] == p);
        assert forall|i: int| 0 <= i < s.len() implies t[i].0 != p.0 by {
            assert(t[i].0 == s[i].0);
        }
        lemma_key_index_unique(t, p.0, s.len() as int);
        assert forall|k: Seq<char>| k != p.0 implies (has_key(t, k) <==> has_key(s, k)) by {
            if has_key(t, k) {
                let w = choose|i: int| 0 <= i < t.len() && t[i].0 == k;
                assert(w < s.len());
                assert(s[w].0 == k);
            }
            if has_key(s, k) {
                let w = choose|i: int| 0 <= i < s.len() && s[i].0 == k;
                assert(t[w].0 == k);
            }
        }
        assert forall|k: Seq<char>| k != p.0 && has_key(s, k) implies env_lookup(t, k)
            == env_lookup(s, k) by {
            lemma_key_index(s, k);
            let j = key_index(s, k);
            assert(t[j].0 == k);
            assert forall|i: int| 0 <= i < j implies t[i].0 != k by {
                assert(t[i].0 == s[i].0);
            }
            lemma_key_index_unique(t, k, j);
            assert(t[j] == s[j]);
        }
    }
}

/// The law of the environment table: it has exactly the keys of the
/// parameters, each key exactly once, and under each key the value of the
/// last parameter pair that carried it — the last write wins.
pub proof fn lemma_env_table_last_wins(params: EnvPairs)
    ensures
        uniq_keys(env_table(params)),
        forall|k: Seq<char>| has_key(env_table(params), k) <==> has_key(params, k),
        forall|k: Seq<char>| has_key(params, k) ==> env_lookup(env_table(params), k)
            == last_value(params, k),
    decreases params.len(),
{
    if params.len() == 0 {
    } else {
        let head = params.drop_last();
        let p = params.last();
        let t0 = env_table(head);
        let t = env_table(params);
        lemma_env_table_last_wins(head);
        lemma_upsert(t0, p);
        assert(t == env_upsert(t0, p));
        assert forall|k: Seq<char>| has_key(t, k) <==> has_key(params, k) by {
            if k == p.0 {
                assert(params[params.len() - 1].0 == k);
            } else {
                if has_key(head, k) {
                    let w = choose|i: int| 0 <= i < head.len() && head[i].0 == k;
                    assert(params[w].0 == k);
                }
                if has_key(params, k) {
                    let w = choose|i: int| 0 <= i < params.len() && params[i].0 == k;
                    assert(w < params.len() - 1);
                    assert(head[w].0 == k);
                }
            }
        }
        assert forall|k: Seq<char>| has_key(params, k) implies env_lookup(t, k)
            == last_value(params, k) by {
            if k == p.0 {
                assert(params.last().0 == k);
                assert(last_value(params, k) == p.1);
            } else {
                let w = choose|i: int| 0 <= i < params.len() && params[i].0 == k;
                assert(w < params.len() - 1);
                assert(head[w].0 == k);
                assert(has_key(head, k));
                assert(last_value(params, k) == last_value(head, k));
            }
        }
    }
}

/// Build the environment table for one invocation from the request
/// parameters, in order, with the last write winning for a repeated key.
pub fn build_env(params: &Vec<(String, String)>) -> (r: Vec<(String, String)>)
    ensures
        pairs_view(r@) == env_table(pairs_view(params@)),
        uniq_keys(pairs_view(r@)),
{
    let ghost gparams = pairs_view(params@);
    let mut out: Vec<(String, String)> = Vec::new();
    proof {
        assert(pairs_view(out@) =~= env_table(gparams.take(0)));
    }
    let mut i: usize = 0;
    while i < params.len()
        invariant
            i <= params.len(),
            gparams == pairs_view(params@),
            pairs_view(out@) == env_table(gparams.take(i as int)),
            uniq_keys(pairs_view(out@)),
        decreases params.len() - i,
    {
        let ghost gout = pairs_view(out@);
        let ghost p = gparams[i as int];
        let mut j: usize = 0;
        while j < out.len() && !(out[j].0 == params[i].0)
            invariant
                j <= out.len(),
                gout == pairs_view(out@),
                forall|jj: int| 0 <= jj < j ==> gout[jj].0 != p.0,
                gparams == pairs_view(params@),
                i < params.len(),
                p == (params@[i as int].0@, params@[i as int].1@),
            decreases out.len() - j,
        {
            proof {
                assert(gout[j as int].0 == out@[j as int].0@);
                assert(p.0 == params@[i as int].0@);
            }
            j += 1;
        }
        proof {
            lemma_env_table_last_wins(gparams.take(i as int));
        }
        if j < out.len() {
            proof {
                assert(gout[j as int].0 == p.0);
                lemma_key_index_unique(gout, p.0, j as int);
                assert(has_key(gout, p.0));
            }
            let pair = (params[i].0.clone(), params[i].1.clone());
            out[j] = pair;
            proof {
                assert(pairs_view(out@) =~= gout.update(j as int, p));
            }
        } else {
            proof {
                assert(!has_key(gout, p.0));
            }
            let pair = (params[i].0.clone(), params[i].1.clone());
            out.push(pair);
            proof {
                assert(pairs_view(out@) =~= gout.push(p));
            }
        }
        proof {
            assert(pairs_view(out@) =~= env_upsert(gout, p));
            assert(gparams.take(i + 1 as int).drop_last() =~= gparams.take(i as int));
            assert(gparams.take(i + 1 as int).last() == p);
            lemma_upsert(gout, p);
        }
        i += 1;
    }
    proof {
        assert(gparams.take(params@.len() as int) =~= gparams);
    }
    out
}

} // verus!
