use vstd::prelude::*;
use vstd::hash_map::StringHashMap;
use crate::models::{UnifiedPool, UnifiedPoolView};

verus! {

/// How many times token `t` is named among `pools`, as first or as second
/// token; a pool that names it twice counts twice.
pub open spec fn token_count(pools: Seq<UnifiedPoolView>, t: Seq<char>) -> nat
    decreases pools.len(),
{
    if pools.len() == 0 {
        0
    } else {
        token_count(pools.drop_last(), t) + (if pools.last().token0_id == t { 1nat } else { 0nat })
            + (if pools.last().token1_id == t { 1nat } else { 0nat })
    }
}

/// Whether both tokens of `p` are named more than once among `pools`, that
/// is, each of them also trades in another pool (or twice in `p`).
pub open spec fn connected(pools: Seq<UnifiedPoolView>, p: UnifiedPoolView) -> bool {
    token_count(pools, p.token0_id) > 1 && token_count(pools, p.token1_id) > 1
}

/// The pools that survive cleaning, in their order.
pub open spec fn cleaned(pools: Seq<UnifiedPoolView>) -> Seq<UnifiedPoolView> {
    pools.filter(|p: UnifiedPoolView| connected(pools, p))
}

/// The models of a list of pools.
pub open spec fn pool_views(pools: Seq<UnifiedPool>) -> Seq<UnifiedPoolView> {
    pools.map_values(|p: UnifiedPool| p@)
}

/// The count a map holds for `t`, 0 where it holds none.
pub open spec fn count_in(m: Map<Seq<char>, usize>, t: Seq<char>) -> nat {
    if m.contains_key(t) {
        m[t] as nat
    } else {
        0
    }
}

proof fn lemma_token_count_bound(pools: Seq<UnifiedPoolView>, t: Seq<char>)
    ensures
        token_count(pools, t) <= 2 * pools.len(),
    decreases pools.len(),
{
    if pools.len() > 0 {
        lemma_token_count_bound(pools.drop_last(), t);
    }
}

fn bump(counts: &mut StringHashMap<usize>, t: &String)
    requires
        count_in(old(counts)@, t@) < usize::MAX,
    ensures
        forall|u: Seq<char>| #[trigger] count_in(final(counts)@, u) == count_in(old(counts)@, u) + (if u == t@ { 1nat } else { 0nat }),
{
    let c: usize = match counts.get(t.as_str()) {
        Some(c) => *c,
        None => 0,
    };
    counts.insert(t.clone(), c + 1);
    assert forall|u: Seq<char>| #[trigger] count_in(counts@, u) == count_in(old(counts)@, u) + (if u == t@ { 1nat } else { 0nat }) by {
        if u == t@ {
        } else {
            assert(counts@.contains_key(u) == old(counts)@.contains_key(u));
        }
    }
}

/// Keeps the pools both of whose tokens are named more than once among all
/// pools, and drops the others, keeping the order.
pub fn clean_pools(pools: Vec<UnifiedPool>) -> (r: Vec<UnifiedPool>)
    requires
        pools@.len() * 2 <= usize::MAX,
    ensures
        pool_views(r@) == cleaned(pool_views(pools@)),
{
    let ghost vs = pool_views(pools@);
    let mut counts: StringHashMap<usize> = StringHashMap::new();
    let mut i: usize = 0;
    while i < pools.len()
        invariant
            i <= pools@.len(),
            pools@.len() * 2 <= usize::MAX,
            vs == pool_views(pools@),
            forall|u: Seq<char>| #[trigger] count_in(counts@, u) == token_count(vs.take(i as int), u),
        decreases pools.len() - i,
    {
        proof {
            lemma_token_count_bound(vs.take(i as int), pools@[i as int].token0_id@);
            lemma_token_count_bound(vs.take(i as int), pools@[i as int].token1_id@);
            assert(vs.take(i + 1).drop_last() =~= vs.take(i as int));
        }
        bump(&mut counts, &pools[i].token0_id);
        proof {
            lemma_token_count_bound(vs.take(i as int), pools@[i as int].token1_id@);
        }
        bump(&mut counts, &pools[i].token1_id);
        i = i + 1;
    }
    assert(vs.take(i as int) =~= vs);
    let mut kept: Vec<UnifiedPool> = Vec::new();
    for pool in it: pools
        invariant
            vs == pool_views(it.seq()),
            forall|u: Seq<char>| #[trigger] count_in(counts@, u) == token_count(vs, u),
            pool_views(kept@) == vs.take(it.index() as int).filter(|p: UnifiedPoolView| connected(vs, p)),
    {
        let ghost k = it.index();
        let ghost pv = pool@;
        assert(pool@ == vs[k as int]);
        assert(vs.take(k + 1).drop_last() =~= vs.take(k as int));
        let c0: usize = match counts.get(pool.token0_id.as_str()) {
            Some(c) => *c,
            None => 0,
        };
        let c1: usize = match counts.get(pool.token1_id.as_str()) {
            Some(c) => *c,
            None => 0,
        };
        assert(c0 as nat == count_in(counts@, pv.token0_id));
        assert(c1 as nat == count_in(counts@, pv.token1_id));
        assert((c0 > 1 && c1 > 1) == connected(vs, pv));
        let ghost before = kept@;
        proof {
            reveal_with_fuel(Seq::<_>::filter, 1);
            assert(vs.take(k + 1).last() == pv);
        }
        if c0 > 1 && c1 > 1 {
            kept.push(pool);
            assert(pool_views(kept@) =~= pool_views(before).push(pv));
        }
        assert(pool_views(kept@) == vs.take(k + 1).filter(|p: UnifiedPoolView| connected(vs, p)));
    }
    kept
}

/// A pool survives cleaning exactly when both its tokens are named more than
/// once among all pools, whatever else it holds; cleaning adds no pool and
/// never lengthens the list.
pub proof fn lemma_clean_membership(pools: Seq<UnifiedPoolView>, p: UnifiedPoolView)
    ensures
        cleaned(pools).contains(p) <==> (pools.contains(p) && connected(pools, p)),
        cleaned(pools).contains(p) <==> (pools.contains(p) && token_count(pools, p.token0_id) > 1
            && token_count(pools, p.token1_id) > 1),
        cleaned(pools).len() <= pools.len(),
{
    let pred = |q: UnifiedPoolView| connected(pools, q);
    pools.lemma_filter_len(pred);
    if cleaned(pools).contains(p) {
        pools.lemma_filter_contains_rev(pred, p);
        let i = choose|i: int| 0 <= i < cleaned(pools).len() && cleaned(pools)[i] == p;
        pools.lemma_filter_pred(pred, i);
    }
    if pools.contains(p) && connected(pools, p) {
        let i = choose|i: int| 0 <= i < pools.len() && pools[i] == p;
        pools.lemma_filter_contains(pred, i);
    }
}

/// How often a token is named is the number of pools that have it as first
/// token plus the number of pools that have it as second token.
pub proof fn lemma_token_count_pools(pools: Seq<UnifiedPoolView>, t: Seq<char>)
    ensures
        token_count(pools, t) == pools.filter(|p: UnifiedPoolView| p.token0_id == t).len() + pools.filter(
            |p: UnifiedPoolView| p.token1_id == t,
        ).len(),
    decreases pools.len(),
{
    reveal_with_fuel(Seq::<_>::filter, 1);
    if pools.len() > 0 {
        lemma_token_count_pools(pools.drop_last(), t);
    }
}

/// A pool one of whose tokens is named nowhere else is dropped.
pub proof fn lemma_clean_drops_lone_tokens(pools: Seq<UnifiedPoolView>, p: UnifiedPoolView)
    requires
        token_count(pools, p.token0_id) <= 1 || token_count(pools, p.token1_id) <= 1,
    ensures
        !cleaned(pools).contains(p),
{
    lemma_clean_membership(pools, p);
}

/// How many times pool `p` names token `t`.
pub open spec fn names(p: UnifiedPoolView, t: Seq<char>) -> nat {
    (if p.token0_id == t { 1nat } else { 0nat }) + (if p.token1_id == t { 1nat } else { 0nat })
}

proof fn lemma_token_count_concat(xs: Seq<UnifiedPoolView>, ys: Seq<UnifiedPoolView>, t: Seq<char>)
    ensures
        token_count(xs + ys, t) == token_count(xs, t) + token_count(ys, t),
    decreases ys.len(),
{
    if ys.len() == 0 {
        assert(xs + ys =~= xs);
    } else {
        assert((xs + ys).drop_last() =~= xs + ys.drop_last());
        assert((xs + ys).last() == ys.last());
        lemma_token_count_concat(xs, ys.drop_last(), t);
    }
}

/// Adding pools never drops a kept pool: adding pools only adds to how often
/// each token is named.
pub proof fn lemma_clean_monotone(xs: Seq<UnifiedPoolView>, ys: Seq<UnifiedPoolView>, p: UnifiedPoolView)
    requires
        cleaned(xs).contains(p),
    ensures
        cleaned(xs + ys).contains(p),
{
    lemma_clean_membership(xs, p);
    lemma_token_count_concat(xs, ys, p.token0_id);
    lemma_token_count_concat(xs, ys, p.token1_id);
    let i = choose|i: int| 0 <= i < xs.len() && xs[i] == p;
    assert((xs + ys)[i] == p);
    lemma_clean_membership(xs + ys, p);
}

proof fn lemma_token_count_remove(xs: Seq<UnifiedPoolView>, j: int, t: Seq<char>)
    requires
        0 <= j < xs.len(),
    ensures
        token_count(xs, t) == token_count(xs.remove(j), t) + names(xs[j], t),
    decreases xs.len(),
{
    if j == xs.len() - 1 {
        assert(xs.remove(j) =~= xs.drop_last());
    } else {
        assert(xs.remove(j).drop_last() =~= xs.drop_last().remove(j));
        assert(xs.remove(j).last() == xs.last());
        lemma_token_count_remove(xs.drop_last(), j, t);
    }
}

proof fn lemma_token_count_permutation(xs: Seq<UnifiedPoolView>, ys: Seq<UnifiedPoolView>, t: Seq<char>)
    requires
        xs.to_multiset() == ys.to_multiset(),
    ensures
        token_count(xs, t) == token_count(ys, t),
    decreases xs.len(),
{
    broadcast use vstd::seq_lib::group_to_multiset_ensures;
    if xs.len() == 0 {
        assert(ys.to_multiset().len() == 0);
        assert(ys.len() == 0);
    } else {
        let x = xs.last();
        let rest = xs.drop_last();
        assert(xs =~= rest.push(x));
        assert(xs.to_multiset() =~= rest.to_multiset().insert(x));
        assert(ys.to_multiset().count(x) > 0);
        assert(ys.contains(x));
        let j = choose|j: int| 0 <= j < ys.len() && ys[j] == x;
        assert(ys.remove(j).to_multiset() =~= ys.to_multiset().remove(x));
        assert(rest.to_multiset() =~= ys.remove(j).to_multiset());
        lemma_token_count_permutation(rest, ys.remove(j), t);
        lemma_token_count_remove(ys, j, t);
    }
}

proof fn lemma_filter_count(xs: Seq<UnifiedPoolView>, f: spec_fn(UnifiedPoolView) -> bool, p: UnifiedPoolView)
    ensures
        xs.filter(f).to_multiset().count(p) == (if f(p) { xs.to_multiset().count(p) } else { 0 }),
    decreases xs.len(),
{
    broadcast use vstd::seq_lib::group_to_multiset_ensures;
    reveal_with_fuel(Seq::<_>::filter, 1);
    if xs.len() == 0 {
        assert(xs.filter(f) =~= Seq::<UnifiedPoolView>::empty());
        assert(xs.to_multiset().len() == 0);
        assert(xs.filter(f).to_multiset().len() == 0);
    } else {
        let x = xs.last();
        let rest = xs.drop_last();
        lemma_filter_count(rest, f, p);
        assert(xs =~= rest.push(x));
        assert(xs.to_multiset() =~= rest.to_multiset().insert(x));
        if f(x) {
            assert(xs.filter(f) == rest.filter(f).push(x));
            assert(xs.filter(f).to_multiset() =~= rest.filter(f).to_multiset().insert(x));
        } else {
            assert(xs.filter(f) == rest.filter(f));
        }
    }
}

/// Cleaning does not depend on the order of the pools: lists holding the same
/// pools, as many times each, keep the same pools, as many times each.
pub proof fn lemma_clean_order_independent(xs: Seq<UnifiedPoolView>, ys: Seq<UnifiedPoolView>)
    requires
        xs.to_multiset() == ys.to_multiset(),
    ensures
        cleaned(xs).to_multiset() == cleaned(ys).to_multiset(),
{
    assert forall|p: UnifiedPoolView| #[trigger] cleaned(xs).to_multiset().count(p) == cleaned(ys).to_multiset().count(p) by {
        lemma_token_count_permutation(xs, ys, p.token0_id);
        lemma_token_count_permutation(xs, ys, p.token1_id);
        lemma_filter_count(xs, |q: UnifiedPoolView| connected(xs, q), p);
        lemma_filter_count(ys, |q: UnifiedPoolView| connected(ys, q), p);
    }
    assert(cleaned(xs).to_multiset() =~= cleaned(ys).to_multiset());
}

} // verus!
