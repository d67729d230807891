use pool_fetcher::cleaner::clean_pools;
use pool_fetcher::models::UnifiedPool;

fn pool(id: &str, t0: &str, t1: &str) -> UnifiedPool {
    UnifiedPool {
        id: id.to_string(),
        protocol: "V3".to_string(),
        token0_id: t0.to_string(),
        token0_symbol: String::new(),
        token1_id: t1.to_string(),
        token1_symbol: String::new(),
        fee: 500,
        decimals0: None,
        decimals1: None,
        raw_json: String::new(),
        extra_data: String::new(),
        tvl_usd: "1".to_string(),
    }
}

fn ids(pools: &[UnifiedPool]) -> Vec<String> {
    pools.iter().map(|p| p.id.clone()).collect()
}

#[test]
fn clean_keeps_connected_pools_in_order() {
    let pools = vec![pool("p1", "a", "b"), pool("p2", "b", "c"), pool("p3", "a", "c"), pool("p4", "a", "z")];
    let out = clean_pools(pools);
    assert_eq!(ids(&out), vec!["p1", "p2", "p3"]);
}

#[test]
fn clean_drops_pools_with_lone_tokens() {
    let pools = vec![pool("p1", "a", "b"), pool("p2", "c", "d")];
    assert!(clean_pools(pools).is_empty());
}

#[test]
fn clean_counts_a_token_named_twice_in_one_pool() {
    let pools = vec![pool("p1", "a", "a"), pool("p2", "a", "b")];
    assert_eq!(ids(&clean_pools(pools)), vec!["p1"]);
}

#[test]
fn clean_empty_input() {
    assert!(clean_pools(Vec::new()).is_empty());
}

#[test]
fn clean_is_case_sensitive() {
    let pools = vec![pool("p1", "0xA", "b"), pool("p2", "0xa", "b")];
    assert!(clean_pools(pools).is_empty());
}

#[test]
fn clean_does_not_depend_on_order() {
    let a = vec![pool("p1", "a", "b"), pool("p2", "b", "c"), pool("p3", "a", "z"), pool("p4", "c", "a")];
    let b = vec![pool("p4", "c", "a"), pool("p3", "a", "z"), pool("p2", "b", "c"), pool("p1", "a", "b")];
    let mut x = ids(&clean_pools(a));
    let mut y = ids(&clean_pools(b));
    x.sort();
    y.sort();
    assert_eq!(x, y);
}

#[test]
fn adding_pools_keeps_kept_pools() {
    let xs = vec![pool("p1", "a", "b"), pool("p2", "a", "b")];
    let mut more = xs.clone();
    more.push(pool("p3", "b", "q"));
    let kept = ids(&clean_pools(xs));
    let kept_more = ids(&clean_pools(more));
    for k in kept {
        assert!(kept_more.contains(&k));
    }
}
