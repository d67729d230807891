use vstd::prelude::*;
use crate::json::{json_as_str, json_get, json_index, json_text, push_quoted, quoted, to_json_text, JsonValue};
use crate::models::{opt_text, Protocol, TokenPartView, UnifiedPool, UnifiedPoolView, V2Pair, V2PairView, V3Pool, V3PoolView, V4Pool, V4PoolView};
use crate::schema::{
    v2_pair_text, v2_pair_to_text, v2_response_from_json, v2_response_from_value, v3_pool_text,
    v3_pool_to_text, v3_response_from_json, v3_response_from_value, v4_pool_text,
    v4_pool_to_text, v4_response_from_json, v4_response_from_value,
};
use crate::text::{
    decimal_text, lemma_decimal_text_digits, lemma_decimal_text_injective, lemma_digit_run_unique,
    parse_u32, parse_u8, parse_unsigned, push_decimal,
};

verus! {

/// Pools asked for per page.
pub const BATCH_SIZE: usize = 1000;

/// The fetcher stops asking for pages once it has stored this many pools.
pub const MAX_POOLS: usize = 5000;

/// Retries allowed for one request.
pub const MAX_RETRIES: u32 = 5;

// ---------------------------------------------------------------------------
// Queries
// ---------------------------------------------------------------------------

/// The start of a page query, up to the page size.
pub open spec fn query_head(protocol: Protocol) -> Seq<char> {
    match protocol {
        Protocol::UniV2 => "{\n                pairs(first: "@,
        _ => "{\n                pools(first: "@,
    }
}

/// The ordering of a page query: largest value locked first.
pub open spec fn query_order(protocol: Protocol) -> Seq<char> {
    match protocol {
        Protocol::UniV2 => ", orderBy: reserveUSD, orderDirection: desc"@,
        _ => ", orderBy: totalValueLockedUSD, orderDirection: desc"@,
    }
}

/// The filter of a page query that resumes from a start id: only pools whose
/// id is greater than it (the subgraph's `id_gt`), the id written as a quoted
/// string; nothing without a start id.
///
/// Resuming keeps the value-locked order and pages from the first one: a
/// resumed fetch asks, largest value locked first and again up to the pool
/// limit, for the pools whose id is greater than the start id. It does not
/// continue an interrupted fetch at the page where it stopped: pools with a
/// smaller id that were never fetched are left out, and pools with a greater
/// id that were fetched already are fetched again.
pub open spec fn id_filter(start_id: Option<Seq<char>>) -> Seq<char> {
    match start_id {
        Some(id) => ", where: { id_gt: "@ + quoted(id) + " }"@,
        None => Seq::empty(),
    }
}

/// The fields a page query asks for.
pub open spec fn query_fields(protocol: Protocol) -> Seq<char> {
    match protocol {
        Protocol::UniV2 => ") {\n                    id\n                    reserveUSD\n                    token0 { id symbol decimals }\n                    token1 { id symbol decimals }\n                }\n            }"@,
        Protocol::UniV4 | Protocol::PancakeV4 => ") {\n                    id\n                    feeTier\n                    hooks\n                    liquidity\n                    totalValueLockedUSD\n                    token0 { id symbol decimals }\n                    token1 { id symbol decimals }\n                }\n            }"@,
        _ => ") {\n                    id\n                    feeTier\n                    liquidity\n                    totalValueLockedUSD\n                    token0 { id symbol decimals }\n                    token1 { id symbol decimals }\n                }\n            }"@,
    }
}

/// The GraphQL query for one page of `first` pools after skipping `skip`,
/// largest value locked first, among the pools after `start_id` where one is
/// given.
pub open spec fn query_text_from(protocol: Protocol, skip: nat, first: nat, start_id: Option<Seq<char>>) -> Seq<char> {
    query_head(protocol) + decimal_text(first) + ", skip: "@ + decimal_text(skip) + query_order(protocol)
        + id_filter(start_id) + query_fields(protocol)
}

/// The GraphQL query for one page of `first` pools after skipping `skip`,
/// largest value locked first, among all pools.
pub open spec fn query_text(protocol: Protocol, skip: nat, first: nat) -> Seq<char> {
    query_text_from(protocol, skip, first, None)
}

/// Builds the GraphQL query for one page of pools, resuming after `start_id`
/// where one is given.
pub fn build_query_from(protocol: &Protocol, skip: usize, first: usize, start_id: Option<&str>) -> (r: String)
    ensures
        r@ == query_text_from(*protocol, skip as nat, first as nat, match start_id {
            Some(id) => Some(id@),
            None => None,
        }),
{
    let mut q = match protocol {
        Protocol::UniV2 => String::from_str("{\n                pairs(first: "),
        _ => String::from_str("{\n                pools(first: "),
    };
    push_decimal(&mut q, first);
    q.append(", skip: ");
    push_decimal(&mut q, skip);
    match protocol {
        Protocol::UniV2 => q.append(", orderBy: reserveUSD, orderDirection: desc"),
        _ => q.append(", orderBy: totalValueLockedUSD, orderDirection: desc"),
    }
    match start_id {
        Some(id) => {
            q.append(", where: { id_gt: ");
            push_quoted(&mut q, id);
            q.append(" }");
        },
        None => {},
    }
    match protocol {
        Protocol::UniV2 => q.append(") {\n                    id\n                    reserveUSD\n                    token0 { id symbol decimals }\n                    token1 { id symbol decimals }\n                }\n            }"),
        Protocol::UniV4 | Protocol::PancakeV4 => q.append(") {\n                    id\n                    feeTier\n                    hooks\n                    liquidity\n                    totalValueLockedUSD\n                    token0 { id symbol decimals }\n                    token1 { id symbol decimals }\n                }\n            }"),
        _ => q.append(") {\n                    id\n                    feeTier\n                    liquidity\n                    totalValueLockedUSD\n                    token0 { id symbol decimals }\n                    token1 { id symbol decimals }\n                }\n            }"),
    }
    assert(q@ =~= query_text_from(*protocol, skip as nat, first as nat, match start_id {
        Some(id) => Some(id@),
        None => None,
    }));
    q
}

/// Builds the GraphQL query for one page of pools.
pub fn build_query(protocol: &Protocol, skip: usize, first: usize) -> (r: String)
    ensures
        r@ == query_text(*protocol, skip as nat, first as nat),
{
    build_query_from(protocol, skip, first, None)
}

// ---------------------------------------------------------------------------
// Reading a page of pools
// ---------------------------------------------------------------------------

/// Token decimals read from the subgraph's text: the `u8` it denotes, nothing
/// where it is missing or no such number.
pub open spec fn decimals_of(raw: Option<Seq<char>>) -> Option<u8> {
    match raw {
        Some(t) => match parse_unsigned(t, u8::MAX as nat) {
            Some(n) => Some(n as u8),
            None => None,
        },
        None => None,
    }
}

/// A fee read from text: the `u32` it denotes, or 0.
pub open spec fn fee_or_zero(t: Seq<char>) -> u32 {
    match parse_unsigned(t, u32::MAX as nat) {
        Some(n) => n as u32,
        None => 0,
    }
}

/// The text, or `default` where there is none.
pub open spec fn text_or(o: Option<Seq<char>>, default: Seq<char>) -> Seq<char> {
    match o {
        Some(t) => t,
        None => default,
    }
}

/// The `extra_data` of a V3-style pool: a JSON object of `amm_type`,
/// `liquidity` and `tvl_usd` strings, keys in the order serde_json's map
/// keeps them.
pub open spec fn amm_extra(amm: Seq<char>, liquidity: Seq<char>, tvl: Seq<char>) -> Seq<char> {
    "{\"amm_type\":"@ + quoted(amm) + ",\"liquidity\":"@ + quoted(liquidity) + ",\"tvl_usd\":"@
        + quoted(tvl) + "}"@
}

/// The `extra_data` of a V2 pair: a JSON object of its `reserveUSD` string.
pub open spec fn v2_extra(reserve: Seq<char>) -> Seq<char> {
    "{\"reserveUSD\":"@ + quoted(reserve) + "}"@
}

/// The `extra_data` of a V4 pool: a JSON object of `hooks`, `liquidity` and
/// `tvl_usd` strings and `version` "v4", keys in the order serde_json's map
/// keeps them.
pub open spec fn v4_extra(hooks: Seq<char>, liquidity: Seq<char>, tvl: Seq<char>) -> Seq<char> {
    "{\"hooks\":"@ + quoted(hooks) + ",\"liquidity\":"@ + quoted(liquidity) + ",\"tvl_usd\":"@
        + quoted(tvl) + ",\"version\":\"v4\"}"@
}

/// The stored form of a Uniswap V3 pool.
pub open spec fn v3_unified(p: V3PoolView, label: Seq<char>) -> UnifiedPoolView {
    UnifiedPoolView {
        id: p.id,
        protocol: label,
        token0_id: p.token0.id,
        token0_symbol: p.token0.symbol,
        token1_id: p.token1.id,
        token1_symbol: p.token1.symbol,
        fee: fee_or_zero(p.feeTier),
        decimals0: decimals_of(p.token0.decimals),
        decimals1: decimals_of(p.token1.decimals),
        raw_json: v3_pool_text(p),
        extra_data: amm_extra("vAMM"@, p.liquidity, p.totalValueLockedUSD),
        tvl_usd: p.totalValueLockedUSD,
    }
}

/// The stored form of a Uniswap V2 pair: every pair has fee 3000.
pub open spec fn v2_unified(p: V2PairView, label: Seq<char>) -> UnifiedPoolView {
    UnifiedPoolView {
        id: p.id,
        protocol: label,
        token0_id: p.token0.id,
        token0_symbol: p.token0.symbol,
        token1_id: p.token1.id,
        token1_symbol: p.token1.symbol,
        fee: 3000,
        decimals0: decimals_of(p.token0.decimals),
        decimals1: decimals_of(p.token1.decimals),
        raw_json: v2_pair_text(p),
        extra_data: v2_extra(p.reserveUSD),
        tvl_usd: p.reserveUSD,
    }
}

/// The stored form of a V4 pool.
pub open spec fn v4_unified(p: V4PoolView, label: Seq<char>) -> UnifiedPoolView {
    UnifiedPoolView {
        id: p.id,
        protocol: label,
        token0_id: p.token0.id,
        token0_symbol: p.token0.symbol,
        token1_id: p.token1.id,
        token1_symbol: p.token1.symbol,
        fee: fee_or_zero(p.feeTier),
        decimals0: decimals_of(p.token0.decimals),
        decimals1: decimals_of(p.token1.decimals),
        raw_json: v4_pool_text(p),
        extra_data: v4_extra(p.hooks, p.liquidity, p.totalValueLockedUSD),
        tvl_usd: p.totalValueLockedUSD,
    }
}

/// A string member of `v`, read as indexing and `as_str` read it.
pub open spec fn str_at(v: JsonValue, key: Seq<char>) -> Option<Seq<char>> {
    json_as_str(json_index(v, key))
}

/// The AMM type of an Aerodrome pool: stable pools (`sAMM`) have a fee of at
/// most 5, volatile pools (`vAMM`) a larger one.
pub open spec fn aerodrome_amm(fee: u32) -> Seq<char> {
    if fee <= 5 {
        "sAMM"@
    } else {
        "vAMM"@
    }
}

/// The stored form of an Aerodrome pool read member by member from `p`:
/// missing ids and symbols are empty, a missing fee tier is "0", a missing
/// liquidity or value locked is "0".
pub open spec fn aerodrome_unified(p: JsonValue, label: Seq<char>) -> UnifiedPoolView {
    let fee = fee_or_zero(text_or(str_at(p, "feeTier"@), "0"@));
    let liquidity = text_or(str_at(p, "liquidity"@), "0"@);
    let tvl = text_or(str_at(p, "totalValueLockedUSD"@), "0"@);
    let token0 = json_index(p, "token0"@);
    let token1 = json_index(p, "token1"@);
    UnifiedPoolView {
        id: text_or(str_at(p, "id"@), ""@),
        protocol: label,
        token0_id: text_or(str_at(token0, "id"@), ""@),
        token0_symbol: text_or(str_at(token0, "symbol"@), ""@),
        token1_id: text_or(str_at(token1, "id"@), ""@),
        token1_symbol: text_or(str_at(token1, "symbol"@), ""@),
        fee,
        decimals0: decimals_of(str_at(token0, "decimals"@)),
        decimals1: decimals_of(str_at(token1, "decimals"@)),
        raw_json: json_text(p),
        extra_data: amm_extra(aerodrome_amm(fee), liquidity, tvl),
        tvl_usd: tvl,
    }
}

/// Why a page of pools could not be read.
#[derive(Debug, Clone, Copy, PartialEq, Eq, Structural)]
pub enum ResponseError {
    /// The body is not a `GraphResponse<V3Data>`.
    V3Shape,
    /// The body has no `data.pools` array.
    AerodromePools,
    /// The body is not a `GraphResponse<V2Data>`.
    V2Shape,
    /// The body is not a `GraphResponse<V4Data>`.
    V4Shape,
}

impl ResponseError {
    /// The message that the fetcher reports for this error.
    pub open spec fn text(self) -> Seq<char> {
        match self {
            ResponseError::V3Shape => "解析 UniV3 数据结构失败"@,
            ResponseError::AerodromePools => "AerodromeV3: 缺少 data.pools 数组"@,
            ResponseError::V2Shape => "解析 V2 数据结构失败"@,
            ResponseError::V4Shape => "解析 V4 数据结构失败"@,
        }
    }

    /// The message that the fetcher reports for this error.
    pub fn message(&self) -> (r: &'static str)
        ensures
            r@ == self.text(),
    {
        match self {
            ResponseError::V3Shape => "解析 UniV3 数据结构失败",
            ResponseError::AerodromePools => "AerodromeV3: 缺少 data.pools 数组",
            ResponseError::V2Shape => "解析 V2 数据结构失败",
            ResponseError::V4Shape => "解析 V4 数据结构失败",
        }
    }
}

/// The pools of one page in stored form, or why the page cannot be read.
pub open spec fn response_pools(protocol: Protocol, body: JsonValue) -> Result<
    Seq<UnifiedPoolView>,
    ResponseError,
> {
    let label = protocol.label();
    match protocol {
        Protocol::UniV3 => match v3_response_from_json(body) {
            Some(ps) => Ok(ps.map_values(|p: V3PoolView| v3_unified(p, label))),
            None => Err(ResponseError::V3Shape),
        },
        Protocol::AerodromeV3 => match json_index(json_index(body, "data"@), "pools"@) {
            JsonValue::Array(items) => Ok(
                items@.map_values(|p: JsonValue| aerodrome_unified(p, label)),
            ),
            _ => Err(ResponseError::AerodromePools),
        },
        Protocol::UniV2 => match v2_response_from_json(body) {
            Some(ps) => Ok(ps.map_values(|p: V2PairView| v2_unified(p, label))),
            None => Err(ResponseError::V2Shape),
        },
        Protocol::UniV4 | Protocol::PancakeV4 => match v4_response_from_json(body) {
            Some(ps) => Ok(ps.map_values(|p: V4PoolView| v4_unified(p, label))),
            None => Err(ResponseError::V4Shape),
        },
    }
}

/// Reads token decimals from the subgraph's text.
pub fn parse_decimals(raw: &Option<String>) -> (r: Option<u8>)
    ensures
        r == decimals_of(opt_text(*raw)),
{
    match raw {
        Some(t) => parse_u8(t.as_str()),
        None => None,
    }
}

fn fee_from_text(t: &str) -> (r: u32)
    ensures
        r == fee_or_zero(t@),
{
    match parse_u32(t) {
        Some(v) => v,
        None => 0,
    }
}

fn amm_extra_text(amm: &str, liquidity: &str, tvl: &str) -> (r: String)
    ensures
        r@ == amm_extra(amm@, liquidity@, tvl@),
{
    let mut out = String::from_str("{\"amm_type\":");
    push_quoted(&mut out, amm);
    out.append(",\"liquidity\":");
    push_quoted(&mut out, liquidity);
    out.append(",\"tvl_usd\":");
    push_quoted(&mut out, tvl);
    out.append("}");
    assert(out@ =~= amm_extra(amm@, liquidity@, tvl@));
    out
}

fn v2_extra_text(reserve: &str) -> (r: String)
    ensures
        r@ == v2_extra(reserve@),
{
    let mut out = String::from_str("{\"reserveUSD\":");
    push_quoted(&mut out, reserve);
    out.append("}");
    assert(out@ =~= v2_extra(reserve@));
    out
}

fn v4_extra_text(hooks: &str, liquidity: &str, tvl: &str) -> (r: String)
    ensures
        r@ == v4_extra(hooks@, liquidity@, tvl@),
{
    let mut out = String::from_str("{\"hooks\":");
    push_quoted(&mut out, hooks);
    out.append(",\"liquidity\":");
    push_quoted(&mut out, liquidity);
    out.append(",\"tvl_usd\":");
    push_quoted(&mut out, tvl);
    out.append(",\"version\":\"v4\"}");
    assert(out@ =~= v4_extra(hooks@, liquidity@, tvl@));
    out
}

fn v3_unified_pool(p: &V3Pool, label: &str) -> (r: UnifiedPool)
    ensures
        r@ == v3_unified(p@, label@),
{
    UnifiedPool {
        id: p.id.clone(),
        protocol: String::from_str(label),
        token0_id: p.token0.id.clone(),
        token0_symbol: p.token0.symbol.clone(),
        token1_id: p.token1.id.clone(),
        token1_symbol: p.token1.symbol.clone(),
        fee: fee_from_text(p.feeTier.as_str()),
        decimals0: parse_decimals(&p.token0.decimals),
        decimals1: parse_decimals(&p.token1.decimals),
        raw_json: v3_pool_to_text(p),
        extra_data: amm_extra_text("vAMM", p.liquidity.as_str(), p.totalValueLockedUSD.as_str()),
        tvl_usd: p.totalValueLockedUSD.clone(),
    }
}

fn v2_unified_pool(p: &V2Pair, label: &str) -> (r: UnifiedPool)
    ensures
        r@ == v2_unified(p@, label@),
{
    UnifiedPool {
        id: p.id.clone(),
        protocol: String::from_str(label),
        token0_id: p.token0.id.clone(),
        token0_symbol: p.token0.symbol.clone(),
        token1_id: p.token1.id.clone(),
        token1_symbol: p.token1.symbol.clone(),
        fee: 3000,
        decimals0: parse_decimals(&p.token0.decimals),
        decimals1: parse_decimals(&p.token1.decimals),
        raw_json: v2_pair_to_text(p),
        extra_data: v2_extra_text(p.reserveUSD.as_str()),
        tvl_usd: p.reserveUSD.clone(),
    }
}

fn v4_unified_pool(p: &V4Pool, label: &str) -> (r: UnifiedPool)
    ensures
        r@ == v4_unified(p@, label@),
{
    UnifiedPool {
        id: p.id.clone(),
        protocol: String::from_str(label),
        token0_id: p.token0.id.clone(),
        token0_symbol: p.token0.symbol.clone(),
        token1_id: p.token1.id.clone(),
        token1_symbol: p.token1.symbol.clone(),
        fee: fee_from_text(p.feeTier.as_str()),
        decimals0: parse_decimals(&p.token0.decimals),
        decimals1: parse_decimals(&p.token1.decimals),
        raw_json: v4_pool_to_text(p),
        extra_data: v4_extra_text(p.hooks.as_str(), p.liquidity.as_str(), p.totalValueLockedUSD.as_str()),
        tvl_usd: p.totalValueLockedUSD.clone(),
    }
}

fn str_member<'a>(v: &'a JsonValue, key: &str) -> (r: Option<&'a str>)
    ensures
        match r {
            Some(s) => str_at(*v, key@) == Some(s@),
            None => str_at(*v, key@) is None,
        },
{
    match v.get(key) {
        Some(x) => x.as_str(),
        None => None,
    }
}

fn str_member_or<'a>(v: &'a JsonValue, key: &str, default: &'a str) -> (r: &'a str)
    ensures
        r@ == text_or(str_at(*v, key@), default@),
{
    match str_member(v, key) {
        Some(s) => s,
        None => default,
    }
}

fn token_member_str<'a>(v: &'a JsonValue, token: &str, key: &str) -> (r: Option<&'a str>)
    ensures
        match r {
            Some(s) => str_at(json_index(*v, token@), key@) == Some(s@),
            None => str_at(json_index(*v, token@), key@) is None,
        },
{
    match v.get(token) {
        Some(t) => str_member(t, key),
        None => None,
    }
}

fn aerodrome_unified_pool(p: &JsonValue, label: &str) -> (r: UnifiedPool)
    ensures
        r@ == aerodrome_unified(*p, label@),
{
    let fee = fee_from_text(str_member_or(p, "feeTier", "0"));
    let liquidity = str_member_or(p, "liquidity", "0");
    let tvl = str_member_or(p, "totalValueLockedUSD", "0");
    let amm = if fee <= 5 { "sAMM" } else { "vAMM" };
    let t0_id = match token_member_str(p, "token0", "id") { Some(s) => s, None => "" };
    let t0_sym = match token_member_str(p, "token0", "symbol") { Some(s) => s, None => "" };
    let t1_id = match token_member_str(p, "token1", "id") { Some(s) => s, None => "" };
    let t1_sym = match token_member_str(p, "token1", "symbol") { Some(s) => s, None => "" };
    let t0_dec = match token_member_str(p, "token0", "decimals") {
        Some(s) => parse_u8(s),
        None => None,
    };
    let t1_dec = match token_member_str(p, "token1", "decimals") {
        Some(s) => parse_u8(s),
        None => None,
    };
    UnifiedPool {
        id: String::from_str(str_member_or(p, "id", "")),
        protocol: String::from_str(label),
        token0_id: String::from_str(t0_id),
        token0_symbol: String::from_str(t0_sym),
        token1_id: String::from_str(t1_id),
        token1_symbol: String::from_str(t1_sym),
        fee,
        decimals0: t0_dec,
        decimals1: t1_dec,
        raw_json: to_json_text(p),
        extra_data: amm_extra_text(amm, liquidity, tvl),
        tvl_usd: String::from_str(tvl),
    }
}


/// Reads one page of a subgraph's answer into pools in stored form, with the
/// number of pools the page held.
pub fn parse_response(protocol: &Protocol, body: JsonValue) -> (r: Result<(Vec<UnifiedPool>, usize), ResponseError>)
    ensures
        match r {
            Ok((pools, count)) => response_pools(*protocol, body) == Ok::<Seq<UnifiedPoolView>, ResponseError>(pools@.map_values(|p: UnifiedPool| p@))
                && count == pools@.len(),
            Err(e) => response_pools(*protocol, body) == Err::<Seq<UnifiedPoolView>, ResponseError>(e),
        },
{
    let label = protocol.as_str();
    let mut pools: Vec<UnifiedPool> = Vec::new();
    match protocol {
        Protocol::UniV3 => {
            let data = match v3_response_from_value(&body) {
                Some(g) => g.data.pools,
                None => return Err(ResponseError::V3Shape),
            };
            let mut i: usize = 0;
            while i < data.len()
                invariant
                    i <= data.len(),
                    pools@.len() == i,
                    forall|j: int| 0 <= j < i ==> #[trigger] pools@[j]@ == v3_unified(data@[j]@, label@),
                decreases data.len() - i,
            {
                pools.push(v3_unified_pool(&data[i], label));
                i = i + 1;
            }
            assert(pools@.map_values(|p: UnifiedPool| p@) =~= data@.map_values(|p: V3Pool| p@).map_values(|p: V3PoolView| v3_unified(p, label@)));
        },
        Protocol::AerodromeV3 => {
            let items = match body.get("data") {
                Some(d) => match d.get("pools") {
                    Some(ps) => ps.as_array(),
                    None => None,
                },
                None => None,
            };
            let items = match items {
                Some(a) => a,
                None => return Err(ResponseError::AerodromePools),
            };
            let mut i: usize = 0;
            while i < items.len()
                invariant
                    i <= items.len(),
                    pools@.len() == i,
                    forall|j: int| 0 <= j < i ==> #[trigger] pools@[j]@ == aerodrome_unified(items@[j], label@),
                decreases items.len() - i,
            {
                pools.push(aerodrome_unified_pool(&items[i], label));
                i = i + 1;
            }
            assert(pools@.map_values(|p: UnifiedPool| p@) =~= items@.map_values(|p: JsonValue| aerodrome_unified(p, label@)));
        },
        Protocol::UniV2 => {
            let data = match v2_response_from_value(&body) {
                Some(g) => g.data.pairs,
                None => return Err(ResponseError::V2Shape),
            };
            let mut i: usize = 0;
            while i < data.len()
                invariant
                    i <= data.len(),
                    pools@.len() == i,
                    forall|j: int| 0 <= j < i ==> #[trigger] pools@[j]@ == v2_unified(data@[j]@, label@),
                decreases data.len() - i,
            {
                pools.push(v2_unified_pool(&data[i], label));
                i = i + 1;
            }
            assert(pools@.map_values(|p: UnifiedPool| p@) =~= data@.map_values(|p: V2Pair| p@).map_values(|p: V2PairView| v2_unified(p, label@)));
        },
        Protocol::UniV4 | Protocol::PancakeV4 => {
            let data = match v4_response_from_value(&body) {
                Some(g) => g.data.pools,
                None => return Err(ResponseError::V4Shape),
            };
            let mut i: usize = 0;
            while i < data.len()
                invariant
                    i <= data.len(),
                    pools@.len() == i,
                    forall|j: int| 0 <= j < i ==> #[trigger] pools@[j]@ == v4_unified(data@[j]@, label@),
                decreases data.len() - i,
            {
                pools.push(v4_unified_pool(&data[i], label));
                i = i + 1;
            }
            assert(pools@.map_values(|p: UnifiedPool| p@) =~= data@.map_values(|p: V4Pool| p@).map_values(|p: V4PoolView| v4_unified(p, label@)));
        },
    }
    let count = pools.len();
    Ok((pools, count))
}

// ---------------------------------------------------------------------------
// The fetch loop
// ---------------------------------------------------------------------------

/// Where the fetch loop stands.
#[derive(Debug, Clone, Copy, PartialEq, Eq, Structural)]
pub enum FetchPhase {
    /// Before a page: waiting to be resumed.
    Ready,
    /// A request for the current page is out.
    Requesting,
    /// The current page's body is being read.
    Parsing,
    /// The current page's kept pools are being stored.
    Storing,
    /// The task has ended.
    Done,
}

/// What happened since the last action.
#[derive(Debug, Clone, Copy, PartialEq, Eq, Structural)]
pub enum FetchEvent {
    /// Start the task, or go on after the pause between pages.
    Resume,
    /// The request was not answered.
    RequestFailed,
    /// The answer's body is not JSON.
    BodyUnreadable,
    /// The answer's body: whether it has a `data` member that is not null, and
    /// whether it has an `errors` member.
    Body { has_data: bool, has_errors: bool },
    /// The page was read: it held `fetched` pools, of which `kept` reach the
    /// value-locked threshold.
    Parsed { fetched: usize, kept: usize },
    /// The page could not be read.
    ParseFailed,
    /// The kept pools were stored.
    Stored,
    /// The kept pools could not be stored.
    StoreFailed,
}

/// Why the task stopped with an error.
#[derive(Debug, Clone, Copy, PartialEq, Eq, Structural)]
pub enum FetchFailure {
    /// Requests kept failing.
    Request,
    /// Bodies kept failing to be read as JSON.
    Body,
    /// A body had neither `data` nor `errors`.
    MissingData,
    /// A page could not be read into pools.
    Parse,
    /// Pools could not be stored.
    Store,
}

/// Why the task ended normally.
#[derive(Debug, Clone, Copy, PartialEq, Eq, Structural)]
pub enum FinishReason {
    /// At least [`MAX_POOLS`] pools were stored.
    LimitReached,
    /// A page held fewer than [`BATCH_SIZE`] pools: the subgraph has no more.
    LastPage,
}

/// What the fetch loop asks to be done next.
pub enum FetchAction {
    /// Wait `delay_secs` seconds, then send `query`.
    Send { query: String, delay_secs: u64 },
    /// Read the body as a page of pools; `warn` where it also had errors.
    Parse { warn: bool },
    /// Store the kept pools of the page.
    Store,
    /// Wait `delay_millis` milliseconds, then resume.
    Pause { delay_millis: u64 },
    /// The task is complete.
    Finish(FinishReason),
    /// The subgraph keeps answering with errors and no data: the task ends
    /// without error and without its closing report.
    GiveUp,
    /// The task ends with an error.
    Fail(FetchFailure),
}

/// The model of a [`FetchAction`].
pub enum FetchActionView {
    Send { query: Seq<char>, delay_secs: nat },
    Parse { warn: bool },
    Store,
    Pause { delay_millis: nat },
    Finish(FinishReason),
    GiveUp,
    Fail(FetchFailure),
}

impl View for FetchAction {
    type V = FetchActionView;

    open spec fn view(&self) -> FetchActionView {
        match self {
            FetchAction::Send { query, delay_secs } => FetchActionView::Send {
                query: query@,
                delay_secs: *delay_secs as nat,
            },
            FetchAction::Parse { warn } => FetchActionView::Parse { warn: *warn },
            FetchAction::Store => FetchActionView::Store,
            FetchAction::Pause { delay_millis } => FetchActionView::Pause {
                delay_millis: *delay_millis as nat,
            },
            FetchAction::Finish(r) => FetchActionView::Finish(*r),
            FetchAction::GiveUp => FetchActionView::GiveUp,
            FetchAction::Fail(f) => FetchActionView::Fail(*f),
        }
    }
}

/// Two to the power `k`.
pub open spec fn two_pow(k: nat) -> nat
    decreases k,
{
    if k == 0 {
        1
    } else {
        2 * two_pow((k - 1) as nat)
    }
}

/// The state of the fetch loop of one protocol.
///
/// `page_count` counts the pages begun, `skip` the pools asked past so far,
/// `attempts` the requests sent for the current page, `graphql_retries` the
/// answers of the current page that had errors and no data; `fetched` and
/// `kept` are the counts of the page being stored. Where `start_id` is given,
/// every page is taken among the pools whose id is greater than it (see
/// [`id_filter`] for what resuming does and does not do).
#[derive(Debug, Clone)]
pub struct FetchState {
    pub protocol: Protocol,
    pub start_id: Option<String>,
    pub phase: FetchPhase,
    pub total_saved: usize,
    pub skip: usize,
    pub page_count: usize,
    pub attempts: u32,
    pub graphql_retries: u32,
    pub fetched: usize,
    pub kept: usize,
}

/// The state after a page has been dealt with: the next page starts
/// [`BATCH_SIZE`] pools further; a short page is the last one, else the loop
/// pauses before the next.
pub open spec fn end_page(s: FetchState, fetched: nat) -> (FetchState, FetchActionView) {
    let s2 = FetchState { skip: (s.skip + BATCH_SIZE) as usize, ..s };
    if fetched < BATCH_SIZE {
        (FetchState { phase: FetchPhase::Done, ..s2 }, FetchActionView::Finish(FinishReason::LastPage))
    } else {
        (FetchState { phase: FetchPhase::Ready, ..s2 }, FetchActionView::Pause { delay_millis: 200 })
    }
}

/// The request for the current page again, after `delay` seconds.
pub open spec fn resend(s: FetchState, delay: nat) -> FetchActionView {
    FetchActionView::Send {
        query: query_text_from(s.protocol, s.skip as nat, BATCH_SIZE as nat, opt_text(s.start_id)),
        delay_secs: delay,
    }
}

/// The fetch loop's answer to an event: the next state and the action.
pub open spec fn transition(s: FetchState, e: FetchEvent) -> (FetchState, FetchActionView) {
    match e {
        FetchEvent::Resume => if s.total_saved >= MAX_POOLS {
            (FetchState { phase: FetchPhase::Done, ..s }, FetchActionView::Finish(FinishReason::LimitReached))
        } else {
            let s2 = FetchState {
                phase: FetchPhase::Requesting,
                page_count: (s.page_count + 1) as usize,
                attempts: 1,
                graphql_retries: 0,
                ..s
            };
            (s2, resend(s2, 0))
        },
        FetchEvent::RequestFailed => if s.attempts >= MAX_RETRIES {
            (FetchState { phase: FetchPhase::Done, ..s }, FetchActionView::Fail(FetchFailure::Request))
        } else {
            (FetchState { attempts: (s.attempts + 1) as u32, ..s }, resend(s, two_pow(s.attempts as nat)))
        },
        FetchEvent::BodyUnreadable => if s.attempts >= MAX_RETRIES {
            (FetchState { phase: FetchPhase::Done, ..s }, FetchActionView::Fail(FetchFailure::Body))
        } else {
            (FetchState { attempts: (s.attempts + 1) as u32, ..s }, resend(s, two_pow(s.attempts as nat)))
        },
        FetchEvent::Body { has_data, has_errors } => if has_data {
            (FetchState { phase: FetchPhase::Parsing, ..s }, FetchActionView::Parse { warn: has_errors })
        } else if !has_errors {
            (FetchState { phase: FetchPhase::Done, ..s }, FetchActionView::Fail(FetchFailure::MissingData))
        } else if s.graphql_retries + 1 <= MAX_RETRIES {
            let s2 = FetchState {
                attempts: (s.attempts + 1) as u32,
                graphql_retries: (s.graphql_retries + 1) as u32,
                ..s
            };
            (s2, resend(s, two_pow((s.graphql_retries + 1) as nat)))
        } else {
            (
                FetchState { phase: FetchPhase::Done, graphql_retries: (s.graphql_retries + 1) as u32, ..s },
                FetchActionView::GiveUp,
            )
        },
        FetchEvent::Parsed { fetched, kept } => if fetched > 0 && kept > 0 {
            (FetchState { phase: FetchPhase::Storing, fetched, kept, ..s }, FetchActionView::Store)
        } else {
            end_page(s, fetched as nat)
        },
        FetchEvent::ParseFailed => (FetchState { phase: FetchPhase::Done, ..s }, FetchActionView::Fail(FetchFailure::Parse)),
        FetchEvent::Stored => end_page(
            FetchState { total_saved: (s.total_saved + s.kept) as usize, ..s },
            s.fetched as nat,
        ),
        FetchEvent::StoreFailed => (FetchState { phase: FetchPhase::Done, ..s }, FetchActionView::Fail(FetchFailure::Store)),
    }
}

/// Whether the loop, standing where it does, expects the event.
pub open spec fn accepts(s: FetchState, e: FetchEvent) -> bool {
    match s.phase {
        FetchPhase::Ready => e is Resume,
        FetchPhase::Requesting => e is RequestFailed || e is BodyUnreadable || e is Body,
        FetchPhase::Parsing => match e {
            FetchEvent::Parsed { fetched, kept } => kept <= fetched,
            FetchEvent::ParseFailed => true,
            _ => false,
        },
        FetchPhase::Storing => e is Stored || e is StoreFailed,
        FetchPhase::Done => false,
    }
}

/// Whether the event closes the current page.
pub open spec fn ends_page(s: FetchState, e: FetchEvent) -> bool {
    match e {
        FetchEvent::Parsed { fetched, kept } => !(fetched > 0 && kept > 0),
        FetchEvent::Stored => true,
        _ => false,
    }
}

/// What a state of the loop keeps: at most `MAX_RETRIES` error answers are
/// retried and at most `2 * MAX_RETRIES` requests sent per page; `skip` is `BATCH_SIZE` times the pages
/// finished; during a page fewer than `MAX_POOLS` pools are stored and the
/// page being stored keeps no more pools than it held.
pub open spec fn wf(s: FetchState) -> bool {
    &&& s.graphql_retries <= MAX_RETRIES + 1
    &&& s.attempts <= 2 * MAX_RETRIES
    &&& s.kept <= s.fetched
    &&& match s.phase {
        FetchPhase::Ready => s.skip == BATCH_SIZE * s.page_count,
        FetchPhase::Done => true,
        _ => {
            &&& s.page_count >= 1
            &&& s.skip == BATCH_SIZE * (s.page_count - 1)
            &&& s.total_saved < MAX_POOLS
            &&& 1 <= s.attempts
            &&& s.graphql_retries <= MAX_RETRIES
            &&& s.attempts <= MAX_RETRIES + s.graphql_retries
        },
    }
}

fn backoff_secs(k: u32) -> (r: u64)
    requires
        k <= 2 * MAX_RETRIES,
    ensures
        r as nat == two_pow(k as nat),
{
    let mut r: u64 = 1;
    let mut i: u32 = 0;
    while i < k
        invariant
            i <= k <= 10,
            r as nat == two_pow(i as nat),
            r <= 1024,
        decreases k - i,
    {
        proof {
            if i < 10 {
                assert(two_pow((i + 1) as nat) == 2 * two_pow(i as nat));
            }
        }
        assert(r * 2 <= 1024) by {
            assert(r as nat == two_pow(i as nat));
            lemma_two_pow_bound(i as nat);
        }
        r = r * 2;
        i = i + 1;
    }
    r
}

proof fn lemma_two_pow_bound(k: nat)
    requires
        k < 10,
    ensures
        two_pow(k) * 2 <= 1024,
{
    lemma_two_pow_monotone(k, 9);
    reveal_with_fuel(two_pow, 10);
    assert(two_pow(9) == 512);
}

proof fn lemma_two_pow_monotone(i: nat, j: nat)
    requires
        i <= j,
    ensures
        two_pow(i) <= two_pow(j),
    decreases j,
{
    if i < j {
        lemma_two_pow_monotone(i, (j - 1) as nat);
    }
}

/// The loop of `protocol` before its first page, resuming after `start_id`
/// where one is given.
pub open spec fn initial_state(protocol: Protocol, start_id: Option<String>) -> FetchState {
    FetchState {
        protocol,
        start_id,
        phase: FetchPhase::Ready,
        total_saved: 0,
        skip: 0,
        page_count: 0,
        attempts: 0,
        graphql_retries: 0,
        fetched: 0,
        kept: 0,
    }
}

/// The first request of a fetch: without a start id it is the query for the
/// first page of all pools; with one it is the query for the first page of
/// the pools after it, which is a different query.
pub proof fn lemma_first_request(protocol: Protocol, start_id: Option<String>)
    ensures
        transition(initial_state(protocol, start_id), FetchEvent::Resume).1 == (FetchActionView::Send {
            query: query_text_from(protocol, 0, BATCH_SIZE as nat, opt_text(start_id)),
            delay_secs: 0,
        }),
        start_id is None ==> query_text_from(protocol, 0, BATCH_SIZE as nat, opt_text(start_id))
            == query_text(protocol, 0, BATCH_SIZE as nat),
        start_id is Some ==> query_text_from(protocol, 0, BATCH_SIZE as nat, opt_text(start_id))
            != query_text(protocol, 0, BATCH_SIZE as nat),
{
    if let Some(id) = start_id {
        reveal_strlit(", where: { id_gt: ");
        assert(id_filter(opt_text(start_id)).len() > 0);
        assert(id_filter(None).len() == 0);
        assert(query_text_from(protocol, 0, BATCH_SIZE as nat, opt_text(start_id)).len()
            > query_text(protocol, 0, BATCH_SIZE as nat).len());
    }
}

impl FetchState {
    /// The loop of `protocol` before its first page, resuming after
    /// `start_id` where one is given.
    pub fn new(protocol: Protocol, start_id: Option<String>) -> (r: FetchState)
        ensures
            r == initial_state(protocol, start_id),
            wf(r),
    {
        FetchState {
            protocol,
            start_id,
            phase: FetchPhase::Ready,
            total_saved: 0,
            skip: 0,
            page_count: 0,
            attempts: 0,
            graphql_retries: 0,
            fetched: 0,
            kept: 0,
        }
    }

    /// Whether the loop expects `e` now.
    pub fn accepts(&self, e: &FetchEvent) -> (r: bool)
        ensures
            r == accepts(*self, *e),
    {
        match self.phase {
            FetchPhase::Ready => match e {
                FetchEvent::Resume => true,
                _ => false,
            },
            FetchPhase::Requesting => match e {
                FetchEvent::RequestFailed | FetchEvent::BodyUnreadable | FetchEvent::Body { .. } => true,
                _ => false,
            },
            FetchPhase::Parsing => match e {
                FetchEvent::Parsed { fetched, kept } => *kept <= *fetched,
                FetchEvent::ParseFailed => true,
                _ => false,
            },
            FetchPhase::Storing => match e {
                FetchEvent::Stored | FetchEvent::StoreFailed => true,
                _ => false,
            },
            FetchPhase::Done => false,
        }
    }

    /// Whether the counters can absorb `e`: closing a page moves `skip` on by
    /// [`BATCH_SIZE`], storing adds the kept pools to `total_saved`.
    pub fn has_room_for(&self, e: &FetchEvent) -> (r: bool)
        ensures
            r == ((ends_page(*self, *e) ==> self.skip + BATCH_SIZE <= usize::MAX)
                && (*e is Stored ==> self.total_saved + self.kept <= usize::MAX)),
    {
        let page_room = self.skip <= usize::MAX - BATCH_SIZE;
        match e {
            FetchEvent::Parsed { fetched, kept } => (*fetched > 0 && *kept > 0) || page_room,
            FetchEvent::Stored => page_room && self.total_saved <= usize::MAX - self.kept,
            _ => true,
        }
    }

    fn request(&self, delay_secs: u64) -> (r: FetchAction)
        ensures
            r@ == (FetchActionView::Send {
                query: query_text_from(self.protocol, self.skip as nat, BATCH_SIZE as nat, opt_text(self.start_id)),
                delay_secs: delay_secs as nat,
            }),
    {
        let start: Option<&str> = match &self.start_id {
            Some(id) => Some(id.as_str()),
            None => None,
        };
        FetchAction::Send { query: build_query_from(&self.protocol, self.skip, BATCH_SIZE, start), delay_secs }
    }

    fn close_page(&mut self, fetched: usize) -> (a: FetchAction)
        requires
            old(self).skip + BATCH_SIZE <= usize::MAX,
        ensures
            (*final(self), a@) == end_page(*old(self), fetched as nat),
    {
        self.skip = self.skip + BATCH_SIZE;
        if fetched < BATCH_SIZE {
            self.phase = FetchPhase::Done;
            FetchAction::Finish(FinishReason::LastPage)
        } else {
            self.phase = FetchPhase::Ready;
            FetchAction::Pause { delay_millis: 200 }
        }
    }

    /// Answers an event: moves the loop on and says what to do next.
    pub fn step(&mut self, e: FetchEvent) -> (a: FetchAction)
        requires
            wf(*old(self)),
            accepts(*old(self), e),
            ends_page(*old(self), e) ==> old(self).skip + BATCH_SIZE <= usize::MAX,
            e is Stored ==> old(self).total_saved + old(self).kept <= usize::MAX,
        ensures
            (*final(self), a@) == transition(*old(self), e),
            wf(*final(self)),
    {
        match e {
            FetchEvent::Resume => {
                if self.total_saved >= MAX_POOLS {
                    self.phase = FetchPhase::Done;
                    FetchAction::Finish(FinishReason::LimitReached)
                } else {
                    self.phase = FetchPhase::Requesting;
                    self.page_count = self.page_count + 1;
                    self.attempts = 1;
                    self.graphql_retries = 0;
                    self.request(0)
                }
            },
            FetchEvent::RequestFailed | FetchEvent::BodyUnreadable => {
                if self.attempts >= MAX_RETRIES {
                    self.phase = FetchPhase::Done;
                    match e {
                        FetchEvent::RequestFailed => FetchAction::Fail(FetchFailure::Request),
                        _ => FetchAction::Fail(FetchFailure::Body),
                    }
                } else {
                    let a = self.request(backoff_secs(self.attempts));
                    self.attempts = self.attempts + 1;
                    a
                }
            },
            FetchEvent::Body { has_data, has_errors } => {
                if has_data {
                    self.phase = FetchPhase::Parsing;
                    FetchAction::Parse { warn: has_errors }
                } else if !has_errors {
                    self.phase = FetchPhase::Done;
                    FetchAction::Fail(FetchFailure::MissingData)
                } else if self.graphql_retries + 1 <= MAX_RETRIES {
                    let a = self.request(backoff_secs(self.graphql_retries + 1));
                    self.attempts = self.attempts + 1;
                    self.graphql_retries = self.graphql_retries + 1;
                    a
                } else {
                    self.phase = FetchPhase::Done;
                    self.graphql_retries = self.graphql_retries + 1;
                    FetchAction::GiveUp
                }
            },
            FetchEvent::Parsed { fetched, kept } => {
                if fetched > 0 && kept > 0 {
                    self.phase = FetchPhase::Storing;
                    self.fetched = fetched;
                    self.kept = kept;
                    FetchAction::Store
                } else {
                    self.close_page(fetched)
                }
            },
            FetchEvent::ParseFailed => {
                self.phase = FetchPhase::Done;
                FetchAction::Fail(FetchFailure::Parse)
            },
            FetchEvent::Stored => {
                self.total_saved = self.total_saved + self.kept;
                let fetched = self.fetched;
                self.close_page(fetched)
            },
            FetchEvent::StoreFailed => {
                self.phase = FetchPhase::Done;
                FetchAction::Fail(FetchFailure::Store)
            },
        }
    }
}

/// Every request the loop asks for is a page of [`BATCH_SIZE`] pools after
/// skipping [`BATCH_SIZE`] pools per page already finished, and it waits no
/// delay before the first attempt of a page and `2^k` seconds, with
/// `1 <= k <= MAX_RETRIES`, before a retry.
pub proof fn lemma_requests_follow_pages(s: FetchState, e: FetchEvent)
    requires
        wf(s),
        accepts(s, e),
    ensures
        transition(s, e).1 matches FetchActionView::Send { query, delay_secs } ==> {
            let s2 = transition(s, e).0;
            &&& s2.phase == FetchPhase::Requesting
            &&& query == query_text_from(
                s.protocol,
                (BATCH_SIZE * (s2.page_count - 1)) as nat,
                BATCH_SIZE as nat,
                opt_text(s.start_id),
            )
            &&& (delay_secs == 0 <==> e is Resume)
            &&& delay_secs != 0 ==> exists|k: nat| 1 <= k <= MAX_RETRIES && delay_secs == two_pow(k)
        },
{
    let (s2, a) = transition(s, e);
    if let FetchActionView::Send { query, delay_secs } = a {
        match e {
            FetchEvent::Resume => {},
            FetchEvent::RequestFailed | FetchEvent::BodyUnreadable => {
                lemma_two_pow_monotone(0, s.attempts as nat);
                assert(two_pow(0) == 1);
                assert(delay_secs == two_pow(s.attempts as nat));
            },
            FetchEvent::Body { .. } => {
                lemma_two_pow_monotone(0, (s.graphql_retries + 1) as nat);
                assert(two_pow(0) == 1);
                assert(delay_secs == two_pow((s.graphql_retries + 1) as nat));
            },
            _ => {},
        }
    }
}

/// The loop ends normally only when at least [`MAX_POOLS`] pools are stored,
/// or when a page held fewer than [`BATCH_SIZE`] pools; it gives up only on
/// an error answer after [`MAX_RETRIES`] retried ones; it fails on a request
/// or unreadable body only after [`MAX_RETRIES`] requests of the page.
pub proof fn lemma_endings(s: FetchState, e: FetchEvent)
    requires
        wf(s),
        accepts(s, e),
    ensures
        transition(s, e).1 == FetchActionView::Finish(FinishReason::LimitReached) ==> s.total_saved >= MAX_POOLS,
        transition(s, e).1 == FetchActionView::Finish(FinishReason::LastPage) ==> match e {
            FetchEvent::Parsed { fetched, .. } => fetched < BATCH_SIZE,
            FetchEvent::Stored => s.fetched < BATCH_SIZE,
            _ => false,
        },
        transition(s, e).1 == FetchActionView::GiveUp ==> s.graphql_retries == MAX_RETRIES,
        transition(s, e).1 == FetchActionView::Fail(FetchFailure::Request) ==> s.attempts >= MAX_RETRIES,
        transition(s, e).1 == FetchActionView::Fail(FetchFailure::Body) ==> s.attempts >= MAX_RETRIES,
        (transition(s, e).1 is Finish || transition(s, e).1 is GiveUp || transition(s, e).1 is Fail)
            <==> transition(s, e).0.phase == FetchPhase::Done,
{
}

/// Pages advance by [`BATCH_SIZE`] exactly when one is closed, and the stored
/// count grows only when kept pools are stored, by their number.
pub proof fn lemma_progress(s: FetchState, e: FetchEvent)
    requires
        wf(s),
        accepts(s, e),
        ends_page(s, e) ==> s.skip + BATCH_SIZE <= usize::MAX,
        e is Stored ==> s.total_saved + s.kept <= usize::MAX,
    ensures
        transition(s, e).0.skip == (if ends_page(s, e) { s.skip + BATCH_SIZE } else { s.skip as int }),
        transition(s, e).0.total_saved == (if e is Stored { s.total_saved + s.kept } else { s.total_saved as int }),
        transition(s, e).0.protocol == s.protocol,
        transition(s, e).0.start_id == s.start_id,
{
}

/// Every pool read from a page is stored under the protocol's label; every
/// V2 pair has fee 3000; an Aerodrome pool is marked `sAMM` exactly when its
/// fee is at most 5; a page holds as many pools as the response lists.
pub proof fn lemma_response_pools(protocol: Protocol, body: JsonValue)
    ensures
        response_pools(protocol, body) matches Ok(ps) ==> {
            &&& forall|i: int| 0 <= i < ps.len() ==> (#[trigger] ps[i]).protocol == protocol.label()
            &&& protocol == Protocol::UniV2 ==> forall|i: int| 0 <= i < ps.len() ==> (#[trigger] ps[i]).fee == 3000
            &&& protocol == Protocol::AerodromeV3 ==> (json_index(json_index(body, "data"@), "pools"@) matches JsonValue::Array(items)
                && ps.len() == items@.len()
                && forall|i: int| 0 <= i < ps.len() ==> (#[trigger] ps[i]).extra_data == amm_extra(
                    aerodrome_amm(ps[i].fee),
                    text_or(str_at(items@[i], "liquidity"@), "0"@),
                    ps[i].tvl_usd,
                ))
        },
{
}

/// Whether a response body has a `data` member that is not null, and whether
/// it has an `errors` member.
pub open spec fn body_has_data(body: JsonValue) -> bool {
    json_get(body, "data"@) matches Some(d) && !(d is Null)
}

/// What a response body says to the fetch loop.
pub fn body_event(body: &JsonValue) -> (e: FetchEvent)
    ensures
        e == (FetchEvent::Body {
            has_data: body_has_data(*body),
            has_errors: json_get(*body, "errors"@) is Some,
        }),
{
    let has_data = match body.get("data") {
        Some(d) => !d.is_null(),
        None => false,
    };
    let has_errors = body.get("errors").is_some();
    FetchEvent::Body { has_data, has_errors }
}

proof fn lemma_query_separators(protocol: Protocol)
    ensures
        (", skip: "@).len() > 0 && (", skip: "@)[0] == ',',
        query_order(protocol).len() > 0 && query_order(protocol)[0] == ',',
{
    reveal_strlit(", skip: ");
    reveal_strlit(", orderBy: reserveUSD, orderDirection: desc");
    reveal_strlit(", orderBy: totalValueLockedUSD, orderDirection: desc");
}

proof fn lemma_query_regroup(h: Seq<char>, a: Seq<char>, sk: Seq<char>, b: Seq<char>, o: Seq<char>, f: Seq<char>, q: Seq<char>)
    ensures
        h + a + sk + b + o + f + q == h + (a + (sk + (b + (o + f + q)))),
        (h + (a + (sk + (b + (o + f + q))))).skip(h.len() as int) == a + (sk + (b + (o + f + q))),
        (sk + (b + (o + f + q))).skip(sk.len() as int) == b + (o + f + q),
{
    assert(h + a + sk + b + o + f + q =~= h + (a + (sk + (b + (o + f + q)))));
    assert((h + (a + (sk + (b + (o + f + q))))).skip(h.len() as int) =~= a + (sk + (b + (o + f + q))));
    assert((sk + (b + (o + f + q))).skip(sk.len() as int) =~= b + (o + f + q));
}

/// Distinct pages give distinct queries: a query determines the page size and
/// the number of pools skipped.
pub proof fn lemma_query_text_injective(
    protocol: Protocol,
    skip1: nat,
    first1: nat,
    skip2: nat,
    first2: nat,
    start_id: Option<Seq<char>>,
)
    requires
        query_text_from(protocol, skip1, first1, start_id) == query_text_from(protocol, skip2, first2, start_id),
    ensures
        skip1 == skip2,
        first1 == first2,
{
    let h = query_head(protocol);
    let sk: Seq<char> = ", skip: "@;
    let o = query_order(protocol);
    let f = id_filter(start_id);
    let q = query_fields(protocol);
    let (a1, a2) = (decimal_text(first1), decimal_text(first2));
    let (b1, b2) = (decimal_text(skip1), decimal_text(skip2));
    let tail = o + f + q;
    lemma_query_separators(protocol);
    lemma_query_regroup(h, a1, sk, b1, o, f, q);
    lemma_query_regroup(h, a2, sk, b2, o, f, q);
    lemma_decimal_text_digits(first1);
    lemma_decimal_text_digits(first2);
    lemma_decimal_text_digits(skip1);
    lemma_decimal_text_digits(skip2);
    assert((sk + (b1 + tail))[0] == ',');
    assert((sk + (b2 + tail))[0] == ',');
    lemma_digit_run_unique(a1, sk + (b1 + tail), a2, sk + (b2 + tail));
    lemma_decimal_text_injective(first1, first2);
    assert(tail[0] == ',');
    lemma_digit_run_unique(b1, tail, b2, tail);
    lemma_decimal_text_injective(skip1, skip2);
}

/// Whether two stored pools agree in every field but the protocol label.
pub open spec fn same_but_label(a: UnifiedPoolView, b: UnifiedPoolView) -> bool {
    &&& a.id == b.id
    &&& a.token0_id == b.token0_id
    &&& a.token0_symbol == b.token0_symbol
    &&& a.token1_id == b.token1_id
    &&& a.token1_symbol == b.token1_symbol
    &&& a.fee == b.fee
    &&& a.decimals0 == b.decimals0
    &&& a.decimals1 == b.decimals1
    &&& a.raw_json == b.raw_json
    &&& a.extra_data == b.extra_data
    &&& a.tvl_usd == b.tvl_usd
}

/// Uniswap V4 and PancakeSwap V4 pages are read alike: one is readable
/// exactly when the other is, and they give the same pools, which differ only
/// in their labels.
pub proof fn lemma_v4_protocols_agree(body: JsonValue)
    ensures
        response_pools(Protocol::UniV4, body) is Ok <==> response_pools(Protocol::PancakeV4, body) is Ok,
        response_pools(Protocol::UniV4, body) matches Ok(a) ==> response_pools(Protocol::PancakeV4, body) matches Ok(c)
            && a.len() == c.len()
            && forall|i: int| 0 <= i < a.len() ==> {
                &&& (#[trigger] a[i]).protocol == Protocol::UniV4.label()
                &&& c[i].protocol == Protocol::PancakeV4.label()
                &&& same_but_label(a[i], c[i])
            },
{
}

/// The `u32` that a fee text denotes, 0 where it denotes none.
pub open spec fn fee_text_value(t: Seq<char>) -> u32 {
    match parse_unsigned(t, 0xffff_ffff) {
        Some(n) => n as u32,
        None => 0,
    }
}

/// The `u8` that an optional decimals text denotes, if any.
pub open spec fn decimals_text_value(t: Option<Seq<char>>) -> Option<u8> {
    match t {
        Some(x) => match parse_unsigned(x, 255) {
            Some(n) => Some(n as u8),
            None => None,
        },
        None => None,
    }
}

/// Whether a stored pool names the given id and tokens, field for field.
pub open spec fn names_entry(u: UnifiedPoolView, id: Seq<char>, t0: TokenPartView, t1: TokenPartView) -> bool {
    &&& u.id == id
    &&& u.token0_id == t0.id
    &&& u.token0_symbol == t0.symbol
    &&& u.token1_id == t1.id
    &&& u.token1_symbol == t1.symbol
    &&& u.decimals0 == decimals_text_value(t0.decimals)
    &&& u.decimals1 == decimals_text_value(t1.decimals)
}

/// A Uniswap V3 page reads exactly when its body is a `GraphResponse<V3Data>`,
/// and then gives one pool per entry, in order: the entry's id, its token0's
/// id, symbol and decimals as token0, its token1's as token1, the fee its
/// `feeTier` denotes (0 where none), its value locked, the entry written back
/// as JSON, and as `extra_data` the AMM type `vAMM` with the entry's
/// liquidity and value locked.
pub proof fn lemma_v3_page_entries(body: JsonValue)
    ensures
        response_pools(Protocol::UniV3, body) is Ok <==> v3_response_from_json(body) is Some,
        response_pools(Protocol::UniV3, body) matches Ok(ps) ==> (v3_response_from_json(body) matches Some(d)
            && ps.len() == d.len()
            && forall|i: int| #![trigger ps[i]] 0 <= i < ps.len() ==> {
                &&& names_entry(ps[i], d[i].id, d[i].token0, d[i].token1)
                &&& ps[i].protocol == "V3"@
                &&& ps[i].fee == fee_text_value(d[i].feeTier)
                &&& ps[i].tvl_usd == d[i].totalValueLockedUSD
                &&& ps[i].raw_json == v3_pool_text(d[i])
                &&& ps[i].extra_data == "{\"amm_type\":"@ + quoted("vAMM"@) + ",\"liquidity\":"@
                    + quoted(d[i].liquidity) + ",\"tvl_usd\":"@ + quoted(d[i].totalValueLockedUSD) + "}"@
            }),
{
}

/// A Uniswap V2 page reads exactly when its body is a `GraphResponse<V2Data>`,
/// and then gives one pool per pair, in order: the pair's id and tokens, fee
/// 3000, its reserve as value locked, the pair written back as JSON, and its
/// reserve as `extra_data`.
pub proof fn lemma_v2_page_entries(body: JsonValue)
    ensures
        response_pools(Protocol::UniV2, body) is Ok <==> v2_response_from_json(body) is Some,
        response_pools(Protocol::UniV2, body) matches Ok(ps) ==> (v2_response_from_json(body) matches Some(d)
            && ps.len() == d.len()
            && forall|i: int| #![trigger ps[i]] 0 <= i < ps.len() ==> {
                &&& names_entry(ps[i], d[i].id, d[i].token0, d[i].token1)
                &&& ps[i].protocol == "V2"@
                &&& ps[i].fee == 3000
                &&& ps[i].tvl_usd == d[i].reserveUSD
                &&& ps[i].raw_json == v2_pair_text(d[i])
                &&& ps[i].extra_data == "{\"reserveUSD\":"@ + quoted(d[i].reserveUSD) + "}"@
            }),
{
}

/// A V4 page (Uniswap or PancakeSwap) reads exactly when its body is a
/// `GraphResponse<V4Data>`, and then gives one pool per entry, in order: the
/// entry's id and tokens, the fee its `feeTier` denotes, its value locked,
/// the entry written back as JSON, and as `extra_data` its hooks, liquidity,
/// value locked and version `v4`.
pub proof fn lemma_v4_page_entries(protocol: Protocol, body: JsonValue)
    requires
        protocol == Protocol::UniV4 || protocol == Protocol::PancakeV4,
    ensures
        response_pools(protocol, body) is Ok <==> v4_response_from_json(body) is Some,
        response_pools(protocol, body) matches Ok(ps) ==> (v4_response_from_json(body) matches Some(d)
            && ps.len() == d.len()
            && forall|i: int| #![trigger ps[i]] 0 <= i < ps.len() ==> {
                &&& names_entry(ps[i], d[i].id, d[i].token0, d[i].token1)
                &&& ps[i].protocol == (if protocol == Protocol::UniV4 { "V4"@ } else { "Pancake-V4"@ })
                &&& ps[i].fee == fee_text_value(d[i].feeTier)
                &&& ps[i].tvl_usd == d[i].totalValueLockedUSD
                &&& ps[i].raw_json == v4_pool_text(d[i])
                &&& ps[i].extra_data == "{\"hooks\":"@ + quoted(d[i].hooks) + ",\"liquidity\":"@
                    + quoted(d[i].liquidity) + ",\"tvl_usd\":"@ + quoted(d[i].totalValueLockedUSD)
                    + ",\"version\":\"v4\"}"@
            }),
{
}

/// The tokens of the `i`-th pool of a Uniswap V3, V2 or V4 page are the
/// `i`-th entry's `token0` and `token1`, in that order.
pub proof fn lemma_page_token_ids(protocol: Protocol, body: JsonValue, i: int)
    ensures
        protocol == Protocol::UniV3 ==> (response_pools(protocol, body) matches Ok(ps) ==> (v3_response_from_json(
            body,
        ) matches Some(d) && (0 <= i < ps.len() ==> ps[i].token0_id == d[i].token0.id && ps[i].token1_id
            == d[i].token1.id))),
        protocol == Protocol::UniV2 ==> (response_pools(protocol, body) matches Ok(ps) ==> (v2_response_from_json(
            body,
        ) matches Some(d) && (0 <= i < ps.len() ==> ps[i].token0_id == d[i].token0.id && ps[i].token1_id
            == d[i].token1.id))),
        (protocol == Protocol::UniV4 || protocol == Protocol::PancakeV4) ==> (response_pools(protocol, body) matches Ok(
            ps,
        ) ==> (v4_response_from_json(body) matches Some(d) && (0 <= i < ps.len() ==> ps[i].token0_id
            == d[i].token0.id && ps[i].token1_id == d[i].token1.id))),
{
}

/// The text of member `key` of `v` where it is a JSON string, `default`
/// where it is missing or no string.
pub open spec fn member_text_or(v: JsonValue, key: Seq<char>, default: Seq<char>) -> Seq<char> {
    match json_as_str(json_index(v, key)) {
        Some(t) => t,
        None => default,
    }
}

/// An Aerodrome page reads exactly when its body's `data.pools` is an array,
/// and then gives one pool per element, in order, each read member by
/// member: its `id`, its `token0` and `token1` ids and symbols (empty where
/// missing), their decimals, the fee its `feeTier` denotes ("0" where missing),
/// its value locked ("0" where missing), the element written back as JSON, and
/// as `extra_data` the AMM type (`sAMM` for a fee of at most 5, else `vAMM`)
/// with its liquidity ("0" where missing) and value locked.
pub proof fn lemma_aerodrome_page_entries(body: JsonValue)
    ensures
        response_pools(Protocol::AerodromeV3, body) is Ok
            <==> json_index(json_index(body, "data"@), "pools"@) is Array,
        response_pools(Protocol::AerodromeV3, body) matches Ok(ps)
            ==> (json_index(json_index(body, "data"@), "pools"@) matches JsonValue::Array(items)
            && ps.len() == items@.len()
            && forall|i: int| #![trigger ps[i]] 0 <= i < ps.len() ==> {
                let e = items@[i];
                let t0 = json_index(e, "token0"@);
                let t1 = json_index(e, "token1"@);
                let fee = fee_text_value(member_text_or(e, "feeTier"@, "0"@));
                &&& ps[i].id == member_text_or(e, "id"@, ""@)
                &&& ps[i].protocol == "Aerodrome-V3"@
                &&& ps[i].token0_id == member_text_or(t0, "id"@, ""@)
                &&& ps[i].token0_symbol == member_text_or(t0, "symbol"@, ""@)
                &&& ps[i].token1_id == member_text_or(t1, "id"@, ""@)
                &&& ps[i].token1_symbol == member_text_or(t1, "symbol"@, ""@)
                &&& ps[i].decimals0 == decimals_text_value(json_as_str(json_index(t0, "decimals"@)))
                &&& ps[i].decimals1 == decimals_text_value(json_as_str(json_index(t1, "decimals"@)))
                &&& ps[i].fee == fee
                &&& ps[i].tvl_usd == member_text_or(e, "totalValueLockedUSD"@, "0"@)
                &&& ps[i].raw_json == json_text(e)
                &&& ps[i].extra_data == "{\"amm_type\":"@ + quoted(if fee <= 5 { "sAMM"@ } else { "vAMM"@ })
                    + ",\"liquidity\":"@ + quoted(member_text_or(e, "liquidity"@, "0"@)) + ",\"tvl_usd\":"@
                    + quoted(member_text_or(e, "totalValueLockedUSD"@, "0"@)) + "}"@
            }),
{
}

/// Every page starts afresh: beginning a page (below the pool limit) resets
/// the request count to the first request and the count of retried error
/// answers to none, whatever the previous page used; so each page may retry
/// `MAX_RETRIES` error answers before the loop gives up.
pub proof fn lemma_page_starts_afresh(s: FetchState)
    requires
        wf(s),
        s.phase == FetchPhase::Ready,
        s.total_saved < MAX_POOLS,
    ensures
        transition(s, FetchEvent::Resume).0.graphql_retries == 0,
        transition(s, FetchEvent::Resume).0.attempts == 1,
        transition(s, FetchEvent::Resume).0.skip == s.skip,
        transition(s, FetchEvent::Resume).0.phase == FetchPhase::Requesting,
        transition(s, FetchEvent::Resume).0.page_count == s.page_count + 1,
{
}

/// An error answer without data, while fewer than `MAX_RETRIES` have been
/// retried on this page, is retried: the same page is asked for again after
/// `2^k` seconds, `k` being the number of error answers of the page so far.
pub proof fn lemma_error_answer_retried(s: FetchState)
    requires
        wf(s),
        s.phase == FetchPhase::Requesting,
        s.graphql_retries < MAX_RETRIES,
    ensures
        transition(s, FetchEvent::Body { has_data: false, has_errors: true }).1 == (FetchActionView::Send {
            query: query_text_from(s.protocol, s.skip as nat, BATCH_SIZE as nat, opt_text(s.start_id)),
            delay_secs: two_pow((s.graphql_retries + 1) as nat),
        }),
        transition(s, FetchEvent::Body { has_data: false, has_errors: true }).0.graphql_retries
            == s.graphql_retries + 1,
        transition(s, FetchEvent::Body { has_data: false, has_errors: true }).0.phase == FetchPhase::Requesting,
{
}

/// A request that was not answered, or answered with a body that is not
/// JSON, is sent again while fewer than `MAX_RETRIES` requests of the page
/// were sent: the same page, after `2^n` seconds for the `n`-th request of
/// the page; once `MAX_RETRIES` were sent the loop ends with that failure.
pub proof fn lemma_failed_request_retried(s: FetchState, e: FetchEvent)
    requires
        wf(s),
        s.phase == FetchPhase::Requesting,
        e is RequestFailed || e is BodyUnreadable,
    ensures
        s.attempts < MAX_RETRIES ==> transition(s, e).1 == (FetchActionView::Send {
            query: query_text_from(s.protocol, s.skip as nat, BATCH_SIZE as nat, opt_text(s.start_id)),
            delay_secs: two_pow(s.attempts as nat),
        }),
        s.attempts < MAX_RETRIES ==> transition(s, e).0.attempts == s.attempts + 1,
        s.attempts < MAX_RETRIES ==> transition(s, e).0.phase == FetchPhase::Requesting,
        s.attempts >= MAX_RETRIES ==> transition(s, e).1 == FetchActionView::Fail(
            if e is RequestFailed { FetchFailure::Request } else { FetchFailure::Body },
        ),
        s.attempts >= MAX_RETRIES ==> transition(s, e).0.phase == FetchPhase::Done,
{
}

/// What an answer's body leads to: one with data is read as a page (with a
/// warning where it also had errors); one with neither data nor errors ends
/// the loop with that failure; an error answer after `MAX_RETRIES` retried
/// ones of the page makes the loop give up.
pub proof fn lemma_body_outcomes(s: FetchState, has_data: bool, has_errors: bool)
    requires
        wf(s),
        s.phase == FetchPhase::Requesting,
    ensures
        has_data ==> transition(s, FetchEvent::Body { has_data, has_errors }).1 == (FetchActionView::Parse {
            warn: has_errors,
        }),
        has_data ==> transition(s, FetchEvent::Body { has_data, has_errors }).0.phase == FetchPhase::Parsing,
        !has_data && !has_errors ==> transition(s, FetchEvent::Body { has_data, has_errors }).1
            == FetchActionView::Fail(FetchFailure::MissingData),
        !has_data && has_errors && s.graphql_retries == MAX_RETRIES ==> transition(
            s,
            FetchEvent::Body { has_data, has_errors },
        ).1 == FetchActionView::GiveUp,
        !has_data ==> (transition(s, FetchEvent::Body { has_data, has_errors }).0.phase == FetchPhase::Done
            <==> !has_errors || s.graphql_retries == MAX_RETRIES),
{
}

/// How a page closes: a page of fewer than `BATCH_SIZE` pools is the last
/// one and ends the loop; after a full page the loop pauses 200 ms and is
/// ready for the next page, `BATCH_SIZE` pools further on. A page counts
/// what it held, however few of its pools were kept.
pub proof fn lemma_page_close(s: FetchState, e: FetchEvent)
    requires
        wf(s),
        accepts(s, e),
        ends_page(s, e),
    ensures
        ({
            let held: nat = match e {
                FetchEvent::Parsed { fetched, .. } => fetched as nat,
                _ => s.fetched as nat,
            };
            &&& held < BATCH_SIZE ==> transition(s, e).1 == FetchActionView::Finish(FinishReason::LastPage)
            &&& held < BATCH_SIZE ==> transition(s, e).0.phase == FetchPhase::Done
            &&& held >= BATCH_SIZE ==> transition(s, e).1 == (FetchActionView::Pause { delay_millis: 200 })
            &&& held >= BATCH_SIZE ==> transition(s, e).0.phase == FetchPhase::Ready
        }),
{
}

/// A page read with pools kept is stored next, its counts recorded; storing
/// them adds the kept pools, and no others, to the stored count.
pub proof fn lemma_kept_pools_stored(s: FetchState, fetched: usize, kept: usize)
    requires
        wf(s),
        s.phase == FetchPhase::Parsing,
        0 < kept <= fetched,
        s.total_saved + kept <= usize::MAX,
    ensures
        transition(s, FetchEvent::Parsed { fetched, kept }).1 == FetchActionView::Store,
        transition(s, FetchEvent::Parsed { fetched, kept }).0.phase == FetchPhase::Storing,
        transition(s, FetchEvent::Parsed { fetched, kept }).0.fetched == fetched,
        transition(s, FetchEvent::Parsed { fetched, kept }).0.kept == kept,
        transition(transition(s, FetchEvent::Parsed { fetched, kept }).0, FetchEvent::Stored).0.total_saved
            == s.total_saved + kept,
{
}

/// Once at least `MAX_POOLS` pools are stored, the loop asks for no other
/// page: it ends, with the limit as its reason.
pub proof fn lemma_limit_ends(s: FetchState)
    requires
        s.total_saved >= MAX_POOLS,
    ensures
        transition(s, FetchEvent::Resume).1 == FetchActionView::Finish(FinishReason::LimitReached),
        transition(s, FetchEvent::Resume).0.phase == FetchPhase::Done,
{
}

/// The retry delays in seconds: 2, 4, 8, 16 and 32 for the first to the
/// fifth retry.
pub proof fn lemma_backoff_delays()
    ensures
        two_pow(1) == 2,
        two_pow(2) == 4,
        two_pow(3) == 8,
        two_pow(4) == 16,
        two_pow(5) == 32,
{
    reveal_with_fuel(two_pow, 6);
}

} // verus!
