use vstd::prelude::*;
use crate::json::{json_as_str, json_get, json_index, push_quoted, quoted, JsonValue};
use crate::fetcher::member_text_or;
use crate::models::{
    opt_text, GraphResponse, V2Data, V3Data, V4Data, TokenPart, TokenPartView, V2Pair, V2PairView, V3Pool, V3PoolView, V4Pool, V4PoolView,
};

verus! {

// Reading the subgraph models out of JSON values, as the models' serde
// `Deserialize` derives do, and writing them back as compact JSON text, as their
// `Serialize` derives do.
//
// A struct is read from an object, by member names, or from an array, by field
// positions. From an object, unknown members are ignored, a missing `Option`
// field is `None` and a missing defaulted field is the empty string; from an
// array, elements past its end are allowed only for defaulted fields, and an
// array longer than the struct has fields is refused.

/// Field `k`, named `name`, of a struct read from `v`.
pub open spec fn slot(v: JsonValue, k: int, name: Seq<char>) -> Option<JsonValue> {
    match v {
        JsonValue::Object(_) => json_get(v, name),
        JsonValue::Array(a) => if 0 <= k < a@.len() {
            Some(a@[k])
        } else {
            None
        },
        _ => None,
    }
}

/// Whether `v` can hold a struct of `n` fields.
pub open spec fn shaped(v: JsonValue, n: nat) -> bool {
    match v {
        JsonValue::Object(_) => true,
        JsonValue::Array(a) => a@.len() <= n,
        _ => false,
    }
}

/// A required `String` field.
pub open spec fn required_text(v: JsonValue, k: int, name: Seq<char>) -> Option<Seq<char>> {
    match slot(v, k, name) {
        Some(JsonValue::Str(s)) => Some(s@),
        _ => None,
    }
}

/// A `String` field that is empty where it is missing.
pub open spec fn defaulted_text(v: JsonValue, k: int, name: Seq<char>) -> Option<Seq<char>> {
    match slot(v, k, name) {
        None => Some(Seq::empty()),
        Some(JsonValue::Str(s)) => Some(s@),
        Some(_) => None,
    }
}

/// An `Option<String>` field: `null`, or a member missing from an object, is
/// `None`.
pub open spec fn optional_text(v: JsonValue, k: int, name: Seq<char>) -> Option<Option<Seq<char>>> {
    match slot(v, k, name) {
        None => if v is Object {
            Some(None)
        } else {
            None
        },
        Some(JsonValue::Null) => Some(None),
        Some(JsonValue::Str(s)) => Some(Some(s@)),
        Some(_) => None,
    }
}

/// A [`TokenPart`] read from `v`.
pub open spec fn token_from_json(v: JsonValue) -> Option<TokenPartView> {
    let id = required_text(v, 0, "id"@);
    let symbol = required_text(v, 1, "symbol"@);
    let decimals = optional_text(v, 2, "decimals"@);
    if shaped(v, 3) && id is Some && symbol is Some && decimals is Some {
        Some(TokenPartView { id: id->0, symbol: symbol->0, decimals: decimals->0 })
    } else {
        None
    }
}

/// A [`TokenPart`] field.
pub open spec fn token_field(v: JsonValue, k: int, name: Seq<char>) -> Option<TokenPartView> {
    match slot(v, k, name) {
        Some(x) => token_from_json(x),
        None => None,
    }
}

/// A [`V3Pool`] read from `v`.
pub open spec fn v3_pool_from_json(v: JsonValue) -> Option<V3PoolView> {
    let id = required_text(v, 0, "id"@);
    let token0 = token_field(v, 1, "token0"@);
    let token1 = token_field(v, 2, "token1"@);
    let fee_tier = defaulted_text(v, 3, "feeTier"@);
    let liquidity = defaulted_text(v, 4, "liquidity"@);
    let tvl = defaulted_text(v, 5, "totalValueLockedUSD"@);
    if shaped(v, 6) && id is Some && token0 is Some && token1 is Some && fee_tier is Some
        && liquidity is Some && tvl is Some {
        Some(V3PoolView {
            id: id->0,
            token0: token0->0,
            token1: token1->0,
            feeTier: fee_tier->0,
            liquidity: liquidity->0,
            totalValueLockedUSD: tvl->0,
        })
    } else {
        None
    }
}

/// A [`V2Pair`] read from `v`.
pub open spec fn v2_pair_from_json(v: JsonValue) -> Option<V2PairView> {
    let id = required_text(v, 0, "id"@);
    let token0 = token_field(v, 1, "token0"@);
    let token1 = token_field(v, 2, "token1"@);
    let reserve = defaulted_text(v, 3, "reserveUSD"@);
    if shaped(v, 4) && id is Some && token0 is Some && token1 is Some && reserve is Some {
        Some(V2PairView { id: id->0, token0: token0->0, token1: token1->0, reserveUSD: reserve->0 })
    } else {
        None
    }
}

/// A [`V4Pool`] read from `v`.
pub open spec fn v4_pool_from_json(v: JsonValue) -> Option<V4PoolView> {
    let id = required_text(v, 0, "id"@);
    let token0 = token_field(v, 1, "token0"@);
    let token1 = token_field(v, 2, "token1"@);
    let fee_tier = defaulted_text(v, 3, "feeTier"@);
    let hooks = defaulted_text(v, 4, "hooks"@);
    let liquidity = defaulted_text(v, 5, "liquidity"@);
    let tvl = defaulted_text(v, 6, "totalValueLockedUSD"@);
    if shaped(v, 7) && id is Some && token0 is Some && token1 is Some && fee_tier is Some
        && hooks is Some && liquidity is Some && tvl is Some {
        Some(V4PoolView {
            id: id->0,
            token0: token0->0,
            token1: token1->0,
            feeTier: fee_tier->0,
            hooks: hooks->0,
            liquidity: liquidity->0,
            totalValueLockedUSD: tvl->0,
        })
    } else {
        None
    }
}

/// The one list field of a query's `data` (for example `pools`), read
/// from the response `body`: `body` holds a `data` struct, that struct holds
/// the list field, and the list is a JSON array.
pub open spec fn data_list(body: JsonValue, list: Seq<char>) -> Option<Seq<JsonValue>> {
    match slot(body, 0, "data"@) {
        Some(data) => if shaped(body, 1) && shaped(data, 1) {
            match slot(data, 0, list) {
                Some(JsonValue::Array(items)) => Some(items@),
                _ => None,
            }
        } else {
            None
        },
        None => None,
    }
}

/// Every element of `items` read as a [`V3Pool`]; nothing where one of them
/// cannot be read.
pub open spec fn v3_pools_from_json(items: Seq<JsonValue>) -> Option<Seq<V3PoolView>> {
    if forall|i: int| 0 <= i < items.len() ==> (#[trigger] v3_pool_from_json(items[i])) is Some {
        Some(Seq::new(items.len(), |i: int| v3_pool_from_json(items[i])->0))
    } else {
        None
    }
}

/// Every element of `items` read as a [`V2Pair`]; nothing where one of them
/// cannot be read.
pub open spec fn v2_pairs_from_json(items: Seq<JsonValue>) -> Option<Seq<V2PairView>> {
    if forall|i: int| 0 <= i < items.len() ==> (#[trigger] v2_pair_from_json(items[i])) is Some {
        Some(Seq::new(items.len(), |i: int| v2_pair_from_json(items[i])->0))
    } else {
        None
    }
}

/// Every element of `items` read as a [`V4Pool`]; nothing where one of them
/// cannot be read.
pub open spec fn v4_pools_from_json(items: Seq<JsonValue>) -> Option<Seq<V4PoolView>> {
    if forall|i: int| 0 <= i < items.len() ==> (#[trigger] v4_pool_from_json(items[i])) is Some {
        Some(Seq::new(items.len(), |i: int| v4_pool_from_json(items[i])->0))
    } else {
        None
    }
}

/// The pools of a `GraphResponse<V3Data>` read from `body`.
pub open spec fn v3_response_from_json(body: JsonValue) -> Option<Seq<V3PoolView>> {
    match data_list(body, "pools"@) {
        Some(items) => v3_pools_from_json(items),
        None => None,
    }
}

/// The pairs of a `GraphResponse<V2Data>` read from `body`.
pub open spec fn v2_response_from_json(body: JsonValue) -> Option<Seq<V2PairView>> {
    match data_list(body, "pairs"@) {
        Some(items) => v2_pairs_from_json(items),
        None => None,
    }
}

/// The pools of a `GraphResponse<V4Data>` read from `body`.
pub open spec fn v4_response_from_json(body: JsonValue) -> Option<Seq<V4PoolView>> {
    match data_list(body, "pools"@) {
        Some(items) => v4_pools_from_json(items),
        None => None,
    }
}


/// Whether member `key` of an object can be read as a defaulted text field:
/// missing, or a string.
pub open spec fn text_or_missing(v: JsonValue, key: Seq<char>) -> bool {
    json_get(v, key) is None || json_index(v, key) is Str
}

/// A token read from a JSON object: it reads exactly when its `id` and
/// `symbol` members are strings and its `decimals` member is a string,
/// `null` or missing; then each field is the member of that name.
pub proof fn lemma_token_object(v: JsonValue)
    requires
        v is Object,
    ensures
        token_from_json(v) is Some <==> (json_as_str(json_index(v, "id"@)) is Some
            && json_as_str(json_index(v, "symbol"@)) is Some
            && (json_index(v, "decimals"@) is Null || json_index(v, "decimals"@) is Str)),
        token_from_json(v) matches Some(t) ==> {
            &&& Some(t.id) == json_as_str(json_index(v, "id"@))
            &&& Some(t.symbol) == json_as_str(json_index(v, "symbol"@))
            &&& t.decimals == json_as_str(json_index(v, "decimals"@))
        },
{
}

/// A Uniswap V3 pool read from a JSON object: it reads exactly when its `id`
/// is a string, its `token0` and `token1` read as tokens, and its `feeTier`,
/// `liquidity` and `totalValueLockedUSD` are strings or missing; then each
/// field is the member of that name (the empty text where it is missing).
pub proof fn lemma_v3_pool_object(v: JsonValue)
    requires
        v is Object,
    ensures
        v3_pool_from_json(v) is Some <==> (json_as_str(json_index(v, "id"@)) is Some
            && token_from_json(json_index(v, "token0"@)) is Some
            && token_from_json(json_index(v, "token1"@)) is Some
            && text_or_missing(v, "feeTier"@) && text_or_missing(v, "liquidity"@)
            && text_or_missing(v, "totalValueLockedUSD"@)),
        v3_pool_from_json(v) matches Some(p) ==> {
            &&& Some(p.id) == json_as_str(json_index(v, "id"@))
            &&& Some(p.token0) == token_from_json(json_index(v, "token0"@))
            &&& Some(p.token1) == token_from_json(json_index(v, "token1"@))
            &&& p.feeTier == member_text_or(v, "feeTier"@, ""@)
            &&& p.liquidity == member_text_or(v, "liquidity"@, ""@)
            &&& p.totalValueLockedUSD == member_text_or(v, "totalValueLockedUSD"@, ""@)
        },
{
    reveal_strlit("");
}

/// A Uniswap V2 pair read from a JSON object: it reads exactly when its `id`
/// is a string, its `token0` and `token1` read as tokens, and its
/// `reserveUSD` is a string or missing; then each field is the member of that
/// name (the empty text where it is missing).
pub proof fn lemma_v2_pair_object(v: JsonValue)
    requires
        v is Object,
    ensures
        v2_pair_from_json(v) is Some <==> (json_as_str(json_index(v, "id"@)) is Some
            && token_from_json(json_index(v, "token0"@)) is Some
            && token_from_json(json_index(v, "token1"@)) is Some
            && text_or_missing(v, "reserveUSD"@)),
        v2_pair_from_json(v) matches Some(p) ==> {
            &&& Some(p.id) == json_as_str(json_index(v, "id"@))
            &&& Some(p.token0) == token_from_json(json_index(v, "token0"@))
            &&& Some(p.token1) == token_from_json(json_index(v, "token1"@))
            &&& p.reserveUSD == member_text_or(v, "reserveUSD"@, ""@)
        },
{
    reveal_strlit("");
}

/// A V4 pool read from a JSON object: it reads exactly when its `id` is a
/// string, its `token0` and `token1` read as tokens, and its `feeTier`,
/// `hooks`, `liquidity` and `totalValueLockedUSD` are strings or missing;
/// then each field is the member of that name (the empty text where it is
/// missing).
pub proof fn lemma_v4_pool_object(v: JsonValue)
    requires
        v is Object,
    ensures
        v4_pool_from_json(v) is Some <==> (json_as_str(json_index(v, "id"@)) is Some
            && token_from_json(json_index(v, "token0"@)) is Some
            && token_from_json(json_index(v, "token1"@)) is Some
            && text_or_missing(v, "feeTier"@) && text_or_missing(v, "hooks"@)
            && text_or_missing(v, "liquidity"@) && text_or_missing(v, "totalValueLockedUSD"@)),
        v4_pool_from_json(v) matches Some(p) ==> {
            &&& Some(p.id) == json_as_str(json_index(v, "id"@))
            &&& Some(p.token0) == token_from_json(json_index(v, "token0"@))
            &&& Some(p.token1) == token_from_json(json_index(v, "token1"@))
            &&& p.feeTier == member_text_or(v, "feeTier"@, ""@)
            &&& p.hooks == member_text_or(v, "hooks"@, ""@)
            &&& p.liquidity == member_text_or(v, "liquidity"@, ""@)
            &&& p.totalValueLockedUSD == member_text_or(v, "totalValueLockedUSD"@, ""@)
        },
{
    reveal_strlit("");
}

/// The pools of a response whose body and `data` are objects: its `data`
/// member's list member (`pools` or `pairs`) where that is an array.
pub proof fn lemma_data_list_object(body: JsonValue, list: Seq<char>)
    requires
        body is Object,
        json_index(body, "data"@) is Object,
    ensures
        data_list(body, list) == (match json_index(json_index(body, "data"@), list) {
            JsonValue::Array(items) => Some(items@),
            _ => None::<Seq<JsonValue>>,
        }),
{
}


fn slot_of<'a>(v: &'a JsonValue, k: usize, name: &str) -> (r: Option<&'a JsonValue>)
    ensures
        match r {
            Some(x) => slot(*v, k as int, name@) == Some(*x),
            None => slot(*v, k as int, name@) is None,
        },
{
    match v {
        JsonValue::Object(_) => v.get(name),
        JsonValue::Array(a) => if k < a.len() {
            Some(&a[k])
        } else {
            None
        },
        _ => None,
    }
}

fn is_shaped(v: &JsonValue, n: usize) -> (r: bool)
    ensures
        r == shaped(*v, n as nat),
{
    match v {
        JsonValue::Object(_) => true,
        JsonValue::Array(a) => a.len() <= n,
        _ => false,
    }
}

fn required_field(v: &JsonValue, k: usize, name: &str) -> (r: Option<String>)
    ensures
        match r {
            Some(s) => required_text(*v, k as int, name@) == Some(s@),
            None => required_text(*v, k as int, name@) is None,
        },
{
    match slot_of(v, k, name) {
        Some(JsonValue::Str(s)) => Some(s.clone()),
        _ => None,
    }
}

fn defaulted_field(v: &JsonValue, k: usize, name: &str) -> (r: Option<String>)
    ensures
        match r {
            Some(s) => defaulted_text(*v, k as int, name@) == Some(s@),
            None => defaulted_text(*v, k as int, name@) is None,
        },
{
    match slot_of(v, k, name) {
        None => Some(String::new()),
        Some(JsonValue::Str(s)) => Some(s.clone()),
        Some(_) => None,
    }
}

fn optional_field(v: &JsonValue, k: usize, name: &str) -> (r: Option<Option<String>>)
    ensures
        match r {
            Some(o) => optional_text(*v, k as int, name@) == Some(opt_text(o)),
            None => optional_text(*v, k as int, name@) is None,
        },
{
    match slot_of(v, k, name) {
        None => match v {
            JsonValue::Object(_) => Some(None),
            _ => None,
        },
        Some(JsonValue::Null) => Some(None),
        Some(JsonValue::Str(s)) => Some(Some(s.clone())),
        Some(_) => None,
    }
}

/// Reads a [`TokenPart`] from a JSON value.
pub fn token_from_value(v: &JsonValue) -> (r: Option<TokenPart>)
    ensures
        match r {
            Some(t) => token_from_json(*v) == Some(t@),
            None => token_from_json(*v) is None,
        },
{
    if !is_shaped(v, 3) {
        return None;
    }
    let id = required_field(v, 0, "id");
    let symbol = required_field(v, 1, "symbol");
    let decimals = optional_field(v, 2, "decimals");
    match (id, symbol, decimals) {
        (Some(id), Some(symbol), Some(decimals)) => Some(TokenPart { id, symbol, decimals }),
        _ => None,
    }
}

fn token_field_of(v: &JsonValue, k: usize, name: &str) -> (r: Option<TokenPart>)
    ensures
        match r {
            Some(t) => token_field(*v, k as int, name@) == Some(t@),
            None => token_field(*v, k as int, name@) is None,
        },
{
    match slot_of(v, k, name) {
        Some(x) => token_from_value(x),
        None => None,
    }
}

/// Reads a [`V3Pool`] from a JSON value.
pub fn v3_pool_from_value(v: &JsonValue) -> (r: Option<V3Pool>)
    ensures
        match r {
            Some(p) => v3_pool_from_json(*v) == Some(p@),
            None => v3_pool_from_json(*v) is None,
        },
{
    if !is_shaped(v, 6) {
        return None;
    }
    let id = required_field(v, 0, "id");
    let token0 = token_field_of(v, 1, "token0");
    let token1 = token_field_of(v, 2, "token1");
    let fee_tier = defaulted_field(v, 3, "feeTier");
    let liquidity = defaulted_field(v, 4, "liquidity");
    let tvl = defaulted_field(v, 5, "totalValueLockedUSD");
    match (id, token0, token1, fee_tier, liquidity, tvl) {
        (Some(id), Some(token0), Some(token1), Some(fee_tier), Some(liquidity), Some(tvl)) => Some(
            V3Pool {
                id,
                token0,
                token1,
                feeTier: fee_tier,
                liquidity,
                totalValueLockedUSD: tvl,
            },
        ),
        _ => None,
    }
}

/// Reads a [`V2Pair`] from a JSON value.
pub fn v2_pair_from_value(v: &JsonValue) -> (r: Option<V2Pair>)
    ensures
        match r {
            Some(p) => v2_pair_from_json(*v) == Some(p@),
            None => v2_pair_from_json(*v) is None,
        },
{
    if !is_shaped(v, 4) {
        return None;
    }
    let id = required_field(v, 0, "id");
    let token0 = token_field_of(v, 1, "token0");
    let token1 = token_field_of(v, 2, "token1");
    let reserve = defaulted_field(v, 3, "reserveUSD");
    match (id, token0, token1, reserve) {
        (Some(id), Some(token0), Some(token1), Some(reserve)) => Some(
            V2Pair { id, token0, token1, reserveUSD: reserve },
        ),
        _ => None,
    }
}

/// Reads a [`V4Pool`] from a JSON value.
pub fn v4_pool_from_value(v: &JsonValue) -> (r: Option<V4Pool>)
    ensures
        match r {
            Some(p) => v4_pool_from_json(*v) == Some(p@),
            None => v4_pool_from_json(*v) is None,
        },
{
    if !is_shaped(v, 7) {
        return None;
    }
    let id = required_field(v, 0, "id");
    let token0 = token_field_of(v, 1, "token0");
    let token1 = token_field_of(v, 2, "token1");
    let fee_tier = defaulted_field(v, 3, "feeTier");
    let hooks = defaulted_field(v, 4, "hooks");
    let liquidity = defaulted_field(v, 5, "liquidity");
    let tvl = defaulted_field(v, 6, "totalValueLockedUSD");
    match (id, token0, token1, fee_tier, hooks, liquidity, tvl) {
        (
            Some(id),
            Some(token0),
            Some(token1),
            Some(fee_tier),
            Some(hooks),
            Some(liquidity),
            Some(tvl),
        ) => Some(
            V4Pool {
                id,
                token0,
                token1,
                feeTier: fee_tier,
                hooks,
                liquidity,
                totalValueLockedUSD: tvl,
            },
        ),
        _ => None,
    }
}

/// The list field `list` of the response's `data`.
fn data_list_of<'a>(body: &'a JsonValue, list: &str) -> (r: Option<&'a Vec<JsonValue>>)
    ensures
        match r {
            Some(items) => data_list(*body, list@) == Some(items@),
            None => data_list(*body, list@) is None,
        },
{
    match slot_of(body, 0, "data") {
        Some(data) => {
            if !is_shaped(body, 1) || !is_shaped(data, 1) {
                return None;
            }
            match slot_of(data, 0, list) {
                Some(JsonValue::Array(items)) => Some(items),
                _ => None,
            }
        },
        None => None,
    }
}


/// Reads the pools of a `GraphResponse<V3Data>` from a response body.
pub fn v3_response_from_value(body: &JsonValue) -> (r: Option<GraphResponse<V3Data>>)
    ensures
        match r {
            Some(g) => v3_response_from_json(*body) == Some(g.data.pools@.map_values(|p: V3Pool| p@)),
            None => v3_response_from_json(*body) is None,
        },
{
    let items = match data_list_of(body, "pools") {
        Some(items) => items,
        None => return None,
    };
    let mut out: Vec<V3Pool> = Vec::new();
    let mut i: usize = 0;
    while i < items.len()
        invariant
            i <= items.len(),
            out@.len() == i,
            data_list(*body, "pools"@) == Some(items@),
            forall|j: int| 0 <= j < i ==> #[trigger] v3_pool_from_json(items@[j]) == Some(out@[j]@),
        decreases items.len() - i,
    {
        match v3_pool_from_value(&items[i]) {
            Some(p) => out.push(p),
            None => {
                assert(v3_pool_from_json(items@[i as int]) is None);
                return None;
            },
        }
        i = i + 1;
    }
    assert(v3_pools_from_json(items@) == Some(out@.map_values(|p: V3Pool| p@))) by {
        assert(forall|j: int| 0 <= j < items@.len() ==> (v3_pool_from_json(items@[j])) is Some);
        assert(Seq::new(items@.len(), |j: int| v3_pool_from_json(items@[j])->0) =~= out@.map_values(|p: V3Pool| p@));
    }
    Some(GraphResponse { data: V3Data { pools: out } })
}

/// Reads the pairs of a `GraphResponse<V2Data>` from a response body.
pub fn v2_response_from_value(body: &JsonValue) -> (r: Option<GraphResponse<V2Data>>)
    ensures
        match r {
            Some(g) => v2_response_from_json(*body) == Some(g.data.pairs@.map_values(|p: V2Pair| p@)),
            None => v2_response_from_json(*body) is None,
        },
{
    let items = match data_list_of(body, "pairs") {
        Some(items) => items,
        None => return None,
    };
    let mut out: Vec<V2Pair> = Vec::new();
    let mut i: usize = 0;
    while i < items.len()
        invariant
            i <= items.len(),
            out@.len() == i,
            data_list(*body, "pairs"@) == Some(items@),
            forall|j: int| 0 <= j < i ==> #[trigger] v2_pair_from_json(items@[j]) == Some(out@[j]@),
        decreases items.len() - i,
    {
        match v2_pair_from_value(&items[i]) {
            Some(p) => out.push(p),
            None => {
                assert(v2_pair_from_json(items@[i as int]) is None);
                return None;
            },
        }
        i = i + 1;
    }
    assert(v2_pairs_from_json(items@) == Some(out@.map_values(|p: V2Pair| p@))) by {
        assert(forall|j: int| 0 <= j < items@.len() ==> (v2_pair_from_json(items@[j])) is Some);
        assert(Seq::new(items@.len(), |j: int| v2_pair_from_json(items@[j])->0) =~= out@.map_values(|p: V2Pair| p@));
    }
    Some(GraphResponse { data: V2Data { pairs: out } })
}

/// Reads the pools of a `GraphResponse<V4Data>` from a response body.
pub fn v4_response_from_value(body: &JsonValue) -> (r: Option<GraphResponse<V4Data>>)
    ensures
        match r {
            Some(g) => v4_response_from_json(*body) == Some(g.data.pools@.map_values(|p: V4Pool| p@)),
            None => v4_response_from_json(*body) is None,
        },
{
    let items = match data_list_of(body, "pools") {
        Some(items) => items,
        None => return None,
    };
    let mut out: Vec<V4Pool> = Vec::new();
    let mut i: usize = 0;
    while i < items.len()
        invariant
            i <= items.len(),
            out@.len() == i,
            data_list(*body, "pools"@) == Some(items@),
            forall|j: int| 0 <= j < i ==> #[trigger] v4_pool_from_json(items@[j]) == Some(out@[j]@),
        decreases items.len() - i,
    {
        match v4_pool_from_value(&items[i]) {
            Some(p) => out.push(p),
            None => {
                assert(v4_pool_from_json(items@[i as int]) is None);
                return None;
            },
        }
        i = i + 1;
    }
    assert(v4_pools_from_json(items@) == Some(out@.map_values(|p: V4Pool| p@))) by {
        assert(forall|j: int| 0 <= j < items@.len() ==> (v4_pool_from_json(items@[j])) is Some);
        assert(Seq::new(items@.len(), |j: int| v4_pool_from_json(items@[j])->0) =~= out@.map_values(|p: V4Pool| p@));
    }
    Some(GraphResponse { data: V4Data { pools: out } })
}


/// The JSON text of an `Option<String>` field: its string, or `null`.
pub open spec fn opt_text_json(o: Option<Seq<char>>) -> Seq<char> {
    match o {
        Some(t) => quoted(t),
        None => "null"@,
    }
}

/// The compact JSON text of a [`TokenPart`], fields in declaration order.
pub open spec fn token_text(t: TokenPartView) -> Seq<char> {
    "{\"id\":"@ + quoted(t.id) + ",\"symbol\":"@ + quoted(t.symbol) + ",\"decimals\":"@
        + opt_text_json(t.decimals) + "}"@
}

/// The compact JSON text of a [`V3Pool`], fields in declaration order.
pub open spec fn v3_pool_text(p: V3PoolView) -> Seq<char> {
    "{\"id\":"@ + quoted(p.id) + ",\"token0\":"@ + token_text(p.token0) + ",\"token1\":"@
        + token_text(p.token1) + ",\"feeTier\":"@ + quoted(p.feeTier) + ",\"liquidity\":"@
        + quoted(p.liquidity) + ",\"totalValueLockedUSD\":"@ + quoted(p.totalValueLockedUSD)
        + "}"@
}

/// The compact JSON text of a [`V2Pair`], fields in declaration order.
pub open spec fn v2_pair_text(p: V2PairView) -> Seq<char> {
    "{\"id\":"@ + quoted(p.id) + ",\"token0\":"@ + token_text(p.token0) + ",\"token1\":"@
        + token_text(p.token1) + ",\"reserveUSD\":"@ + quoted(p.reserveUSD) + "}"@
}

/// The compact JSON text of a [`V4Pool`], fields in declaration order.
pub open spec fn v4_pool_text(p: V4PoolView) -> Seq<char> {
    "{\"id\":"@ + quoted(p.id) + ",\"token0\":"@ + token_text(p.token0) + ",\"token1\":"@
        + token_text(p.token1) + ",\"feeTier\":"@ + quoted(p.feeTier) + ",\"hooks\":"@
        + quoted(p.hooks) + ",\"liquidity\":"@ + quoted(p.liquidity)
        + ",\"totalValueLockedUSD\":"@ + quoted(p.totalValueLockedUSD) + "}"@
}

fn push_token(out: &mut String, t: &TokenPart)
    ensures
        final(out)@ == old(out)@ + token_text(t@),
{
    out.append("{\"id\":");
    push_quoted(out, t.id.as_str());
    out.append(",\"symbol\":");
    push_quoted(out, t.symbol.as_str());
    out.append(",\"decimals\":");
    match &t.decimals {
        Some(d) => push_quoted(out, d.as_str()),
        None => out.append("null"),
    }
    out.append("}");
    assert(final(out)@ =~= old(out)@ + token_text(t@));
}

/// The compact JSON text of a [`V3Pool`].
pub fn v3_pool_to_text(p: &V3Pool) -> (r: String)
    ensures
        r@ == v3_pool_text(p@),
{
    let mut out = String::new();
    out.append("{\"id\":");
    push_quoted(&mut out, p.id.as_str());
    out.append(",\"token0\":");
    push_token(&mut out, &p.token0);
    out.append(",\"token1\":");
    push_token(&mut out, &p.token1);
    out.append(",\"feeTier\":");
    push_quoted(&mut out, p.feeTier.as_str());
    out.append(",\"liquidity\":");
    push_quoted(&mut out, p.liquidity.as_str());
    out.append(",\"totalValueLockedUSD\":");
    push_quoted(&mut out, p.totalValueLockedUSD.as_str());
    out.append("}");
    assert(out@ =~= v3_pool_text(p@));
    out
}

/// The compact JSON text of a [`V2Pair`].
pub fn v2_pair_to_text(p: &V2Pair) -> (r: String)
    ensures
        r@ == v2_pair_text(p@),
{
    let mut out = String::new();
    out.append("{\"id\":");
    push_quoted(&mut out, p.id.as_str());
    out.append(",\"token0\":");
    push_token(&mut out, &p.token0);
    out.append(",\"token1\":");
    push_token(&mut out, &p.token1);
    out.append(",\"reserveUSD\":");
    push_quoted(&mut out, p.reserveUSD.as_str());
    out.append("}");
    assert(out@ =~= v2_pair_text(p@));
    out
}

/// The compact JSON text of a [`V4Pool`].
pub fn v4_pool_to_text(p: &V4Pool) -> (r: String)
    ensures
        r@ == v4_pool_text(p@),
{
    let mut out = String::new();
    out.append("{\"id\":");
    push_quoted(&mut out, p.id.as_str());
    out.append(",\"token0\":");
    push_token(&mut out, &p.token0);
    out.append(",\"token1\":");
    push_token(&mut out, &p.token1);
    out.append(",\"feeTier\":");
    push_quoted(&mut out, p.feeTier.as_str());
    out.append(",\"hooks\":");
    push_quoted(&mut out, p.hooks.as_str());
    out.append(",\"liquidity\":");
    push_quoted(&mut out, p.liquidity.as_str());
    out.append(",\"totalValueLockedUSD\":");
    push_quoted(&mut out, p.totalValueLockedUSD.as_str());
    out.append("}");
    assert(out@ =~= v4_pool_text(p@));
    out
}

} // verus!
