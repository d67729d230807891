use pool_fetcher::fetcher::{build_query, build_query_from, parse_decimals, parse_response, ResponseError, BATCH_SIZE};
use pool_fetcher::json::JsonValue;
use pool_fetcher::models::Protocol;

fn from_serde(v: &serde_json::Value) -> JsonValue {
    match v {
        serde_json::Value::Null => JsonValue::Null,
        serde_json::Value::Bool(b) => JsonValue::Bool(*b),
        serde_json::Value::Number(n) => JsonValue::Number(n.to_string()),
        serde_json::Value::String(s) => JsonValue::Str(s.clone()),
        serde_json::Value::Array(a) => JsonValue::Array(a.iter().map(from_serde).collect()),
        serde_json::Value::Object(m) => {
            JsonValue::Object(m.iter().map(|(k, x)| (k.clone(), from_serde(x))).collect())
        }
    }
}

fn body(text: &str) -> JsonValue {
    from_serde(&serde_json::from_str::<serde_json::Value>(text).unwrap())
}

fn object_text(pairs: &[(&str, serde_json::Value)]) -> String {
    let mut m = serde_json::Map::new();
    for (k, v) in pairs {
        m.insert(k.to_string(), v.clone());
    }
    serde_json::Value::Object(m).to_string()
}

fn s(x: &str) -> serde_json::Value {
    serde_json::Value::String(x.to_string())
}

#[test]
fn build_query_v3_text() {
    let q = build_query(&Protocol::UniV3, 2000, 1000);
    let expected = format!(
        r#"{{
                pools(first: {}, skip: {}, orderBy: totalValueLockedUSD, orderDirection: desc) {{
                    id
                    feeTier
                    liquidity
                    totalValueLockedUSD
                    token0 {{ id symbol decimals }}
                    token1 {{ id symbol decimals }}
                }}
            }}"#,
        1000, 2000
    );
    assert_eq!(q, expected);
    assert_eq!(build_query(&Protocol::AerodromeV3, 2000, 1000), expected);
}

#[test]
fn build_query_v2_text() {
    let q = build_query(&Protocol::UniV2, 0, BATCH_SIZE);
    let expected = format!(
        r#"{{
                pairs(first: {}, skip: {}, orderBy: reserveUSD, orderDirection: desc) {{
                    id
                    reserveUSD
                    token0 {{ id symbol decimals }}
                    token1 {{ id symbol decimals }}
                }}
            }}"#,
        1000, 0
    );
    assert_eq!(q, expected);
}

#[test]
fn build_query_v4_text() {
    let expected = format!(
        r#"{{
                pools(first: {}, skip: {}, orderBy: totalValueLockedUSD, orderDirection: desc) {{
                    id
                    feeTier
                    hooks
                    liquidity
                    totalValueLockedUSD
                    token0 {{ id symbol decimals }}
                    token1 {{ id symbol decimals }}
                }}
            }}"#,
        7, 123456
    );
    assert_eq!(build_query(&Protocol::UniV4, 123456, 7), expected);
    assert_eq!(build_query(&Protocol::PancakeV4, 123456, 7), expected);
}

#[test]
fn parse_decimals_cases() {
    assert_eq!(parse_decimals(&Some("18".to_string())), Some(18));
    assert_eq!(parse_decimals(&Some("6".to_string())), Some(6));
    assert_eq!(parse_decimals(&Some("300".to_string())), None);
    assert_eq!(parse_decimals(&Some("x".to_string())), None);
    assert_eq!(parse_decimals(&None), None);
}

const V3_BODY: &str = r#"{"data":{"pools":[
  {"id":"0xPOOL","feeTier":"500","liquidity":"123","totalValueLockedUSD":"1000.5",
   "token0":{"id":"0xa","symbol":"WETH","decimals":"18"},
   "token1":{"id":"0xb","symbol":"US\"DC","decimals":null},
   "extra":"ignored"},
  {"id":"0xP2","token0":{"id":"0xc","symbol":"C"},"token1":{"id":"0xd","symbol":"D","decimals":"x"}}
]}}"#;

#[test]
fn parse_response_v3_pools() {
    let (pools, count) = parse_response(&Protocol::UniV3, body(V3_BODY)).unwrap();
    assert_eq!(count, 2);
    assert_eq!(pools.len(), 2);
    let p = &pools[0];
    assert_eq!(p.id, "0xPOOL");
    assert_eq!(p.protocol, "V3");
    assert_eq!(p.token0_id, "0xa");
    assert_eq!(p.token0_symbol, "WETH");
    assert_eq!(p.token1_symbol, "US\"DC");
    assert_eq!(p.fee, 500);
    assert_eq!(p.decimals0, Some(18));
    assert_eq!(p.decimals1, None);
    assert_eq!(p.tvl_usd, "1000.5");
    assert_eq!(
        p.raw_json,
        r#"{"id":"0xPOOL","token0":{"id":"0xa","symbol":"WETH","decimals":"18"},"token1":{"id":"0xb","symbol":"US\"DC","decimals":null},"feeTier":"500","liquidity":"123","totalValueLockedUSD":"1000.5"}"#
    );
    assert_eq!(
        p.extra_data,
        object_text(&[("liquidity", s("123")), ("tvl_usd", s("1000.5")), ("amm_type", s("vAMM"))])
    );
    let q = &pools[1];
    assert_eq!(q.fee, 0);
    assert_eq!(q.tvl_usd, "");
    assert_eq!(q.decimals1, None);
    assert_eq!(
        q.raw_json,
        r#"{"id":"0xP2","token0":{"id":"0xc","symbol":"C","decimals":null},"token1":{"id":"0xd","symbol":"D","decimals":"x"},"feeTier":"","liquidity":"","totalValueLockedUSD":""}"#
    );
}

#[test]
fn parse_response_v3_refuses_bad_shapes() {
    for text in [
        r#"{}"#,
        r#"{"data":null}"#,
        r#"{"data":{}}"#,
        r#"{"data":{"pools":{}}}"#,
        r#"{"data":{"pools":[{"id":1,"token0":{"id":"a","symbol":"b"},"token1":{"id":"a","symbol":"b"}}]}}"#,
        r#"{"data":{"pools":[{"token0":{"id":"a","symbol":"b"},"token1":{"id":"a","symbol":"b"}}]}}"#,
        r#"{"data":{"pools":[{"id":"p","token0":{"id":"a"},"token1":{"id":"a","symbol":"b"}}]}}"#,
        r#"{"data":{"pools":[{"id":"p","feeTier":null,"token0":{"id":"a","symbol":"b"},"token1":{"id":"a","symbol":"b"}}]}}"#,
    ] {
        assert_eq!(parse_response(&Protocol::UniV3, body(text)).err(), Some(ResponseError::V3Shape), "{}", text);
    }
}

#[test]
fn parse_response_reads_structs_from_arrays() {
    let text = r#"{"data":{"pools":[["p",["a","A",null],{"id":"b","symbol":"B"},"3000"]]}}"#;
    let (pools, count) = parse_response(&Protocol::UniV3, body(text)).unwrap();
    assert_eq!(count, 1);
    assert_eq!(pools[0].fee, 3000);
    assert_eq!(pools[0].token0_symbol, "A");
    assert_eq!(pools[0].tvl_usd, "");
    let too_long = r#"{"data":{"pools":[["p",["a","A",null],["b","B",null],"1","2","3","4"]]}}"#;
    assert!(parse_response(&Protocol::UniV3, body(too_long)).is_err());
    let short_token = r#"{"data":{"pools":[["p",["a","A"],["b","B",null]]]}}"#;
    assert!(parse_response(&Protocol::UniV3, body(short_token)).is_err());
}

#[test]
fn parse_response_empty_page() {
    let (pools, count) = parse_response(&Protocol::UniV3, body(r#"{"data":{"pools":[]},"errors":[]}"#)).unwrap();
    assert_eq!(count, 0);
    assert!(pools.is_empty());
}

#[test]
fn parse_response_aerodrome_pools() {
    let text = r#"{"data":{"pools":[
      {"id":"0xS","feeTier":"5","liquidity":"9","totalValueLockedUSD":"2.5",
       "token0":{"id":"0xa","symbol":"A","decimals":"6"},"token1":{"id":"0xb","symbol":"B","decimals":"18"}},
      {"id":"0xV","feeTier":"30","token0":{"id":"0xa"},"token1":7},
      {"feeTier":12}
    ]}}"#;
    let v: serde_json::Value = serde_json::from_str(text).unwrap();
    let (pools, count) = parse_response(&Protocol::AerodromeV3, from_serde(&v)).unwrap();
    assert_eq!(count, 3);
    let a = &pools[0];
    assert_eq!(a.protocol, "Aerodrome-V3");
    assert_eq!(a.fee, 5);
    assert_eq!(a.decimals0, Some(6));
    assert_eq!(a.raw_json, v["data"]["pools"][0].to_string());
    assert_eq!(
        a.extra_data,
        object_text(&[("liquidity", s("9")), ("tvl_usd", s("2.5")), ("amm_type", s("sAMM"))])
    );
    let b = &pools[1];
    assert_eq!(b.fee, 30);
    assert_eq!(b.token0_symbol, "");
    assert_eq!(b.token1_id, "");
    assert_eq!(b.tvl_usd, "0");
    assert_eq!(
        b.extra_data,
        object_text(&[("liquidity", s("0")), ("tvl_usd", s("0")), ("amm_type", s("vAMM"))])
    );
    let c = &pools[2];
    assert_eq!(c.id, "");
    assert_eq!(c.fee, 0);
    assert!(c.extra_data.contains("sAMM"));
}

#[test]
fn parse_response_aerodrome_needs_pools_array() {
    for text in [r#"{}"#, r#"{"data":{"pools":{}}}"#, r#"[]"#] {
        assert_eq!(
            parse_response(&Protocol::AerodromeV3, body(text)).err(),
            Some(ResponseError::AerodromePools)
        );
    }
}

#[test]
fn parse_response_v2_pairs() {
    let text = r#"{"data":{"pairs":[{"id":"0xP","reserveUSD":"77.7","token0":{"id":"0xa","symbol":"A","decimals":"9"},"token1":{"id":"0xb","symbol":"B"}}]}}"#;
    let (pools, count) = parse_response(&Protocol::UniV2, body(text)).unwrap();
    assert_eq!(count, 1);
    let p = &pools[0];
    assert_eq!(p.protocol, "V2");
    assert_eq!(p.fee, 3000);
    assert_eq!(p.decimals0, Some(9));
    assert_eq!(p.tvl_usd, "77.7");
    assert_eq!(p.extra_data, object_text(&[("reserveUSD", s("77.7"))]));
    assert_eq!(
        p.raw_json,
        r#"{"id":"0xP","token0":{"id":"0xa","symbol":"A","decimals":"9"},"token1":{"id":"0xb","symbol":"B","decimals":null},"reserveUSD":"77.7"}"#
    );
    assert_eq!(
        parse_response(&Protocol::UniV2, body(r#"{"data":{"pools":[]}}"#)).err(),
        Some(ResponseError::V2Shape)
    );
}

#[test]
fn parse_response_v4_pools() {
    let text = r#"{"data":{"pools":[{"id":"0xID","feeTier":"100","hooks":"0xH","liquidity":"5","totalValueLockedUSD":"3","token0":{"id":"0xa","symbol":"A"},"token1":{"id":"0xb","symbol":"B"}}]}}"#;
    for (protocol, label) in [(Protocol::UniV4, "V4"), (Protocol::PancakeV4, "Pancake-V4")] {
        let (pools, count) = parse_response(&protocol, body(text)).unwrap();
        assert_eq!(count, 1);
        let p = &pools[0];
        assert_eq!(p.protocol, label);
        assert_eq!(p.fee, 100);
        assert_eq!(
            p.extra_data,
            object_text(&[("liquidity", s("5")), ("tvl_usd", s("3")), ("hooks", s("0xH")), ("version", s("v4"))])
        );
        assert_eq!(
            p.raw_json,
            r#"{"id":"0xID","token0":{"id":"0xa","symbol":"A","decimals":null},"token1":{"id":"0xb","symbol":"B","decimals":null},"feeTier":"100","hooks":"0xH","liquidity":"5","totalValueLockedUSD":"3"}"#
        );
    }
    assert_eq!(
        parse_response(&Protocol::UniV4, body(r#"{"data":{"pools":[1]}}"#)).err(),
        Some(ResponseError::V4Shape)
    );
}

#[test]
fn response_error_messages() {
    assert_eq!(ResponseError::V3Shape.message(), "解析 UniV3 数据结构失败");
    assert_eq!(ResponseError::AerodromePools.message(), "AerodromeV3: 缺少 data.pools 数组");
    assert_eq!(ResponseError::V2Shape.message(), "解析 V2 数据结构失败");
    assert_eq!(ResponseError::V4Shape.message(), "解析 V4 数据结构失败");
}

#[test]
fn build_query_from_adds_id_filter() {
    let expected = format!(
        r#"{{
                pairs(first: {}, skip: {}, orderBy: reserveUSD, orderDirection: desc, where: {{ id_gt: "0x1\"2" }}) {{
                    id
                    reserveUSD
                    token0 {{ id symbol decimals }}
                    token1 {{ id symbol decimals }}
                }}
            }}"#,
        1000, 3000
    );
    assert_eq!(build_query_from(&Protocol::UniV2, 3000, 1000, Some("0x1\"2")), expected);
    assert_eq!(build_query_from(&Protocol::UniV4, 5, 7, None), build_query(&Protocol::UniV4, 5, 7));
}

#[test]
fn distinct_pages_give_distinct_queries() {
    let pages = [(0usize, 1000usize), (1000, 1000), (10, 100), (100, 10), (0, 10000)];
    for a in pages {
        for b in pages {
            assert_eq!(a == b, build_query(&Protocol::UniV3, a.0, a.1) == build_query(&Protocol::UniV3, b.0, b.1));
        }
    }
}

#[test]
fn v4_and_pancake_pages_differ_only_in_label() {
    let text = r#"{"data":{"pools":[{"id":"0xID","feeTier":"100","hooks":"0xH","token0":{"id":"0xa","symbol":"A"},"token1":{"id":"0xb","symbol":"B","decimals":"6"}}]}}"#;
    let (a, n) = parse_response(&Protocol::UniV4, body(text)).unwrap();
    let (b, m) = parse_response(&Protocol::PancakeV4, body(text)).unwrap();
    assert_eq!(n, m);
    assert_eq!(a[0].protocol, "V4");
    assert_eq!(b[0].protocol, "Pancake-V4");
    assert_eq!(a[0].raw_json, b[0].raw_json);
    assert_eq!(a[0].extra_data, b[0].extra_data);
    assert_eq!(a[0].decimals1, b[0].decimals1);
}
