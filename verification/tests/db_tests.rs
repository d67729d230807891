use pool_fetcher::db::{pool_address_text, pool_from_row, raw_json_fields, RawPoolRow};
use pool_fetcher::fetcher::parse_response;
use pool_fetcher::json::JsonValue;
use pool_fetcher::models::{Protocol, UnifiedPool};

fn row(id: &str, protocol: &str, raw: &str, extra: Option<&str>) -> RawPoolRow {
    RawPoolRow {
        id: id.to_string(),
        protocol: protocol.to_string(),
        token0_id: "0xa".to_string(),
        token0_symbol: "A".to_string(),
        token1_id: "0xb".to_string(),
        token1_symbol: "B".to_string(),
        tvl_usd: "12.5".to_string(),
        raw_json: raw.to_string(),
        extra_data: extra.map(|e| e.to_string()),
        decimals0: Some(6),
        decimals1: None,
    }
}

fn object_text(pairs: &[(&str, serde_json::Value)]) -> String {
    let mut m = serde_json::Map::new();
    for (k, v) in pairs {
        m.insert(k.to_string(), v.clone());
    }
    serde_json::Value::Object(m).to_string()
}

#[test]
fn address_of_long_v4_id_keeps_last_40_hex_digits() {
    let id = "0x00112233445566778899aabbccddeeff00112233445566778899aabbccddeeff";
    assert_eq!(pool_address_text("V4", id), "0xccddeeff00112233445566778899aabbccddeeff");
    assert_eq!(pool_address_text("Pancake-V4", id).len(), 42);
}

#[test]
fn address_of_short_v4_id_is_padded() {
    assert_eq!(pool_address_text("V4", "0xabc"), format!("0x{:0>40}", "abc"));
    assert_eq!(pool_address_text("V4", "0x0xAbC"), format!("0x{:0>40}", "AbC"));
    assert_eq!(pool_address_text("V4", ""), format!("0x{}", "0".repeat(40)));
}

#[test]
fn address_of_other_protocols_is_the_id() {
    assert_eq!(pool_address_text("V3", "0xABC"), "0xABC");
    assert_eq!(pool_address_text("V2", "anything"), "anything");
}

#[test]
fn address_matches_byte_slicing() {
    for id in [
        "0x1234",
        "0xABCDEF0123456789abcdef0123456789ABCDEF01",
        "0xABCDEF0123456789abcdef0123456789ABCDEF0123",
        "x",
        "0x0x0x",
        "é1",
    ] {
        let hex = id.trim_start_matches("0x");
        let expected = if hex.len() >= 40 {
            format!("0x{}", &hex[hex.len() - 40..])
        } else {
            format!("0x{:0>40}", hex)
        };
        assert_eq!(pool_address_text("V4", id), expected, "{}", id);
    }
}

#[test]
fn row_v4_uses_stored_extra_and_lowercases() {
    let id = "0xAAAABBBBCCCCDDDDEEEEFFFF0000111122223333444455556666777788889999";
    let raw = r#"{"feeTier":"3000","hooks":"0xH"}"#;
    let p = pool_from_row(row(id, "V4", raw, Some("stored")));
    assert_eq!(p.id, format!("0x{}", &id[id.len() - 40..]).to_lowercase());
    assert_eq!(p.fee, 3000);
    assert_eq!(p.extra_data, "stored");
    assert_eq!(p.tvl_usd, "12.5");
    assert_eq!(p.decimals0, Some(6));
    assert_eq!(p.raw_json, raw);
}

#[test]
fn row_v4_rebuilds_extra_from_raw_json() {
    let raw = r#"{"feeTier":"500","hooks":"0xHooK","liquidity":"77","totalValueLockedUSD":"9.5"}"#;
    let p = pool_from_row(row("0xPoolId", "Pancake-V4", raw, None));
    let v: serde_json::Value = serde_json::from_str(raw).unwrap();
    let expected = object_text(&[
        ("hooks", v["hooks"].clone()),
        ("liquidity", v["liquidity"].clone()),
        ("tvl_usd", v["totalValueLockedUSD"].clone()),
        ("pool_id", serde_json::Value::String("0xPoolId".to_string())),
    ]);
    assert_eq!(p.extra_data, expected);
    assert_eq!(p.fee, 500);
    assert_eq!(p.id, format!("0x{:0>40}", "PoolId").to_lowercase());
}

#[test]
fn row_v2_has_fixed_fee_and_reserve_extra() {
    let raw = r#"{"feeTier":"100","reserveUSD":"55.5"}"#;
    let p = pool_from_row(row("0xPAIR", "V2", raw, None));
    assert_eq!(p.fee, 3000);
    assert_eq!(p.id, "0xpair");
    assert_eq!(p.extra_data, object_text(&[("reserveUSD", serde_json::Value::String("55.5".to_string()))]));
}

#[test]
fn row_v3_extra_defaults_to_nulls() {
    let p = pool_from_row(row("0xP", "V3", "not json", None));
    assert_eq!(p.fee, 0);
    assert_eq!(
        p.extra_data,
        object_text(&[
            ("liquidity", serde_json::Value::Null),
            ("tvl_usd", serde_json::Value::Null),
            ("tick_spacing", serde_json::Value::Null),
            ("amm_type", serde_json::Value::String("vAMM".to_string())),
        ])
    );
}

#[test]
fn row_fee_from_raw_json() {
    let p = pool_from_row(row("0xP", "Aerodrome-V3", r#"{"feeTier":"50","tickSpacing":10}"#, None));
    assert_eq!(p.fee, 50);
    assert!(p.extra_data.contains(r#""tick_spacing":10"#));
    let q = pool_from_row(row("0xP", "V3", r#"{"feeTier":"x"}"#, None));
    assert_eq!(q.fee, 0);
    let r = pool_from_row(row("0xP", "V3", r#"{"feeTier":500}"#, None));
    assert_eq!(r.fee, 0);
}

#[test]
fn raw_json_fields_reads_members() {
    let f = raw_json_fields(r#"{"feeTier":"3000","hooks":null,"liquidity":"1"}"#);
    assert_eq!(f.fee_tier.as_deref(), Some("3000"));
    assert_eq!(f.hooks, "null");
    assert_eq!(f.liquidity, "\"1\"");
    assert_eq!(f.reserve_usd, "null");
}

#[test]
fn ascii_v4_address_has_42_characters() {
    for id in ["0xAB", "0xABCDEF0123456789abcdef0123456789ABCDEF0123", "ZZ"] {
        let p = pool_from_row(row(id, "V4", "{}", Some("e")));
        assert_eq!(p.id.chars().count(), 42);
        assert_eq!(p.id, p.id.to_ascii_lowercase());
    }
}

fn from_serde(v: &serde_json::Value) -> JsonValue {
    match v {
        serde_json::Value::Null => JsonValue::Null,
        serde_json::Value::Bool(b) => JsonValue::Bool(*b),
        serde_json::Value::Number(n) => JsonValue::Number(n.to_string()),
        serde_json::Value::String(s) => JsonValue::Str(s.clone()),
        serde_json::Value::Array(a) => JsonValue::Array(a.iter().map(from_serde).collect()),
        serde_json::Value::Object(m) => {
            JsonValue::Object(m.iter().map(|(k, x)| (k.clone(), from_serde(x))).collect())
        }
    }
}

fn stored(p: &UnifiedPool) -> RawPoolRow {
    RawPoolRow {
        id: p.id.clone(),
        protocol: p.protocol.clone(),
        token0_id: p.token0_id.clone(),
        token0_symbol: p.token0_symbol.clone(),
        token1_id: p.token1_id.clone(),
        token1_symbol: p.token1_symbol.clone(),
        tvl_usd: p.tvl_usd.clone(),
        raw_json: p.raw_json.clone(),
        extra_data: Some(p.extra_data.clone()),
        decimals0: p.decimals0,
        decimals1: p.decimals1,
    }
}

#[test]
fn stored_pools_read_back() {
    let cases = [
        (Protocol::UniV3, r#"{"data":{"pools":[{"id":"0xPOOL","feeTier":"500","liquidity":"1","totalValueLockedUSD":"9","token0":{"id":"0xa","symbol":"A","decimals":"18"},"token1":{"id":"0xb","symbol":"B"}}]}}"#),
        (Protocol::UniV2, r#"{"data":{"pairs":[{"id":"0xPAIR","reserveUSD":"3","token0":{"id":"0xa","symbol":"A"},"token1":{"id":"0xb","symbol":"B"}}]}}"#),
        (Protocol::UniV4, r#"{"data":{"pools":[{"id":"0xABCDEF0123456789abcdef0123456789ABCDEF0123456789","feeTier":"3000","token0":{"id":"0xa","symbol":"A"},"token1":{"id":"0xb","symbol":"B"}}]}}"#),
    ];
    for (protocol, text) in cases {
        let body = from_serde(&serde_json::from_str::<serde_json::Value>(text).unwrap());
        let (pools, _) = parse_response(&protocol, body).unwrap();
        for p in &pools {
            let q = pool_from_row(stored(p));
            assert_eq!(q.fee, p.fee);
            assert_eq!(q.protocol, p.protocol);
            assert_eq!(q.raw_json, p.raw_json);
            assert_eq!(q.extra_data, p.extra_data);
            assert_eq!(q.tvl_usd, p.tvl_usd);
            assert_eq!(q.decimals0, p.decimals0);
            assert_eq!(q.token1_symbol, p.token1_symbol);
            if protocol == Protocol::UniV4 {
                assert_eq!(q.id, {
                    let hex = p.id.trim_start_matches("0x");
                    format!("0x{}", &hex[hex.len() - 40..]).to_lowercase()
                });
            } else {
                assert_eq!(q.id, p.id.to_lowercase());
            }
        }
    }
}
