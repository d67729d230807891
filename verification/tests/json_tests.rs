use pool_fetcher::json::{push_quoted, to_json_text, JsonValue};

fn from_serde(v: &serde_json::Value) -> JsonValue {
    match v {
        serde_json::Value::Null => JsonValue::Null,
        serde_json::Value::Bool(b) => JsonValue::Bool(*b),
        serde_json::Value::Number(n) => JsonValue::Number(n.to_string()),
        serde_json::Value::String(s) => JsonValue::Str(s.clone()),
        serde_json::Value::Array(a) => JsonValue::Array(a.iter().map(from_serde).collect()),
        serde_json::Value::Object(m) => {
            JsonValue::Object(m.iter().map(|(k, x)| (k.clone(), from_serde(x))).collect())
        }
    }
}

#[test]
fn json_text_matches_serde_json() {
    let texts = [
        r#"null"#,
        r#"true"#,
        r#"[1,2.5,-3,"x"]"#,
        r#"{"b":1,"a":[{},[]],"c":{"d":null}}"#,
        r#""quote \" backslash \\ slash / tab \t nl \n cr \r bs \b ff \f ctl \u0001 \u001f del \u007f""#,
        r#""unicode é 中 😀""#,
        r#"{"id":"0xabc","token0":{"id":"0x1","symbol":"WETH","decimals":"18"},"feeTier":"500"}"#,
        r#"[]"#,
        r#"{}"#,
        r#"1e400"#,
    ];
    for t in texts {
        let v: serde_json::Value = match serde_json::from_str(t) {
            Ok(v) => v,
            Err(_) => continue,
        };
        assert_eq!(to_json_text(&from_serde(&v)), v.to_string(), "{}", t);
    }
}

#[test]
fn quoted_escapes_like_serde_json() {
    let samples = ["plain", "a\"b", "a\\b", "\u{0}\u{8}\u{9}\u{a}\u{b}\u{c}\u{d}\u{1f}\u{20}", "é/中"];
    for s in samples {
        let mut out = String::new();
        push_quoted(&mut out, s);
        assert_eq!(out, serde_json::to_string(s).unwrap());
    }
}

#[test]
fn get_finds_members() {
    let v: serde_json::Value = serde_json::from_str(r#"{"a":"x","b":1}"#).unwrap();
    let j = from_serde(&v);
    assert_eq!(j.get("a").and_then(|x| x.as_str()), Some("x"));
    assert!(j.get("b").unwrap().as_str().is_none());
    assert!(j.get("c").is_none());
    assert!(JsonValue::Null.get("a").is_none());
    assert!(JsonValue::Str("a".to_string()).get("a").is_none());
    assert!(JsonValue::Null.is_null());
    assert!(JsonValue::Array(vec![]).as_array().is_some());
    assert!(JsonValue::Null.as_array().is_none());
}
