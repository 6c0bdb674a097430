use mcpg_plugin_backend_llm_gemini::counter::Counter;
use mcpg_plugin_backend_llm_gemini::json::{object1, object2, text_json, Fields, Json, Number};
use mcpg_plugin_backend_llm_gemini::registry::Registry;
use mcpg_plugin_backend_llm_gemini::text::{
    blank, chars_of, has, numeral, parse_u32, trim_end, trims_to,
};

#[test]
fn documents_are_read_whole() {
    let json = Json::parse_str("{\"a\": [null, true, 1, -1, 1.5, \"x\"], \"b\": {}}").unwrap();
    let items = json.get("a").unwrap().as_array().unwrap();
    assert!(matches!(items[0], Json::Null));
    assert!(matches!(items[1], Json::Bool(true)));
    assert!(matches!(items[2], Json::Number(Number::PosInt(1))));
    assert!(matches!(items[3], Json::Number(Number::NegInt(-1))));
    match items[4] {
        Json::Number(Number::Float(bits)) => assert_eq!(f64::from_bits(bits), 1.5),
        _ => panic!("no number"),
    }
    assert_eq!(items[5].as_text(), Some("x"));
    assert!(json.get("b").unwrap().as_array().is_none());
    assert!(json.get("c").is_none());
    assert!(items[2].as_u64() == Some(1) && items[3].as_u64().is_none());
}

#[test]
fn bytes_and_texts_that_are_no_documents() {
    assert!(Json::parse_str("{").is_none());
    let error = Json::parse_slice(b"nope").unwrap_err();
    assert!(error.contains("expected"));
    assert!(Json::parse_slice(b"[1]").is_ok());
}

#[test]
fn the_last_entry_under_a_key_counts() {
    let mut fields = Fields::new();
    assert!(fields.is_empty());
    fields.insert("k", text_json("one"));
    fields.insert("k", text_json("two"));
    assert!(!fields.is_empty());
    assert_eq!(fields.into_json().get("k").unwrap().as_text(), Some("two"));
    let json = object2("a", Json::Null, "b", object1("c", Json::Bool(true)));
    assert!(matches!(
        json.get("b").unwrap().get("c"),
        Some(Json::Bool(true))
    ));
}

#[test]
fn counters_go_on() {
    let mut c = Counter::new();
    assert!(c.is_zero());
    assert_eq!(c.numeral(), "0");
    for _ in 0..1000 {
        c.increment();
    }
    assert_eq!(c.numeral(), "1000");
    assert!(!c.is_zero());
}

#[test]
fn registries_hold_one_value_per_name() {
    let mut r = Registry::new();
    r.insert("a", 1);
    r.insert("b", 2);
    r.insert("a", 3);
    assert_eq!(r.len(), 2);
    assert_eq!(r.get("a"), Some(&3));
    assert_eq!(r.get("c"), None);
}

#[test]
fn texts_are_searched_and_trimmed() {
    assert!(has(&chars_of("abcabd"), "abd"));
    assert!(!has(&chars_of("abc"), "abcd"));
    assert!(has(&chars_of(""), ""));
    assert_eq!(trim_end("x///", '/'), "x");
    assert_eq!(trim_end("///", '/'), "");
    assert!(trims_to("\t [DONE]\u{a0}\n", "[DONE]"));
    assert!(!trims_to("[DONE]x", "[DONE]"));
    assert!(blank(" \u{2003}\n"));
    assert!(!blank(" x "));
    assert_eq!(numeral(u128::MAX), u128::MAX.to_string());
    assert_eq!(parse_u32(&chars_of("42"), 0, 2), Some(42));
    assert_eq!(parse_u32(&chars_of("4294967296"), 0, 10), None);
}
