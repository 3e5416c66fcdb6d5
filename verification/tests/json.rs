use codex_pager::json::{Json, JsonObject};
use codex_pager::text::{is_blank, join};
use codex_pager::time::timestamp;

fn json(text: &str) -> Json {
    Json::parse(text).expect("JSON text")
}

#[test]
fn text_is_read_into_values() {
    let value = json("{\"a\": [1, -2, 2.5, true, null], \"b\": {\"c\": \"d\"}}");
    let items = value.get_items("a").unwrap();
    assert_eq!(items[0], Json::Unsigned(1));
    assert_eq!(items[1], Json::Negative(-2));
    assert!(matches!(items[2], Json::Fraction(_)));
    assert_eq!(items[3], Json::Bool(true));
    assert!(items[4].is_null());
    assert_eq!(value.get_str_within("b", "c"), Some("d"));
    assert!(Json::parse("{\"a\":").is_none());
    assert!(Json::parse("").is_none());
}

#[test]
fn numbers_are_read_by_range() {
    let value = json("{\"big\": 18446744073709551615, \"low\": -1, \"odd\": 1.5, \"edge\": 9223372036854775807}");
    assert_eq!(value.get_u64("big"), Some(u64::MAX));
    assert_eq!(value.get_i64("big"), None);
    assert_eq!(value.get_u64("low"), None);
    assert_eq!(value.get_i64("low"), Some(-1));
    assert_eq!(value.get_u64("odd"), None);
    assert_eq!(value.get_i64("odd"), None);
    assert_eq!(value.get_i64("edge"), Some(i64::MAX));
    assert_eq!(value.get_u64("missing"), None);
}

#[test]
fn the_later_member_under_a_key_counts() {
    let mut object = JsonObject::new();
    object.insert("key", Json::Unsigned(1));
    object.insert("key", Json::Unsigned(2));
    assert_eq!(object.get("key"), Some(&Json::Unsigned(2)));
    for number in 3..40 {
        object.insert("key", Json::Unsigned(number));
        object.insert("other", Json::Unsigned(number + 1));
    }
    assert_eq!(Json::Object(object).render(), "{\"key\":39,\"other\":40}");
    assert_eq!(json("{\"key\": 1, \"key\": 2}").get_u64("key"), Some(2));
}

#[test]
fn values_are_written_compactly_and_read_back() {
    let value = json(" { \"text\" : \"line\\nbreak\" , \"items\" : [ 1 , -7 , null , false ] } ");
    let text = value.render();
    assert_eq!(text, "{\"items\":[1,-7,null,false],\"text\":\"line\\nbreak\"}");
    assert!(!text.contains('\n'));
    assert_eq!(json(&text).into_value(), value.into_value());
}

#[test]
fn values_pass_in_and_out_of_serde_json() {
    let text = "{\"a\":[1,-2,2.5,\"x\",null,true],\"b\":{}}";
    let value: serde_json::Value = serde_json::from_str(text).unwrap();
    let inner = Json::from_value(value.clone());
    assert_eq!(inner.get_items("a").unwrap().len(), 6);
    assert_eq!(inner.clone().into_value(), value);
    assert_eq!(inner.clone(), inner);
    assert_eq!(Json::Negative(5).into_value(), serde_json::Value::from(5));
}

#[test]
fn deep_values_are_written_but_not_all_are_read() {
    let nested = |depth: usize| {
        let mut value = Json::Null;
        for _ in 0..depth {
            value = Json::Array(vec![value]);
        }
        value
    };
    assert!(Json::parse(&nested(127).render()).is_some());
    assert!(Json::parse(&nested(128).render()).is_none());
}

#[test]
fn blank_texts_hold_nothing_but_white_space() {
    assert!(is_blank(""));
    assert!(is_blank(" \t\r\n\u{b}\u{85}\u{a0}\u{2003}\u{3000}"));
    assert!(!is_blank(" x "));
    assert!(!is_blank("\u{200b}"));
    for code in 0..=0x10ffffu32 {
        if let Some(c) = char::from_u32(code) {
            let text = c.to_string();
            assert_eq!(is_blank(&text), text.trim().is_empty());
        }
    }
}

#[test]
fn texts_are_joined_with_their_separator() {
    assert_eq!(join(&vec![], "\n"), "");
    assert_eq!(join(&vec!["a".to_owned()], "\n"), "a");
    assert_eq!(join(&vec!["a".to_owned(), String::new(), "b".to_owned()], "\n"), "a\n\nb");
}

#[test]
fn times_are_shown_in_utc() {
    assert_eq!(timestamp(0), "1970-01-01T00:00:00+00:00");
    assert_eq!(timestamp(1_752_537_600), "2025-07-15T00:00:00+00:00");
    assert_eq!(timestamp(-1), "1969-12-31T23:59:59+00:00");
}

#[test]
fn times_beyond_the_calendar_fall_back_to_the_epoch() {
    let epoch = "1970-01-01T00:00:00+00:00";
    assert_ne!(timestamp(8_210_266_876_799), epoch);
    assert_eq!(timestamp(8_210_266_876_800), epoch);
    assert_ne!(timestamp(-8_334_601_228_800), epoch);
    assert_eq!(timestamp(-8_334_601_228_801), epoch);
    assert_eq!(timestamp(i64::MAX), epoch);
    assert_eq!(timestamp(i64::MIN), epoch);
}
