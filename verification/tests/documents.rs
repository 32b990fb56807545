use soksak_sidecar_browser_chromium::json::{parse, render, Json, Num};
use soksak_sidecar_browser_chromium::text;

#[test]
fn parses_every_kind_of_value() {
    let j = parse(br#"{"a":1,"b":-2,"c":"x","d":true,"e":null,"f":[1,2],"g":1.5}"#).unwrap();
    assert_eq!(j.unsigned("a"), Some(1));
    assert_eq!(j.signed("a"), Some(1));
    assert_eq!(j.unsigned("b"), None);
    assert_eq!(j.signed("b"), Some(-2));
    assert_eq!(j.text("c").map(|s| s.as_str()), Some("x"));
    assert_eq!(j.truth("d"), Some(true));
    assert!(matches!(j.get("e"), Some(Json::Null)));
    assert!(matches!(j.get("f"), Some(Json::Arr(v)) if v.len() == 2));
    assert!(matches!(j.number("g"), Some(Num::Real(_))));
    assert_eq!(j.signed("g"), None);
    assert!(j.get("h").is_none());
}

#[test]
fn members_of_what_is_no_object_are_absent() {
    assert!(parse(b"[1,2]").unwrap().get("a").is_none());
    assert!(parse(b"\"a\"").unwrap().get("a").is_none());
}

#[test]
fn a_later_member_replaces_an_earlier_one() {
    let j = parse(br#"{"a":1,"a":2}"#).unwrap();
    assert_eq!(j.unsigned("a"), Some(2));
    let own = Json::Obj(vec![
        ("a".to_string(), Json::Num(Num::Pos(1))),
        ("a".to_string(), Json::Num(Num::Pos(2))),
    ]);
    assert_eq!(own.unsigned("a"), Some(2));
    assert_eq!(render(own), r#"{"a":2}"#);
}

#[test]
fn large_numbers_keep_their_sign() {
    let j = parse(br#"{"a":18446744073709551615,"b":-9223372036854775808}"#).unwrap();
    assert_eq!(j.unsigned("a"), Some(u64::MAX));
    assert_eq!(j.signed("a"), None);
    assert_eq!(j.signed("b"), Some(i64::MIN));
}

#[test]
fn a_number_that_is_not_negative_has_one_form() {
    let j = Json::Obj(vec![("n".to_string(), Json::Num(Num::Neg(7)))]);
    assert_eq!(j.unsigned("n"), Some(7));
    assert!(matches!(j.number("n"), Some(Num::Pos(7))));
    assert_eq!(render(j), r#"{"n":7}"#);
}

#[test]
fn an_integer_is_an_integer_however_it_is_kept() {
    let kept = |n: serde_json::Number| Json::Obj(vec![("n".to_string(), Json::Num(Num::Real(n)))]);
    assert_eq!(kept(serde_json::Number::from(5u64)).unsigned("n"), Some(5));
    assert_eq!(kept(serde_json::Number::from(-5i64)).signed("n"), Some(-5));
    assert_eq!(kept(serde_json::Number::from(-5i64)).unsigned("n"), None);
    let half = kept(serde_json::Number::from_f64(0.5).unwrap());
    assert_eq!(half.signed("n"), None);
    assert!(matches!(half.number("n"), Some(Num::Real(n)) if n.as_f64() == Some(0.5)));
    assert_eq!(render(half), r#"{"n":0.5}"#);
}

#[test]
fn what_is_no_document_is_refused_with_a_reason() {
    let why = parse(b"{").unwrap_err();
    assert!(!why.is_empty());
    assert_ne!(why, "{");
}

#[test]
fn renders_nested_documents() {
    let text = r#"{"a":[true,null,-3,"\"q\""],"b":{"c":0.5}}"#;
    assert_eq!(render(parse(text.as_bytes()).unwrap()), text);
}

#[test]
fn a_copy_is_the_same_document() {
    let text = r#"{"a":[1,-1,2.25,{"b":"x"}],"c":null,"d":false}"#;
    let j = parse(text.as_bytes()).unwrap();
    assert_eq!(render(j.copy()), text);
    assert_eq!(render(j), text);
}

#[test]
fn text_is_compared_and_measured() {
    assert!(text::same("한글", "한글"));
    assert!(!text::same("a", "b"));
    assert!(text::starts_with("devtools://x", "devtools://"));
    assert!(!text::starts_with("dev", "devtools://"));
    assert_eq!(text::utf16_count("a한😀"), 4);
    assert_eq!(text::first_unit("a"), 97);
    assert_eq!(text::first_unit("😀"), 0xd83d);
    assert_eq!(text::first_unit(""), 0);
}

#[test]
fn numerals_are_written_and_read() {
    let mut s = String::from("n=");
    text::push_decimal(&mut s, 0);
    text::push_decimal(&mut s, 10203);
    text::push_decimal(&mut s, u64::MAX);
    assert_eq!(s, "n=01020318446744073709551615");
    let digits = |t: &str| t.chars().collect::<Vec<char>>();
    for t in ["0", "7", "+7", "4294967295", "4294967296", "", "-1", "+", "1a", " 1", "007"] {
        assert_eq!(text::parse_u32(&digits(t)), t.parse::<u32>().ok(), "{t}");
    }
    for t in ["0", "-0", "+5", "-5", "2147483647", "2147483648", "-2147483648", "-2147483649", "-", "", "x"] {
        assert_eq!(text::parse_i32(&digits(t)), t.parse::<i32>().ok(), "{t}");
    }
}

#[test]
fn debug_forms_quote_and_escape() {
    let odd = String::from("a\"b\n");
    assert_eq!(text::with_debug("k: ", Some(&odd)), format!("k: {:?}", Some("a\"b\n")));
    assert_eq!(text::with_debug("k: ", None), "k: None");
    assert_eq!(text::joined("a", "b"), "ab");
}
