use sts2core::json::{parse, parse_i64, Json, JsonErr};

/// A value read as an integer the way a trace reader does: number text through `f64`
/// (truncated); strings and booleans through the library.
fn as_int(v: &Json) -> Option<i64> {
    match v {
        Json::Num(t) => t.parse::<f64>().ok().map(|n| n as i64),
        _ => v.as_int_text_or_bool(),
    }
}

fn field_int(v: &Json, key: &str) -> Option<i64> {
    v.get(key).and_then(as_int)
}

fn err_of(src: &str) -> (usize, JsonErr) {
    match parse(src) {
        Ok(_) => panic!("expected an error for {:?}", src),
        Err(e) => (e.offset, e.kind),
    }
}

#[test]
fn parses_the_shapes_a_trace_actually_uses() {
    let src = r#"
        { "version": 1,
          "frames": [
            { "i": 0,
              "obs": { "energy": 3, "player": { "hp": 70, "block": 0 },
                       "hand": [ { "name": "打击", "cost": "1", "upgraded": false } ] },
              "action": null } ] }
        "#;
    let j = parse(src).expect("应当解析成功");
    assert_eq!(field_int(&j, "version"), Some(1));
    let frames = j.arr("frames").unwrap();
    assert_eq!(frames.len(), 1);
    let obs = frames[0].get("obs").unwrap();
    assert_eq!(field_int(obs, "energy"), Some(3));
    assert_eq!(field_int(obs.get("player").unwrap(), "hp"), Some(70));
    let hand = obs.arr("hand").unwrap();
    assert_eq!(hand[0].str("name"), Some("打击"));
    assert_eq!(field_int(&hand[0], "cost"), Some(1));
    assert_eq!(hand[0].get("upgraded").unwrap().as_bool(), Some(false));
    assert!(frames[0].get("action").is_none());
}

#[test]
fn rejects_garbage_instead_of_silently_succeeding() {
    assert!(parse("{").is_err());
    assert!(parse("{\"a\": }").is_err());
    assert!(parse("[1, 2").is_err());
    assert!(parse("{} trailing").is_err());
}

#[test]
fn handles_escapes_and_surrogate_pairs() {
    let j = parse(r#"{"a":"line\nbreak 中 😀"}"#).unwrap();
    assert_eq!(j.str("a"), Some("line\nbreak 中 😀"));
}

#[test]
fn garbage_is_rejected_where_reading_stopped() {
    assert_eq!(err_of("{"), (1, JsonErr::ExpectedQuote));
    assert_eq!(err_of("{\"a\": }"), (6, JsonErr::ExpectedValue));
    assert_eq!(err_of("[1, 2"), (5, JsonErr::ArraySeparator));
    assert_eq!(err_of("{} trailing"), (3, JsonErr::TrailingContent));
    assert_eq!(err_of(""), (0, JsonErr::ExpectedValue));
    assert_eq!(err_of("   "), (3, JsonErr::ExpectedValue));
    assert_eq!(err_of("{\"a\" 1}"), (5, JsonErr::ExpectedColon));
    assert_eq!(err_of("{\"a\":1 \"b\":2}"), (7, JsonErr::ObjectSeparator));
    assert_eq!(err_of("@"), (0, JsonErr::ExpectedValue));
}

#[test]
fn error_messages_name_the_reason() {
    let e = parse("{} trailing").unwrap_err();
    assert_eq!(e.msg, "文档结尾之后还有内容");
    let e = parse("{").unwrap_err();
    assert_eq!(e.msg, "期望 '\"'");
    assert_eq!(JsonErr::ExpectedColon.message(), "期望 ':'");
    assert_eq!(JsonErr::BadNumber.message(), "数字格式非法");
}

#[test]
fn literals_must_be_whole_words() {
    assert_eq!(parse("true").unwrap(), Json::Bool(true));
    assert_eq!(parse("false").unwrap(), Json::Bool(false));
    assert_eq!(parse("null").unwrap(), Json::Null);
    assert_eq!(err_of("tru"), (0, JsonErr::BadLiteral));
    assert_eq!(err_of("[nul]"), (1, JsonErr::BadLiteral));
    assert_eq!(err_of("falsey"), (5, JsonErr::TrailingContent));
}

#[test]
fn numbers_keep_their_text_and_follow_float_syntax() {
    assert_eq!(parse("-0.5e-3").unwrap(), Json::Num("-0.5e-3".to_string()));
    assert_eq!(parse("1.").unwrap(), Json::Num("1.".to_string()));
    assert_eq!(parse("1.5E+10").unwrap(), Json::Num("1.5E+10".to_string()));
    assert_eq!(parse("007").unwrap(), Json::Num("007".to_string()));
    assert_eq!(err_of("-"), (1, JsonErr::BadNumber));
    assert_eq!(err_of("1e"), (2, JsonErr::BadNumber));
    assert_eq!(err_of("1e+"), (3, JsonErr::BadNumber));
    assert_eq!(err_of("-.e5"), (4, JsonErr::BadNumber));
    assert_eq!(err_of("1.2.3"), (3, JsonErr::TrailingContent));
}

#[test]
fn string_escapes() {
    let j = parse(r#""\"\\\/\b\f\n\r\t""#).unwrap();
    assert_eq!(j, Json::Str("\"\\/\u{8}\u{c}\n\r\t".to_string()));
    let j = parse(r#""\u0041\u00e9\u4e2d""#).unwrap();
    assert_eq!(j.as_str(), Some("Aé中"));
    let j = parse(r#""\ud83d\ude00!""#).unwrap();
    assert_eq!(j.as_str(), Some("😀!"));
    // the four digits are read as `u32::from_str_radix` reads them: a leading `+` is allowed
    let j = parse(r#""\u+041""#).unwrap();
    assert_eq!(j.as_str(), Some("A"));
}

#[test]
fn string_errors() {
    assert_eq!(err_of(r#""abc"#), (4, JsonErr::UnterminatedString));
    assert_eq!(err_of("\"\\"), (2, JsonErr::TruncatedEscape));
    assert_eq!(err_of(r#""\q""#), (3, JsonErr::UnknownEscape));
    assert_eq!(err_of(r#""\u12"#), (3, JsonErr::TruncatedUnicodeEscape));
    assert_eq!(err_of(r#""\u12g4""#), (3, JsonErr::UnicodeEscapeNotHex));
    assert_eq!(err_of("\"\\u12中\""), (3, JsonErr::UnicodeEscapeNotAscii));
    assert_eq!(err_of(r#""\ud83d""#), (7, JsonErr::LoneSurrogate));
    assert_eq!(err_of(r#""\ud83d\u0041""#), (13, JsonErr::LoneSurrogate));
    assert_eq!(err_of(r#""\udc00""#), (7, JsonErr::InvalidCodePoint));
}

#[test]
fn objects_keep_keys_sorted_and_the_last_value_of_a_repeated_key() {
    let j = parse(r#"{"b":1,"a":2,"b":3,"中":4,"B":5}"#).unwrap();
    let members = j.as_obj().unwrap();
    let keys: Vec<&str> = members.iter().map(|(k, _)| k.as_str()).collect();
    assert_eq!(keys, vec!["B", "a", "b", "中"]);
    assert_eq!(field_int(&j, "b"), Some(3));
    assert_eq!(field_int(&j, "a"), Some(2));
    assert_eq!(j.get("c"), None);
}

#[test]
fn null_fields_read_as_missing() {
    let j = parse(r#"{"x": null, "y": [null]}"#).unwrap();
    assert!(j.get("x").is_none());
    assert_eq!(j.as_obj().unwrap().len(), 2);
    assert_eq!(j.arr("y").unwrap(), &[Json::Null][..]);
    assert!(Json::Null.get("x").is_none());
    assert!(parse("[1]").unwrap().get("x").is_none());
}

#[test]
fn accessors_check_the_kind() {
    let j = parse(r#"{"s":"t","n":2,"a":[true],"o":{"k":false}}"#).unwrap();
    assert_eq!(j.str("s"), Some("t"));
    assert_eq!(j.str("n"), None);
    assert_eq!(j.arr("a").unwrap()[0].as_bool(), Some(true));
    assert!(j.arr("s").is_none());
    let o = j.obj("o").unwrap();
    assert_eq!(o.len(), 1);
    assert_eq!(o[0].0, "k");
    assert_eq!(o[0].1.as_bool(), Some(false));
    assert!(j.obj("a").is_none());
    assert_eq!(j.get("n").unwrap().as_bool(), None);
    assert!(j.get("o").unwrap().as_arr().is_none());
    assert!(j.get("a").unwrap().as_obj().is_none());
}

#[test]
fn whitespace_around_a_document_is_ignored() {
    assert_eq!(parse(" \t\r\n[ ]\n ").unwrap(), Json::Arr(vec![]));
    assert_eq!(parse("[[], {}, [1, [2]]]").unwrap().as_arr().unwrap().len(), 3);
}

#[test]
fn clones_are_equal_values() {
    let j = parse(r#"{"a":[1,{"b":"c"}],"d":null,"e":true}"#).unwrap();
    let k = j.clone();
    assert_eq!(j, k);
    assert_eq!(k.arr("a").unwrap()[1].str("b"), Some("c"));
}

#[test]
fn integers_written_as_text() {
    assert_eq!(parse_i64("1"), Some(1));
    assert_eq!(parse_i64("-42"), Some(-42));
    assert_eq!(parse_i64("+7"), Some(7));
    assert_eq!(parse_i64("007"), Some(7));
    assert_eq!(parse_i64("9223372036854775807"), Some(i64::MAX));
    assert_eq!(parse_i64("-9223372036854775808"), Some(i64::MIN));
    assert_eq!(parse_i64("9223372036854775808"), None);
    assert_eq!(parse_i64("-9223372036854775809"), None);
    assert_eq!(parse_i64("123456789012345678901234567890"), None);
    for bad in ["", "+", "-", "X", "无", "1 ", " 1", "1.0", "--1"] {
        assert_eq!(parse_i64(bad), None);
        assert_eq!(parse_i64(bad), bad.parse::<i64>().ok());
    }
    let j = parse(r#"["3", "X", true, false, 5, null]"#).unwrap();
    let got: Vec<Option<i64>> = j.as_arr().unwrap().iter().map(|v| v.as_int_text_or_bool()).collect();
    assert_eq!(got, vec![Some(3), None, Some(1), Some(0), None, None]);
}
