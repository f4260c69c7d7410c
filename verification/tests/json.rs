use cohere_rust::decimal::{digit_of, format_unsigned, parse_unsigned};
use cohere_rust::json::{parse, Json, Member};

fn text(j: &Json, key: &str) -> Option<String> {
    j.text_member(key).cloned()
}

#[test]
fn parse_reads_an_object() {
    let j = parse(br#"{"name":"x","on":true,"n":7,"none":null,"list":[1,"two",false]}"#).unwrap();
    assert_eq!(Some("x".to_string()), text(&j, "name"));
    assert_eq!(Some(true), j.flag_member("on"));
    assert_eq!(Some(7), j.member("n").unwrap().unsigned());
    assert!(matches!(j.member("none"), Some(Json::Null)));
    let list = j.member("list").unwrap().items().unwrap();
    assert_eq!(3, list.len());
    assert_eq!(Some(1), list[0].unsigned());
    assert_eq!(Some(&"two".to_string()), list[1].text());
    assert_eq!(Some(false), list[2].flag());
    assert!(j.member("absent").is_none());
}

#[test]
fn parse_takes_white_space_around_the_document() {
    let j = parse(b" \n\t{\"a\" : \"b\"}\r\n").unwrap();
    assert_eq!(Some("b".to_string()), text(&j, "a"));
}

#[test]
fn parse_unescapes_strings() {
    let j = parse(r#"{"s":"a\"b\\c\ndéé😀"}"#.as_bytes()).unwrap();
    assert_eq!(Some("a\"b\\c\ndéé😀".to_string()), text(&j, "s"));
}

#[test]
fn parse_refuses_what_is_not_json() {
    assert!(parse(b"").is_err());
    assert!(parse(b"{").is_err());
    assert!(parse(b"{\"a\":}").is_err());
    assert!(parse(b"{\"a\":1} trailing").is_err());
    assert!(parse(b"{'a':1}").is_err());
    assert!(parse(b"[1,]").is_err());
    assert!(parse(b"\"\xff\"").is_err());
    assert!(parse(b"01").is_err());
}

#[test]
fn the_last_of_two_members_with_one_name_is_read() {
    let j = parse(br#"{"a":"first","a":"second"}"#).unwrap();
    assert_eq!(Some("second".to_string()), text(&j, "a"));
}

#[test]
fn lookups_on_other_kinds_find_nothing() {
    for document in ["null", "true", "3", "\"s\"", "[{\"a\":\"b\"}]"] {
        let j = parse(document.as_bytes()).unwrap();
        assert!(j.member("a").is_none());
        assert!(j.text_member("a").is_none());
        assert!(j.flag_member("a").is_none());
    }
    let j = parse(br#"{"a":"b","t":true}"#).unwrap();
    assert!(j.text().is_none());
    assert!(j.flag().is_none());
    assert!(j.items().is_none());
    assert!(j.unsigned().is_none());
    assert!(j.flag_member("a").is_none());
    assert!(j.text_member("t").is_none());
}

#[test]
fn numbers_are_read_as_unsigned_integers_only() {
    let j = parse(b"[0, 18446744073709551615, 18446744073709551616, -1, 1.0, 1e2, 2.5]").unwrap();
    let items = j.items().unwrap();
    assert_eq!(Some(0), items[0].unsigned());
    assert_eq!(Some(u64::MAX), items[1].unsigned());
    assert_eq!(None, items[2].unsigned());
    assert_eq!(None, items[3].unsigned());
    assert_eq!(None, items[4].unsigned());
    assert_eq!(None, items[5].unsigned());
    assert_eq!(None, items[6].unsigned());
}

#[test]
fn lists_are_read_whole_or_not_at_all() {
    let j = parse(br#"{"n":[1,2,3],"s":["a","b"],"mixed":[1,"b"],"empty":[],"not":"a list"}"#)
        .unwrap();
    assert_eq!(Some(vec![1, 2, 3]), j.member("n").unwrap().unsigned_list());
    assert_eq!(
        Some(vec!["a".to_string(), "b".to_string()]),
        j.member("s").unwrap().text_list()
    );
    assert_eq!(None, j.member("mixed").unwrap().unsigned_list());
    assert_eq!(None, j.member("mixed").unwrap().text_list());
    assert_eq!(Some(Vec::<u64>::new()), j.member("empty").unwrap().unsigned_list());
    assert_eq!(Some(Vec::<String>::new()), j.member("empty").unwrap().text_list());
    assert_eq!(None, j.member("not").unwrap().unsigned_list());
    assert_eq!(None, j.member("n").unwrap().text_list());
}

#[test]
fn parse_unsigned_reads_decimal_numerals() {
    assert_eq!(Some(0), parse_unsigned("0"));
    assert_eq!(Some(42), parse_unsigned("42"));
    assert_eq!(Some(7), parse_unsigned("007"));
    assert_eq!(Some(18446744073709551615), parse_unsigned("18446744073709551615"));
    assert_eq!(None, parse_unsigned("18446744073709551616"));
    assert_eq!(None, parse_unsigned("99999999999999999999999"));
    assert_eq!(None, parse_unsigned(""));
    assert_eq!(None, parse_unsigned("-1"));
    assert_eq!(None, parse_unsigned("+1"));
    assert_eq!(None, parse_unsigned("12a"));
    assert_eq!(None, parse_unsigned("1.0"));
    assert_eq!(None, parse_unsigned(" 1"));
    assert_eq!(None, parse_unsigned("١٢"));
}

#[test]
fn digits_have_their_values() {
    assert_eq!(Some(0), digit_of('0'));
    assert_eq!(Some(5), digit_of('5'));
    assert_eq!(Some(9), digit_of('9'));
    assert_eq!(None, digit_of('/'));
    assert_eq!(None, digit_of(':'));
    assert_eq!(None, digit_of('a'));
}

#[test]
fn format_unsigned_writes_the_shortest_numeral() {
    assert_eq!("0", format_unsigned(0));
    assert_eq!("9", format_unsigned(9));
    assert_eq!("10", format_unsigned(10));
    assert_eq!("34160", format_unsigned(34160));
    assert_eq!("18446744073709551615", format_unsigned(u64::MAX));
}

#[test]
fn format_and_parse_agree() {
    for n in [0u64, 1, 9, 10, 99, 100, 12345678901234567890, u64::MAX] {
        assert_eq!(Some(n), parse_unsigned(&format_unsigned(n)));
    }
}

#[test]
fn render_writes_compact_text() {
    assert_eq!("null", Json::Null.render());
    assert_eq!("true", Json::Bool(true).render());
    assert_eq!("false", Json::Bool(false).render());
    assert_eq!("17", Json::from_unsigned(17).render());
    assert_eq!("\"plain\"", Json::from_text("plain").render());
    assert_eq!("[]", Json::array(vec![]).render());
    assert_eq!("{}", Json::object(vec![]).render());
    assert_eq!("[1]", Json::from_unsigneds(&[1]).render());
    assert_eq!("[1,2,3]", Json::from_unsigneds(&[1, 2, 3]).render());
    assert_eq!(
        "[\"a\",\"b\"]",
        Json::from_texts(&["a".to_string(), "b".to_string()]).render()
    );
    let nested = Json::object(vec![
        Member::new("a", Json::Null),
        Member::new("b", Json::array(vec![Json::Bool(true), Json::object(vec![])])),
        Member::new("c", Json::object(vec![Member::new("d", Json::from_unsigned(4))])),
    ]);
    assert_eq!(r#"{"a":null,"b":[true,{}],"c":{"d":4}}"#, nested.render());
}

#[test]
fn render_escapes_strings_and_names() {
    assert_eq!(r#""a\"b""#, Json::from_text("a\"b").render());
    assert_eq!(r#""back\\slash""#, Json::from_text("back\\slash").render());
    assert_eq!(r#""line\nbreak\ttab""#, Json::from_text("line\nbreak\ttab").render());
    assert_eq!(r#""\u0001""#, Json::from_text("\u{1}").render());
    assert_eq!("\"é😀\"", Json::from_text("é😀").render());
    let j = Json::object(vec![Member::new("we\"ird", Json::from_text("v"))]);
    assert_eq!(r#"{"we\"ird":"v"}"#, j.render());
}

#[test]
fn what_is_rendered_reads_back() {
    let j = Json::object(vec![
        Member::new("text", Json::from_text("a \"quoted\" line\n")),
        Member::new("tokens", Json::from_unsigneds(&[0, 7, u64::MAX])),
        Member::new("flag", Json::Bool(false)),
        Member::new("nothing", Json::Null),
    ]);
    let back = parse(j.render().as_bytes()).unwrap();
    assert_eq!(Some("a \"quoted\" line\n".to_string()), text(&back, "text"));
    assert_eq!(Some(vec![0, 7, u64::MAX]), back.member("tokens").unwrap().unsigned_list());
    assert_eq!(Some(false), back.flag_member("flag"));
    assert!(matches!(back.member("nothing"), Some(Json::Null)));
}

#[test]
fn the_first_of_two_members_with_one_name_is_found() {
    let j = Json::object(vec![
        Member::new("a", Json::from_text("first")),
        Member::new("a", Json::from_text("second")),
    ]);
    assert_eq!(Some("first".to_string()), text(&j, "a"));
}
