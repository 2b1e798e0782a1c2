use expo_notification::json::{
    lookup, read_defaulted_text, read_optional_text, read_optional_u32, read_required_bool,
    read_required_text, read_required_text_list, Json, Lookup, Member,
};
use expo_notification::text::same_text;

fn member(key: &str, value: Json) -> Member {
    Member { key: key.to_string(), value }
}

fn text(t: &str) -> Json {
    Json::Text(t.to_string())
}

#[test]
fn same_text_compares_characters() {
    assert!(same_text("", ""));
    assert!(same_text("to", "to"));
    assert!(!same_text("to", "To"));
    assert!(!same_text("to", "too"));
    assert!(!same_text("too", "to"));
    assert!(!same_text("", "a"));
    assert!(same_text("caf\u{e9} \u{1f600}", "caf\u{e9} \u{1f600}"));
    assert!(!same_text("caf\u{e9}", "cafe\u{301}"));
    assert!(!same_text("\u{e9}", "\u{e8}"));
}

#[test]
fn lookup_tells_absent_single_and_repeated() {
    let members =
        vec![member("a", Json::Integer(1)), member("b", Json::Null), member("a", Json::Integer(2))];
    assert_eq!(lookup(&members, "b"), Lookup::Single(&Json::Null));
    assert_eq!(lookup(&members, "a"), Lookup::Repeated);
    assert_eq!(lookup(&members, "c"), Lookup::Absent);
    assert_eq!(lookup(&members, ""), Lookup::Absent);
    assert_eq!(lookup(&vec![], "a"), Lookup::Absent);
    let thrice = vec![member("k", Json::Null), member("k", Json::Null), member("k", Json::Null)];
    assert_eq!(lookup(&thrice, "k"), Lookup::Repeated);
    let last = vec![member("x", Json::Null), member("y", Json::Bool(true))];
    assert_eq!(lookup(&last, "y"), Lookup::Single(&Json::Bool(true)));
}

#[test]
fn documents_tell_what_they_are() {
    assert_eq!(text("x").as_text(), Some(&"x".to_string()));
    assert_eq!(Json::Null.as_text(), None);
    assert_eq!(Json::Bool(true).as_bool(), Some(true));
    assert_eq!(Json::Bool(false).as_bool(), Some(false));
    assert_eq!(text("true").as_bool(), None);
    assert_eq!(Json::Array(vec![Json::Null]).as_array(), Some(&vec![Json::Null]));
    assert_eq!(Json::Object(vec![]).as_array(), None);
    assert_eq!(Json::Object(vec![]).as_object(), Some(&vec![]));
    assert_eq!(Json::Array(vec![]).as_object(), None);
    assert_eq!(Json::array(vec![Json::Null]), Json::Array(vec![Json::Null]));
    assert_eq!(
        Json::object(vec![member("k", Json::Null)]),
        Json::Object(vec![member("k", Json::Null)])
    );
}

#[test]
fn a_copy_is_the_same_document() {
    let document = Json::Object(vec![
        member("a", Json::Array(vec![Json::Null, Json::Bool(true), Json::Integer(-7)])),
        member("b", Json::Object(vec![member("c", text("d")), member("c", Json::Real(3))])),
        member("", Json::Array(vec![])),
    ]);
    assert_eq!(document.clone(), document);
    assert_eq!(member("k", text("v")).clone(), member("k", text("v")));
    assert_eq!(Json::Null.clone(), Json::Null);
}

#[test]
fn integers_fit_or_do_not() {
    assert_eq!(Json::Integer(0).as_u32(), Some(0));
    assert_eq!(Json::Integer(4294967295).as_u32(), Some(u32::MAX));
    assert_eq!(Json::Integer(4294967296).as_u32(), None);
    assert_eq!(Json::Integer(-1).as_u32(), None);
    assert_eq!(Json::Integer(i128::MAX).as_u32(), None);
    assert_eq!(Json::Integer(i128::MIN).as_u32(), None);
    assert_eq!(Json::Real(1.0f64.to_bits()).as_u32(), None);
    assert_eq!(Json::Real(0).as_u32(), None);
    assert_eq!(text("1").as_u32(), None);
}

#[test]
fn text_lists_keep_their_order() {
    let texts = vec!["b".to_string(), "a".to_string(), "b".to_string()];
    let json = Json::text_list(&texts);
    assert_eq!(json, Json::Array(vec![text("b"), text("a"), text("b")]));
    assert_eq!(json.as_text_list(), Some(texts));
    assert_eq!(Json::text_list(&vec![]), Json::Array(vec![]));
    assert_eq!(Json::Array(vec![]).as_text_list(), Some(vec![]));
    assert_eq!(Json::Array(vec![text("a"), Json::Null]).as_text_list(), None);
    assert_eq!(Json::Array(vec![Json::Integer(1), text("a")]).as_text_list(), None);
    assert_eq!(text("a").as_text_list(), None);
}

#[test]
fn readers_follow_their_rules() {
    let members = vec![
        member("s", text("v")),
        member("n", Json::Null),
        member("i", Json::Integer(5)),
        member("b", Json::Bool(true)),
        member("l", Json::Array(vec![text("x")])),
        member("d", text("1")),
        member("d", text("2")),
    ];
    assert_eq!(read_required_text(&members, "s"), Some("v".to_string()));
    assert_eq!(read_required_text(&members, "n"), None);
    assert_eq!(read_required_text(&members, "zz"), None);
    assert_eq!(read_required_text(&members, "d"), None);

    assert_eq!(read_defaulted_text(&members, "s"), Some("v".to_string()));
    assert_eq!(read_defaulted_text(&members, "zz"), Some(String::new()));
    assert_eq!(read_defaulted_text(&members, "n"), None);
    assert_eq!(read_defaulted_text(&members, "i"), None);
    assert_eq!(read_defaulted_text(&members, "d"), None);

    assert_eq!(read_optional_text(&members, "s"), Some(Some("v".to_string())));
    assert_eq!(read_optional_text(&members, "zz"), Some(None));
    assert_eq!(read_optional_text(&members, "n"), Some(None));
    assert_eq!(read_optional_text(&members, "i"), None);
    assert_eq!(read_optional_text(&members, "d"), None);

    assert_eq!(read_optional_u32(&members, "i"), Some(Some(5)));
    assert_eq!(read_optional_u32(&members, "zz"), Some(None));
    assert_eq!(read_optional_u32(&members, "n"), Some(None));
    assert_eq!(read_optional_u32(&members, "s"), None);
    assert_eq!(read_optional_u32(&members, "d"), None);

    assert_eq!(read_required_bool(&members, "b"), Some(true));
    assert_eq!(read_required_bool(&members, "zz"), None);
    assert_eq!(read_required_bool(&members, "n"), None);
    assert_eq!(read_required_bool(&members, "d"), None);

    assert_eq!(read_required_text_list(&members, "l"), Some(vec!["x".to_string()]));
    assert_eq!(read_required_text_list(&members, "zz"), None);
    assert_eq!(read_required_text_list(&members, "s"), None);
    assert_eq!(read_required_text_list(&members, "d"), None);
}
