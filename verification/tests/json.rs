use brptui::json::{JsonNumber, JsonValue};

fn text(value: &str) -> JsonValue {
    JsonValue::String(value.to_string())
}

fn number(value: u64) -> JsonValue {
    JsonValue::Number(JsonNumber::PosInt(value))
}

fn object(members: Vec<(&str, JsonValue)>) -> JsonValue {
    JsonValue::Object(
        members
            .into_iter()
            .map(|(name, value)| (name.to_string(), value))
            .collect(),
    )
}

#[test]
fn get_finds_a_member_by_name() {
    let value = object(vec![("a", number(1)), ("b", text("two"))]);
    assert_eq!(value.get("a"), Some(&number(1)));
    assert_eq!(value.get("b"), Some(&text("two")));
    assert_eq!(value.get("c"), None);
    assert_eq!(value.get(""), None);
}

#[test]
fn get_takes_the_first_of_two_members_with_one_name() {
    let value = object(vec![("a", number(1)), ("a", number(2))]);
    assert_eq!(value.get("a"), Some(&number(1)));
}

#[test]
fn get_finds_nothing_in_what_is_no_object() {
    assert_eq!(number(1).get("a"), None);
    assert_eq!(JsonValue::Array(vec![text("a")]).get("a"), None);
    assert_eq!(JsonValue::Null.get("a"), None);
}

#[test]
fn as_str_gives_the_text_of_a_string_only() {
    assert_eq!(text("hello").as_str(), Some("hello"));
    assert_eq!(number(1).as_str(), None);
    assert_eq!(JsonValue::Null.as_str(), None);
}

#[test]
fn as_u64_gives_non_negative_integers_only() {
    assert_eq!(number(42).as_u64(), Some(42));
    assert_eq!(number(u64::MAX).as_u64(), Some(u64::MAX));
    assert_eq!(JsonValue::Number(JsonNumber::NegInt(-1)).as_u64(), None);
    assert_eq!(
        JsonValue::Number(JsonNumber::Float("1.5".to_string())).as_u64(),
        None
    );
    assert_eq!(text("42").as_u64(), None);
}

#[test]
fn as_i64_gives_integers_that_fit() {
    assert_eq!(number(42).as_i64(), Some(42));
    assert_eq!(
        JsonValue::Number(JsonNumber::NegInt(-32601)).as_i64(),
        Some(-32601)
    );
    assert_eq!(number(i64::MAX as u64).as_i64(), Some(i64::MAX));
    assert_eq!(number(i64::MAX as u64 + 1).as_i64(), None);
    assert_eq!(
        JsonValue::Number(JsonNumber::Float("2.0".to_string())).as_i64(),
        None
    );
    assert_eq!(JsonValue::Bool(true).as_i64(), None);
}

#[test]
fn as_array_and_as_object_tell_the_containers_apart() {
    let array = JsonValue::Array(vec![number(1)]);
    let map = object(vec![("a", number(1))]);
    assert_eq!(array.as_array(), Some(&vec![number(1)]));
    assert_eq!(array.as_object(), None);
    assert_eq!(map.as_object(), Some(&vec![("a".to_string(), number(1))]));
    assert_eq!(map.as_array(), None);
}

#[test]
fn numbers_are_written_as_they_are() {
    assert_eq!(JsonNumber::PosInt(100).to_text(), "100");
    assert_eq!(JsonNumber::NegInt(-7).to_text(), "-7");
    assert_eq!(JsonNumber::Float("2.5e3".to_string()).to_text(), "2.5e3");
}

#[test]
fn clone_copies_the_whole_tree() {
    let value = object(vec![
        ("name", text("Player")),
        (
            "items",
            JsonValue::Array(vec![
                number(1),
                JsonValue::Null,
                JsonValue::Bool(false),
                object(vec![("deep", JsonValue::Number(JsonNumber::NegInt(-3)))]),
            ]),
        ),
    ]);
    assert_eq!(value.clone(), value);
}
