use reywen_http::utils::{encode_str, encode_value, struct_to_url, FieldValue, ItemValue};

fn field(key: &str, value: FieldValue) -> (String, FieldValue) {
    (key.to_string(), value)
}

fn scalar(text: &str) -> FieldValue {
    FieldValue::Scalar(text.to_string())
}

fn text(content: &str) -> FieldValue {
    FieldValue::Text(content.to_string())
}

fn array(items: &[&str]) -> FieldValue {
    FieldValue::Array(items.iter().map(|s| ItemValue::Scalar(s.to_string())).collect())
}

fn text_array(items: &[&str]) -> FieldValue {
    FieldValue::Array(items.iter().map(|s| ItemValue::Text(s.to_string())).collect())
}

#[test]
fn record_with_null_and_array() {
    let record = vec![
        field("a", text("x")),
        field("b", FieldValue::Null),
        field("c", array(&["1", "2"])),
    ];
    assert_eq!(struct_to_url(&record, false), "?a=x&c[]=1&c[]=2");
}

#[test]
fn flat_record_encodes_the_same_twice() {
    let record = vec![
        field("name", text("a b")),
        field("n", scalar("3")),
        field("ok", scalar("true")),
    ];
    let first = struct_to_url(&record, true);
    let second = struct_to_url(&record, true);
    assert_eq!(first, second);
    assert_eq!(first, "?name=a%20b&n=3&ok=true");
}

#[test]
fn empty_record_gives_empty_string() {
    let record: Vec<(String, FieldValue)> = Vec::new();
    assert_eq!(struct_to_url(&record, false), "");
    let skipped = vec![field("a", FieldValue::Null), field("b", FieldValue::Object), field("c", array(&[]))];
    assert_eq!(struct_to_url(&skipped, true), "");
}

#[test]
fn first_emitted_pair_takes_question_mark() {
    let record = vec![field("a", FieldValue::Null), field("b", scalar("2")), field("c", FieldValue::Object), field("d", text("y"))];
    assert_eq!(struct_to_url(&record, false), "?b=2&d=y");
}

#[test]
fn array_first_then_scalar() {
    let record = vec![field("tags", text_array(&["p", "q"])), field("z", scalar("0"))];
    assert_eq!(struct_to_url(&record, false), "?tags[]=p&tags[]=q&z=0");
}

#[test]
fn encoding_touches_values_not_keys() {
    let record = vec![field("k y", text("a&b=c/d"))];
    assert_eq!(struct_to_url(&record, true), "?k y=a%26b%3Dc%2Fd");
    assert_eq!(struct_to_url(&record, false), "?k y=a&b=c/d");
}

#[test]
fn encode_str_switch() {
    assert_eq!(encode_str("a b~c", true), "a%20b~c");
    assert_eq!(encode_str("a b~c", false), "a b~c");
    assert_eq!(encode_str("é", true), "%C3%A9");
    assert_eq!(encode_str("", true), "");
}

#[test]
fn encode_value_gives_element_text() {
    assert_eq!(encode_value(&ItemValue::Text("x y".to_string()), true), "x%20y");
    assert_eq!(encode_value(&ItemValue::Text("say \"hi\"".to_string()), false), "say \"hi\"");
    assert_eq!(encode_value(&ItemValue::Scalar("12.5".to_string()), true), "12.5");
    assert_eq!(encode_value(&ItemValue::Scalar("null".to_string()), false), "null");
}

#[test]
fn inner_quotes_of_a_string_are_kept() {
    let record = vec![field("q", text("say \"hi\"")), field("l", text_array(&["a\"b"]))];
    assert_eq!(struct_to_url(&record, false), "?q=say \"hi\"&l[]=a\"b");
    assert_eq!(struct_to_url(&record, true), "?q=say%20%22hi%22&l[]=a%22b");
}
