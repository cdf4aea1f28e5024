use bitcoinrpc::Json;

fn object(members: Vec<(&str, Json)>) -> Json {
    Json::Object(members.into_iter().map(|(k, v)| (String::from(k), v)).collect())
}

#[test]
fn member_finds_the_value_under_a_key() {
    let j = object(vec![("a", Json::Bool(true)), ("b", Json::Null)]);
    assert_eq!(j.member("a"), Some(&Json::Bool(true)));
    assert_eq!(j.member("b"), Some(&Json::Null));
    assert_eq!(j.member("c"), None);
    assert_eq!(j.member("A"), None);
}

#[test]
fn member_takes_the_last_of_equal_keys() {
    let j = object(vec![
        ("a", Json::Number(String::from("1"))),
        ("b", Json::Null),
        ("a", Json::Number(String::from("2"))),
    ]);
    assert_eq!(j.member("a"), Some(&Json::Number(String::from("2"))));
}

#[test]
fn member_of_what_is_no_object_is_absent() {
    assert_eq!(Json::Null.member("a"), None);
    assert_eq!(Json::String(String::from("a")).member("a"), None);
    assert_eq!(Json::Array(vec![Json::String(String::from("a"))]).member("a"), None);
    assert_eq!(object(vec![]).member("a"), None);
}

#[test]
fn values_are_told_apart_by_kind() {
    let text = Json::String(String::from("7"));
    let number = Json::Number(String::from("7"));
    assert_eq!(text.as_string(), Some(&String::from("7")));
    assert_eq!(text.as_number(), None);
    assert_eq!(number.as_number(), Some(&String::from("7")));
    assert_eq!(number.as_string(), None);
    assert_eq!(text.to_i64(), None);
    assert_eq!(number.to_i64(), Some(7));
    assert_eq!(number.to_u64(), Some(7));
    assert_eq!(Json::Number(String::from("-7")).to_u64(), None);
    assert_eq!(number.to_text(), None);
    assert_eq!(text.to_text(), Some(String::from("7")));
    assert_eq!(Json::Bool(false).as_bool(), Some(false));
    assert_eq!(Json::Null.as_bool(), None);
    assert!(Json::Null.is_null());
    assert!(!Json::Bool(false).is_null());
    assert!(object(vec![]).is_object());
    assert!(!Json::Array(vec![]).is_object());
    assert_eq!(Json::Array(vec![Json::Null]).as_array(), Some(&vec![Json::Null]));
    assert_eq!(Json::Array(vec![Json::Null]).to_items(), Some(vec![Json::Null]));
    assert_eq!(object(vec![]).to_items(), None);
    assert_eq!(
        Json::Array(vec![Json::String(String::from("a")), Json::String(String::from("b"))])
            .to_strings(),
        Some(vec![String::from("a"), String::from("b")])
    );
    assert_eq!(Json::Array(vec![Json::String(String::from("a")), Json::Null]).to_strings(), None);
    assert_eq!(Json::Array(vec![]).to_strings(), Some(vec![]));
    assert_eq!(Json::Number(String::from("1.5")).to_real().unwrap().as_str(), "1.5");
    assert!(Json::Number(String::from("1.")).to_real().is_none());
    assert!(Json::String(String::from("1.5")).to_real().is_none());
}

#[test]
fn a_clone_holds_what_the_value_holds() {
    let j = object(vec![
        ("list", Json::Array(vec![Json::Number(String::from("1")), Json::Null, Json::Bool(true)])),
        ("inner", object(vec![("text", Json::String(String::from("x")))])),
    ]);
    let copy = j.clone();
    assert_eq!(copy, j);
    assert_eq!(
        copy.member("inner").unwrap().member("text"),
        Some(&Json::String(String::from("x")))
    );
}
