//! Transportable values and their JSON form.

use wamp_proto::dict::Dict;
use wamp_proto::json::Json;
use wamp_proto::transport::websocket::parsers::helpers::json_to_tv;
use wamp_proto::transport::{TransportError, TransportableValue};

#[test]
fn transportable_value_test() {
    let tv = TransportableValue::Bool(true);
    assert_eq!(Some(true), tv.as_bool());
    assert_eq!(None, tv.clone().into_dict());
    assert_eq!(None, tv.as_dict());
    assert_eq!(None, tv.as_int());
    assert_eq!(None, tv.clone().into_list());
    assert_eq!(None, tv.as_list());
    assert_eq!(None, tv.clone().into_string());
    assert_eq!(None, tv.as_str());

    let tv = TransportableValue::Dict(Default::default());
    assert_eq!(None, tv.as_bool());
    assert_eq!(
        Some(Dict::new()),
        tv.clone().into_dict()
    );
    assert!(tv.as_dict().unwrap().is_empty());
    assert_eq!(None, tv.as_int());
    assert_eq!(None, tv.clone().into_list());
    assert_eq!(None, tv.as_list());
    assert_eq!(None, tv.clone().into_string());
    assert_eq!(None, tv.as_str());

    let tv = TransportableValue::Integer(12345);
    assert_eq!(None, tv.as_bool());
    assert_eq!(None, tv.clone().into_dict());
    assert_eq!(None, tv.as_dict());
    assert_eq!(Some(12345), tv.as_int());
    assert_eq!(None, tv.clone().into_list());
    assert_eq!(None, tv.as_list());
    assert_eq!(None, tv.clone().into_string());
    assert_eq!(None, tv.as_str());

    let tv = TransportableValue::List(vec![TransportableValue::Integer(12345)]);
    assert_eq!(None, tv.as_bool());
    assert_eq!(None, tv.clone().into_dict());
    assert_eq!(None, tv.as_dict());
    assert_eq!(None, tv.as_int());
    assert_eq!(
        Some(vec![TransportableValue::Integer(12345)]),
        tv.clone().into_list()
    );
    assert_eq!(12345, tv.as_list().unwrap()[0].as_int().unwrap());
    assert_eq!(None, tv.into_string());

    let tv = TransportableValue::String("asdf".into());
    assert_eq!(None, tv.as_bool());
    assert_eq!(None, tv.clone().into_dict());
    assert_eq!(None, tv.as_dict());
    assert_eq!(None, tv.as_int());
    assert_eq!(None, tv.clone().into_list());
    assert_eq!(None, tv.as_list());
    assert_eq!(Some("asdf".into()), tv.clone().into_string());
    assert_eq!(Some("asdf"), tv.as_str());
}

#[test]
fn json_to_tv_test_integer() {
    assert_eq!(
        Some(TransportableValue::Integer(4)),
        json_to_tv(&Json::parse("4").unwrap())
    );
    assert_eq!(
        Some(TransportableValue::Integer(0)),
        json_to_tv(&Json::parse("0").unwrap())
    );
    assert_eq!(
        Some(TransportableValue::Integer(0x7FFF_FFFF_FFFF_FFFF)),
        json_to_tv(&Json::parse("9223372036854775807").unwrap())
    );
    assert_eq!(None, json_to_tv(&Json::parse("-1").unwrap()));
    assert_eq!(None, json_to_tv(&Json::parse("-3").unwrap()));
}

#[test]
fn json_to_tv_test_array() {
    assert_eq!(
        Some(TransportableValue::List(vec![
            TransportableValue::Integer(1),
            TransportableValue::Integer(2),
            TransportableValue::String("asdf".into())
        ])),
        json_to_tv(&Json::parse(r#"[1, 2, "asdf"]"#).unwrap())
    );
}

fn nested() -> TransportableValue {
    let mut inner = Dict::new();
    inner.insert("z".into(), TransportableValue::Bool(false));
    inner.insert(
        "a \"b\"".into(),
        TransportableValue::Integer(u64::max_value()),
    );
    let mut outer = Dict::new();
    outer.insert("list".into(), TransportableValue::List(vec![
        TransportableValue::String("c\n".into()),
        TransportableValue::List(vec![]),
    ]));
    outer.insert("inner".into(), TransportableValue::Dict(inner));
    TransportableValue::Dict(outer)
}

#[test]
fn value_is_written() {
    assert_eq!(
        r#"{"inner":{"a \"b\"":18446744073709551615,"z":false},"list":["c\n",[]]}"#,
        nested().to_json().write().unwrap()
    );
}

#[test]
fn value_is_read_back() {
    let json = nested().to_json();
    assert_eq!(Some(nested()), json_to_tv(&json));
    let text = json.write().unwrap();
    assert_eq!(Some(nested()), json_to_tv(&Json::parse(&text).unwrap()));
}

#[test]
fn order_of_keys_does_not_count() {
    let mut a = Dict::new();
    a.insert("x".into(), TransportableValue::Integer(1));
    a.insert("y".into(), TransportableValue::Integer(2));
    let mut b = Dict::new();
    b.insert("y".into(), TransportableValue::Integer(2));
    b.insert("x".into(), TransportableValue::Integer(1));
    assert_eq!(a, b);
    b.insert("x".into(), TransportableValue::Integer(3));
    assert_ne!(a, b);
    assert_eq!(2, b.len());
    a.insert("z".into(), TransportableValue::Integer(3));
    assert_ne!(a, b);
    assert_eq!(a.clone(), a);
}

#[test]
fn deepest_nesting_is_read_back() {
    let mut value = TransportableValue::List(vec![]);
    for _ in 1..127 {
        value = TransportableValue::List(vec![value]);
    }
    let text = value.to_json().write().unwrap();
    assert_eq!(
        Some(value.clone()),
        json_to_tv(&Json::parse(&text).unwrap())
    );
    let deeper = TransportableValue::List(vec![value])
        .to_json()
        .write()
        .unwrap();
    assert!(Json::parse(&deeper).is_err());
}

#[test]
fn dictionary_lookup() {
    let mut dict = Dict::new();
    assert!(dict.is_empty());
    assert!(!dict.contains_key("a"));
    dict.insert("a".into(), 1);
    dict.insert("b".into(), 2);
    dict.insert("a".into(), 3);
    assert_eq!(Some(&3), dict.get("a"));
    assert_eq!(Some(&2), dict.get("b"));
    assert_eq!(None, dict.get("c"));
    assert_eq!(2, dict.len());
    assert_eq!(vec!["a".to_string(), "b".to_string()], dict.keys());
}

#[test]
fn json_values_convert() {
    let value = Json::parse(r#"{"a":[null,true,7,"s"]}"#).unwrap().to_value();
    assert_eq!(Some(7), value["a"][2].as_u64());
    match Json::from_value(value) {
        Json::Object(members) => match members.get("a") {
            Some(Json::Array(items)) => {
                assert!(matches!(items[0], Json::Null));
                assert!(matches!(items[1], Json::Bool(true)));
                assert_eq!(Some(7), items[2].as_u64());
                assert_eq!(None, items[2].as_str());
                assert_eq!(Some("s"), items[3].as_str());
                assert_eq!(None, items[3].as_u64());
            }
            _ => panic!("an array was written"),
        },
        _ => panic!("an object was written"),
    }
}

#[test]
fn transport_error_texts() {
    assert_eq!(
        "message parse error: x",
        TransportError::ParseError("x".into()).text()
    );
    assert_eq!(
        "network error: y",
        TransportError::NetworkError("y".into()).text()
    );
}
