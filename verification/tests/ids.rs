//! IDs.

use wamp_proto::id::{IdError, ScopeVisitor};
use wamp_proto::json::Json;
use wamp_proto::{GlobalScope, Id, RouterScope, SessionIdSource, SessionScope, MAX_ID_VAL};

fn json(text: &str) -> Json {
    Json::parse(text).unwrap()
}

fn written(json: &Json) -> String {
    json.write().unwrap()
}

#[test]
fn id_global_test() {
    let id1 = Id::<GlobalScope>::generate();
    let id2 = Id::<GlobalScope>::generate();
    assert!(id1 != id2);

    let id3 = id1.clone();
    assert_eq!(id1, id3);
}

#[test]
fn id_router_test() {
    let id1: Id<RouterScope> = Id::from_raw_value(1234);
    let id2: Id<RouterScope> = Id::from_raw_value(12345);
    let id3 = id1.clone();

    assert!(id1 != id2);
    assert_eq!(id1, id3);
}

#[test]
fn id_session_test() {
    let mut ids = SessionIdSource::new();
    let id1 = Id::<SessionScope>::next(&mut ids);
    let id2 = Id::<SessionScope>::next(&mut ids);
    assert!(id1 != id2);

    let id3 = id1.clone();
    assert_eq!(id1, id3);
}

#[test]
fn id_serialization_test() {
    let id = Id::<GlobalScope>::generate();
    let id_val = id.raw_value();
    assert_eq!(id_val.to_string(), written(&id.to_json()));

    let id: Id<RouterScope> = Id::from_raw_value(1234);
    assert_eq!("1234", written(&id.to_json()));

    let id = Id::<SessionScope>::next(&mut SessionIdSource::new());
    let id_val = id.raw_value();
    assert_eq!(id_val.to_string(), written(&id.to_json()));
}

#[test]
fn id_deserialization_test() {
    assert_eq!(
        12345,
        Id::<SessionScope>::from_json(&json("12345"))
            .unwrap()
            .raw_value()
    );
    assert_eq!(
        12345,
        Id::<RouterScope>::from_json(&json("12345"))
            .unwrap()
            .raw_value()
    );
    assert_eq!(
        12345,
        Id::<GlobalScope>::from_json(&json("12345"))
            .unwrap()
            .raw_value()
    );

    let max = json(&MAX_ID_VAL.to_string());
    assert_eq!(
        MAX_ID_VAL,
        Id::<SessionScope>::from_json(&max).unwrap().raw_value()
    );
    assert_eq!(
        MAX_ID_VAL,
        Id::<RouterScope>::from_json(&max).unwrap().raw_value()
    );
    assert_eq!(
        MAX_ID_VAL,
        Id::<GlobalScope>::from_json(&max).unwrap().raw_value()
    );

    let over = json(&(MAX_ID_VAL + 1).to_string());
    assert!(Id::<SessionScope>::from_json(&over).is_err());
    assert!(Id::<RouterScope>::from_json(&over).is_err());
    assert!(Id::<GlobalScope>::from_json(&over).is_err());

    assert!(Id::<SessionScope>::from_json(&json("-1")).is_err());
    assert!(Id::<RouterScope>::from_json(&json("-1")).is_err());
    assert!(Id::<GlobalScope>::from_json(&json("-1")).is_err());
}

#[test]
fn ids_out_of_range_are_told_apart() {
    assert_eq!(
        Err(IdError::OutOfRange(MAX_ID_VAL + 1)),
        ScopeVisitor.visit_u64(MAX_ID_VAL + 1)
    );
    assert_eq!(
        Some(IdError::OutOfRange(MAX_ID_VAL + 1)),
        Id::<GlobalScope>::from_json(&json("9007199254740993")).err()
    );
    assert_eq!(
        Some(IdError::NotInteger),
        Id::<GlobalScope>::from_json(&json("\"1\"")).err()
    );
}

#[test]
fn visitor_reads_small_integers() {
    assert_eq!(Ok(255), ScopeVisitor.visit_u8(255));
    assert_eq!(Ok(65535), ScopeVisitor.visit_u16(65535));
    assert_eq!(Ok(4_294_967_295), ScopeVisitor.visit_u32(4_294_967_295));
    assert_eq!(Ok(MAX_ID_VAL), ScopeVisitor.visit_u64(MAX_ID_VAL));
    assert_eq!(
        "an integer between 0 and 2^53 (inclusive)",
        ScopeVisitor.expecting()
    );
}

#[test]
fn generated_ids_are_in_range() {
    for _ in 0..1000 {
        assert!(Id::<GlobalScope>::generate().raw_value() <= MAX_ID_VAL);
    }
}

#[test]
fn session_ids_count_up_from_one() {
    let mut ids = SessionIdSource::new();
    for expected in 1..100 {
        assert_eq!(expected, Id::<SessionScope>::next(&mut ids).raw_value());
    }
}
