//! Parsing of the parts of a message.

use vstd::prelude::*;

use crate::dict::Dict;
use crate::id::{Id, MAX_ID_VAL};
use crate::json::{Json, JsonModel};
use crate::transport::websocket::parsers::MessageParseError;
use crate::transport::{TransportableValue as TV, TvModel};
use crate::uri::Uri;

verus! {

/// The value that a JSON value stands for. `null`, negative numbers and floating point numbers
/// stand for none: in an array or an object they are left out.
pub open spec fn json_tv(json: JsonModel) -> Option<TvModel>
    decreases json, 1int,
{
    match json {
        JsonModel::Null => None,
        JsonModel::Bool(x) => Some(TvModel::Bool(x)),
        JsonModel::Number(Some(x)) => Some(TvModel::Integer(x)),
        JsonModel::Number(None) => None,
        JsonModel::Str(x) => Some(TvModel::Str(x)),
        JsonModel::Array(items) => Some(TvModel::List(items_tv(items))),
        JsonModel::Object(_) => Some(TvModel::Dict(members_tv(json))),
    }
}

/// The values that the items of an array stand for, in their order, without those that stand for
/// none.
pub open spec fn items_tv(items: Seq<JsonModel>) -> Seq<TvModel>
    decreases items, 0int,
{
    if items.len() == 0 {
        Seq::empty()
    } else {
        let front = items_tv(items.drop_last());
        match json_tv(items.last()) {
            Some(tv) => front.push(tv),
            None => front,
        }
    }
}

/// The values that the members of an object stand for, without those that stand for none.
pub open spec fn members_tv(json: JsonModel) -> Map<Seq<char>, TvModel>
    decreases json, 0int,
{
    Map::new(
        |key: Seq<char>|
            json is Object && json->Object_0.contains_key(key) && json_tv(
                json->Object_0[key],
            ) is Some,
        |key: Seq<char>|
            if json is Object && json->Object_0.contains_key(key) {
                json_tv(json->Object_0[key])->Some_0
            } else {
                arbitrary()
            },
    )
}

/// What an optional value is.
pub open spec fn option_model(tv: Option<TV>) -> Option<TvModel> {
    match tv {
        Some(tv) => Some(tv@),
        None => None,
    }
}

/// Converts a JSON value. `null`, negative numbers and floating point numbers are skipped.
pub fn json_to_tv(value: &Json) -> (tv: Option<TV>)
    ensures
        option_model(tv) == json_tv(value@),
    decreases value,
{
    match value {
        Json::Null => None,
        Json::Bool(x) => Some(TV::Bool(*x)),
        Json::Number(number) => match number {
            Some(x) => Some(TV::Integer(*x)),
            None => None,
        },
        Json::String(x) => Some(TV::String(x.clone())),
        Json::Array(items) => {
            let mut list: Vec<TV> = Vec::new();
            let mut i: usize = 0;
            let ghost model = crate::json::array_model(items@);
            assert(crate::transport::list_model(list@) =~= items_tv(model.take(0)));
            while i < items.len()
                invariant
                    i <= items.len(),
                    model == crate::json::array_model(items@),
                    value matches Json::Array(all) && *items == all,
                    crate::transport::list_model(list@) == items_tv(model.take(i as int)),
                decreases items.len() - i,
            {
                let ghost before = list@;
                proof {
                    assert(model.take(i + 1).drop_last() =~= model.take(i as int));
                    assert(model.take(i + 1).last() == items@[i as int]@);
                }
                if let Some(tv) = json_to_tv(&items[i]) {
                    list.push(tv);
                    assert(crate::transport::list_model(list@) =~= crate::transport::list_model(
                        before,
                    ).push(tv@));
                }
                i += 1;
            }
            assert(model.take(model.len() as int) =~= model);
            Some(TV::List(list))
        },
        Json::Object(members) => {
            let entries = members.entries();
            let mut dict: Dict<TV> = Dict::new();
            let mut i: usize = 0;
            proof {
                crate::transport::lemma_dict_model_empty(dict);
            }
            while i < entries.len()
                invariant
                    i <= entries.len(),
                    *entries == members.entries,
                    crate::dict::keys_distinct(entries@),
                    value matches Json::Object(all) && *members == all,
                    forall|key: Seq<char>| #[trigger]
                        crate::transport::dict_model(dict).contains_key(key) <==> exists|j: int|
                            0 <= j < i && converted(entries@, j, key),
                    forall|j: int, key: Seq<char>|
                        0 <= j < i && #[trigger] converted(entries@, j, key)
                            ==> crate::transport::dict_model(dict)[key] == json_tv(
                            entries@[j].1@,
                        )->Some_0,
                decreases entries.len() - i,
            {
                let ghost before = dict;
                if let Some(tv) = json_to_tv(&entries[i].1) {
                    dict.insert(entries[i].0.clone(), tv);
                    proof {
                        let key = entries@[i as int].0@;
                        crate::transport::lemma_dict_model_insert(before, dict, key, tv);
                        assert(converted(entries@, i as int, key));
                        assert forall|k: Seq<char>| #[trigger]
                            crate::transport::dict_model(dict).contains_key(k) <==> exists|j: int|
                                0 <= j < i + 1 && converted(entries@, j, k) by {
                            if crate::transport::dict_model(dict).contains_key(k) && k != key {
                                assert(crate::transport::dict_model(before).contains_key(k));
                                let j = choose|j: int| 0 <= j < i && converted(entries@, j, k);
                                assert(0 <= j < i + 1 && converted(entries@, j, k));
                            }
                            if exists|j: int| 0 <= j < i + 1 && converted(entries@, j, k) {
                                let j = choose|j: int| 0 <= j < i + 1 && converted(entries@, j, k);
                                if j < i {
                                    assert(crate::transport::dict_model(before).contains_key(k));
                                }
                            }
                        }
                        assert forall|j: int, k: Seq<char>|
                            0 <= j < i + 1 && #[trigger] converted(
                                entries@,
                                j,
                                k,
                            ) implies crate::transport::dict_model(dict)[k] == json_tv(
                            entries@[j].1@,
                        )->Some_0 by {
                            if j < i {
                                assert(entries@[j].0@ != entries@[i as int].0@);
                            }
                        }
                    }
                } else {
                    assert forall|k: Seq<char>| #[trigger]
                        crate::transport::dict_model(dict).contains_key(k) <==> exists|j: int|
                            0 <= j < i + 1 && converted(entries@, j, k) by {
                        if crate::transport::dict_model(dict).contains_key(k) {
                            let j = choose|j: int| 0 <= j < i && converted(entries@, j, k);
                            assert(0 <= j < i + 1 && converted(entries@, j, k));
                        }
                        if exists|j: int| 0 <= j < i + 1 && converted(entries@, j, k) {
                            let j = choose|j: int| 0 <= j < i + 1 && converted(entries@, j, k);
                            assert(j < i);
                        }
                    }
                }
                i += 1;
            }
            proof {
                lemma_members_tv(*members, crate::transport::dict_model(dict));
            }
            Some(TV::Dict(dict))
        },
    }
}

/// The entry at `j` has the key `key`, and its value stands for one.
spec fn converted(entries: Seq<(String, Json)>, j: int, key: Seq<char>) -> bool {
    crate::dict::holds_key(entries, j, key) && json_tv(entries[j].1@) is Some
}

/// A map that has for every converted entry its value, and nothing else, is what the members of
/// the object stand for.
proof fn lemma_members_tv(members: Dict<Json>, dict: Map<Seq<char>, TvModel>)
    requires
        crate::dict::keys_distinct(members.entries@),
        forall|key: Seq<char>| #[trigger]
            dict.contains_key(key) <==> exists|j: int|
                0 <= j < members.entries@.len() && converted(members.entries@, j, key),
        forall|j: int, key: Seq<char>|
            0 <= j < members.entries@.len() && #[trigger] converted(members.entries@, j, key)
                ==> dict[key] == json_tv(members.entries@[j].1@)->Some_0,
    ensures
        dict == members_tv(JsonModel::Object(crate::json::object_model(members))),
{
    let entries = members.entries@;
    let json = JsonModel::Object(crate::json::object_model(members));
    crate::json::lemma_object_model(members);
    members.lemma_view();
    crate::dict::lemma_entries_map(entries);
    assert forall|key: Seq<char>| dict.contains_key(key) <==> members_tv(json).contains_key(key) by {
        if dict.contains_key(key) {
            let j = choose|j: int| 0 <= j < entries.len() && converted(entries, j, key);
            assert(entries[j].0@ == key);
        }
        if members_tv(json).contains_key(key) {
            let j = choose|j: int| crate::dict::holds_key(entries, j, key);
            assert(entries[j].0@ == key);
            assert(0 <= j < entries.len() && converted(entries, j, key));
        }
    }
    assert forall|key: Seq<char>| #[trigger] dict.contains_key(key) implies dict[key] == members_tv(
        json,
    )[key] by {
        let j = choose|j: int| 0 <= j < entries.len() && converted(entries, j, key);
        assert(entries[j].0@ == key);
        assert(members_tv(json).contains_key(key));
    }
    assert(dict =~= members_tv(json));
}

/// The dictionary that `details` stand for.
pub open spec fn parsed_details(json: JsonModel) -> Result<
    Map<Seq<char>, TvModel>,
    MessageParseError,
> {
    match json_tv(json) {
        Some(TvModel::Dict(dict)) => Ok(dict),
        _ => Err(MessageParseError::DetailsNotDictionary),
    }
}

/// The ID that a JSON value is: an integer between 0 and 2^53 (inclusive).
pub open spec fn parsed_id(json: JsonModel) -> Result<u64, MessageParseError> {
    match json {
        JsonModel::Number(Some(id)) => if id <= MAX_ID_VAL {
            Ok(id)
        } else {
            Err(MessageParseError::IdOutOfRange)
        },
        _ => Err(MessageParseError::IdNotInteger),
    }
}

/// The URI that a JSON value is: a string in the relaxed form.
pub open spec fn parsed_uri(json: JsonModel) -> Result<Seq<char>, MessageParseError> {
    match json {
        JsonModel::Str(text) => if crate::uri::is_relaxed_uri(text) {
            Ok(text)
        } else {
            Err(MessageParseError::BadUri)
        },
        _ => Err(MessageParseError::UriNotString),
    }
}

/// The list that positional data stands for.
pub open spec fn parsed_arguments(json: JsonModel) -> Result<Seq<TvModel>, MessageParseError> {
    match json_tv(json) {
        Some(TvModel::List(list)) => Ok(list),
        _ => Err(MessageParseError::ArgumentsNotList),
    }
}

/// The dictionary that key-value data stands for.
pub open spec fn parsed_arguments_kw(json: JsonModel) -> Result<
    Map<Seq<char>, TvModel>,
    MessageParseError,
> {
    match json_tv(json) {
        Some(TvModel::Dict(dict)) => Ok(dict),
        _ => Err(MessageParseError::ArguementsKwNotDictionary),
    }
}

/// Parses a dictionary of details.
pub fn parse_details(value: &Json) -> (result: Result<Dict<TV>, MessageParseError>)
    ensures
        match result {
            Ok(dict) => parsed_details(value@) == Ok::<
                Map<Seq<char>, TvModel>,
                MessageParseError,
            >(crate::transport::dict_model(dict)),
            Err(error) => parsed_details(value@) == Err::<
                Map<Seq<char>, TvModel>,
                MessageParseError,
            >(error),
        },
{
    match json_to_tv(value) {
        Some(TV::Dict(dict)) => Ok(dict),
        _ => Err(MessageParseError::DetailsNotDictionary),
    }
}

/// Parses an ID.
pub fn parse_id<S>(value: &Json) -> (result: Result<Id<S>, MessageParseError>)
    ensures
        match result {
            Ok(id) => parsed_id(value@) == Ok::<u64, MessageParseError>(id@),
            Err(error) => parsed_id(value@) == Err::<u64, MessageParseError>(error),
        },
{
    match value.as_u64() {
        Some(id) => if id <= MAX_ID_VAL {
            Ok(Id::<S>::from_raw_value(id))
        } else {
            Err(MessageParseError::IdOutOfRange)
        },
        None => Err(MessageParseError::IdNotInteger),
    }
}

/// Parses a URI.
pub fn parse_uri(value: &Json) -> (result: Result<Uri, MessageParseError>)
    ensures
        match result {
            Ok(uri) => parsed_uri(value@) == Ok::<Seq<char>, MessageParseError>(uri@),
            Err(error) => parsed_uri(value@) == Err::<Seq<char>, MessageParseError>(error),
        },
{
    match value.as_str() {
        Some(text) => match Uri::relaxed(text) {
            Some(uri) => Ok(uri),
            None => Err(MessageParseError::BadUri),
        },
        None => Err(MessageParseError::UriNotString),
    }
}

/// Parses positional data.
pub fn parse_arguments(value: &Json) -> (result: Result<Vec<TV>, MessageParseError>)
    ensures
        match result {
            Ok(list) => parsed_arguments(value@) == Ok::<Seq<TvModel>, MessageParseError>(
                crate::transport::list_model(list@),
            ),
            Err(error) => parsed_arguments(value@) == Err::<Seq<TvModel>, MessageParseError>(error),
        },
{
    match json_to_tv(value) {
        Some(TV::List(list)) => Ok(list),
        _ => Err(MessageParseError::ArgumentsNotList),
    }
}

/// Parses key-value data.
pub fn parse_arguments_kw(value: &Json) -> (result: Result<Dict<TV>, MessageParseError>)
    ensures
        match result {
            Ok(dict) => parsed_arguments_kw(value@) == Ok::<
                Map<Seq<char>, TvModel>,
                MessageParseError,
            >(crate::transport::dict_model(dict)),
            Err(error) => parsed_arguments_kw(value@) == Err::<
                Map<Seq<char>, TvModel>,
                MessageParseError,
            >(error),
        },
{
    match json_to_tv(value) {
        Some(TV::Dict(dict)) => Ok(dict),
        _ => Err(MessageParseError::ArguementsKwNotDictionary),
    }
}

} // verus!
