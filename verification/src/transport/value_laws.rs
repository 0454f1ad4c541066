//! What holds of values, and of their JSON form, in both directions.

use vstd::prelude::*;

use crate::dict::Dict;
use crate::json::{Json, JsonModel};
use crate::transport::{TransportableValue, TvModel};

verus! {

/// A value is told apart from all others by its kind and by what it holds: nothing of it is lost.
pub proof fn lemma_value_is_told(value: TransportableValue)
    ensures
        match value {
            TransportableValue::Integer(x) => value@ == TvModel::Integer(x),
            TransportableValue::String(x) => value@ == TvModel::Str(x@),
            TransportableValue::Bool(x) => value@ == TvModel::Bool(x),
            TransportableValue::List(x) => {
                &&& value@ matches TvModel::List(list)
                &&& list.len() == x@.len()
                &&& forall|i: int| 0 <= i < list.len() ==> #[trigger] list[i] == x@[i]@
            },
            TransportableValue::Dict(x) => {
                &&& value@ matches TvModel::Dict(dict)
                &&& dict.dom() == x@.dom()
                &&& forall|key: Seq<char>| #[trigger]
                    dict.contains_key(key) ==> dict[key] == x@[key]@
            },
        },
{
    if let TransportableValue::Dict(x) = value {
        crate::transport::lemma_dict_model(x);
    }
}

/// Positional data is told of as it is, value by value and in its order; where there is none, none
/// is told of.
pub proof fn lemma_arguments_are_told(arguments: Option<Vec<TransportableValue>>)
    ensures
        match arguments {
            Some(x) => {
                &&& crate::transport::arguments_model(arguments) matches Some(list)
                &&& list == crate::transport::list_model(x@)
                &&& list.len() == x@.len()
                &&& forall|i: int| 0 <= i < list.len() ==> #[trigger] list[i] == x@[i]@
            },
            None => crate::transport::arguments_model(arguments) is None,
        },
{
}

/// Key-value data is told of as it is, key by key; where there is none, none is told of.
pub proof fn lemma_arguments_kw_are_told(arguments_kw: Option<Dict<TransportableValue>>)
    ensures
        match arguments_kw {
            Some(x) => {
                &&& crate::transport::arguments_kw_model(arguments_kw) matches Some(dict)
                &&& dict == crate::transport::dict_model(x)
                &&& dict.dom() == x@.dom()
                &&& forall|key: Seq<char>| #[trigger]
                    dict.contains_key(key) ==> dict[key] == x@[key]@
            },
            None => crate::transport::arguments_kw_model(arguments_kw) is None,
        },
{
    if let Some(x) = arguments_kw {
        crate::transport::lemma_dict_model(x);
    }
}

/// Integers are written as numbers, strings as strings and booleans as booleans; a list is an array
/// of what its values are written as, and a dictionary an object with the same keys.
pub proof fn lemma_value_is_written(tv: TvModel)
    ensures
        ({
            let json = crate::transport::value_json::tv_json(tv);
            match tv {
                TvModel::Integer(x) => json == JsonModel::Number(Some(x)),
                TvModel::Str(x) => json == JsonModel::Str(x),
                TvModel::Bool(x) => json == JsonModel::Bool(x),
                TvModel::List(list) => {
                    &&& json matches JsonModel::Array(items)
                    &&& items.len() == list.len()
                    &&& forall|i: int|
                        0 <= i < items.len() ==> #[trigger] items[i]
                            == crate::transport::value_json::tv_json(list[i])
                },
                TvModel::Dict(dict) => {
                    &&& json matches JsonModel::Object(members)
                    &&& members.dom() == dict.dom()
                    &&& forall|key: Seq<char>| #[trigger]
                        members.contains_key(key) ==> members[key]
                            == crate::transport::value_json::tv_json(dict[key])
                },
            }
        }),
{
    if let TvModel::Dict(dict) = tv {
        let members = crate::transport::value_json::members_json(tv);
        assert(members.dom() =~= dict.dom());
    }
}

/// Dictionaries are written as other values are.
pub proof fn lemma_dict_is_written(dict: Map<Seq<char>, TvModel>)
    ensures
        crate::transport::value_json::dict_json(dict) == crate::transport::value_json::tv_json(
            TvModel::Dict(dict),
        ),
{
}

/// Numbers that are held as integers, strings and booleans are read as what they are; `null` and
/// other numbers stand for no value. An array is read as a list and an object as a dictionary.
pub proof fn lemma_value_is_read(json: JsonModel)
    ensures
        ({
            let tv = crate::transport::websocket::parsers::helpers::json_tv(json);
            match json {
                JsonModel::Null => tv is None,
                JsonModel::Number(None) => tv is None,
                JsonModel::Number(Some(x)) => tv == Some(TvModel::Integer(x)),
                JsonModel::Str(x) => tv == Some(TvModel::Str(x)),
                JsonModel::Bool(x) => tv == Some(TvModel::Bool(x)),
                JsonModel::Array(items) => tv == Some(
                    TvModel::List(
                        crate::transport::websocket::parsers::helpers::items_tv(items),
                    ),
                ),
                JsonModel::Object(members) => {
                    &&& tv matches Some(TvModel::Dict(dict))
                    &&& forall|key: Seq<char>| #[trigger]
                        dict.contains_key(key) <==> members.contains_key(key)
                            && crate::transport::websocket::parsers::helpers::json_tv(
                            members[key],
                        ) is Some
                    &&& forall|key: Seq<char>| #[trigger]
                        dict.contains_key(key) ==> Some(dict[key])
                            == crate::transport::websocket::parsers::helpers::json_tv(members[key])
                },
            }
        }),
{
}

/// The values of an array are read one by one, in their order: what is read of two arrays, one
/// behind the other, is what is read of the first and then of the second. An item that stands for
/// no value is left out, and any other is there once.
pub proof fn lemma_list_is_read(a: Seq<JsonModel>, b: Seq<JsonModel>, item: JsonModel)
    ensures
        crate::transport::websocket::parsers::helpers::items_tv(Seq::empty()) == Seq::<
            TvModel,
        >::empty(),
        crate::transport::websocket::parsers::helpers::items_tv(seq![item]) == (
        match crate::transport::websocket::parsers::helpers::json_tv(item) {
            Some(tv) => seq![tv],
            None => Seq::<TvModel>::empty(),
        }),
        crate::transport::websocket::parsers::helpers::items_tv(a + b)
            == crate::transport::websocket::parsers::helpers::items_tv(a)
            + crate::transport::websocket::parsers::helpers::items_tv(b),
    decreases b.len(),
{
    let empty: Seq<JsonModel> = Seq::empty();
    let one = seq![item];
    assert(one.drop_last() =~= empty);
    assert(one.last() == item);
    assert(crate::transport::websocket::parsers::helpers::items_tv(empty) =~= Seq::<
        TvModel,
    >::empty());
    match crate::transport::websocket::parsers::helpers::json_tv(item) {
        Some(tv) => {
            assert(Seq::<TvModel>::empty().push(tv) =~= seq![tv]);
        },
        None => {},
    }
    let front = crate::transport::websocket::parsers::helpers::items_tv(a);
    if b.len() == 0 {
        assert(a + b =~= a);
        assert(b =~= empty);
        assert(front + Seq::<TvModel>::empty() =~= front);
    } else {
        lemma_list_is_read(a, b.drop_last(), item);
        assert((a + b).drop_last() =~= a + b.drop_last());
        assert((a + b).last() == b.last());
        let middle = crate::transport::websocket::parsers::helpers::items_tv(b.drop_last());
        match crate::transport::websocket::parsers::helpers::json_tv(b.last()) {
            Some(tv) => {
                assert((front + middle).push(tv) =~= front + middle.push(tv));
            },
            None => {},
        }
    }
}

/// A JSON value is told apart from all others by its kind and by what it holds.
pub proof fn lemma_json_is_told(json: Json)
    ensures
        match json {
            Json::Null => json@ == JsonModel::Null,
            Json::Bool(x) => json@ == JsonModel::Bool(x),
            Json::Number(x) => json@ == JsonModel::Number(x),
            Json::String(x) => json@ == JsonModel::Str(x@),
            Json::Array(x) => {
                &&& json@ matches JsonModel::Array(items)
                &&& items.len() == x@.len()
                &&& forall|i: int| 0 <= i < items.len() ==> #[trigger] items[i] == x@[i]@
            },
            Json::Object(x) => {
                &&& json@ matches JsonModel::Object(members)
                &&& members.dom() == x@.dom()
                &&& forall|key: Seq<char>| #[trigger]
                    members.contains_key(key) ==> members[key] == x@[key]@
            },
        },
{
    if let Json::Object(x) = json {
        crate::json::lemma_object_model(x);
    }
}

} // verus!
