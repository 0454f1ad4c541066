//! How a [`TransportableValue`] is written as JSON.

use vstd::prelude::*;

use crate::dict::Dict;
use crate::json::{Json, JsonModel};
use crate::transport::{TransportableValue, TvModel};

verus! {

/// The JSON form of a value: an integer as a number, a string as a string, a boolean as a boolean,
/// a list as an array and a dictionary as an object.
pub open spec fn tv_json(tv: TvModel) -> JsonModel
    decreases tv, 1int,
{
    match tv {
        TvModel::Integer(x) => JsonModel::Number(Some(x)),
        TvModel::Str(x) => JsonModel::Str(x),
        TvModel::Bool(x) => JsonModel::Bool(x),
        TvModel::List(x) => JsonModel::Array(list_json(x)),
        TvModel::Dict(_) => JsonModel::Object(members_json(tv)),
    }
}

/// The JSON forms of the values of a list.
pub open spec fn list_json(list: Seq<TvModel>) -> Seq<JsonModel>
    decreases list, 0int,
{
    Seq::new(
        list.len(),
        |i: int|
            if 0 <= i < list.len() {
                tv_json(list[i])
            } else {
                arbitrary()
            },
    )
}

/// The JSON forms of the values of a dictionary, by their keys.
pub open spec fn members_json(tv: TvModel) -> Map<Seq<char>, JsonModel>
    decreases tv, 0int,
{
    Map::new(
        |key: Seq<char>| tv is Dict && tv->Dict_0.contains_key(key),
        |key: Seq<char>|
            if tv is Dict && tv->Dict_0.contains_key(key) {
                tv_json(tv->Dict_0[key])
            } else {
                arbitrary()
            },
    )
}

/// The JSON form of a dictionary.
pub open spec fn dict_json(dict: Map<Seq<char>, TvModel>) -> JsonModel {
    tv_json(TvModel::Dict(dict))
}

/// Nothing but integers, strings, booleans, arrays and objects of them occurs in the JSON form of a
/// value, so that it can be written.
pub proof fn lemma_tv_json_writable(tv: TvModel)
    ensures
        crate::json::writable(tv_json(tv)),
    decreases tv,
{
    let json = tv_json(tv);
    match tv {
        TvModel::List(list) => {
            assert forall|i: int|
                json is Array && 0 <= i < json->Array_0.len() implies crate::json::writable(
                #[trigger] json->Array_0[i],
            ) by {
                lemma_tv_json_writable(list[i]);
            }
            assert(crate::json::items_writable(json));
        },
        TvModel::Dict(_) => {
            assert forall|key: Seq<char>|
                #![trigger json->Object_0[key]]
                json is Object && json->Object_0.contains_key(key) implies crate::json::writable(
                json->Object_0[key],
            ) by {
                lemma_tv_json_writable(tv->Dict_0[key]);
            }
            assert(crate::json::members_writable(json));
        },
        _ => {},
    }
}

impl TransportableValue {
    /// The JSON form of this value.
    pub fn to_json(&self) -> (json: Json)
        ensures
            json@ == tv_json(self@),
        decreases self,
    {
        match self {
            TransportableValue::Integer(x) => Json::Number(Some(*x)),
            TransportableValue::String(x) => Json::String(x.clone()),
            TransportableValue::Bool(x) => Json::Bool(*x),
            TransportableValue::List(x) => list_to_json(x),
            TransportableValue::Dict(x) => dict_to_json(x),
        }
    }
}

/// The JSON form of a list.
pub fn list_to_json(list: &Vec<TransportableValue>) -> (json: Json)
    ensures
        json@ == tv_json(TvModel::List(crate::transport::list_model(list@))),
    decreases list,
{
    let mut items: Vec<Json> = Vec::new();
    let mut i: usize = 0;
    while i < list.len()
        invariant
            i <= list.len(),
            items.len() == i,
            forall|j: int| 0 <= j < i ==> (#[trigger] items@[j])@ == tv_json(list@[j]@),
        decreases list.len() - i,
    {
        items.push(list[i].to_json());
        i += 1;
    }
    assert(crate::json::array_model(items@) =~= list_json(crate::transport::list_model(list@)));
    Json::Array(items)
}

/// The JSON form of a dictionary.
pub fn dict_to_json(dict: &Dict<TransportableValue>) -> (json: Json)
    ensures
        json@ == dict_json(crate::transport::dict_model(*dict)),
    decreases dict,
{
    let entries = dict.entries();
    let mut members: Vec<(String, Json)> = Vec::new();
    let mut i: usize = 0;
    while i < entries.len()
        invariant
            i <= entries.len(),
            *entries == dict.entries,
            members.len() == i,
            forall|j: int|
                0 <= j < i ==> (#[trigger] members@[j]).0@ == entries@[j].0@ && members@[j].1@
                    == tv_json(entries@[j].1@),
        decreases entries.len() - i,
    {
        let member = (entries[i].0.clone(), entries[i].1.to_json());
        members.push(member);
        i += 1;
    }
    proof {
        assert forall|j: int, k: int| 0 <= j < k < members@.len() implies (
        #[trigger] members@[j]).0@ != (#[trigger] members@[k]).0@ by {
            assert(entries@[j].0@ != entries@[k].0@);
        }
    }
    let object = Dict::from_entries(members);
    proof {
        let tv = TvModel::Dict(crate::transport::dict_model(*dict));
        lemma_members_json(*dict, object);
        assert(crate::json::object_model(object) =~= members_json(tv));
    }
    Json::Object(object)
}

/// Entries that agree one by one give the JSON form.
proof fn lemma_members_json(dict: Dict<TransportableValue>, object: Dict<Json>)
    requires
        crate::dict::keys_distinct(dict.entries@),
        crate::dict::keys_distinct(object.entries@),
        object.entries.len() == dict.entries.len(),
        forall|j: int|
            0 <= j < object.entries@.len() ==> (#[trigger] object.entries@[j]).0@
                == dict.entries@[j].0@ && object.entries@[j].1@ == tv_json(dict.entries@[j].1@),
    ensures
        crate::json::object_model(object).dom() == crate::transport::dict_model(dict).dom(),
        forall|key: Seq<char>| #[trigger]
            crate::json::object_model(object).contains_key(key) ==> crate::json::object_model(
                object,
            )[key] == tv_json(crate::transport::dict_model(dict)[key]),
{
    crate::json::lemma_object_model(object);
    crate::transport::lemma_dict_model(dict);
    dict.lemma_view();
    object.lemma_view();
    crate::dict::lemma_entries_map(dict.entries@);
    crate::dict::lemma_entries_map(object.entries@);
    assert forall|key: Seq<char>| #[trigger]
        crate::json::object_model(object).contains_key(key) implies crate::transport::dict_model(
        dict,
    ).contains_key(key) && crate::json::object_model(object)[key] == tv_json(
        crate::transport::dict_model(dict)[key],
    ) by {
        let j = choose|j: int| crate::dict::holds_key(object.entries@, j, key);
        assert(object.entries@[j].0@ == key);
        assert(dict.entries@[j].0@ == key);
    }
    assert forall|key: Seq<char>| #[trigger]
        crate::transport::dict_model(dict).contains_key(key) implies crate::json::object_model(
        object,
    ).contains_key(key) by {
        let j = choose|j: int| crate::dict::holds_key(dict.entries@, j, key);
        assert(object.entries@[j].0@ == key);
    }
    assert(crate::json::object_model(object).dom() =~= crate::transport::dict_model(dict).dom());
}

} // verus!
