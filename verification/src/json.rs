//! JSON values, as far as WAMP messages use them, and their textual form.

use vstd::prelude::*;

use crate::dict::Dict;

verus! {

/// What a JSON value is, apart from how it is stored.
#[verifier::ext_equal]
pub enum JsonModel {
    /// `null`.
    Null,
    /// `true` or `false`.
    Bool(bool),
    /// A number: its value where it is held as an integer from 0 to 2^64 - 1, and `None` otherwise.
    Number(Option<u64>),
    /// A text.
    Str(Seq<char>),
    /// An array.
    Array(Seq<JsonModel>),
    /// An object.
    Object(Map<Seq<char>, JsonModel>),
}

/// A JSON value.
///
/// Of numbers only those that are held as integers from 0 to 2^64 - 1 are told apart: they are all
/// that a WAMP message makes use of. `1.0` and `1e2` are not held as integers.
#[derive(Debug)]
pub enum Json {
    /// `null`.
    Null,
    /// `true` or `false`.
    Bool(bool),
    /// A number: its value where it is held as an integer from 0 to 2^64 - 1, and `None` otherwise.
    Number(Option<u64>),
    /// A string.
    String(String),
    /// An array.
    Array(Vec<Json>),
    /// An object.
    Object(Dict<Json>),
}

/// What an object maps each key to.
pub closed spec fn object_model(dict: Dict<Json>) -> Map<Seq<char>, JsonModel>
    decreases dict,
{
    members_model(dict.entries@)
}

/// What a list of members maps each key to.
spec fn members_model(members: Seq<(String, Json)>) -> Map<Seq<char>, JsonModel>
    decreases members,
{
    if members.len() == 0 {
        Map::empty()
    } else {
        members_model(members.drop_last()).insert(members.last().0@, members.last().1.view())
    }
}

/// What the values of an array are, one by one.
pub open spec fn array_model(items: Seq<Json>) -> Seq<JsonModel>
    decreases items,
{
    Seq::new(
        items.len(),
        |i: int|
            if 0 <= i < items.len() {
                items[i].view()
            } else {
                arbitrary()
            },
    )
}

/// No items have an empty model.
pub broadcast proof fn lemma_array_model_empty(items: Seq<Json>)
    requires
        items.len() == 0,
    ensures
        #[trigger] array_model(items) == Seq::<JsonModel>::empty(),
{
    assert(array_model(items) =~= Seq::<JsonModel>::empty());
}

/// Pushing an item pushes its model.
pub broadcast proof fn lemma_array_model_push(items: Seq<Json>, item: Json)
    ensures
        #[trigger] array_model(items.push(item)) == array_model(items).push(item@),
{
    assert(array_model(items.push(item)) =~= array_model(items).push(item@));
}

proof fn lemma_members_model(members: Seq<(String, Json)>)
    ensures
        members_model(members).dom() == crate::dict::entries_map(members).dom(),
        forall|key: Seq<char>| #[trigger]
            members_model(members).contains_key(key) ==> members_model(members)[key]
                == crate::dict::entries_map(members)[key]@,
    decreases members.len(),
{
    if members.len() > 0 {
        lemma_members_model(members.drop_last());
    }
}

/// An object's model has the keys of the object's view, each with the value's own model.
pub broadcast proof fn lemma_object_model(dict: Dict<Json>)
    ensures
        #![trigger object_model(dict)]
        object_model(dict).dom() == dict@.dom(),
        forall|key: Seq<char>| #[trigger]
            object_model(dict).contains_key(key) ==> object_model(dict)[key] == dict@[key]@,
{
    lemma_members_model(dict.entries@);
    dict.lemma_view();
}

/// An empty object has an empty model.
pub proof fn lemma_object_model_empty(dict: Dict<Json>)
    requires
        dict@ == Map::<Seq<char>, Json>::empty(),
    ensures
        object_model(dict) == Map::<Seq<char>, JsonModel>::empty(),
{
    lemma_object_model(dict);
    assert(object_model(dict) =~= Map::<Seq<char>, JsonModel>::empty());
}

/// Inserting a value into an object inserts the value's model into the object's model.
pub proof fn lemma_object_model_insert(
    before: Dict<Json>,
    after: Dict<Json>,
    key: Seq<char>,
    value: Json,
)
    requires
        after@ == before@.insert(key, value),
    ensures
        object_model(after) == object_model(before).insert(key, value@),
{
    lemma_object_model(before);
    lemma_object_model(after);
    assert(object_model(after) =~= object_model(before).insert(key, value@));
}

/// Every number in a value is held as an integer from 0 to 2^64 - 1, so that the model says all of
/// it.
pub open spec fn writable(json: JsonModel) -> bool
    decreases json, 1int,
{
    match json {
        JsonModel::Number(number) => number is Some,
        JsonModel::Array(_) => items_writable(json),
        JsonModel::Object(_) => members_writable(json),
        _ => true,
    }
}

/// Every item of an array is [`writable`].
pub open spec fn items_writable(json: JsonModel) -> bool
    decreases json, 0int,
{
    forall|i: int|
        json is Array && 0 <= i < json->Array_0.len() ==> writable(#[trigger] json->Array_0[i])
}

/// The value of every member of an object is [`writable`].
pub open spec fn members_writable(json: JsonModel) -> bool
    decreases json, 0int,
{
    forall|key: Seq<char>|
        #![trigger json->Object_0[key]]
        json is Object && json->Object_0.contains_key(key) ==> writable(json->Object_0[key])
}

/// Arrays and objects stand in one another at most `levels` deep.
pub open spec fn nested_within(json: JsonModel, levels: nat) -> bool
    decreases json, 1int,
{
    match json {
        JsonModel::Array(_) => levels > 0 && items_nested_within(json, (levels - 1) as nat),
        JsonModel::Object(_) => levels > 0 && members_nested_within(json, (levels - 1) as nat),
        _ => true,
    }
}

/// Every item of an array is [`nested_within`] so many levels.
pub open spec fn items_nested_within(json: JsonModel, levels: nat) -> bool
    decreases json, 0int,
{
    forall|i: int|
        json is Array && 0 <= i < json->Array_0.len() ==> nested_within(
            #[trigger] json->Array_0[i],
            levels,
        )
}

/// The value of every member of an object is [`nested_within`] so many levels.
pub open spec fn members_nested_within(json: JsonModel, levels: nat) -> bool
    decreases json, 0int,
{
    forall|key: Seq<char>|
        #![trigger json->Object_0[key]]
        json is Object && json->Object_0.contains_key(key) ==> nested_within(
            json->Object_0[key],
            levels,
        )
}

/// How deep arrays and objects may stand in one another in a text that is parsed.
pub const MAX_NESTING: u64 = 127;

/// `serde_json::Value`, a JSON value of any kind.
#[verifier::external_type_specification]
#[verifier::external_body]
pub struct ExValue(serde_json::Value);

/// What a `serde_json::Value` holds.
pub uninterp spec fn value_model(value: serde_json::Value) -> JsonModel;

/// The value that `serde_json::from_str` reads from a text, or its error message where the text is
/// not JSON.
pub uninterp spec fn parsed_json(text: Seq<char>) -> Result<JsonModel, Seq<char>>;

/// The text that `serde_json::to_string` writes for a value.
pub uninterp spec fn written_json(json: JsonModel) -> Seq<char>;

/// One level of a `serde_json::Value`.
enum ValueNode {
    Null,
    Bool(bool),
    Number(Option<u64>),
    String(String),
    Array(Vec<serde_json::Value>),
    Object(Vec<(String, serde_json::Value)>),
}

/// What the values of an array are, one by one.
spec fn values_model(items: Seq<serde_json::Value>) -> Seq<JsonModel> {
    Seq::new(items.len(), |i: int| value_model(items[i]))
}

/// What a list of members maps each key to.
spec fn value_members_model(members: Seq<(String, serde_json::Value)>) -> Map<
    Seq<char>,
    JsonModel,
> {
    crate::dict::entries_map(members).map_values(|value: serde_json::Value| value_model(value))
}

/// What a node holds.
spec fn node_model(node: ValueNode) -> JsonModel {
    match node {
        ValueNode::Null => JsonModel::Null,
        ValueNode::Bool(x) => JsonModel::Bool(x),
        ValueNode::Number(x) => JsonModel::Number(x),
        ValueNode::String(x) => JsonModel::Str(x@),
        ValueNode::Array(x) => JsonModel::Array(values_model(x@)),
        ValueNode::Object(x) => JsonModel::Object(value_members_model(x@)),
    }
}

/// Parses a text with `serde_json::from_str`. Which value it reads, or with which message it fails,
/// is a function of the text.
#[verifier::external_body]
fn value_from_str(text: &str) -> (result: Result<serde_json::Value, String>)
    ensures
        match result {
            Ok(value) => parsed_json(text@) matches Ok(json) && json == value_model(value),
            Err(message) => parsed_json(text@) matches Err(text) && text == message@,
        },
{
    match serde_json::from_str(text) {
        Ok(value) => Ok(value),
        Err(error) => Err(error.to_string()),
    }
}

/// Writes a value with `serde_json::to_string`, which succeeds on every `Value`. Where all numbers
/// are held as integers from 0 to 2^64 - 1 the text is a function of the model; and
/// `serde_json::from_str` reads the value back from it if arrays and objects are nested at most
/// 127 levels deep.
#[verifier::external_body]
fn value_to_string(value: &serde_json::Value) -> (result: Result<String, String>)
    requires
        writable(value_model(*value)),
    ensures
        result is Ok,
        result->Ok_0@ == written_json(value_model(*value)),
        nested_within(value_model(*value), MAX_NESTING as nat) ==> parsed_json(
            result->Ok_0@,
        ) is Ok && parsed_json(result->Ok_0@)->Ok_0 == value_model(*value),
{
    match serde_json::to_string(value) {
        Ok(text) => Ok(text),
        Err(error) => Err(error.to_string()),
    }
}

/// Takes a `serde_json::Value` apart, one level deep. `Number::as_u64` gives the numbers that are
/// held as integers from 0 to 2^64 - 1; a `serde_json::Map` holds each key once.
#[verifier::external_body]
fn open_value(value: serde_json::Value) -> (node: ValueNode)
    ensures
        node_model(node) == value_model(value),
        node matches ValueNode::Object(members) ==> crate::dict::keys_distinct(members@),
{
    match value {
        serde_json::Value::Null => ValueNode::Null,
        serde_json::Value::Bool(x) => ValueNode::Bool(x),
        serde_json::Value::Number(x) => ValueNode::Number(x.as_u64()),
        serde_json::Value::String(x) => ValueNode::String(x),
        serde_json::Value::Array(x) => ValueNode::Array(x),
        serde_json::Value::Object(x) => ValueNode::Object(x.into_iter().collect()),
    }
}

/// Puts a `serde_json::Value` together from one level, the opposite of taking it apart.
#[verifier::external_body]
fn close_node(node: ValueNode) -> (value: serde_json::Value)
    requires
        node matches ValueNode::Number(number) ==> number is Some,
        node matches ValueNode::Object(members) ==> crate::dict::keys_distinct(members@),
    ensures
        value_model(value) == node_model(node),
{
    match node {
        ValueNode::Null => serde_json::Value::Null,
        ValueNode::Bool(x) => serde_json::Value::Bool(x),
        ValueNode::Number(x) => serde_json::Value::from(x),
        ValueNode::String(x) => serde_json::Value::String(x),
        ValueNode::Array(x) => serde_json::Value::Array(x),
        ValueNode::Object(x) => serde_json::Value::Object(x.into_iter().collect()),
    }
}

/// An item of an array is smaller than the array.
proof fn lemma_item_smaller(json: JsonModel, i: int)
    requires
        json is Array,
        0 <= i < json->Array_0.len(),
    ensures
        decreases_to!(json => json->Array_0[i]),
{
    let items = json->Array_0;
    assert(decreases_to!(items => items[i]));
}

/// A value in an object is smaller than the object.
proof fn lemma_member_smaller(json: JsonModel, key: Seq<char>)
    requires
        json is Object,
        json->Object_0.contains_key(key),
        json->Object_0.dom().finite(),
    ensures
        decreases_to!(json => json->Object_0[key]),
{
    let members = json->Object_0;
    assert(decreases_to!(members => members[key]));
}

/// Members that agree one by one have the same model.
proof fn lemma_members_agree(a: Seq<(String, serde_json::Value)>, b: Seq<(String, Json)>)
    requires
        a.len() == b.len(),
        forall|j: int|
            0 <= j < a.len() ==> (#[trigger] a[j]).0@ == b[j].0@ && value_model(a[j].1) == b[j].1@,
    ensures
        value_members_model(a) == members_model(b),
    decreases a.len(),
{
    if a.len() > 0 {
        lemma_members_agree(a.drop_last(), b.drop_last());
        assert(value_members_model(a) =~= value_members_model(a.drop_last()).insert(
            a.last().0@,
            value_model(a.last().1),
        ));
    } else {
        assert(value_members_model(a) =~= members_model(b));
    }
}

impl Json {
    /// What this value is.
    pub open spec fn view(&self) -> JsonModel
        decreases self,
    {
        match self {
            Json::Null => JsonModel::Null,
            Json::Bool(x) => JsonModel::Bool(*x),
            Json::Number(x) => JsonModel::Number(*x),
            Json::String(x) => JsonModel::Str(x@),
            Json::Array(x) => JsonModel::Array(array_model(x@)),
            Json::Object(x) => JsonModel::Object(object_model(*x)),
        }
    }

    /// Reads a `serde_json::Value`.
    pub fn from_value(value: serde_json::Value) -> (json: Json)
        ensures
            json@ == value_model(value),
        decreases value_model(value),
    {
        match open_value(value) {
            ValueNode::Null => Json::Null,
            ValueNode::Bool(x) => Json::Bool(x),
            ValueNode::Number(x) => Json::Number(x),
            ValueNode::String(x) => Json::String(x),
            ValueNode::Array(items) => {
                let ghost all = items@;
                let mut out: Vec<Json> = Vec::new();
                for item in iter: items
                    invariant
                        iter.seq() == all,
                        value_model(value) == JsonModel::Array(values_model(all)),
                        out.len() == iter.index(),
                        forall|j: int| 0 <= j < out.len() ==> (#[trigger] out@[j])@ == value_model(all[j]),
                {
                    proof {
                        assert(values_model(all)[iter.index()] == value_model(item));
                        lemma_item_smaller(value_model(value), iter.index());
                    }
                    out.push(Json::from_value(item));
                }
                assert(array_model(out@) =~= values_model(all));
                Json::Array(out)
            },
            ValueNode::Object(members) => {
                let ghost all = members@;
                let mut out: Dict<Json> = Dict::new();
                proof {
                    lemma_object_model_empty(out);
                    assert(value_members_model(all.take(0)) =~= Map::<Seq<char>, JsonModel>::empty());
                }
                for member in iter: members
                    invariant
                        iter.seq() == all,
                        crate::dict::keys_distinct(all),
                        value_model(value) == JsonModel::Object(value_members_model(all)),
                        object_model(out) == value_members_model(all.take(iter.index())),
                {
                    let ghost at = iter.index();
                    proof {
                        crate::dict::lemma_entries_map(all);
                        assert(member == all[at]);
                        assert(value_members_model(all)[member.0@] == value_model(member.1));
                        assert(all.take(at + 1).drop_last() =~= all.take(at));
                        assert(value_members_model(all).dom() =~= crate::dict::entries_map(
                            all,
                        ).dom());
                        lemma_member_smaller(value_model(value), member.0@);
                    }
                    let ghost before = out;
                    let (key, inner) = member;
                    let read = Json::from_value(inner);
                    out.insert(key, read);
                    proof {
                        lemma_object_model_insert(before, out, key@, read);
                        assert(value_members_model(all.take(at + 1)) =~= value_members_model(
                            all.take(at),
                        ).insert(key@, value_model(inner)));
                    }
                }
                assert(all.take(all.len() as int) =~= all);
                Json::Object(out)
            },
        }
    }

    /// Builds the `serde_json::Value`.
    pub fn to_value(&self) -> (value: serde_json::Value)
        requires
            writable(self@),
        ensures
            value_model(value) == self@,
        decreases self,
    {
        match self {
            Json::Null => close_node(ValueNode::Null),
            Json::Bool(x) => close_node(ValueNode::Bool(*x)),
            Json::Number(x) => close_node(ValueNode::Number(*x)),
            Json::String(x) => close_node(ValueNode::String(x.clone())),
            Json::Array(items) => {
                let mut values: Vec<serde_json::Value> = Vec::new();
                let mut i: usize = 0;
                while i < items.len()
                    invariant
                        i <= items.len(),
                        self matches Json::Array(all) && *items == all,
                        writable(self@),
                        values.len() == i,
                        forall|j: int| 0 <= j < i ==> value_model(#[trigger] values@[j]) == items@[j]@,
                    decreases items.len() - i,
                {
                    proof {
                        let model = array_model(items@);
                        assert(self@ == JsonModel::Array(model));
                        assert(items_writable(self@));
                        assert(writable(self@->Array_0[i as int]));
                        assert(model[i as int] == items@[i as int]@);
                    }
                    values.push(items[i].to_value());
                    i += 1;
                }
                assert(values_model(values@) =~= array_model(items@));
                close_node(ValueNode::Array(values))
            },
            Json::Object(dict) => {
                let entries = dict.entries();
                let mut members: Vec<(String, serde_json::Value)> = Vec::new();
                let mut i: usize = 0;
                while i < entries.len()
                    invariant
                        i <= entries.len(),
                        *entries == dict.entries,
                        self matches Json::Object(all) && *dict == all,
                        writable(self@),
                        crate::dict::keys_distinct(entries@),
                        dict@ == crate::dict::entries_map(entries@),
                        members.len() == i,
                        forall|j: int|
                            0 <= j < i ==> (#[trigger] members@[j]).0@ == entries@[j].0@
                                && value_model(members@[j].1) == entries@[j].1@,
                    decreases entries.len() - i,
                {
                    proof {
                        crate::dict::lemma_entries_map(entries@);
                        lemma_object_model(*dict);
                        let key = entries@[i as int].0@;
                        assert(object_model(*dict).contains_key(key));
                        assert(self@ == JsonModel::Object(object_model(*dict)));
                        assert(members_writable(self@));
                        assert(writable(self@->Object_0[key]));
                        assert(object_model(*dict)[key] == entries@[i as int].1@);
                    }
                    let key = entries[i].0.clone();
                    let value = entries[i].1.to_value();
                    members.push((key, value));
                    i += 1;
                }
                proof {
                    lemma_members_agree(members@, entries@);
                    assert forall|j: int, k: int| 0 <= j < k < members@.len() implies (
                    #[trigger] members@[j]).0@ != (#[trigger] members@[k]).0@ by {
                        assert(entries@[j].0@ != entries@[k].0@);
                    }
                }
                close_node(ValueNode::Object(members))
            },
        }
    }

    /// Parses a text.
    pub fn parse(text: &str) -> (result: Result<Json, String>)
        ensures
            match result {
                Ok(json) => parsed_json(text@) matches Ok(model) && model == json@,
                Err(message) => parsed_json(text@) matches Err(text) && text == message@,
            },
    {
        match value_from_str(text) {
            Ok(value) => Ok(Json::from_value(value)),
            Err(message) => Err(message),
        }
    }

    /// Writes this value as a text, from which [`Json::parse`] reads it back unless it is nested
    /// too deep.
    pub fn write(&self) -> (result: Result<String, String>)
        requires
            writable(self@),
        ensures
            result is Ok,
            result->Ok_0@ == written_json(self@),
            nested_within(self@, MAX_NESTING as nat) ==> (parsed_json(
                result->Ok_0@,
            ) matches Ok(json) && json == self@),
    {
        value_to_string(&self.to_value())
    }

    /// The value, if it is a number that is held as an integer from 0 to 2^64 - 1.
    pub fn as_u64(&self) -> (value: Option<u64>)
        ensures
            value == (match self@ {
                JsonModel::Number(number) => number,
                _ => None,
            }),
    {
        match self {
            Json::Number(number) => *number,
            _ => None,
        }
    }

    /// The value, if it is a string.
    pub fn as_str(&self) -> (value: Option<&str>)
        ensures
            match value {
                Some(text) => self@ == JsonModel::Str(text@),
                None => !(self@ is Str),
            },
    {
        match self {
            Json::String(text) => Some(text.as_str()),
            _ => None,
        }
    }
}

/// Arrays and objects are nested one level deeper than what is in them; nothing else is nested.
pub proof fn lemma_nesting_counts_levels(json: JsonModel, levels: nat)
    ensures
        match json {
            JsonModel::Array(items) => {
                &&& !nested_within(json, 0)
                &&& nested_within(json, levels + 1) <==> forall|i: int|
                    0 <= i < items.len() ==> nested_within(#[trigger] items[i], levels)
            },
            JsonModel::Object(members) => {
                &&& !nested_within(json, 0)
                &&& nested_within(json, levels + 1) <==> forall|key: Seq<char>| #[trigger]
                    members.contains_key(key) ==> nested_within(members[key], levels)
            },
            _ => nested_within(json, levels),
        },
{
    match json {
        JsonModel::Array(items) => {
            if nested_within(json, levels + 1) {
                assert(items_nested_within(json, levels));
                assert forall|i: int| 0 <= i < items.len() implies nested_within(
                    #[trigger] items[i],
                    levels,
                ) by {
                    assert(json->Array_0[i] == items[i]);
                }
            }
            if forall|i: int| 0 <= i < items.len() ==> nested_within(#[trigger] items[i], levels) {
                assert(items_nested_within(json, levels));
            }
        },
        JsonModel::Object(members) => {
            if nested_within(json, levels + 1) {
                assert(members_nested_within(json, levels));
                assert forall|key: Seq<char>| #[trigger] members.contains_key(
                    key,
                ) implies nested_within(members[key], levels) by {
                    assert(json->Object_0[key] == members[key]);
                }
            }
            if forall|key: Seq<char>| #[trigger]
                members.contains_key(key) ==> nested_within(members[key], levels) {
                assert(members_nested_within(json, levels));
            }
        },
        _ => {},
    }
}

/// A value can be written if every number in it is held as an integer, however deep it stands.
pub proof fn lemma_integers_are_writable(json: JsonModel)
    ensures
        match json {
            JsonModel::Number(number) => writable(json) <==> number is Some,
            JsonModel::Array(items) => writable(json) <==> forall|i: int|
                0 <= i < items.len() ==> writable(#[trigger] items[i]),
            JsonModel::Object(members) => writable(json) <==> forall|key: Seq<char>| #[trigger]
                members.contains_key(key) ==> writable(members[key]),
            _ => writable(json),
        },
{
    match json {
        JsonModel::Array(items) => {
            if writable(json) {
                assert(items_writable(json));
                assert forall|i: int| 0 <= i < items.len() implies writable(#[trigger] items[i]) by {
                    assert(json->Array_0[i] == items[i]);
                }
            }
            if forall|i: int| 0 <= i < items.len() ==> writable(#[trigger] items[i]) {
                assert(items_writable(json));
            }
        },
        JsonModel::Object(members) => {
            if writable(json) {
                assert(members_writable(json));
                assert forall|key: Seq<char>| #[trigger] members.contains_key(key) implies writable(
                    members[key],
                ) by {
                    assert(json->Object_0[key] == members[key]);
                }
            }
            if forall|key: Seq<char>| #[trigger]
                members.contains_key(key) ==> writable(members[key]) {
                assert(members_writable(json));
            }
        },
        _ => {},
    }
}

} // verus!
