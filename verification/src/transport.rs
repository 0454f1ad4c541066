//! The values and errors that cross a transport, and the first-party transports.

use vstd::prelude::*;
use vstd::string::StringExecFns;

use crate::dict::Dict;

pub mod value_json;
pub mod value_laws;
pub mod websocket;

verus! {

/// What a [`TransportableValue`] is, apart from how it is stored.
#[verifier::ext_equal]
pub enum TvModel {
    /// A non-negative integer.
    Integer(u64),
    /// A text.
    Str(Seq<char>),
    /// A boolean value.
    Bool(bool),
    /// A list of other values.
    List(Seq<TvModel>),
    /// A string-to-value mapping.
    Dict(Map<Seq<char>, TvModel>),
}

/// The types of value which can be sent over WAMP RPC and pub/sub boundaries.
#[derive(Debug)]
pub enum TransportableValue {
    /// A non-negative integer.
    Integer(u64),
    /// A UTF-8 encoded string.
    String(String),
    /// A boolean value.
    Bool(bool),
    /// A list of other values.
    List(Vec<TransportableValue>),
    /// A string-to-value mapping.
    Dict(Dict<TransportableValue>),
}

/// What a dictionary of values maps each key to.
pub closed spec fn dict_model(dict: Dict<TransportableValue>) -> Map<Seq<char>, TvModel>
    decreases dict,
{
    entries_model(dict.entries@)
}

/// What a list of entries maps each key to.
spec fn entries_model(entries: Seq<(String, TransportableValue)>) -> Map<Seq<char>, TvModel>
    decreases entries,
{
    if entries.len() == 0 {
        Map::empty()
    } else {
        entries_model(entries.drop_last()).insert(entries.last().0@, entries.last().1.view())
    }
}

/// What the values of a list are, one by one.
pub open spec fn list_model(list: Seq<TransportableValue>) -> Seq<TvModel>
    decreases list,
{
    Seq::new(
        list.len(),
        |i: int|
            if 0 <= i < list.len() {
                list[i].view()
            } else {
                arbitrary()
            },
    )
}

proof fn lemma_entries_model(entries: Seq<(String, TransportableValue)>)
    ensures
        entries_model(entries).dom() == crate::dict::entries_map(entries).dom(),
        forall|key: Seq<char>| #[trigger]
            entries_model(entries).contains_key(key) ==> entries_model(entries)[key]
                == crate::dict::entries_map(entries)[key]@,
    decreases entries.len(),
{
    if entries.len() > 0 {
        lemma_entries_model(entries.drop_last());
    }
}

/// A dictionary's model has the keys of the dictionary's view, each with the value's own model.
pub broadcast proof fn lemma_dict_model(dict: Dict<TransportableValue>)
    ensures
        #![trigger dict_model(dict)]
        dict_model(dict).dom() == dict@.dom(),
        forall|key: Seq<char>| #[trigger]
            dict_model(dict).contains_key(key) ==> dict_model(dict)[key] == dict@[key]@,
{
    lemma_entries_model(dict.entries@);
    dict.lemma_view();
}

/// Inserting a value into a dictionary inserts the value's model into the dictionary's model.
pub proof fn lemma_dict_model_insert(
    before: Dict<TransportableValue>,
    after: Dict<TransportableValue>,
    key: Seq<char>,
    value: TransportableValue,
)
    requires
        after@ == before@.insert(key, value),
    ensures
        dict_model(after) == dict_model(before).insert(key, value@),
{
    broadcast use lemma_dict_model;

    assert(dict_model(after) =~= dict_model(before).insert(key, value@));
}

/// An empty dictionary has an empty model.
pub proof fn lemma_dict_model_empty(dict: Dict<TransportableValue>)
    requires
        dict@ == Map::<Seq<char>, TransportableValue>::empty(),
    ensures
        dict_model(dict) == Map::<Seq<char>, TvModel>::empty(),
{
    broadcast use lemma_dict_model;

    assert(dict_model(dict) =~= Map::<Seq<char>, TvModel>::empty());
}

/// What positional data is, where there is any.
pub open spec fn arguments_model(arguments: Option<Vec<TransportableValue>>) -> Option<
    Seq<TvModel>,
> {
    match arguments {
        Some(list) => Some(list_model(list@)),
        None => None,
    }
}

/// What key-value data is, where there is any.
pub open spec fn arguments_kw_model(arguments_kw: Option<Dict<TransportableValue>>) -> Option<
    Map<Seq<char>, TvModel>,
> {
    match arguments_kw {
        Some(dict) => Some(dict_model(dict)),
        None => None,
    }
}

impl TransportableValue {
    /// What this value is.
    pub open spec fn view(&self) -> TvModel
        decreases self,
    {
        match self {
            TransportableValue::Integer(x) => TvModel::Integer(*x),
            TransportableValue::String(x) => TvModel::Str(x@),
            TransportableValue::Bool(x) => TvModel::Bool(*x),
            TransportableValue::List(x) => TvModel::List(list_model(x@)),
            TransportableValue::Dict(x) => TvModel::Dict(dict_model(*x)),
        }
    }

    /// Attempts to get the value, assuming it's an integer.
    pub fn as_int(&self) -> (value: Option<u64>)
        ensures
            value == (match self {
                TransportableValue::Integer(x) => Some(*x),
                _ => None,
            }),
    {
        match self {
            TransportableValue::Integer(x) => Some(*x),
            _ => None,
        }
    }

    /// Attempts to get the value, assuming it's a String.
    pub fn as_str(&self) -> (value: Option<&str>)
        ensures
            match value {
                Some(x) => self@ == TvModel::Str(x@),
                None => !(self@ is Str),
            },
    {
        match self {
            TransportableValue::String(ref x) => Some(x.as_str()),
            _ => None,
        }
    }

    /// Attempts to get the value, assuming it's a String.
    pub fn into_string(self) -> (value: Option<String>)
        ensures
            value == (match self {
                TransportableValue::String(x) => Some(x),
                _ => None,
            }),
    {
        match self {
            TransportableValue::String(x) => Some(x),
            _ => None,
        }
    }

    /// Attempts to get the value, assuming it's a boolean.
    pub fn as_bool(&self) -> (value: Option<bool>)
        ensures
            value == (match self {
                TransportableValue::Bool(x) => Some(*x),
                _ => None,
            }),
    {
        match self {
            TransportableValue::Bool(x) => Some(*x),
            _ => None,
        }
    }

    /// Attempts to get the value, assuming it's a list.
    pub fn as_list(&self) -> (value: Option<&Vec<TransportableValue>>)
        ensures
            value == (match self {
                TransportableValue::List(x) => Some(x),
                _ => None,
            }),
    {
        match self {
            TransportableValue::List(x) => Some(x),
            _ => None,
        }
    }

    /// Attempts to get the value, assuming it's a list.
    pub fn into_list(self) -> (value: Option<Vec<TransportableValue>>)
        ensures
            value == (match self {
                TransportableValue::List(x) => Some(x),
                _ => None,
            }),
    {
        match self {
            TransportableValue::List(x) => Some(x),
            _ => None,
        }
    }

    /// Attempts to get the value, assuming it's a dictionary.
    pub fn as_dict(&self) -> (value: Option<&Dict<TransportableValue>>)
        ensures
            value == (match self {
                TransportableValue::Dict(x) => Some(x),
                _ => None,
            }),
    {
        match self {
            TransportableValue::Dict(x) => Some(x),
            _ => None,
        }
    }

    /// Attempts to get the value, assuming it's a dictionary.
    pub fn into_dict(self) -> (value: Option<Dict<TransportableValue>>)
        ensures
            value == (match self {
                TransportableValue::Dict(x) => Some(x),
                _ => None,
            }),
    {
        match self {
            TransportableValue::Dict(x) => Some(x),
            _ => None,
        }
    }

    /// Copies this value.
    fn duplicate(&self) -> (copy: Self)
        ensures
            copy@ == self@,
        decreases self,
    {
        match self {
            TransportableValue::Integer(x) => TransportableValue::Integer(*x),
            TransportableValue::String(x) => TransportableValue::String(x.clone()),
            TransportableValue::Bool(x) => TransportableValue::Bool(*x),
            TransportableValue::List(x) => TransportableValue::List(duplicate_list(x)),
            TransportableValue::Dict(x) => TransportableValue::Dict(duplicate_dict(x)),
        }
    }

    /// Compares this value with another.
    fn same(&self, other: &Self) -> (same: bool)
        ensures
            same == (self@ == other@),
        decreases self, 0int,
    {
        match (self, other) {
            (TransportableValue::Integer(x), TransportableValue::Integer(y)) => *x == *y,
            (TransportableValue::String(x), TransportableValue::String(y)) => *x == *y,
            (TransportableValue::Bool(x), TransportableValue::Bool(y)) => *x == *y,
            (TransportableValue::List(x), TransportableValue::List(y)) => same_list(x, y),
            (TransportableValue::Dict(x), TransportableValue::Dict(y)) => same_dict(x, y),
            _ => false,
        }
    }
}

fn duplicate_list(list: &Vec<TransportableValue>) -> (copy: Vec<TransportableValue>)
    ensures
        list_model(copy@) == list_model(list@),
    decreases list,
{
    let mut copy: Vec<TransportableValue> = Vec::new();
    let mut i: usize = 0;
    while i < list.len()
        invariant
            i <= list.len(),
            copy.len() == i,
            forall|j: int| 0 <= j < i ==> (#[trigger] copy@[j])@ == list@[j]@,
        decreases list.len() - i,
    {
        copy.push(list[i].duplicate());
        i += 1;
    }
    assert(list_model(copy@) =~= list_model(list@));
    copy
}

fn duplicate_dict(dict: &Dict<TransportableValue>) -> (copy: Dict<TransportableValue>)
    ensures
        dict_model(copy) == dict_model(*dict),
    decreases dict,
{
    let entries = dict.entries();
    let mut copies: Vec<(String, TransportableValue)> = Vec::new();
    let mut i: usize = 0;
    while i < entries.len()
        invariant
            i <= entries.len(),
            *entries == dict.entries,
            copies.len() == i,
            forall|j: int|
                0 <= j < i ==> (#[trigger] copies@[j]).0@ == entries@[j].0@ && copies@[j].1@
                    == entries@[j].1@,
        decreases entries.len() - i,
    {
        let copy = (entries[i].0.clone(), entries[i].1.duplicate());
        copies.push(copy);
        i += 1;
    }
    proof {
        lemma_same_entries(copies@, entries@);
        assert forall|j: int, k: int| 0 <= j < k < copies@.len() implies (
        #[trigger] copies@[j]).0@ != (#[trigger] copies@[k]).0@ by {
            assert(entries@[j].0@ != entries@[k].0@);
        }
    }
    Dict::from_entries(copies)
}

/// Entries that agree one by one have the same model.
proof fn lemma_same_entries(
    a: Seq<(String, TransportableValue)>,
    b: Seq<(String, TransportableValue)>,
)
    requires
        a.len() == b.len(),
        forall|j: int| 0 <= j < a.len() ==> (#[trigger] a[j]).0@ == b[j].0@ && a[j].1@ == b[j].1@,
    ensures
        entries_model(a) == entries_model(b),
    decreases a.len(),
{
    if a.len() > 0 {
        lemma_same_entries(a.drop_last(), b.drop_last());
    }
}

fn same_list(a: &Vec<TransportableValue>, b: &Vec<TransportableValue>) -> (same: bool)
    ensures
        same == (list_model(a@) == list_model(b@)),
    decreases a, 0int,
{
    if a.len() != b.len() {
        assert(list_model(a@).len() != list_model(b@).len());
        return false;
    }
    let mut i: usize = 0;
    while i < a.len()
        invariant
            i <= a.len(),
            a.len() == b.len(),
            forall|j: int| 0 <= j < i ==> (#[trigger] a@[j])@ == b@[j]@,
        decreases a.len() - i,
    {
        if !a[i].same(&b[i]) {
            assert(list_model(a@)[i as int] != list_model(b@)[i as int]);
            return false;
        }
        i += 1;
    }
    assert(list_model(a@) =~= list_model(b@));
    true
}

/// Whether every entry of `a` is an entry of `b` too.
fn covered_by(a: &Dict<TransportableValue>, b: &Dict<TransportableValue>) -> (covered: bool)
    ensures
        covered == (dict_model(*a).submap_of(dict_model(*b))),
    decreases a, 0int,
{
    broadcast use lemma_dict_model;

    let entries = a.entries();
    proof {
        crate::dict::lemma_entries_map(entries@);
    }
    let mut i: usize = 0;
    while i < entries.len()
        invariant
            i <= entries.len(),
            *entries == a.entries,
            crate::dict::keys_distinct(entries@),
            a@ == crate::dict::entries_map(entries@),
            forall|j: int|
                0 <= j < i ==> b@.contains_key((#[trigger] entries@[j]).0@) && entries@[j].1@
                    == b@[entries@[j].0@]@,
        decreases entries.len() - i,
    {
        let entry = &entries[i];
        let found = match b.get(entry.0.as_str()) {
            Some(value) => entry.1.same(value),
            None => false,
        };
        if !found {
            proof {
                crate::dict::lemma_entries_map(entries@);
                lemma_dict_model(*a);
                lemma_dict_model(*b);
                let key = entries@[i as int].0@;
                assert(dict_model(*a).contains_key(key));
                assert(!(dict_model(*b).contains_key(key) && dict_model(*b)[key] == dict_model(
                    *a,
                )[key]));
            }
            return false;
        }
        i += 1;
    }
    assert(dict_model(*a).submap_of(dict_model(*b))) by {
        assert forall|key: Seq<char>| #[trigger] dict_model(*a).contains_key(key) implies dict_model(
            *b,
        ).contains_key(key) && dict_model(*a)[key] == dict_model(*b)[key] by {
            let j = choose|j: int| crate::dict::holds_key(entries@, j, key);
            assert(entries@[j].0@ == key);
        }
    }
    true
}

fn same_dict(a: &Dict<TransportableValue>, b: &Dict<TransportableValue>) -> (same: bool)
    ensures
        same == (dict_model(*a) == dict_model(*b)),
    decreases a, 1int,
{
    broadcast use lemma_dict_model;

    let same = a.len() == b.len() && covered_by(a, b);
    proof {
        if same {
            lemma_covering(dict_model(*a), dict_model(*b));
        }
    }
    same
}

/// A map that another one covers is that other one where both have equally many keys.
proof fn lemma_covering(a: Map<Seq<char>, TvModel>, b: Map<Seq<char>, TvModel>)
    requires
        a.submap_of(b),
        a.dom().finite(),
        b.dom().finite(),
        a.dom().len() == b.dom().len(),
    ensures
        a == b,
{
    vstd::set_lib::lemma_subset_equality(a.dom(), b.dom());
    assert(a =~= b);
}

/// Compares positional data.
pub fn same_arguments(
    a: &Option<Vec<TransportableValue>>,
    b: &Option<Vec<TransportableValue>>,
) -> (same: bool)
    ensures
        same == (arguments_model(*a) == arguments_model(*b)),
{
    match (a, b) {
        (Some(x), Some(y)) => same_list(x, y),
        (None, None) => true,
        _ => false,
    }
}

/// Compares key-value data.
pub fn same_arguments_kw(
    a: &Option<Dict<TransportableValue>>,
    b: &Option<Dict<TransportableValue>>,
) -> (same: bool)
    ensures
        same == (arguments_kw_model(*a) == arguments_kw_model(*b)),
{
    match (a, b) {
        (Some(x), Some(y)) => same_dict(x, y),
        (None, None) => true,
        _ => false,
    }
}

impl Clone for TransportableValue {
    fn clone(&self) -> (copy: Self)
        ensures
            copy@ == self@,
    {
        self.duplicate()
    }
}

impl Clone for Dict<TransportableValue> {
    fn clone(&self) -> (copy: Self)
        ensures
            dict_model(copy) == dict_model(*self),
    {
        duplicate_dict(self)
    }
}

impl PartialEq for TransportableValue {
    fn eq(&self, other: &Self) -> (same: bool) {
        self.same(other)
    }
}

impl Eq for TransportableValue {

}

impl vstd::std_specs::cmp::PartialEqSpecImpl for TransportableValue {
    open spec fn obeys_eq_spec() -> bool {
        true
    }

    open spec fn eq_spec(&self, other: &Self) -> bool {
        self@ == other@
    }
}

impl PartialEq for Dict<TransportableValue> {
    fn eq(&self, other: &Self) -> (same: bool) {
        same_dict(self, other)
    }
}

impl Eq for Dict<TransportableValue> {

}

impl vstd::std_specs::cmp::PartialEqSpecImpl for Dict<TransportableValue> {
    open spec fn obeys_eq_spec() -> bool {
        true
    }

    open spec fn eq_spec(&self, other: &Self) -> bool {
        dict_model(*self) == dict_model(*other)
    }
}

/// The different kinds of errors a transport could encounter, with the text of the error.
#[derive(Debug)]
pub enum TransportError {
    /// The client will handle a ParseError by sending an ABORT message,
    /// and then exiting.
    ParseError(String),
    /// The client will simply immediately exit.
    NetworkError(String),
}

/// What is shown of a transport error.
pub open spec fn transport_error_text(error: TransportError) -> Seq<char> {
    match error {
        TransportError::ParseError(text) => "message parse error: "@ + text@,
        TransportError::NetworkError(text) => "network error: "@ + text@,
    }
}

impl TransportError {
    /// What is shown of this error.
    pub fn text(&self) -> (text: String)
        ensures
            text@ == transport_error_text(*self),
    {
        match self {
            TransportError::ParseError(text) => {
                "message parse error: ".to_owned().concat(text.as_str())
            },
            TransportError::NetworkError(text) => "network error: ".to_owned().concat(
                text.as_str(),
            ),
        }
    }
}

/// What is shown of an error tells its kind and its text.
pub proof fn lemma_transport_error_is_shown(error: TransportError)
    ensures
        match error {
            TransportError::ParseError(text) => transport_error_text(error)
                == "message parse error: "@ + text@,
            TransportError::NetworkError(text) => transport_error_text(error) == "network error: "@
                + text@,
        },
{
}

} // verus!
