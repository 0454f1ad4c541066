//! WAMP IDs, which identify sessions, publications, subscriptions, registrations and requests.

use rand::{thread_rng, Rng};
use std::marker::PhantomData;
use vstd::prelude::*;

use crate::json::{Json, JsonModel};

verus! {

/// The maximum value of a WAMP ID.
pub const MAX_ID_VAL: u64 = 0x20_0000_0000_0000;

/// [`Id`]s in the global scope are chosen randomly from a uniform distribution over the possible
/// values of an [`Id`].
#[derive(Debug, Clone, Copy, Eq, PartialEq, Hash)]
pub enum GlobalScope {
    /// The only value; the type is what counts.
    Global,
}

/// [`Id`]s in the router scope are chosen by the router using an arbitrary algorithm.
#[derive(Debug, Clone, Copy, Eq, PartialEq, Hash)]
pub enum RouterScope {
    /// The only value; the type is what counts.
    Router,
}

/// [`Id`]s in the session scope are incremented by 1, from 1.
#[derive(Debug, Clone, Copy, Eq, PartialEq, Hash)]
pub enum SessionScope {
    /// The only value; the type is what counts.
    Session,
}

/// A WAMP ID is used to identify sessions, publications, subscriptions, registrations, and
/// requests.
///
/// WAMP IDs are internally integers between 0 and 2^53 (inclusive).
///
/// The type parameter should be one of [`GlobalScope`], [`RouterScope`], or [`SessionScope`]. It
/// is a compile time-only value which describes the scope of the ID.
#[derive(Debug, Eq, Hash)]
pub struct Id<Scope> {
    value: u64,
    _pd: PhantomData<Scope>,
}

impl<Scope> View for Id<Scope> {
    type V = u64;

    closed spec fn view(&self) -> u64 {
        self.value
    }
}

impl<Scope> Clone for Id<Scope> {
    fn clone(&self) -> (id: Self)
        ensures
            id == *self,
    {
        Id { value: self.value, _pd: PhantomData }
    }
}

impl<Scope> Copy for Id<Scope> {

}

impl<Scope> PartialEq for Id<Scope> {
    fn eq(&self, other: &Self) -> (same: bool) {
        self.value == other.value
    }
}

impl<Scope> vstd::std_specs::cmp::PartialEqSpecImpl for Id<Scope> {
    open spec fn obeys_eq_spec() -> bool {
        true
    }

    open spec fn eq_spec(&self, other: &Self) -> bool {
        self@ == other@
    }
}

impl<Scope> Id<Scope> {
    /// Creates an ID from a raw `u64`. Should not be used except by transport implementations.
    pub fn from_raw_value(value: u64) -> (id: Self)
        ensures
            id@ == value,
    {
        Id { value, _pd: PhantomData }
    }

    /// The raw `u64` of this ID.
    pub fn raw_value(&self) -> (value: u64)
        ensures
            value == self@,
    {
        self.value
    }
}

/// A random number below `limit`, from `rand::thread_rng().gen_range(0, limit)`.
///
/// `gen_range` draws from `[0, limit)` and panics on an empty range. Which number comes out is left
/// to chance.
#[verifier::external_body]
fn random_below(limit: u64) -> (n: u64)
    requires
        limit > 0,
    ensures
        n < limit,
{
    thread_rng().gen_range(0, limit)
}

impl Id<GlobalScope> {
    /// Generates a random global ID.
    pub fn generate() -> (id: Self)
        ensures
            id@ <= MAX_ID_VAL,
    {
        Id::from_raw_value(random_below(MAX_ID_VAL + 1))
    }
}

/// Where session IDs are handed out from; each session ID is one more than the one before.
#[derive(Debug)]
pub struct SessionIdSource {
    next: usize,
}

impl View for SessionIdSource {
    type V = usize;

    closed spec fn view(&self) -> usize {
        self.next
    }
}

/// The number that follows `n` among session IDs: one more, or 0 after the largest `usize`.
pub open spec fn session_successor(n: usize) -> usize {
    if n == usize::MAX {
        0
    } else {
        (n + 1) as usize
    }
}

/// The number that comes `steps` after `n` among session IDs.
pub open spec fn session_id_after(n: usize, steps: nat) -> usize
    decreases steps,
{
    if steps == 0 {
        n
    } else {
        session_successor(session_id_after(n, (steps - 1) as nat))
    }
}

/// The session ID that a fresh source hands out after `calls` earlier calls.
pub open spec fn nth_session_id(calls: nat) -> usize {
    session_id_after(1, calls)
}

impl SessionIdSource {
    /// Creates a source whose first ID is 1.
    pub fn new() -> (source: Self)
        ensures
            source@ == nth_session_id(0),
    {
        SessionIdSource { next: 1 }
    }
}

impl Id<SessionScope> {
    /// Generates a sequential ID.
    ///
    /// Note that this will overflow and silently wrap around to 0 after exhausting
    /// `usize::MAX` IDs.
    pub fn next(source: &mut SessionIdSource) -> (id: Self)
        ensures
            id@ == old(source)@,
            final(source)@ == session_successor(old(source)@),
    {
        let value: usize = source.next;
        source.next = value.wrapping_add(1);
        Id::from_raw_value(value as u64)
    }
}

/// The IDs of a fresh source count up from 1 and wrap around after the largest `usize`.
pub proof fn lemma_session_ids_count_up(calls: nat)
    ensures
        nth_session_id(calls) == (calls + 1) as int % (usize::MAX + 1),
    decreases calls,
{
    let m = usize::MAX + 1;
    if calls == 0 {
        vstd::arithmetic::div_mod::lemma_small_mod(1, m as nat);
    } else {
        lemma_session_ids_count_up((calls - 1) as nat);
        vstd::arithmetic::div_mod::lemma_add_mod_noop(calls as int, 1, m);
        vstd::arithmetic::div_mod::lemma_small_mod(1, m as nat);
        let before = nth_session_id((calls - 1) as nat) as int;
        assert(before == (calls as int) % m);
        if before == usize::MAX {
            vstd::arithmetic::div_mod::lemma_mod_self_0(m);
        } else {
            vstd::arithmetic::div_mod::lemma_small_mod((before + 1) as nat, m as nat);
        }
    }
}

/// Two of the first `usize::MAX` IDs of a fresh source are never the same.
pub proof fn lemma_session_ids_distinct(earlier: nat, later: nat)
    requires
        earlier < later,
        later <= usize::MAX,
    ensures
        nth_session_id(earlier) != nth_session_id(later),
{
    let m = (usize::MAX + 1) as nat;
    lemma_session_ids_count_up(earlier);
    lemma_session_ids_count_up(later);
    vstd::arithmetic::div_mod::lemma_small_mod(earlier + 1, m);
    if later == usize::MAX {
        vstd::arithmetic::div_mod::lemma_mod_self_0(m as int);
    } else {
        vstd::arithmetic::div_mod::lemma_small_mod(later + 1, m);
    }
}

/// Why something cannot be an ID.
#[derive(Debug, Clone, Copy, PartialEq, Eq)]
pub enum IdError {
    /// The number is larger than [`MAX_ID_VAL`].
    OutOfRange(u64),
    /// It is not a non-negative integer.
    NotInteger,
}

/// Reads IDs out of the integers that a deserializer comes across.
#[derive(Debug, Clone, Copy)]
pub struct ScopeVisitor;

impl ScopeVisitor {
    /// What is expected where an ID is read.
    pub fn expecting(&self) -> (text: &'static str)
        ensures
            text@ == "an integer between 0 and 2^53 (inclusive)"@,
    {
        "an integer between 0 and 2^53 (inclusive)"
    }

    /// Reads an 8-bit integer; each one is an ID.
    pub fn visit_u8(&self, value: u8) -> (id: Result<u64, IdError>)
        ensures
            id == Ok::<u64, IdError>(value as u64),
    {
        Ok(value as u64)
    }

    /// Reads a 16-bit integer; each one is an ID.
    pub fn visit_u16(&self, value: u16) -> (id: Result<u64, IdError>)
        ensures
            id == Ok::<u64, IdError>(value as u64),
    {
        Ok(value as u64)
    }

    /// Reads a 32-bit integer; each one is an ID.
    pub fn visit_u32(&self, value: u32) -> (id: Result<u64, IdError>)
        ensures
            id == Ok::<u64, IdError>(value as u64),
    {
        Ok(value as u64)
    }

    /// Reads a 64-bit integer, which is an ID unless it is larger than [`MAX_ID_VAL`].
    pub fn visit_u64(&self, value: u64) -> (id: Result<u64, IdError>)
        ensures
            id == (if value > MAX_ID_VAL {
                Err::<u64, IdError>(IdError::OutOfRange(value))
            } else {
                Ok::<u64, IdError>(value)
            }),
    {
        if value > MAX_ID_VAL {
            Err(IdError::OutOfRange(value))
        } else {
            Ok(value)
        }
    }
}

/// The ID that a JSON value is: an integer between 0 and 2^53 (inclusive).
pub open spec fn json_id(json: JsonModel) -> Result<u64, IdError> {
    match json {
        JsonModel::Number(Some(value)) => if value > MAX_ID_VAL {
            Err(IdError::OutOfRange(value))
        } else {
            Ok(value)
        },
        _ => Err(IdError::NotInteger),
    }
}

impl<Scope> Id<Scope> {
    /// The JSON form of this ID: a number.
    pub fn to_json(&self) -> (json: Json)
        ensures
            json@ == JsonModel::Number(Some(self@)),
    {
        Json::Number(Some(self.value))
    }

    /// Reads an ID.
    pub fn from_json(json: &Json) -> (id: Result<Self, IdError>)
        ensures
            match id {
                Ok(id) => json_id(json@) == Ok::<u64, IdError>(id@),
                Err(error) => json_id(json@) == Err::<u64, IdError>(error),
            },
    {
        match json.as_u64() {
            Some(value) => match ScopeVisitor.visit_u64(value) {
                Ok(value) => Ok(Id::from_raw_value(value)),
                Err(error) => Err(error),
            },
            None => Err(IdError::NotInteger),
        }
    }
}

/// Every ID in range is read back from its JSON form; one out of range is not.
pub proof fn lemma_id_read_back(value: u64)
    ensures
        json_id(JsonModel::Number(Some(value))) == (if value <= MAX_ID_VAL {
            Ok::<u64, IdError>(value)
        } else {
            Err::<u64, IdError>(IdError::OutOfRange(value))
        }),
{
}

/// A JSON value is read as an ID if and only if it is a number that is held as an integer of at most
/// 2^53, and then as that number; a larger one is out of range, and anything else is no integer.
pub proof fn lemma_which_json_is_an_id(json: JsonModel)
    ensures
        match json {
            JsonModel::Number(Some(value)) => if value <= 0x20_0000_0000_0000 {
                json_id(json) == Ok::<u64, IdError>(value)
            } else {
                json_id(json) == Err::<u64, IdError>(IdError::OutOfRange(value))
            },
            _ => json_id(json) == Err::<u64, IdError>(IdError::NotInteger),
        },
        MAX_ID_VAL == 0x20_0000_0000_0000,
{
}

} // verus!
