//! The session sidecar: the query string that each playback session sent
//! with its master-playlist request.

use crate::ids::{parse_uuid, uuid_value};
use dashmap::DashMap;
use vstd::prelude::*;

verus! {

/// The query strings that a map holds, each under its key.
pub uninterp spec fn session_map(map: DashMap<u128, String>) -> Map<u128, Seq<char>>;

/// `DashMap::new`: a map that holds nothing.
#[verifier::external_body]
fn session_map_new() -> (made: DashMap<u128, String>)
    ensures
        session_map(made).dom() == Set::<u128>::empty(),
{
    DashMap::new()
}

/// `DashMap::insert` under exclusive access: afterwards the key leads to
/// the given text, and every other key leads where it led before.
#[verifier::external_body]
fn session_map_insert(map: &mut DashMap<u128, String>, key: u128, query: String)
    ensures
        session_map(*final(map)) == session_map(*old(map)).insert(key, query@),
{
    map.insert(key, query);
}

/// `DashMap::get`, with the text cloned out: the text under the key, if the
/// map has one.
#[verifier::external_body]
fn session_map_get(map: &DashMap<u128, String>, key: u128) -> (r: Option<String>)
    ensures
        match r {
            Some(query) => session_map(*map).contains_key(key) && query@ == session_map(
                *map,
            )[key],
            None => !session_map(*map).contains_key(key),
        },
{
    match map.get(&key) {
        Some(entry) => Some(entry.value().clone()),
        None => None,
    }
}

/// `DashMap::iter`, with every text cloned out: each key of the map once,
/// with its text. The order is the one in which the map happens to be
/// walked, of which nothing is known.
#[verifier::external_body]
fn session_map_entries(map: &DashMap<u128, String>) -> (r: Vec<(u128, String)>)
    ensures
        lists_sessions(r.deep_view(), session_map(*map)),
{
    map.iter().map(|entry| (*entry.key(), entry.value().clone())).collect()
}

/// `list` names every key of `map` exactly once, each with what the map
/// holds under it, and nothing else.
pub open spec fn lists_sessions(list: Seq<(u128, Seq<char>)>, map: Map<u128, Seq<char>>) -> bool {
    &&& forall|i: int, j: int|
        0 <= i < j < list.len() ==> (#[trigger] list[i]).0 != (#[trigger] list[j]).0
    &&& forall|i: int|
        0 <= i < list.len() ==> map.contains_key((#[trigger] list[i]).0) && map[list[i].0]
            == list[i].1
    &&& forall|key: u128| #[trigger]
        map.contains_key(key) ==> exists|i: int| 0 <= i < list.len() && (#[trigger] list[i]).0 == key
}

/// The key under which a session's query is kept: the value of the session
/// identifier, or zero where the identifier is no UUID.
pub open spec fn session_key(session_id: Seq<char>) -> u128 {
    match uuid_value(session_id) {
        Some(id) => id,
        None => 0,
    }
}

/// The sidecar store. Changing it takes exclusive access: tasks that
/// share one keep it behind a lock.
pub struct UserDefinedQueryParams {
    params: DashMap<u128, String>,
}

impl UserDefinedQueryParams {
    /// The query strings in the store, each under its session's key.
    pub closed spec fn view(&self) -> Map<u128, Seq<char>> {
        session_map(self.params)
    }

    /// An empty store.
    pub fn new() -> (r: Self)
        ensures
            r@ == Map::<u128, Seq<char>>::empty(),
    {
        let r = UserDefinedQueryParams { params: session_map_new() };
        assert(r@ =~= Map::<u128, Seq<char>>::empty());
        r
    }

    /// Puts a query string under a key, in place of what was there.
    pub fn insert(&mut self, key: u128, query: String)
        ensures
            final(self)@ == old(self)@.insert(key, query@),
    {
        session_map_insert(&mut self.params, key, query);
    }

    /// The query string under a key, if there is one.
    pub fn get(&self, key: u128) -> (r: Option<String>)
        ensures
            match r {
                Some(query) => self@.contains_key(key) && query@ == self@[key],
                None => !self@.contains_key(key),
            },
    {
        session_map_get(&self.params, key)
    }

    /// Every query string of the store with its key, each once, in the
    /// order in which the store happens to enumerate them.
    pub fn entries(&self) -> (r: Vec<(u128, String)>)
        ensures
            lists_sessions(r.deep_view(), self@),
    {
        session_map_entries(&self.params)
    }

    /// What the store holds after a master-playlist request: where the
    /// request carries both a session identifier and a query that is not
    /// empty, the query stands under the session's key; otherwise nothing
    /// has changed.
    pub open spec fn remembered(
        before: Map<u128, Seq<char>>,
        session_id: Option<Seq<char>>,
        query: Option<Seq<char>>,
    ) -> Map<u128, Seq<char>> {
        match (session_id, query) {
            (Some(id), Some(q)) => if q.len() > 0 {
                before.insert(session_key(id), q)
            } else {
                before
            },
            _ => before,
        }
    }

    /// Records what a master-playlist request brought along: the value of
    /// its `X-Playback-Session-ID` header and its raw query string.
    pub fn remember(&mut self, session_id: Option<&str>, query: Option<&str>)
        ensures
            final(self)@ == Self::remembered(
                old(self)@,
                match session_id {
                    Some(id) => Some(id@),
                    None => None,
                },
                match query {
                    Some(q) => Some(q@),
                    None => None,
                },
            ),
    {
        match (session_id, query) {
            (Some(id), Some(q)) => {
                if q.unicode_len() > 0 {
                    let key: u128 = match parse_uuid(id) {
                        Ok(value) => value,
                        Err(_) => 0,
                    };
                    self.insert(key, q.to_owned());
                }
            },
            _ => {},
        }
    }

    /// The query string that a session sent along, looked up by the
    /// session identifier as the player echoes it. None where the
    /// identifier is no UUID or nothing is kept for it.
    pub open spec fn recalled(store: Map<u128, Seq<char>>, session_id: Seq<char>) -> Option<
        Seq<char>,
    > {
        match uuid_value(session_id) {
            Some(id) => if store.contains_key(id) {
                Some(store[id])
            } else {
                None
            },
            None => None,
        }
    }

    /// Looks up the query string of a session.
    pub fn recall(&self, session_id: &str) -> (r: Option<String>)
        ensures
            r.deep_view() == Self::recalled(self@, session_id@),
    {
        match parse_uuid(session_id) {
            Ok(id) => self.get(id),
            Err(_) => None,
        }
    }
}

impl Default for UserDefinedQueryParams {
    /// An empty store.
    fn default() -> (r: Self)
        ensures
            r@ == Map::<u128, Seq<char>>::empty(),
    {
        UserDefinedQueryParams::new()
    }
}

} // verus!
