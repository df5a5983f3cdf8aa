//! Resolved ads and the registry that keeps them for follow-up requests.

use crate::vast::{Tracking, TrackingView, UniversalAdId, UniversalAdIdView};
use dashmap::DashMap;
use vstd::prelude::*;

verus! {

/// A resolved creative.
#[derive(Clone, Debug, PartialEq, Eq)]
pub struct Ad {
    /// Identity, minted when the creative is resolved.
    pub ad_id: u128,
    /// The creative's identifiers in ad registries.
    pub universal_ad_ids: Vec<UniversalAdId>,
    /// Duration in milliseconds.
    pub duration: u64,
    /// The media URL.
    pub url: String,
    /// When the creative was resolved, in milliseconds since the epoch.
    pub requested_at: i64,
    /// The tracking records.
    pub tracking: Vec<Tracking>,
}

/// What an [`Ad`] holds.
pub struct AdView {
    pub ad_id: u128,
    pub universal_ad_ids: Seq<UniversalAdIdView>,
    pub duration: u64,
    pub url: Seq<char>,
    pub requested_at: i64,
    pub tracking: Seq<TrackingView>,
}

impl DeepView for Ad {
    type V = AdView;

    open spec fn deep_view(&self) -> AdView {
        AdView {
            ad_id: self.ad_id,
            universal_ad_ids: self.universal_ad_ids.deep_view(),
            duration: self.duration,
            url: self.url@,
            requested_at: self.requested_at,
            tracking: self.tracking.deep_view(),
        }
    }
}

#[verifier::external_type_specification]
#[verifier::external_body]
#[verifier::reject_recursive_types(K)]
#[verifier::reject_recursive_types(V)]
#[verifier::reject_recursive_types(S)]
pub struct ExDashMap<K, V, S>(DashMap<K, V, S>);

/// The ads that a map holds, each under its key.
pub uninterp spec fn ad_map(map: DashMap<u128, Ad>) -> Map<u128, AdView>;

/// `DashMap::new`: a map that holds nothing.
#[verifier::external_body]
fn ad_map_new() -> (made: DashMap<u128, Ad>)
    ensures
        ad_map(made).dom() == Set::<u128>::empty(),
{
    DashMap::new()
}

/// `DashMap::insert` under exclusive access: afterwards the key leads to
/// the given ad, and every other key leads where it led before.
#[verifier::external_body]
fn ad_map_insert(map: &mut DashMap<u128, Ad>, key: u128, ad: Ad)
    ensures
        ad_map(*final(map)) == ad_map(*old(map)).insert(key, ad.deep_view()),
{
    map.insert(key, ad);
}

/// `DashMap::get`, with the ad cloned out: the ad under the key, if the
/// map has one.
#[verifier::external_body]
fn ad_map_get(map: &DashMap<u128, Ad>, key: u128) -> (r: Option<Ad>)
    ensures
        match r {
            Some(ad) => ad_map(*map).contains_key(key) && ad.deep_view() == ad_map(*map)[key],
            None => !ad_map(*map).contains_key(key),
        },
{
    match map.get(&key) {
        Some(entry) => Some(entry.value().clone()),
        None => None,
    }
}

/// `DashMap::iter`, with every ad cloned out: each key of the map once,
/// with its ad. The order is the one in which the map happens to be walked,
/// of which nothing is known.
#[verifier::external_body]
fn ad_map_entries(map: &DashMap<u128, Ad>) -> (r: Vec<(u128, Ad)>)
    ensures
        lists_ads(r.deep_view(), ad_map(*map)),
{
    map.iter().map(|entry| (*entry.key(), entry.value().clone())).collect()
}

/// `list` names every key of `map` exactly once, each with what the map
/// holds under it, and nothing else.
pub open spec fn lists_ads(list: Seq<(u128, AdView)>, map: Map<u128, AdView>) -> bool {
    &&& forall|i: int, j: int|
        0 <= i < j < list.len() ==> (#[trigger] list[i]).0 != (#[trigger] list[j]).0
    &&& forall|i: int|
        0 <= i < list.len() ==> map.contains_key((#[trigger] list[i]).0) && map[list[i].0]
            == list[i].1
    &&& forall|key: u128| #[trigger]
        map.contains_key(key) ==> exists|i: int| 0 <= i < list.len() && (#[trigger] list[i]).0 == key
}

/// The registry of resolved ads, by their identity. Changing it takes
/// exclusive access: tasks that share one keep it behind a lock.
pub struct AvailableAds {
    linears: DashMap<u128, Ad>,
}

impl AvailableAds {
    /// The ads in the registry, each under its identity.
    pub closed spec fn view(&self) -> Map<u128, AdView> {
        ad_map(self.linears)
    }

    /// An empty registry.
    pub fn new() -> (r: Self)
        ensures
            r@ == Map::<u128, AdView>::empty(),
    {
        let r = AvailableAds { linears: ad_map_new() };
        assert(r@ =~= Map::<u128, AdView>::empty());
        r
    }

    /// Puts an ad under an identity, in place of what was there.
    pub fn insert(&mut self, id: u128, ad: Ad)
        ensures
            final(self)@ == old(self)@.insert(id, ad.deep_view()),
    {
        ad_map_insert(&mut self.linears, id, ad);
    }

    /// The ad under an identity, if there is one.
    pub fn get(&self, id: u128) -> (r: Option<Ad>)
        ensures
            match r {
                Some(ad) => self@.contains_key(id) && ad.deep_view() == self@[id],
                None => !self@.contains_key(id),
            },
    {
        ad_map_get(&self.linears, id)
    }

    /// Every ad of the registry with its identity, each once, in the order
    /// in which the registry happens to enumerate them.
    pub fn entries(&self) -> (r: Vec<(u128, Ad)>)
        ensures
            lists_ads(r.deep_view(), self@),
    {
        ad_map_entries(&self.linears)
    }
}

impl Default for AvailableAds {
    /// An empty registry.
    fn default() -> (r: Self)
        ensures
            r@ == Map::<u128, AdView>::empty(),
    {
        AvailableAds::new()
    }
}

} // verus!
