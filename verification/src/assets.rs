//! The asset list of an interstitial: what a player is told to play.

use crate::ads::{Ad, AdView};
use crate::vast::{
    first_media_url, get_duration_and_media_urls_and_tracking_events_from_linear,
    get_universal_ad_ids_from_creative, is_valid, tracking_records, Creative, Tracking,
    TrackingView, UniversalAdId, UniversalAdIdView,
};
use crate::ads::AvailableAds;
use crate::error::ProxyError;
use crate::ids::{new_uuid, uuid_text, uuid_to_string, uuid_value};
use crate::vast::{
    all_creatives, get_all_raw_creatives_from_vast, get_all_transcoded_creatives_from_vast,
    is_raw, is_transcoded, raw_creatives, referents, transcoded_creatives, Vast,
};
use crate::web::{is_url, path_of, set_url_query_pairs, url_with_query_pairs};
use vstd::string::*;
use vstd::prelude::*;

verus! {

/// One entry of an asset list.
#[derive(Clone, Debug, PartialEq, Eq)]
pub struct Asset {
    /// Where the player fetches the asset.
    pub uri: String,
    /// Duration in milliseconds.
    pub duration: u64,
    /// Offset of the asset's start within the pod, in milliseconds.
    pub start: u64,
    /// The creative's identifiers in ad registries.
    pub identifiers: Vec<UniversalAdId>,
    /// The tracking records.
    pub tracking: Vec<Tracking>,
    /// The identity under which the ad waits in the registry, where the
    /// asset's URI leads back to this proxy.
    pub ad_id: Option<u128>,
}

/// What an [`Asset`] holds.
pub struct AssetView {
    pub uri: Seq<char>,
    pub duration: u64,
    pub start: u64,
    pub identifiers: Seq<UniversalAdIdView>,
    pub tracking: Seq<TrackingView>,
    pub ad_id: Option<u128>,
}

impl DeepView for Asset {
    type V = AssetView;

    open spec fn deep_view(&self) -> AssetView {
        AssetView {
            uri: self.uri@,
            duration: self.duration,
            start: self.start,
            identifiers: self.identifiers.deep_view(),
            tracking: self.tracking.deep_view(),
            ad_id: self.ad_id,
        }
    }
}

/// The asset list of one interstitial.
#[derive(Clone, Debug, PartialEq, Eq)]
pub struct AssetList {
    /// The assets, in playing order.
    pub assets: Vec<Asset>,
    /// Duration of the whole pod, in milliseconds.
    pub duration: u64,
}

/// What an [`AssetList`] holds.
pub struct AssetListView {
    pub assets: Seq<AssetView>,
    pub duration: u64,
}

impl DeepView for AssetList {
    type V = AssetListView;

    open spec fn deep_view(&self) -> AssetListView {
        AssetListView { assets: self.assets.deep_view(), duration: self.duration }
    }
}

/// The duration that a creative states, in milliseconds; zero where it
/// states none.
pub open spec fn creative_duration(creative: Creative) -> u64 {
    match creative.linear->0.duration {
        Some(d) => d,
        None => 0,
    }
}

/// The ad resolved from a creative that can be played, under the given
/// identity and resolution time.
pub open spec fn ad_of(creative: Creative, ad_id: u128, requested_at: i64) -> AdView {
    AdView {
        ad_id,
        universal_ad_ids: creative.universal_ad_id.deep_view(),
        duration: creative_duration(creative),
        url: first_media_url(creative),
        requested_at,
        tracking: tracking_records(creative.linear->0),
    }
}

/// Resolves a creative into an ad under the given identity.
pub fn ad_from_creative(creative: &Creative, ad_id: u128, requested_at: i64) -> (ad: Ad)
    requires
        is_valid(*creative),
    ensures
        ad.deep_view() == ad_of(*creative, ad_id, requested_at),
{
    let universal_ad_ids = get_universal_ad_ids_from_creative(creative);
    let linear = creative.linear.as_ref().unwrap();
    let (duration, urls, tracking) = get_duration_and_media_urls_and_tracking_events_from_linear(
        linear,
    );
    assert(urls.deep_view()[0] == urls@[0]@);
    let url = urls[0].clone();
    Ad { ad_id, universal_ad_ids, duration, url, requested_at, tracking }
}

/// Resolves a creative into an ad with a freshly minted identity.
pub fn make_new_ad_from_creative(creative: &Creative, requested_at: i64) -> (ad: Ad)
    requires
        is_valid(*creative),
    ensures
        ad.deep_view() == ad_of(*creative, ad.ad_id, requested_at),
{
    ad_from_creative(creative, new_uuid(), requested_at)
}


/// `a + b`, held at the largest `u64` where the sum would pass it.
pub open spec fn saturating_sum(a: u64, b: u64) -> u64 {
    if a + b > u64::MAX {
        u64::MAX
    } else {
        (a + b) as u64
    }
}

/// The offset at which asset `k` of a pod starts: the durations of the
/// assets before it, added up and held at the largest `u64`.
pub open spec fn offset_before(durations: Seq<u64>, k: int) -> u64
    decreases k,
{
    if k <= 0 {
        0
    } else {
        saturating_sum(offset_before(durations, k - 1), durations[k - 1])
    }
}

/// The durations of the creatives of a pod, raw ones first.
pub open spec fn pod_durations(raw: Seq<Creative>, transcoded: Seq<Creative>) -> Seq<u64> {
    Seq::new(
        raw.len() + transcoded.len(),
        |k: int|
            if k < raw.len() {
                creative_duration(raw[k])
            } else {
                creative_duration(transcoded[k - raw.len()])
            },
    )
}

/// The query of a follow-up request: the slot, the session and the ad.
pub open spec fn follow_up_pairs(
    interstitial_id: Seq<char>,
    user_id: Seq<char>,
    ad_id: u128,
) -> Seq<(Seq<char>, Seq<char>)> {
    seq![
        ("_HLS_interstitial_id"@, interstitial_id),
        ("_HLS_primary_id"@, user_id),
        ("_ad_id"@, uuid_text(ad_id)),
    ]
}

/// The asset of a raw creative: it is fetched from this proxy, at the
/// request's own URL with the query of a follow-up request.
pub open spec fn raw_asset(
    creative: Creative,
    req_url: Seq<char>,
    interstitial_id: Seq<char>,
    user_id: Seq<char>,
    ad_id: u128,
    start: u64,
) -> AssetView {
    AssetView {
        uri: url_with_query_pairs(req_url, follow_up_pairs(interstitial_id, user_id, ad_id)),
        duration: creative_duration(creative),
        start,
        identifiers: creative.universal_ad_id.deep_view(),
        tracking: tracking_records(creative.linear->0),
        ad_id: Some(ad_id),
    }
}

/// The asset of a transcoded creative: it is fetched from the creative's
/// own media URL.
pub open spec fn transcoded_asset(creative: Creative, start: u64) -> AssetView {
    AssetView {
        uri: first_media_url(creative),
        duration: creative_duration(creative),
        start,
        identifiers: creative.universal_ad_id.deep_view(),
        tracking: tracking_records(creative.linear->0),
        ad_id: None,
    }
}

/// `list` is the asset list of a pod: one asset per raw creative, then one
/// per transcoded creative, each starting where the one before it ends, and
/// the pod lasts as long as all of them together.
pub open spec fn is_asset_list(
    list: AssetListView,
    raw: Seq<Creative>,
    transcoded: Seq<Creative>,
    req_url: Seq<char>,
    interstitial_id: Seq<char>,
    user_id: Seq<char>,
) -> bool {
    let durations = pod_durations(raw, transcoded);
    &&& list.assets.len() == raw.len() + transcoded.len()
    &&& forall|i: int|
        0 <= i < raw.len() ==> (#[trigger] list.assets[i]).ad_id is Some && list.assets[i]
            == raw_asset(
            raw[i],
            req_url,
            interstitial_id,
            user_id,
            list.assets[i].ad_id->0,
            offset_before(durations, i),
        )
    &&& forall|j: int|
        0 <= j < transcoded.len() ==> #[trigger] list.assets[raw.len() + j] == transcoded_asset(
            transcoded[j],
            offset_before(durations, raw.len() + j),
        )
    &&& list.duration == offset_before(durations, durations.len() as int)
}

/// The registry after the ads have been put into it, one after the other,
/// each under its own identity.
pub open spec fn registered(before: Map<u128, AdView>, ads: Seq<AdView>) -> Map<u128, AdView>
    decreases ads.len(),
{
    if ads.len() == 0 {
        before
    } else {
        registered(before, ads.drop_last()).insert(ads.last().ad_id, ads.last())
    }
}

/// The ads of the raw creatives of a pod, under the identities that the
/// asset list gives them.
pub open spec fn raw_ads(raw: Seq<Creative>, assets: Seq<AssetView>, requested_at: i64) -> Seq<
    AdView,
> {
    Seq::new(raw.len(), |i: int| ad_of(raw[i], assets[i].ad_id->0, requested_at))
}

/// The key under which a follow-up request looks for its ad: the value of
/// the identifier it carries. A text that is no UUID gives no key.
pub open spec fn follow_up_key(ad_id: Seq<char>) -> Option<u128> {
    uuid_value(ad_id)
}

/// Every identity in the assets reads back from the text that stands for
/// it in a follow-up URL.
pub open spec fn ids_read_back(assets: Seq<AssetView>) -> bool {
    forall|i: int|
        0 <= i < assets.len() && (#[trigger] assets[i]).ad_id is Some ==> follow_up_key(
            uuid_text(assets[i].ad_id->0),
        ) == assets[i].ad_id
}

/// Law of the registry: an ad that has been put into it is found under its
/// identity.
pub proof fn lemma_registered_contains(before: Map<u128, AdView>, ads: Seq<AdView>, i: int)
    requires
        0 <= i < ads.len(),
    ensures
        registered(before, ads).contains_key(ads[i].ad_id),
    decreases ads.len(),
{
    if i < ads.len() - 1 {
        lemma_registered_contains(before, ads.drop_last(), i);
    }
}

/// No two of the ads share an identity.
pub open spec fn ids_distinct(ads: Seq<AdView>) -> bool {
    forall|i: int, j: int| 0 <= i < j < ads.len() ==> ads[i].ad_id != ads[j].ad_id
}

/// Law of the registry: where no two of the ads put into it share an
/// identity, each is found under its own.
pub proof fn lemma_registered_holds(before: Map<u128, AdView>, ads: Seq<AdView>, i: int)
    requires
        0 <= i < ads.len(),
        ids_distinct(ads),
    ensures
        registered(before, ads).contains_key(ads[i].ad_id),
        registered(before, ads)[ads[i].ad_id] == ads[i],
    decreases ads.len(),
{
    if i < ads.len() - 1 {
        lemma_registered_holds(before, ads.drop_last(), i);
    }
}

/// Law of the asset list: where the identities drawn for the raw creatives
/// differ from each other, the ad that a follow-up request finds for an
/// asset is the ad of that asset's creative: it has the creative's first
/// media URL and the asset's duration.
pub proof fn lemma_follow_up_finds_its_creative(
    before: Map<u128, AdView>,
    list: AssetListView,
    raw: Seq<Creative>,
    transcoded: Seq<Creative>,
    req_url: Seq<char>,
    interstitial_id: Seq<char>,
    user_id: Seq<char>,
    requested_at: i64,
    i: int,
)
    requires
        is_asset_list(list, raw, transcoded, req_url, interstitial_id, user_id),
        ids_distinct(raw_ads(raw, list.assets, requested_at)),
        0 <= i < raw.len(),
    ensures
        list.assets[i].ad_id is Some,
        ({
            let after = registered(before, raw_ads(raw, list.assets, requested_at));
            let id = list.assets[i].ad_id->0;
            &&& after.contains_key(id)
            &&& after[id] == ad_of(raw[i], id, requested_at)
            &&& after[id].url == first_media_url(raw[i])
            &&& after[id].duration == list.assets[i].duration
        }),
{
    lemma_registered_holds(before, raw_ads(raw, list.assets, requested_at), i);
}

/// Law of the registry: what was in it before is still in it afterwards.
pub proof fn lemma_registered_keeps(before: Map<u128, AdView>, ads: Seq<AdView>, key: u128)
    requires
        before.contains_key(key),
    ensures
        registered(before, ads).contains_key(key),
    decreases ads.len(),
{
    if ads.len() > 0 {
        lemma_registered_keeps(before, ads.drop_last(), key);
    }
}

/// Law of the asset list: for every asset whose URI leads back to this
/// proxy, the registry holds an ad under the key that a follow-up request
/// derives from the `_ad_id` in that URI.
pub proof fn lemma_follow_up_finds_ad(
    before: Map<u128, AdView>,
    list: AssetListView,
    raw: Seq<Creative>,
    transcoded: Seq<Creative>,
    req_url: Seq<char>,
    interstitial_id: Seq<char>,
    user_id: Seq<char>,
    requested_at: i64,
    i: int,
)
    requires
        is_asset_list(list, raw, transcoded, req_url, interstitial_id, user_id),
        ids_read_back(list.assets),
        0 <= i < list.assets.len(),
        list.assets[i].ad_id is Some,
    ensures
        list.assets[i].uri == url_with_query_pairs(
            req_url,
            follow_up_pairs(interstitial_id, user_id, list.assets[i].ad_id->0),
        ),
        follow_up_key(follow_up_pairs(interstitial_id, user_id, list.assets[i].ad_id->0)[2].1)
            == list.assets[i].ad_id,
        registered(before, raw_ads(raw, list.assets, requested_at)).contains_key(
            list.assets[i].ad_id->0,
        ),
{
    if i >= raw.len() {
        assert(list.assets[raw.len() + (i - raw.len())].ad_id is None);
    } else {
        lemma_registered_contains(before, raw_ads(raw, list.assets, requested_at), i);
    }
}

fn add_offset(offset: u64, duration: u64) -> (r: u64)
    ensures
        r == saturating_sum(offset, duration),
{
    if offset > u64::MAX - duration {
        u64::MAX
    } else {
        offset + duration
    }
}


fn follow_up_query(interstitial_id: &str, user_id: &str, ad_id: u128) -> (pairs: Vec<
    (String, String),
>)
    ensures
        pairs.deep_view() == follow_up_pairs(interstitial_id@, user_id@, ad_id),
        follow_up_key(uuid_text(ad_id)) == Some(ad_id),
{
    let mut pairs: Vec<(String, String)> = Vec::new();
    pairs.push(("_HLS_interstitial_id".to_owned(), interstitial_id.to_owned()));
    pairs.push(("_HLS_primary_id".to_owned(), user_id.to_owned()));
    pairs.push(("_ad_id".to_owned(), uuid_to_string(ad_id)));
    assert(pairs.deep_view() =~= follow_up_pairs(interstitial_id@, user_id@, ad_id));
    pairs
}

/// Builds the asset list of a pod from a VAST document and keeps the ads of
/// its raw creatives for the follow-up requests. `req_url` is the URL of
/// the request being answered; `requested_at` is the time of resolution.
///
/// Fails with `ParseFailure`, and leaves the registry as it is, where
/// `req_url` is no URL. Otherwise the list is the [`is_asset_list`] of the
/// document's raw and transcoded creatives, and the registry has received
/// the ad of every raw creative under the identity that the list gives it.
pub fn wrap_into_assets(
    vast: &Vast,
    req_url: &str,
    interstitial_id: &str,
    user_id: &str,
    available_ads: &mut AvailableAds,
    requested_at: i64,
) -> (r: Result<AssetList, ProxyError>)
    ensures
        !is_url(req_url@) ==> r is Err && r->Err_0 == ProxyError::ParseFailure
            && final(available_ads)@ == old(available_ads)@,
        is_url(req_url@) ==> r is Ok && is_asset_list(
            r->Ok_0.deep_view(),
            raw_creatives(all_creatives(vast.ads@)),
            transcoded_creatives(all_creatives(vast.ads@)),
            req_url@,
            interstitial_id@,
            user_id@,
        ) && final(available_ads)@ == registered(
            old(available_ads)@,
            raw_ads(
                raw_creatives(all_creatives(vast.ads@)),
                r->Ok_0.deep_view().assets,
                requested_at,
            ),
        ) && ids_read_back(r->Ok_0.deep_view().assets),
{
    match path_of(req_url) {
        Ok(_) => {},
        Err(_) => {
            return Err(ProxyError::ParseFailure);
        },
    }
    let raw_list = get_all_raw_creatives_from_vast(vast);
    let transcoded_list = get_all_transcoded_creatives_from_vast(vast);
    let ghost all = all_creatives(vast.ads@);
    let ghost raw = raw_creatives(all);
    let ghost transcoded = transcoded_creatives(all);
    let ghost durations = pod_durations(raw, transcoded);
    let ghost before = available_ads@;
    let mut assets: Vec<Asset> = Vec::new();
    let mut offset: u64 = 0;
    let mut i: usize = 0;
    while i < raw_list.len()
        invariant
            i <= raw_list.len(),
            is_url(req_url@),
            raw == referents(raw_list@),
            raw == raw_creatives(all),
            durations == pod_durations(raw, transcoded),
            assets@.len() == i,
            offset == offset_before(durations, i as int),
            forall|j: int|
                0 <= j < i ==> (#[trigger] assets.deep_view()[j]).ad_id is Some
                    && assets.deep_view()[j] == raw_asset(
                    raw[j],
                    req_url@,
                    interstitial_id@,
                    user_id@,
                    assets.deep_view()[j].ad_id->0,
                    offset_before(durations, j),
                ),
            available_ads@ == registered(
                before,
                raw_ads(raw.take(i as int), assets.deep_view(), requested_at),
            ),
            ids_read_back(assets.deep_view()),
        decreases raw_list.len() - i,
    {
        let creative: &Creative = raw_list[i];
        proof {
            all.lemma_filter_pred(|c: Creative| is_raw(c), i as int);
            assert(raw[i as int] == *creative);
        }
        let ad = make_new_ad_from_creative(creative, requested_at);
        let id = ad.ad_id;
        let pairs = follow_up_query(interstitial_id, user_id, id);
        let uri = match set_url_query_pairs(req_url, &pairs) {
            Ok(uri) => uri,
            Err(_) => {
                return Err(ProxyError::ParseFailure);
            },
        };
        let linear = creative.linear.as_ref().unwrap();
        let asset = Asset {
            uri,
            duration: ad.duration,
            start: offset,
            identifiers: get_universal_ad_ids_from_creative(creative),
            tracking: crate::vast::get_tracking_events_from_linear(linear),
            ad_id: Some(id),
        };
        let ghost old_assets = assets.deep_view();
        let ghost old_ads = raw_ads(raw.take(i as int), old_assets, requested_at);
        offset = add_offset(offset, ad.duration);
        available_ads.insert(id, ad);
        assets.push(asset);
        proof {
            assert(assets.deep_view() =~= old_assets.push(asset.deep_view()));
            let new_ads = raw_ads(raw.take(i + 1), assets.deep_view(), requested_at);
            assert(new_ads.drop_last() =~= old_ads);
            assert(new_ads.last() == ad_of(*creative, id, requested_at));
            assert forall|j: int|
                0 <= j < assets.deep_view().len() && (#[trigger] assets.deep_view()[j]).ad_id
                    is Some implies follow_up_key(uuid_text(assets.deep_view()[j].ad_id->0))
                == assets.deep_view()[j].ad_id by {
                if j < old_assets.len() {
                    assert(assets.deep_view()[j] == old_assets[j]);
                }
            }
        }
        i += 1;
    }
    assert(raw.take(i as int) =~= raw);
    let ghost raw_part = assets.deep_view();
    let n: usize = raw_list.len();
    let mut k: usize = 0;
    while k < transcoded_list.len()
        invariant
            k <= transcoded_list.len(),
            n == raw.len(),
            transcoded == referents(transcoded_list@),
            transcoded == transcoded_creatives(all),
            durations == pod_durations(raw, transcoded),
            assets@.len() == n + k,
            offset == offset_before(durations, n + k),
            forall|j: int| 0 <= j < n ==> #[trigger] assets.deep_view()[j] == raw_part[j],
            ids_read_back(assets.deep_view()),
            forall|j: int|
                0 <= j < k ==> #[trigger] assets.deep_view()[n + j] == transcoded_asset(
                    transcoded[j],
                    offset_before(durations, n + j),
                ),
        decreases transcoded_list.len() - k,
    {
        let creative: &Creative = transcoded_list[k];
        proof {
            all.lemma_filter_pred(|c: Creative| is_transcoded(c), k as int);
            assert(transcoded[k as int] == *creative);
        }
        let linear = creative.linear.as_ref().unwrap();
        let (duration, urls, tracking) =
            get_duration_and_media_urls_and_tracking_events_from_linear(linear);
        assert(urls.deep_view()[0] == urls@[0]@);
        let asset = Asset {
            uri: urls[0].clone(),
            duration,
            start: offset,
            identifiers: get_universal_ad_ids_from_creative(creative),
            tracking,
            ad_id: None,
        };
        let ghost old_assets = assets.deep_view();
        offset = add_offset(offset, duration);
        assets.push(asset);
        assert(assets.deep_view() =~= old_assets.push(asset.deep_view()));
        assert forall|j: int|
            0 <= j < assets.deep_view().len() && (#[trigger] assets.deep_view()[j]).ad_id
                is Some implies follow_up_key(uuid_text(assets.deep_view()[j].ad_id->0))
            == assets.deep_view()[j].ad_id by {
            if j < old_assets.len() {
                assert(assets.deep_view()[j] == old_assets[j]);
            }
        }
        k += 1;
    }
    let list = AssetList { assets, duration: offset };
    proof {
        assert(raw_ads(raw, list.deep_view().assets, requested_at) =~= raw_ads(
            raw,
            raw_part,
            requested_at,
        ));
    }
    Ok(list)
}

} // verus!
