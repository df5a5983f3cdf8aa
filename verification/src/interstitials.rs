//! Answering a player that asks what to play in an interstitial.

use crate::ads::{AdView, AvailableAds};
use crate::assets::{
    follow_up_key, ids_read_back, is_asset_list, raw_ads, registered, wrap_into_assets, Asset,
    AssetList, AssetListView, AssetView,
};
use crate::config::ServerConfig;
use crate::error::{Missing, ProxyError};
use crate::ids::parse_uuid;
use crate::text::str_eq;
use crate::vast::{
    all_creatives, raw_creatives, transcoded_creatives, Tracking, TrackingView, UniversalAdId,
    UniversalAdIdView, Vast,
};
use crate::web::{form_pairs, is_url, parse_query};
use vstd::prelude::*;
use vstd::string::*;

verus! {

/// The text of the media playlist that `hls_m3u8` writes for one segment
/// with the given URI and duration in milliseconds, under a target duration
/// in seconds, with the given media sequence number, and with or without
/// an end-list tag. None where the crate's builders turn the values down.
pub uninterp spec fn single_segment_playlist(
    uri: Seq<char>,
    duration_ms: u64,
    target_secs: u64,
    media_sequence: usize,
    has_end_list: bool,
) -> Option<Seq<char>>;

/// Builds one segment with `hls_m3u8::MediaSegment::builder` and a playlist
/// around it with `hls_m3u8::MediaPlaylist::builder`, and writes the
/// playlist out. Nothing is claimed of the text but that it is the one
/// named by [`single_segment_playlist`].
#[verifier::external_body]
fn render_single_segment_playlist(
    uri: &str,
    duration_ms: u64,
    target_secs: u64,
    media_sequence: usize,
    has_end_list: bool,
) -> (r: Option<String>)
    ensures
        r.deep_view() == single_segment_playlist(
            uri@,
            duration_ms,
            target_secs,
            media_sequence,
            has_end_list,
        ),
{
    let segment = hls_m3u8::MediaSegment::builder()
        .duration(std::time::Duration::from_millis(duration_ms))
        .uri(uri.to_string())
        .build()
        .ok()?;
    let playlist = hls_m3u8::MediaPlaylist::builder()
        .media_sequence(media_sequence)
        .target_duration(std::time::Duration::from_secs(target_secs))
        .segments(vec![segment])
        .has_end_list(has_end_list)
        .build()
        .ok()?;
    Some(playlist.to_string())
}

/// A duration in milliseconds rounded up to whole seconds.
pub open spec fn ceil_seconds(duration_ms: u64) -> u64 {
    if duration_ms % 1000 == 0 {
        duration_ms / 1000
    } else {
        (duration_ms / 1000 + 1) as u64
    }
}

/// The follow-up playlist of an ad: one segment at the ad's media URL and
/// duration, a target duration of that many seconds rounded up, media
/// sequence zero and an end-list tag.
pub open spec fn follow_up_playlist(ad: AdView) -> Option<Seq<char>> {
    single_segment_playlist(ad.url, ad.duration, ceil_seconds(ad.duration), 0, true)
}

/// The answer to a follow-up request: `NotFound` where the identifier is
/// no UUID or no ad is kept under it, else the follow-up playlist of the ad
/// kept under it.
pub open spec fn follow_up_answer(ads: Map<u128, AdView>, linear_id: Seq<char>) -> Result<
    Seq<char>,
    ProxyError,
> {
    match follow_up_key(linear_id) {
        None => Err(ProxyError::NotFound(Missing::Ad)),
        Some(key) => if !ads.contains_key(key) {
            Err(ProxyError::NotFound(Missing::Ad))
        } else {
            match follow_up_playlist(ads[key]) {
                Some(text) => Ok(text),
                None => Err(ProxyError::ParseFailure),
            }
        },
    }
}

/// Answers a follow-up request for a raw creative with a media playlist of
/// one segment: the creative's media URL, at the creative's duration, under
/// a target duration of that many seconds rounded up, with media sequence
/// zero and an end-list tag.
///
/// Fails with `NotFound` where the identifier is no UUID or no ad is kept
/// under it.
pub fn handle_raw_asset_request(
    ad_slot_id: &str,
    linear_id: &str,
    user_id: &str,
    available_ads: &AvailableAds,
) -> (r: Result<String, ProxyError>)
    ensures
        match follow_up_answer(available_ads@, linear_id@) {
            Ok(text) => r is Ok && r->Ok_0@ == text,
            Err(e) => r is Err && r->Err_0 == e,
        },
{
    let key: u128 = match parse_uuid(linear_id) {
        Ok(id) => id,
        Err(_) => {
            return Err(ProxyError::NotFound(Missing::Ad));
        },
    };
    match available_ads.get(key) {
        None => Err(ProxyError::NotFound(Missing::Ad)),
        Some(ad) => {
            let whole: u64 = ad.duration / 1000;
            let target: u64 = if ad.duration % 1000 == 0 {
                whole
            } else {
                whole + 1
            };
            match render_single_segment_playlist(ad.url.as_str(), ad.duration, target, 0, true) {
                Some(text) => Ok(text),
                None => Err(ProxyError::ParseFailure),
            }
        },
    }
}

/// The value of the first pair named `key`, looking from position `from`.
pub open spec fn first_value(
    pairs: Seq<(Seq<char>, Seq<char>)>,
    key: Seq<char>,
    from: int,
) -> Option<Seq<char>>
    decreases pairs.len() - from,
{
    if from < 0 || from >= pairs.len() {
        None
    } else if pairs[from].0 == key {
        Some(pairs[from].1)
    } else {
        first_value(pairs, key, from + 1)
    }
}

/// The value of a query parameter: that of the first pair of the query
/// string with the given name.
pub open spec fn query_param(query: Option<Seq<char>>, key: Seq<char>) -> Option<Seq<char>> {
    match query {
        Some(q) => first_value(form_pairs(q), key, 0),
        None => None,
    }
}

/// Looks up a parameter in a request's query string.
pub fn get_query_param(query: Option<&str>, key: &str) -> (r: Option<String>)
    ensures
        r.deep_view() == query_param(
            match query {
                Some(q) => Some(q@),
                None => None,
            },
            key@,
        ),
{
    match query {
        None => None,
        Some(q) => {
            let pairs = parse_query(q);
            let mut i: usize = 0;
            while i < pairs.len()
                invariant
                    i <= pairs.len(),
                    query == Some(q),
                    pairs.deep_view() == form_pairs(q@),
                    first_value(form_pairs(q@), key@, 0) == first_value(
                        form_pairs(q@),
                        key@,
                        i as int,
                    ),
                decreases pairs.len() - i,
            {
                assert(pairs.deep_view()[i as int] == (pairs@[i as int].0@, pairs@[i as int].1@));
                if str_eq(pairs[i].0.as_str(), key) {
                    return Some(pairs[i].1.clone());
                }
                i += 1;
            }
            None
        },
    }
}

/// What a request to the interstitials endpoint asks for.
#[derive(Clone, Debug, PartialEq, Eq)]
pub enum InterstitialRequest {
    /// The asset list of a slot.
    AssetList { interstitial_id: String, user_id: String },
    /// The playlist of one raw creative of a slot.
    FollowUp { interstitial_id: String, user_id: String, ad_id: String },
}

/// The slot that a request names, or `default_ad` where it names none.
pub open spec fn requested_slot(query: Option<Seq<char>>) -> Seq<char> {
    match query_param(query, "_HLS_interstitial_id"@) {
        Some(id) => id,
        None => "default_ad"@,
    }
}

/// The session that a request names, or `default_user` where it names none.
pub open spec fn requesting_user(query: Option<Seq<char>>) -> Seq<char> {
    match query_param(query, "_HLS_primary_id"@) {
        Some(id) => id,
        None => "default_user"@,
    }
}

/// Reads a request to the interstitials endpoint: a request that carries
/// `_ad_id` is a follow-up, any other asks for an asset list.
pub fn read_interstitial_request(query: Option<&str>) -> (r: InterstitialRequest)
    ensures
        ({
            let q = match query {
                Some(q) => Some(q@),
                None => None,
            };
            match r {
                InterstitialRequest::AssetList { interstitial_id, user_id } => {
                    &&& query_param(q, "_ad_id"@) is None
                    &&& interstitial_id@ == requested_slot(q)
                    &&& user_id@ == requesting_user(q)
                },
                InterstitialRequest::FollowUp { interstitial_id, user_id, ad_id } => {
                    &&& query_param(q, "_ad_id"@) == Some(ad_id@)
                    &&& interstitial_id@ == requested_slot(q)
                    &&& user_id@ == requesting_user(q)
                },
            }
        }),
{
    let interstitial_id = match get_query_param(query, "_HLS_interstitial_id") {
        Some(id) => id,
        None => "default_ad".to_owned(),
    };
    let user_id = match get_query_param(query, "_HLS_primary_id") {
        Some(id) => id,
        None => "default_user".to_owned(),
    };
    match get_query_param(query, "_ad_id") {
        Some(ad_id) => InterstitialRequest::FollowUp { interstitial_id, user_id, ad_id },
        None => InterstitialRequest::AssetList { interstitial_id, user_id },
    }
}


/// A tracking record of the canned test asset: one beacon, no offset.
pub open spec fn test_tracking(event: Seq<char>, url: Seq<char>) -> TrackingView {
    TrackingView { event, offset: None, urls: seq![url] }
}

/// The canned test asset list: one thirteen-second HLS asset with one
/// identifier and a beacon for each of the five playback events.
pub open spec fn test_asset_list() -> AssetListView {
    AssetListView {
        assets: seq![
            AssetView {
                uri: "https://s3.amazonaws.com/qa.jwplayer.com/hlsjs/muxed-fmp4/hls.m3u8"@,
                duration: 13000,
                start: 0,
                identifiers: seq![
                    UniversalAdIdView { scheme: "test-ad-id.eyevinn"@, value: "0001"@ },
                ],
                tracking: seq![
                    test_tracking(
                        "start"@,
                        "http://eyevinnlab-adtracking.eyevinn-test-adserver.auto.prod.osaas.io/api/v1/sessions/158281fa-8ef1-43b2-a04c-057ee854cdeb/tracking?adId=alvedon-10s_1&progress=0"@,
                    ),
                    test_tracking(
                        "firstQuartile"@,
                        "http://eyevinnlab-adtracking.eyevinn-test-adserver.auto.prod.osaas.io/api/v1/sessions/158281fa-8ef1-43b2-a04c-057ee854cdeb/tracking?adId=alvedon-10s_1&progress=25"@,
                    ),
                    test_tracking(
                        "midpoint"@,
                        "http://eyevinnlab-adtracking.eyevinn-test-adserver.auto.prod.osaas.io/api/v1/sessions/158281fa-8ef1-43b2-a04c-057ee854cdeb/tracking?adId=alvedon-10s_1&progress=50"@,
                    ),
                    test_tracking(
                        "thirdQuartile"@,
                        "http://eyevinnlab-adtracking.eyevinn-test-adserver.auto.prod.osaas.io/api/v1/sessions/158281fa-8ef1-43b2-a04c-057ee854cdeb/tracking?adId=alvedon-10s_1&progress=75"@,
                    ),
                    test_tracking(
                        "complete"@,
                        "http://eyevinnlab-adtracking.eyevinn-test-adserver.auto.prod.osaas.io/api/v1/sessions/158281fa-8ef1-43b2-a04c-057ee854cdeb/tracking?adId=alvedon-10s_1&progress=100"@,
                    ),
                ],
                ad_id: None,
            },
        ],
        duration: 13000,
    }
}

fn make_test_tracking(event: &str, url: &str) -> (r: Tracking)
    ensures
        r.deep_view() == test_tracking(event@, url@),
{
    let mut urls: Vec<String> = Vec::new();
    urls.push(url.to_owned());
    assert(urls.deep_view() =~= seq![url@]);
    Tracking { event: event.to_owned(), offset: None, urls }
}

/// The canned test asset list.
pub fn make_test_assets() -> (r: AssetList)
    ensures
        r.deep_view() == test_asset_list(),
{
    let mut identifiers: Vec<UniversalAdId> = Vec::new();
    identifiers.push(
        UniversalAdId { scheme: "test-ad-id.eyevinn".to_owned(), value: "0001".to_owned() },
    );
    let mut tracking: Vec<Tracking> = Vec::new();
    tracking.push(
        make_test_tracking(
            "start",
            "http://eyevinnlab-adtracking.eyevinn-test-adserver.auto.prod.osaas.io/api/v1/sessions/158281fa-8ef1-43b2-a04c-057ee854cdeb/tracking?adId=alvedon-10s_1&progress=0",
        ),
    );
    tracking.push(
        make_test_tracking(
            "firstQuartile",
            "http://eyevinnlab-adtracking.eyevinn-test-adserver.auto.prod.osaas.io/api/v1/sessions/158281fa-8ef1-43b2-a04c-057ee854cdeb/tracking?adId=alvedon-10s_1&progress=25",
        ),
    );
    tracking.push(
        make_test_tracking(
            "midpoint",
            "http://eyevinnlab-adtracking.eyevinn-test-adserver.auto.prod.osaas.io/api/v1/sessions/158281fa-8ef1-43b2-a04c-057ee854cdeb/tracking?adId=alvedon-10s_1&progress=50",
        ),
    );
    tracking.push(
        make_test_tracking(
            "thirdQuartile",
            "http://eyevinnlab-adtracking.eyevinn-test-adserver.auto.prod.osaas.io/api/v1/sessions/158281fa-8ef1-43b2-a04c-057ee854cdeb/tracking?adId=alvedon-10s_1&progress=75",
        ),
    );
    tracking.push(
        make_test_tracking(
            "complete",
            "http://eyevinnlab-adtracking.eyevinn-test-adserver.auto.prod.osaas.io/api/v1/sessions/158281fa-8ef1-43b2-a04c-057ee854cdeb/tracking?adId=alvedon-10s_1&progress=100",
        ),
    );
    let asset = Asset {
        uri: "https://s3.amazonaws.com/qa.jwplayer.com/hlsjs/muxed-fmp4/hls.m3u8".to_owned(),
        duration: 13000,
        start: 0,
        identifiers,
        tracking,
        ad_id: None,
    };
    assert(asset.identifiers.deep_view() =~= test_asset_list().assets[0].identifiers);
    assert(asset.tracking.deep_view() =~= test_asset_list().assets[0].tracking);
    let mut assets: Vec<Asset> = Vec::new();
    assets.push(asset);
    assert(assets.deep_view() =~= test_asset_list().assets);
    AssetList { assets, duration: 13000 }
}

/// Answers a request for the asset list of a slot, once the ad server has
/// answered with `vast`. Under the test-assets flag the answer is the
/// canned list and the registry stays as it is; otherwise it is what
/// [`wrap_into_assets`] makes of the document.
pub fn resolve_asset_list(
    config: &ServerConfig,
    vast: &Vast,
    req_url: &str,
    interstitial_id: &str,
    user_id: &str,
    available_ads: &mut AvailableAds,
    requested_at: i64,
) -> (r: Result<AssetList, ProxyError>)
    ensures
        config.return_test_assets ==> r is Ok && r->Ok_0.deep_view() == test_asset_list()
            && final(available_ads)@ == old(available_ads)@,
        !config.return_test_assets && !is_url(req_url@) ==> r is Err && r->Err_0
            == ProxyError::ParseFailure && final(available_ads)@ == old(available_ads)@,
        !config.return_test_assets && is_url(req_url@) ==> r is Ok && is_asset_list(
            r->Ok_0.deep_view(),
            raw_creatives(all_creatives(vast.ads@)),
            transcoded_creatives(all_creatives(vast.ads@)),
            req_url@,
            interstitial_id@,
            user_id@,
        ) && final(available_ads)@ == registered(
            old(available_ads)@,
            raw_ads(
                raw_creatives(all_creatives(vast.ads@)),
                r->Ok_0.deep_view().assets,
                requested_at,
            ),
        ) && ids_read_back(r->Ok_0.deep_view().assets),
{
    if config.return_test_assets {
        Ok(make_test_assets())
    } else {
        wrap_into_assets(vast, req_url, interstitial_id, user_id, available_ads, requested_at)
    }
}

} // verus!
