//! The part of a VAST document that ad resolution reads, and the flat
//! sequences of creatives drawn from it.

use crate::text::{contains, str_contains};
use crate::web::{is_url, path_of, url_path};
use vstd::prelude::*;

verus! {

/// An identifier of a creative in an ad registry.
#[derive(Clone, Debug, PartialEq, Eq)]
pub struct UniversalAdId {
    /// The registry that issued the identifier.
    pub scheme: String,
    /// The identifier.
    pub value: String,
}

/// What a [`UniversalAdId`] holds.
pub struct UniversalAdIdView {
    pub scheme: Seq<char>,
    pub value: Seq<char>,
}

impl DeepView for UniversalAdId {
    type V = UniversalAdIdView;

    open spec fn deep_view(&self) -> UniversalAdIdView {
        UniversalAdIdView { scheme: self.scheme@, value: self.value@ }
    }
}

/// A playback event and the beacons to call when it happens.
#[derive(Clone, Debug, PartialEq, Eq)]
pub struct Tracking {
    /// The event's name.
    pub event: String,
    /// The VAST time code at which the event happens, if it has one.
    pub offset: Option<String>,
    /// The beacon URLs.
    pub urls: Vec<String>,
}

/// What a [`Tracking`] holds.
pub struct TrackingView {
    pub event: Seq<char>,
    pub offset: Option<Seq<char>>,
    pub urls: Seq<Seq<char>>,
}

impl DeepView for Tracking {
    type V = TrackingView;

    open spec fn deep_view(&self) -> TrackingView {
        TrackingView {
            event: self.event@,
            offset: self.offset.deep_view(),
            urls: self.urls.deep_view(),
        }
    }
}

/// Where clicks on a creative lead and whom they are reported to.
#[derive(Clone, Debug, PartialEq, Eq)]
pub struct VideoClicks {
    /// The URLs to call when the viewer clicks.
    pub click_trackings: Vec<String>,
    /// The page that a click opens, if any.
    pub click_through: Option<String>,
}

/// What a [`VideoClicks`] holds.
pub struct VideoClicksView {
    pub click_trackings: Seq<Seq<char>>,
    pub click_through: Option<Seq<char>>,
}

impl DeepView for VideoClicks {
    type V = VideoClicksView;

    open spec fn deep_view(&self) -> VideoClicksView {
        VideoClicksView {
            click_trackings: self.click_trackings.deep_view(),
            click_through: self.click_through.deep_view(),
        }
    }
}

/// One `Tracking` element of a linear.
#[derive(Clone, Debug, PartialEq, Eq)]
pub struct TrackingEvent {
    /// The event's name.
    pub event: String,
    /// The element's `offset` attribute, if present.
    pub offset: Option<String>,
    /// The beacon URL.
    pub uri: String,
}

/// The `Linear` element of a creative.
#[derive(Clone, Debug, PartialEq, Eq)]
pub struct Linear {
    /// The point at which the viewer may skip, in milliseconds.
    pub skipoffset: Option<u64>,
    /// The `Duration` element, in milliseconds.
    pub duration: Option<u64>,
    /// The URIs of the `MediaFile` elements, if there is a `MediaFiles` element.
    pub media_files: Option<Vec<String>>,
    /// The `Tracking` elements, if there is a `TrackingEvents` element.
    pub tracking_events: Option<Vec<TrackingEvent>>,
    /// The `VideoClicks` element.
    pub video_clicks: Option<VideoClicks>,
}

/// A `Creative` element.
#[derive(Clone, Debug, PartialEq, Eq)]
pub struct Creative {
    /// The `adId` attribute.
    pub ad_id: Option<String>,
    /// The `UniversalAdId` elements.
    pub universal_ad_id: Vec<UniversalAdId>,
    /// The `Linear` element.
    pub linear: Option<Linear>,
}

/// The `InLine` element of an ad.
#[derive(Clone, Debug, PartialEq, Eq)]
pub struct InLine {
    /// The creatives, in document order.
    pub creatives: Vec<Creative>,
}

/// An `Ad` element.
#[derive(Clone, Debug, PartialEq, Eq)]
pub struct VastAd {
    /// The `InLine` element.
    pub in_line: Option<InLine>,
}

/// A VAST document.
#[derive(Clone, Debug, PartialEq, Eq)]
pub struct Vast {
    /// The ads, in document order.
    pub ads: Vec<VastAd>,
}

/// A copy of a list of strings.
pub fn clone_strings(list: &Vec<String>) -> (r: Vec<String>)
    ensures
        r.deep_view() == list.deep_view(),
{
    let mut r: Vec<String> = Vec::new();
    let mut i: usize = 0;
    while i < list.len()
        invariant
            i <= list.len(),
            r@.len() == i,
            forall|j: int| 0 <= j < i ==> r@[j]@ == list@[j]@,
        decreases list.len() - i,
    {
        r.push(list[i].clone());
        i += 1;
    }
    assert(r.deep_view() =~= list.deep_view());
    r
}

/// A copy of an optional string.
pub fn clone_optional_string(text: &Option<String>) -> (r: Option<String>)
    ensures
        r.deep_view() == text.deep_view(),
{
    match text {
        Some(t) => Some(t.clone()),
        None => None,
    }
}

/// The creatives of one ad: those of its in-line element, if it has one.
pub open spec fn creatives_of_ad(ad: VastAd) -> Seq<Creative> {
    match ad.in_line {
        Some(in_line) => in_line.creatives@,
        None => Seq::empty(),
    }
}

/// The creatives of the ads, ad after ad, in document order.
pub open spec fn all_creatives(ads: Seq<VastAd>) -> Seq<Creative>
    decreases ads.len(),
{
    if ads.len() == 0 {
        Seq::empty()
    } else {
        all_creatives(ads.drop_last()) + creatives_of_ad(ads.last())
    }
}

/// The values that a list of references points to.
pub open spec fn referents(list: Seq<&Creative>) -> Seq<Creative> {
    Seq::new(list.len(), |i: int| *list[i])
}

/// Every creative of every in-line ad of the document, in document order.
pub fn get_all_creatives_from_vast<'a>(vast: &'a Vast) -> (r: Vec<&'a Creative>)
    ensures
        referents(r@) == all_creatives(vast.ads@),
{
    let mut r: Vec<&'a Creative> = Vec::new();
    let mut a: usize = 0;
    while a < vast.ads.len()
        invariant
            a <= vast.ads.len(),
            referents(r@) == all_creatives(vast.ads@.take(a as int)),
        decreases vast.ads.len() - a,
    {
        let ghost before = referents(r@);
        match &vast.ads[a].in_line {
            Some(in_line) => {
                let mut c: usize = 0;
                while c < in_line.creatives.len()
                    invariant
                        c <= in_line.creatives.len(),
                        referents(r@) == before + in_line.creatives@.take(c as int),
                    decreases in_line.creatives.len() - c,
                {
                    let ghost prev = referents(r@);
                    r.push(&in_line.creatives[c]);
                    assert(referents(r@) =~= prev.push(in_line.creatives@[c as int]));
                    assert(in_line.creatives@.take(c + 1) =~= in_line.creatives@.take(
                        c as int,
                    ).push(in_line.creatives@[c as int]));
                    c += 1;
                }
                assert(in_line.creatives@.take(c as int) =~= in_line.creatives@);
            },
            None => {
                assert(before + Seq::<Creative>::empty() =~= before);
            },
        }
        assert(vast.ads@.take(a + 1).drop_last() =~= vast.ads@.take(a as int));
        a += 1;
    }
    assert(vast.ads@.take(a as int) =~= vast.ads@);
    r
}

/// The identifiers of a creative.
pub fn get_universal_ad_ids_from_creative(creative: &Creative) -> (r: Vec<UniversalAdId>)
    ensures
        r.deep_view() == creative.universal_ad_id.deep_view(),
{
    let mut r: Vec<UniversalAdId> = Vec::new();
    let mut i: usize = 0;
    while i < creative.universal_ad_id.len()
        invariant
            i <= creative.universal_ad_id.len(),
            r@.len() == i,
            forall|j: int|
                0 <= j < i ==> r@[j].deep_view() == creative.universal_ad_id@[j].deep_view(),
        decreases creative.universal_ad_id.len() - i,
    {
        let id = &creative.universal_ad_id[i];
        r.push(UniversalAdId { scheme: id.scheme.clone(), value: id.value.clone() });
        i += 1;
    }
    assert(r.deep_view() =~= creative.universal_ad_id.deep_view());
    r
}

/// The duration of a linear in milliseconds; zero where it states none.
pub fn get_duration_from_linear(linear: &Linear) -> (r: u64)
    ensures
        r == match linear.duration {
            Some(d) => d,
            None => 0,
        },
{
    match linear.duration {
        Some(d) => d,
        None => 0,
    }
}

/// The skip offset of a linear in milliseconds, if it states one.
pub fn get_skip_offset_from_linear(linear: &Linear) -> (r: Option<u64>)
    ensures
        r == linear.skipoffset,
{
    linear.skipoffset
}

/// The media URLs of a linear: the URIs of its media files, in order; none
/// where it has no media files.
pub open spec fn media_urls(linear: Linear) -> Seq<Seq<char>> {
    match linear.media_files {
        Some(files) => files.deep_view(),
        None => Seq::empty(),
    }
}

/// The media URLs of a linear, in document order.
pub fn get_media_urls_from_linear(linear: &Linear) -> (r: Vec<String>)
    ensures
        r.deep_view() == media_urls(*linear),
{
    match &linear.media_files {
        Some(files) => clone_strings(files),
        None => {
            let r: Vec<String> = Vec::new();
            assert(r.deep_view() =~= Seq::<Seq<char>>::empty());
            r
        },
    }
}

/// The tracking record of one tracking element: its event, its offset and
/// its one beacon URL.
pub open spec fn tracking_of(event: TrackingEvent) -> TrackingView {
    TrackingView {
        event: event.event@,
        offset: event.offset.deep_view(),
        urls: seq![event.uri@],
    }
}

/// The tracking records of a linear, one for each tracking element, in
/// order; none where it has no tracking events.
pub open spec fn tracking_records(linear: Linear) -> Seq<TrackingView> {
    match linear.tracking_events {
        Some(events) => Seq::new(events@.len(), |i: int| tracking_of(events@[i])),
        None => Seq::empty(),
    }
}

/// The tracking records of a linear, in document order.
pub fn get_tracking_events_from_linear(linear: &Linear) -> (r: Vec<Tracking>)
    ensures
        r.deep_view() == tracking_records(*linear),
{
    let mut r: Vec<Tracking> = Vec::new();
    match &linear.tracking_events {
        Some(events) => {
            let mut i: usize = 0;
            while i < events.len()
                invariant
                    i <= events.len(),
                    r@.len() == i,
                    forall|j: int| 0 <= j < i ==> r@[j].deep_view() == tracking_of(events@[j]),
                decreases events.len() - i,
            {
                let event = &events[i];
                let mut urls: Vec<String> = Vec::new();
                urls.push(event.uri.clone());
                assert(urls.deep_view() =~= seq![event.uri@]);
                r.push(
                    Tracking {
                        event: event.event.clone(),
                        offset: clone_optional_string(&event.offset),
                        urls,
                    },
                );
                i += 1;
            }
            assert(r.deep_view() =~= tracking_records(*linear));
        },
        None => {
            assert(r.deep_view() =~= tracking_records(*linear));
        },
    }
    r
}

/// The click destinations of a linear, if it has any.
pub fn get_video_clicks_from_linear(linear: &Linear) -> (r: Option<VideoClicks>)
    ensures
        r.deep_view() == linear.video_clicks.deep_view(),
{
    match &linear.video_clicks {
        Some(clicks) => Some(
            VideoClicks {
                click_trackings: clone_strings(&clicks.click_trackings),
                click_through: clone_optional_string(&clicks.click_through),
            },
        ),
        None => None,
    }
}

/// The duration, the media URLs and the tracking records of a linear.
pub fn get_duration_and_media_urls_and_tracking_events_from_linear(linear: &Linear) -> (r: (
    u64,
    Vec<String>,
    Vec<Tracking>,
))
    ensures
        r.0 == match linear.duration {
            Some(d) => d,
            None => 0,
        },
        r.1.deep_view() == media_urls(*linear),
        r.2.deep_view() == tracking_records(*linear),
{
    (
        get_duration_from_linear(linear),
        get_media_urls_from_linear(linear),
        get_tracking_events_from_linear(linear),
    )
}

/// The text names a media segment: it contains `.ts`, `.cmf`, `.mp` or `.m4s`.
pub open spec fn names_media_segment(path: Seq<char>) -> bool {
    contains(path, ".ts"@) || contains(path, ".cmf"@) || contains(path, ".mp"@) || contains(
        path,
        ".m4s"@,
    )
}

/// The text names an HLS playlist: it contains `.m3u8`.
pub open spec fn names_playlist(path: Seq<char>) -> bool {
    contains(path, ".m3u8"@)
}

/// Whether a path or URL names a media segment.
pub fn is_media_segment(path: &str) -> (b: bool)
    ensures
        b == names_media_segment(path@),
{
    str_contains(path, ".ts") || str_contains(path, ".cmf") || str_contains(path, ".mp")
        || str_contains(path, ".m4s")
}

/// Whether a path or URL names an HLS playlist.
pub fn is_transcoded_media_segment(path: &str) -> (b: bool)
    ensures
        b == names_playlist(path@),
{
    str_contains(path, ".m3u8")
}


/// A creative can be played: it has an ad id and a linear with at least one
/// media URL.
pub open spec fn is_valid(creative: Creative) -> bool {
    &&& creative.ad_id is Some
    &&& creative.linear is Some
    &&& media_urls(creative.linear->0).len() > 0
}

/// The first media URL of a creative that can be played.
pub open spec fn first_media_url(creative: Creative) -> Seq<char> {
    media_urls(creative.linear->0)[0]
}

/// `filter` may answer `verdict` when it is asked about the text `url`.
pub open spec fn answers<F: Fn(&str) -> bool>(filter: F, url: Seq<char>, verdict: bool) -> bool {
    exists|s: &str| s@ == url && #[trigger] filter.ensures((s,), verdict)
}

/// `kept` is what is left of `creatives` once every creative is dropped
/// that cannot be played or whose first media URL the filter declines. The
/// order is that of `creatives`.
pub open spec fn is_filtered<F: Fn(&str) -> bool>(
    creatives: Seq<Creative>,
    filter: F,
    kept: Seq<Creative>,
) -> bool
    decreases creatives.len(),
{
    if creatives.len() == 0 {
        kept.len() == 0
    } else {
        let last = creatives.last();
        ||| {
            &&& kept.len() > 0
            &&& kept.last() == last
            &&& is_valid(last)
            &&& answers(filter, first_media_url(last), true)
            &&& is_filtered(creatives.drop_last(), filter, kept.drop_last())
        }
        ||| {
            &&& !is_valid(last) || answers(filter, first_media_url(last), false)
            &&& is_filtered(creatives.drop_last(), filter, kept)
        }
    }
}

/// Keeps the creatives that can be played and whose first media URL the
/// filter accepts.
pub fn filter_creatives_by<'a, F: Fn(&str) -> bool>(creatives: Vec<&'a Creative>, filter: F) -> (r:
    Vec<&'a Creative>)
    requires
        forall|s: &str| #[trigger] filter.requires((s,)),
    ensures
        is_filtered(referents(creatives@), filter, referents(r@)),
{
    let mut r: Vec<&'a Creative> = Vec::new();
    let mut i: usize = 0;
    while i < creatives.len()
        invariant
            i <= creatives.len(),
            forall|s: &str| #[trigger] filter.requires((s,)),
            is_filtered(referents(creatives@).take(i as int), filter, referents(r@)),
        decreases creatives.len() - i,
    {
        let creative: &'a Creative = creatives[i];
        let ghost seen = referents(creatives@).take(i as int);
        let ghost next = referents(creatives@).take(i + 1);
        let ghost kept = referents(r@);
        assert(next.drop_last() =~= seen);
        assert(next.last() == *creative);
        let mut keep = false;
        if creative.ad_id.is_some() {
            match &creative.linear {
                Some(linear) => match &linear.media_files {
                    Some(files) => {
                        if files.len() > 0 {
                            keep = filter(files[0].as_str());
                            assert(answers(filter, first_media_url(*creative), keep));
                        }
                    },
                    None => {},
                },
                None => {},
            }
        }
        if keep {
            r.push(creative);
            assert(referents(r@).drop_last() =~= kept);
        }
        i += 1;
    }
    assert(referents(creatives@).take(i as int) =~= referents(creatives@));
    r
}


/// The path of a media URL: the URL's path where the text is a URL, else
/// the text itself.
pub open spec fn media_url_path(url: Seq<char>) -> Seq<char> {
    if is_url(url) {
        url_path(url)
    } else {
        url
    }
}

/// The path of a media URL.
pub fn media_path(url: &str) -> (r: String)
    ensures
        r@ == media_url_path(url@),
{
    match path_of(url) {
        Ok(path) => path,
        Err(_) => url.to_owned(),
    }
}

/// Whether the path of a media URL names a media segment.
pub fn is_raw_media_url(url: &str) -> (b: bool)
    ensures
        b == names_media_segment(media_url_path(url@)),
{
    let path = media_path(url);
    is_media_segment(path.as_str())
}

/// Whether the path of a media URL names an HLS playlist.
pub fn is_transcoded_media_url(url: &str) -> (b: bool)
    ensures
        b == names_playlist(media_url_path(url@)),
{
    let path = media_path(url);
    is_transcoded_media_segment(path.as_str())
}

/// A raw creative: one that can be played and whose first media URL has a
/// path that names a media segment.
pub open spec fn is_raw(creative: Creative) -> bool {
    is_valid(creative) && names_media_segment(media_url_path(first_media_url(creative)))
}

/// A transcoded creative: one that can be played and whose first media URL
/// has a path that names an HLS playlist.
pub open spec fn is_transcoded(creative: Creative) -> bool {
    is_valid(creative) && names_playlist(media_url_path(first_media_url(creative)))
}

proof fn lemma_filtered_is_filter<F: Fn(&str) -> bool>(
    creatives: Seq<Creative>,
    filter: F,
    kept: Seq<Creative>,
    test: spec_fn(Seq<char>) -> bool,
    keep: spec_fn(Creative) -> bool,
)
    requires
        is_filtered(creatives, filter, kept),
        forall|s: &str, b: bool| #[trigger] filter.ensures((s,), b) ==> b == test(s@),
        forall|c: Creative| #[trigger] keep(c) == (is_valid(c) && test(first_media_url(c))),
    ensures
        kept == creatives.filter(keep),
    decreases creatives.len(),
{
    reveal(Seq::filter);
    if creatives.len() > 0 {
        let last = creatives.last();
        if kept.len() > 0 && kept.last() == last && is_valid(last) && answers(
            filter,
            first_media_url(last),
            true,
        ) && is_filtered(creatives.drop_last(), filter, kept.drop_last()) {
            lemma_filtered_is_filter(creatives.drop_last(), filter, kept.drop_last(), test, keep);
            assert(kept =~= kept.drop_last().push(last));
        } else {
            lemma_filtered_is_filter(creatives.drop_last(), filter, kept, test, keep);
        }
    } else {
        assert(kept =~= creatives.filter(keep));
    }
}

/// The raw creatives of the document, in document order.
pub fn get_all_raw_creatives_from_vast<'a>(vast: &'a Vast) -> (r: Vec<&'a Creative>)
    ensures
        referents(r@) == raw_creatives(all_creatives(vast.ads@)),
{
    let all = get_all_creatives_from_vast(vast);
    let ghost creatives = referents(all@);
    let r = filter_creatives_by(all, is_raw_media_url);
    proof {
        lemma_filtered_is_filter(
            creatives,
            is_raw_media_url,
            referents(r@),
            |url: Seq<char>| names_media_segment(media_url_path(url)),
            |c: Creative| is_raw(c),
        );
    }
    r
}

/// The transcoded creatives of the document, in document order.
pub fn get_all_transcoded_creatives_from_vast<'a>(vast: &'a Vast) -> (r: Vec<&'a Creative>)
    ensures
        referents(r@) == transcoded_creatives(all_creatives(vast.ads@)),
{
    let all = get_all_creatives_from_vast(vast);
    let ghost creatives = referents(all@);
    let r = filter_creatives_by(all, is_transcoded_media_url);
    proof {
        lemma_filtered_is_filter(
            creatives,
            is_transcoded_media_url,
            referents(r@),
            |url: Seq<char>| names_playlist(media_url_path(url)),
            |c: Creative| is_transcoded(c),
        );
    }
    r
}

/// The raw creatives among `creatives`, in the same order.
pub open spec fn raw_creatives(creatives: Seq<Creative>) -> Seq<Creative> {
    creatives.filter(|c: Creative| is_raw(c))
}

/// The transcoded creatives among `creatives`, in the same order.
pub open spec fn transcoded_creatives(creatives: Seq<Creative>) -> Seq<Creative> {
    creatives.filter(|c: Creative| is_transcoded(c))
}

/// Law of the projection: every raw creative returned can be played and
/// the path of its first media URL contains `.ts`, `.cmf`, `.mp` or `.m4s`;
/// every transcoded creative returned can be played and the path of its
/// first media URL contains `.m3u8`; a creative that is neither is in
/// neither result; and every raw or transcoded creative of the document is
/// returned.
pub proof fn lemma_projection_filters(creatives: Seq<Creative>)
    ensures
        forall|c: Creative| #[trigger]
            raw_creatives(creatives).contains(c) ==> is_valid(c) && names_media_segment(
                media_url_path(first_media_url(c)),
            ),
        forall|c: Creative| #[trigger]
            transcoded_creatives(creatives).contains(c) ==> is_valid(c) && names_playlist(
                media_url_path(first_media_url(c)),
            ),
        forall|c: Creative|
            !is_raw(c) && !is_transcoded(c) ==> !(#[trigger] raw_creatives(creatives).contains(c))
                && !transcoded_creatives(creatives).contains(c),
        forall|c: Creative|
            creatives.contains(c) && is_raw(c) ==> #[trigger] raw_creatives(creatives).contains(c),
        forall|c: Creative|
            creatives.contains(c) && is_transcoded(c) ==> #[trigger] transcoded_creatives(
                creatives,
            ).contains(c),
{
    let raw = |c: Creative| is_raw(c);
    let transcoded = |c: Creative| is_transcoded(c);
    assert forall|c: Creative| creatives.filter(raw).contains(c) implies is_raw(c) by {
        let i = choose|i: int| 0 <= i < creatives.filter(raw).len() && creatives.filter(raw)[i] == c;
        creatives.lemma_filter_pred(raw, i);
    }
    assert forall|c: Creative| creatives.filter(transcoded).contains(c) implies is_transcoded(
        c,
    ) by {
        let i = choose|i: int|
            0 <= i < creatives.filter(transcoded).len() && creatives.filter(transcoded)[i] == c;
        creatives.lemma_filter_pred(transcoded, i);
    }
    assert forall|c: Creative| creatives.contains(c) && is_raw(c) implies creatives.filter(
        raw,
    ).contains(c) by {
        let i = choose|i: int| 0 <= i < creatives.len() && creatives[i] == c;
        creatives.lemma_filter_contains(raw, i);
    }
    assert forall|c: Creative| creatives.contains(c) && is_transcoded(c) implies creatives.filter(
        transcoded,
    ).contains(c) by {
        let i = choose|i: int| 0 <= i < creatives.len() && creatives[i] == c;
        creatives.lemma_filter_contains(transcoded, i);
    }
}

} // verus!
