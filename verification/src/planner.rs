//! The break planner: matches ad slots to segment boundaries and attaches
//! interstitial cues.

use crate::clock::{
    date_time_to_utc_string, expected_timeline, infer_timeline, make_program_date_time_tag,
    parse_date_time, parsed_date_time, rfc3339_text,
};
use crate::playlist::{
    set_date_range, set_program_date_time, with_date_range, with_program_date_time, DateRange,
    DateRangeView, MediaPlaylist, MediaPlaylistView, MediaSegment, MediaSegmentView, PlaylistType,
};
use crate::config::{InsertionMode, ServerConfig};
use crate::slots::{
    generate_static_ad_slots, is_enumeration, is_ordered, is_static_schedule, slot_name, AdSlot,
    AvailableAdSlots,
};
use vstd::prelude::*;
use vstd::string::*;

verus! {

/// What a segment says about time: its explicit instant, where it carries a
/// date-time tag that can be read, and its duration in milliseconds.
pub open spec fn segment_timing(seg: MediaSegmentView) -> (Option<i64>, u64) {
    (
        match seg.program_date_time {
            Some(text) => parsed_date_time(text),
            None => None,
        },
        seg.duration_ms,
    )
}

/// The timing of every segment, in playlist order.
pub open spec fn timings_of(segments: Seq<MediaSegmentView>) -> Seq<(Option<i64>, u64)> {
    Seq::new(segments.len(), |k: int| segment_timing(segments[k]))
}

/// The expected start and the duration of every segment of a playlist whose
/// anchor before the first segment is `first`.
pub open spec fn playlist_timeline(segments: Seq<MediaSegmentView>, first: i64) -> Seq<(i64, u64)> {
    expected_timeline(timings_of(segments), first)
}

/// Places every segment in time, starting from the anchor
/// `first_program_date_time`.
pub fn calculate_expected_program_date_time_list(
    segments: &Vec<MediaSegment>,
    first_program_date_time: i64,
) -> (timeline: Vec<(i64, u64)>)
    ensures
        timeline@ == playlist_timeline(segments.deep_view(), first_program_date_time),
{
    let mut timings: Vec<(Option<i64>, u64)> = Vec::new();
    let mut k: usize = 0;
    while k < segments.len()
        invariant
            k <= segments.len(),
            timings@.len() == k,
            forall|j: int| 0 <= j < k ==> timings@[j] == segment_timing(segments.deep_view()[j]),
        decreases segments.len() - k,
    {
        let explicit: Option<i64> = match &segments[k].program_date_time {
            Some(text) => match parse_date_time(text.as_str()) {
                Ok(t) => Some(t),
                Err(_) => None,
            },
            None => None,
        };
        timings.push((explicit, segments[k].duration_ms));
        k += 1;
    }
    assert(timings@ =~= timings_of(segments.deep_view()));
    infer_timeline(&timings, first_program_date_time)
}

/// The text of the first date-time tag at or after position `from`.
pub open spec fn first_tag_from(segments: Seq<MediaSegmentView>, from: int) -> Option<Seq<char>>
    decreases segments.len() - from,
{
    if from < 0 || from >= segments.len() {
        None
    } else if segments[from].program_date_time is Some {
        segments[from].program_date_time
    } else {
        first_tag_from(segments, from + 1)
    }
}

/// The instant of the first date-time tag in the playlist; none where no
/// segment carries a tag or the first tag cannot be read.
pub open spec fn first_program_date_time(segments: Seq<MediaSegmentView>) -> Option<i64> {
    match first_tag_from(segments, 0) {
        Some(text) => parsed_date_time(text),
        None => None,
    }
}

/// Finds the first date-time tag of the playlist and reads it.
pub fn find_program_datetime_tag(playlist: &MediaPlaylist) -> (r: Option<i64>)
    ensures
        r == first_program_date_time(playlist.deep_view().segments),
{
    let ghost segs = playlist.deep_view().segments;
    let mut k: usize = 0;
    while k < playlist.segments.len()
        invariant
            k <= playlist.segments.len(),
            segs == playlist.segments.deep_view(),
            first_tag_from(segs, 0) == first_tag_from(segs, k as int),
        decreases playlist.segments.len() - k,
    {
        match &playlist.segments[k].program_date_time {
            Some(text) => {
                return match parse_date_time(text.as_str()) {
                    Ok(t) => Some(t),
                    Err(_) => None,
                };
            },
            None => {},
        }
        k += 1;
    }
    None
}

/// A break that starts at `start` falls within the segment of this timeline
/// entry: at or after the segment's expected start and before its end.
pub open spec fn in_window(entry: (i64, u64), start: i64) -> bool {
    entry.0 <= start < entry.0 + entry.1
}

/// The first slot at or after position `from` that falls within the entry's
/// window and is not yet taken.
pub open spec fn first_match_from(
    entry: (i64, u64),
    slots: Seq<AdSlot>,
    taken: Seq<bool>,
    from: int,
) -> Option<int>
    decreases slots.len() - from,
{
    if from < 0 || from >= slots.len() {
        None
    } else if in_window(entry, slots[from].start_time) && !taken[from] {
        Some(from)
    } else {
        first_match_from(entry, slots, taken, from + 1)
    }
}

/// Which slots the first `k` segments have taken.
pub open spec fn taken_after(timeline: Seq<(i64, u64)>, slots: Seq<AdSlot>, k: int) -> Seq<bool>
    decreases k,
{
    if k <= 0 {
        Seq::new(slots.len(), |j: int| false)
    } else {
        let before = taken_after(timeline, slots, k - 1);
        match first_match_from(timeline[k - 1], slots, before, 0) {
            Some(j) => before.update(j, true),
            None => before,
        }
    }
}

/// The position of the slot attached to segment `k`: the first slot, in the
/// order of `slots`, that falls within the segment's window and that no
/// earlier segment has taken.
pub open spec fn chosen_slot(timeline: Seq<(i64, u64)>, slots: Seq<AdSlot>, k: int) -> Option<int> {
    first_match_from(timeline[k], slots, taken_after(timeline, slots, k), 0)
}

/// The class of every cue that the planner attaches.
pub open spec fn interstitial_class() -> Seq<char> {
    "com.apple.hls.interstitial"@
}

/// Where a player fetches the asset list of the slot named `name`.
pub open spec fn asset_list_url(base: Seq<char>, name: Seq<char>) -> Seq<char> {
    base + "/interstitials.m3u8?_HLS_interstitial_id="@ + name
}

/// The cue for a slot; none where the slot's start cannot be written as a
/// calendar date.
pub open spec fn date_range_for(slot: AdSlot, base: Seq<char>, is_vod: bool) -> Option<
    DateRangeView,
> {
    match rfc3339_text(slot.start_time, true) {
        Some(start_date) => Some(
            DateRangeView {
                id: slot_name(slot.index),
                class: interstitial_class(),
                start_date,
                duration: slot.duration,
                asset_list: asset_list_url(base, slot_name(slot.index)),
                snap: "IN,OUT"@,
                restrict: "SKIP,JUMP"@,
                resume_offset: if is_vod {
                    Some(0u64)
                } else {
                    None
                },
            },
        ),
        None => None,
    }
}

/// Builds the cue for a slot. `interstitials_address` is the public base URL
/// of the proxy, without a trailing slash.
pub fn make_date_range(slot: &AdSlot, interstitials_address: &str, is_vod: bool) -> (r: Option<
    DateRange,
>)
    ensures
        r.deep_view() == date_range_for(*slot, interstitials_address@, is_vod),
{
    match date_time_to_utc_string(slot.start_time) {
        None => None,
        Some(start_date) => {
            let name = slot.name();
            let mut url = String::from_str(interstitials_address);
            url.append("/interstitials.m3u8?_HLS_interstitial_id=");
            url.append(name.as_str());
            Some(
                DateRange {
                    id: name,
                    class: String::from_str("com.apple.hls.interstitial"),
                    start_date,
                    duration: slot.duration,
                    asset_list: url,
                    snap: String::from_str("IN,OUT"),
                    restrict: String::from_str("SKIP,JUMP"),
                    resume_offset: if is_vod {
                        Some(0)
                    } else {
                        None
                    },
                },
            )
        },
    }
}

/// The segment with the date-time tag that a discontinuity needs: a segment
/// that follows a discontinuity and has no tag gets its expected start
/// written out, where that can be written as a calendar date.
pub open spec fn with_discontinuity_tag(seg: MediaSegmentView, start: i64) -> MediaSegmentView {
    if seg.has_discontinuity && seg.program_date_time is None {
        with_program_date_time(seg, rfc3339_text(start, false))
    } else {
        seg
    }
}

/// Segment `k` after planning.
pub open spec fn planned_segment(
    segments: Seq<MediaSegmentView>,
    is_vod: bool,
    base: Seq<char>,
    slots: Seq<AdSlot>,
    first: i64,
    k: int,
) -> MediaSegmentView {
    let timeline = playlist_timeline(segments, first);
    let tagged = with_discontinuity_tag(segments[k], timeline[k].0);
    match chosen_slot(timeline, slots, k) {
        Some(j) => match date_range_for(slots[j], base, is_vod) {
            Some(cue) => with_date_range(tagged, Some(cue)),
            None => tagged,
        },
        None => tagged,
    }
}

/// The playlist after planning against `slots`, with `first` as the anchor
/// before the first segment.
pub open spec fn planned(
    playlist: MediaPlaylistView,
    base: Seq<char>,
    slots: Seq<AdSlot>,
    first: i64,
) -> MediaPlaylistView {
    MediaPlaylistView {
        segments: Seq::new(
            playlist.segments.len(),
            |k: int| planned_segment(playlist.segments, playlist.is_vod(), base, slots, first, k),
        ),
        ..playlist
    }
}


fn find_slot(entry: (i64, u64), slots: &Vec<AdSlot>, taken: &Vec<bool>) -> (r: Option<usize>)
    requires
        taken.len() == slots.len(),
    ensures
        match r {
            Some(j) => j < slots.len() && first_match_from(entry, slots@, taken@, 0) == Some(
                j as int,
            ),
            None => first_match_from(entry, slots@, taken@, 0) is None,
        },
{
    let mut j: usize = 0;
    while j < slots.len()
        invariant
            j <= slots.len(),
            taken.len() == slots.len(),
            first_match_from(entry, slots@, taken@, 0) == first_match_from(
                entry,
                slots@,
                taken@,
                j as int,
            ),
        decreases slots.len() - j,
    {
        let start = slots[j].start_time;
        if entry.0 <= start && (start as i128) < entry.0 as i128 + entry.1 as i128 && !taken[j] {
            return Some(j);
        }
        j += 1;
    }
    None
}

fn none_taken(n: usize) -> (taken: Vec<bool>)
    ensures
        taken@ == Seq::new(n as nat, |j: int| false),
{
    let mut taken: Vec<bool> = Vec::new();
    let mut j: usize = 0;
    while j < n
        invariant
            j <= n,
            taken@.len() == j,
            forall|i: int| 0 <= i < j ==> !taken@[i],
        decreases n - j,
    {
        taken.push(false);
        j += 1;
    }
    assert(taken@ =~= Seq::new(n as nat, |j: int| false));
    taken
}

/// Rewrites the playlist against the given slots. Every segment is placed in
/// time from the anchor `first_program_date_time`; a segment that follows a
/// discontinuity and has no date-time tag gets one; and each segment gets
/// the cue of the first slot, in the order of `slots`, that starts within it
/// and that no earlier segment has taken.
pub fn plan_interstitials(
    m3u8: &mut MediaPlaylist,
    interstitials_address: &str,
    slots: &Vec<AdSlot>,
    first_program_date_time: i64,
)
    ensures
        final(m3u8).deep_view() == planned(
            old(m3u8).deep_view(),
            interstitials_address@,
            slots@,
            first_program_date_time,
        ),
{
    let ghost orig = m3u8.deep_view();
    let ghost base = interstitials_address@;
    let ghost first = first_program_date_time;
    let is_vod = match m3u8.playlist_type {
        Some(PlaylistType::Vod) => true,
        _ => false,
    };
    let timeline = calculate_expected_program_date_time_list(
        &m3u8.segments,
        first_program_date_time,
    );
    let mut taken = none_taken(slots.len());
    let n = m3u8.segments.len();
    let mut k: usize = 0;
    while k < n
        invariant
            k <= n,
            n == orig.segments.len(),
            m3u8.segments.deep_view().len() == n,
            m3u8.playlist_type == orig.playlist_type,
            m3u8.has_end_list == orig.has_end_list,
            is_vod == orig.is_vod(),
            base == interstitials_address@,
            timeline@ == playlist_timeline(orig.segments, first),
            taken@ == taken_after(timeline@, slots@, k as int),
            taken@.len() == slots@.len(),
            forall|i: int|
                0 <= i < k ==> #[trigger] m3u8.segments.deep_view()[i] == planned_segment(
                    orig.segments,
                    is_vod,
                    base,
                    slots@,
                    first,
                    i,
                ),
            forall|i: int| k <= i < n ==> #[trigger] m3u8.segments.deep_view()[i] == orig.segments[i],
        decreases n - k,
    {
        let (start, duration) = timeline[k];
        let ghost before = m3u8.segments.deep_view();
        if m3u8.segments[k].has_discontinuity && m3u8.segments[k].program_date_time.is_none() {
            match make_program_date_time_tag(start) {
                Some(text) => {
                    set_program_date_time(&mut m3u8.segments, k, text);
                },
                None => {},
            }
        }
        assert(m3u8.segments.deep_view() =~= before.update(
            k as int,
            with_discontinuity_tag(orig.segments[k as int], start),
        ));
        let ghost tagged = m3u8.segments.deep_view();
        match find_slot((start, duration), slots, &taken) {
            Some(j) => {
                taken.set(j, true);
                match make_date_range(&slots[j], interstitials_address, is_vod) {
                    Some(cue) => {
                        set_date_range(&mut m3u8.segments, k, cue);
                    },
                    None => {},
                }
            },
            None => {},
        }
        assert(m3u8.segments.deep_view() =~= tagged.update(
            k as int,
            planned_segment(orig.segments, is_vod, base, slots@, first, k as int),
        ));
        k += 1;
    }
    assert(m3u8.deep_view().segments =~= planned(orig, base, slots@, first).segments);
}


/// The planner leaves such a playlist as it is: a video-on-demand playlist
/// under dynamic insertion, a live playlist whose first date-time tag is
/// missing or unreadable, or one that has neither such a tag nor a segment
/// to put one on.
pub open spec fn planner_skips(playlist: MediaPlaylistView, mode: InsertionMode) -> bool {
    ||| playlist.is_vod() && mode == InsertionMode::Dynamic
    ||| first_program_date_time(playlist.segments) is None && !playlist.is_vod()
    ||| first_program_date_time(playlist.segments) is None && playlist.segments.len() == 0
}

/// How a run of the planner ended.
#[derive(Clone, Copy, Debug, PartialEq, Eq, Structural)]
pub enum Planning {
    /// The playlist was planned against the registry's slots.
    Planned,
    /// Nothing was done: a video-on-demand playlist cannot be served under
    /// dynamic insertion.
    Unsupported,
    /// Nothing was done: the playlist gives no date and time to start from.
    NoDateTime,
}

/// How the planner ends on a playlist.
pub open spec fn planning_of(playlist: MediaPlaylistView, mode: InsertionMode) -> Planning {
    if playlist.is_vod() && mode == InsertionMode::Dynamic {
        Planning::Unsupported
    } else if first_program_date_time(playlist.segments) is None && (!playlist.is_vod()
        || playlist.segments.len() == 0) {
        Planning::NoDateTime
    } else {
        Planning::Planned
    }
}

/// The anchor from which the planner places the segments in time: the first
/// date-time tag, else the instant at which the server started.
pub open spec fn planning_anchor(playlist: MediaPlaylistView, start_time: i64) -> i64 {
    match first_program_date_time(playlist.segments) {
        Some(t) => t,
        None => start_time,
    }
}

/// The anchor of the repeating schedule: the planning anchor for
/// video-on-demand, the server's start for a live stream.
pub open spec fn schedule_anchor(playlist: MediaPlaylistView, start_time: i64) -> i64 {
    if playlist.is_vod() {
        planning_anchor(playlist, start_time)
    } else {
        start_time
    }
}

/// The playlist with its anchor in place: where no first date-time tag can
/// be read, the first segment gets the server's start as its tag, if that
/// can be written as a calendar date.
pub open spec fn anchored(playlist: MediaPlaylistView, start_time: i64) -> MediaPlaylistView {
    if first_program_date_time(playlist.segments) is None && playlist.segments.len() > 0 {
        match rfc3339_text(start_time, false) {
            Some(text) => MediaPlaylistView {
                segments: playlist.segments.update(
                    0,
                    with_program_date_time(playlist.segments[0], Some(text)),
                ),
                ..playlist
            },
            None => playlist,
        }
    } else {
        playlist
    }
}

/// What the planner does to the registry: under static insertion an empty
/// registry receives the repeating schedule; any other registry stays as it
/// is.
pub open spec fn registry_after(
    before: Set<AdSlot>,
    after: Set<AdSlot>,
    playlist: MediaPlaylistView,
    config: ServerConfig,
    start_time: i64,
) -> bool {
    if config.insertion_mode == InsertionMode::Static && before == Set::<AdSlot>::empty() {
        exists|schedule: Seq<AdSlot>|
            #[trigger] is_static_schedule(
                schedule,
                config.default_ad_duration,
                config.default_repeating_cycle,
                config.default_ad_number,
                schedule_anchor(playlist, start_time),
            ) && after == schedule.to_set()
    } else {
        after == before
    }
}

/// Rewrites a media playlist: attaches an interstitial cue to each segment
/// within which a pending slot starts. `start_time` is the instant at which
/// the server started.
///
/// Nothing happens to a playlist that [`planner_skips`], and the result
/// says why. Otherwise the registry is filled as [`registry_after`] says,
/// and the playlist is planned against the registry's slots in the
/// registry's own order, which depends on nothing but the slots held.
pub fn insert_interstitials(
    m3u8: &mut MediaPlaylist,
    config: &ServerConfig,
    available_slots: &mut AvailableAdSlots,
    start_time: i64,
) -> (r: Planning)
    ensures
        r == planning_of(old(m3u8).deep_view(), config.insertion_mode),
        (r == Planning::Planned) == !planner_skips(old(m3u8).deep_view(), config.insertion_mode),
        planner_skips(old(m3u8).deep_view(), config.insertion_mode) ==> {
            &&& final(m3u8).deep_view() == old(m3u8).deep_view()
            &&& final(available_slots)@ == old(available_slots)@
        },
        !planner_skips(old(m3u8).deep_view(), config.insertion_mode) ==> {
            &&& registry_after(
                old(available_slots)@,
                final(available_slots)@,
                old(m3u8).deep_view(),
                *config,
                start_time,
            )
            &&& exists|order: Seq<AdSlot>|
                #[trigger] is_enumeration(order, final(available_slots)@) && is_ordered(order)
                    && final(m3u8).deep_view() == planned(
                    anchored(old(m3u8).deep_view(), start_time),
                    config.interstitials_address@,
                    order,
                    planning_anchor(old(m3u8).deep_view(), start_time),
                )
        },
{
    let ghost orig = m3u8.deep_view();
    let is_vod = match m3u8.playlist_type {
        Some(PlaylistType::Vod) => true,
        _ => false,
    };
    let is_static = config.insertion_mode == InsertionMode::Static;
    if is_vod && !is_static {
        return Planning::Unsupported;
    }
    let first: i64 = match find_program_datetime_tag(m3u8) {
        Some(t) => t,
        None => {
            if !is_vod || m3u8.segments.len() == 0 {
                return Planning::NoDateTime;
            }
            match make_program_date_time_tag(start_time) {
                Some(text) => {
                    set_program_date_time(&mut m3u8.segments, 0, text);
                },
                None => {},
            }
            start_time
        },
    };
    assert(m3u8.deep_view().segments =~= anchored(orig, start_time).segments);
    if is_static && available_slots.is_empty() {
        let anchor = if is_vod {
            first
        } else {
            start_time
        };
        let schedule = generate_static_ad_slots(
            config.default_ad_duration,
            config.default_repeating_cycle,
            config.default_ad_number,
            anchor,
        );
        available_slots.extend(&schedule);
        assert(available_slots@ =~= schedule@.to_set());
        assert(is_static_schedule(
            schedule@,
            config.default_ad_duration,
            config.default_repeating_cycle,
            config.default_ad_number,
            schedule_anchor(orig, start_time),
        ));
    }
    let order = available_slots.ordered();
    plan_interstitials(m3u8, config.interstitials_address.as_str(), &order, first);
    assert(is_enumeration(order@, available_slots@));
    Planning::Planned
}

} // verus!
