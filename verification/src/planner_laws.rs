//! Laws of the break planner.

use crate::clock::{expected_start, expected_timeline, parsed_date_time, rfc3339_text};
use crate::config::InsertionMode;
use crate::planner::{
    registry_after, anchored, chosen_slot, date_range_for, first_match_from, first_program_date_time, in_window,
    planned, planned_segment, planner_skips, planning_anchor, playlist_timeline, segment_timing,
    taken_after, timings_of, with_discontinuity_tag,
};
use crate::playlist::{MediaPlaylistView, MediaSegmentView};
use crate::config::ServerConfig;
use crate::slot_laws::lemma_ordered_enumeration_unique;
use crate::slots::{is_enumeration, is_ordered, is_static_schedule, slot_name, AdSlot};
use crate::timeline_laws::{fills_in, lemma_fills_in_keeps_timeline};
use vstd::prelude::*;

verus! {

/// Slot `i` can be given to a segment with this timeline entry: it starts
/// within the segment and nobody has taken it.
pub open spec fn is_free_match(entry: (i64, u64), slots: Seq<AdSlot>, taken: Seq<bool>, i: int) -> bool {
    in_window(entry, slots[i].start_time) && !taken[i]
}

/// What the first match is: the earliest slot that can be given, or none
/// where no slot can.
pub proof fn lemma_first_match(entry: (i64, u64), slots: Seq<AdSlot>, taken: Seq<bool>, from: int)
    requires
        0 <= from,
    ensures
        match first_match_from(entry, slots, taken, from) {
            Some(j) => {
                &&& from <= j < slots.len()
                &&& is_free_match(entry, slots, taken, j)
                &&& forall|i: int| from <= i < j ==> !is_free_match(entry, slots, taken, i)
            },
            None => forall|i: int|
                from <= i < slots.len() ==> !is_free_match(entry, slots, taken, i),
        },
    decreases slots.len() - from,
{
    if from < slots.len() && !is_free_match(entry, slots, taken, from) {
        lemma_first_match(entry, slots, taken, from + 1);
    }
}

/// The record of taken slots has one entry per slot, and a slot once taken
/// stays taken.
pub proof fn lemma_taken_grows(
    timeline: Seq<(i64, u64)>,
    slots: Seq<AdSlot>,
    k1: int,
    k2: int,
    j: int,
)
    requires
        k1 <= k2,
        0 <= j < slots.len(),
    ensures
        taken_after(timeline, slots, k1).len() == slots.len(),
        taken_after(timeline, slots, k2).len() == slots.len(),
        taken_after(timeline, slots, k1)[j] ==> taken_after(timeline, slots, k2)[j],
    decreases k2 - k1, k2,
{
    if k1 < k2 {
        lemma_taken_grows(timeline, slots, k1, k2 - 1, j);
        if k2 > 0 {
            lemma_first_match(timeline[k2 - 1], slots, taken_after(timeline, slots, k2 - 1), 0);
        }
    } else if k1 > 0 {
        lemma_taken_grows(timeline, slots, k1 - 1, k1 - 1, j);
        lemma_first_match(timeline[k1 - 1], slots, taken_after(timeline, slots, k1 - 1), 0);
    }
}

/// Law of the planner: the slot attached to a segment starts within that
/// segment, at or after its expected start and before its end.
pub proof fn lemma_chosen_slot_in_window(timeline: Seq<(i64, u64)>, slots: Seq<AdSlot>, k: int)
    ensures
        chosen_slot(timeline, slots, k) matches Some(j) ==> 0 <= j < slots.len() && in_window(
            timeline[k],
            slots[j].start_time,
        ),
{
    lemma_first_match(timeline[k], slots, taken_after(timeline, slots, k), 0);
}

/// Law of the planner: no slot is attached to two segments.
pub proof fn lemma_slot_attached_once(
    timeline: Seq<(i64, u64)>,
    slots: Seq<AdSlot>,
    k1: int,
    k2: int,
)
    requires
        0 <= k1 < k2,
        chosen_slot(timeline, slots, k1) is Some,
    ensures
        chosen_slot(timeline, slots, k1) != chosen_slot(timeline, slots, k2),
{
    let j = chosen_slot(timeline, slots, k1)->0;
    lemma_first_match(timeline[k1], slots, taken_after(timeline, slots, k1), 0);
    lemma_taken_grows(timeline, slots, k1, k1, j);
    assert(taken_after(timeline, slots, k1 + 1)[j]);
    lemma_taken_grows(timeline, slots, k1 + 1, k2, j);
    lemma_first_match(timeline[k2], slots, taken_after(timeline, slots, k2), 0);
}

/// Law of the planner: every cue in a planned playlist that was not there
/// before belongs to a slot of the registry. That slot starts within the
/// segment's window, its name is the cue's `ID`, and the cue is the one made
/// for it.
pub proof fn lemma_cue_has_slot(
    playlist: MediaPlaylistView,
    base: Seq<char>,
    slots: Seq<AdSlot>,
    registry: Set<AdSlot>,
    first: i64,
    k: int,
)
    requires
        0 <= k < playlist.segments.len(),
        is_enumeration(slots, registry),
    ensures
        ({
            let timeline = playlist_timeline(playlist.segments, first);
            let before = playlist.segments[k].date_range;
            let after = planned(playlist, base, slots, first).segments[k].date_range;
            after != before ==> exists|slot: AdSlot|
                {
                    &&& #[trigger] registry.contains(slot)
                    &&& in_window(timeline[k], slot.start_time)
                    &&& after == date_range_for(slot, base, playlist.is_vod())
                    &&& after matches Some(cue) && cue.id == slot_name(slot.index)
                }
        }),
{
    let timeline = playlist_timeline(playlist.segments, first);
    let before = playlist.segments[k].date_range;
    let after = planned(playlist, base, slots, first).segments[k].date_range;
    if after != before {
        let j = chosen_slot(timeline, slots, k)->0;
        lemma_chosen_slot_in_window(timeline, slots, k);
        assert(slots.contains(slots[j]));
        assert(registry.contains(slots[j]));
    }
}

/// Law of the planner: in a planned playlist that came without cues, every
/// cue belongs to a slot of the registry that starts within the cue's
/// segment and whose name is the cue's `ID`.
pub proof fn lemma_every_cue_has_slot(
    playlist: MediaPlaylistView,
    base: Seq<char>,
    slots: Seq<AdSlot>,
    registry: Set<AdSlot>,
    first: i64,
    k: int,
)
    requires
        0 <= k < playlist.segments.len(),
        is_enumeration(slots, registry),
        forall|i: int|
            0 <= i < playlist.segments.len() ==> (#[trigger] playlist.segments[i]).date_range
                is None,
        planned(playlist, base, slots, first).segments[k].date_range is Some,
    ensures
        exists|slot: AdSlot|
            {
                &&& #[trigger] registry.contains(slot)
                &&& in_window(playlist_timeline(playlist.segments, first)[k], slot.start_time)
                &&& planned(playlist, base, slots, first).segments[k].date_range->0.id
                    == slot_name(slot.index)
            },
{
    lemma_cue_has_slot(playlist, base, slots, registry, first, k);
    assert(playlist.segments[k].date_range is None);
}

/// Law of the planner: where every segment carries a date-time tag that can
/// be read, each segment is placed at the instant that its tag gives.
pub proof fn lemma_explicit_tags_are_kept(segments: Seq<MediaSegmentView>, first: i64)
    requires
        forall|k: int|
            0 <= k < segments.len() ==> (#[trigger] segments[k]).program_date_time is Some
                && parsed_date_time(segments[k].program_date_time->0) is Some,
    ensures
        playlist_timeline(segments, first).len() == segments.len(),
        forall|k: int|
            0 <= k < segments.len() ==> (#[trigger] playlist_timeline(segments, first)[k]).0
                == parsed_date_time(segments[k].program_date_time->0)->0,
{
    assert forall|k: int| 0 <= k < segments.len() implies (#[trigger] playlist_timeline(
        segments,
        first,
    )[k]).0 == parsed_date_time(segments[k].program_date_time->0)->0 by {
        assert(segments[k].program_date_time is Some);
    }
}

/// The text written for `instant` reads back as `instant`.
pub open spec fn reads_back(instant: i64) -> bool {
    match rfc3339_text(instant, false) {
        Some(text) => parsed_date_time(text) == Some(instant),
        None => true,
    }
}

/// Every date-time tag that planning writes after a discontinuity reads back
/// as the instant it was written for.
pub open spec fn tags_read_back(segments: Seq<MediaSegmentView>, first: i64) -> bool {
    forall|k: int|
        0 <= k < segments.len() && (#[trigger] segments[k]).has_discontinuity
            && segments[k].program_date_time is None ==> reads_back(
            playlist_timeline(segments, first)[k].0,
        )
}

proof fn lemma_planned_keeps_timeline(
    playlist: MediaPlaylistView,
    base: Seq<char>,
    slots: Seq<AdSlot>,
    first: i64,
)
    requires
        tags_read_back(playlist.segments, first),
    ensures
        playlist_timeline(planned(playlist, base, slots, first).segments, first)
            == playlist_timeline(playlist.segments, first),
{
    let earlier = timings_of(playlist.segments);
    let out = planned(playlist, base, slots, first);
    let later = timings_of(out.segments);
    assert forall|k: int| 0 <= k < earlier.len() implies {
        &&& (#[trigger] later[k]).1 == earlier[k].1
        &&& (later[k].0 == earlier[k].0 || (earlier[k].0 is None && later[k].0 == Some(
            expected_start(earlier, first, k),
        )))
    } by {
        let seg = playlist.segments[k];
        assert(out.segments[k] == planned_segment(
            playlist.segments,
            playlist.is_vod(),
            base,
            slots,
            first,
            k,
        ));
        assert(playlist_timeline(playlist.segments, first)[k].0 == expected_start(
            earlier,
            first,
            k,
        ));
    }
    assert(fills_in(earlier, later, first));
    lemma_fills_in_keeps_timeline(earlier, later, first);
}

/// Law of the planner: planning a planned playlist again, against the same
/// slots in the same order and from the same anchor, changes nothing. It is
/// stated of the playlists whose written date-time tags read back as written
/// (see [`tags_read_back`]).
pub proof fn lemma_planned_twice(
    playlist: MediaPlaylistView,
    base: Seq<char>,
    slots: Seq<AdSlot>,
    first: i64,
)
    requires
        tags_read_back(playlist.segments, first),
    ensures
        planned(planned(playlist, base, slots, first), base, slots, first) == planned(
            playlist,
            base,
            slots,
            first,
        ),
{
    let once = planned(playlist, base, slots, first);
    let twice = planned(once, base, slots, first);
    lemma_planned_keeps_timeline(playlist, base, slots, first);
    assert forall|k: int| 0 <= k < once.segments.len() implies twice.segments[k]
        == once.segments[k] by {
        assert(once.segments[k] == planned_segment(
            playlist.segments,
            playlist.is_vod(),
            base,
            slots,
            first,
            k,
        ));
        assert(twice.segments[k] == planned_segment(
            once.segments,
            once.is_vod(),
            base,
            slots,
            first,
            k,
        ));
    }
    assert(twice.segments =~= once.segments);
}

/// What the planner makes of a playlist, given the order in which the
/// registry enumerates its slots.
pub open spec fn rewritten(
    playlist: MediaPlaylistView,
    mode: InsertionMode,
    base: Seq<char>,
    order: Seq<AdSlot>,
    start_time: i64,
) -> MediaPlaylistView {
    if planner_skips(playlist, mode) {
        playlist
    } else {
        planned(
            anchored(playlist, start_time),
            base,
            order,
            planning_anchor(playlist, start_time),
        )
    }
}

/// Law of the planner: running it twice on a playlist with the same slots,
/// enumerated in the same order, gives on the second run what the first run
/// gave.
///
/// It is stated of the playlists whose written date-time tags read back as
/// written, and whose first tag after the first run reads as the anchor
/// that the first run used. The second condition leaves out a playlist in
/// which an untagged discontinuity stands between the first segment and the
/// first tag: the tag written there becomes the first tag, and the second
/// run anchors on it.
pub proof fn lemma_rewritten_twice(
    playlist: MediaPlaylistView,
    mode: InsertionMode,
    base: Seq<char>,
    order: Seq<AdSlot>,
    start_time: i64,
)
    requires
        tags_read_back(
            anchored(playlist, start_time).segments,
            planning_anchor(playlist, start_time),
        ),
        !planner_skips(playlist, mode) ==> first_program_date_time(
            rewritten(playlist, mode, base, order, start_time).segments,
        ) == Some(planning_anchor(playlist, start_time)),
    ensures
        rewritten(rewritten(playlist, mode, base, order, start_time), mode, base, order, start_time)
            == rewritten(playlist, mode, base, order, start_time),
{
    if !planner_skips(playlist, mode) {
        let first = planning_anchor(playlist, start_time);
        let once = rewritten(playlist, mode, base, order, start_time);
        assert(anchored(once, start_time) == once);
        assert(planning_anchor(once, start_time) == first);
        assert(!planner_skips(once, mode));
        lemma_planned_twice(anchored(playlist, start_time), base, order, first);
    }
}


/// Law of the planner: a run on the playlist that an earlier run left,
/// under the same configuration, leaves the registry as the earlier run
/// left it.
pub proof fn lemma_registry_settles(
    before: Set<AdSlot>,
    once: Set<AdSlot>,
    twice: Set<AdSlot>,
    playlist: MediaPlaylistView,
    planned_playlist: MediaPlaylistView,
    config: ServerConfig,
    start_time: i64,
)
    requires
        registry_after(before, once, playlist, config, start_time),
        registry_after(once, twice, planned_playlist, config, start_time),
    ensures
        twice == once,
{
    if config.insertion_mode == InsertionMode::Static && once == Set::<AdSlot>::empty() {
        let first = choose|schedule: Seq<AdSlot>|
            #[trigger] is_static_schedule(
                schedule,
                config.default_ad_duration,
                config.default_repeating_cycle,
                config.default_ad_number,
                crate::planner::schedule_anchor(playlist, start_time),
            ) && once == schedule.to_set();
        let second = choose|schedule: Seq<AdSlot>|
            #[trigger] is_static_schedule(
                schedule,
                config.default_ad_duration,
                config.default_repeating_cycle,
                config.default_ad_number,
                crate::planner::schedule_anchor(planned_playlist, start_time),
            ) && twice == schedule.to_set();
        if first.len() > 0 {
            assert(first.to_set().contains(first[0]));
        }
        assert(second.len() == 0);
        assert(second.to_set() =~= Set::<AdSlot>::empty());
    }
}

/// Law of the planner: two runs on a playlist, one after the other under
/// the same configuration, give on the second run what the first run gave.
/// Each run plans against the registry's slots in the registry's own
/// order, and the second run finds the registry as the first left it, so
/// both plan against the same slots in the same order.
///
/// It is stated of the playlists whose written date-time tags read back as
/// written, and whose first tag after the first run reads as the anchor
/// that the first run used (see [`lemma_rewritten_twice`]).
pub proof fn lemma_two_runs(
    playlist: MediaPlaylistView,
    mode: InsertionMode,
    base: Seq<char>,
    registry: Set<AdSlot>,
    first_order: Seq<AdSlot>,
    second_order: Seq<AdSlot>,
    start_time: i64,
)
    requires
        is_enumeration(first_order, registry),
        is_ordered(first_order),
        is_enumeration(second_order, registry),
        is_ordered(second_order),
        tags_read_back(
            anchored(playlist, start_time).segments,
            planning_anchor(playlist, start_time),
        ),
        !planner_skips(playlist, mode) ==> first_program_date_time(
            rewritten(playlist, mode, base, first_order, start_time).segments,
        ) == Some(planning_anchor(playlist, start_time)),
    ensures
        rewritten(
            rewritten(playlist, mode, base, first_order, start_time),
            mode,
            base,
            second_order,
            start_time,
        ) == rewritten(playlist, mode, base, first_order, start_time),
{
    lemma_ordered_enumeration_unique(first_order, second_order, registry);
    lemma_rewritten_twice(playlist, mode, base, first_order, start_time);
}


proof fn lemma_single_slot_is_free(
    timeline: Seq<(i64, u64)>,
    slot: AdSlot,
    k: int,
    i: int,
)
    requires
        0 <= i <= k,
        forall|j: int| 0 <= j < k ==> !in_window(#[trigger] timeline[j], slot.start_time),
    ensures
        taken_after(timeline, seq![slot], i) == Seq::new(1, |j: int| false),
    decreases i,
{
    if i > 0 {
        lemma_single_slot_is_free(timeline, slot, k, i - 1);
        lemma_first_match(timeline[i - 1], seq![slot], taken_after(timeline, seq![slot], i - 1), 0);
        assert(!in_window(timeline[i - 1], slot.start_time));
    }
}

/// Law of the planner: against a registry of one slot, a playlist that
/// came without cues and has exactly one segment within which the slot
/// starts gets exactly one cue. It sits on that segment, bears the slot's
/// name and duration, and carries a resume offset only for
/// video-on-demand. It is stated of the slots whose start can be written
/// as a calendar date.
pub proof fn lemma_single_slot(
    playlist: MediaPlaylistView,
    base: Seq<char>,
    slot: AdSlot,
    first: i64,
    k: int,
)
    requires
        0 <= k < playlist.segments.len(),
        forall|i: int|
            0 <= i < playlist.segments.len() ==> (#[trigger] playlist.segments[i]).date_range
                is None,
        forall|i: int|
            0 <= i < playlist.segments.len() ==> (in_window(
                #[trigger] playlist_timeline(playlist.segments, first)[i],
                slot.start_time,
            ) <==> i == k),
        rfc3339_text(slot.start_time, true) is Some,
    ensures
        ({
            let after = planned(playlist, base, seq![slot], first);
            &&& after.segments[k].date_range == date_range_for(slot, base, playlist.is_vod())
            &&& after.segments[k].date_range matches Some(cue) && cue.id == slot_name(slot.index)
                && cue.duration == slot.duration && (cue.resume_offset is Some)
                == playlist.is_vod()
            &&& forall|i: int|
                0 <= i < playlist.segments.len() && i != k ==> (#[trigger] after.segments[i]).date_range
                    is None
        }),
{
    let timeline = playlist_timeline(playlist.segments, first);
    let slots = seq![slot];
    let after = planned(playlist, base, slots, first);
    lemma_single_slot_is_free(timeline, slot, k, k);
    lemma_first_match(timeline[k], slots, taken_after(timeline, slots, k), 0);
    assert(in_window(timeline[k], slot.start_time));
    assert(chosen_slot(timeline, slots, k) == Some(0int));
    assert(after.segments[k] == planned_segment(
        playlist.segments,
        playlist.is_vod(),
        base,
        slots,
        first,
        k,
    ));
    assert forall|i: int| 0 <= i < playlist.segments.len() && i != k implies (
    #[trigger] after.segments[i]).date_range is None by {
        lemma_first_match(timeline[i], slots, taken_after(timeline, slots, i), 0);
        assert(!in_window(timeline[i], slot.start_time));
        assert(chosen_slot(timeline, slots, i) is None);
        assert(after.segments[i] == planned_segment(
            playlist.segments,
            playlist.is_vod(),
            base,
            slots,
            first,
            i,
        ));
        assert(playlist.segments[i].date_range is None);
    }
}

} // verus!
