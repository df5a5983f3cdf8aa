//! A media playlist as the planner sees it: what each segment says about
//! time, and the cue tags that the planner attaches.

use vstd::prelude::*;
use vstd::string::*;

verus! {

/// Whether a playlist may still change.
#[derive(Clone, Copy, Debug, PartialEq, Eq, Structural)]
pub enum PlaylistType {
    /// Segments may be appended.
    Event,
    /// The playlist is complete and fixed.
    Vod,
}

/// An `EXT-X-DATERANGE` cue that marks an interstitial.
#[derive(Clone, Debug, PartialEq, Eq)]
pub struct DateRange {
    /// `ID`.
    pub id: String,
    /// `CLASS`.
    pub class: String,
    /// `START-DATE`.
    pub start_date: String,
    /// `DURATION`, in seconds.
    pub duration: u64,
    /// `X-ASSET-LIST`.
    pub asset_list: String,
    /// `X-SNAP`.
    pub snap: String,
    /// `X-RESTRICT`.
    pub restrict: String,
    /// `X-RESUME-OFFSET`, in seconds, where the cue carries one.
    pub resume_offset: Option<u64>,
}

/// What a [`DateRange`] holds.
pub struct DateRangeView {
    pub id: Seq<char>,
    pub class: Seq<char>,
    pub start_date: Seq<char>,
    pub duration: u64,
    pub asset_list: Seq<char>,
    pub snap: Seq<char>,
    pub restrict: Seq<char>,
    pub resume_offset: Option<u64>,
}

impl DeepView for DateRange {
    type V = DateRangeView;

    open spec fn deep_view(&self) -> DateRangeView {
        DateRangeView {
            id: self.id@,
            class: self.class@,
            start_date: self.start_date@,
            duration: self.duration,
            asset_list: self.asset_list@,
            snap: self.snap@,
            restrict: self.restrict@,
            resume_offset: self.resume_offset,
        }
    }
}

/// One media segment.
#[derive(Clone, Debug, PartialEq, Eq)]
pub struct MediaSegment {
    /// Duration in whole milliseconds.
    pub duration_ms: u64,
    /// The text of the segment's `EXT-X-PROGRAM-DATE-TIME` tag, if it has one.
    pub program_date_time: Option<String>,
    /// Whether an `EXT-X-DISCONTINUITY` tag precedes the segment.
    pub has_discontinuity: bool,
    /// The URI of the segment's `EXT-X-MAP` tag, if it has one.
    pub map_uri: Option<String>,
    /// The interstitial cue attached to the segment, if any.
    pub date_range: Option<DateRange>,
}

/// What a [`MediaSegment`] holds.
pub struct MediaSegmentView {
    pub duration_ms: u64,
    pub program_date_time: Option<Seq<char>>,
    pub has_discontinuity: bool,
    pub map_uri: Option<Seq<char>>,
    pub date_range: Option<DateRangeView>,
}

impl DeepView for MediaSegment {
    type V = MediaSegmentView;

    open spec fn deep_view(&self) -> MediaSegmentView {
        MediaSegmentView {
            duration_ms: self.duration_ms,
            program_date_time: self.program_date_time.deep_view(),
            has_discontinuity: self.has_discontinuity,
            map_uri: self.map_uri.deep_view(),
            date_range: self.date_range.deep_view(),
        }
    }
}

/// A media playlist.
#[derive(Clone, Debug, PartialEq, Eq)]
pub struct MediaPlaylist {
    /// The `EXT-X-PLAYLIST-TYPE`, if the playlist declares one.
    pub playlist_type: Option<PlaylistType>,
    /// Whether the playlist ends with `EXT-X-ENDLIST`.
    pub has_end_list: bool,
    /// The segments, in order.
    pub segments: Vec<MediaSegment>,
}

/// What a [`MediaPlaylist`] holds.
pub struct MediaPlaylistView {
    pub playlist_type: Option<PlaylistType>,
    pub has_end_list: bool,
    pub segments: Seq<MediaSegmentView>,
}

impl MediaPlaylistView {
    /// The playlist is declared video-on-demand.
    pub open spec fn is_vod(self) -> bool {
        self.playlist_type == Some(PlaylistType::Vod)
    }
}

impl DeepView for MediaPlaylist {
    type V = MediaPlaylistView;

    open spec fn deep_view(&self) -> MediaPlaylistView {
        MediaPlaylistView {
            playlist_type: self.playlist_type,
            has_end_list: self.has_end_list,
            segments: self.segments.deep_view(),
        }
    }
}

/// The playlist is a finished one whose first segment names a media
/// initialisation section.
pub open spec fn is_fragmented_vod(playlist: MediaPlaylistView) -> bool {
    &&& playlist.has_end_list
    &&& playlist.segments.len() > 0
    &&& playlist.segments[0].map_uri matches Some(uri) && uri.len() > 0
}

/// Whether the playlist is a finished playlist of fragmented MP4.
pub fn is_fragmented_mp4_vod_media_playlist(playlist: &MediaPlaylist) -> (b: bool)
    ensures
        b == is_fragmented_vod(playlist.deep_view()),
{
    if !playlist.has_end_list || playlist.segments.len() == 0 {
        return false;
    }
    assert(playlist.deep_view().segments[0] == playlist.segments@[0].deep_view());
    match &playlist.segments[0].map_uri {
        Some(uri) => uri.as_str().unicode_len() > 0,
        None => false,
    }
}

/// The segment with its date-time tag replaced.
pub open spec fn with_program_date_time(
    seg: MediaSegmentView,
    text: Option<Seq<char>>,
) -> MediaSegmentView {
    MediaSegmentView { program_date_time: text, ..seg }
}

/// The segment with its cue replaced.
pub open spec fn with_date_range(
    seg: MediaSegmentView,
    cue: Option<DateRangeView>,
) -> MediaSegmentView {
    MediaSegmentView { date_range: cue, ..seg }
}

pub(crate) fn set_program_date_time(segments: &mut Vec<MediaSegment>, k: usize, text: String)
    requires
        k < old(segments).len(),
    ensures
        final(segments).deep_view() == old(segments).deep_view().update(
            k as int,
            with_program_date_time(old(segments).deep_view()[k as int], Some(text@)),
        ),
{
    segments[k].program_date_time = Some(text);
    assert(segments.deep_view() =~= old(segments).deep_view().update(
        k as int,
        with_program_date_time(old(segments).deep_view()[k as int], Some(text@)),
    ));
}

pub(crate) fn set_date_range(segments: &mut Vec<MediaSegment>, k: usize, cue: DateRange)
    requires
        k < old(segments).len(),
    ensures
        final(segments).deep_view() == old(segments).deep_view().update(
            k as int,
            with_date_range(old(segments).deep_view()[k as int], Some(cue.deep_view())),
        ),
{
    segments[k].date_range = Some(cue);
    assert(segments.deep_view() =~= old(segments).deep_view().update(
        k as int,
        with_date_range(old(segments).deep_view()[k as int], Some(cue.deep_view())),
    ));
}

} // verus!
