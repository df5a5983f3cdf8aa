use hls_interstitials::commands::{handle_commands, InsertionCommand};
use hls_interstitials::config::{InsertionMode, ServerConfig};
use hls_interstitials::dispatch::{
    base_url, build_forward_url, get_request_type, replace_absolute_url_with_relative_url, route,
    RequestType, Route,
};
use hls_interstitials::error::{ProxyError, Rejection};
use hls_interstitials::planner::insert_interstitials;
use hls_interstitials::playlist::{MediaPlaylist, MediaSegment};
use hls_interstitials::slots::AvailableAdSlots;

const T0: i64 = 1_704_067_200_000;

fn config(mode: InsertionMode) -> ServerConfig {
    ServerConfig::new(
        "http://origin.example/".to_string(),
        "http://localhost:8080".to_string(),
        "/live/master.m3u8".to_string(),
        mode,
        13,
        30,
        1000,
        false,
    )
}

#[test]
fn commands_are_read_from_the_query() {
    assert_eq!(
        InsertionCommand::from_query("in=20&dur=15&pod=3"),
        Ok(InsertionCommand { in_sec: 20, duration: 15, pod_num: 3 })
    );
    assert_eq!(
        InsertionCommand::from_query("pod=3&x=y&dur=15&in=20&in=21"),
        Ok(InsertionCommand { in_sec: 21, duration: 15, pod_num: 3 })
    );
    let missing = Err("Missing required query parameters".to_string());
    assert_eq!(InsertionCommand::from_query(""), missing);
    assert_eq!(InsertionCommand::from_query("in=20&dur=15"), missing);
    assert_eq!(InsertionCommand::from_query("in=20&dur=15&pod=three"), missing);
    assert_eq!(InsertionCommand::from_query("in=20&dur=15&pod=3&pod=x"), missing);
    assert_eq!(InsertionCommand::from_query("in=-1&dur=15&pod=3"), missing);
    assert_eq!(
        InsertionCommand::from_query("in=%32%30&dur=%2B15&pod=3"),
        Ok(InsertionCommand { in_sec: 20, duration: 15, pod_num: 3 })
    );
}

#[test]
fn command_injection() {
    let mut slots = AvailableAdSlots::new();
    let config = config(InsertionMode::Dynamic);
    let done = handle_commands("in=20&dur=15&pod=3", &config, &mut slots, T0).unwrap();
    assert_eq!(done.command, InsertionCommand { in_sec: 20, duration: 15, pod_num: 3 });
    assert_eq!(done.slot.index, 0);
    assert_eq!(done.slot.start_time, T0 + 20_000);
    assert_eq!(done.slot.duration, 15);
    assert_eq!(done.slot.pod_num, 3);
    assert_eq!(slots.snapshot(), vec![done.slot]);

    let mut segments = Vec::new();
    for k in 0..10 {
        segments.push(MediaSegment {
            duration_ms: 6000,
            program_date_time: if k == 0 {
                Some("2024-01-01T00:00:00.000Z".to_string())
            } else {
                None
            },
            has_discontinuity: false,
            map_uri: None,
            date_range: None,
        });
    }
    let mut m3u8 = MediaPlaylist { playlist_type: None, has_end_list: false, segments };
    insert_interstitials(&mut m3u8, &config, &mut slots, T0 - 1_000_000);
    let cues: Vec<_> = m3u8.segments.iter().filter_map(|s| s.date_range.clone()).collect();
    assert_eq!(cues.len(), 1);
    assert_eq!(cues[0].duration, 15);
    assert_eq!(cues[0].id, "ad_slot0");
    assert_eq!(cues[0].resume_offset, None);
    assert!(m3u8.segments[3].date_range.is_some());
    assert_eq!(slots.len(), 1);
}

#[test]
fn injected_slots_are_numbered_by_cardinality() {
    let mut slots = AvailableAdSlots::new();
    let config = config(InsertionMode::Dynamic);
    for expected in 0..4u64 {
        let done = handle_commands("in=1&dur=2&pod=3", &config, &mut slots, T0).unwrap();
        assert_eq!(done.slot.index, expected);
    }
    assert_eq!(slots.len(), 4);
    let far = handle_commands("in=18446744073709551615&dur=2&pod=3", &config, &mut slots, T0);
    assert_eq!(far.unwrap().slot.start_time, i64::MAX);
}

#[test]
fn commands_are_rejected() {
    let mut slots = AvailableAdSlots::new();
    assert_eq!(
        handle_commands("in=20&dur=15&pod=3", &config(InsertionMode::Static), &mut slots, T0),
        Err(ProxyError::BadRequest(Rejection::StaticMode))
    );
    assert_eq!(
        handle_commands("in=20&dur=15", &config(InsertionMode::Dynamic), &mut slots, T0),
        Err(ProxyError::BadRequest(Rejection::MissingParameters))
    );
    assert!(slots.is_empty());
    assert_eq!(ProxyError::BadRequest(Rejection::StaticMode).status_code(), 400);
    assert_eq!(
        ProxyError::BadRequest(Rejection::StaticMode).message(),
        "Ad insertion is not supported in static mode."
    );
    assert_eq!(
        ProxyError::BadRequest(Rejection::MissingParameters).message(),
        "Missing required query parameters"
    );
}

#[test]
fn requests_are_told_apart() {
    let config = config(InsertionMode::Static);
    assert_eq!(get_request_type("/live/master.m3u8", &config), RequestType::MasterPlayList);
    assert_eq!(get_request_type("/x/live/master.m3u8.ts", &config), RequestType::MasterPlayList);
    assert_eq!(get_request_type("/live/video/1.m3u8", &config), RequestType::MediaPlayList);
    assert_eq!(get_request_type("/live/video/1/seg.ts", &config), RequestType::Segment);
    assert_eq!(get_request_type("/live/video/1/seg.mp4", &config), RequestType::Segment);
    assert_eq!(get_request_type("/live/a.mp/1.m3u8", &config), RequestType::Segment);
    assert_eq!(get_request_type("/live/video/1/seg", &config), RequestType::Other);
    assert_eq!(route("/command", &config), Route::Command);
    assert_eq!(route("/command/", &config), Route::Stream(RequestType::Other));
    assert_eq!(route("/status", &config), Route::Status);
    assert_eq!(route("/interstitials.m3u8", &config), Route::Interstitials);
    assert_eq!(route("/live/master.m3u8", &config), Route::Stream(RequestType::MasterPlayList));
    assert_eq!(route("/live/1.m3u8", &config), Route::Stream(RequestType::MediaPlayList));
}

#[test]
fn variant_uris_become_relative() {
    let mut uris = vec![
        "video/1.m3u8".to_string(),
        "http://origin.example/live/video/2.m3u8".to_string(),
        "https://origin.example/live/video/3.m3u8?token=abc".to_string(),
        "http://".to_string(),
        "httpx".to_string(),
    ];
    replace_absolute_url_with_relative_url(&mut uris);
    assert_eq!(
        uris,
        vec![
            "video/1.m3u8".to_string(),
            "/live/video/2.m3u8".to_string(),
            "/live/video/3.m3u8?token=abc".to_string(),
            "http://".to_string(),
            "httpx".to_string(),
        ]
    );
}

#[test]
fn forward_urls() {
    assert_eq!(
        base_url("http://origin.example:8000/live/master.m3u8?x=1"),
        Ok("http://origin.example:8000/".to_string())
    );
    assert_eq!(base_url("mailto:someone@example.com"), Err(ProxyError::ParseFailure));
    assert_eq!(base_url("nothing"), Err(ProxyError::ParseFailure));
    assert_eq!(
        build_forward_url("/live/1.m3u8", Some("a=b"), "http://origin.example:8000/"),
        Ok("http://origin.example:8000/live/1.m3u8?a=b".to_string())
    );
    assert_eq!(
        build_forward_url("/live/1.m3u8", None, "http://origin.example:8000/x?y=z"),
        Ok("http://origin.example:8000/live/1.m3u8".to_string())
    );
    assert_eq!(build_forward_url("/live", None, "nothing"), Err(ProxyError::ParseFailure));
}
