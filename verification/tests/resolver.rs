use hls_interstitials::ad_server::{build_ad_server_url, fill_templates, substitute};
use hls_interstitials::ids::uuid_string;
use hls_interstitials::ads::{Ad, AvailableAds};
use hls_interstitials::assets::{ad_from_creative, make_new_ad_from_creative, wrap_into_assets};
use hls_interstitials::config::{InsertionMode, ServerConfig};
use hls_interstitials::error::{check_upstream_status, Missing, ProxyError};
use hls_interstitials::interstitials::{
    get_query_param, handle_raw_asset_request, make_test_assets, read_interstitial_request,
    resolve_asset_list, InterstitialRequest,
};
use hls_interstitials::sessions::UserDefinedQueryParams;
use hls_interstitials::slots::{AdSlot, AvailableAdSlots};
use hls_interstitials::vast::{
    filter_creatives_by, get_all_creatives_from_vast, get_all_raw_creatives_from_vast,
    get_all_transcoded_creatives_from_vast,
    get_duration_and_media_urls_and_tracking_events_from_linear, get_duration_from_linear,
    get_media_urls_from_linear, get_skip_offset_from_linear, get_tracking_events_from_linear,
    get_universal_ad_ids_from_creative, get_video_clicks_from_linear, is_raw_media_url,
    is_transcoded_media_url, media_path, Creative, InLine, Linear,
    Tracking, TrackingEvent, UniversalAdId, Vast, VastAd, VideoClicks,
};

const SESSION: &str = "550e8400-e29b-41d4-a716-446655440000";
const SESSION_VALUE: u128 = 0x550e8400_e29b_41d4_a716_446655440000;

fn linear(duration: Option<u64>, urls: Option<Vec<&str>>) -> Linear {
    Linear {
        skipoffset: None,
        duration,
        media_files: urls.map(|u| u.into_iter().map(|s| s.to_string()).collect()),
        tracking_events: Some(vec![TrackingEvent {
            event: "start".to_string(),
            offset: None,
            uri: "http://track/start".to_string(),
        }]),
        video_clicks: None,
    }
}

fn creative(ad_id: Option<&str>, duration_ms: u64, url: &str) -> Creative {
    Creative {
        ad_id: ad_id.map(|s| s.to_string()),
        universal_ad_id: vec![UniversalAdId {
            scheme: "ad-id.org".to_string(),
            value: format!("id-{}", duration_ms),
        }],
        linear: Some(linear(Some(duration_ms), Some(vec![url]))),
    }
}

fn vast(creatives: Vec<Creative>) -> Vast {
    Vast { ads: vec![VastAd { in_line: Some(InLine { creatives }) }] }
}

fn mixed() -> Vast {
    vast(vec![
        creative(Some("a"), 8000, "https://cdn.example/ads/one.mp4"),
        creative(Some("b"), 10000, "https://cdn.example/ads/two/index.m3u8"),
        creative(Some("c"), 6000, "https://cdn.example/ads/three.mp4"),
    ])
}

fn slot(index: u64, duration: u64, pod_num: u64) -> AdSlot {
    AdSlot { id: 77, index, start_time: 1000, duration, pod_num }
}

fn pair(k: &str, v: &str) -> (String, String) {
    (k.to_string(), v.to_string())
}

#[test]
fn creatives_are_collected_in_document_order() {
    let doc = Vast {
        ads: vec![
            VastAd { in_line: Some(InLine { creatives: vec![creative(Some("a"), 1, "x.mp4")] }) },
            VastAd { in_line: None },
            VastAd {
                in_line: Some(InLine {
                    creatives: vec![creative(Some("b"), 2, "y.mp4"), creative(None, 3, "z.mp4")],
                }),
            },
        ],
    };
    let all = get_all_creatives_from_vast(&doc);
    let durations: Vec<u64> =
        all.iter().map(|c| c.linear.as_ref().unwrap().duration.unwrap()).collect();
    assert_eq!(durations, vec![1, 2, 3]);
    assert!(get_all_creatives_from_vast(&Vast { ads: Vec::new() }).is_empty());
}

#[test]
fn projection_filters_by_media_shape() {
    let doc = vast(vec![
        creative(Some("a"), 1, "https://cdn/one.mp4"),
        creative(Some("b"), 2, "https://cdn/two.m3u8"),
        creative(Some("c"), 3, "https://cdn/bumper_2023_P8_mp4"),
        creative(None, 4, "https://cdn/four.mp4"),
        Creative { ad_id: Some("e".to_string()), universal_ad_id: Vec::new(), linear: None },
        Creative {
            ad_id: Some("f".to_string()),
            universal_ad_id: Vec::new(),
            linear: Some(linear(Some(6), Some(Vec::new()))),
        },
        Creative {
            ad_id: Some("g".to_string()),
            universal_ad_id: Vec::new(),
            linear: Some(linear(Some(7), None)),
        },
        creative(Some("h"), 8, "https://cdn/seg.ts"),
        creative(Some("i"), 9, "https://cdn/frag.m4s"),
        creative(Some("j"), 10, "https://cdn/chunk.cmfv"),
        creative(Some("k"), 11, "https://cdn/both.mp4/index.m3u8"),
        creative(Some("l"), 12, "https://cdn.mp.example/ad?file=a.ts&list=b.m3u8"),
        creative(Some("m"), 13, "ads/relative.mp4"),
        creative(Some("n"), 14, "https://cdn/ad.mp4?sig=abc"),
    ]);
    let raw: Vec<u64> = get_all_raw_creatives_from_vast(&doc)
        .iter()
        .map(|c| get_duration_from_linear(c.linear.as_ref().unwrap()))
        .collect();
    assert_eq!(raw, vec![1, 8, 9, 10, 11, 13, 14]);
    let transcoded: Vec<u64> = get_all_transcoded_creatives_from_vast(&doc)
        .iter()
        .map(|c| get_duration_from_linear(c.linear.as_ref().unwrap()))
        .collect();
    assert_eq!(transcoded, vec![2, 11]);
    for c in get_all_raw_creatives_from_vast(&doc) {
        let path = media_path(&get_media_urls_from_linear(c.linear.as_ref().unwrap())[0]);
        assert!([".ts", ".cmf", ".mp", ".m4s"].iter().any(|t| path.contains(t)));
    }
    for c in get_all_transcoded_creatives_from_vast(&doc) {
        let path = media_path(&get_media_urls_from_linear(c.linear.as_ref().unwrap())[0]);
        assert!(path.contains(".m3u8"));
    }
    assert_eq!(media_path("https://cdn.mp.example/ad?file=a.ts"), "/ad");
    assert_eq!(media_path("ads/relative.mp4"), "ads/relative.mp4");
    assert!(is_raw_media_url("https://cdn/ad.mp4?sig=abc"));
    assert!(!is_raw_media_url("https://cdn.mp.example/ad"));
    assert!(is_transcoded_media_url("https://cdn/x/index.m3u8?a=b"));
    assert!(!is_transcoded_media_url("https://cdn/x?list=index.m3u8"));
}

#[test]
fn filter_keeps_what_the_test_accepts() {
    let doc = mixed();
    let kept = filter_creatives_by(get_all_creatives_from_vast(&doc), |url: &str| {
        url.ends_with("three.mp4")
    });
    assert_eq!(kept.len(), 1);
    assert_eq!(kept[0].ad_id, Some("c".to_string()));
    let none = filter_creatives_by(get_all_creatives_from_vast(&doc), |_: &str| false);
    assert!(none.is_empty());
}

#[test]
fn linear_projections() {
    let mut l = linear(None, None);
    assert_eq!(get_duration_from_linear(&l), 0);
    assert_eq!(get_skip_offset_from_linear(&l), None);
    assert_eq!(get_media_urls_from_linear(&l), Vec::<String>::new());
    assert_eq!(get_video_clicks_from_linear(&l), None);
    l.duration = Some(15_500);
    l.skipoffset = Some(5_000);
    l.media_files = Some(vec!["a.mp4".to_string(), "b.mp4".to_string()]);
    l.tracking_events = Some(vec![
        TrackingEvent {
            event: "progress".to_string(),
            offset: Some("00:00:05".to_string()),
            uri: "http://t/p".to_string(),
        },
        TrackingEvent { event: "complete".to_string(), offset: None, uri: "http://t/c".to_string() },
    ]);
    l.video_clicks = Some(VideoClicks {
        click_trackings: vec!["http://c/1".to_string()],
        click_through: Some("http://landing".to_string()),
    });
    let expected_tracking = vec![
        Tracking {
            event: "progress".to_string(),
            offset: Some("00:00:05".to_string()),
            urls: vec!["http://t/p".to_string()],
        },
        Tracking { event: "complete".to_string(), offset: None, urls: vec!["http://t/c".to_string()] },
    ];
    assert_eq!(get_duration_from_linear(&l), 15_500);
    assert_eq!(get_skip_offset_from_linear(&l), Some(5_000));
    assert_eq!(get_media_urls_from_linear(&l), vec!["a.mp4".to_string(), "b.mp4".to_string()]);
    assert_eq!(get_tracking_events_from_linear(&l), expected_tracking);
    assert_eq!(get_video_clicks_from_linear(&l), l.video_clicks.clone());
    assert_eq!(
        get_duration_and_media_urls_and_tracking_events_from_linear(&l),
        (15_500, vec!["a.mp4".to_string(), "b.mp4".to_string()], expected_tracking)
    );
    l.tracking_events = None;
    assert_eq!(get_tracking_events_from_linear(&l), Vec::new());
    let c = creative(Some("a"), 1, "x.mp4");
    assert_eq!(get_universal_ad_ids_from_creative(&c), c.universal_ad_id);
}

#[test]
fn ad_is_resolved_from_a_creative() {
    let c = creative(Some("a"), 8000, "https://cdn.example/ads/one.mp4");
    let ad = ad_from_creative(&c, 42, 99);
    assert_eq!(
        ad,
        Ad {
            ad_id: 42,
            universal_ad_ids: c.universal_ad_id.clone(),
            duration: 8000,
            url: "https://cdn.example/ads/one.mp4".to_string(),
            requested_at: 99,
            tracking: vec![Tracking {
                event: "start".to_string(),
                offset: None,
                urls: vec!["http://track/start".to_string()],
            }],
        }
    );
    let first = make_new_ad_from_creative(&c, 99);
    let second = make_new_ad_from_creative(&c, 99);
    assert_ne!(first.ad_id, second.ad_id);
    assert_eq!(first.url, ad.url);
    assert_eq!(first.requested_at, 99);
}

#[test]
fn asset_list_with_mixed_creatives() {
    let mut ads = AvailableAds::new();
    let req = "http://localhost:8080/interstitials.m3u8?_HLS_interstitial_id=ad_slot1&_HLS_primary_id=u";
    let list = wrap_into_assets(&mixed(), req, "ad_slot1", "u", &mut ads, 5).unwrap();
    assert_eq!(list.assets.len(), 3);
    assert_eq!(list.duration, 24_000);
    let starts: Vec<u64> = list.assets.iter().map(|a| a.start).collect();
    assert_eq!(starts, vec![0, 8_000, 14_000]);
    let durations: Vec<u64> = list.assets.iter().map(|a| a.duration).collect();
    assert_eq!(durations, vec![8_000, 6_000, 10_000]);
    for asset in &list.assets[..2] {
        let id = asset.ad_id.unwrap();
        let text = uuid::Uuid::from_u128(id).to_string();
        assert_eq!(
            asset.uri,
            format!(
                "http://localhost:8080/interstitials.m3u8?_HLS_interstitial_id=ad_slot1&_HLS_primary_id=u&_ad_id={}",
                text
            )
        );
        let kept = ads.get(id).unwrap();
        assert_eq!(kept.ad_id, id);
        assert_eq!(kept.duration, asset.duration);
        assert_eq!(kept.requested_at, 5);
    }
    assert_eq!(list.assets[2].uri, "https://cdn.example/ads/two/index.m3u8");
    assert_eq!(list.assets[2].ad_id, None);
    assert_eq!(list.assets[0].identifiers[0].value, "id-8000");
    assert_eq!(list.assets[1].tracking[0].urls, vec!["http://track/start".to_string()]);
    assert_eq!(ads.entries().len(), 2);
}

#[test]
fn follow_up_resolution() {
    let mut ads = AvailableAds::new();
    let req = "http://localhost:8080/interstitials.m3u8";
    let list = wrap_into_assets(&mixed(), req, "ad_slot1", "u", &mut ads, 5).unwrap();
    let query = list.assets[0].uri.split('?').nth(1).unwrap().to_string();
    let request = read_interstitial_request(Some(&query));
    let ad_id = match request {
        InterstitialRequest::FollowUp { interstitial_id, user_id, ad_id } => {
            assert_eq!(interstitial_id, "ad_slot1");
            assert_eq!(user_id, "u");
            ad_id
        }
        InterstitialRequest::AssetList { .. } => panic!("a follow-up was expected"),
    };
    let text = handle_raw_asset_request("ad_slot1", &ad_id, "u", &ads).unwrap();
    assert!(text.starts_with("#EXTM3U\n"));
    assert!(text.contains("#EXT-X-TARGETDURATION:8\n"));
    assert!(text.contains("#EXTINF:8,\nhttps://cdn.example/ads/one.mp4\n"));
    assert!(text.contains("#EXT-X-ENDLIST"));
    assert_eq!(text.matches("#EXTINF").count(), 1);
    assert_eq!(
        handle_raw_asset_request("ad_slot1", SESSION, "u", &ads),
        Err(ProxyError::NotFound(Missing::Ad))
    );
    assert_eq!(
        handle_raw_asset_request("ad_slot1", "no uuid", "u", &ads),
        Err(ProxyError::NotFound(Missing::Ad))
    );
    assert_eq!(ads.entries().len(), 2);
}

#[test]
fn follow_up_with_an_unreadable_id_finds_nothing() {
    let mut ads = AvailableAds::new();
    let ad = ad_from_creative(&creative(Some("a"), 8000, "https://cdn.example/one.mp4"), 0, 99);
    ads.insert(0, ad);
    assert_eq!(
        handle_raw_asset_request("ad_slot1", "no uuid", "u", &ads),
        Err(ProxyError::NotFound(Missing::Ad))
    );
    assert_eq!(
        handle_raw_asset_request("ad_slot1", "", "u", &ads),
        Err(ProxyError::NotFound(Missing::Ad))
    );
    let text = handle_raw_asset_request(
        "ad_slot1",
        "00000000-0000-0000-0000-000000000000",
        "u",
        &ads,
    )
    .unwrap();
    assert!(text.contains("https://cdn.example/one.mp4"));
    assert!(!text.contains("#EXT-X-MEDIA-SEQUENCE"));
    assert!(text.trim_end().ends_with("#EXT-X-ENDLIST"));
}

#[test]
fn upstream_status_is_judged() {
    assert_eq!(check_upstream_status(200), Ok(()));
    assert_eq!(check_upstream_status(204), Ok(()));
    assert_eq!(check_upstream_status(299), Ok(()));
    assert_eq!(check_upstream_status(199), Err(ProxyError::UpstreamTransport));
    assert_eq!(check_upstream_status(300), Err(ProxyError::UpstreamTransport));
    assert_eq!(check_upstream_status(404), Err(ProxyError::UpstreamTransport));
    assert_eq!(check_upstream_status(500), Err(ProxyError::UpstreamTransport));
    assert_eq!(ProxyError::UpstreamTransport.message(), "Upstream transport error");
}

#[test]
fn follow_up_target_duration_is_rounded_up() {
    let mut ads = AvailableAds::new();
    let doc = vast(vec![creative(Some("a"), 8_600, "https://cdn.example/ads/one.mp4")]);
    let list = wrap_into_assets(&doc, "http://p/interstitials.m3u8", "s", "u", &mut ads, 5).unwrap();
    let id = uuid::Uuid::from_u128(list.assets[0].ad_id.unwrap()).to_string();
    let text = handle_raw_asset_request("s", &id, "u", &ads).unwrap();
    assert!(text.contains("#EXT-X-TARGETDURATION:9\n"));
    assert!(text.contains("#EXTINF:8.6,\n"));
}

#[test]
fn asset_list_needs_a_request_url() {
    let mut ads = AvailableAds::new();
    assert_eq!(
        wrap_into_assets(&mixed(), "not a url", "ad_slot1", "u", &mut ads, 5),
        Err(ProxyError::ParseFailure)
    );
    assert!(ads.entries().is_empty());
}

#[test]
fn empty_document_gives_an_empty_pod() {
    let mut ads = AvailableAds::new();
    let list =
        wrap_into_assets(&Vast { ads: Vec::new() }, "http://p/x", "s", "u", &mut ads, 5).unwrap();
    assert!(list.assets.is_empty());
    assert_eq!(list.duration, 0);
}

#[test]
fn test_assets_are_canned() {
    let list = make_test_assets();
    assert_eq!(list.duration, 13_000);
    assert_eq!(list.assets.len(), 1);
    let asset = &list.assets[0];
    assert_eq!(asset.uri, "https://s3.amazonaws.com/qa.jwplayer.com/hlsjs/muxed-fmp4/hls.m3u8");
    assert_eq!(asset.duration, 13_000);
    assert_eq!(asset.start, 0);
    assert_eq!(asset.ad_id, None);
    assert_eq!(
        asset.identifiers,
        vec![UniversalAdId { scheme: "test-ad-id.eyevinn".to_string(), value: "0001".to_string() }]
    );
    let events: Vec<&str> = asset.tracking.iter().map(|t| t.event.as_str()).collect();
    assert_eq!(events, vec!["start", "firstQuartile", "midpoint", "thirdQuartile", "complete"]);
    assert!(asset.tracking[4].urls[0].ends_with("adId=alvedon-10s_1&progress=100"));
    assert!(asset.tracking.iter().all(|t| t.offset.is_none() && t.urls.len() == 1));
}

#[test]
fn test_assets_flag_short_circuits() {
    let mut ads = AvailableAds::new();
    let mut config = ServerConfig::new(
        "http://o/".to_string(),
        "http://p".to_string(),
        "/master.m3u8".to_string(),
        InsertionMode::Static,
        13,
        30,
        1000,
        true,
    );
    let list = resolve_asset_list(&config, &mixed(), "http://p/x", "s", "u", &mut ads, 5).unwrap();
    assert_eq!(list, make_test_assets());
    assert!(ads.entries().is_empty());
    config.return_test_assets = false;
    let list = resolve_asset_list(&config, &mixed(), "http://p/x", "s", "u", &mut ads, 5).unwrap();
    assert_eq!(list.assets.len(), 3);
    assert_eq!(ads.entries().len(), 2);
}

#[test]
fn templates_are_filled_in() {
    assert_eq!(substitute("[template.sessionId]", "abc", 15, 3), "abc");
    assert_eq!(substitute("[template.duration]", "abc", 15, 3), "15");
    assert_eq!(substitute("[template.pod]", "abc", 15, 3), "3");
    assert_eq!(substitute("[template.other]", "abc", 15, 3), "[template.other]");
    assert_eq!(substitute("x[template.pod]", "abc", 15, 3), "x[template.pod]");
    assert_eq!(substitute("", "abc", 15, 3), "");
    let pairs = vec![
        pair("dur", "[template.duration]"),
        pair("uid", "[template.sessionId]"),
        pair("keep", "me"),
        pair("pp", "[template.pod]"),
        pair("uid", "[template.sessionId]"),
    ];
    assert_eq!(
        fill_templates(&pairs, "u-1", 20, 4),
        vec![pair("dur", "20"), pair("uid", "u-1"), pair("keep", "me"), pair("pp", "4"), pair("uid", "u-1")]
    );
    assert_eq!(fill_templates(&Vec::new(), "u-1", 20, 4), Vec::new());
}

#[test]
fn values_with_reserved_characters_are_preserved() {
    let mut slots = AvailableAdSlots::new();
    slots.insert(slot(3, 15, 2));
    let mut sidecar = UserDefinedQueryParams::new();
    let url = "http://ads.example/vast?x=a%26b&y=c%2Bd&z=%2541&e=f%3Dg&uid=[template.sessionId]&s=h+i";
    let emitted = build_ad_server_url(url, "ad_slot3", "k&l=m", &slots, &sidecar).unwrap();
    assert_eq!(
        emitted,
        "http://ads.example/vast?x=a%26b&y=c%2Bd&z=%2541&e=f%3Dg&uid=k%26l%3Dm&s=h+i"
    );
    let read: Vec<(String, String)> = url::Url::parse(&emitted)
        .unwrap()
        .query_pairs()
        .map(|(k, v)| (k.into_owned(), v.into_owned()))
        .collect();
    assert_eq!(
        read,
        vec![
            pair("x", "a&b"),
            pair("y", "c+d"),
            pair("z", "%41"),
            pair("e", "f=g"),
            pair("uid", "k&l=m"),
            pair("s", "h i"),
        ]
    );
    sidecar.remember(Some(SESSION), Some("own=1%262&raw"));
    assert_eq!(
        build_ad_server_url("http://ads.example/vast?x=a%26b", "ad_slot3", SESSION, &slots, &sidecar),
        Ok("http://ads.example/vast?x=a%26b&own=1%262&raw".to_string())
    );
}

#[test]
fn identifiers_are_written_as_uuid_text() {
    assert_eq!(uuid_string(SESSION_VALUE), SESSION);
    assert_eq!(uuid_string(0), "00000000-0000-0000-0000-000000000000");
}

#[test]
fn ad_server_url_is_composed() {
    let mut slots = AvailableAdSlots::new();
    slots.insert(slot(3, 15, 2));
    let mut sidecar = UserDefinedQueryParams::new();
    let url = "https://ads.example/api/v1/vast?dur=[template.duration]&uid=[template.sessionId]&pp=[template.pod]&v=4";
    assert_eq!(
        build_ad_server_url(url, "ad_slot3", SESSION, &slots, &sidecar),
        Ok(format!("https://ads.example/api/v1/vast?dur=15&uid={}&pp=2&v=4", SESSION))
    );
    sidecar.remember(Some(SESSION), Some("consent=yes&lang=sv"));
    assert_eq!(
        build_ad_server_url(url, "ad_slot3", SESSION, &slots, &sidecar),
        Ok(format!(
            "https://ads.example/api/v1/vast?dur=15&uid={}&pp=2&v=4&consent=yes&lang=sv",
            SESSION
        ))
    );
    assert_eq!(
        build_ad_server_url(url, "ad_slot3", "someone", &slots, &sidecar),
        Ok("https://ads.example/api/v1/vast?dur=15&uid=someone&pp=2&v=4".to_string())
    );
    assert_eq!(
        build_ad_server_url("https://ads.example/vast", "ad_slot3", SESSION, &slots, &sidecar),
        Ok("https://ads.example/vast?&consent=yes&lang=sv".to_string())
    );
}

#[test]
fn ad_server_url_fails_without_slot_or_url() {
    let mut slots = AvailableAdSlots::new();
    let sidecar = UserDefinedQueryParams::new();
    assert_eq!(
        build_ad_server_url("https://ads.example/vast", "ad_slot3", "u", &slots, &sidecar),
        Err(ProxyError::NotFound(Missing::AdSlot))
    );
    assert_eq!(
        build_ad_server_url("no url", "ad_slot3", "u", &slots, &sidecar),
        Err(ProxyError::NotFound(Missing::AdSlot))
    );
    slots.insert(slot(3, 15, 2));
    assert_eq!(
        build_ad_server_url("no url", "ad_slot3", "u", &slots, &sidecar),
        Err(ProxyError::ParseFailure)
    );
}

#[test]
fn sidecar_remembers_sessions() {
    let mut sidecar = UserDefinedQueryParams::new();
    assert_eq!(sidecar.recall(SESSION), None);
    sidecar.remember(Some(SESSION), None);
    sidecar.remember(None, Some("a=b"));
    sidecar.remember(Some(SESSION), Some(""));
    assert!(sidecar.entries().is_empty());
    sidecar.remember(Some(SESSION), Some("a=b"));
    assert_eq!(sidecar.recall(SESSION), Some("a=b".to_string()));
    assert_eq!(sidecar.recall(&SESSION.to_uppercase()), Some("a=b".to_string()));
    assert_eq!(sidecar.get(SESSION_VALUE), Some("a=b".to_string()));
    assert_eq!(sidecar.entries(), vec![(SESSION_VALUE, "a=b".to_string())]);
    sidecar.remember(Some(SESSION), Some("c=d"));
    assert_eq!(sidecar.recall(SESSION), Some("c=d".to_string()));
    assert_eq!(sidecar.recall("not a uuid"), None);
    sidecar.remember(Some("not a uuid"), Some("e=f"));
    assert_eq!(sidecar.get(0), Some("e=f".to_string()));
    assert_eq!(sidecar.recall("not a uuid"), None);
    assert_eq!(sidecar.entries().len(), 2);
    sidecar.insert(9, "g=h".to_string());
    assert_eq!(sidecar.get(9), Some("g=h".to_string()));
    assert_eq!(sidecar.get(10), None);
}

#[test]
fn ad_registry_keeps_ads() {
    let mut ads = AvailableAds::new();
    let ad = ad_from_creative(&creative(Some("a"), 8000, "x.mp4"), 42, 99);
    assert_eq!(ads.get(42), None);
    ads.insert(42, ad.clone());
    assert_eq!(ads.get(42), Some(ad.clone()));
    assert_eq!(ads.get(43), None);
    assert_eq!(ads.entries(), vec![(42, ad)]);
}

#[test]
fn query_parameters_are_looked_up() {
    assert_eq!(get_query_param(None, "a"), None);
    assert_eq!(get_query_param(Some(""), "a"), None);
    assert_eq!(get_query_param(Some("a=1&b=2&a=3"), "a"), Some("1".to_string()));
    assert_eq!(get_query_param(Some("a=1&b=2&a=3"), "b"), Some("2".to_string()));
    assert_eq!(get_query_param(Some("a=1&b=2&a=3"), "c"), None);
    assert_eq!(get_query_param(Some("a=x%20y+z"), "a"), Some("x y z".to_string()));
    assert_eq!(get_query_param(Some("a"), "a"), Some(String::new()));
}

#[test]
fn interstitial_requests_are_read() {
    assert_eq!(
        read_interstitial_request(None),
        InterstitialRequest::AssetList {
            interstitial_id: "default_ad".to_string(),
            user_id: "default_user".to_string(),
        }
    );
    assert_eq!(
        read_interstitial_request(Some("_HLS_interstitial_id=ad_slot4&_HLS_primary_id=u1")),
        InterstitialRequest::AssetList {
            interstitial_id: "ad_slot4".to_string(),
            user_id: "u1".to_string(),
        }
    );
    assert_eq!(
        read_interstitial_request(Some("_ad_id=xyz&_HLS_primary_id=u1")),
        InterstitialRequest::FollowUp {
            interstitial_id: "default_ad".to_string(),
            user_id: "u1".to_string(),
            ad_id: "xyz".to_string(),
        }
    );
}

#[test]
fn errors_report_status_and_text() {
    assert_eq!(ProxyError::NotFound(Missing::AdSlot).status_code(), 404);
    assert_eq!(ProxyError::NotFound(Missing::Ad).status_code(), 404);
    assert_eq!(ProxyError::ParseFailure.status_code(), 500);
    assert_eq!(ProxyError::UpstreamTransport.status_code(), 500);
    assert_eq!(ProxyError::Unsupported.status_code(), 500);
    assert_eq!(ProxyError::NotFound(Missing::AdSlot).message(), "Ad slot missing");
    assert_eq!(ProxyError::NotFound(Missing::Ad).message(), "Ad not found");
}
