use hls_interstitials::config::{
    interstitials_base, parse_default_values, parse_into_u64, schedule_overlaps, CliArguments,
    InsertionMode, ServerConfig,
};
use hls_interstitials::text::{
    chars_of, parse_u64, str_contains, str_ends_with, str_eq, str_starts_with, u64_to_decimal,
};
use hls_interstitials::vast::{is_media_segment, is_transcoded_media_segment};

#[test]
fn characters_come_out_in_order() {
    assert_eq!(chars_of("aé€"), vec!['a', 'é', '€']);
    assert_eq!(chars_of(""), Vec::<char>::new());
}

#[test]
fn substring_search() {
    assert!(str_contains("/a/b/seg1.ts", ".ts"));
    assert!(str_contains("abc", ""));
    assert!(str_contains("", ""));
    assert!(!str_contains("", "a"));
    assert!(!str_contains("ab", "abc"));
    assert!(str_contains("xxabc", "abc"));
    assert!(!str_contains("xxabd", "abc"));
    assert!(str_contains("aab", "ab"));
}

#[test]
fn prefix_suffix_and_equality() {
    assert!(str_starts_with("http://x", "http"));
    assert!(!str_starts_with("htt", "http"));
    assert!(!str_starts_with("xhttp", "http"));
    assert!(str_ends_with("/interstitials.m3u8", "interstitials.m3u8"));
    assert!(!str_ends_with("/interstitials.m3u8x", "interstitials.m3u8"));
    assert!(str_eq("abc", "abc"));
    assert!(!str_eq("abc", "abd"));
    assert!(!str_eq("abc", "ab"));
}

#[test]
fn decimal_numbers_are_written() {
    assert_eq!(u64_to_decimal(0), "0");
    assert_eq!(u64_to_decimal(7), "7");
    assert_eq!(u64_to_decimal(10), "10");
    assert_eq!(u64_to_decimal(1234567890), "1234567890");
    assert_eq!(u64_to_decimal(u64::MAX), "18446744073709551615");
}

#[test]
fn decimal_numbers_are_read() {
    assert_eq!(parse_u64("0"), Some(0));
    assert_eq!(parse_u64("007"), Some(7));
    assert_eq!(parse_u64("+15"), Some(15));
    assert_eq!(parse_u64("18446744073709551615"), Some(u64::MAX));
    assert_eq!(parse_u64("18446744073709551616"), None);
    assert_eq!(parse_u64("99999999999999999999999"), None);
    assert_eq!(parse_u64(""), None);
    assert_eq!(parse_u64("+"), None);
    assert_eq!(parse_u64("-1"), None);
    assert_eq!(parse_u64("1 "), None);
    assert_eq!(parse_u64("12a"), None);
    assert_eq!(parse_u64("++1"), None);
    assert_eq!(parse_u64("٣"), None);
}

#[test]
fn reading_agrees_with_the_standard_library() {
    for text in ["0", "42", "+42", "", "+", "-0", "1e3", "18446744073709551615", "18446744073709551616", " 1"] {
        assert_eq!(parse_u64(text), text.parse::<u64>().ok());
    }
}

#[test]
fn written_numbers_read_back() {
    for n in [0u64, 1, 9, 10, 99, 100, 65535, u64::MAX] {
        assert_eq!(parse_u64(&u64_to_decimal(n)), Some(n));
        assert_eq!(u64_to_decimal(n), n.to_string());
    }
}

#[test]
fn media_segment_extensions() {
    assert!(is_media_segment("/v/seg.ts"));
    assert!(is_media_segment("/v/seg.cmfv"));
    assert!(is_media_segment("/v/ad.mp4"));
    assert!(is_media_segment("/v/seg.m4s"));
    assert!(!is_media_segment("/v/playlist.m3u8"));
    assert!(!is_media_segment("/v/seg"));
    assert!(is_transcoded_media_segment("https://cdn/x/index.m3u8?a=b"));
    assert!(!is_transcoded_media_segment("https://cdn/x/index.mp4"));
}

#[test]
fn insertion_mode_names() {
    assert_eq!(InsertionMode::Static.to_str(), "static");
    assert_eq!(InsertionMode::Dynamic.to_str(), "dynamic");
}

fn arguments(duration: &str, cycle: &str, number: &str, address: &str) -> CliArguments {
    CliArguments {
        listen_addr: "127.0.0.1".to_string(),
        listen_port: 8080,
        master_playlist_url: "http://origin/master.m3u8".to_string(),
        ad_server_endpoint: "http://ads/vast".to_string(),
        ad_insertion_mode: InsertionMode::Static,
        interstitials_address: address.to_string(),
        default_ad_duration: duration.to_string(),
        default_repeating_cycle: cycle.to_string(),
        default_ad_number: number.to_string(),
        return_test_assets: false,
    }
}

#[test]
fn defaults_apply_where_nothing_is_given() {
    assert_eq!(parse_default_values(&arguments("", "", "", "")), (13, 30, 1000));
    assert_eq!(parse_default_values(&arguments("10", "x", "5", "")), (10, 30, 5));
    assert_eq!(parse_into_u64("12", 3), 12);
    assert_eq!(parse_into_u64("twelve", 3), 3);
}

#[test]
fn public_base_defaults_to_localhost() {
    assert_eq!(interstitials_base(&arguments("", "", "", "")), "http://localhost:8080");
    assert_eq!(
        interstitials_base(&arguments("", "", "", "https://proxy.example")),
        "https://proxy.example"
    );
}

#[test]
fn overlap_warning() {
    assert!(schedule_overlaps(InsertionMode::Static, 31, 30));
    assert!(!schedule_overlaps(InsertionMode::Static, 30, 30));
    assert!(!schedule_overlaps(InsertionMode::Dynamic, 31, 30));
}

#[test]
fn configuration_keeps_its_fields() {
    let config = ServerConfig::new(
        "http://origin/".to_string(),
        "http://localhost:8080".to_string(),
        "/master.m3u8".to_string(),
        InsertionMode::Dynamic,
        13,
        30,
        1000,
        true,
    );
    assert_eq!(config.forward_url, "http://origin/");
    assert_eq!(config.interstitials_address, "http://localhost:8080");
    assert_eq!(config.master_playlist_path, "/master.m3u8");
    assert_eq!(config.insertion_mode, InsertionMode::Dynamic);
    assert_eq!(config.default_ad_duration, 13);
    assert_eq!(config.default_repeating_cycle, 30);
    assert_eq!(config.default_ad_number, 1000);
    assert!(config.return_test_assets);
}
