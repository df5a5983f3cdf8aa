//! Server configuration.

use crate::text::{decimal, parse_u64, parsed_u64, u64_to_decimal};
use vstd::prelude::*;
use vstd::string::*;

verus! {

/// How ad breaks enter the schedule.
#[derive(Clone, Copy, Debug, PartialEq, Eq, Structural)]
pub enum InsertionMode {
    /// A repeating schedule laid out from the configuration.
    Static,
    /// Breaks are injected one at a time while the stream runs.
    Dynamic,
}

impl InsertionMode {
    /// The mode's name as it is written on the command line.
    pub open spec fn name(self) -> Seq<char> {
        match self {
            InsertionMode::Static => "static"@,
            InsertionMode::Dynamic => "dynamic"@,
        }
    }

    /// The mode's name as it is written on the command line.
    pub fn to_str(&self) -> (r: &'static str)
        ensures
            r@ == self.name(),
    {
        match self {
            InsertionMode::Static => "static",
            InsertionMode::Dynamic => "dynamic",
        }
    }
}

/// What the proxy is configured with.
#[derive(Clone, Debug, PartialEq, Eq)]
pub struct ServerConfig {
    /// Base URL of the origin.
    pub forward_url: String,
    /// Public base URL of this proxy, without a trailing slash.
    pub interstitials_address: String,
    /// The origin path that identifies the master playlist.
    pub master_playlist_path: String,
    /// How ad breaks enter the schedule.
    pub insertion_mode: InsertionMode,
    /// Duration of a scheduled break, in seconds.
    pub default_ad_duration: u64,
    /// Distance between scheduled breaks, in seconds.
    pub default_repeating_cycle: u64,
    /// The repeating schedule holds one break fewer than this.
    pub default_ad_number: u64,
    /// Answer every asset-list request with the canned test list.
    pub return_test_assets: bool,
}

impl ServerConfig {
    /// A configuration with the given fields.
    pub fn new(
        forward_url: String,
        interstitials_address: String,
        master_playlist_path: String,
        insertion_mode: InsertionMode,
        default_ad_duration: u64,
        default_repeating_cycle: u64,
        default_ad_number: u64,
        return_test_assets: bool,
    ) -> (r: Self)
        ensures
            r.forward_url == forward_url,
            r.interstitials_address == interstitials_address,
            r.master_playlist_path == master_playlist_path,
            r.insertion_mode == insertion_mode,
            r.default_ad_duration == default_ad_duration,
            r.default_repeating_cycle == default_repeating_cycle,
            r.default_ad_number == default_ad_number,
            r.return_test_assets == return_test_assets,
    {
        ServerConfig {
            forward_url,
            interstitials_address,
            master_playlist_path,
            insertion_mode,
            default_ad_duration,
            default_repeating_cycle,
            default_ad_number,
            return_test_assets,
        }
    }
}


/// The command line, as it was given.
#[derive(Clone, Debug, PartialEq, Eq)]
pub struct CliArguments {
    /// Address to listen on.
    pub listen_addr: String,
    /// Port to listen on.
    pub listen_port: u16,
    /// URL of the origin's master playlist.
    pub master_playlist_url: String,
    /// URL of the ad server, with its templates.
    pub ad_server_endpoint: String,
    /// How ad breaks enter the schedule.
    pub ad_insertion_mode: InsertionMode,
    /// Public base URL of this proxy; empty where none was given.
    pub interstitials_address: String,
    /// Duration of a scheduled break in seconds; empty where none was given.
    pub default_ad_duration: String,
    /// Distance between scheduled breaks in seconds; empty where none was given.
    pub default_repeating_cycle: String,
    /// Size of the repeating schedule; empty where none was given.
    pub default_ad_number: String,
    /// Answer every asset-list request with the canned test list.
    pub return_test_assets: bool,
}

/// The number that a text gives, or `default` where it gives none.
pub open spec fn number_or(value: Seq<char>, default: u64) -> u64 {
    match parsed_u64(value) {
        Some(n) => n,
        None => default,
    }
}

/// Reads a number, falling back on `default` where the text is none.
pub fn parse_into_u64(value: &str, default: u64) -> (r: u64)
    ensures
        r == number_or(value@, default),
{
    match parse_u64(value) {
        Some(n) => n,
        None => default,
    }
}

/// The duration of a break, the repeating cycle and the size of the
/// schedule, as given on the command line; 13 seconds, 30 seconds and 1000
/// where they are not given.
pub fn parse_default_values(args: &CliArguments) -> (r: (u64, u64, u64))
    ensures
        r.0 == number_or(args.default_ad_duration@, 13),
        r.1 == number_or(args.default_repeating_cycle@, 30),
        r.2 == number_or(args.default_ad_number@, 1000),
{
    (
        parse_into_u64(args.default_ad_duration.as_str(), 13),
        parse_into_u64(args.default_repeating_cycle.as_str(), 30),
        parse_into_u64(args.default_ad_number.as_str(), 1000),
    )
}

/// The public base URL of the proxy: the one given, or `localhost` at the
/// listening port where none was given.
pub open spec fn public_base(address: Seq<char>, port: u16) -> Seq<char> {
    if address.len() == 0 {
        "http://localhost:"@ + decimal(port as nat)
    } else {
        address
    }
}

/// The public base URL of the proxy.
pub fn interstitials_base(args: &CliArguments) -> (r: String)
    ensures
        r@ == public_base(args.interstitials_address@, args.listen_port),
{
    if args.interstitials_address.as_str().unicode_len() == 0 {
        let mut r = "http://localhost:".to_owned();
        let port = u64_to_decimal(args.listen_port as u64);
        r.append(port.as_str());
        r
    } else {
        args.interstitials_address.clone()
    }
}

/// Whether the breaks of the repeating schedule run into each other: under
/// static insertion, where a break lasts longer than the cycle.
pub fn schedule_overlaps(mode: InsertionMode, ad_duration: u64, repeating_cycle: u64) -> (b: bool)
    ensures
        b == (mode == InsertionMode::Static && repeating_cycle < ad_duration),
{
    mode == InsertionMode::Static && repeating_cycle < ad_duration
}

} // verus!
