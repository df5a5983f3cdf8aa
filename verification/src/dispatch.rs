//! The front door: telling requests apart by their path, and what the
//! proxy does to the URLs it passes on.

use crate::config::ServerConfig;
use crate::error::ProxyError;
use crate::text::{contains, ends_with, starts_with, str_contains, str_ends_with, str_eq, str_starts_with};
use crate::vast::{is_media_segment, names_media_segment, names_playlist};
use crate::web::{
    clear_path_and_query, is_url, path_of, query_of, set_path_and_query, url_base, url_path,
    url_query, url_with_path_and_query,
};
use vstd::prelude::*;
use vstd::string::*;

verus! {

/// What kind of origin resource a request is for.
#[derive(Clone, Copy, Debug, PartialEq, Eq, Structural)]
pub enum RequestType {
    /// The master playlist.
    MasterPlayList,
    /// A media playlist.
    MediaPlayList,
    /// A media segment.
    Segment,
    /// Anything else.
    Other,
}

/// The kind of origin resource that a path names: the master playlist
/// where it contains the configured master path; else a segment where it
/// contains a segment extension; else a media playlist where it contains
/// `.m3u8`; else none of these.
pub open spec fn request_type_of(path: Seq<char>, master_path: Seq<char>) -> RequestType {
    if contains(path, master_path) {
        RequestType::MasterPlayList
    } else if names_media_segment(path) {
        RequestType::Segment
    } else if names_playlist(path) {
        RequestType::MediaPlayList
    } else {
        RequestType::Other
    }
}

/// Tells what kind of origin resource a request path names.
pub fn get_request_type(path: &str, config: &ServerConfig) -> (r: RequestType)
    ensures
        r == request_type_of(path@, config.master_playlist_path@),
{
    if str_contains(path, config.master_playlist_path.as_str()) {
        RequestType::MasterPlayList
    } else if is_media_segment(path) {
        RequestType::Segment
    } else if str_contains(path, ".m3u8") {
        RequestType::MediaPlayList
    } else {
        RequestType::Other
    }
}

/// Where a request goes.
#[derive(Clone, Copy, Debug, PartialEq, Eq, Structural)]
pub enum Route {
    /// The control endpoint.
    Command,
    /// The introspection endpoint.
    Status,
    /// The interstitials endpoint.
    Interstitials,
    /// The origin, as a resource of the given kind.
    Stream(RequestType),
}

/// Where a path leads: `/command` and `/status` to their endpoints, a path
/// that ends in `interstitials.m3u8` to the interstitials endpoint, and
/// any other path to the origin.
pub open spec fn route_of(path: Seq<char>, master_path: Seq<char>) -> Route {
    if path == "/command"@ {
        Route::Command
    } else if path == "/status"@ {
        Route::Status
    } else if ends_with(path, "interstitials.m3u8"@) {
        Route::Interstitials
    } else {
        Route::Stream(request_type_of(path, master_path))
    }
}

/// Tells where a request goes by its path.
pub fn route(path: &str, config: &ServerConfig) -> (r: Route)
    ensures
        r == route_of(path@, config.master_playlist_path@),
{
    if str_eq(path, "/command") {
        Route::Command
    } else if str_eq(path, "/status") {
        Route::Status
    } else if str_ends_with(path, "interstitials.m3u8") {
        Route::Interstitials
    } else {
        Route::Stream(get_request_type(path, config))
    }
}

/// A variant URI as the proxy passes it on: an absolute URI gives way to
/// its path and, where it has one, `?` and its query; a relative one, or
/// one that cannot be read as a URL, stays as it is.
pub open spec fn relative_uri(uri: Seq<char>) -> Seq<char> {
    if starts_with(uri, "http"@) && is_url(uri) {
        match url_query(uri) {
            Some(query) => url_path(uri) + "?"@ + query,
            None => url_path(uri),
        }
    } else {
        uri
    }
}

fn make_relative(uri: &str) -> (r: String)
    ensures
        r@ == relative_uri(uri@),
{
    if !str_starts_with(uri, "http") {
        return uri.to_owned();
    }
    match path_of(uri) {
        Err(_) => uri.to_owned(),
        Ok(path) => {
            let mut relative = path;
            match query_of(uri) {
                Ok(Some(query)) => {
                    relative.append("?");
                    relative.append(query.as_str());
                },
                _ => {},
            }
            relative
        },
    }
}

/// Rewrites the variant-stream URIs of a master playlist so that a player
/// fetches the variants through this proxy.
pub fn replace_absolute_url_with_relative_url(uris: &mut Vec<String>)
    ensures
        final(uris).deep_view() == Seq::new(
            old(uris)@.len(),
            |i: int| relative_uri(old(uris)@[i]@),
        ),
{
    let ghost before = uris.deep_view();
    let mut i: usize = 0;
    while i < uris.len()
        invariant
            i <= uris.len(),
            uris@.len() == before.len(),
            forall|j: int| 0 <= j < i ==> #[trigger] uris.deep_view()[j] == relative_uri(before[j]),
            forall|j: int| i <= j < uris.len() ==> #[trigger] uris.deep_view()[j] == before[j],
        decreases uris.len() - i,
    {
        assert(uris.deep_view()[i as int] == uris@[i as int]@);
        let relative = make_relative(uris[i].as_str());
        let ghost prev = uris.deep_view();
        uris[i] = relative;
        assert(uris.deep_view() =~= prev.update(i as int, relative@));
        i += 1;
    }
    assert(uris.deep_view() =~= Seq::new(old(uris)@.len(), |i: int| relative_uri(old(uris)@[i]@)));
}

/// The base of a URL: the URL without its path and query. Fails with
/// `ParseFailure` where the text is no URL or the URL cannot be a base.
pub fn base_url(url: &str) -> (r: Result<String, ProxyError>)
    ensures
        match r {
            Ok(base) => url_base(url@) == Some(base@),
            Err(e) => e == ProxyError::ParseFailure && url_base(url@) is None,
        },
{
    match clear_path_and_query(url) {
        Ok(base) => Ok(base),
        Err(_) => Err(ProxyError::ParseFailure),
    }
}

/// The origin URL for a request: the forward URL with the request's path
/// and query in place of its own. Fails with `ParseFailure` where the
/// forward URL is no URL.
pub fn build_forward_url(path: &str, query: Option<&str>, forward_url: &str) -> (r: Result<
    String,
    ProxyError,
>)
    ensures
        match r {
            Ok(url) => is_url(forward_url@) && url@ == url_with_path_and_query(
                forward_url@,
                path@,
                match query {
                    Some(q) => Some(q@),
                    None => None,
                },
            ),
            Err(e) => e == ProxyError::ParseFailure && !is_url(forward_url@),
        },
{
    match set_path_and_query(forward_url, path, query) {
        Ok(url) => Ok(url),
        Err(_) => Err(ProxyError::ParseFailure),
    }
}

} // verus!
