//! URLs and query strings. Taking them apart and putting them together is
//! left to the `url` crate; what is made of the parts is verified elsewhere.

use vstd::prelude::*;

verus! {

#[verifier::external_type_specification]
#[verifier::external_body]
pub struct ExUrlParseError(url::ParseError);

/// `url::Url::parse` accepts the text.
pub uninterp spec fn is_url(text: Seq<char>) -> bool;

/// The pairs that `url::form_urlencoded::parse` draws from a query string,
/// names and values percent-decoded, in order.
pub uninterp spec fn form_pairs(query: Seq<char>) -> Seq<(Seq<char>, Seq<char>)>;

/// The pairs that `url::Url::query_pairs` draws from a URL's query, names
/// and values percent-decoded, in order.
pub uninterp spec fn url_query_pairs(url: Seq<char>) -> Seq<(Seq<char>, Seq<char>)>;

/// The URL as text after `url::Url::set_query` has given it `query` as its
/// query string.
pub uninterp spec fn url_with_query(url: Seq<char>, query: Seq<char>) -> Seq<char>;

/// The URL as text after its query has been cleared and the pairs have
/// been appended to it, one `append_pair` each, in order.
pub uninterp spec fn url_with_query_pairs(
    url: Seq<char>,
    pairs: Seq<(Seq<char>, Seq<char>)>,
) -> Seq<char>;

/// What `url::Url::path` returns for the URL.
pub uninterp spec fn url_path(url: Seq<char>) -> Seq<char>;

/// What `url::Url::query` returns for the URL.
pub uninterp spec fn url_query(url: Seq<char>) -> Option<Seq<char>>;

/// Calls `url::form_urlencoded::parse` on the bytes of `query` and collects
/// the pairs as owned strings. Nothing is claimed of them but that they
/// are the ones named by [`form_pairs`].
#[verifier::external_body]
pub(crate) fn parse_query(query: &str) -> (r: Vec<(String, String)>)
    ensures
        r.deep_view() == form_pairs(query@),
{
    url::form_urlencoded::parse(query.as_bytes()).map(
        |(k, v)| (k.into_owned(), v.into_owned()),
    ).collect()
}

/// Parses the URL and collects what `url::Url::query_pairs` yields as owned
/// strings. Fails exactly where `url::Url::parse` does.
#[verifier::external_body]
pub(crate) fn query_pairs_of(url: &str) -> (r: Result<Vec<(String, String)>, url::ParseError>)
    ensures
        r is Ok <==> is_url(url@),
        r matches Ok(pairs) ==> pairs.deep_view() == url_query_pairs(url@),
{
    match url::Url::parse(url) {
        Ok(u) => Ok(u.query_pairs().map(|(k, v)| (k.into_owned(), v.into_owned())).collect()),
        Err(e) => Err(e),
    }
}

/// Parses the URL, calls `url::Url::set_query` with `query` and writes the
/// URL out again. Fails exactly where `url::Url::parse` does.
#[verifier::external_body]
pub(crate) fn set_url_query(url: &str, query: &str) -> (r: Result<String, url::ParseError>)
    ensures
        r is Ok <==> is_url(url@),
        r matches Ok(text) ==> text@ == url_with_query(url@, query@),
{
    match url::Url::parse(url) {
        Ok(mut u) => {
            u.set_query(Some(query));
            Ok(u.to_string())
        },
        Err(e) => Err(e),
    }
}

/// Parses the URL, clears its query through `url::Url::query_pairs_mut`,
/// appends each pair with `append_pair` and writes the URL out again. Fails
/// exactly where `url::Url::parse` does.
#[verifier::external_body]
pub(crate) fn set_url_query_pairs(url: &str, pairs: &Vec<(String, String)>) -> (r: Result<
    String,
    url::ParseError,
>)
    ensures
        r is Ok <==> is_url(url@),
        r matches Ok(text) ==> text@ == url_with_query_pairs(url@, pairs.deep_view()),
{
    match url::Url::parse(url) {
        Ok(mut u) => {
            {
                let mut query = u.query_pairs_mut();
                query.clear();
                for (k, v) in pairs.iter() {
                    query.append_pair(k, v);
                }
            }
            Ok(u.to_string())
        },
        Err(e) => Err(e),
    }
}

/// Parses the URL and returns its path. Fails exactly where
/// `url::Url::parse` does.
#[verifier::external_body]
pub(crate) fn path_of(url: &str) -> (r: Result<String, url::ParseError>)
    ensures
        r is Ok <==> is_url(url@),
        r matches Ok(path) ==> path@ == url_path(url@),
{
    match url::Url::parse(url) {
        Ok(u) => Ok(u.path().to_string()),
        Err(e) => Err(e),
    }
}

/// Parses the URL and returns its query, if it has one. Fails exactly
/// where `url::Url::parse` does.
#[verifier::external_body]
pub(crate) fn query_of(url: &str) -> (r: Result<Option<String>, url::ParseError>)
    ensures
        r is Ok <==> is_url(url@),
        r matches Ok(query) ==> query.deep_view() == url_query(url@),
{
    match url::Url::parse(url) {
        Ok(u) => Ok(
            match u.query() {
                Some(q) => Some(q.to_string()),
                None => None,
            },
        ),
        Err(e) => Err(e),
    }
}


/// The URL as text after its path segments have been cleared with
/// `url::Url::path_segments_mut` and its query has been removed with
/// `url::Url::set_query`. None where `url::Url::parse` turns the text down
/// and for a URL that cannot be a base.
pub uninterp spec fn url_base(url: Seq<char>) -> Option<Seq<char>>;

/// The URL as text after `url::Url::set_path` has given it `path` and
/// `url::Url::set_query` has given it `query`.
pub uninterp spec fn url_with_path_and_query(
    url: Seq<char>,
    path: Seq<char>,
    query: Option<Seq<char>>,
) -> Seq<char>;

/// Parses the URL, clears its path segments through
/// `url::Url::path_segments_mut`, removes its query with `set_query` and
/// writes it out again. Fails where `url::Url::parse` fails and where the
/// URL cannot be a base.
#[verifier::external_body]
pub(crate) fn clear_path_and_query(url: &str) -> (r: Result<String, url::ParseError>)
    ensures
        r is Ok <==> url_base(url@) is Some,
        r matches Ok(text) ==> url_base(url@) == Some(text@),
{
    let mut u = url::Url::parse(url)?;
    match u.path_segments_mut() {
        Ok(mut path) => {
            path.clear();
        },
        Err(_) => {
            return Err(url::ParseError::RelativeUrlWithoutBase);
        },
    }
    u.set_query(None);
    Ok(u.to_string())
}

/// Parses the URL, calls `url::Url::set_path` and `url::Url::set_query` on
/// it and writes it out again. Fails exactly where `url::Url::parse` does.
#[verifier::external_body]
pub(crate) fn set_path_and_query(url: &str, path: &str, query: Option<&str>) -> (r: Result<
    String,
    url::ParseError,
>)
    ensures
        r is Ok <==> is_url(url@),
        r matches Ok(text) ==> text@ == url_with_path_and_query(
            url@,
            path@,
            match query {
                Some(q) => Some(q@),
                None => None,
            },
        ),
{
    let mut u = url::Url::parse(url)?;
    u.set_path(path);
    u.set_query(query);
    Ok(u.to_string())
}

} // verus!
