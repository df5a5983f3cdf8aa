//! The request to the ad server: the configured URL with its templates
//! filled in for one slot and one playback session.

use crate::error::{Missing, ProxyError};
use crate::sessions::UserDefinedQueryParams;
use crate::slots::{slot_name, AdSlot, AvailableAdSlots};
use crate::text::{decimal, str_eq, u64_to_decimal};
use crate::web::{
    is_url, query_of, query_pairs_of, set_url_query, set_url_query_pairs, url_query,
    url_query_pairs, url_with_query, url_with_query_pairs,
};
use vstd::prelude::*;
use vstd::string::*;

verus! {

/// The sentinel that stands for the playback session's identifier.
pub open spec fn session_template() -> Seq<char> {
    "[template.sessionId]"@
}

/// The sentinel that stands for the slot's duration.
pub open spec fn duration_template() -> Seq<char> {
    "[template.duration]"@
}

/// The sentinel that stands for the slot's pod count.
pub open spec fn pod_template() -> Seq<char> {
    "[template.pod]"@
}

/// A query value with its template filled in: a value that is one of the
/// three sentinels gives way to what the sentinel stands for, any other
/// value stays as it is.
pub open spec fn substituted(
    value: Seq<char>,
    session: Seq<char>,
    duration: u64,
    pod: u64,
) -> Seq<char> {
    if value == session_template() {
        session
    } else if value == duration_template() {
        decimal(duration as nat)
    } else if value == pod_template() {
        decimal(pod as nat)
    } else {
        value
    }
}

/// The pairs with the template of every value filled in. Names, order and
/// number stay as they are.
pub open spec fn templated(
    pairs: Seq<(Seq<char>, Seq<char>)>,
    session: Seq<char>,
    duration: u64,
    pod: u64,
) -> Seq<(Seq<char>, Seq<char>)> {
    Seq::new(pairs.len(), |i: int| (pairs[i].0, substituted(pairs[i].1, session, duration, pod)))
}

/// The configured URL with its templates filled in for a slot and a
/// session: its query pairs, values replaced, written back by the URL
/// crate, which encodes what a value holds.
pub open spec fn templated_url(url: Seq<char>, slot: AdSlot, session: Seq<char>) -> Seq<char> {
    url_with_query_pairs(
        url,
        templated(url_query_pairs(url), session, slot.duration, slot.pod_num),
    )
}

/// The query of a URL, empty where it has none.
pub open spec fn query_or_empty(url: Seq<char>) -> Seq<char> {
    match url_query(url) {
        Some(query) => query,
        None => Seq::empty(),
    }
}

/// The request to the ad server for a slot and a session: the templated
/// URL; where the session's own query string is kept, that string follows
/// the URL's query after an `&`, as it was received.
pub open spec fn ad_server_request(
    url: Seq<char>,
    slot: AdSlot,
    session: Seq<char>,
    sidecar: Option<Seq<char>>,
) -> Result<Seq<char>, ProxyError> {
    let filled = templated_url(url, slot, session);
    match sidecar {
        None => Ok(filled),
        Some(own) => if is_url(filled) {
            Ok(url_with_query(filled, query_or_empty(filled) + "&"@ + own))
        } else {
            Err(ProxyError::ParseFailure)
        },
    }
}

/// `r` is the answer `expected`, text for text.
pub open spec fn is_answer(r: Result<String, ProxyError>, expected: Result<Seq<char>, ProxyError>) -> bool {
    match expected {
        Ok(text) => r is Ok && r->Ok_0@ == text,
        Err(e) => r is Err && r->Err_0 == e,
    }
}

/// Fills in the template of one query value.
pub fn substitute(value: &str, session: &str, duration: u64, pod: u64) -> (r: String)
    ensures
        r@ == substituted(value@, session@, duration, pod),
{
    if str_eq(value, "[template.sessionId]") {
        session.to_owned()
    } else if str_eq(value, "[template.duration]") {
        u64_to_decimal(duration)
    } else if str_eq(value, "[template.pod]") {
        u64_to_decimal(pod)
    } else {
        value.to_owned()
    }
}

/// Fills in the templates of all query values.
pub fn fill_templates(pairs: &Vec<(String, String)>, session: &str, duration: u64, pod: u64) -> (r:
    Vec<(String, String)>)
    ensures
        r.deep_view() == templated(pairs.deep_view(), session@, duration, pod),
{
    let mut r: Vec<(String, String)> = Vec::new();
    let mut i: usize = 0;
    while i < pairs.len()
        invariant
            i <= pairs.len(),
            r@.len() == i,
            forall|j: int|
                0 <= j < i ==> r@[j].deep_view() == (
                    pairs@[j].0@,
                    substituted(pairs@[j].1@, session@, duration, pod),
                ),
        decreases pairs.len() - i,
    {
        let name = pairs[i].0.clone();
        let value = substitute(pairs[i].1.as_str(), session, duration, pod);
        r.push((name, value));
        i += 1;
    }
    assert(r.deep_view() =~= templated(pairs.deep_view(), session@, duration, pod));
    r
}

/// Composes the URL of the ad-server request for a slot and a session.
///
/// Fails with `NotFound` where the registry holds no slot of the given
/// name, and with `ParseFailure` where the configured text is no URL.
/// Otherwise the result is the [`ad_server_request`] for a slot of that
/// name and for what the sidecar keeps for the session.
pub fn build_ad_server_url(
    ad_server_url: &str,
    interstitial_id: &str,
    user_id: &str,
    available_slots: &AvailableAdSlots,
    user_defined_query_params: &UserDefinedQueryParams,
) -> (r: Result<String, ProxyError>)
    ensures
        (forall|s: AdSlot| available_slots@.contains(s) ==> slot_name(s.index) != interstitial_id@)
            ==> r == Err::<String, ProxyError>(ProxyError::NotFound(Missing::AdSlot)),
        (exists|s: AdSlot| available_slots@.contains(s) && slot_name(s.index) == interstitial_id@)
            && !is_url(ad_server_url@) ==> r == Err::<String, ProxyError>(
            ProxyError::ParseFailure,
        ),
        (exists|s: AdSlot| available_slots@.contains(s) && slot_name(s.index) == interstitial_id@)
            && is_url(ad_server_url@) ==> exists|slot: AdSlot|
            {
                &&& #[trigger] available_slots@.contains(slot)
                &&& slot_name(slot.index) == interstitial_id@
                &&& is_answer(
                    r,
                    ad_server_request(
                        ad_server_url@,
                        slot,
                        user_id@,
                        UserDefinedQueryParams::recalled(user_defined_query_params@, user_id@),
                    ),
                )
            },
{
    let slot = match available_slots.find_by_name(interstitial_id) {
        Some(slot) => slot,
        None => {
            return Err(ProxyError::NotFound(Missing::AdSlot));
        },
    };
    let pairs = match query_pairs_of(ad_server_url) {
        Ok(pairs) => pairs,
        Err(_) => {
            return Err(ProxyError::ParseFailure);
        },
    };
    let filled = fill_templates(&pairs, user_id, slot.duration, slot.pod_num);
    let url = match set_url_query_pairs(ad_server_url, &filled) {
        Ok(url) => url,
        Err(_) => {
            return Err(ProxyError::ParseFailure);
        },
    };
    match user_defined_query_params.recall(user_id) {
        None => Ok(url),
        Some(own) => {
            let mut query = match query_of(url.as_str()) {
                Ok(Some(query)) => query,
                Ok(None) => String::new(),
                Err(_) => {
                    return Err(ProxyError::ParseFailure);
                },
            };
            query.append("&");
            query.append(own.as_str());
            match set_url_query(url.as_str(), query.as_str()) {
                Ok(url) => Ok(url),
                Err(_) => Err(ProxyError::ParseFailure),
            }
        },
    }
}

/// Law of the templates: every pair keeps its name and its place; a value
/// that is a sentinel becomes what the sentinel stands for, and any other
/// value is kept.
pub proof fn lemma_templates(
    pairs: Seq<(Seq<char>, Seq<char>)>,
    session: Seq<char>,
    duration: u64,
    pod: u64,
    i: int,
)
    requires
        0 <= i < pairs.len(),
    ensures
        templated(pairs, session, duration, pod).len() == pairs.len(),
        templated(pairs, session, duration, pod)[i].0 == pairs[i].0,
        pairs[i].1 == session_template() ==> templated(pairs, session, duration, pod)[i].1
            == session,
        pairs[i].1 == duration_template() ==> templated(pairs, session, duration, pod)[i].1
            == decimal(duration as nat),
        pairs[i].1 == pod_template() ==> templated(pairs, session, duration, pod)[i].1 == decimal(
            pod as nat,
        ),
        pairs[i].1 != session_template() && pairs[i].1 != duration_template() && pairs[i].1
            != pod_template() ==> templated(pairs, session, duration, pod)[i].1 == pairs[i].1,
{
    reveal_strlit("[template.sessionId]");
    reveal_strlit("[template.duration]");
    reveal_strlit("[template.pod]");
    assert(session_template().len() == 20);
    assert(duration_template().len() == 19);
    assert(pod_template().len() == 14);
}

} // verus!
