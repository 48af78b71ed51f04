//! The resilient fetch plan.
//!
//! The live request loop — the part that talks to the network — follows a
//! pure plan: join the base location and the method path, encode the
//! parameters into the request location, and then, attempt by attempt,
//! wait out every rate-limited response, surface any transport failure at
//! once, and decode the body of the first other response.  The plan and
//! the decoding are verified here; an unverified shell performs the
//! attempts and the waiting.

use vstd::prelude::*;

verus! {

use crate::{Error, SearchResponse, page_from_fields};
use crate::engine::params_view;
use crate::text::texts_view;

/// How long a rate-limited request waits before it is retried, in
/// milliseconds.
pub const RETRY_DELAY_MS: u64 = 500;

/// What one attempt of the request came back with: a response with its
/// status and body, or a transport-level failure with its message.
#[derive(Debug, Clone, PartialEq, Eq)]
pub enum FetchEvent {
    Response { status: u16, body: String },
    Failed { message: String },
}

/// What the fetch does next with an attempt's outcome: wait and try
/// again, decode the body, or give up.
#[derive(Debug, Clone, PartialEq, Eq)]
pub enum FetchStep {
    Retry { delay_ms: u64 },
    Decode { body: String },
    Abort { error: Error },
}

/// Decides what one attempt's outcome leads to: a rate-limited response
/// is retried after the fixed delay, any other response has its body
/// decoded, and a transport failure is surfaced at once, unretried.
pub fn fetch_step(event: FetchEvent) -> (r: FetchStep)
    ensures
        (event matches FetchEvent::Response { status, body } ==> (if status == 429 {
            r == (FetchStep::Retry { delay_ms: RETRY_DELAY_MS })
        } else {
            r matches FetchStep::Decode { body: b } && b@ == body@
        })),
        (event matches FetchEvent::Failed { message } ==> r matches FetchStep::Abort { error: e }
            && e matches Error::Transport(m) && m@ == message@),
{
    match event {
        FetchEvent::Response { status, body } => {
            if status == 429 {
                FetchStep::Retry { delay_ms: RETRY_DELAY_MS }
            } else {
                FetchStep::Decode { body }
            }
        },
        FetchEvent::Failed { message } => FetchStep::Abort { error: Error::Transport(message) },
    }
}

/// What a search-response body decodes to, read off the body text alone:
/// nothing when the text is not a JSON object with well-typed page
/// fields; otherwise the page's optional total, optional cursor text, and
/// optional record list, each record re-serialized to its own JSON text.
pub uninterp spec fn json_page(s: Seq<char>) -> Option<
    (Option<i32>, Option<Seq<char>>, Option<Seq<Seq<char>>>),
>;

/// A search-response page as read straight off the wire: each field still
/// optional, records as their JSON texts.
pub(crate) struct RawPage {
    pub total: Option<i32>,
    pub cursor: Option<String>,
    pub records: Option<Vec<String>>,
}

/// The wire fields a raw page holds, read as character sequences.
pub(crate) open spec fn raw_page_view(p: RawPage) -> (
    Option<i32>,
    Option<Seq<char>>,
    Option<Seq<Seq<char>>>,
) {
    (
        p.total,
        match p.cursor {
            Some(c) => Some(c@),
            None => None,
        },
        match p.records {
            Some(v) => Some(texts_view(v@)),
            None => None,
        },
    )
}

/// Relies on serde_json::from_str, Value::{as_object, as_i64, as_str,
/// as_array}, Map::get and Value's Display: reads the three page fields
/// of a JSON object off the body text, refusing a body that is not JSON,
/// not an object, or holds a field of the wrong type — exactly the bodies
/// whose decoded fields `json_page` names.  A null total reads as absent,
/// as an optional integer field has it.
#[verifier::external_body]
fn read_page_fields(body: &str) -> (r: Option<RawPage>)
    ensures
        r is Some <==> json_page(body@) is Some,
        (r matches Some(p) ==> json_page(body@) == Some(raw_page_view(p))),
{
    let v: serde_json::Value = serde_json::from_str(body).ok()?;
    let obj = v.as_object()?;
    let total = match obj.get("totalResults") {
        None | Some(serde_json::Value::Null) => None,
        Some(t) => Some(i32::try_from(t.as_i64()?).ok()?),
    };
    let cursor = match obj.get("cursor") {
        None => None,
        Some(c) => Some(c.as_str()?.to_string()),
    };
    let records = match obj.get("results") {
        None => None,
        Some(a) => Some(a.as_array()?.iter().map(|x| x.to_string()).collect()),
    };
    Some(RawPage { total, cursor, records })
}

/// Whether a decoded page reflects the wire fields `f`, with the
/// documented defaults applied: a missing cursor reads as the first-page
/// cursor `*`, a missing record list as the empty list, and a missing
/// total stays absent (and so reads as size zero).
pub open spec fn page_matches(
    p: SearchResponse<String>,
    f: (Option<i32>, Option<Seq<char>>, Option<Seq<Seq<char>>>),
) -> bool {
    &&& p.spec_total() == f.0
    &&& p.spec_cursor() == match f.1 {
        Some(c) => c,
        None => "*"@,
    }
    &&& texts_view(p.spec_results()) == match f.2 {
        Some(rs) => rs,
        None => Seq::<Seq<char>>::empty(),
    }
}

/// Decodes a search-response body: the page's fields with their defaults
/// applied, or a decode failure when the body is not a well-formed page.
pub fn decode_page(body: &str) -> (r: Result<SearchResponse<String>, Error>)
    ensures
        r is Ok <==> json_page(body@) is Some,
        (r matches Ok(p) ==> json_page(body@) matches Some(f) && page_matches(p, f)),
        (r matches Err(e) ==> e == Error::Decode),
{
    match read_page_fields(body) {
        Some(p) => {
            let ghost fields = raw_page_view(p);
            let page = page_from_fields(p.total, p.cursor, p.records);
            proof {
                assert(page.spec_total() == fields.0);
                assert(page.spec_cursor() == match fields.1 {
                    Some(c) => c,
                    None => "*"@,
                });
                assert(texts_view(page.spec_results()) == match fields.2 {
                    Some(rs) => rs,
                    None => Seq::<Seq<char>>::empty(),
                });
            }
            Ok(page)
        },
        None => Err(Error::Decode),
    }
}

/// What an encoded request location reads as, as a function of the base
/// location and the parameter pairs alone: nothing when the base does not
/// parse as an absolute URL, otherwise the URL with each pair appended to
/// its query string, percent-encoded.
pub uninterp spec fn encoded_url(base: Seq<char>, params: Seq<(Seq<char>, Seq<char>)>) -> Option<
    Seq<char>,
>;

/// Relies on reqwest::Url::parse_with_params (the `url` crate): parses
/// the base location and appends each pair, percent-encoded, to its query
/// string.
#[verifier::external_body]
fn encode_params(base: &str, params: &Vec<(String, String)>) -> (r: Option<String>)
    ensures
        r is Some <==> encoded_url(base@, params_view(params@)) is Some,
        (r matches Some(u) ==> encoded_url(base@, params_view(params@)) == Some(u@)),
{
    match reqwest::Url::parse_with_params(base, params.iter()) {
        Ok(u) => Some(String::from(u)),
        Err(_) => None,
    }
}

/// The request location of one call: the base location and the method
/// path joined by a slash, with the parameters appended percent-encoded —
/// or nothing when that does not form a valid URL.
pub fn request_url(base: &str, method: &str, params: &Vec<(String, String)>) -> (r: Option<String>)
    ensures
        (r is Some <==> encoded_url(base@ + "/"@ + method@, params_view(params@)) is Some),
        (r matches Some(u) ==> encoded_url(base@ + "/"@ + method@, params_view(params@)) == Some(
            u@,
        )),
{
    let mut joined = base.to_owned();
    joined.append("/");
    joined.append(method);
    encode_params(joined.as_str(), params)
}

/// Whether an attempt's outcome asks for a retry: a response with the
/// rate-limiting status.
pub open spec fn is_rate_limited(e: FetchEvent) -> bool {
    e matches FetchEvent::Response { status, .. } && status == 429
}

/// How many outcomes from the front are rate-limited before the first
/// deciding one.
pub open spec fn leading_retries(events: Seq<FetchEvent>) -> int
    decreases events.len(),
{
    if events.len() == 0 {
        0
    } else if is_rate_limited(events[0]) {
        1 + leading_retries(events.skip(1))
    } else {
        0
    }
}

/// A scan that found only rate-limited outcomes up to `i`, and a deciding
/// one at `i` if any outcome is left, has found the leading retries.
proof fn lemma_leading_retries(events: Seq<FetchEvent>, i: int)
    requires
        0 <= i <= events.len(),
        forall|j: int| 0 <= j < i ==> is_rate_limited(#[trigger] events[j]),
        i < events.len() ==> !is_rate_limited(events[i]),
    ensures
        leading_retries(events) == if i < events.len() {
            i
        } else {
            events.len() as int
        },
    decreases i,
{
    if i > 0 {
        assert(is_rate_limited(events[0]));
        assert(forall|j: int| 0 <= j < i - 1 ==> is_rate_limited(#[trigger] events.skip(1)[j]));
        assert(i - 1 < events.skip(1).len() ==> !is_rate_limited(events.skip(1)[i - 1]));
        lemma_leading_retries(events.skip(1), i - 1);
    }
}

/// Replays the fetch loop over a given sequence of attempt outcomes,
/// decision by decision: every leading rate-limited response is waited
/// out and retried, and the first other outcome decides — a transport
/// failure is surfaced unretried, any other response's body is decoded.
/// Returns nothing when every outcome was rate-limited (the live loop
/// would still be retrying), else the decided result and how many
/// suspensions preceded it.
#[verifier::loop_isolation(false)]
pub fn resolve_fetch(events: Vec<FetchEvent>) -> (r: Option<
    (Result<SearchResponse<String>, Error>, usize),
>)
    ensures
        (r is Some <==> leading_retries(events@) < events@.len()),
        (r matches Some((res, retries)) ==> {
            &&& retries == leading_retries(events@)
            &&& (events@[retries as int] matches FetchEvent::Response { status, body } ==> {
                &&& status != 429
                &&& (res is Ok <==> json_page(body@) is Some)
                &&& (res matches Ok(p) ==> json_page(body@) matches Some(f) && page_matches(p, f))
                &&& (json_page(body@) is None ==> (res matches Err(e) && e == Error::Decode))
            })
            &&& (events@[retries as int] matches FetchEvent::Failed { message } ==> res matches Err(
                e,
            ) && e matches Error::Transport(m) && m@ == message@)
        }),
{
    let ghost orig = events@;
    let mut events = events;
    let total: usize = events.len();
    let mut retries: usize = 0;
    while events.len() > 0
        invariant
            total == orig.len(),
            0 <= retries <= total,
            events@ == orig.skip(retries as int),
            forall|j: int| 0 <= j < retries ==> is_rate_limited(#[trigger] orig[j]),
        decreases events@.len(),
    {
        let ev = events.remove(0);
        proof {
            assert(ev == orig[retries as int]);
        }
        match fetch_step(ev) {
            FetchStep::Retry { delay_ms: _ } => {
                proof {
                    assert(is_rate_limited(orig[retries as int]));
                    assert(orig.skip(retries as int).len() == orig.len() - retries);
                    assert((retries as int) < orig.len());
                    assert(orig.skip(retries as int).remove(0) =~= orig.skip(retries as int + 1));
                }
                retries = retries + 1;
            },
            FetchStep::Decode { body } => {
                proof {
                    assert(orig.skip(retries as int).len() == orig.len() - retries);
                    assert((retries as int) < orig.len());
                    assert(!is_rate_limited(orig[retries as int]));
                    lemma_leading_retries(orig, retries as int);
                    assert(leading_retries(orig) == retries as int);
                }
                return Some((decode_page(body.as_str()), retries));
            },
            FetchStep::Abort { error } => {
                proof {
                    assert(orig.skip(retries as int).len() == orig.len() - retries);
                    assert((retries as int) < orig.len());
                    assert(!is_rate_limited(orig[retries as int]));
                    lemma_leading_retries(orig, retries as int);
                    assert(leading_retries(orig) == retries as int);
                }
                return Some((Err(error), retries));
            },
        }
    }
    proof {
        assert(retries == orig.len());
        lemma_leading_retries(orig, retries as int);
    }
    None
}

} // verus!
