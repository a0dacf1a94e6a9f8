//! The lookup-or-fetch protocol, as two steps around the upstream fetch.
//!
//! `begin_request` decides from the store alone: answer at once (reserved
//! path, cache hit) or fetch the target URL. The caller performs the fetch
//! without holding the store, then hands the outcome to `finish_fetch`, which
//! stores a body on success and builds the response. Two requests for the
//! same key may both fetch; the store keeps whichever body is written last.
use vstd::prelude::*;
use vstd::string::*;
use crate::resolver::{is_reserved, key_of, target_url};
use crate::store::CacheStore;

verus! {

/// Name of the response header that carries the cache status.
pub const CACHE_HEADER: &'static str = "X-Cache";

/// Whether a response was served from the store or freshly fetched.
#[derive(Clone, Copy, Debug, PartialEq, Eq, Structural)]
pub enum CacheStatus {
    Hit,
    Miss,
}

impl CacheStatus {
    /// The header text for this status.
    pub open spec fn spec_header_value(self) -> Seq<char> {
        match self {
            CacheStatus::Hit => "HIT"@,
            CacheStatus::Miss => "MISS"@,
        }
    }

    /// The header text for this status: `HIT` or `MISS`.
    pub fn header_value(&self) -> (r: &'static str)
        ensures
            r@ == self.spec_header_value(),
    {
        match self {
            CacheStatus::Hit => {
                proof {
                    reveal_strlit("HIT");
                }
                "HIT"
            },
            CacheStatus::Miss => {
                proof {
                    reveal_strlit("MISS");
                }
                "MISS"
            },
        }
    }
}

/// A response as handed to the HTTP layer: status code, body, and the cache
/// status header where one applies.
#[derive(Debug)]
pub struct ProxyResponse {
    pub status: u16,
    pub body: String,
    pub cache: Option<CacheStatus>,
}

/// The abstract value of a response.
pub struct ResponseModel {
    pub status: u16,
    pub body: Seq<char>,
    pub cache: Option<CacheStatus>,
}

impl View for ProxyResponse {
    type V = ResponseModel;

    open spec fn view(&self) -> ResponseModel {
        ResponseModel { status: self.status, body: self.body@, cache: self.cache }
    }
}

/// What to do next with a request.
#[derive(Debug)]
pub enum Step {
    /// Answer now with this response.
    Respond(ProxyResponse),
    /// Fetch this URL from upstream, then call `finish_fetch` with the outcome.
    Fetch(String),
}

/// The abstract value of a step.
pub enum StepModel {
    Respond(ResponseModel),
    Fetch(Seq<char>),
}

impl View for Step {
    type V = StepModel;

    open spec fn view(&self) -> StepModel {
        match self {
            Step::Respond(r) => StepModel::Respond(r@),
            Step::Fetch(url) => StepModel::Fetch(url@),
        }
    }
}

/// The body of an upstream-failure response: `Error: ` and the description.
pub open spec fn error_text(desc: Seq<char>) -> Seq<char> {
    "Error: "@ + desc
}

pub open spec fn not_found_model() -> ResponseModel {
    ResponseModel { status: 404, body: Seq::empty(), cache: None }
}

pub open spec fn hit_model(body: Seq<char>) -> ResponseModel {
    ResponseModel { status: 200, body, cache: Some(CacheStatus::Hit) }
}

pub open spec fn miss_model(body: Seq<char>) -> ResponseModel {
    ResponseModel { status: 200, body, cache: Some(CacheStatus::Miss) }
}

pub open spec fn error_model(desc: Seq<char>) -> ResponseModel {
    ResponseModel { status: 500, body: error_text(desc), cache: None }
}

/// The step taken for a request `path` against `origin` with store contents `m`.
pub open spec fn begin_spec(m: Map<Seq<char>, Seq<char>>, origin: Seq<char>, path: Seq<char>) -> StepModel {
    match key_of(origin, path) {
        None => StepModel::Respond(not_found_model()),
        Some(k) => if m.contains_key(k) {
            StepModel::Respond(hit_model(m[k]))
        } else {
            StepModel::Fetch(k)
        },
    }
}

/// The abstract value of a fetch outcome: the body, or the error's description.
pub open spec fn outcome_model(outcome: Result<String, String>) -> Result<Seq<char>, Seq<char>> {
    match outcome {
        Ok(b) => Ok(b@),
        Err(e) => Err(e@),
    }
}

/// The store contents after a fetch of `key` ended with `outcome`.
pub open spec fn finish_store(
    m: Map<Seq<char>, Seq<char>>,
    key: Seq<char>,
    outcome: Result<Seq<char>, Seq<char>>,
) -> Map<Seq<char>, Seq<char>> {
    match outcome {
        Ok(b) => m.insert(key, b),
        Err(_) => m,
    }
}

/// The response to a request whose fetch ended with `outcome`.
pub open spec fn finish_response(outcome: Result<Seq<char>, Seq<char>>) -> ResponseModel {
    match outcome {
        Ok(b) => miss_model(b),
        Err(e) => error_model(e),
    }
}

/// Status 404 with an empty body, for the reserved path.
pub fn not_found_response() -> (r: ProxyResponse)
    ensures
        r@ == not_found_model(),
{
    ProxyResponse { status: 404, body: String::new(), cache: None }
}

/// Status 200 with a body served from the store.
pub fn hit_response(body: String) -> (r: ProxyResponse)
    ensures
        r@ == hit_model(body@),
{
    ProxyResponse { status: 200, body, cache: Some(CacheStatus::Hit) }
}

/// Status 200 with a freshly fetched body.
pub fn miss_response(body: String) -> (r: ProxyResponse)
    ensures
        r@ == miss_model(body@),
{
    ProxyResponse { status: 200, body, cache: Some(CacheStatus::Miss) }
}

/// Status 500 with the upstream error's description.
pub fn error_response(desc: &str) -> (r: ProxyResponse)
    ensures
        r@ == error_model(desc@),
        r.body@.len() > 0,
{
    let mut body: String = "Error: ".to_string();
    body.append(desc);
    proof {
        reveal_strlit("Error: ");
    }
    ProxyResponse { status: 500, body, cache: None }
}

/// First step of a request: the reserved path gets 404, a stored key gets its
/// body tagged `HIT`, any other key is to be fetched. The store is only read.
pub fn begin_request(store: &CacheStore, origin: &str, path: &str) -> (r: Step)
    requires
        store.wf(),
    ensures
        r@ == begin_spec(store@, origin@, path@),
{
    if is_reserved(path) {
        return Step::Respond(not_found_response());
    }
    let url = target_url(origin, path);
    match store.get(&url) {
        Some(body) => Step::Respond(hit_response(body)),
        None => Step::Fetch(url),
    }
}

/// Second step, after the fetch of `key`: a body is stored under `key`
/// (replacing one a racing request wrote) and returned tagged `MISS`; a
/// failure leaves the store as it was and becomes a 500 response.
pub fn finish_fetch(store: &mut CacheStore, key: String, outcome: Result<String, String>) -> (r: ProxyResponse)
    requires
        old(store).wf(),
    ensures
        final(store).wf(),
        final(store)@ == finish_store(old(store)@, key@, outcome_model(outcome)),
        r@ == finish_response(outcome_model(outcome)),
{
    match outcome {
        Ok(body) => {
            store.insert(key, body.clone());
            miss_response(body)
        },
        Err(desc) => error_response(desc.as_str()),
    }
}

/// The first request for a key is a miss that fetches; once its body is
/// stored, the next request for the same path is a hit with that body.
pub proof fn lemma_miss_then_hit(
    m: Map<Seq<char>, Seq<char>>,
    origin: Seq<char>,
    path: Seq<char>,
    body: Seq<char>,
)
    requires
        key_of(origin, path) matches Some(k) && !m.contains_key(k),
    ensures
        ({
            let k = key_of(origin, path)->Some_0;
            let after = finish_store(m, k, Ok(body));
            &&& begin_spec(m, origin, path) == StepModel::Fetch(k)
            &&& finish_response(Ok(body)) == miss_model(body)
            &&& begin_spec(after, origin, path) == StepModel::Respond(hit_model(body))
        }),
{
}

/// A stored body keeps being served as a hit while other keys are fetched
/// and while fetches fail; only a new body for the same key replaces it.
pub proof fn lemma_hit_persists(
    m: Map<Seq<char>, Seq<char>>,
    origin: Seq<char>,
    path: Seq<char>,
    other: Seq<char>,
    outcome: Result<Seq<char>, Seq<char>>,
)
    requires
        key_of(origin, path) matches Some(k) && m.contains_key(k),
        key_of(origin, path) != Some(other) || outcome is Err,
    ensures
        ({
            let k = key_of(origin, path)->Some_0;
            &&& begin_spec(m, origin, path) == StepModel::Respond(hit_model(m[k]))
            &&& begin_spec(finish_store(m, other, outcome), origin, path) == StepModel::Respond(
                hit_model(m[k]),
            )
        }),
{
}

/// A failed fetch leaves the store as it was and answers with status 500 and
/// a non-empty body: a body stored earlier is still served, and a key that
/// had none is fetched again by the next request.
pub proof fn lemma_failure_keeps_store(
    m: Map<Seq<char>, Seq<char>>,
    origin: Seq<char>,
    path: Seq<char>,
    desc: Seq<char>,
)
    requires
        key_of(origin, path) is Some,
    ensures
        ({
            let k = key_of(origin, path)->Some_0;
            let after = finish_store(m, k, Err(desc));
            &&& after == m
            &&& finish_response(Err(desc)).status == 500
            &&& finish_response(Err(desc)).body.len() > 0
            &&& m.contains_key(k) ==> begin_spec(after, origin, path) == StepModel::Respond(
                hit_model(m[k]),
            )
            &&& !m.contains_key(k) ==> begin_spec(after, origin, path) == StepModel::Fetch(k)
        }),
{
    reveal_strlit("Error: ");
}

/// Two first-time requests for one key that race both see a miss and fetch.
/// A request that begins after the first body is stored is a hit with that
/// whole body; after the second is stored, hits serve the second, whole.
pub proof fn lemma_racing_first_requests(
    m: Map<Seq<char>, Seq<char>>,
    origin: Seq<char>,
    path: Seq<char>,
    first: Seq<char>,
    second: Seq<char>,
)
    requires
        key_of(origin, path) matches Some(k) && !m.contains_key(k),
    ensures
        ({
            let k = key_of(origin, path)->Some_0;
            let after_first = finish_store(m, k, Ok(first));
            let after_second = finish_store(after_first, k, Ok(second));
            &&& begin_spec(m, origin, path) == StepModel::Fetch(k)
            &&& finish_response(Ok(first)) == miss_model(first)
            &&& finish_response(Ok(second)) == miss_model(second)
            &&& begin_spec(after_first, origin, path) == StepModel::Respond(hit_model(first))
            &&& begin_spec(after_second, origin, path) == StepModel::Respond(hit_model(second))
        }),
{
}

} // verus!
