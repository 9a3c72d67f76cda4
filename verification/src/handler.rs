//! The decisions of the gateway. Looking a reply up in the edge cache,
//! fetching the source and storing a reply are left to the caller: each
//! [`Step`] names the next thing to do, and the caller comes back with what
//! came of it.

use vstd::prelude::*;
use vstd::slice::*;
use vstd::string::*;
use vstd::utf8::*;
use crate::query::{canonical_path, checked, pairs_view, parsed, Query, QueryView};
use crate::signature::verifies;
use crate::transform::{may_give, result_view, transform, TransformError};

verus! {

/// The method of a request, as far as the gateway tells methods apart.
#[derive(Clone, Copy, Debug, PartialEq, Eq, Structural)]
pub enum Method {
    Get,
    Other,
}

/// A request as the gateway reads it.
#[derive(Clone, Debug)]
pub struct Request {
    pub method: Method,
    /// The full URL, query string included: the key of the edge cache.
    pub url: String,
    /// The decoded pairs of the query string, in their order.
    pub query: Vec<(String, String)>,
}

/// A [`Request`] with its texts as sequences of characters.
pub struct RequestView {
    pub method: Method,
    pub url: Seq<char>,
    pub query: Seq<(Seq<char>, Seq<char>)>,
}

impl View for Request {
    type V = RequestView;

    open spec fn view(&self) -> RequestView {
        RequestView { method: self.method, url: self.url@, query: pairs_view(self.query@) }
    }
}

/// How a deployment is set up.
#[derive(Clone, Debug)]
pub struct Config {
    /// The signing secret. Without one, requests are served unsigned.
    pub secret: Option<String>,
    /// Whether replies are looked up in and stored to the edge cache.
    pub edge_cache: bool,
    /// Whether a request must give both dimensions.
    pub strict: bool,
    /// The key of the source image in the object store.
    pub asset_key: String,
}

/// A [`Config`] with its texts as sequences of characters.
pub struct ConfigView {
    pub secret: Option<Seq<char>>,
    pub edge_cache: bool,
    pub strict: bool,
    pub asset_key: Seq<char>,
}

impl View for Config {
    type V = ConfigView;

    open spec fn view(&self) -> ConfigView {
        ConfigView {
            secret: match self.secret {
                Some(s) => Some(s@),
                None => None,
            },
            edge_cache: self.edge_cache,
            strict: self.strict,
            asset_key: self.asset_key@,
        }
    }
}

/// A reply: status, headers in their order, body.
#[derive(Clone, Debug, PartialEq, Eq)]
pub struct Reply {
    pub status: u16,
    pub headers: Vec<(String, String)>,
    pub body: Vec<u8>,
}

/// A [`Reply`] with its contents as sequences.
pub struct ReplyView {
    pub status: u16,
    pub headers: Seq<(Seq<char>, Seq<char>)>,
    pub body: Seq<u8>,
}

impl View for Reply {
    type V = ReplyView;

    open spec fn view(&self) -> ReplyView {
        ReplyView { status: self.status, headers: pairs_view(self.headers@), body: self.body@ }
    }
}

/// What a lookup in the edge cache came to.
#[derive(Clone, Debug)]
pub enum ProbeOutcome {
    /// The cache holds this reply under the URL.
    Hit(Reply),
    /// The cache holds nothing under the URL.
    Miss,
    /// The cache could not be asked.
    Failed,
}

/// What fetching the source came to.
#[derive(Clone, Debug)]
pub enum FetchOutcome {
    /// The bytes stored under the key.
    Found(Vec<u8>),
    /// Nothing is stored under the key.
    Absent,
    /// The object store could not be reached.
    Unavailable,
    /// The object store failed to answer.
    Failed,
}

/// What storing a reply in the edge cache came to.
#[derive(Clone, Copy, Debug, PartialEq, Eq, Structural)]
pub enum StoreOutcome {
    Stored,
    Failed,
}

/// A request that waits for the edge cache to be asked for its URL.
#[derive(Debug)]
pub struct Probing {
    config: Config,
    request: Request,
}

/// A request that passed every check and waits for the source image.
#[derive(Debug)]
pub struct Fetching {
    config: Config,
    url: String,
    width: u32,
    height: u32,
}

/// A reply that is to be stored under a URL before it is sent.
#[derive(Debug)]
pub struct Storing {
    url: String,
    reply: Reply,
}

/// What the caller does next.
#[derive(Debug)]
pub enum Step {
    /// Look the URL up in the edge cache, then resume.
    Probe(Probing),
    /// Fetch the source from the object store, then resume.
    Fetch(Fetching),
    /// Store the reply under the URL in the edge cache, then resume.
    Store(Storing),
    /// Send this reply. The request is done.
    Respond(Reply),
}

pub struct ProbingView {
    pub config: ConfigView,
    pub request: RequestView,
}

pub struct FetchingView {
    pub config: ConfigView,
    pub url: Seq<char>,
    pub width: u32,
    pub height: u32,
}

pub struct StoringView {
    pub url: Seq<char>,
    pub reply: ReplyView,
}

pub enum StepView {
    Probe(ProbingView),
    Fetch(FetchingView),
    Store(StoringView),
    Respond(ReplyView),
}

impl View for Probing {
    type V = ProbingView;

    closed spec fn view(&self) -> ProbingView {
        ProbingView { config: self.config@, request: self.request@ }
    }
}

impl View for Fetching {
    type V = FetchingView;

    closed spec fn view(&self) -> FetchingView {
        FetchingView { config: self.config@, url: self.url@, width: self.width, height: self.height }
    }
}

impl View for Storing {
    type V = StoringView;

    closed spec fn view(&self) -> StoringView {
        StoringView { url: self.url@, reply: self.reply@ }
    }
}

impl View for Step {
    type V = StepView;

    open spec fn view(&self) -> StepView {
        match *self {
            Step::Probe(p) => StepView::Probe(p@),
            Step::Fetch(f) => StepView::Fetch(f@),
            Step::Store(s) => StepView::Store(s@),
            Step::Respond(r) => StepView::Respond(r@),
        }
    }
}

/// The reply that reports an error: no headers, the message as plain text.
pub open spec fn error_reply(status: u16, message: Seq<char>) -> ReplyView {
    ReplyView { status, headers: Seq::empty(), body: encode_utf8(message) }
}

/// The reply that carries a PNG file. It may be cached for one week.
pub open spec fn png_reply(body: Seq<u8>) -> ReplyView {
    ReplyView {
        status: 200,
        headers: seq![
            ("content-type"@, "image/png"@),
            ("Cache-Control"@, "public, max-age=604800"@),
        ],
        body,
    }
}

/// Whether a query may be served under a configuration: always where no
/// secret is set, else only with a token that signs its dimensions.
pub open spec fn authorized(config: ConfigView, query: QueryView) -> bool {
    match config.secret {
        None => true,
        Some(secret) => match query.token {
            Some(token) => verifies(canonical_path(query.width, query.height), token, secret),
            None => false,
        },
    }
}

/// The first step of a request: any method but GET is turned down; with an
/// edge cache the cache is asked first; else the request is checked.
pub open spec fn begun(config: ConfigView, request: RequestView) -> StepView {
    if request.method != Method::Get {
        StepView::Respond(error_reply(405, "Method Not Allowed"@))
    } else if config.edge_cache {
        StepView::Probe(ProbingView { config, request })
    } else {
        screened(config, request)
    }
}

/// The step after the checks: a query that does not read or whose
/// dimensions cannot be served gives 400, a signature that does not verify
/// gives 403, and only then is the source asked for.
pub open spec fn screened(config: ConfigView, request: RequestView) -> StepView {
    match parsed(request.query, config.strict) {
        Err(_) => StepView::Respond(error_reply(400, "failed to parse query"@)),
        Ok(query) => if checked(query.width, query.height) is Err {
            StepView::Respond(error_reply(400, "failed to parse query"@))
        } else if !authorized(config, query) {
            StepView::Respond(error_reply(403, "token is invalid"@))
        } else {
            StepView::Fetch(
                FetchingView { config, url: request.url, width: query.width, height: query.height },
            )
        },
    }
}

/// A [`ProbeOutcome`] with its reply as a view.
pub enum ProbeOutcomeView {
    Hit(ReplyView),
    Miss,
    Failed,
}

impl View for ProbeOutcome {
    type V = ProbeOutcomeView;

    open spec fn view(&self) -> ProbeOutcomeView {
        match *self {
            ProbeOutcome::Hit(r) => ProbeOutcomeView::Hit(r@),
            ProbeOutcome::Miss => ProbeOutcomeView::Miss,
            ProbeOutcome::Failed => ProbeOutcomeView::Failed,
        }
    }
}

/// The step after the edge cache was asked: a cached reply is sent as it
/// is; a miss and a failure both lead to the checks.
pub open spec fn probed(state: ProbingView, outcome: ProbeOutcomeView) -> StepView {
    match outcome {
        ProbeOutcomeView::Hit(reply) => StepView::Respond(reply),
        _ => screened(state.config, state.request),
    }
}

/// The step after the transform: a failure gives 500; a PNG file is stored
/// first where there is an edge cache, and sent at once where there is none.
pub open spec fn transformed(state: FetchingView, result: Result<Seq<u8>, TransformError>) -> StepView {
    match result {
        Err(TransformError::Decode) => StepView::Respond(
            error_reply(500, "failed to decode image"@),
        ),
        Err(TransformError::Encode) => StepView::Respond(
            error_reply(500, "failed to write image"@),
        ),
        Ok(png) => if state.config.edge_cache {
            StepView::Store(StoringView { url: state.url, reply: png_reply(png) })
        } else {
            StepView::Respond(png_reply(png))
        },
    }
}

/// A [`FetchOutcome`] with its bytes as a sequence.
pub enum FetchOutcomeView {
    Found(Seq<u8>),
    Absent,
    Unavailable,
    Failed,
}

impl View for FetchOutcome {
    type V = FetchOutcomeView;

    open spec fn view(&self) -> FetchOutcomeView {
        match *self {
            FetchOutcome::Found(bytes) => FetchOutcomeView::Found(bytes@),
            FetchOutcome::Absent => FetchOutcomeView::Absent,
            FetchOutcome::Unavailable => FetchOutcomeView::Unavailable,
            FetchOutcome::Failed => FetchOutcomeView::Failed,
        }
    }
}

/// The step after the object store was asked, where `result` is what the
/// transform makes of a source that was found: a source that is absent
/// gives 404, a store that cannot be reached or fails gives 500, and
/// nothing is stored for either.
pub open spec fn fetched(
    state: FetchingView,
    outcome: FetchOutcomeView,
    result: Result<Seq<u8>, TransformError>,
) -> StepView {
    match outcome {
        FetchOutcomeView::Found(_) => transformed(state, result),
        FetchOutcomeView::Absent => StepView::Respond(error_reply(404, "img is not found"@)),
        FetchOutcomeView::Unavailable => StepView::Respond(
            error_reply(500, "failed to get bucket"@),
        ),
        FetchOutcomeView::Failed => StepView::Respond(error_reply(500, "img is not found"@)),
    }
}

/// Whether `result` is something that the transform may make of what the
/// object store answered. Where no source was found nothing is transformed,
/// and any `result` will do.
pub open spec fn may_follow(
    state: FetchingView,
    outcome: FetchOutcomeView,
    result: Result<Seq<u8>, TransformError>,
) -> bool {
    outcome matches FetchOutcomeView::Found(bytes) ==> may_give(
        bytes,
        state.width,
        state.height,
        result,
    )
}

/// The step after the attempt to store a reply: the reply is sent whether
/// or not it could be stored.
pub open spec fn stored(state: StoringView, outcome: StoreOutcome) -> StepView {
    StepView::Respond(state.reply)
}

/// Builds the reply that reports an error.
fn reply_error(status: u16, message: &str) -> (reply: Reply)
    ensures
        reply@ == error_reply(status, message@),
{
    let reply = Reply { status, headers: Vec::new(), body: slice_to_vec(message.as_bytes()) };
    assert(reply@.headers =~= Seq::empty());
    reply
}

/// Builds the reply that carries a PNG file.
fn reply_png(body: Vec<u8>) -> (reply: Reply)
    ensures
        reply@ == png_reply(body@),
{
    let mut headers: Vec<(String, String)> = Vec::new();
    headers.push(("content-type".to_owned(), "image/png".to_owned()));
    headers.push(("Cache-Control".to_owned(), "public, max-age=604800".to_owned()));
    let reply = Reply { status: 200, headers, body };
    assert(reply@.headers =~= png_reply(body@).headers);
    reply
}

/// Checks a request and decides whether the source is asked for.
fn screen(config: Config, request: Request) -> (step: Step)
    ensures
        step@ == screened(config@, request@),
{
    let query = match Query::parse(request.query.as_slice(), config.strict) {
        Ok(query) => query,
        Err(_) => {
            return Step::Respond(reply_error(400, "failed to parse query"));
        },
    };
    match query.validate() {
        Ok(()) => {},
        Err(_) => {
            return Step::Respond(reply_error(400, "failed to parse query"));
        },
    }
    let allowed = match &config.secret {
        Some(secret) => query.verify_token(secret.clone()),
        None => true,
    };
    if !allowed {
        return Step::Respond(reply_error(403, "token is invalid"));
    }
    Step::Fetch(Fetching { config, url: request.url, width: query.width, height: query.height })
}

/// Takes a request in and says what to do first.
pub fn begin(config: Config, request: Request) -> (step: Step)
    ensures
        step@ == begun(config@, request@),
{
    match request.method {
        Method::Get => {},
        Method::Other => {
            return Step::Respond(reply_error(405, "Method Not Allowed"));
        },
    }
    if config.edge_cache {
        Step::Probe(Probing { config, request })
    } else {
        screen(config, request)
    }
}

impl Probing {
    /// The URL to look up in the edge cache.
    pub fn url(&self) -> (url: &str)
        ensures
            url@ == self@.request.url,
    {
        self.request.url.as_str()
    }

    /// Goes on with what the edge cache answered.
    pub fn resume(self, outcome: ProbeOutcome) -> (step: Step)
        ensures
            step@ == probed(self@, outcome@),
    {
        match outcome {
            ProbeOutcome::Hit(reply) => Step::Respond(reply),
            ProbeOutcome::Miss => screen(self.config, self.request),
            ProbeOutcome::Failed => screen(self.config, self.request),
        }
    }
}

impl Fetching {
    #[verifier::type_invariant]
    spec fn servable(&self) -> bool {
        checked(self.width, self.height) is Ok
    }

    /// The key of the source in the object store.
    pub fn key(&self) -> (key: &str)
        ensures
            key@ == self@.config.asset_key,
    {
        self.config.asset_key.as_str()
    }

    /// Decides what follows a transform of the source, where `result` is
    /// what the transform gave.
    pub fn deliver(self, result: Result<Vec<u8>, TransformError>) -> (step: Step)
        ensures
            step@ == transformed(self@, result_view(result)),
    {
        match result {
            Ok(png) => {
                let reply = reply_png(png);
                if self.config.edge_cache {
                    Step::Store(Storing { url: self.url, reply })
                } else {
                    Step::Respond(reply)
                }
            },
            Err(TransformError::Decode) => Step::Respond(
                reply_error(500, "failed to decode image"),
            ),
            Err(TransformError::Encode) => Step::Respond(
                reply_error(500, "failed to write image"),
            ),
        }
    }

    /// Goes on with what the object store answered. A source that was found
    /// is transformed here, and the step is the one that follows from what
    /// the transform gave.
    pub fn resume(self, outcome: FetchOutcome) -> (step: Step)
        ensures
            exists|result: Result<Seq<u8>, TransformError>|
                may_follow(self@, outcome@, result) && step@ == #[trigger] fetched(
                    self@,
                    outcome@,
                    result,
                ),
    {
        proof {
            use_type_invariant(&self);
        }
        let ghost state = self@;
        let ghost asked = outcome@;
        match outcome {
            FetchOutcome::Found(bytes) => {
                let result = transform(bytes.as_slice(), self.width, self.height);
                let ghost seen = result_view(result);
                let step = self.deliver(result);
                assert(may_follow(state, asked, seen) && step@ == fetched(state, asked, seen));
                step
            },
            FetchOutcome::Absent => {
                let step = Step::Respond(reply_error(404, "img is not found"));
                assert(step@ == fetched(state, asked, Err(TransformError::Decode)));
                step
            },
            FetchOutcome::Unavailable => {
                let step = Step::Respond(reply_error(500, "failed to get bucket"));
                assert(step@ == fetched(state, asked, Err(TransformError::Decode)));
                step
            },
            FetchOutcome::Failed => {
                let step = Step::Respond(reply_error(500, "img is not found"));
                assert(step@ == fetched(state, asked, Err(TransformError::Decode)));
                step
            },
        }
    }
}

impl Storing {
    /// The URL under which the reply is to be stored.
    pub fn url(&self) -> (url: &str)
        ensures
            url@ == self@.url,
    {
        self.url.as_str()
    }

    /// The reply that is to be stored, and sent afterwards.
    pub fn reply(&self) -> (reply: &Reply)
        ensures
            reply@ == self@.reply,
    {
        &self.reply
    }

    /// Goes on after the attempt to store: the reply is sent whether or not
    /// it could be stored.
    pub fn resume(self, outcome: StoreOutcome) -> (step: Step)
        ensures
            step@ == stored(self@, outcome),
    {
        Step::Respond(self.reply)
    }
}

} // verus!
