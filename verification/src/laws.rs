//! What holds of a request from its first step to its reply, whatever the
//! edge cache, the object store and the codec answer.

use vstd::prelude::*;
use crate::handler::{
    begun, error_reply, fetched, probed, screened, ConfigView, FetchOutcomeView, Method,
    ProbeOutcomeView, ReplyView, RequestView, StepView, StoreOutcome,
};
use crate::query::{checked, parsed};
use crate::transform::TransformError;

verus! {

/// What the collaborators answer, should a request come to ask them.
pub struct Answers {
    /// Whether the edge cache can be asked.
    pub cache_up: bool,
    /// What the object store answers.
    pub asset: FetchOutcomeView,
    /// What the transform makes of the source.
    pub result: Result<Seq<u8>, TransformError>,
    /// What comes of storing a reply.
    pub store: StoreOutcome,
}

/// How a request ended.
pub struct Served {
    /// The reply that was sent.
    pub reply: ReplyView,
    /// The edge cache after the request.
    pub cache: Map<Seq<char>, ReplyView>,
    /// Whether the object store was asked.
    pub fetched: bool,
    /// Whether a source was transformed.
    pub transformed: bool,
}

/// What asking the edge cache for a URL comes to.
pub open spec fn looked_up(cache: Map<Seq<char>, ReplyView>, url: Seq<char>, up: bool) -> ProbeOutcomeView {
    if !up {
        ProbeOutcomeView::Failed
    } else if cache.contains_key(url) {
        ProbeOutcomeView::Hit(cache[url])
    } else {
        ProbeOutcomeView::Miss
    }
}

/// The step of a request once the edge cache, where there is one, has been
/// asked.
pub open spec fn entered(
    config: ConfigView,
    request: RequestView,
    cache: Map<Seq<char>, ReplyView>,
    answers: Answers,
) -> StepView {
    match begun(config, request) {
        StepView::Probe(p) => probed(p, looked_up(cache, p.request.url, answers.cache_up)),
        step => step,
    }
}

/// A request taken from its first step to its reply: each step is followed
/// by what it asks for, and the collaborators answer as `answers` says.
pub open spec fn served(
    config: ConfigView,
    request: RequestView,
    cache: Map<Seq<char>, ReplyView>,
    answers: Answers,
) -> Served {
    match entered(config, request, cache, answers) {
        StepView::Fetch(f) => {
            let transformed = answers.asset is Found;
            match fetched(f, answers.asset, answers.result) {
                StepView::Store(s) => Served {
                    reply: s.reply,
                    cache: if answers.store == StoreOutcome::Stored {
                        cache.insert(s.url, s.reply)
                    } else {
                        cache
                    },
                    fetched: true,
                    transformed,
                },
                StepView::Respond(reply) => Served { reply, cache, fetched: true, transformed },
                _ => Served { reply: error_reply(500, Seq::empty()), cache, fetched: true, transformed },
            }
        },
        StepView::Respond(reply) => Served { reply, cache, fetched: false, transformed: false },
        _ => Served { reply: error_reply(500, Seq::empty()), cache, fetched: false, transformed: false },
    }
}

/// After the edge cache has been asked, a request either waits for the
/// source or is answered; after the object store has been asked, it either
/// waits for its reply to be stored or is answered.
pub proof fn steps_follow_in_order(
    config: ConfigView,
    request: RequestView,
    cache: Map<Seq<char>, ReplyView>,
    answers: Answers,
)
    ensures
        entered(config, request, cache, answers) is Fetch || entered(
            config,
            request,
            cache,
            answers,
        ) is Respond,
        entered(config, request, cache, answers) matches StepView::Fetch(f) ==> {
            let step = fetched(f, answers.asset, answers.result);
            step is Store || step is Respond
        },
{
}

/// A reply that the edge cache holds under the URL of a GET request is
/// sent as it is: the object store is not asked, nothing is transformed,
/// and the cache stays as it was.
pub proof fn cached_reply_short_circuits(
    config: ConfigView,
    request: RequestView,
    cache: Map<Seq<char>, ReplyView>,
    answers: Answers,
)
    requires
        request.method == Method::Get,
        config.edge_cache,
        answers.cache_up,
        cache.contains_key(request.url),
    ensures
        served(config, request, cache, answers) == (Served {
            reply: cache[request.url],
            cache,
            fetched: false,
            transformed: false,
        }),
{
}

/// Where a request was answered with 200 and its reply could be stored,
/// the same request is answered with the same reply from then on, without
/// the object store being asked or anything being transformed, whatever the
/// object store and the codec would answer now.
pub proof fn repeated_request_is_served_from_cache(
    config: ConfigView,
    request: RequestView,
    cache: Map<Seq<char>, ReplyView>,
    first: Answers,
    second: Answers,
)
    requires
        config.edge_cache,
        first.store == StoreOutcome::Stored,
        second.cache_up,
        served(config, request, cache, first).reply.status == 200,
    ensures
        served(config, request, served(config, request, cache, first).cache, second).reply
            == served(config, request, cache, first).reply,
        !served(config, request, served(config, request, cache, first).cache, second).fetched,
        !served(config, request, served(config, request, cache, first).cache, second).transformed,
        served(config, request, served(config, request, cache, first).cache, second).cache
            == served(config, request, cache, first).cache,
{
}

/// A query that does not read, or whose dimensions cannot be served, never
/// leads to the object store. Unless the edge cache answers first, the
/// reply is 400.
pub proof fn bad_query_never_fetches(
    config: ConfigView,
    request: RequestView,
    cache: Map<Seq<char>, ReplyView>,
    answers: Answers,
)
    requires
        match parsed(request.query, config.strict) {
            Ok(query) => checked(query.width, query.height) is Err,
            Err(_) => true,
        },
    ensures
        !served(config, request, cache, answers).fetched,
        !served(config, request, cache, answers).transformed,
        served(config, request, cache, answers).cache == cache,
        screened(config, request) == StepView::Respond(error_reply(400, "failed to parse query"@)),
        request.method == Method::Get && !(config.edge_cache && answers.cache_up
            && cache.contains_key(request.url)) ==> served(config, request, cache, answers).reply
            == error_reply(400, "failed to parse query"@),
{
}

/// Where the source is absent the edge cache stays as it was, and a request
/// that came to ask for the source is answered with 404.
pub proof fn absent_source_stores_nothing(
    config: ConfigView,
    request: RequestView,
    cache: Map<Seq<char>, ReplyView>,
    answers: Answers,
)
    requires
        answers.asset is Absent,
    ensures
        served(config, request, cache, answers).cache == cache,
        !served(config, request, cache, answers).transformed,
        served(config, request, cache, answers).fetched ==> served(
            config,
            request,
            cache,
            answers,
        ).reply == error_reply(404, "img is not found"@),
{
}

} // verus!
