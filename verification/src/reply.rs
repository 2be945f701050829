use vstd::prelude::*;
use crate::adaptor::{adaptation, Adaptation, BuildOutcome, Transport};
use crate::error::RequestError;
use crate::negotiate::text_view;
use crate::status::Status;
use crate::text::decimal;

verus! {

/// The body of a reply.
pub enum Body {
    /// Nothing.
    Empty,
    /// A plain text.
    Text(String),
    /// An HTML page.
    Page(String),
    /// The engine's result, data or errors, in its JSON form. The engine
    /// holds it; the reply only says that it is to be sent.
    EngineResult,
}

/// What to answer a request with.
pub struct Reply {
    pub status: Status,
    pub body: Body,
    /// The value of the `Cache-Control` header, where one is to be sent.
    pub cache_control: Option<String>,
}

/// A [`Body`] as plain values.
pub ghost enum BodyView {
    Empty,
    Text(Seq<char>),
    Page(Seq<char>),
    EngineResult,
}

/// A [`Reply`] as plain values.
pub ghost struct ReplyView {
    pub status: Status,
    pub body: BodyView,
    pub cache_control: Option<Seq<char>>,
}

impl BodyView {
    /// The media type that the body is sent as: none for an empty body.
    pub open spec fn content_type(self) -> Option<Seq<char>> {
        match self {
            BodyView::Empty => None,
            BodyView::Text(_) => Some("text/plain; charset=utf-8"@),
            BodyView::Page(_) => Some("text/html; charset=utf-8"@),
            BodyView::EngineResult => Some("application/json"@),
        }
    }
}

impl Body {
    /// The media type that the body is sent as: none for an empty body.
    pub fn content_type(&self) -> (media: Option<&'static str>)
        ensures
            text_view(media) == self@.content_type(),
    {
        match self {
            Body::Empty => None,
            Body::Text(_) => Some("text/plain; charset=utf-8"),
            Body::Page(_) => Some("text/html; charset=utf-8"),
            Body::EngineResult => Some("application/json"),
        }
    }
}

impl View for Body {
    type V = BodyView;

    open spec fn view(&self) -> BodyView {
        match self {
            Body::Empty => BodyView::Empty,
            Body::Text(text) => BodyView::Text(text@),
            Body::Page(page) => BodyView::Page(page@),
            Body::EngineResult => BodyView::EngineResult,
        }
    }
}

impl View for Reply {
    type V = ReplyView;

    open spec fn view(&self) -> ReplyView {
        ReplyView {
            status: self.status,
            body: self.body@,
            cache_control: match self.cache_control {
                Some(value) => Some(value@),
                None => None,
            },
        }
    }
}

/// The value of the `Cache-Control` header for a cache scope and a maximal
/// age in seconds: `max-age=` and the age in decimal, followed by
/// `, private` where the scope is not public; `None` where the age is zero
/// and nothing is to be cached.
pub open spec fn cache_directive(public: bool, max_age: usize) -> Option<Seq<char>> {
    if max_age > 0 {
        if public {
            Some("max-age="@ + decimal(max_age as nat))
        } else {
            Some("max-age="@ + decimal(max_age as nat) + ", private"@)
        }
    } else {
        None
    }
}

/// Trusted: `async_graphql::CacheControl::value`, on the value made of the
/// two given fields. The contract states the text that the source formats.
#[verifier::external_body]
fn render_cache_control(public: bool, max_age: usize) -> (value: Option<String>)
    ensures
        value is Some <==> cache_directive(public, max_age) is Some,
        value matches Some(text) ==> cache_directive(public, max_age) == Some(text@),
{
    async_graphql::CacheControl { public, max_age }.value()
}

/// The cache-control directive that the engine declares for an operation,
/// from the scope and the maximal age that it found for it: none where the
/// age is zero.
pub fn declared_cache_control(public: bool, max_age: usize) -> (value: Option<String>)
    ensures
        value is Some <==> max_age > 0,
        value is Some <==> cache_directive(public, max_age) is Some,
        value matches Some(text) ==> cache_directive(public, max_age) == Some(text@),
{
    render_cache_control(public, max_age)
}

/// The reply that carries an engine result: always status 200. The
/// cache-control directive that the engine declared goes with it only on the
/// JSON path and only where execution succeeded.
pub open spec fn result_reply(
    transport: Transport,
    succeeded: bool,
    declared: Option<Seq<char>>,
) -> ReplyView {
    ReplyView {
        status: Status::Success,
        body: BodyView::EngineResult,
        cache_control: if transport == Transport::Json && succeeded {
            declared
        } else {
            None
        },
    }
}

impl Reply {
    /// The reply to a request that is turned away at routing: the status and
    /// an empty body.
    pub fn rejection(status: Status) -> (reply: Reply)
        ensures
            reply@ == (ReplyView { status, body: BodyView::Empty, cache_control: None }),
    {
        Reply { status, body: Body::Empty, cache_control: None }
    }

    /// The reply to a request that failed in decoding or adaptation: the
    /// status of the error, and its message as a plain text.
    pub fn failure(error: &RequestError) -> (reply: Reply)
        ensures
            reply.status == error@.spec_status(),
            reply.status.spec_is_client_error(),
            reply.cache_control is None,
            reply@.body == BodyView::Text(error@.message()),
    {
        Reply { status: error.status(), body: Body::Text(error.message()), cache_control: None }
    }

    /// The reply that serves the documentation page.
    pub fn page(html: String) -> (reply: Reply)
        ensures
            reply@ == (ReplyView {
                status: Status::Success,
                body: BodyView::Page(html@),
                cache_control: None,
            }),
    {
        Reply { status: Status::Success, body: Body::Page(html), cache_control: None }
    }

    /// The reply that carries the engine's result, be it data or the engine's
    /// own errors.
    pub fn result(transport: Transport, succeeded: bool, declared: Option<String>) -> (reply: Reply)
        ensures
            reply@ == result_reply(
                transport,
                succeeded,
                match declared {
                    Some(value) => Some(value@),
                    None => None,
                },
            ),
    {
        let cache_control = match transport {
            Transport::Json => if succeeded {
                declared
            } else {
                None
            },
            Transport::Multipart => None,
        };
        Reply { status: Status::Success, body: Body::EngineResult, cache_control }
    }
}

/// An operation that arrives as JSON is never failed by the adaptor: whatever
/// the engine makes of it, and with or without a hook, the request is
/// answered with status 200 and the engine's result, data or errors. Failures
/// of the engine are results, not failures of the request.
pub proof fn json_operation_is_always_answered(
    outcome: BuildOutcome,
    has_hook: bool,
    succeeded: bool,
    declared: Option<Seq<char>>,
)
    ensures
        adaptation(Transport::Json, outcome, has_hook) != Adaptation::RejectNotAnUpload,
        result_reply(Transport::Json, succeeded, declared).status == Status::Success,
        result_reply(Transport::Json, succeeded, declared).status.spec_code() == 200,
        !result_reply(Transport::Json, succeeded, declared).status.spec_is_client_error(),
        result_reply(Transport::Json, succeeded, declared).body == BodyView::EngineResult,
        !succeeded ==> result_reply(Transport::Json, succeeded, declared).cache_control is None,
{
}

/// The result of an upload is never sent with a cache-control directive.
pub proof fn upload_result_is_not_cacheable(succeeded: bool, declared: Option<Seq<char>>)
    ensures
        result_reply(Transport::Multipart, succeeded, declared).cache_control is None,
        result_reply(Transport::Multipart, succeeded, declared).status == Status::Success,
{
}

} // verus!
