use vstd::prelude::*;
use crate::status::Status;
use crate::text::{
    contains, contains_ignore_ascii_case, eq_ignore_ascii_case, eq_ignoring_case,
    lemma_lowered_twice, lowered, same_text,
};

verus! {

/// The request method, as far as routing tells methods apart.
#[derive(Clone, Copy, Debug, PartialEq, Eq, Structural)]
pub enum Method {
    Get,
    Post,
    /// Any method other than `GET` and `POST`.
    Other,
}

impl Method {
    /// The method that a method name stands for. Names are case-sensitive.
    pub open spec fn named(name: Seq<char>) -> Method {
        if name == "GET"@ {
            Method::Get
        } else if name == "POST"@ {
            Method::Post
        } else {
            Method::Other
        }
    }

    /// Reads a method from its name as it stands in the request line.
    pub fn from_name(name: &str) -> (method: Method)
        ensures
            method == Method::named(name@),
    {
        if same_text(name, "GET") {
            Method::Get
        } else if same_text(name, "POST") {
            Method::Post
        } else {
            Method::Other
        }
    }
}

/// Where a request goes.
#[derive(Clone, Copy, Debug, PartialEq, Eq, Structural)]
pub enum Route {
    /// Hand the connection to the subscription transport.
    UpgradeToSubscription,
    /// Answer with the interactive documentation page.
    ServeDocumentationPage,
    /// Read the body as one JSON operation and execute it.
    ExecuteJson,
    /// Decode the body as a multipart upload and execute its operation.
    ExecuteMultipart,
    /// Answer with this status and an empty body.
    Reject(Status),
}

/// Whether the `mime` crate reads a `Content-Type` value as a media type.
pub uninterp spec fn media_type_parses(content_type: Seq<char>) -> bool;

/// The text before the first `;` of a header value: all of it where there is
/// no `;`.
pub open spec fn before_semicolon(value: Seq<char>) -> Seq<char>
    decreases value.len(),
{
    if value.len() == 0 || value[0] == ';' {
        Seq::empty()
    } else {
        seq![value[0]] + before_semicolon(value.drop_first())
    }
}

/// The essence (`type/subtype`, without parameters) of a `Content-Type`
/// value: the text before the first `;`, in ASCII lower case, where the
/// value is a media type; `None` where it is not.
pub open spec fn media_essence(content_type: Seq<char>) -> Option<Seq<char>> {
    if media_type_parses(content_type) {
        Some(lowered(before_semicolon(content_type)))
    } else {
        None
    }
}

/// The view of an optional text.
pub open spec fn text_view(text: Option<&str>) -> Option<Seq<char>> {
    match text {
        Some(t) => Some(t@),
        None => None,
    }
}

/// The essence of an optional `Content-Type` value: none for a missing
/// header, none for one that does not parse.
pub open spec fn essence_of(content_type: Option<Seq<char>>) -> Option<Seq<char>> {
    match content_type {
        Some(value) => media_essence(value),
        None => None,
    }
}

/// Trusted: `<mime::Mime as FromStr>::from_str` followed by
/// `Mime::essence_str` on the parsed value. Which values parse is only named.
/// Of a value that parses the contract says what the source shows: the
/// parser lower-cases type and subtype and ends them at the first `;`, and
/// the essence is that part of the value.
#[verifier::external_body]
fn parse_essence(content_type: &str) -> (essence: Option<String>)
    ensures
        essence is Some <==> media_type_parses(content_type@),
        essence matches Some(e) ==> e@ == lowered(before_semicolon(content_type@)),
{
    match content_type.parse::<mime::Mime>() {
        Ok(media) => Some(media.essence_str().to_string()),
        Err(_) => None,
    }
}

/// Whether an `Upgrade` header value asks for a websocket: its ASCII
/// lower-case form contains `websocket`.
pub open spec fn wants_websocket(upgrade: Option<Seq<char>>) -> bool {
    match upgrade {
        Some(value) => contains(lowered(value), "websocket"@),
        None => false,
    }
}

/// The route of a `POST` by the essence of its content type. Essences are
/// compared without regard to ASCII case.
pub open spec fn media_route(essence: Option<Seq<char>>) -> Route {
    match essence {
        Some(e) => if eq_ignoring_case(e, "multipart/form-data"@) {
            Route::ExecuteMultipart
        } else if eq_ignoring_case(e, "application/json"@) {
            Route::ExecuteJson
        } else {
            Route::Reject(Status::UnsupportedMediaType)
        },
        None => Route::Reject(Status::UnsupportedMediaType),
    }
}

/// The routing decision, given the essence of the content type.
pub open spec fn route_by_essence(
    method: Method,
    upgrade: Option<Seq<char>>,
    essence: Option<Seq<char>>,
    subscriptions_enabled: bool,
    ui_enabled: bool,
) -> Route {
    if method == Method::Get && subscriptions_enabled && wants_websocket(upgrade) {
        Route::UpgradeToSubscription
    } else if method == Method::Get && ui_enabled {
        Route::ServeDocumentationPage
    } else if method == Method::Post {
        media_route(essence)
    } else {
        Route::Reject(Status::MethodNotAllowed)
    }
}

/// The routing decision, given the request's metadata.
pub open spec fn route_of(
    method: Method,
    upgrade: Option<Seq<char>>,
    content_type: Option<Seq<char>>,
    subscriptions_enabled: bool,
    ui_enabled: bool,
) -> Route {
    route_by_essence(method, upgrade, essence_of(content_type), subscriptions_enabled, ui_enabled)
}

/// The essence of a `Content-Type` header value: `None` where the header is
/// missing or does not parse as a media type.
pub fn content_type_essence(content_type: Option<&str>) -> (essence: Option<String>)
    ensures
        essence is Some <==> essence_of(text_view(content_type)) is Some,
        essence matches Some(e) ==> essence_of(text_view(content_type)) == Some(e@),
{
    match content_type {
        Some(value) => parse_essence(value),
        None => None,
    }
}

/// Routes a `POST` by the essence of its content type.
pub fn route_media(essence: Option<&str>) -> (route: Route)
    ensures
        route == media_route(text_view(essence)),
{
    match essence {
        Some(e) => {
            if eq_ignore_ascii_case(e, "multipart/form-data") {
                Route::ExecuteMultipart
            } else if eq_ignore_ascii_case(e, "application/json") {
                Route::ExecuteJson
            } else {
                Route::Reject(Status::UnsupportedMediaType)
            }
        },
        None => Route::Reject(Status::UnsupportedMediaType),
    }
}

/// Routes a request whose content-type essence is already known.
pub fn route_with_essence(
    method: Method,
    upgrade: Option<&str>,
    essence: Option<&str>,
    subscriptions_enabled: bool,
    ui_enabled: bool,
) -> (route: Route)
    ensures
        route == route_by_essence(
            method,
            text_view(upgrade),
            text_view(essence),
            subscriptions_enabled,
            ui_enabled,
        ),
{
    match method {
        Method::Get => {
            let upgrading = subscriptions_enabled && match upgrade {
                Some(value) => contains_ignore_ascii_case(value, "websocket"),
                None => false,
            };
            if upgrading {
                Route::UpgradeToSubscription
            } else if ui_enabled {
                Route::ServeDocumentationPage
            } else {
                Route::Reject(Status::MethodNotAllowed)
            }
        },
        Method::Post => route_media(essence),
        Method::Other => Route::Reject(Status::MethodNotAllowed),
    }
}

/// Picks the handling path of a request from its method, its `Upgrade` and
/// `Content-Type` header values and the handler's two flags. Nothing of the
/// body is read, and the content type is parsed for a `POST` only.
pub fn negotiate(
    method: Method,
    upgrade: Option<&str>,
    content_type: Option<&str>,
    subscriptions_enabled: bool,
    ui_enabled: bool,
) -> (route: Route)
    ensures
        route == route_of(
            method,
            text_view(upgrade),
            text_view(content_type),
            subscriptions_enabled,
            ui_enabled,
        ),
{
    match method {
        Method::Post => {
            let essence = content_type_essence(content_type);
            match essence {
                Some(e) => route_media(Some(e.as_str())),
                None => route_media(None),
            }
        },
        _ => route_with_essence(method, upgrade, None, subscriptions_enabled, ui_enabled),
    }
}


/// Routing is a function of the request's metadata alone: whenever the same
/// method, header values and flags are routed again, the decision is the
/// same.
pub proof fn routing_is_repeatable(
    method: Method,
    upgrade: Option<Seq<char>>,
    content_type: Option<Seq<char>>,
    subscriptions_enabled: bool,
    ui_enabled: bool,
    first: Route,
    second: Route,
)
    requires
        first == route_of(method, upgrade, content_type, subscriptions_enabled, ui_enabled),
        second == route_of(method, upgrade, content_type, subscriptions_enabled, ui_enabled),
    ensures
        first == second,
{
}

/// A `POST` is routed by its content type alone, whatever the flags and the
/// `Upgrade` header say. It is executed only where the essence of the
/// content type is one of the two supported ones, and is rejected with
/// status 415 in every other case: a missing header, one that does not
/// parse, another media type.
pub proof fn post_is_routed_by_media_type(
    upgrade: Option<Seq<char>>,
    content_type: Option<Seq<char>>,
    subscriptions_enabled: bool,
    ui_enabled: bool,
)
    ensures
        ({
            let route = route_of(
                Method::Post,
                upgrade,
                content_type,
                subscriptions_enabled,
                ui_enabled,
            );
            let essence = essence_of(content_type);
            &&& route == media_route(essence)
            &&& route == Route::ExecuteMultipart || route == Route::ExecuteJson || route
                == Route::Reject(Status::UnsupportedMediaType)
            &&& (essence is None ==> route == Route::Reject(Status::UnsupportedMediaType))
            &&& (essence matches Some(e) && !eq_ignoring_case(e, "multipart/form-data"@)
                && !eq_ignoring_case(e, "application/json"@) ==> route == Route::Reject(
                Status::UnsupportedMediaType,
            ))
        }),
        Status::UnsupportedMediaType.spec_code() == 415,
{
}

/// The parameters of a content type are ignored: a `POST` whose
/// `Content-Type` is a media type is routed by the text before the first
/// `;` alone, compared without regard to ASCII case. So two values that
/// agree up to the first `;` are routed alike, whatever boundary or charset
/// follows.
pub proof fn parameters_are_ignored(
    upgrade: Option<Seq<char>>,
    content_type: Seq<char>,
    other: Seq<char>,
    subscriptions_enabled: bool,
    ui_enabled: bool,
)
    requires
        media_type_parses(content_type),
    ensures
        ({
            let route = route_of(
                Method::Post,
                upgrade,
                Some(content_type),
                subscriptions_enabled,
                ui_enabled,
            );
            let named = before_semicolon(content_type);
            &&& eq_ignoring_case(named, "multipart/form-data"@) ==> route
                == Route::ExecuteMultipart
            &&& !eq_ignoring_case(named, "multipart/form-data"@) && eq_ignoring_case(
                named,
                "application/json"@,
            ) ==> route == Route::ExecuteJson
            &&& !eq_ignoring_case(named, "multipart/form-data"@) && !eq_ignoring_case(
                named,
                "application/json"@,
            ) ==> route == Route::Reject(Status::UnsupportedMediaType)
            &&& media_type_parses(other) && before_semicolon(other) == named ==> route_of(
                Method::Post,
                upgrade,
                Some(other),
                subscriptions_enabled,
                ui_enabled,
            ) == route
        }),
{
    lemma_lowered_twice(before_semicolon(content_type));
}

/// A `GET` is routed by the two flags and the `Upgrade` header alone. It is
/// upgraded exactly where subscriptions are on and the header asks for a
/// websocket, and is served the documentation page exactly where the page is
/// on and the request is not upgraded. No other method is upgraded or served
/// the page.
pub proof fn get_is_routed_by_flags_and_upgrade(
    method: Method,
    upgrade: Option<Seq<char>>,
    content_type: Option<Seq<char>>,
    subscriptions_enabled: bool,
    ui_enabled: bool,
)
    ensures
        ({
            let route = route_of(method, upgrade, content_type, subscriptions_enabled, ui_enabled);
            let upgrading = subscriptions_enabled && wants_websocket(upgrade);
            &&& route == Route::UpgradeToSubscription <==> method == Method::Get && upgrading
            &&& route == Route::ServeDocumentationPage <==> method == Method::Get && ui_enabled
                && !upgrading
            &&& route == Route::ExecuteJson || route == Route::ExecuteMultipart ==> method
                == Method::Post
        }),
{
}

/// A method other than `GET` and `POST` is rejected with status 405, and so
/// is a `GET` that neither upgrades nor is served the documentation page.
pub proof fn other_methods_are_not_allowed(
    upgrade: Option<Seq<char>>,
    content_type: Option<Seq<char>>,
    subscriptions_enabled: bool,
    ui_enabled: bool,
)
    ensures
        route_of(Method::Other, upgrade, content_type, subscriptions_enabled, ui_enabled)
            == Route::Reject(Status::MethodNotAllowed),
        !ui_enabled && !(subscriptions_enabled && wants_websocket(upgrade)) ==> route_of(
            Method::Get,
            upgrade,
            content_type,
            subscriptions_enabled,
            ui_enabled,
        ) == Route::Reject(Status::MethodNotAllowed),
        Status::MethodNotAllowed.spec_code() == 405,
{
}

} // verus!
