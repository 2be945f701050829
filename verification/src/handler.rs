use vstd::prelude::*;
use crate::decoder::Decoder;
use crate::decoder_model::{start, Limits};
use crate::negotiate::{negotiate, route_of, text_view, Method, Route};

verus! {

/// The two endpoints that the documentation page talks to.
pub struct Endpoints {
    /// Where the page sends its operations.
    pub endpoint: String,
    /// Where the page opens its subscriptions, if anywhere.
    pub subscription_endpoint: Option<String>,
}

/// [`Endpoints`] as plain values.
pub ghost struct EndpointsView {
    pub endpoint: Seq<char>,
    pub subscription_endpoint: Option<Seq<char>>,
}

impl View for Endpoints {
    type V = EndpointsView;

    open spec fn view(&self) -> EndpointsView {
        EndpointsView {
            endpoint: self.endpoint@,
            subscription_endpoint: match self.subscription_endpoint {
                Some(url) => Some(url@),
                None => None,
            },
        }
    }
}

/// The configuration of a handler: the schema and the hook as they were
/// given, and the settings as plain values.
pub ghost struct Settings<S, H> {
    pub schema: S,
    pub limits: Limits,
    pub subscriptions: bool,
    pub ui: Option<EndpointsView>,
    pub on_request: Option<H>,
}

/// The view of optional endpoints.
pub open spec fn endpoints_view(ui: Option<Endpoints>) -> Option<EndpointsView> {
    match ui {
        Some(endpoints) => Some(endpoints@),
        None => None,
    }
}

/// The documentation page that `async-graphql` generates for the two
/// endpoints.
pub uninterp spec fn playground_page(
    endpoint: Seq<char>,
    subscription_endpoint: Option<Seq<char>>,
) -> Seq<char>;

/// Trusted: `async_graphql::http::playground_source`. The page is a fixed
/// text with the two endpoints put in, so the contract only names it: the
/// same endpoints always give the same page.
#[verifier::external_body]
fn render_playground(endpoint: &str, subscription_endpoint: Option<&str>) -> (page: String)
    ensures
        page@ == playground_page(endpoint@, text_view(subscription_endpoint)),
{
    async_graphql::http::playground_source(endpoint, subscription_endpoint)
}

/// Builds a handler: holds the schema that operations run against, and the
/// settings of the handler while they are made. `S` is the schema, `H` the
/// customization hook; this library carries both and never calls them.
pub struct HandlerBuilder<S, H> {
    schema: S,
    max_file_size: usize,
    max_file_count: usize,
    enable_subscription: bool,
    enable_ui: Option<Endpoints>,
    on_request: Option<H>,
}

/// A configured handler. Its settings do not change any more.
pub struct Handler<S, H> {
    schema: S,
    limits: Limits,
    enable_subscription: bool,
    enable_ui: Option<Endpoints>,
    on_request: Option<H>,
}

impl<S, H> View for HandlerBuilder<S, H> {
    type V = Settings<S, H>;

    closed spec fn view(&self) -> Settings<S, H> {
        Settings {
            schema: self.schema,
            limits: Limits {
                max_file_size: self.max_file_size,
                max_file_count: self.max_file_count,
            },
            subscriptions: self.enable_subscription,
            ui: endpoints_view(self.enable_ui),
            on_request: self.on_request,
        }
    }
}

impl<S, H> View for Handler<S, H> {
    type V = Settings<S, H>;

    closed spec fn view(&self) -> Settings<S, H> {
        Settings {
            schema: self.schema,
            limits: self.limits,
            subscriptions: self.enable_subscription,
            ui: endpoints_view(self.enable_ui),
            on_request: self.on_request,
        }
    }
}

impl<S, H> HandlerBuilder<S, H> {
    /// A builder for a handler on `schema`: files of up to two mebibytes, up
    /// to nine of them, no subscriptions, no documentation page, no hook.
    pub fn new(schema: S) -> (builder: Self)
        ensures
            builder@ == (Settings::<S, H> {
                schema,
                limits: Limits { max_file_size: 2097152, max_file_count: 9 },
                subscriptions: false,
                ui: None,
                on_request: None,
            }),
    {
        HandlerBuilder {
            schema,
            max_file_size: crate::DEFAULT_MAX_FILE_SIZE,
            max_file_count: crate::DEFAULT_MAX_FILE_COUNT,
            enable_subscription: false,
            enable_ui: None,
            on_request: None,
        }
    }

    /// Sets the largest size of an uploaded file, in bytes.
    pub fn max_file_size(self, size: usize) -> (builder: Self)
        ensures
            builder@ == (Settings {
                limits: Limits { max_file_size: size, ..self@.limits },
                ..self@
            }),
    {
        HandlerBuilder {
            schema: self.schema,
            max_file_size: size,
            max_file_count: self.max_file_count,
            enable_subscription: self.enable_subscription,
            enable_ui: self.enable_ui,
            on_request: self.on_request,
        }
    }

    /// Sets the largest number of uploaded files in one request.
    pub fn max_files(self, count: usize) -> (builder: Self)
        ensures
            builder@ == (Settings {
                limits: Limits { max_file_count: count, ..self@.limits },
                ..self@
            }),
    {
        HandlerBuilder {
            schema: self.schema,
            max_file_size: self.max_file_size,
            max_file_count: count,
            enable_subscription: self.enable_subscription,
            enable_ui: self.enable_ui,
            on_request: self.on_request,
        }
    }

    /// Turns the documentation page on. `endpoint` is where the page sends
    /// its operations, `subscription_endpoint` where it opens subscriptions.
    pub fn enable_ui(self, endpoint: &str, subscription_endpoint: Option<&str>) -> (builder: Self)
        ensures
            builder@ == (Settings {
                ui: Some(
                    EndpointsView {
                        endpoint: endpoint@,
                        subscription_endpoint: text_view(subscription_endpoint),
                    },
                ),
                ..self@
            }),
    {
        let endpoints = Endpoints {
            endpoint: endpoint.to_string(),
            subscription_endpoint: match subscription_endpoint {
                Some(url) => Some(url.to_string()),
                None => None,
            },
        };
        HandlerBuilder {
            schema: self.schema,
            max_file_size: self.max_file_size,
            max_file_count: self.max_file_count,
            enable_subscription: self.enable_subscription,
            enable_ui: Some(endpoints),
            on_request: self.on_request,
        }
    }

    /// Turns subscriptions on.
    pub fn enable_subscription(self) -> (builder: Self)
        ensures
            builder@ == (Settings { subscriptions: true, ..self@ }),
    {
        HandlerBuilder {
            schema: self.schema,
            max_file_size: self.max_file_size,
            max_file_count: self.max_file_count,
            enable_subscription: true,
            enable_ui: self.enable_ui,
            on_request: self.on_request,
        }
    }

    /// Sets the hook that is applied to every operation before it is
    /// executed, in place of an earlier one.
    pub fn on_request(self, f: H) -> (builder: Self)
        ensures
            builder@ == (Settings { on_request: Some(f), ..self@ }),
    {
        HandlerBuilder {
            schema: self.schema,
            max_file_size: self.max_file_size,
            max_file_count: self.max_file_count,
            enable_subscription: self.enable_subscription,
            enable_ui: self.enable_ui,
            on_request: Some(f),
        }
    }

    /// Makes the handler, with the settings as they stand.
    pub fn build(self) -> (handler: Handler<S, H>)
        ensures
            handler@ == self@,
    {
        Handler {
            schema: self.schema,
            limits: Limits {
                max_file_size: self.max_file_size,
                max_file_count: self.max_file_count,
            },
            enable_subscription: self.enable_subscription,
            enable_ui: self.enable_ui,
            on_request: self.on_request,
        }
    }
}

impl<S, H> Handler<S, H> {
    /// The schema that operations run against.
    pub fn schema(&self) -> (schema: &S)
        ensures
            *schema == self@.schema,
    {
        &self.schema
    }

    /// The customization hook, if one was set.
    pub fn on_request(&self) -> (hook: Option<&H>)
        ensures
            match hook {
                Some(f) => self@.on_request == Some(*f),
                None => self@.on_request is None,
            },
    {
        match &self.on_request {
            Some(f) => Some(f),
            None => None,
        }
    }

    /// The limits on uploads.
    pub fn limits(&self) -> (limits: Limits)
        ensures
            limits == self@.limits,
    {
        self.limits
    }

    /// Picks the handling path of a request from its method and its
    /// `Upgrade` and `Content-Type` header values, under the handler's
    /// settings.
    pub fn route(&self, method: Method, upgrade: Option<&str>, content_type: Option<&str>) -> (route:
        Route)
        ensures
            route == route_of(
                method,
                text_view(upgrade),
                text_view(content_type),
                self@.subscriptions,
                self@.ui is Some,
            ),
    {
        negotiate(
            method,
            upgrade,
            content_type,
            self.enable_subscription,
            self.enable_ui.is_some(),
        )
    }

    /// The documentation page for the configured endpoints; `None` where the
    /// page is not turned on.
    pub fn documentation_page(&self) -> (page: Option<String>)
        ensures
            match self@.ui {
                Some(ui) => page matches Some(html) && html@ == playground_page(
                    ui.endpoint,
                    ui.subscription_endpoint,
                ),
                None => page is None,
            },
    {
        match &self.enable_ui {
            Some(endpoints) => {
                let subscription_endpoint = match &endpoints.subscription_endpoint {
                    Some(url) => Some(url.as_str()),
                    None => None,
                };
                Some(render_playground(endpoints.endpoint.as_str(), subscription_endpoint))
            },
            None => None,
        }
    }

    /// A decoder for the multipart body of one request, under the handler's
    /// limits.
    pub fn decoder(&self) -> (decoder: Decoder)
        ensures
            decoder@ == start(self@.limits),
    {
        Decoder::new(self.limits)
    }
}

} // verus!
