use async_graphql_actix_web::decoder::{Disposition, FieldHeader};
use async_graphql_actix_web::decoder_model::Limits;
use async_graphql_actix_web::error::{LeadingPart, RequestError};
use async_graphql_actix_web::handler::{Handler, HandlerBuilder};
use async_graphql_actix_web::negotiate::{Method, Route};
use async_graphql_actix_web::status::Status;
use async_graphql_actix_web::{DEFAULT_MAX_FILE_COUNT, DEFAULT_MAX_FILE_SIZE};

type Hook = fn(u32) -> u32;

fn builder() -> HandlerBuilder<&'static str, Hook> {
    HandlerBuilder::new("schema")
}

fn double(n: u32) -> u32 {
    n * 2
}

#[test]
fn defaults_are_two_mebibytes_and_nine_files() {
    assert_eq!(DEFAULT_MAX_FILE_SIZE, 2 * 1024 * 1024);
    assert_eq!(DEFAULT_MAX_FILE_COUNT, 9);
    let handler = builder().build();
    assert_eq!(handler.limits(), Limits { max_file_size: 2097152, max_file_count: 9 });
    assert_eq!(*handler.schema(), "schema");
    assert!(handler.on_request().is_none());
    assert_eq!(handler.documentation_page(), None);
}

#[test]
fn a_default_handler_takes_posts_only() {
    let handler = builder().build();
    assert_eq!(
        handler.route(Method::Get, Some("websocket"), None),
        Route::Reject(Status::MethodNotAllowed)
    );
    assert_eq!(handler.route(Method::Get, None, None), Route::Reject(Status::MethodNotAllowed));
    assert_eq!(handler.route(Method::Post, None, Some("application/json")), Route::ExecuteJson);
    assert_eq!(
        handler.route(Method::Post, None, Some("multipart/form-data; boundary=b")),
        Route::ExecuteMultipart
    );
    assert_eq!(
        handler.route(Method::Post, None, Some("text/plain")),
        Route::Reject(Status::UnsupportedMediaType)
    );
}

#[test]
fn limits_can_be_set() {
    let handler = builder().max_file_size(10).max_files(2).build();
    assert_eq!(handler.limits(), Limits { max_file_size: 10, max_file_count: 2 });
    let handler = builder().max_files(0).max_file_size(1).max_file_size(7).build();
    assert_eq!(handler.limits(), Limits { max_file_size: 7, max_file_count: 0 });
}

#[test]
fn subscriptions_can_be_turned_on() {
    let handler = builder().enable_subscription().build();
    assert_eq!(
        handler.route(Method::Get, Some("WebSocket"), None),
        Route::UpgradeToSubscription
    );
    assert_eq!(handler.route(Method::Get, None, None), Route::Reject(Status::MethodNotAllowed));
}

#[test]
fn the_documentation_page_can_be_turned_on() {
    let handler = builder().enable_ui("/graphql", None).build();
    assert_eq!(handler.route(Method::Get, None, None), Route::ServeDocumentationPage);
    assert_eq!(
        handler.route(Method::Get, Some("websocket"), None),
        Route::ServeDocumentationPage
    );
    let page = handler.documentation_page().expect("the page is on");
    assert_eq!(page, async_graphql::http::playground_source("/graphql", None));
    assert!(page.contains("endpoint: '/graphql'"));
    assert!(page.contains("subscriptionEndpoint: null"));
    assert!(page.len() > "/graphql".len());
}

#[test]
fn the_documentation_page_names_the_subscription_endpoint() {
    let handler = builder().enable_subscription().enable_ui("/api", Some("/ws")).build();
    assert_eq!(
        handler.route(Method::Get, Some("websocket"), None),
        Route::UpgradeToSubscription
    );
    assert_eq!(handler.route(Method::Get, None, None), Route::ServeDocumentationPage);
    let page = handler.documentation_page().expect("the page is on");
    assert!(page.contains("endpoint: '/api'"));
    assert!(page.contains("subscriptionEndpoint: '/ws'"));
}

#[test]
fn the_hook_is_kept_as_given() {
    let handler: Handler<&'static str, Hook> = builder().on_request(double).max_files(1).build();
    let hook = handler.on_request().expect("a hook was set");
    assert_eq!(hook(21), 42);
    assert_eq!(handler.limits().max_file_count, 1);
}

#[test]
fn the_decoder_of_a_handler_has_its_limits() {
    let handler = builder().max_file_size(3).max_files(1).build();
    let decoder = handler.decoder();
    assert_eq!(decoder.limits(), Limits { max_file_size: 3, max_file_count: 1 });
    let header = FieldHeader {
        disposition: Some(Disposition { name: Some("map".to_string()), filename: None }),
        content_type: "application/json".to_string(),
    };
    match decoder.begin_field(&header) {
        Ok(_) => panic!("the part was accepted"),
        Err(error) => assert_eq!(error, RequestError::ExpectedField(LeadingPart::Operations)),
    }
}
