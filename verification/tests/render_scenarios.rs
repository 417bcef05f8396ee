use actix_error_core::render::{render_default, render_transformed};
use actix_error_core::response::{Response, ResponseBuilder};
use actix_error_core::schema::{build_error_schema, ErrorInstance, ErrorSchema, RawVariant, VariantShape};

fn raw(name: &str, status_ident: Option<&str>) -> RawVariant {
    RawVariant {
        name: name.to_owned(),
        shape: VariantShape::Unit,
        status_ident: status_ident.map(|s| s.to_owned()),
    }
}

fn test_error_schema() -> ErrorSchema {
    build_error_schema(
        vec![
            raw("Test", Some("BadRequest")),
            raw("Test2", Some("Unauthorized")),
            raw("Test3", None),
        ],
        vec![],
    )
    .unwrap()
}

fn inst(variant_index: usize, message: &str) -> ErrorInstance {
    ErrorInstance { variant_index, message: message.to_owned() }
}

#[test]
fn should_bad_request_and_test_on_get() {
    let schema = test_error_schema();
    let resp = render_default(&schema, &inst(0, "test"));
    assert_eq!(resp.status, 400);
    assert_eq!(resp.body, "test");
    assert!(resp.headers.is_empty());
}

#[test]
fn should_unauthorized_and_test2_on_post() {
    let schema = test_error_schema();
    let resp = render_default(&schema, &inst(1, "test2"));
    assert_eq!(resp.status, 401);
    assert_eq!(resp.body, "test2");
}

#[test]
fn default_is_internal_server_error() {
    let schema = test_error_schema();
    let resp = render_default(&schema, &inst(2, "test3"));
    assert_eq!(resp.status, 500);
    assert_eq!(resp.body, "test3");
}

#[test]
fn rendering_twice_is_byte_identical() {
    let schema = test_error_schema();
    let first = render_default(&schema, &inst(1, "test2"));
    let second = render_default(&schema, &inst(1, "test2"));
    assert_eq!(first.status, second.status);
    assert_eq!(first.headers, second.headers);
    assert_eq!(first.body, second.body);
}

fn transformer(mut builder: ResponseBuilder, fmt: String) -> Response {
    builder.append_header("format".to_owned(), fmt);
    builder.body("no".to_owned())
}

#[test]
fn should_return_fmt_as_headers() {
    let schema = build_error_schema(
        vec![raw("Test", None)],
        vec!["transformer = \"transformer\"".to_owned()],
    )
    .unwrap();
    let resp = render_transformed(&schema, &transformer, &inst(0, "test"));
    assert_eq!(resp.status, 500);
    assert_eq!(resp.headers, vec![("format".to_owned(), "test".to_owned())]);
    assert_eq!(resp.body, "no");
}

#[test]
fn transformer_runs_for_every_variant_whatever_the_tag() {
    let schema = build_error_schema(
        vec![raw("Test", Some("BadRequest")), raw("Test2", None)],
        vec!["transformer = \"transformer\"".to_owned()],
    )
    .unwrap();
    let tagged = render_transformed(&schema, &transformer, &inst(0, "test"));
    assert_eq!(tagged.status, 400);
    assert_eq!(tagged.headers, vec![("format".to_owned(), "test".to_owned())]);
    assert_eq!(tagged.body, "no");
    let untagged = render_transformed(&schema, &transformer, &inst(1, "test2"));
    assert_eq!(untagged.status, 500);
    assert_eq!(untagged.headers, vec![("format".to_owned(), "test2".to_owned())]);
    assert_eq!(untagged.body, "no");
}

#[test]
fn the_compiled_mapping_picks_the_configured_path() {
    let plain = test_error_schema();
    let no_transformer: Option<&fn(ResponseBuilder, String) -> Response> = None;
    let resp = actix_error_core::render::render(&plain, no_transformer, &inst(0, "test"));
    assert_eq!(resp.status, 400);
    assert_eq!(resp.body, "test");
    let with = build_error_schema(
        vec![raw("Test", None)],
        vec!["transformer = \"transformer\"".to_owned()],
    )
    .unwrap();
    let resp = actix_error_core::render::render(&with, Some(&transformer), &inst(0, "test"));
    assert_eq!(resp.status, 500);
    assert_eq!(resp.headers, vec![("format".to_owned(), "test".to_owned())]);
    assert_eq!(resp.body, "no");
}

#[test]
fn with_transformer_should_return_fmt_as_headers() {
    let schema = build_error_schema(
        vec![raw("Test", None)],
        vec!["transformer = \"transformer\"".to_owned()],
    )
    .unwrap();
    let resp = render_transformed(&schema, &transformer, &inst(0, "test"));
    assert_eq!(resp.status, 500);
    assert_eq!(resp.headers, vec![("format".to_owned(), "test".to_owned())]);
    assert_eq!(resp.body, "no");
}

#[test]
fn every_payload_shape_is_mapped() {
    let schema = build_error_schema(
        vec![
            RawVariant {
                name: "Unit".to_owned(),
                shape: VariantShape::Unit,
                status_ident: Some("BadRequest".to_owned()),
            },
            RawVariant {
                name: "Wrapped".to_owned(),
                shape: VariantShape::Tuple(1),
                status_ident: Some("Unauthorized".to_owned()),
            },
            RawVariant {
                name: "Fields".to_owned(),
                shape: VariantShape::Named(2),
                status_ident: None,
            },
        ],
        vec![],
    )
    .unwrap();
    assert_eq!(render_default(&schema, &inst(0, "unit")).status, 400);
    assert_eq!(render_default(&schema, &inst(1, "wrapped")).status, 401);
    assert_eq!(render_default(&schema, &inst(2, "fields")).status, 500);
}
