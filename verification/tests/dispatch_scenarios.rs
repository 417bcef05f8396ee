use actix_error_core::dispatch::{
    collect_params, dispatch_init, dispatch_step, finish_handler, run_route, DispatchEvent,
    DispatchState, ExtractOutcome,
};
use actix_error_core::response::{Response, ResponseBuilder};
use actix_error_core::schema::{
    build_error_schema, build_route_schema, ErrorInstance, ErrorSchema, Parameter, RawVariant,
    RouteArg, RouteSchema, VariantShape,
};

type NoTransformer<'a> = Option<&'a fn(ResponseBuilder, String) -> Response>;

fn collect_error_schema() -> ErrorSchema {
    build_error_schema(
        vec![RawVariant {
            name: "Collect".to_owned(),
            shape: VariantShape::Unit,
            status_ident: Some("ImATeapot".to_owned()),
        }],
        vec![],
    )
    .unwrap()
}

fn param(binding_name: &str, override_error: Option<ErrorInstance>) -> Parameter {
    Parameter {
        binding_name: binding_name.to_owned(),
        type_descriptor: "Json<User>".to_owned(),
        override_error,
    }
}

/// The response the extraction collaborator maps its own failure to.
fn generic_extraction_failure() -> Response {
    Response { status: 400, headers: vec![], body: "invalid json".to_owned() }
}

#[test]
fn should_override_to_im_a_teapot() {
    let schema = collect_error_schema();
    let over = ErrorInstance { variant_index: 0, message: "test_collect".to_owned() };
    let params = vec![param("user", Some(over))];
    let outcomes: Vec<ExtractOutcome<String>> =
        vec![ExtractOutcome::Failed(generic_extraction_failure())];
    let resp = collect_params(&schema, None as NoTransformer, &params, outcomes).unwrap_err();
    assert_eq!(resp.status, 418);
    assert_eq!(resp.body, "test_collect");
}

#[test]
fn should_not_override() {
    let schema = collect_error_schema();
    let params = vec![param("user", None)];
    let outcomes: Vec<ExtractOutcome<String>> =
        vec![ExtractOutcome::Failed(generic_extraction_failure())];
    let resp = collect_params(&schema, None as NoTransformer, &params, outcomes).unwrap_err();
    assert_eq!(resp.status, 400);
    assert_eq!(resp.body, "invalid json");
}

#[test]
fn extraction_binds_values_in_declaration_order() {
    let schema = collect_error_schema();
    let params = vec![param("a", None), param("b", None), param("c", None)];
    let outcomes: Vec<ExtractOutcome<String>> = vec![
        ExtractOutcome::Extracted("first".to_owned()),
        ExtractOutcome::Extracted("second".to_owned()),
        ExtractOutcome::Extracted("third".to_owned()),
    ];
    let vals = collect_params(&schema, None as NoTransformer, &params, outcomes).unwrap();
    assert_eq!(vals, vec!["first".to_owned(), "second".to_owned(), "third".to_owned()]);
}

#[test]
fn first_failure_decides_whatever_comes_later() {
    let schema = collect_error_schema();
    let params = vec![param("a", None), param("b", None), param("c", None)];
    let later_irrelevant: Vec<Vec<ExtractOutcome<String>>> = vec![
        vec![
            ExtractOutcome::Extracted("first".to_owned()),
            ExtractOutcome::Failed(generic_extraction_failure()),
            ExtractOutcome::Extracted("third".to_owned()),
        ],
        vec![
            ExtractOutcome::Extracted("first".to_owned()),
            ExtractOutcome::Failed(generic_extraction_failure()),
            ExtractOutcome::Failed(Response {
                status: 500,
                headers: vec![],
                body: "never reached".to_owned(),
            }),
        ],
    ];
    for outcomes in later_irrelevant {
        let resp = collect_params(&schema, None as NoTransformer, &params, outcomes).unwrap_err();
        assert_eq!(resp.status, 400);
        assert_eq!(resp.body, "invalid json");
    }
}

#[test]
fn pipeline_completes_at_the_first_failure_and_consumes_nothing_more() {
    let schema = collect_error_schema();
    let params = vec![param("a", None), param("b", None), param("c", None)];
    let state: DispatchState<String> = dispatch_init(&params);
    let state = dispatch_step(
        &schema,
        None as NoTransformer,
        &params,
        state,
        DispatchEvent::Extraction(ExtractOutcome::Extracted("first".to_owned())),
    );
    assert!(matches!(state, DispatchState::Extracting { next: 1, .. }));
    let state = dispatch_step(
        &schema,
        None as NoTransformer,
        &params,
        state,
        DispatchEvent::Extraction(ExtractOutcome::Failed(generic_extraction_failure())),
    );
    match state {
        DispatchState::Complete { response } => {
            assert_eq!(response.status, 400);
            assert_eq!(response.body, "invalid json");
        },
        _ => panic!("the pipeline must be complete after a failed extraction"),
    }
}

fn teapot_route() -> RouteSchema {
    build_route_schema(
        "post",
        vec![RouteArg::PathLiteral("/".to_owned())],
        vec![param("user", None)],
    )
    .unwrap()
}

#[test]
fn run_route_returns_the_success_payload_unmodified() {
    let schema = collect_error_schema();
    let route = teapot_route();
    let handler = |vals: Vec<String>| -> Result<Response, ErrorInstance> {
        assert_eq!(vals, vec!["body".to_owned()]);
        Ok(Response { status: 204, headers: vec![], body: String::new() })
    };
    let outcomes = vec![ExtractOutcome::Extracted("body".to_owned())];
    let resp = run_route(&schema, None as NoTransformer, &route, &handler, outcomes);
    assert_eq!(resp.status, 204);
    assert_eq!(resp.body, "");
}

#[test]
fn run_route_maps_a_domain_error_through_the_schema() {
    let schema = collect_error_schema();
    let route = teapot_route();
    let handler = |_vals: Vec<String>| -> Result<Response, ErrorInstance> {
        Err(ErrorInstance { variant_index: 0, message: "test_collect".to_owned() })
    };
    let outcomes = vec![ExtractOutcome::Extracted("body".to_owned())];
    let resp = run_route(&schema, None as NoTransformer, &route, &handler, outcomes);
    assert_eq!(resp.status, 418);
    assert_eq!(resp.body, "test_collect");
}

#[test]
fn handler_result_mapping_keeps_success_and_renders_errors() {
    let schema = collect_error_schema();
    let ok = Response { status: 200, headers: vec![], body: "payload".to_owned() };
    let kept = finish_handler(&schema, None as NoTransformer, Ok(ok));
    assert_eq!(kept.status, 200);
    assert_eq!(kept.body, "payload");
    let rendered = finish_handler(
        &schema,
        None as NoTransformer,
        Err(ErrorInstance { variant_index: 0, message: "test_collect".to_owned() }),
    );
    assert_eq!(rendered.status, 418);
    assert_eq!(rendered.body, "test_collect");
}

#[test]
fn a_route_without_parameters_starts_at_the_handler() {
    let params: Vec<Parameter> = vec![];
    let state: DispatchState<String> = dispatch_init(&params);
    assert!(matches!(state, DispatchState::Invoking { .. }));
    let schema = collect_error_schema();
    let state = dispatch_step(
        &schema,
        None as NoTransformer,
        &params,
        state,
        DispatchEvent::HandlerReturned(Ok(Response {
            status: 204,
            headers: vec![],
            body: String::new(),
        })),
    );
    match state {
        DispatchState::Complete { response } => assert_eq!(response.status, 204),
        _ => panic!("the handler's result must complete the pipeline"),
    }
}

#[test]
fn handler_is_isolated_under_the_internal_identifier() {
    assert_eq!(
        actix_error_core::dispatch::internal_handler_name("some_route"),
        "__proof_route_some_route"
    );
}
