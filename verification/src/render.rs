//! The error-response compiler: the total `error -> response` mapping an
//! [`ErrorSchema`] compiles to.
//!
//! For each variant the status is the variant's tag, or the server-fault
//! default when the variant carries none.  Without a transformer the body
//! is the instance's display string and no headers are set.  With a
//! transformer, the response is exactly whatever the transformer returns
//! for the variant's status builder and display string: the default body
//! and status logic contributes nothing.

use vstd::prelude::*;
use crate::response::{Response, ResponseBuilder, ResponseView, response_builder_at};
use crate::schema::{ErrorInstance, ErrorInstanceView, ErrorSchema, ErrorSchemaView, ErrorVariantView};
use crate::status::DEFAULT_STATUS;

verus! {

/// The status a variant is rendered at: its tag, or the default.
pub open spec fn spec_variant_status(v: ErrorVariantView) -> u16 {
    match v.status {
        Some(code) => code,
        None => DEFAULT_STATUS,
    }
}

/// The bare builder the mapping starts from for an instance of the given
/// variant.
pub open spec fn spec_builder_at(status: u16) -> ResponseView {
    ResponseView { status, headers: Seq::empty(), body: Seq::empty() }
}

/// The response the default (no-transformer) mapping produces: the
/// variant's status, no headers, and the display string as the body.
pub open spec fn spec_render_default(schema: ErrorSchemaView, inst: ErrorInstanceView) -> ResponseView {
    ResponseView {
        status: spec_variant_status(schema.variants[inst.variant_index]),
        headers: Seq::empty(),
        body: inst.message,
    }
}

/// Holds when `r` is a response the configured transformer returned for
/// the instance's variant: the transformer was handed the variant's
/// status builder and the instance's display string, and `r` is its
/// return value, taken verbatim.
pub open spec fn spec_transformed<F: Fn(ResponseBuilder, String) -> Response>(
    f: &F,
    schema: ErrorSchemaView,
    inst: ErrorInstanceView,
    r: Response,
) -> bool {
    exists|b: ResponseBuilder, m: String|
        #[trigger] call_ensures(*f, (b, m), r) && b@ =~~= spec_builder_at(
            spec_variant_status(schema.variants[inst.variant_index]),
        ) && m@ == inst.message
}

/// The default mapping: compiled for a schema without a transformer.
pub fn render_default(schema: &ErrorSchema, inst: &ErrorInstance) -> (r: Response)
    requires
        schema.transformer is None,
        inst.variant_index < schema.variants.len(),
    ensures
        r@ =~~= spec_render_default(schema@, inst@),
{
    let v = &schema.variants[inst.variant_index];
    proof {
        assert(schema@.variants[inst.variant_index as int] == v@);
    }
    let status: u16 = match v.status {
        Some(code) => code,
        None => DEFAULT_STATUS,
    };
    let builder = response_builder_at(status);
    builder.body(inst.message.clone())
}

/// The transformed mapping: compiled for a schema with a transformer.
/// The transformer must accept every builder and display string; the
/// response is its return value, verbatim.
pub fn render_transformed<F: Fn(ResponseBuilder, String) -> Response>(
    schema: &ErrorSchema,
    transformer: &F,
    inst: &ErrorInstance,
) -> (r: Response)
    requires
        schema.transformer is Some,
        inst.variant_index < schema.variants.len(),
        forall|b: ResponseBuilder, m: String| call_requires(*transformer, (b, m)),
    ensures
        spec_transformed(transformer, schema@, inst@, r),
{
    let v = &schema.variants[inst.variant_index];
    proof {
        assert(schema@.variants[inst.variant_index as int] == v@);
    }
    let status: u16 = match v.status {
        Some(code) => code,
        None => DEFAULT_STATUS,
    };
    let builder = response_builder_at(status);
    let ghost b = builder;
    let message = inst.message.clone();
    let ghost m = message;
    let r = transformer(builder, message);
    proof {
        assert(call_ensures(*transformer, (b, m), r));
    }
    r
}

/// The injected transformer agrees with the schema: one is at hand
/// exactly when the schema configures one, and it accepts every builder
/// and display string.
pub open spec fn transformer_consistent<F: Fn(ResponseBuilder, String) -> Response>(
    schema: ErrorSchemaView,
    transformer: Option<&F>,
) -> bool {
    &&& (transformer is Some <==> schema.transformer is Some)
    &&& (transformer matches Some(f) ==> forall|b: ResponseBuilder, m: String|
        call_requires(*f, (b, m)))
}

/// Holds when `r` is the response the schema's compiled mapping yields
/// for the error value `e`: the default rendering without a transformer,
/// the transformer's verbatim return value with one.
pub open spec fn maps_error_to<F: Fn(ResponseBuilder, String) -> Response>(
    schema: ErrorSchemaView,
    transformer: Option<&F>,
    e: ErrorInstance,
    r: Response,
) -> bool {
    match transformer {
        None => r@ =~~= spec_render_default(schema, e@),
        Some(f) => spec_transformed(f, schema, e@, r),
    }
}

/// The total mapping a schema compiles to, with the configured
/// transformer injected: every error value of the taxonomy gets exactly
/// one response.
pub fn render<F: Fn(ResponseBuilder, String) -> Response>(
    schema: &ErrorSchema,
    transformer: Option<&F>,
    e: &ErrorInstance,
) -> (r: Response)
    requires
        transformer_consistent(schema@, transformer),
        e.variant_index < schema@.variants.len(),
    ensures
        maps_error_to(schema@, transformer, *e, r),
{
    match transformer {
        Some(f) => render_transformed(schema, f, e),
        None => render_default(schema, e),
    }
}

/// Law: the default mapping is exhaustive and pure.  Every variant of
/// the schema — whatever its payload shape, tagged or not — is mapped to
/// a response with a deterministic status, and rendering the same
/// instance twice yields the identical response.
pub proof fn lemma_render_exhaustive_and_pure(
    schema: ErrorSchemaView,
    inst: ErrorInstanceView,
    r1: ResponseView,
    r2: ResponseView,
)
    requires
        0 <= inst.variant_index < schema.variants.len(),
        r1 =~~= spec_render_default(schema, inst),
        r2 =~~= spec_render_default(schema, inst),
    ensures
        r1.status == spec_variant_status(schema.variants[inst.variant_index]),
        r1 =~~= r2,
{
}

/// Law: a variant without a status tag is rendered at the fixed
/// server-fault default status.
pub proof fn lemma_default_status(schema: ErrorSchemaView, inst: ErrorInstanceView)
    requires
        0 <= inst.variant_index < schema.variants.len(),
        schema.variants[inst.variant_index].status is None,
    ensures
        spec_render_default(schema, inst).status == DEFAULT_STATUS,
{
}

/// Law: when a transformer is configured, the mapping is total over the
/// variants and the response is exactly the transformer's return value.
/// For a transformer whose input-output relation is pinned by `tf`, any
/// rendered response equals `tf` applied to the variant's status builder
/// and the instance's display string — the default body and status logic
/// never contributes.
pub proof fn lemma_transformer_totality<F: Fn(ResponseBuilder, String) -> Response>(
    f: &F,
    tf: spec_fn(ResponseView, Seq<char>) -> ResponseView,
    schema: ErrorSchemaView,
    inst: ErrorInstanceView,
    r: Response,
)
    requires
        0 <= inst.variant_index < schema.variants.len(),
        forall|b: ResponseBuilder, m: String, out: Response|
            #[trigger] call_ensures(*f, (b, m), out) ==> out@ =~~= tf(b@, m@),
        spec_transformed(f, schema, inst, r),
    ensures
        r@ =~~= tf(
            spec_builder_at(spec_variant_status(schema.variants[inst.variant_index])),
            inst.message,
        ),
{
    let (b, m) = choose|b: ResponseBuilder, m: String|
        #[trigger] call_ensures(*f, (b, m), r) && b@ =~~= spec_builder_at(
            spec_variant_status(schema.variants[inst.variant_index]),
        ) && m@ == inst.message;
    assert(r@ =~~= tf(b@, m@));
}

} // verus!
