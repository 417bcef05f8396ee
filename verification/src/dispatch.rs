//! The route-wrapper compiler: the dispatch pipeline a [`RouteSchema`]
//! compiles to.
//!
//! The pipeline is a strict linear sequence: extract each parameter in
//! declaration order, invoke the business handler with the bound values,
//! map its result through the error schema's compiled mapping.  Any
//! extraction failure completes the pipeline at once — with the
//! parameter's override error rendered through the schema's mapping if
//! one is declared, and with the extraction failure's own response
//! otherwise — and no later extraction is ever attempted.
//!
//! The extraction and handler work itself happens in the host runtime;
//! here it appears as the outcomes it hands back.  [`dispatch_step`] is
//! the per-event decision function a driver loop feeds; [`collect_params`]
//! and [`run_route`] run the same pipeline over outcomes already at hand.

use vstd::prelude::*;
use vstd::string::StringExecFns;
use crate::render::{maps_error_to, render, transformer_consistent};
use crate::response::{Response, ResponseBuilder};
use crate::schema::{ErrorInstance, ErrorSchema, ErrorSchemaView, Parameter, RouteSchema};
use crate::HttpResult;

verus! {

/// What one extraction attempt came to.  On failure the extraction
/// collaborator has already mapped its own error through that error's
/// `-> response` mapping; the pipeline uses that response only for
/// parameters without an override.
pub enum ExtractOutcome<V> {
    Extracted(V),
    Failed(Response),
}

/// Every parameter's extraction succeeded.
pub open spec fn no_failure<V>(outcomes: Seq<ExtractOutcome<V>>) -> bool {
    forall|j: int| 0 <= j < outcomes.len() ==> !((#[trigger] outcomes[j]) is Failed)
}

/// Extraction fails first at parameter `i`: everything before it
/// succeeded.
pub open spec fn is_first_failure<V>(outcomes: Seq<ExtractOutcome<V>>, i: int) -> bool {
    &&& 0 <= i < outcomes.len()
    &&& outcomes[i] is Failed
    &&& forall|j: int| 0 <= j < i ==> !((#[trigger] outcomes[j]) is Failed)
}

/// The extracted values, in declaration order.
pub open spec fn extracted_values<V>(outcomes: Seq<ExtractOutcome<V>>) -> Seq<V> {
    Seq::new(outcomes.len(), |i: int| outcomes[i]->Extracted_0)
}

/// Whenever any extraction failed, some parameter failed first: together
/// with [`collect_params`]'s contract this pins the error response of
/// every failing run.
pub proof fn lemma_first_failure_exists<V>(outcomes: Seq<ExtractOutcome<V>>)
    requires
        !no_failure(outcomes),
    ensures
        exists|i: int| is_first_failure(outcomes, i),
    decreases outcomes.len(),
{
    let k = choose|k: int| 0 <= k < outcomes.len() && (#[trigger] outcomes[k]) is Failed;
    if outcomes[0] is Failed {
        assert(is_first_failure(outcomes, 0));
    } else {
        let rest = outcomes.skip(1);
        assert(rest[k - 1] == outcomes[k]);
        assert(!no_failure(rest));
        lemma_first_failure_exists(rest);
        let i = choose|i: int| is_first_failure(rest, i);
        assert(outcomes[i + 1] == rest[i]);
        assert forall|j: int| 0 <= j < i + 1 implies !((#[trigger] outcomes[j]) is Failed) by {
            if j > 0 {
                assert(rest[j - 1] == outcomes[j]);
                assert(!(rest[j - 1] is Failed));
            }
        }
        assert(is_first_failure(outcomes, i + 1));
    }
}

/// Every declared override names a variant of the error schema.
pub open spec fn overrides_wf(params: Seq<Parameter>, schema: ErrorSchemaView) -> bool {
    forall|i: int|
        0 <= i < params.len() ==> ((#[trigger] params[i]).override_error matches Some(e)
            ==> e.variant_index < schema.variants.len())
}

/// The internal identifier the business handler is isolated under: the
/// registered entry point keeps the declared name, with an independent
/// signature that takes only the raw request context.
pub fn internal_handler_name(name: &str) -> (r: String)
    ensures
        r@ == "__proof_route_"@ + name@,
{
    let prefix: String = "__proof_route_".to_owned();
    prefix.concat(name)
}

/// Runs the ordered, short-circuiting extraction stage over the
/// collaborator's outcomes: all values bound in declaration order on
/// success, and otherwise the response the first failing parameter's
/// policy picks — its override rendered through the schema's mapping,
/// or the failure's own response when no override is declared.
pub fn collect_params<V, F: Fn(ResponseBuilder, String) -> Response>(
    schema: &ErrorSchema,
    transformer: Option<&F>,
    params: &Vec<Parameter>,
    outcomes: Vec<ExtractOutcome<V>>,
) -> (r: Result<Vec<V>, Response>)
    requires
        params@.len() == outcomes@.len(),
        overrides_wf(params@, schema@),
        transformer_consistent(schema@, transformer),
    ensures
        r is Ok <==> no_failure(outcomes@),
        r matches Ok(vals) ==> vals@ =~~= extracted_values(outcomes@),
        forall|i: int|
            is_first_failure(outcomes@, i) ==> {
                &&& r is Err
                &&& (params@[i].override_error is None ==> r->Err_0 == outcomes@[i]->Failed_0)
                &&& (params@[i].override_error matches Some(e) ==> maps_error_to(
                    schema@,
                    transformer,
                    e,
                    r->Err_0,
                ))
            },
{
    let ghost all = outcomes@;
    let mut remaining = outcomes;
    let mut vals: Vec<V> = Vec::new();
    let mut idx: usize = 0;
    let n = params.len();
    while idx < n
        invariant
            all == outcomes@,
            n == params@.len(),
            n == all.len(),
            idx <= n,
            remaining@ =~= all.skip(idx as int),
            vals@.len() == idx,
            forall|j: int| 0 <= j < idx ==> !((#[trigger] all[j]) is Failed),
            forall|j: int| 0 <= j < idx ==> #[trigger] vals@[j] == all[j]->Extracted_0,
            overrides_wf(params@, schema@),
            transformer_consistent(schema@, transformer),
        decreases n - idx,
    {
        let outcome = remaining.remove(0);
        proof {
            assert(outcome == all[idx as int]);
            assert(remaining@ =~= all.skip(idx as int + 1));
        }
        match outcome {
            ExtractOutcome::Extracted(v) => {
                vals.push(v);
                idx += 1;
            },
            ExtractOutcome::Failed(resp) => {
                proof {
                    assert(is_first_failure(all, idx as int));
                    assert forall|i: int| is_first_failure(all, i) implies i == idx as int by {
                        if i < idx as int {
                            assert(!(all[i] is Failed));
                        } else if i > idx as int {
                            assert(!(all[idx as int] is Failed));
                        }
                    }
                }
                let p = &params[idx];
                match &p.override_error {
                    None => {
                        return Err(resp);
                    },
                    Some(e) => {
                        let rendered = render(schema, transformer, e);
                        return Err(rendered);
                    },
                }
            },
        }
    }
    proof {
        assert(vals@ =~= extracted_values(all));
    }
    Ok(vals)
}

/// Maps the business handler's result: a success payload is the response,
/// unmodified; a domain error goes through the schema's compiled mapping.
pub fn finish_handler<F: Fn(ResponseBuilder, String) -> Response>(
    schema: &ErrorSchema,
    transformer: Option<&F>,
    outcome: HttpResult<ErrorInstance>,
) -> (r: Response)
    requires
        transformer_consistent(schema@, transformer),
        outcome matches Err(e) ==> e.variant_index < schema@.variants.len(),
    ensures
        outcome matches Ok(resp) ==> r == resp,
        outcome matches Err(e) ==> maps_error_to(schema@, transformer, e, r),
{
    match outcome {
        Ok(resp) => resp,
        Err(e) => render(schema, transformer, &e),
    }
}

/// One dispatch unit's whole pipeline over the collaborator's outcomes:
/// ordered short-circuiting extraction, then the handler on the bound
/// values in declaration order, then the result mapped to the response.
/// The handler's result matters only when every extraction succeeded.
pub fn run_route<
    V,
    F: Fn(ResponseBuilder, String) -> Response,
    H: Fn(Vec<V>) -> HttpResult<ErrorInstance>,
>(
    schema: &ErrorSchema,
    transformer: Option<&F>,
    route: &RouteSchema,
    handler: &H,
    outcomes: Vec<ExtractOutcome<V>>,
) -> (r: Response)
    requires
        route@.parameters.len() == outcomes@.len(),
        overrides_wf(route@.parameters, schema@),
        transformer_consistent(schema@, transformer),
        forall|args: Vec<V>| call_requires(*handler, (args,)),
        forall|args: Vec<V>, out: HttpResult<ErrorInstance>|
            #[trigger] call_ensures(*handler, (args,), out) ==> (out matches Err(e)
                ==> e.variant_index < schema@.variants.len()),
    ensures
        forall|i: int|
            is_first_failure(outcomes@, i) ==> {
                &&& (route@.parameters[i].override_error is None ==> r == outcomes@[i]->Failed_0)
                &&& (route@.parameters[i].override_error matches Some(e) ==> maps_error_to(
                    schema@,
                    transformer,
                    e,
                    r,
                ))
            },
        no_failure(outcomes@) ==> exists|vals: Vec<V>, out: HttpResult<ErrorInstance>|
            {
                &&& vals@ =~~= extracted_values(outcomes@)
                &&& #[trigger] call_ensures(*handler, (vals,), out)
                &&& (out matches Ok(resp) ==> r == resp)
                &&& (out matches Err(e) ==> maps_error_to(schema@, transformer, e, r))
            },
{
    match collect_params(schema, transformer, &route.parameters, outcomes) {
        Err(resp) => resp,
        Ok(vals) => {
            let ghost gvals = vals;
            let out = handler(vals);
            let ghost gout = out;
            let r = finish_handler(schema, transformer, out);
            proof {
                assert(call_ensures(*handler, (gvals,), gout));
            }
            r
        },
    }
}

/// Where one in-flight request stands in the pipeline: a run is a strict
/// linear sequence `Extracting(0) .. Extracting(n-1), Invoking, Complete`,
/// except that any extraction failure moves straight to `Complete`.
pub enum DispatchState<V> {
    /// Extraction of parameter `next` is pending; the parameters before
    /// it are bound, in declaration order.
    Extracting { next: usize, bound: Vec<V> },
    /// Every parameter is bound; the business handler's result is pending.
    Invoking { args: Vec<V> },
    /// The response is determined; nothing further runs.
    Complete { response: Response },
}

/// What the host runtime hands back at a suspension point.
pub enum DispatchEvent<V> {
    /// The extraction collaborator's outcome for the pending parameter.
    Extraction(ExtractOutcome<V>),
    /// The business handler's result.
    HandlerReturned(HttpResult<ErrorInstance>),
}

/// The state fits the route's parameter list.
pub open spec fn state_wf<V>(s: DispatchState<V>, params: Seq<Parameter>) -> bool {
    match s {
        DispatchState::Extracting { next, bound } => next < params.len() && bound@.len() == next,
        DispatchState::Invoking { args } => args@.len() == params.len(),
        DispatchState::Complete { .. } => true,
    }
}

/// Which event a state consumes: an extraction outcome while extracting,
/// the handler's result while invoking, and nothing once complete.
pub open spec fn accepts<V>(s: DispatchState<V>, event: DispatchEvent<V>) -> bool {
    match s {
        DispatchState::Extracting { .. } => event is Extraction,
        DispatchState::Invoking { .. } => event is HandlerReturned,
        DispatchState::Complete { .. } => false,
    }
}

/// The state a dispatch unit starts a request in: extraction of the
/// first parameter, or the handler invocation when there is none.
pub fn dispatch_init<V>(params: &Vec<Parameter>) -> (s: DispatchState<V>)
    ensures
        state_wf(s, params@),
        params@.len() == 0 ==> (s matches DispatchState::Invoking { args } && args@.len() == 0),
        params@.len() > 0 ==> (s matches DispatchState::Extracting { next, bound } && next == 0
            && bound@.len() == 0),
{
    if params.len() == 0 {
        DispatchState::Invoking { args: Vec::new() }
    } else {
        DispatchState::Extracting { next: 0, bound: Vec::new() }
    }
}

/// One decision of the pipeline, fed one event by the driver loop:
/// a successful extraction binds the value and moves on, in order; a
/// failed one completes the pipeline with the parameter's policy; the
/// handler's result completes it through [`finish_handler`]'s mapping.
pub fn dispatch_step<V, F: Fn(ResponseBuilder, String) -> Response>(
    schema: &ErrorSchema,
    transformer: Option<&F>,
    params: &Vec<Parameter>,
    state: DispatchState<V>,
    event: DispatchEvent<V>,
) -> (next_state: DispatchState<V>)
    requires
        state_wf(state, params@),
        accepts(state, event),
        overrides_wf(params@, schema@),
        transformer_consistent(schema@, transformer),
        event matches DispatchEvent::HandlerReturned(res) ==> (res matches Err(e)
            ==> e.variant_index < schema@.variants.len()),
    ensures
        state_wf(next_state, params@),
        state matches DispatchState::Extracting { next, bound } ==> {
            &&& (event matches DispatchEvent::Extraction(ExtractOutcome::Extracted(v)) ==> {
                &&& next + 1 < params@.len() ==> (next_state matches DispatchState::Extracting {
                    next: n2,
                    bound: b2,
                } && n2 == next + 1 && b2@ =~= bound@.push(v))
                &&& next + 1 == params@.len() ==> (next_state matches DispatchState::Invoking {
                    args,
                } && args@ =~= bound@.push(v))
            })
            &&& (event matches DispatchEvent::Extraction(ExtractOutcome::Failed(resp)) ==> {
                &&& next_state matches DispatchState::Complete { response }
                &&& (params@[next as int].override_error is None ==> next_state->Complete_response
                    == resp)
                &&& (params@[next as int].override_error matches Some(e) ==> maps_error_to(
                    schema@,
                    transformer,
                    e,
                    next_state->Complete_response,
                ))
            })
        },
        state matches DispatchState::Invoking { args } ==> (event
            matches DispatchEvent::HandlerReturned(res) ==> {
            &&& next_state is Complete
            &&& (res matches Ok(resp) ==> next_state->Complete_response == resp)
            &&& (res matches Err(e) ==> maps_error_to(
                schema@,
                transformer,
                e,
                next_state->Complete_response,
            ))
        }),
{
    match state {
        DispatchState::Extracting { next, bound } => {
            match event {
                DispatchEvent::Extraction(outcome) => {
                    match outcome {
                        ExtractOutcome::Extracted(v) => {
                            let n = params.len();
                            let mut bound2 = bound;
                            bound2.push(v);
                            if next + 1 < n {
                                DispatchState::Extracting { next: next + 1, bound: bound2 }
                            } else {
                                DispatchState::Invoking { args: bound2 }
                            }
                        },
                        ExtractOutcome::Failed(resp) => {
                            let p = &params[next];
                            match &p.override_error {
                                None => DispatchState::Complete { response: resp },
                                Some(e) => {
                                    let rendered = render(schema, transformer, e);
                                    DispatchState::Complete { response: rendered }
                                },
                            }
                        },
                    }
                },
                DispatchEvent::HandlerReturned(_) => vstd::pervasive::unreached(),
            }
        },
        DispatchState::Invoking { args: _ } => {
            match event {
                DispatchEvent::HandlerReturned(res) => {
                    let response = finish_handler(schema, transformer, res);
                    DispatchState::Complete { response }
                },
                DispatchEvent::Extraction(_) => vstd::pervasive::unreached(),
            }
        },
        DispatchState::Complete { .. } => vstd::pervasive::unreached(),
    }
}

/// Law: ordering is a correctness requirement, not an optimization.  A
/// failed extraction completes the pipeline at once, and a complete
/// pipeline consumes no further event — in particular, no extraction of
/// any later parameter is ever attempted.
pub proof fn lemma_complete_absorbing<V>(s: DispatchState<V>, event: DispatchEvent<V>)
    requires
        s is Complete,
    ensures
        !accepts(s, event),
{
}

/// Law: the pipeline's outcome is fixed by the outcomes up to and
/// including the first failing parameter.  Whatever later extractions
/// would have produced, any outcome sequence that agrees up to the first
/// failure fails first at the same parameter — so the response picked
/// for it is the same.
pub proof fn lemma_short_circuit_frame<V>(
    a: Seq<ExtractOutcome<V>>,
    b: Seq<ExtractOutcome<V>>,
    i: int,
)
    requires
        is_first_failure(a, i),
        i < b.len(),
        forall|j: int| 0 <= j <= i ==> a[j] == #[trigger] b[j],
    ensures
        is_first_failure(b, i),
{
    assert(b[i] == a[i]);
    assert forall|j: int| 0 <= j < i implies !((#[trigger] b[j]) is Failed) by {
        assert(a[j] == b[j]);
        assert(!(a[j] is Failed));
    }
}

} // verus!
