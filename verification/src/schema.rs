//! Build-time schema types shared by the two compiler passes, and their
//! validation.
//!
//! A schema is parsed once from the declarative annotations, validated
//! here, and then consumed unchanged: the error-response compiler takes
//! an [`ErrorSchema`], the route-wrapper compiler a [`RouteSchema`].

use vstd::prelude::*;
use crate::meta::{parse_transformer_meta, spec_parse_transformer_meta};
use crate::status::{status_code_of_ident, spec_status_code_of_ident};

verus! {

/// The fixed set of HTTP method tokens a route annotation may carry.
/// Any other token is a schema-validation failure.
#[derive(Clone, Copy, PartialEq, Eq, Structural, Debug)]
pub enum HttpMethod {
    Get,
    Put,
    Post,
    Delete,
    Patch,
    Options,
    Trace,
}

/// Parses a method token into the fixed method set.
///
/// Returns `None` exactly on tokens outside the set, which callers
/// must treat as a validation failure.
pub fn parse_method(token: &str) -> (r: Option<HttpMethod>)
    ensures
        r == spec_parse_method(token@),
{
    let t: String = token.to_owned();
    if t == "get".to_owned() {
        Some(HttpMethod::Get)
    } else if t == "put".to_owned() {
        Some(HttpMethod::Put)
    } else if t == "post".to_owned() {
        Some(HttpMethod::Post)
    } else if t == "delete".to_owned() {
        Some(HttpMethod::Delete)
    } else if t == "patch".to_owned() {
        Some(HttpMethod::Patch)
    } else if t == "options".to_owned() {
        Some(HttpMethod::Options)
    } else if t == "trace".to_owned() {
        Some(HttpMethod::Trace)
    } else {
        None
    }
}

/// The method token set, as a function of the token's characters.
pub open spec fn spec_parse_method(token: Seq<char>) -> Option<HttpMethod> {
    if token == "get"@ {
        Some(HttpMethod::Get)
    } else if token == "put"@ {
        Some(HttpMethod::Put)
    } else if token == "post"@ {
        Some(HttpMethod::Post)
    } else if token == "delete"@ {
        Some(HttpMethod::Delete)
    } else if token == "patch"@ {
        Some(HttpMethod::Patch)
    } else if token == "options"@ {
        Some(HttpMethod::Options)
    } else if token == "trace"@ {
        Some(HttpMethod::Trace)
    } else {
        None
    }
}

/// The payload shape of one error variant: dispatch ignores the payload,
/// but the matching the compiler emits must cover every shape.
#[derive(Clone, Copy, PartialEq, Eq, Structural, Debug)]
pub enum VariantShape {
    /// No payload.
    Unit,
    /// A tuple payload with the given arity.
    Tuple(usize),
    /// A braced payload with the given number of named fields.
    Named(usize),
}

/// One variant of an error taxonomy as declared: the status tag, if any,
/// is still an unvalidated identifier.
#[derive(Debug)]
pub struct RawVariant {
    pub name: String,
    pub shape: VariantShape,
    pub status_ident: Option<String>,
}

#[verifier::ext_equal]
pub struct RawVariantView {
    pub name: Seq<char>,
    pub shape: VariantShape,
    pub status_ident: Option<Seq<char>>,
}

impl View for RawVariant {
    type V = RawVariantView;

    open spec fn view(&self) -> RawVariantView {
        RawVariantView {
            name: self.name@,
            shape: self.shape,
            status_ident: match self.status_ident {
                Some(id) => Some(id@),
                None => None,
            },
        }
    }
}

impl DeepView for RawVariant {
    type V = RawVariantView;

    open spec fn deep_view(&self) -> RawVariantView {
        self.view()
    }
}

/// One validated variant: the status tag has been looked up in the
/// response-builder vocabulary; `None` means the server-fault default
/// applies at dispatch time.
#[derive(Debug)]
pub struct ErrorVariant {
    pub name: String,
    pub shape: VariantShape,
    pub status: Option<u16>,
}

#[verifier::ext_equal]
pub struct ErrorVariantView {
    pub name: Seq<char>,
    pub shape: VariantShape,
    pub status: Option<u16>,
}

impl View for ErrorVariant {
    type V = ErrorVariantView;

    open spec fn view(&self) -> ErrorVariantView {
        ErrorVariantView { name: self.name@, shape: self.shape, status: self.status }
    }
}

impl DeepView for ErrorVariant {
    type V = ErrorVariantView;

    open spec fn deep_view(&self) -> ErrorVariantView {
        self.view()
    }
}

/// A validated error taxonomy: the ordered variants and the transformer
/// reference, if one is configured.
#[derive(Debug)]
pub struct ErrorSchema {
    pub variants: Vec<ErrorVariant>,
    pub transformer: Option<String>,
}

#[verifier::ext_equal]
pub struct ErrorSchemaView {
    pub variants: Seq<ErrorVariantView>,
    pub transformer: Option<Seq<char>>,
}

impl View for ErrorSchema {
    type V = ErrorSchemaView;

    open spec fn view(&self) -> ErrorSchemaView {
        ErrorSchemaView {
            variants: self.variants.deep_view(),
            transformer: match self.transformer {
                Some(t) => Some(t@),
                None => None,
            },
        }
    }
}

/// One error value of a compiled taxonomy at dispatch time: the variant
/// it belongs to, and the display string the message collaborator
/// renders for it.
#[derive(Debug)]
pub struct ErrorInstance {
    pub variant_index: usize,
    pub message: String,
}

#[verifier::ext_equal]
pub struct ErrorInstanceView {
    pub variant_index: int,
    pub message: Seq<char>,
}

impl View for ErrorInstance {
    type V = ErrorInstanceView;

    open spec fn view(&self) -> ErrorInstanceView {
        ErrorInstanceView { variant_index: self.variant_index as int, message: self.message@ }
    }
}

/// One typed handler parameter: extraction binds it under
/// `binding_name`; on extraction failure, `override_error` substitutes a
/// fixed error value for the extractor's own failure.
#[derive(Debug)]
pub struct Parameter {
    pub binding_name: String,
    pub type_descriptor: String,
    pub override_error: Option<ErrorInstance>,
}

/// One argument handed to the path-declaration annotation: either a
/// literal path template, or some other expression the schema rejects.
#[derive(Debug)]
pub enum RouteArg {
    PathLiteral(String),
    Other,
}

/// A validated handler schema: one method, one literal path, and the
/// ordered parameter list.
#[derive(Debug)]
pub struct RouteSchema {
    pub method: HttpMethod,
    pub path: String,
    pub parameters: Vec<Parameter>,
}

#[verifier::ext_equal]
pub struct RouteSchemaView {
    pub method: HttpMethod,
    pub path: Seq<char>,
    pub parameters: Seq<Parameter>,
}

impl View for RouteSchema {
    type V = RouteSchemaView;

    open spec fn view(&self) -> RouteSchemaView {
        RouteSchemaView { method: self.method, path: self.path@, parameters: self.parameters@ }
    }
}

/// The schema-validation failures, all reported at build time.
#[derive(Clone, Copy, PartialEq, Eq, Structural, Debug)]
pub enum SchemaError {
    /// More than one transformer annotation on one error schema.
    ExclusiveTransformer,
    /// A status tag outside the response-builder vocabulary.
    UnknownStatusTag,
    /// A method token outside the fixed method set.
    InvalidMethod,
    /// The path annotation received no argument, or more than one.
    PathArgCount,
    /// The path annotation's argument is not a string literal.
    PathNotLiteral,
}

/// Validates one declared variant: a variant without a status tag keeps
/// the default; a tagged one must name a known status constructor.
pub open spec fn spec_compile_variant(v: RawVariantView) -> Option<ErrorVariantView> {
    match v.status_ident {
        None => Some(ErrorVariantView { name: v.name, shape: v.shape, status: None }),
        Some(id) => match spec_status_code_of_ident(id) {
            Some(code) => Some(ErrorVariantView { name: v.name, shape: v.shape, status: Some(code) }),
            None => None,
        },
    }
}

/// What building an error schema yields: the transformer-exclusivity
/// check comes first, then every status tag is validated, and the single
/// schema-level annotation payload, if present, configures the
/// transformer.
pub open spec fn spec_build_error_schema(
    variants: Seq<RawVariantView>,
    transformer_attrs: Seq<Seq<char>>,
) -> Result<ErrorSchemaView, SchemaError> {
    if transformer_attrs.len() > 1 {
        Err(SchemaError::ExclusiveTransformer)
    } else if exists|i: int| 0 <= i < variants.len() && spec_compile_variant(variants[i]) is None {
        Err(SchemaError::UnknownStatusTag)
    } else {
        Ok(
            ErrorSchemaView {
                variants: Seq::new(variants.len(), |i: int| spec_compile_variant(variants[i])->Some_0),
                transformer: if transformer_attrs.len() == 1 {
                    spec_parse_transformer_meta(transformer_attrs[0])
                } else {
                    None
                },
            },
        )
    }
}

/// Builds and validates an error schema from its declaration: the
/// ordered variants and the payloads of the schema-level annotations
/// found on it.
pub fn build_error_schema(variants: Vec<RawVariant>, transformer_attrs: Vec<String>) -> (r: Result<
    ErrorSchema,
    SchemaError,
>)
    ensures
        r is Ok <==> spec_build_error_schema(variants.deep_view(), transformer_attrs.deep_view())
            is Ok,
        r matches Ok(s) ==> s@ =~~= spec_build_error_schema(
            variants.deep_view(),
            transformer_attrs.deep_view(),
        )->Ok_0,
        r matches Err(e) ==> Err::<ErrorSchemaView, SchemaError>(e) == spec_build_error_schema(
            variants.deep_view(),
            transformer_attrs.deep_view(),
        ),
{
    if transformer_attrs.len() > 1 {
        return Err(SchemaError::ExclusiveTransformer);
    }
    let transformer: Option<String> = if transformer_attrs.len() == 1 {
        parse_transformer_meta(transformer_attrs[0].as_str())
    } else {
        None
    };
    let ghost raw = variants.deep_view();
    let ghost attrs = transformer_attrs.deep_view();
    proof {
        assert(attrs.len() == transformer_attrs@.len());
        assert(raw.len() == variants@.len());
    }
    let mut compiled: Vec<ErrorVariant> = Vec::new();
    let mut idx: usize = 0;
    while idx < variants.len()
        invariant
            idx <= variants.len(),
            raw == variants.deep_view(),
            raw.len() == variants.len(),
            compiled.len() == idx,
            transformer_attrs@.len() <= 1,
            attrs == transformer_attrs.deep_view(),
            attrs.len() <= 1,
            forall|j: int| 0 <= j < idx ==> (#[trigger] spec_compile_variant(raw[j])) is Some,
            forall|j: int|
                0 <= j < idx ==> #[trigger] compiled.deep_view()[j] =~~= spec_compile_variant(
                    raw[j],
                )->Some_0,
        decreases variants.len() - idx,
    {
        let v = &variants[idx];
        proof {
            assert(raw[idx as int] == variants[idx as int].deep_view());
        }
        let status: Option<u16> = match &v.status_ident {
            None => None,
            Some(id) => match status_code_of_ident(id.as_str()) {
                Some(code) => Some(code),
                None => {
                    proof {
                        assert(exists|i: int|
                            0 <= i < raw.len() && spec_compile_variant(raw[i]) is None) by {
                            assert(spec_compile_variant(raw[idx as int]) is None);
                        }
                        assert(spec_build_error_schema(raw, attrs) == Err::<
                            ErrorSchemaView,
                            SchemaError,
                        >(SchemaError::UnknownStatusTag));
                    }
                    return Err(SchemaError::UnknownStatusTag);
                },
            },
        };
        let compiled_variant = ErrorVariant { name: v.name.clone(), shape: v.shape, status };
        proof {
            assert(compiled_variant.deep_view() =~~= spec_compile_variant(raw[idx as int])->Some_0);
        }
        let ghost before = compiled@;
        proof {
            assert forall|j: int| 0 <= j < before.len() implies before[j].deep_view()
                =~~= spec_compile_variant(raw[j])->Some_0 by {
                assert(compiled.deep_view()[j] == compiled@[j].deep_view());
            }
        }
        compiled.push(compiled_variant);
        idx += 1;
        proof {
            assert forall|j: int| 0 <= j < idx implies #[trigger] compiled.deep_view()[j]
                =~~= spec_compile_variant(raw[j])->Some_0 by {
                assert(compiled.deep_view()[j] == compiled@[j].deep_view());
                if j < idx - 1 {
                    assert(compiled@[j] == before[j]);
                } else {
                    assert(compiled@[j] == compiled_variant);
                }
            }
        }
    }
    let result = ErrorSchema { variants: compiled, transformer };
    proof {
        let spec_result = spec_build_error_schema(raw, attrs);
        assert(spec_result is Ok);
        assert forall|j: int| 0 <= j < raw.len() implies #[trigger] result@.variants[j]
            =~~= spec_result->Ok_0.variants[j] by {
            assert(compiled.deep_view()[j] =~~= spec_compile_variant(raw[j])->Some_0);
        }
        assert(result@.variants =~~= spec_result->Ok_0.variants);
        if transformer_attrs@.len() == 1 {
            assert(attrs[0] == transformer_attrs[0]@);
        }
        assert(result@ =~~= spec_result->Ok_0);
    }
    Ok(result)
}

/// What building a route schema yields: the method token is checked
/// against the fixed set, then the path annotation must carry exactly
/// one argument, a string literal.
pub open spec fn spec_build_route_schema(
    method_token: Seq<char>,
    args: Seq<RouteArg>,
    parameters: Seq<Parameter>,
) -> Result<RouteSchemaView, SchemaError> {
    match spec_parse_method(method_token) {
        None => Err(SchemaError::InvalidMethod),
        Some(method) => {
            if args.len() == 0 {
                Err(SchemaError::PathArgCount)
            } else {
                match args[0] {
                    RouteArg::Other => Err(SchemaError::PathNotLiteral),
                    RouteArg::PathLiteral(path) => {
                        if args.len() > 1 {
                            Err(SchemaError::PathArgCount)
                        } else {
                            Ok(RouteSchemaView { method, path: path@, parameters })
                        }
                    },
                }
            }
        },
    }
}

/// Builds and validates a route schema from its declaration: the method
/// token, the arguments of the path annotation, and the ordered
/// parameter list.
pub fn build_route_schema(method_token: &str, args: Vec<RouteArg>, parameters: Vec<Parameter>) -> (r:
    Result<RouteSchema, SchemaError>)
    ensures
        r is Ok <==> spec_build_route_schema(method_token@, args@, parameters@) is Ok,
        r matches Ok(s) ==> s@ =~~= spec_build_route_schema(method_token@, args@, parameters@)->Ok_0,
        r matches Err(e) ==> Err::<RouteSchemaView, SchemaError>(e) == spec_build_route_schema(
            method_token@,
            args@,
            parameters@,
        ),
{
    let ghost spec_args = args@;
    let ghost spec_params = parameters@;
    let method = match parse_method(method_token) {
        Some(m) => m,
        None => {
            return Err(SchemaError::InvalidMethod);
        },
    };
    let mut args = args;
    if args.len() == 0 {
        return Err(SchemaError::PathArgCount);
    }
    let n_args = args.len();
    let first = args.remove(0);
    match first {
        RouteArg::Other => Err(SchemaError::PathNotLiteral),
        RouteArg::PathLiteral(path) => {
            if n_args > 1 {
                Err(SchemaError::PathArgCount)
            } else {
                Ok(RouteSchema { method, path, parameters })
            }
        },
    }
}

} // verus!
