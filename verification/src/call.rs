//! The generation-call configuration model: sampling settings, the requested
//! response format, and the cooperative cancellation handle.

use vstd::prelude::*;
use std::collections::HashMap;
use crate::schema::introspect_schema;

verus! {

/// Cooperative cancellation handle for one generation call.
///
/// The owning caller triggers it; the backend observes it and is expected to
/// stop as soon as feasible. Triggering is advisory, never retroactive: a
/// result that is already finalized is still returned.
pub struct AbortSignal {
    triggered: bool,
}

impl AbortSignal {
    /// Whether cancellation has been requested on this handle.
    pub closed spec fn is_set(&self) -> bool {
        self.triggered
    }

    /// A fresh handle on which cancellation has not been requested.
    pub fn new() -> (s: AbortSignal)
        ensures
            !s.is_set(),
    {
        AbortSignal { triggered: false }
    }

    /// Requests cancellation of the call that carries this handle.
    pub fn trigger(&mut self)
        ensures
            final(self).is_set(),
    {
        self.triggered = true;
    }

    /// Observes the handle, as a backend does before and during generation.
    pub fn is_triggered(&self) -> (r: bool)
        ensures
            r == self.is_set(),
    {
        self.triggered
    }
}

/// A structured-output type's schema, captured as the serialized JSON-Schema
/// document of the type's shape, or `None` where the type could not be
/// introspected. Rendering such a value never fails: an absent document
/// degrades to the empty-object document `{}`.
pub struct TypedSchema {
    pub document: Option<String>,
}

impl TypedSchema {
    /// What rendering this schema yields: the captured document verbatim, or
    /// `{}` where no document could be produced.
    pub open spec fn rendered(&self) -> Seq<char> {
        match self.document {
            Some(d) => d@,
            None => "{}"@,
        }
    }

    /// Captures the schema of `T`, derived on demand from `T`'s shape.
    pub fn for_type<T: schemars::JsonSchema>() -> TypedSchema {
        TypedSchema { document: introspect_schema::<T>() }
    }

    /// Renders the schema document; degrades to `{}` rather than failing.
    pub fn render(&self) -> (r: String)
        ensures
            r@ == self.rendered(),
    {
        match &self.document {
            Some(d) => d.clone(),
            None => "{}".to_owned(),
        }
    }
}

/// The capability a structured-output type offers: rendering itself as a
/// JSON-Schema document. Rendering must not fail; an implementation that
/// cannot produce a document is expected to return the literal `{}`.
pub trait JsonSchemaSerializable {
    fn to_json_schema(&self) -> String;
}

impl JsonSchemaSerializable for TypedSchema {
    fn to_json_schema(&self) -> (r: String)
        ensures
            r@ == self.rendered(),
    {
        self.render()
    }
}

/// JSON schema that generated output should conform to: either derived from a
/// structured type's shape, or supplied as a pre-rendered schema string that
/// is used verbatim, with no validation of its syntax.
pub enum ResponseFormatJsonSchema {
    Struct(TypedSchema),
    JsonSchemaString(String),
}

/// Builds the schema source for any introspectable type: its schema is
/// derived on demand from the type's shape, and rendering the source
/// degrades to `{}` where the schema could not be produced.
pub fn schema_source_for<T: schemars::JsonSchema>() -> (r: ResponseFormatJsonSchema)
    ensures
        r matches ResponseFormatJsonSchema::Struct(_),
{
    ResponseFormatJsonSchema::Struct(TypedSchema::for_type::<T>())
}

/// What rendering a schema source yields, for every source: a captured
/// document or `{}` for a typed source, the raw string verbatim otherwise.
pub open spec fn rendered_schema(source: ResponseFormatJsonSchema) -> Seq<char> {
    match source {
        ResponseFormatJsonSchema::Struct(t) => t.rendered(),
        ResponseFormatJsonSchema::JsonSchemaString(raw) => raw@,
    }
}

/// Renders a schema source to the JSON document handed to the backend.
/// Never fails: an unrenderable typed schema degrades to `{}`.
pub fn render_schema(source: &ResponseFormatJsonSchema) -> (r: String)
    ensures
        r@ == rendered_schema(*source),
{
    match source {
        ResponseFormatJsonSchema::Struct(t) => t.render(),
        ResponseFormatJsonSchema::JsonSchemaString(raw) => raw.clone(),
    }
}

/// Response format options for one call.
pub enum ResponseFormat {
    /// Plain text output.
    Text,
    /// JSON output with a schema and optional metadata for additional
    /// guidance of the model.
    Json {
        /// JSON schema that the generated output should conform to.
        schema: ResponseFormatJsonSchema,
        /// Name of the output that should be generated.
        name: Option<String>,
        /// Description of the output that should be generated.
        description: Option<String>,
    },
}

/// Immutable value object describing the sampling and output-format
/// parameters of one generation call. Every field is optional; construction
/// always succeeds, and a built value is never mutated (rebuild to change).
///
/// The sampling parameters that backends take as floating-point numbers
/// (`temperature`, `top_p`, `presence_penalty`, `frequency_penalty`) are held
/// as their IEEE-754 bit patterns: verified code never computes with them, it
/// only records presence and carries the value through, and backends convert
/// at the boundary.
pub struct LanguageModelV1CallSettings {
    /// Maximum number of tokens to generate.
    pub max_tokens: Option<u32>,
    /// Temperature setting, as the bit pattern of a 32-bit float.
    /// It is recommended to set either `temperature` or `top_p`, but not both;
    /// this is advisory, a caller responsibility, and not enforced here.
    pub temperature: Option<u32>,
    /// Stop sequences. If set, the model stops generating text when one of
    /// the stop sequences is generated. Providers may limit their number.
    pub stop_sequences: Option<Vec<String>>,
    /// Nucleus sampling, as the bit pattern of a 32-bit float.
    /// It is recommended to set either `temperature` or `top_p`, but not both.
    pub top_p: Option<u32>,
    /// Only sample from the top K options for each subsequent token. Used to
    /// remove "long tail" low-probability responses.
    pub top_k: Option<u32>,
    /// Presence penalty, as the bit pattern of a 32-bit float. Affects the
    /// likelihood of the model to repeat information already in the prompt.
    pub presence_penalty: Option<u32>,
    /// Frequency penalty, as the bit pattern of a 32-bit float. Affects the
    /// likelihood of the model to repeatedly use the same words or phrases.
    pub frequency_penalty: Option<u32>,
    /// Response format. The output can either be text or JSON.
    pub response_format: Option<ResponseFormat>,
    /// The seed to use for random sampling. If set and supported by the
    /// model, calls will generate deterministic results.
    pub seed: Option<u64>,
    /// Abort signal for cancelling the operation.
    pub abort_signal: Option<AbortSignal>,
    /// Additional HTTP headers to be sent with the request; only applicable
    /// for HTTP-based providers. A key mapped to `None` is distinct from an
    /// omitted key: "present with absent value" and "omitted" both exist.
    pub headers: Option<HashMap<String, Option<String>>>,
}

impl LanguageModelV1CallSettings {
    /// Builds a configuration from any combination of set and omitted fields.
    /// Total: construction never fails, whatever is present or absent.
    pub fn new(
        max_tokens: Option<u32>,
        temperature: Option<u32>,
        stop_sequences: Option<Vec<String>>,
        top_p: Option<u32>,
        top_k: Option<u32>,
        presence_penalty: Option<u32>,
        frequency_penalty: Option<u32>,
        response_format: Option<ResponseFormat>,
        seed: Option<u64>,
        abort_signal: Option<AbortSignal>,
        headers: Option<HashMap<String, Option<String>>>,
    ) -> (s: LanguageModelV1CallSettings)
        ensures
            s.max_tokens == max_tokens,
            s.temperature == temperature,
            s.stop_sequences == stop_sequences,
            s.top_p == top_p,
            s.top_k == top_k,
            s.presence_penalty == presence_penalty,
            s.frequency_penalty == frequency_penalty,
            s.response_format == response_format,
            s.seed == seed,
            s.abort_signal == abort_signal,
            s.headers == headers,
    {
        LanguageModelV1CallSettings {
            max_tokens,
            temperature,
            stop_sequences,
            top_p,
            top_k,
            presence_penalty,
            frequency_penalty,
            response_format,
            seed,
            abort_signal,
            headers,
        }
    }

    /// A configuration with every optional field omitted.
    pub fn empty() -> (s: LanguageModelV1CallSettings)
        ensures
            s.max_tokens is None,
            s.temperature is None,
            s.stop_sequences is None,
            s.top_p is None,
            s.top_k is None,
            s.presence_penalty is None,
            s.frequency_penalty is None,
            s.response_format is None,
            s.seed is None,
            s.abort_signal is None,
            s.headers is None,
    {
        LanguageModelV1CallSettings {
            max_tokens: None,
            temperature: None,
            stop_sequences: None,
            top_p: None,
            top_k: None,
            presence_penalty: None,
            frequency_penalty: None,
            response_format: None,
            seed: None,
            abort_signal: None,
            headers: None,
        }
    }
}

/// Everything a backend is handed for one generation call.
pub struct LanguageModelV1CallOptions {
    /// The sampling and output-format configuration of the call.
    pub settings: LanguageModelV1CallSettings,
}

/// Whether the configuration of `options` carries a cancellation handle that
/// has already been triggered.
pub open spec fn cancellation_requested(options: LanguageModelV1CallOptions) -> bool {
    match options.settings.abort_signal {
        Some(s) => s.is_set(),
        None => false,
    }
}

} // verus!
