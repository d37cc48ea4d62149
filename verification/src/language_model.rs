//! The polymorphic language-model capability surface and the generation
//! result model.

use vstd::prelude::*;
use crate::call::LanguageModelV1CallOptions;
use crate::call::cancellation_requested;

verus! {

/// Specification for a language model that implements the language model
/// interface version 1: the static, backend-supplied descriptor attributes,
/// readable without performing a call, and immutable once built.
pub struct LanguageModelV1 {
    /// Which language model interface version the model implements. This
    /// allows the interface to evolve while retaining backwards
    /// compatibility: different versions can be handled as a discriminated
    /// union on the consumer's side.
    pub specification_version: String,
    /// Name of the provider, for logging purposes.
    pub provider: String,
    /// Provider-specific model ID, for logging purposes.
    pub model_id: String,
    /// Default object generation mode that should be used with this model
    /// when no mode is specified. Should be the mode with the best results
    /// for this model; `NotSupported` if object generation is not supported.
    pub default_object_generation_mode: LanguageModelV1ObjectGenerationMode,
    /// Whether this model supports image/file URLs. When `false`, the
    /// consumer downloads the file and passes the data to the model instead.
    pub support_urls: bool,
    /// Whether this model supports grammar-guided generation, i.e. follows
    /// JSON schemas for object generation: the model then guarantees that
    /// generated JSON is a valid JSON object and matches the schema.
    pub supports_grammar_guided_generation: bool,
}

/// Two descriptors agree field for field. Resolving the same identifier
/// twice yields descriptors equal in this sense.
pub open spec fn descriptor_eq(a: LanguageModelV1, b: LanguageModelV1) -> bool {
    &&& a.specification_version@ == b.specification_version@
    &&& a.provider@ == b.provider@
    &&& a.model_id@ == b.model_id@
    &&& a.default_object_generation_mode == b.default_object_generation_mode
    &&& a.support_urls == b.support_urls
    &&& a.supports_grammar_guided_generation == b.supports_grammar_guided_generation
}

impl LanguageModelV1 {
    /// Builds a descriptor with the interface defaults: URL input supported,
    /// grammar-guided generation not supported.
    pub fn new(
        specification_version: String,
        provider: String,
        model_id: String,
        default_object_generation_mode: LanguageModelV1ObjectGenerationMode,
    ) -> (m: LanguageModelV1)
        ensures
            m.specification_version == specification_version,
            m.provider == provider,
            m.model_id == model_id,
            m.default_object_generation_mode == default_object_generation_mode,
            m.support_urls == true,
            m.supports_grammar_guided_generation == false,
    {
        LanguageModelV1 {
            specification_version,
            provider,
            model_id,
            default_object_generation_mode,
            support_urls: true,
            supports_grammar_guided_generation: false,
        }
    }

    /// A value-equal copy of the descriptor.
    pub fn duplicate(&self) -> (m: LanguageModelV1)
        ensures
            descriptor_eq(m, *self),
    {
        LanguageModelV1 {
            specification_version: self.specification_version.clone(),
            provider: self.provider.clone(),
            model_id: self.model_id.clone(),
            default_object_generation_mode: self.default_object_generation_mode,
            support_urls: self.support_urls,
            supports_grammar_guided_generation: self.supports_grammar_guided_generation,
        }
    }
}

/// The strategy a model defaults to for producing structured output:
/// JSON-native, tool-call-based, or no object generation at all.
#[derive(Clone, Copy, PartialEq, Eq, Structural, Debug)]
pub enum LanguageModelV1ObjectGenerationMode {
    Json,
    Tool,
    NotSupported,
}

/// The terminal cause recorded for why a generation call stopped. A
/// successful result always carries one: there is no unknown/unset state.
#[derive(Clone, Copy, PartialEq, Eq, Structural, Debug)]
pub enum LanguageModelV1FinishReason {
    /// The model finished of its own accord.
    Stop,
    /// The length limit was reached.
    Length,
    /// A stop sequence was generated.
    StopSequence,
    /// The model issued tool calls.
    ToolCalls,
    /// A content filter ended the generation.
    ContentFilter,
    /// A backend-internal error ended the generation.
    Error,
}

/// A provider warning attached to a result; richer diagnostics that the
/// interface does not standardize.
pub struct LanguageModelV1CallWarning;

/// A source attribution: input the model drew on to generate the response.
pub struct LanguageModelV1Source;

/// A tool invocation that the model generated.
pub struct LanguageModelV1FunctionToolCall;

/// Additional provider-specific metadata, passed through from the provider
/// so that provider-specific results stay fully encapsulated there.
pub struct LanguageModelV1ProviderMetadata;

/// Token usage of one generation call; always present and non-negative.
#[derive(Clone, Copy, PartialEq, Eq, Structural, Debug)]
pub struct LanguageModelV1Usage {
    pub prompt_tokens: u32,
    pub completion_tokens: u32,
}

/// The structured outcome of one successful generation call: a read-only
/// snapshot, produced exactly once, owned by the caller, never mutated.
///
/// `text` and `tool_calls` are independently optional: a result may carry
/// neither (an empty completion), either, or both, and is valid in every
/// combination as long as a finish reason and usage are recorded — which the
/// type guarantees.
pub struct LanguageModelV1GenerationResult {
    /// Text that the model has generated; `None` if it generated no text.
    pub text: Option<String>,
    /// Tool calls that the model has generated; `None` if it generated none.
    pub tool_calls: Option<Vec<LanguageModelV1FunctionToolCall>>,
    /// Why the generation stopped.
    pub finish_reason: LanguageModelV1FinishReason,
    /// Usage information.
    pub usage: LanguageModelV1Usage,
    /// Provider warnings, where the backend chose to attach any.
    pub warnings: Option<Vec<LanguageModelV1CallWarning>>,
    /// Additional provider-specific metadata.
    pub provider_metadata: Option<LanguageModelV1ProviderMetadata>,
    /// Sources that have been used as input to generate the response.
    pub sources: Option<Vec<LanguageModelV1Source>>,
}

impl LanguageModelV1GenerationResult {
    /// An empty completion: no text and no tool calls, yet a valid,
    /// non-erroneous result, with its finish reason and usage recorded.
    pub fn empty_completion(
        finish_reason: LanguageModelV1FinishReason,
        usage: LanguageModelV1Usage,
    ) -> (r: LanguageModelV1GenerationResult)
        ensures
            r.text is None,
            r.tool_calls is None,
            r.finish_reason == finish_reason,
            r.usage == usage,
            r.warnings is None,
            r.provider_metadata is None,
            r.sources is None,
    {
        LanguageModelV1GenerationResult {
            text: None,
            tool_calls: None,
            finish_reason,
            usage,
            warnings: None,
            provider_metadata: None,
            sources: None,
        }
    }
}

/// Why a generation call failed. Backend-internal faults (network, auth,
/// malformed backend response) all collapse to the one opaque `Failed`
/// category at this boundary; a triggered cancellation handle is reported
/// distinctly as `Cancelled`.
#[derive(Clone, Copy, PartialEq, Eq, Structural, Debug)]
pub enum GenerationError {
    /// The call's cancellation handle was triggered.
    Cancelled,
    /// The backend failed to produce a result.
    Failed,
}

/// The single operation a conforming backend implements: perform one
/// generation call and produce exactly one complete result or exactly one
/// failure — never a partial or streamed one. Failure conditions are
/// backend-specific; richer diagnostics travel in the result's warnings and
/// provider metadata.
pub trait CanGenerate {
    fn do_generate(
        options: LanguageModelV1CallOptions,
    ) -> Result<LanguageModelV1GenerationResult, GenerationError>;
}

/// Performs one generation call through the backend `M`, honouring the
/// configuration's cancellation handle: a handle already triggered before
/// generation starts fails the call with a cancellation failure, and no
/// result is produced.
pub fn generate<M: CanGenerate>(
    options: LanguageModelV1CallOptions,
) -> (r: Result<LanguageModelV1GenerationResult, GenerationError>)
    ensures
        cancellation_requested(options) ==> r == Err::<
            LanguageModelV1GenerationResult,
            GenerationError,
        >(GenerationError::Cancelled),
{
    let cancelled = match &options.settings.abort_signal {
        Some(signal) => signal.is_triggered(),
        None => false,
    };
    if cancelled {
        Err(GenerationError::Cancelled)
    } else {
        M::do_generate(options)
    }
}

} // verus!
