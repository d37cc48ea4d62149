//! A uniform, versioned contract for invoking language-model backends
//! ("providers") through a single abstraction.
//!
//! The crate defines the generation-call configuration model, the polymorphic
//! language-model capability surface, the generation result model, and the
//! provider registry that resolves a model identifier to a concrete model
//! instance and reports lookup failures.

pub mod call;
pub mod errors;
pub mod language_model;
pub mod provider;
pub mod schema;

pub use call::AbortSignal;
pub use call::JsonSchemaSerializable;
pub use call::LanguageModelV1CallOptions;
pub use call::LanguageModelV1CallSettings;
pub use call::ResponseFormat;
pub use call::schema_source_for;
pub use call::ResponseFormatJsonSchema;
pub use call::TypedSchema;
pub use errors::NoSuchModelError;
pub use language_model::CanGenerate;
pub use language_model::GenerationError;
pub use language_model::LanguageModelV1;
pub use language_model::LanguageModelV1CallWarning;
pub use language_model::LanguageModelV1FinishReason;
pub use language_model::LanguageModelV1FunctionToolCall;
pub use language_model::LanguageModelV1GenerationResult;
pub use language_model::LanguageModelV1ObjectGenerationMode;
pub use language_model::LanguageModelV1ProviderMetadata;
pub use language_model::LanguageModelV1Source;
pub use language_model::LanguageModelV1Usage;
pub use provider::LanguageModel;
pub use provider::Provider;
pub use provider::ProviderRegistry;
