use std::collections::HashMap;

use unifai::AbortSignal;
use unifai::CanGenerate;
use unifai::GenerationError;
use unifai::JsonSchemaSerializable;
use unifai::LanguageModelV1CallOptions;
use unifai::LanguageModelV1CallSettings;
use unifai::LanguageModelV1FinishReason;
use unifai::LanguageModelV1GenerationResult;
use unifai::LanguageModelV1Usage;
use unifai::ResponseFormat;
use unifai::ResponseFormatJsonSchema;
use unifai::TypedSchema;
use unifai::call::render_schema;
use unifai::language_model::generate;

struct EchoModel;

impl CanGenerate for EchoModel {
    fn do_generate(
        _options: LanguageModelV1CallOptions,
    ) -> Result<LanguageModelV1GenerationResult, GenerationError> {
        Ok(LanguageModelV1GenerationResult::empty_completion(
            LanguageModelV1FinishReason::Stop,
            LanguageModelV1Usage { prompt_tokens: 3, completion_tokens: 0 },
        ))
    }
}

struct BrokenModel;

impl CanGenerate for BrokenModel {
    fn do_generate(
        _options: LanguageModelV1CallOptions,
    ) -> Result<LanguageModelV1GenerationResult, GenerationError> {
        Err(GenerationError::Failed)
    }
}

#[test]
fn backend_failure_propagates() {
    let options = LanguageModelV1CallOptions {
        settings: LanguageModelV1CallSettings::empty(),
    };
    let outcome = generate::<BrokenModel>(options);
    assert_eq!(outcome.err(), Some(GenerationError::Failed));
}

#[test]
fn call_settings_construction_all_omitted() {
    let settings = LanguageModelV1CallSettings::empty();
    assert!(settings.max_tokens.is_none());
    assert!(settings.temperature.is_none());
    assert!(settings.stop_sequences.is_none());
    assert!(settings.top_p.is_none());
    assert!(settings.top_k.is_none());
    assert!(settings.presence_penalty.is_none());
    assert!(settings.frequency_penalty.is_none());
    assert!(settings.response_format.is_none());
    assert!(settings.seed.is_none());
    assert!(settings.abort_signal.is_none());
    assert!(settings.headers.is_none());
}

#[test]
fn call_settings_construction_all_set() {
    let mut headers = HashMap::new();
    headers.insert("x-key".to_string(), Some("value-1".to_string()));
    headers.insert("x-empty".to_string(), None);
    let settings = LanguageModelV1CallSettings::new(
        Some(256),
        Some(0.7_f32.to_bits()),
        Some(vec!["\n\n".to_string(), "END".to_string()]),
        Some(0.95_f32.to_bits()),
        Some(40),
        Some(0.5_f32.to_bits()),
        Some((-0.5_f32).to_bits()),
        Some(ResponseFormat::Json {
            schema: ResponseFormatJsonSchema::JsonSchemaString("{\"type\":\"object\"}".to_string()),
            name: Some("answer".to_string()),
            description: Some("the structured answer".to_string()),
        }),
        Some(42),
        Some(AbortSignal::new()),
        Some(headers),
    );
    assert_eq!(settings.max_tokens, Some(256));
    assert_eq!(settings.temperature.map(f32::from_bits), Some(0.7));
    assert_eq!(settings.top_p.map(f32::from_bits), Some(0.95));
    assert_eq!(settings.top_k, Some(40));
    assert_eq!(settings.seed, Some(42));
    assert_eq!(
        settings.stop_sequences,
        Some(vec!["\n\n".to_string(), "END".to_string()])
    );
    let headers = settings.headers.expect("headers were set");
    assert_eq!(headers.get("x-key"), Some(&Some("value-1".to_string())));
    assert_eq!(headers.get("x-empty"), Some(&None));
    assert!(!headers.contains_key("x-omitted"));
}

#[test]
fn render_schema_unrenderable_type_yields_empty_object() {
    let source = ResponseFormatJsonSchema::Struct(TypedSchema { document: None });
    assert_eq!(render_schema(&source), "{}");
}

#[test]
fn render_schema_raw_string_verbatim() {
    let raw = "{\"type\":\"array\"} not even json";
    let source = ResponseFormatJsonSchema::JsonSchemaString(raw.to_string());
    assert_eq!(render_schema(&source), raw);
}

#[test]
fn render_schema_derived_from_type_shape() {
    let typed = TypedSchema::for_type::<bool>();
    let document = typed.document.clone().expect("a boolean schema must render");
    assert!(document.contains("boolean"));
    let source = ResponseFormatJsonSchema::Struct(typed);
    let rendered = render_schema(&source);
    assert_eq!(rendered, document);
    assert_ne!(rendered, "{}");
}

#[test]
fn schema_source_for_derives_from_type_shape() {
    let source = unifai::schema_source_for::<bool>();
    let rendered = render_schema(&source);
    assert!(rendered.contains("boolean"));
    assert_ne!(rendered, "{}");
}

#[test]
fn to_json_schema_matches_render() {
    let typed = TypedSchema::for_type::<String>();
    let rendered = typed.render();
    assert_eq!(typed.to_json_schema(), rendered);
    let unrenderable = TypedSchema { document: None };
    assert_eq!(unrenderable.to_json_schema(), "{}");
}

#[test]
fn empty_completion_is_valid() {
    let usage = LanguageModelV1Usage { prompt_tokens: 7, completion_tokens: 0 };
    let result = LanguageModelV1GenerationResult::empty_completion(
        LanguageModelV1FinishReason::Stop,
        usage,
    );
    assert!(result.text.is_none());
    assert!(result.tool_calls.is_none());
    assert_eq!(result.finish_reason, LanguageModelV1FinishReason::Stop);
    assert_eq!(result.usage, usage);
}

#[test]
fn triggered_signal_cancels_before_generation() {
    let mut signal = AbortSignal::new();
    assert!(!signal.is_triggered());
    signal.trigger();
    assert!(signal.is_triggered());
    let mut settings = LanguageModelV1CallSettings::empty();
    settings.abort_signal = Some(signal);
    let options = LanguageModelV1CallOptions { settings };
    let outcome = generate::<EchoModel>(options);
    assert_eq!(outcome.err(), Some(GenerationError::Cancelled));
}

#[test]
fn untriggered_signal_lets_generation_run() {
    let mut settings = LanguageModelV1CallSettings::empty();
    settings.abort_signal = Some(AbortSignal::new());
    let options = LanguageModelV1CallOptions { settings };
    let result = generate::<EchoModel>(options).ok().expect("backend must run");
    assert_eq!(result.finish_reason, LanguageModelV1FinishReason::Stop);
    assert_eq!(result.usage.prompt_tokens, 3);
}
