use unifai::LanguageModelV1;
use unifai::LanguageModelV1ObjectGenerationMode;
use unifai::NoSuchModelError;
use unifai::Provider;
use unifai::ProviderRegistry;

fn demo_model(provider: &str, model_id: &str) -> LanguageModelV1 {
    LanguageModelV1::new(
        "v1".to_string(),
        provider.to_string(),
        model_id.to_string(),
        LanguageModelV1ObjectGenerationMode::Json,
    )
}

#[test]
fn resolve_unregistered_id_message() {
    let registry = ProviderRegistry::new();
    let err = registry.resolve("gpt-9").err().expect("lookup must miss");
    assert_eq!(err.message(), "No model named gpt-9 found.");
    assert_eq!(err.model_id().as_str(), "gpt-9");
}

#[test]
fn error_message_exact_format() {
    let err = NoSuchModelError::new("a b".to_string());
    assert_eq!(err.message(), "No model named a b found.");
    let empty = NoSuchModelError::new(String::new());
    assert_eq!(empty.message(), "No model named  found.");
}

#[test]
fn resolve_twice_identical_descriptors() {
    let mut registry = ProviderRegistry::new();
    assert!(registry.register(demo_model("demo", "echo-1")));
    let first = registry.resolve("echo-1").ok().expect("registered id must resolve");
    let first_model_id = first.model_id.clone();
    let first_provider = first.provider.clone();
    let second = registry.resolve("echo-1").ok().expect("registered id must resolve");
    assert_eq!(first_model_id, second.model_id);
    assert_eq!(first_provider, second.provider);
}

#[test]
fn register_duplicate_id_keeps_original_entry() {
    let mut registry = ProviderRegistry::new();
    assert!(registry.register(demo_model("demo", "echo-1")));
    let mut other = demo_model("other", "echo-1");
    other.supports_grammar_guided_generation = true;
    assert!(!registry.register(other));
    let resolved = registry.resolve("echo-1").ok().expect("registered id must resolve");
    assert_eq!(resolved.provider, "demo");
    assert!(!resolved.supports_grammar_guided_generation);
}

#[test]
fn register_many_then_resolve_each() {
    let mut registry = ProviderRegistry::new();
    assert!(registry.register(demo_model("alpha", "m-1")));
    assert!(registry.register(demo_model("beta", "m-2")));
    assert!(registry.register(demo_model("gamma", "m-3")));
    assert_eq!(registry.resolve("m-2").ok().expect("must resolve").provider, "beta");
    assert_eq!(registry.resolve("m-1").ok().expect("must resolve").provider, "alpha");
    assert_eq!(registry.resolve("m-3").ok().expect("must resolve").provider, "gamma");
}

#[test]
fn end_to_end_demo_provider() {
    let mut registry = ProviderRegistry::new();
    assert!(registry.register(demo_model("demo", "echo-1")));
    let resolved = registry.resolve("echo-1");
    assert!(resolved.is_ok());
    let err = registry.resolve("echo-2").err().expect("unregistered id must miss");
    assert_eq!(err.message(), "No model named echo-2 found.");
}

#[test]
fn provider_trait_hands_out_value_copies() {
    let mut registry = ProviderRegistry::new();
    assert!(registry.register(demo_model("demo", "echo-1")));
    let model = registry.language_model("echo-1").ok().expect("registered id must resolve");
    assert_eq!(model.model_id, "echo-1");
    assert_eq!(model.provider, "demo");
    assert_eq!(model.specification_version, "v1");
    let err = registry.language_model("echo-2").err().expect("unregistered id must miss");
    assert_eq!(err.message(), "No model named echo-2 found.");
}

#[test]
fn descriptor_defaults() {
    let model = demo_model("demo", "echo-1");
    assert!(model.support_urls);
    assert!(!model.supports_grammar_guided_generation);
    let copy = model.duplicate();
    assert_eq!(copy.model_id, model.model_id);
    assert_eq!(copy.provider, model.provider);
    assert_eq!(copy.specification_version, model.specification_version);
    assert_eq!(copy.support_urls, model.support_urls);
}
