use ai_gateway::endpoints::{Anthropic, ApiEndpoint, Bedrock, Google, Ollama, OpenAI};
use ai_gateway::provider::{InferenceProvider, ModelId};
use ai_gateway::registry::{ConverterKind, EndpointConverterRegistry, ModelMapper, RegistryKey};

fn mapper() -> ModelMapper {
    ModelMapper {
        mappings: vec![(
            ModelId::Provided { provider: InferenceProvider::OpenAI, name: "gpt-4o".to_string() },
            ModelId::Provided {
                provider: InferenceProvider::Anthropic,
                name: "sonnet-3-5".to_string(),
            },
        )],
    }
}

fn chat() -> ApiEndpoint {
    ApiEndpoint::OpenAI(OpenAI::chat_completions())
}

fn compatible(name: &str) -> ApiEndpoint {
    ApiEndpoint::OpenAICompatible {
        provider: InferenceProvider::Named(name.to_string()),
        openai_endpoint: OpenAI::chat_completions(),
    }
}

#[test]
fn converters_exist_for_every_supported_target() {
    let registry = EndpointConverterRegistry::new(&mapper());
    let cases = vec![
        (ApiEndpoint::Anthropic(Anthropic::messages()), ConverterKind::Anthropic),
        (
            ApiEndpoint::Google(Google::generate_contents()),
            ConverterKind::OpenAICompatible(InferenceProvider::GoogleGemini),
        ),
        (chat(), ConverterKind::OpenAI),
        (ApiEndpoint::Ollama(Ollama::chat_completions()), ConverterKind::Ollama),
        (ApiEndpoint::Bedrock(Bedrock::converse()), ConverterKind::Bedrock),
    ];
    for (target, kind) in cases {
        let converter = registry.get_converter(&chat(), &target).expect("converter registered");
        assert_eq!(converter.source, chat());
        assert_eq!(converter.target, target);
        assert_eq!(converter.kind, kind);
        assert_eq!(converter.model_mapper.mappings, mapper().mappings);
    }
    for name in ["mistral", "groq", "deepseek", "xai", "hyperbolic", "ionet"] {
        let converter =
            registry.get_converter(&chat(), &compatible(name)).expect("converter registered");
        assert_eq!(converter.target, compatible(name));
        assert_eq!(
            converter.kind,
            ConverterKind::OpenAICompatible(InferenceProvider::Named(name.to_string()))
        );
    }
}

#[test]
fn no_converter_for_other_pairs() {
    let registry = EndpointConverterRegistry::new(&mapper());
    let anthropic = ApiEndpoint::Anthropic(Anthropic::messages());
    assert!(registry.get_converter(&anthropic, &chat()).is_none());
    assert!(registry.get_converter(&anthropic, &anthropic).is_none());
    assert!(registry.get_converter(&chat(), &compatible("unknown")).is_none());
    let named_without_compat = ApiEndpoint::OpenAICompatible {
        provider: InferenceProvider::OpenAI,
        openai_endpoint: OpenAI::chat_completions(),
    };
    assert!(registry.get_converter(&chat(), &named_without_compat).is_none());
    let ollama = ApiEndpoint::Ollama(Ollama::chat_completions());
    assert!(registry.get_converter(&ollama, &ApiEndpoint::Bedrock(Bedrock::converse())).is_none());
}

#[test]
fn default_registry_is_empty() {
    let registry = EndpointConverterRegistry::default();
    assert!(registry.get_converter(&chat(), &chat()).is_none());
}

#[test]
fn cloned_registry_serves_the_same_converters() {
    let registry = EndpointConverterRegistry::new(&mapper());
    let copy = registry.clone();
    let target = compatible("xai");
    let a = registry.get_converter(&chat(), &target).unwrap();
    let b = copy.get_converter(&chat(), &target).unwrap();
    assert!(std::ptr::eq(a, b));
}

#[test]
fn registry_keys_compare_by_both_endpoints() {
    let a = RegistryKey::new(chat(), compatible("groq"));
    let b = RegistryKey::new(chat(), compatible("groq"));
    let c = RegistryKey::new(chat(), compatible("xai"));
    let d = RegistryKey::new(compatible("groq"), chat());
    assert_eq!(a, b);
    assert_ne!(a, c);
    assert_ne!(a, d);
}

#[test]
fn model_mapper_clone_keeps_mappings() {
    let m = mapper();
    assert_eq!(m.clone().mappings, m.mappings);
}
