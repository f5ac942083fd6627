use ai_gateway::balance::{BalanceConfig, BalanceConfigInner, WeightedModel, WeightedProvider};
use ai_gateway::provider::{InferenceProvider, ModelId};
use ai_gateway::weight::Weight;
use ai_gateway::EndpointType;
use indexmap::IndexSet;
use nonempty_collections::NESet;

fn named(name: &str) -> InferenceProvider {
    InferenceProvider::Named(name.to_string())
}

fn sorted_names(set: &IndexSet<InferenceProvider>) -> Vec<String> {
    let mut names: Vec<String> = set.iter().map(|p| format!("{:?}", p)).collect();
    names.sort();
    names
}

fn weighted(provider: InferenceProvider, weight: u64) -> WeightedProvider {
    WeightedProvider { provider, weight: Weight::from_u64(weight) }
}

fn provided(provider: InferenceProvider, name: &str) -> ModelId {
    ModelId::Provided { provider, name: name.to_string() }
}

#[test]
fn default_config_balances_chat_by_latency_over_three_providers() {
    let config = BalanceConfig::default();
    let chat = config.get(EndpointType::Chat).expect("chat is configured");
    assert_eq!(chat.as_str(), "balanced-latency");
    assert!(config.get(EndpointType::Image).is_none());
    let providers = config.providers();
    assert_eq!(providers.len(), 3);
    assert!(providers.contains(&InferenceProvider::OpenAI));
    assert!(providers.contains(&InferenceProvider::Anthropic));
    assert!(providers.contains(&InferenceProvider::GoogleGemini));
}

#[test]
fn single_provider_configs_name_their_provider() {
    let cases = vec![
        (BalanceConfig::openai_chat(), InferenceProvider::OpenAI),
        (BalanceConfig::anthropic_chat(), InferenceProvider::Anthropic),
        (BalanceConfig::google_gemini(), InferenceProvider::GoogleGemini),
        (BalanceConfig::ollama_chat(), InferenceProvider::Ollama),
        (BalanceConfig::bedrock(), InferenceProvider::Bedrock),
        (BalanceConfig::mistral(), named("mistral")),
        (BalanceConfig::ionet_chat(), named("ionet")),
    ];
    for (config, provider) in cases {
        let providers = config.providers();
        assert_eq!(providers.len(), 1);
        assert_eq!(providers.get_index(0), Some(&provider));
        match config.get(EndpointType::Chat) {
            Some(BalanceConfigInner::ProviderWeighted { providers }) => {
                assert_eq!(providers.len().get(), 1);
                let only = providers.iter().next().unwrap();
                assert_eq!(only.provider, provider);
                assert_eq!(only.weight.mantissa(), 1);
                assert_eq!(only.weight.scale(), 0);
            }
            other => panic!("unexpected strategy {:?}", other),
        }
    }
}

#[test]
fn provider_weighted_strategy_lists_each_provider_once() {
    let mut set = NESet::new(weighted(InferenceProvider::OpenAI, 1));
    set.insert(weighted(InferenceProvider::OpenAI, 2));
    set.insert(weighted(named("groq"), 3));
    let inner = BalanceConfigInner::ProviderWeighted { providers: set };
    let providers = inner.providers();
    assert_eq!(providers.len(), 2);
    assert!(providers.contains(&InferenceProvider::OpenAI));
    assert!(providers.contains(&named("groq")));
    assert_eq!(inner.as_str(), "provider-weighted");
}

#[test]
fn balanced_latency_strategy_lists_its_providers() {
    let mut set = NESet::new(InferenceProvider::Bedrock);
    set.insert(InferenceProvider::Ollama);
    let inner = BalanceConfigInner::BalancedLatency { providers: set };
    let providers = inner.providers();
    assert_eq!(sorted_names(&providers), vec!["Bedrock".to_string(), "Ollama".to_string()]);
}

#[test]
fn model_strategies_skip_models_without_a_provider() {
    let mut models = NESet::new(provided(InferenceProvider::OpenAI, "gpt-4o"));
    models.insert(provided(InferenceProvider::OpenAI, "gpt-4o-mini"));
    models.insert(ModelId::Unknown("mystery".to_string()));
    models.insert(provided(InferenceProvider::Anthropic, "sonnet-3-5"));
    let inner = BalanceConfigInner::ModelLatency { models };
    let providers = inner.providers();
    assert_eq!(providers.len(), 2);
    assert!(providers.contains(&InferenceProvider::OpenAI));
    assert!(providers.contains(&InferenceProvider::Anthropic));
    assert_eq!(inner.as_str(), "model-latency");

    let mut weighted_models = NESet::new(WeightedModel {
        model: ModelId::Unknown("mystery".to_string()),
        weight: Weight::from_u64(1),
    });
    let only_unknown = BalanceConfigInner::ModelWeighted { models: weighted_models.clone() };
    assert_eq!(only_unknown.providers().len(), 0);
    weighted_models.insert(WeightedModel {
        model: provided(named("deepseek"), "deepseek-chat"),
        weight: Weight::from_u64(2),
    });
    let inner = BalanceConfigInner::ModelWeighted { models: weighted_models };
    let providers = inner.providers();
    assert_eq!(providers.len(), 1);
    assert_eq!(providers.get_index(0), Some(&named("deepseek")));
    assert_eq!(inner.as_str(), "model-weighted");
}

#[test]
fn config_providers_are_the_union_over_endpoint_types() {
    let mut config = BalanceConfig::new();
    assert_eq!(config.providers().len(), 0);
    let mut chat = NESet::new(InferenceProvider::OpenAI);
    chat.insert(InferenceProvider::Anthropic);
    config.insert(EndpointType::Chat, BalanceConfigInner::BalancedLatency { providers: chat });
    let image = NESet::new(weighted(InferenceProvider::OpenAI, 1));
    config.insert(EndpointType::Image, BalanceConfigInner::ProviderWeighted { providers: image });
    let audio = NESet::new(provided(InferenceProvider::GoogleGemini, "gemini-2.0-flash"));
    config.insert(EndpointType::Audio, BalanceConfigInner::ModelLatency { models: audio });
    let providers = config.providers();
    assert_eq!(
        sorted_names(&providers),
        vec!["Anthropic".to_string(), "GoogleGemini".to_string(), "OpenAI".to_string()]
    );
}

#[test]
fn inserting_a_strategy_replaces_the_previous_one() {
    let mut config = BalanceConfig::openai_chat();
    let replacement = NESet::new(InferenceProvider::Ollama);
    config.insert(EndpointType::Chat, BalanceConfigInner::BalancedLatency { providers: replacement });
    let providers = config.providers();
    assert_eq!(providers.len(), 1);
    assert_eq!(providers.get_index(0), Some(&InferenceProvider::Ollama));
    assert_eq!(config.get(EndpointType::Chat).unwrap().as_str(), "balanced-latency");
}

#[test]
fn cloned_strategy_equals_its_source() {
    let mut set = NESet::new(weighted(InferenceProvider::OpenAI, 1));
    set.insert(weighted(named("xai"), 4));
    let inner = BalanceConfigInner::ProviderWeighted { providers: set };
    let copy = inner.clone();
    assert_eq!(copy, inner);
}

#[test]
fn model_id_names_its_provider() {
    assert_eq!(
        provided(InferenceProvider::Bedrock, "titan-text").inference_provider(),
        Some(InferenceProvider::Bedrock)
    );
    assert_eq!(ModelId::Unknown("x".to_string()).inference_provider(), None);
}

#[test]
fn providers_compare_by_value() {
    assert_eq!(named("groq"), named("groq"));
    assert_ne!(named("groq"), named("xai"));
    assert_ne!(InferenceProvider::OpenAI, named("openai"));
    assert_eq!(InferenceProvider::Ollama.clone(), InferenceProvider::Ollama);
}
