use ai_gateway::balance::{BalanceConfigInner, WeightedModel, WeightedProvider};
use ai_gateway::listing::{
    distinct_providers, merge_providers, model_providers, models_without_provider,
    owned_providers, weighted_model_providers, weighted_models_without_provider,
    weighted_providers,
};
use ai_gateway::provider::{InferenceProvider, ModelId};
use ai_gateway::weight::Weight;
use indexmap::IndexSet;
use nonempty_collections::NESet;

fn named(name: &str) -> InferenceProvider {
    InferenceProvider::Named(name.to_string())
}

fn provided(provider: InferenceProvider, name: &str) -> ModelId {
    ModelId::Provided { provider, name: name.to_string() }
}

fn listed(set: &IndexSet<InferenceProvider>) -> Vec<InferenceProvider> {
    set.iter().cloned().collect()
}

#[test]
fn distinct_keeps_first_occurrences_in_order() {
    let candidates = vec![
        named("groq"),
        InferenceProvider::OpenAI,
        named("groq"),
        InferenceProvider::Anthropic,
        InferenceProvider::OpenAI,
    ];
    let found = distinct_providers(&candidates);
    assert_eq!(
        listed(&found),
        vec![named("groq"), InferenceProvider::OpenAI, InferenceProvider::Anthropic]
    );
    assert_eq!(distinct_providers(&Vec::new()).len(), 0);
}

#[test]
fn merge_joins_lists_in_order_without_repeats() {
    let first = distinct_providers(&vec![InferenceProvider::Ollama, InferenceProvider::OpenAI]);
    let second = distinct_providers(&vec![InferenceProvider::OpenAI, InferenceProvider::Bedrock]);
    let third = distinct_providers(&vec![InferenceProvider::Ollama]);
    let merged = merge_providers(&vec![first, second, third]);
    assert_eq!(
        listed(&merged),
        vec![InferenceProvider::Ollama, InferenceProvider::OpenAI, InferenceProvider::Bedrock]
    );
}

#[test]
fn candidates_follow_the_walked_items() {
    let a = WeightedProvider { provider: named("xai"), weight: Weight::from_u64(1) };
    let b = WeightedProvider { provider: InferenceProvider::Bedrock, weight: Weight::from_u64(2) };
    assert_eq!(weighted_providers(&vec![&a, &b]), vec![named("xai"), InferenceProvider::Bedrock]);
    let p = InferenceProvider::GoogleGemini;
    let q = named("ionet");
    assert_eq!(owned_providers(&vec![&p, &q]), vec![p.clone(), q.clone()]);

    let m1 = provided(InferenceProvider::Anthropic, "sonnet");
    let m2 = ModelId::Unknown("mystery".to_string());
    let m3 = provided(InferenceProvider::OpenAI, "gpt-4o");
    assert_eq!(
        model_providers(&vec![&m1, &m2, &m3]),
        vec![InferenceProvider::Anthropic, InferenceProvider::OpenAI]
    );
    assert_eq!(models_without_provider(&vec![&m1, &m2, &m3]), vec![m2.clone()]);

    let w1 = WeightedModel { model: m2.clone(), weight: Weight::from_u64(1) };
    let w2 = WeightedModel { model: m3.clone(), weight: Weight::from_u64(3) };
    assert_eq!(weighted_model_providers(&vec![&w1, &w2]), vec![InferenceProvider::OpenAI]);
    assert_eq!(weighted_models_without_provider(&vec![&w1, &w2]), vec![m2]);
}

#[test]
fn strategy_lists_providers_in_the_walk_order_of_its_set() {
    let mut set = NESet::new(InferenceProvider::OpenAI);
    set.insert(InferenceProvider::Anthropic);
    set.insert(InferenceProvider::GoogleGemini);
    set.insert(named("groq"));
    let walk: Vec<InferenceProvider> = set.iter().cloned().collect();
    let inner = BalanceConfigInner::BalancedLatency { providers: set };
    assert_eq!(listed(&inner.providers()), walk);
}

#[test]
fn skipped_models_are_reported() {
    let mut models = NESet::new(provided(InferenceProvider::OpenAI, "gpt-4o"));
    models.insert(ModelId::Unknown("mystery".to_string()));
    let inner = BalanceConfigInner::ModelLatency { models };
    assert_eq!(inner.models_without_provider(), vec![ModelId::Unknown("mystery".to_string())]);

    let weighted = NESet::new(WeightedModel {
        model: ModelId::Unknown("other".to_string()),
        weight: Weight::from_u64(1),
    });
    let inner = BalanceConfigInner::ModelWeighted { models: weighted };
    assert_eq!(inner.models_without_provider(), vec![ModelId::Unknown("other".to_string())]);
    assert_eq!(inner.providers().len(), 0);

    let providers = BalanceConfigInner::BalancedLatency {
        providers: NESet::new(InferenceProvider::Ollama),
    };
    assert!(providers.models_without_provider().is_empty());
}

#[test]
fn one_endpoint_config_lists_its_strategy_in_order() {
    let mut set = NESet::new(InferenceProvider::OpenAI);
    set.insert(InferenceProvider::Bedrock);
    set.insert(named("deepseek"));
    set.insert(InferenceProvider::Ollama);
    let mut config = ai_gateway::balance::BalanceConfig::new();
    config.insert(
        ai_gateway::EndpointType::Chat,
        BalanceConfigInner::BalancedLatency { providers: set },
    );
    let strategy = config.get(ai_gateway::EndpointType::Chat).unwrap();
    assert_eq!(listed(&config.providers()), listed(&strategy.providers()));
}
