//! Load-balancing configuration: which providers (or models) serve each
//! endpoint type, and with which strategy.
use vstd::prelude::*;
use vstd::std_specs::cmp::PartialEqSpecImpl;
use vstd::std_specs::iter::IteratorSpec;
use nonempty_collections::NESet;
use std::collections::HashMap;
use indexmap::IndexSet;
use crate::index_set::provider_index_items;
use crate::listing::{
    concat_items, distinct, distinct_providers, known_providers, lemma_concat_items,
    lemma_distinct, lemma_distinct_of_distinct, lemma_known_providers, lemma_unknown_models,
    lemma_unknown_models_no_duplicates, merge_providers, model_providers, models_without_provider,
    owned_providers, unknown_models, weighted_model_providers, weighted_models_without_provider,
    weighted_providers,
};
use crate::ne_set::{
    model_set_clone, model_set_contents, model_set_items, provider_set_clone,
    provider_set_contents, provider_set_insert, provider_set_items, provider_set_new,
    weighted_model_set_clone, weighted_model_set_contents, weighted_model_set_items,
    weighted_provider_set_clone, weighted_provider_set_contents, weighted_provider_set_items,
    weighted_provider_set_new,
};
use crate::EndpointType;
use crate::provider::{InferenceProvider, ModelId, ModelIdView, ProviderView};
use crate::weight::{DecimalValue, Weight};

verus! {

/// A provider together with its share of the traffic.
#[derive(Debug, Eq, Hash)]
pub struct WeightedProvider {
    pub provider: InferenceProvider,
    pub weight: Weight,
}

/// The mathematical value of a [`WeightedProvider`].
pub struct WeightedProviderView {
    pub provider: ProviderView,
    pub weight: DecimalValue,
}

impl View for WeightedProvider {
    type V = WeightedProviderView;

    open spec fn view(&self) -> WeightedProviderView {
        WeightedProviderView { provider: self.provider@, weight: self.weight@ }
    }
}

impl Clone for WeightedProvider {
    fn clone(&self) -> (copy: Self)
        ensures
            copy == *self,
    {
        WeightedProvider { provider: self.provider.clone(), weight: self.weight }
    }
}

impl PartialEq for WeightedProvider {
    fn eq(&self, other: &Self) -> (same: bool) {
        self.provider.eq(&other.provider) && self.weight.eq(&other.weight)
    }
}

impl PartialEqSpecImpl for WeightedProvider {
    open spec fn obeys_eq_spec() -> bool {
        true
    }

    open spec fn eq_spec(&self, other: &WeightedProvider) -> bool {
        self@ == other@
    }
}

/// A model together with its share of the traffic.
#[derive(Debug, Eq, Hash)]
pub struct WeightedModel {
    pub model: ModelId,
    pub weight: Weight,
}

/// The mathematical value of a [`WeightedModel`].
pub struct WeightedModelView {
    pub model: ModelIdView,
    pub weight: DecimalValue,
}

impl View for WeightedModel {
    type V = WeightedModelView;

    open spec fn view(&self) -> WeightedModelView {
        WeightedModelView { model: self.model@, weight: self.weight@ }
    }
}

impl Clone for WeightedModel {
    fn clone(&self) -> (copy: Self)
        ensures
            copy == *self,
    {
        WeightedModel { model: self.model.clone(), weight: self.weight }
    }
}

impl PartialEq for WeightedModel {
    fn eq(&self, other: &Self) -> (same: bool) {
        self.model.eq(&other.model) && self.weight.eq(&other.weight)
    }
}

impl PartialEqSpecImpl for WeightedModel {
    open spec fn obeys_eq_spec() -> bool {
        true
    }

    open spec fn eq_spec(&self, other: &WeightedModel) -> bool {
        self@ == other@
    }
}


/// The strategy by which one endpoint type spreads its requests.
#[allow(inconsistent_fields)]
#[derive(Debug, PartialEq, Eq)]
pub enum BalanceConfigInner {
    /// Distributes requests among a set of providers, by weight.
    ProviderWeighted { providers: NESet<WeightedProvider> },
    /// Distributes requests among a set of providers, mostly to the one with
    /// the lowest latency.
    BalancedLatency { providers: NESet<InferenceProvider> },
    /// Distributes requests among a set of (provider, model) pairs, by weight.
    ModelWeighted { models: NESet<WeightedModel> },
    /// Distributes requests among a set of (provider, model) pairs, by latency.
    ModelLatency { models: NESet<ModelId> },
}

/// The mathematical value of a [`BalanceConfigInner`].
#[allow(inconsistent_fields)]
pub enum BalanceConfigInnerView {
    ProviderWeighted { providers: Set<WeightedProviderView> },
    BalancedLatency { providers: Set<ProviderView> },
    ModelWeighted { models: Set<WeightedModelView> },
    ModelLatency { models: Set<ModelIdView> },
}

impl View for BalanceConfigInner {
    type V = BalanceConfigInnerView;

    open spec fn view(&self) -> BalanceConfigInnerView {
        match self {
            BalanceConfigInner::ProviderWeighted { providers } => {
                BalanceConfigInnerView::ProviderWeighted {
                    providers: weighted_provider_set_contents(*providers),
                }
            },
            BalanceConfigInner::BalancedLatency { providers } => {
                BalanceConfigInnerView::BalancedLatency {
                    providers: provider_set_contents(*providers),
                }
            },
            BalanceConfigInner::ModelWeighted { models } => BalanceConfigInnerView::ModelWeighted {
                models: weighted_model_set_contents(*models),
            },
            BalanceConfigInner::ModelLatency { models } => BalanceConfigInnerView::ModelLatency {
                models: model_set_contents(*models),
            },
        }
    }
}

impl Clone for BalanceConfigInner {
    fn clone(&self) -> (copy: Self)
        ensures
            copy@ == self@,
    {
        match self {
            BalanceConfigInner::ProviderWeighted { providers } => {
                BalanceConfigInner::ProviderWeighted {
                    providers: weighted_provider_set_clone(providers),
                }
            },
            BalanceConfigInner::BalancedLatency { providers } => {
                BalanceConfigInner::BalancedLatency { providers: provider_set_clone(providers) }
            },
            BalanceConfigInner::ModelWeighted { models } => {
                BalanceConfigInner::ModelWeighted { models: weighted_model_set_clone(models) }
            },
            BalanceConfigInner::ModelLatency { models } => {
                BalanceConfigInner::ModelLatency { models: model_set_clone(models) }
            },
        }
    }
}

impl BalanceConfigInnerView {
    /// The providers that the strategy can send requests to: those named
    /// directly, and those that serve one of its models (a model whose
    /// provider is not known names none).
    pub open spec fn providers(self) -> Set<ProviderView> {
        match self {
            BalanceConfigInnerView::ProviderWeighted { providers } => providers.map(
                |w: WeightedProviderView| w.provider,
            ),
            BalanceConfigInnerView::BalancedLatency { providers } => providers,
            BalanceConfigInnerView::ModelWeighted { models } => Set::new(
                |p: ProviderView|
                    exists|m: WeightedModelView| models.contains(m) && m.model.provider() == Some(p),
            ),
            BalanceConfigInnerView::ModelLatency { models } => Set::new(
                |p: ProviderView|
                    exists|m: ModelIdView| models.contains(m) && m.provider() == Some(p),
            ),
        }
    }
}

impl BalanceConfigInner {
    /// The name of the strategy, in kebab case.
    pub fn as_str(&self) -> (name: &'static str)
        ensures
            name@ == match self@ {
                BalanceConfigInnerView::ProviderWeighted { .. } => "provider-weighted"@,
                BalanceConfigInnerView::BalancedLatency { .. } => "balanced-latency"@,
                BalanceConfigInnerView::ModelWeighted { .. } => "model-weighted"@,
                BalanceConfigInnerView::ModelLatency { .. } => "model-latency"@,
            },
    {
        match self {
            BalanceConfigInner::ProviderWeighted { .. } => "provider-weighted",
            BalanceConfigInner::BalancedLatency { .. } => "balanced-latency",
            BalanceConfigInner::ModelWeighted { .. } => "model-weighted",
            BalanceConfigInner::ModelLatency { .. } => "model-latency",
        }
    }
}

impl BalanceConfigInnerView {
    /// Whether `listed` is what listing this strategy's providers gives for
    /// some walk of its set: each item of the set met once, in some order,
    /// turned into its provider (a model without a known provider gives none),
    /// with repeats dropped so that each provider stands where it is first met.
    pub open spec fn lists_in_walk_order(self, listed: Seq<ProviderView>) -> bool {
        match self {
            BalanceConfigInnerView::ProviderWeighted { providers } => exists|
                walk: Seq<WeightedProviderView>,
            |
                #![trigger walk.to_set()]
                walk.no_duplicates() && walk.to_set() == providers && listed == distinct(
                    walk.map_values(|w: WeightedProviderView| w.provider),
                ),
            BalanceConfigInnerView::BalancedLatency { providers } => exists|walk: Seq<ProviderView>|
                #![trigger walk.to_set()]
                walk.no_duplicates() && walk.to_set() == providers && listed == distinct(walk),
            BalanceConfigInnerView::ModelWeighted { models } => exists|walk: Seq<WeightedModelView>|
                #![trigger walk.to_set()]
                walk.no_duplicates() && walk.to_set() == models && listed == distinct(
                    known_providers(walk.map_values(|m: WeightedModelView| m.model)),
                ),
            BalanceConfigInnerView::ModelLatency { models } => exists|walk: Seq<ModelIdView>|
                #![trigger walk.to_set()]
                walk.no_duplicates() && walk.to_set() == models && listed == distinct(
                    known_providers(walk),
                ),
        }
    }

    /// Whether `reported` is what reporting the models without a known
    /// provider gives for some walk of the strategy's set: each item met once,
    /// in some order, and the model of each whose provider is not known kept
    /// in that order. Strategies over providers report nothing.
    pub open spec fn reports_in_walk_order(self, reported: Seq<ModelIdView>) -> bool {
        match self {
            BalanceConfigInnerView::ModelWeighted { models } => exists|walk: Seq<WeightedModelView>|
                #![trigger walk.to_set()]
                walk.no_duplicates() && walk.to_set() == models && reported == unknown_models(
                    walk.map_values(|m: WeightedModelView| m.model),
                ),
            BalanceConfigInnerView::ModelLatency { models } => exists|walk: Seq<ModelIdView>|
                #![trigger walk.to_set()]
                walk.no_duplicates() && walk.to_set() == models && reported == unknown_models(walk),
            _ => reported.len() == 0,
        }
    }

    /// The models of the strategy whose provider is not known.
    pub open spec fn models_without_provider(self) -> Set<ModelIdView> {
        match self {
            BalanceConfigInnerView::ModelWeighted { models } => models.map(
                |m: WeightedModelView| m.model,
            ).filter(|m: ModelIdView| m.provider() is None),
            BalanceConfigInnerView::ModelLatency { models } => models.filter(
                |m: ModelIdView| m.provider() is None,
            ),
            _ => Set::empty(),
        }
    }
}

/// A walk-order listing of a strategy holds each provider once.
pub proof fn lemma_listing_has_no_duplicates(inner: BalanceConfigInnerView, listed: Seq<ProviderView>)
    requires
        inner.lists_in_walk_order(listed),
    ensures
        listed.no_duplicates(),
{
    match inner {
        BalanceConfigInnerView::ProviderWeighted { providers } => {
            let walk = choose|walk: Seq<WeightedProviderView>|
                #![trigger walk.to_set()]
                walk.no_duplicates() && walk.to_set() == providers && listed == distinct(
                    walk.map_values(|w: WeightedProviderView| w.provider),
                );
            lemma_distinct(walk.map_values(|w: WeightedProviderView| w.provider));
        },
        BalanceConfigInnerView::BalancedLatency { providers } => {
            let walk = choose|walk: Seq<ProviderView>|
                #![trigger walk.to_set()]
                walk.no_duplicates() && walk.to_set() == providers && listed == distinct(walk);
            lemma_distinct(walk);
        },
        BalanceConfigInnerView::ModelWeighted { models } => {
            let walk = choose|walk: Seq<WeightedModelView>|
                #![trigger walk.to_set()]
                walk.no_duplicates() && walk.to_set() == models && listed == distinct(
                    known_providers(walk.map_values(|m: WeightedModelView| m.model)),
                );
            lemma_distinct(known_providers(walk.map_values(|m: WeightedModelView| m.model)));
        },
        BalanceConfigInnerView::ModelLatency { models } => {
            let walk = choose|walk: Seq<ModelIdView>|
                #![trigger walk.to_set()]
                walk.no_duplicates() && walk.to_set() == models && listed == distinct(
                    known_providers(walk),
                );
            lemma_distinct(known_providers(walk));
        },
    }
}

/// A report of the models without a provider of a latency-over-models
/// strategy names each such model once.
pub proof fn lemma_latency_report_has_no_repeats(
    models: Set<ModelIdView>,
    reported: Seq<ModelIdView>,
)
    requires
        (BalanceConfigInnerView::ModelLatency { models }).reports_in_walk_order(reported),
    ensures
        reported.no_duplicates(),
        reported.to_set() == models.filter(|m: ModelIdView| m.provider() is None),
{
    let walk = choose|walk: Seq<ModelIdView>|
        #![trigger walk.to_set()]
        walk.no_duplicates() && walk.to_set() == models && reported == unknown_models(walk);
    lemma_unknown_models_no_duplicates(walk);
    lemma_unknown_models(walk);
    assert(reported.to_set() =~= models.filter(|m: ModelIdView| m.provider() is None));
}

/// A latency-over-models strategy can send requests to provider `p` exactly
/// when one of its models is served by `p`.
pub proof fn lemma_model_latency_providers(models: Set<ModelIdView>, p: ProviderView)
    ensures
        (BalanceConfigInnerView::ModelLatency { models }).providers().contains(p) <==> exists|
            name: Seq<char>,
        | #[trigger] models.contains(ModelIdView::Provided { provider: p, name }),
{
    let inner = BalanceConfigInnerView::ModelLatency { models };
    if inner.providers().contains(p) {
        let m = choose|m: ModelIdView| models.contains(m) && m.provider() == Some(p);
        if let ModelIdView::Provided { provider, name } = m {
            assert(models.contains(ModelIdView::Provided { provider: p, name }));
        }
    }
    if exists|name: Seq<char>| #[trigger] models.contains(ModelIdView::Provided { provider: p, name }) {
        let name = choose|name: Seq<char>| #[trigger] models.contains(ModelIdView::Provided { provider: p, name });
        let m = ModelIdView::Provided { provider: p, name };
        assert(models.contains(m) && m.provider() == Some(p));
    }
}

/// A weighted-over-models strategy can send requests to provider `p` exactly
/// when one of its weighted models is a model served by `p`.
pub proof fn lemma_model_weighted_providers(models: Set<WeightedModelView>, p: ProviderView)
    ensures
        (BalanceConfigInnerView::ModelWeighted { models }).providers().contains(p) <==> exists|
            name: Seq<char>,
            weight: DecimalValue,
        | #[trigger] models.contains(
            WeightedModelView { model: ModelIdView::Provided { provider: p, name }, weight },
        ),
{
    let inner = BalanceConfigInnerView::ModelWeighted { models };
    if inner.providers().contains(p) {
        let m = choose|m: WeightedModelView| models.contains(m) && m.model.provider() == Some(p);
        if let ModelIdView::Provided { provider, name } = m.model {
            assert(models.contains(
                WeightedModelView { model: ModelIdView::Provided { provider: p, name }, weight: m.weight },
            ));
        }
    }
    if exists|name: Seq<char>, weight: DecimalValue| #[trigger] models.contains(
        WeightedModelView { model: ModelIdView::Provided { provider: p, name }, weight },
    ) {
        let (name, weight) = choose|name: Seq<char>, weight: DecimalValue| #[trigger] models.contains(
            WeightedModelView { model: ModelIdView::Provided { provider: p, name }, weight },
        );
        let m = WeightedModelView { model: ModelIdView::Provided { provider: p, name }, weight };
        assert(models.contains(m) && m.model.provider() == Some(p));
    }
}

impl BalanceConfigInner {
    /// The providers that this strategy can send requests to, each once, in
    /// the order in which the walk of the strategy's set first meets them.
    /// Which walk that is, the underlying hash set decides; the listing for a
    /// given walk is [`distinct_providers`] of the walked items' providers.
    pub fn providers(&self) -> (found: IndexSet<InferenceProvider>)
        ensures
            self@.lists_in_walk_order(provider_index_items(found)),
            provider_index_items(found).no_duplicates(),
            provider_index_items(found).to_set() == self@.providers(),
            self@ is ProviderWeighted || self@ is BalancedLatency ==> provider_index_items(found).len() > 0,
    {
        match self {
            BalanceConfigInner::ProviderWeighted { providers } => {
                let walked = weighted_provider_set_items(providers);
                let candidates = weighted_providers(&walked);
                let found = distinct_providers(&candidates);
                proof {
                    let walk = walked@.map_values(|w: &WeightedProvider| w@);
                    let f = |w: WeightedProviderView| w.provider;
                    let cands = candidates@.map_values(|p: InferenceProvider| p@);
                    assert(cands =~= walk.map_values(f));
                    lemma_distinct(cands);
                    walk.lemma_to_set_map_commutes(f);
                    assert(self@.lists_in_walk_order(provider_index_items(found)));
                    assert(cands[0] == cands[0]);
                    assert(cands.contains(cands[0]));
                    assert(provider_index_items(found).contains(cands[0]));
                }
                found
            },
            BalanceConfigInner::BalancedLatency { providers } => {
                let walked = provider_set_items(providers);
                let candidates = owned_providers(&walked);
                let found = distinct_providers(&candidates);
                proof {
                    let walk = walked@.map_values(|p: &InferenceProvider| p@);
                    let cands = candidates@.map_values(|p: InferenceProvider| p@);
                    assert(cands =~= walk);
                    lemma_distinct(cands);
                    assert(self@.lists_in_walk_order(provider_index_items(found)));
                    assert(cands.contains(cands[0]));
                    assert(provider_index_items(found).contains(cands[0]));
                }
                found
            },
            BalanceConfigInner::ModelWeighted { models } => {
                let walked = weighted_model_set_items(models);
                let candidates = weighted_model_providers(&walked);
                let found = distinct_providers(&candidates);
                proof {
                    let walk = walked@.map_values(|m: &WeightedModel| m@);
                    let ms = walk.map_values(|m: WeightedModelView| m.model);
                    assert(ms =~= walked@.map_values(|m: &WeightedModel| m@.model));
                    let cands = candidates@.map_values(|p: InferenceProvider| p@);
                    lemma_distinct(cands);
                    lemma_known_providers(ms);
                    assert(self@.lists_in_walk_order(provider_index_items(found)));
                    assert forall|p: ProviderView|
                        #[trigger] cands.contains(p) <==> self@.providers().contains(p) by {
                        if cands.contains(p) {
                            let j = choose|j: int| 0 <= j < ms.len() && #[trigger] ms[j].provider() == Some(p);
                            assert(walk.contains(walk[j]));
                            assert(weighted_model_set_contents(*models).contains(walk[j]));
                        }
                        if self@.providers().contains(p) {
                            let m = choose|m: WeightedModelView| weighted_model_set_contents(*models).contains(m) && m.model.provider() == Some(p);
                            assert(walk.to_set().contains(m));
                            let j = choose|j: int| 0 <= j < walk.len() && walk[j] == m;
                            assert(ms[j].provider() == Some(p));
                        }
                    }
                    assert(cands.to_set() =~= self@.providers());
                }
                found
            },
            BalanceConfigInner::ModelLatency { models } => {
                let walked = model_set_items(models);
                let candidates = model_providers(&walked);
                let found = distinct_providers(&candidates);
                proof {
                    let walk = walked@.map_values(|m: &ModelId| m@);
                    let cands = candidates@.map_values(|p: InferenceProvider| p@);
                    lemma_distinct(cands);
                    lemma_known_providers(walk);
                    assert(self@.lists_in_walk_order(provider_index_items(found)));
                    assert forall|p: ProviderView|
                        #[trigger] cands.contains(p) <==> self@.providers().contains(p) by {
                        if cands.contains(p) {
                            let j = choose|j: int| 0 <= j < walk.len() && #[trigger] walk[j].provider() == Some(p);
                            assert(walk.contains(walk[j]));
                            assert(model_set_contents(*models).contains(walk[j]));
                        }
                        if self@.providers().contains(p) {
                            let m = choose|m: ModelIdView| model_set_contents(*models).contains(m) && m.provider() == Some(p);
                            assert(walk.to_set().contains(m));
                            let j = choose|j: int| 0 <= j < walk.len() && walk[j] == m;
                            assert(walk[j].provider() == Some(p));
                        }
                    }
                    assert(cands.to_set() =~= self@.providers());
                }
                found
            },
        }
    }

    /// The models of this strategy whose provider is not known, in the order
    /// in which the walk of the strategy's set meets them: those that
    /// [`BalanceConfigInner::providers`] skips. Strategies over providers have
    /// none.
    pub fn models_without_provider(&self) -> (skipped: Vec<ModelId>)
        ensures
            skipped@.map_values(|m: ModelId| m@).to_set() == self@.models_without_provider(),
            self@.reports_in_walk_order(skipped@.map_values(|m: ModelId| m@)),
            self@ is ModelLatency ==> skipped@.map_values(|m: ModelId| m@).no_duplicates(),
    {
        match self {
            BalanceConfigInner::ModelWeighted { models } => {
                let walked = weighted_model_set_items(models);
                let skipped = weighted_models_without_provider(&walked);
                proof {
                    let walk = walked@.map_values(|m: &WeightedModel| m@);
                    let ms = walk.map_values(|m: WeightedModelView| m.model);
                    assert(ms =~= walked@.map_values(|m: &WeightedModel| m@.model));
                    lemma_unknown_models(ms);
                    walk.lemma_to_set_map_commutes(|m: WeightedModelView| m.model);
                    assert(skipped@.map_values(|m: ModelId| m@).to_set() =~= self@.models_without_provider());
                    assert(self@.reports_in_walk_order(skipped@.map_values(|m: ModelId| m@)));
                }
                skipped
            },
            BalanceConfigInner::ModelLatency { models } => {
                let walked = model_set_items(models);
                let skipped = models_without_provider(&walked);
                proof {
                    let walk = walked@.map_values(|m: &ModelId| m@);
                    lemma_unknown_models(walk);
                    lemma_unknown_models_no_duplicates(walk);
                    assert(skipped@.map_values(|m: ModelId| m@).to_set() =~= self@.models_without_provider());
                    assert(self@.reports_in_walk_order(skipped@.map_values(|m: ModelId| m@)));
                }
                skipped
            },
            _ => {
                let skipped: Vec<ModelId> = Vec::new();
                assert(skipped@.map_values(|m: ModelId| m@).to_set() =~= self@.models_without_provider());
                skipped
            },
        }
    }
}

/// The balancing strategy of each endpoint type.
///
/// The map is keyed by the code of each endpoint type (see
/// [`EndpointType::code`]); its view is keyed by the endpoint types themselves.
#[derive(Debug, PartialEq, Eq)]
pub struct BalanceConfig {
    by_endpoint: HashMap<u8, BalanceConfigInner>,
}

impl View for BalanceConfig {
    type V = Map<EndpointType, BalanceConfigInnerView>;

    closed spec fn view(&self) -> Map<EndpointType, BalanceConfigInnerView> {
        Map::new(
            |e: EndpointType| self.by_endpoint@.contains_key(e.spec_code()),
            |e: EndpointType| self.by_endpoint@[e.spec_code()]@,
        )
    }
}

/// The providers that some strategy of `config` can send requests to.
pub open spec fn config_providers(config: Map<EndpointType, BalanceConfigInnerView>) -> Set<
    ProviderView,
> {
    Set::new(
        |p: ProviderView|
            exists|e: EndpointType| config.contains_key(e) && #[trigger] config[e].providers().contains(p),
    )
}

impl BalanceConfig {
    #[verifier::type_invariant]
    spec fn keys_are_codes(self) -> bool {
        forall|k: u8| #[trigger] self.by_endpoint@.contains_key(k) ==> k < 3
    }

    /// A configuration with no endpoint type.
    pub fn new() -> (config: BalanceConfig)
        ensures
            config@ == Map::<EndpointType, BalanceConfigInnerView>::empty(),
    {
        let config = BalanceConfig { by_endpoint: HashMap::new() };
        assert(config@ =~= Map::<EndpointType, BalanceConfigInnerView>::empty());
        config
    }

    /// Sets the strategy of `endpoint` to `inner`.
    pub fn insert(&mut self, endpoint: EndpointType, inner: BalanceConfigInner)
        ensures
            final(self)@ == old(self)@.insert(endpoint, inner@),
    {
        proof {
            use_type_invariant(&*self);
        }
        let ghost before = self@;
        let ghost value = inner@;
        let code = endpoint.code();
        let mut map = HashMap::new();
        std::mem::swap(&mut map, &mut self.by_endpoint);
        map.insert(code, inner);
        self.by_endpoint = map;
        proof {
            EndpointType::lemma_code_injective();
        }
        assert(self@ =~= before.insert(endpoint, value));
    }

    /// The strategy of `endpoint`, where it has one.
    pub fn get(&self, endpoint: EndpointType) -> (inner: Option<&BalanceConfigInner>)
        ensures
            match inner {
                Some(i) => self@.contains_key(endpoint) && self@[endpoint] == i@,
                None => !self@.contains_key(endpoint),
            },
    {
        let code = endpoint.code();
        self.by_endpoint.get(&code)
    }

    /// The providers that some strategy of this configuration can send
    /// requests to, each once: the lists of the strategies, in the order in
    /// which the underlying map is walked, joined by [`merge_providers`].
    pub fn providers(&self) -> (found: IndexSet<InferenceProvider>)
        ensures
            exists|lists: Seq<IndexSet<InferenceProvider>>|
                {
                    &&& provider_index_items(found) == distinct(concat_items(lists))
                    &&& forall|j: int|
                        0 <= j < lists.len() ==> exists|e: EndpointType|
                            #![trigger self@[e]]
                            self@.contains_key(e) && self@[e].lists_in_walk_order(
                                provider_index_items(#[trigger] lists[j]),
                            )
                },
            provider_index_items(found).no_duplicates(),
            provider_index_items(found).to_set() == config_providers(self@),
            forall|e: EndpointType|
                self@.dom() == set![e] ==> #[trigger] self@[e].lists_in_walk_order(
                    provider_index_items(found),
                ),
    {
        proof {
            use_type_invariant(self);
        }
        let mut lists: Vec<IndexSet<InferenceProvider>> = Vec::new();
        let ghost all = vstd::std_specs::hash::spec_values_iter(&self.by_endpoint).remaining();
        for inner in it: self.by_endpoint.values()
            invariant
                it.seq() == all,
                lists@.len() == it.index(),
                forall|j: int|
                    0 <= j < it.index() ==> {
                        &&& it.seq()[j]@.lists_in_walk_order(provider_index_items(#[trigger] lists@[j]))
                        &&& provider_index_items(lists@[j]).to_set() == it.seq()[j]@.providers()
                    },
        {
            let ps = inner.providers();
            lists.push(ps);
        }
        let found = merge_providers(&lists);
        proof {
            let m = self.by_endpoint@;
            assert(all.unref().to_set() == m.values());
            EndpointType::lemma_code_injective();
            lemma_distinct(concat_items(lists@));
            lemma_concat_items(lists@);
            // Each walked strategy is the strategy of some endpoint type, and
            // each endpoint type's strategy is walked.
            assert forall|j: int| 0 <= j < all.len() implies exists|e: EndpointType|
                #![trigger self@[e]]
                self@.contains_key(e) && self@[e] == (#[trigger] all[j])@ by {
                assert(all.unref()[j] == *all[j]);
                assert(all.unref().to_set().contains(*all[j]));
                let k = choose|k: u8| m.contains_key(k) && m[k] == *all[j];
                let e = if k == 0 {
                    EndpointType::Chat
                } else if k == 1 {
                    EndpointType::Image
                } else {
                    EndpointType::Audio
                };
                assert(e.spec_code() == k);
                assert(self@.contains_key(e) && self@[e] == all[j]@);
            }
            assert forall|j: int| 0 <= j < lists@.len() implies exists|e: EndpointType|
                #![trigger self@[e]]
                self@.contains_key(e) && self@[e].lists_in_walk_order(
                    provider_index_items(#[trigger] lists@[j]),
                ) by {
                let e = choose|e: EndpointType| #![trigger self@[e]] self@.contains_key(e) && self@[e] == all[j]@;
                assert(self@[e].lists_in_walk_order(provider_index_items(lists@[j])));
            }
            assert forall|p: ProviderView|
                provider_index_items(found).to_set().contains(p) <==> #[trigger] config_providers(
                    self@,
                ).contains(p) by {
                if provider_index_items(found).to_set().contains(p) {
                    assert(concat_items(lists@).contains(p));
                    let j = choose|j: int|
                        0 <= j < lists@.len() && #[trigger] provider_index_items(lists@[j]).contains(p);
                    assert(provider_index_items(lists@[j]).to_set().contains(p));
                    let e = choose|e: EndpointType| #![trigger self@[e]] self@.contains_key(e) && self@[e] == all[j]@;
                    assert(self@[e].providers().contains(p));
                }
                if config_providers(self@).contains(p) {
                    let e = choose|e: EndpointType|
                        self@.contains_key(e) && #[trigger] self@[e].providers().contains(p);
                    let v = m[e.spec_code()];
                    assert(m.contains_key(e.spec_code()));
                    assert(m.values().contains(v));
                    let j = choose|j: int| 0 <= j < all.unref().len() && all.unref()[j] == v;
                    assert(*all[j] == v);
                    assert(all[j]@.providers().contains(p));
                    assert(provider_index_items(lists@[j]).to_set().contains(p));
                    assert(provider_index_items(lists@[j]).contains(p));
                    assert(concat_items(lists@).contains(p));
                }
            }
            assert(provider_index_items(found).to_set() =~= config_providers(self@));
            assert forall|e: EndpointType| self@.dom() == set![e] implies #[trigger] self@[e].lists_in_walk_order(
                provider_index_items(found),
            ) by {
                assert(self@.contains_key(e));
                assert forall|k: u8| m.contains_key(k) <==> set![e.spec_code()].contains(k) by {
                    if m.contains_key(k) {
                        let x = if k == 0 {
                            EndpointType::Chat
                        } else if k == 1 {
                            EndpointType::Image
                        } else {
                            EndpointType::Audio
                        };
                        assert(x.spec_code() == k);
                        assert(self@.contains_key(x));
                        assert(self@.dom().contains(x));
                        assert(x == e);
                    }
                }
                assert(m.dom() =~= set![e.spec_code()]);
                assert(m.dom().len() == 1);
                assert(lists@.len() == 1);
                let e2 = choose|e2: EndpointType|
                    #![trigger self@[e2]]
                    self@.contains_key(e2) && self@[e2].lists_in_walk_order(
                        provider_index_items(lists@[0]),
                    );
                assert(self@.dom().contains(e2));
                assert(e2 == e);
                assert(lists@.drop_last() =~= Seq::<IndexSet<InferenceProvider>>::empty());
                assert(concat_items(lists@.drop_last()) =~= Seq::<ProviderView>::empty());
                assert(concat_items(lists@) =~= provider_index_items(lists@[0]));
                lemma_listing_has_no_duplicates(self@[e], provider_index_items(lists@[0]));
                lemma_distinct_of_distinct(provider_index_items(lists@[0]));
            }
        }
        found
    }
}

/// The configuration used where none is given: chat requests go to OpenAI,
/// Anthropic and Google Gemini, balanced by latency.
pub open spec fn default_config_view() -> Map<EndpointType, BalanceConfigInnerView> {
    map![EndpointType::Chat => BalanceConfigInnerView::BalancedLatency {
        providers: set![ProviderView::OpenAI, ProviderView::Anthropic, ProviderView::GoogleGemini],
    }]
}

/// A configuration that sends every chat request to `provider`, with weight 1.
pub open spec fn single_provider_view(provider: ProviderView) -> Map<
    EndpointType,
    BalanceConfigInnerView,
> {
    map![EndpointType::Chat => BalanceConfigInnerView::ProviderWeighted {
        providers: set![WeightedProviderView { provider, weight: DecimalValue { mantissa: 1, scale: 0 } }],
    }]
}

/// Setting the strategy of an endpoint type replaces what that endpoint type
/// contributed to the configuration's providers with the providers of the new
/// strategy; the other endpoint types contribute as before.
pub proof fn lemma_providers_after_insert(
    config: Map<EndpointType, BalanceConfigInnerView>,
    endpoint: EndpointType,
    inner: BalanceConfigInnerView,
)
    ensures
        config_providers(config.insert(endpoint, inner)) == config_providers(config.remove(endpoint))
            + inner.providers(),
{
    let after = config.insert(endpoint, inner);
    let rest = config.remove(endpoint);
    assert forall|p: ProviderView|
        #[trigger] config_providers(after).contains(p) <==> (config_providers(rest)
            + inner.providers()).contains(p) by {
        if config_providers(after).contains(p) {
            let e = choose|e: EndpointType| after.contains_key(e) && #[trigger] after[e].providers().contains(p);
            if e != endpoint {
                assert(rest.contains_key(e) && rest[e].providers().contains(p));
            }
        }
        if config_providers(rest).contains(p) {
            let e = choose|e: EndpointType| rest.contains_key(e) && #[trigger] rest[e].providers().contains(p);
            assert(after.contains_key(e) && after[e].providers().contains(p));
        }
        if inner.providers().contains(p) {
            assert(after.contains_key(endpoint) && after[endpoint].providers().contains(p));
        }
    }
    assert(config_providers(after) =~= config_providers(rest) + inner.providers());
}

impl Clone for BalanceConfig {
    fn clone(&self) -> (copy: Self)
        ensures
            copy@ == self@,
    {
        proof {
            use_type_invariant(self);
        }
        BalanceConfig { by_endpoint: self.by_endpoint.clone() }
    }
}

/// A configuration that sends every chat request to one provider has that
/// provider as its only provider.
pub proof fn lemma_single_provider_providers(provider: ProviderView)
    ensures
        config_providers(single_provider_view(provider)) == set![provider],
{
    let config = single_provider_view(provider);
    let w = WeightedProviderView { provider, weight: DecimalValue { mantissa: 1, scale: 0 } };
    let inner = config[EndpointType::Chat];
    assert(inner.providers() =~= set![provider]) by {
        assert(set![w].contains(w));
    }
    assert forall|p: ProviderView| #[trigger] config_providers(config).contains(p) <==> set![
        provider,
    ].contains(p) by {
        if p == provider {
            assert(config.contains_key(EndpointType::Chat) && config[EndpointType::Chat].providers().contains(p));
        }
    }
    assert(config_providers(config) =~= set![provider]);
}

impl Default for BalanceConfig {
    fn default() -> (config: Self)
        ensures
            config@ == default_config_view(),
    {
        let mut providers = provider_set_new(InferenceProvider::OpenAI);
        provider_set_insert(&mut providers, InferenceProvider::Anthropic);
        provider_set_insert(&mut providers, InferenceProvider::GoogleGemini);
        let mut config = BalanceConfig::new();
        config.insert(EndpointType::Chat, BalanceConfigInner::BalancedLatency { providers });
        assert(config@ =~= default_config_view());
        config
    }
}

impl BalanceConfig {
    /// A configuration that sends every chat request to `provider`, with weight 1.
    fn single_provider(provider: InferenceProvider) -> (config: BalanceConfig)
        ensures
            config@ == single_provider_view(provider@),
    {
        let weighted = WeightedProvider { provider, weight: Weight::from_u64(1) };
        let providers = weighted_provider_set_new(weighted);
        let mut config = BalanceConfig::new();
        config.insert(EndpointType::Chat, BalanceConfigInner::ProviderWeighted { providers });
        assert(config@ =~= single_provider_view(provider@));
        config
    }

    /// Every chat request goes to OpenAI.
    pub fn openai_chat() -> (config: BalanceConfig)
        ensures
            config@ == single_provider_view(ProviderView::OpenAI),
    {
        BalanceConfig::single_provider(InferenceProvider::OpenAI)
    }

    /// Every chat request goes to Anthropic.
    pub fn anthropic_chat() -> (config: BalanceConfig)
        ensures
            config@ == single_provider_view(ProviderView::Anthropic),
    {
        BalanceConfig::single_provider(InferenceProvider::Anthropic)
    }

    /// Every chat request goes to Google Gemini.
    pub fn google_gemini() -> (config: BalanceConfig)
        ensures
            config@ == single_provider_view(ProviderView::GoogleGemini),
    {
        BalanceConfig::single_provider(InferenceProvider::GoogleGemini)
    }

    /// Every chat request goes to Ollama.
    pub fn ollama_chat() -> (config: BalanceConfig)
        ensures
            config@ == single_provider_view(ProviderView::Ollama),
    {
        BalanceConfig::single_provider(InferenceProvider::Ollama)
    }

    /// Every chat request goes to AWS Bedrock.
    pub fn bedrock() -> (config: BalanceConfig)
        ensures
            config@ == single_provider_view(ProviderView::Bedrock),
    {
        BalanceConfig::single_provider(InferenceProvider::Bedrock)
    }

    /// Every chat request goes to the OpenAI-compatible provider `mistral`.
    pub fn mistral() -> (config: BalanceConfig)
        ensures
            config@ == single_provider_view(ProviderView::Named("mistral"@)),
    {
        BalanceConfig::single_provider(InferenceProvider::Named("mistral".to_owned()))
    }

    /// Every chat request goes to the OpenAI-compatible provider `ionet`.
    pub fn ionet_chat() -> (config: BalanceConfig)
        ensures
            config@ == single_provider_view(ProviderView::Named("ionet"@)),
    {
        BalanceConfig::single_provider(InferenceProvider::Named("ionet".to_owned()))
    }
}

} // verus!
