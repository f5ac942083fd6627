//! The registry of endpoint converters: for a request written for one API
//! endpoint and a provider that serves another, the converter that carries requests
//! between them.
use vstd::prelude::*;
use vstd::std_specs::cmp::PartialEqSpecImpl;
use std::sync::Arc;
use rustc_hash::FxHashMap;
use crate::endpoints::{
    Anthropic, ApiEndpoint, ApiEndpointView, Bedrock, Google, Ollama, OpenAI,
};
use crate::provider::{InferenceProvider, ModelId, ModelIdView, ProviderView};

verus! {

/// Maps the models of one provider to those of another; every converter
/// holds a copy of it.
#[derive(Debug)]
pub struct ModelMapper {
    /// Pairs of (source model, target model).
    pub mappings: Vec<(ModelId, ModelId)>,
}

impl View for ModelMapper {
    type V = Seq<(ModelIdView, ModelIdView)>;

    open spec fn view(&self) -> Seq<(ModelIdView, ModelIdView)> {
        self.mappings@.map_values(|m: (ModelId, ModelId)| (m.0@, m.1@))
    }
}

impl Clone for ModelMapper {
    fn clone(&self) -> (copy: Self)
        ensures
            copy@ == self@,
    {
        let mut mappings: Vec<(ModelId, ModelId)> = Vec::new();
        let mut i: usize = 0;
        while i < self.mappings.len()
            invariant
                i <= self.mappings@.len(),
                mappings@.len() == i,
                forall|j: int|
                    0 <= j < i ==> (#[trigger] mappings@[j]).0@ == self.mappings@[j].0@
                        && mappings@[j].1@ == self.mappings@[j].1@,
            decreases self.mappings@.len() - i,
        {
            let pair = (self.mappings[i].0.clone(), self.mappings[i].1.clone());
            mappings.push(pair);
            i = i + 1;
        }
        let copy = ModelMapper { mappings };
        assert(copy@ =~= self@);
        copy
    }
}

/// The key under which a converter is registered: the endpoint that requests
/// are written for and the endpoint that they are sent to.
#[derive(Debug, Eq, Hash)]
pub struct RegistryKey {
    source_endpoint: ApiEndpoint,
    target_endpoint: ApiEndpoint,
}

/// The mathematical value of a [`RegistryKey`].
pub struct RegistryKeyView {
    pub source: ApiEndpointView,
    pub target: ApiEndpointView,
}

impl View for RegistryKey {
    type V = RegistryKeyView;

    closed spec fn view(&self) -> RegistryKeyView {
        RegistryKeyView { source: self.source_endpoint@, target: self.target_endpoint@ }
    }
}

impl PartialEq for RegistryKey {
    fn eq(&self, other: &Self) -> (same: bool) {
        self.source_endpoint.eq(&other.source_endpoint) && self.target_endpoint.eq(
            &other.target_endpoint,
        )
    }
}

impl PartialEqSpecImpl for RegistryKey {
    open spec fn obeys_eq_spec() -> bool {
        true
    }

    open spec fn eq_spec(&self, other: &RegistryKey) -> bool {
        self@ == other@
    }
}

impl RegistryKey {
    pub fn new(source_endpoint: ApiEndpoint, target_endpoint: ApiEndpoint) -> (key: RegistryKey)
        ensures
            key@ == (RegistryKeyView { source: source_endpoint@, target: target_endpoint@ }),
    {
        RegistryKey { source_endpoint, target_endpoint }
    }
}

/// Which converter rewrites requests: the one for the Anthropic API, the
/// one for an OpenAI-compatible provider, or the one for another API.
#[derive(Debug, PartialEq, Eq)]
pub enum ConverterKind {
    Anthropic,
    OpenAICompatible(InferenceProvider),
    OpenAI,
    Ollama,
    Bedrock,
}

/// The mathematical value of a [`ConverterKind`].
pub enum ConverterKindView {
    Anthropic,
    OpenAICompatible(ProviderView),
    OpenAI,
    Ollama,
    Bedrock,
}

impl View for ConverterKind {
    type V = ConverterKindView;

    open spec fn view(&self) -> ConverterKindView {
        match self {
            ConverterKind::Anthropic => ConverterKindView::Anthropic,
            ConverterKind::OpenAICompatible(p) => ConverterKindView::OpenAICompatible(p@),
            ConverterKind::OpenAI => ConverterKindView::OpenAI,
            ConverterKind::Ollama => ConverterKindView::Ollama,
            ConverterKind::Bedrock => ConverterKindView::Bedrock,
        }
    }
}

impl Clone for ConverterKind {
    fn clone(&self) -> (copy: Self)
        ensures
            copy == *self,
    {
        match self {
            ConverterKind::Anthropic => ConverterKind::Anthropic,
            ConverterKind::OpenAICompatible(p) => ConverterKind::OpenAICompatible(p.clone()),
            ConverterKind::OpenAI => ConverterKind::OpenAI,
            ConverterKind::Ollama => ConverterKind::Ollama,
            ConverterKind::Bedrock => ConverterKind::Bedrock,
        }
    }
}

/// A converter from requests for `source` to requests for `target`.
#[derive(Debug)]
pub struct EndpointConverter {
    pub source: ApiEndpoint,
    pub target: ApiEndpoint,
    pub kind: ConverterKind,
    pub model_mapper: ModelMapper,
}

/// The mathematical value of an [`EndpointConverter`].
pub struct EndpointConverterView {
    pub source: ApiEndpointView,
    pub target: ApiEndpointView,
    pub kind: ConverterKindView,
    pub model_mapper: Seq<(ModelIdView, ModelIdView)>,
}

impl View for EndpointConverter {
    type V = EndpointConverterView;

    open spec fn view(&self) -> EndpointConverterView {
        EndpointConverterView {
            source: self.source@,
            target: self.target@,
            kind: self.kind@,
            model_mapper: self.model_mapper@,
        }
    }
}

/// The converters of a registry, in a `rustc_hash` map keyed by
/// [`RegistryKey`]. Verus sees the map only through the name
/// [`converter_table_entries`] and the wrappers below, which rely on the
/// key's `==` being equality of views (proved of its `PartialEq`) and on its
/// derived `Hash` agreeing with that equality.
#[verifier::external_body]
#[derive(Debug)]
pub struct ConverterTable {
    map: FxHashMap<RegistryKey, EndpointConverter>,
}

/// The converters that a table holds, by key.
pub uninterp spec fn converter_table_entries(t: ConverterTable) -> Map<RegistryKeyView, EndpointConverterView>;

/// `FxHashMap::default`: an empty table.
#[verifier::external_body]
fn converter_table_new() -> (table: ConverterTable)
    ensures
        converter_table_entries(table).is_empty(),
{
    ConverterTable { map: FxHashMap::default() }
}

/// `HashMap::insert`: registers `converter` under `key`, replacing any
/// converter registered there before.
#[verifier::external_body]
fn converter_table_insert(t: &mut ConverterTable, key: RegistryKey, converter: EndpointConverter)
    ensures
        converter_table_entries(*final(t)) == converter_table_entries(*old(t)).insert(
            key@,
            converter@,
        ),
{
    t.map.insert(key, converter);
}

/// `HashMap::get`: the converter registered under `key`, if any.
#[verifier::external_body]
fn converter_table_get<'a>(t: &'a ConverterTable, key: &RegistryKey) -> (found: Option<&'a EndpointConverter>)
    ensures
        match found {
            Some(c) => converter_table_entries(*t).contains_key(key@) && converter_table_entries(
                *t,
            )[key@] == c@,
            None => !converter_table_entries(*t).contains_key(key@),
        },
{
    t.map.get(key)
}

/// `Arc::clone`: another handle on the same value.
#[verifier::external_body]
fn share<T>(a: &Arc<T>) -> (b: Arc<T>)
    ensures
        b == *a,
{
    Arc::clone(a)
}


/// The names of the OpenAI-compatible providers that chat completions are
/// converted for.
pub open spec fn compatible_provider_names() -> Set<Seq<char>> {
    set!["mistral"@, "groq"@, "deepseek"@, "xai"@, "hyperbolic"@, "ionet"@]
}

/// The converter that turns OpenAI chat completions into requests for
/// `target`, where one is registered.
pub open spec fn chat_converter_kind(target: ApiEndpointView) -> Option<ConverterKindView> {
    match target {
        ApiEndpointView::Anthropic(Anthropic::Messages) => Some(ConverterKindView::Anthropic),
        ApiEndpointView::Google(Google::GenerateContents) => Some(
            ConverterKindView::OpenAICompatible(ProviderView::GoogleGemini),
        ),
        ApiEndpointView::OpenAI(OpenAI::ChatCompletions) => Some(ConverterKindView::OpenAI),
        ApiEndpointView::Ollama(Ollama::ChatCompletions) => Some(ConverterKindView::Ollama),
        ApiEndpointView::Bedrock(Bedrock::Converse) => Some(ConverterKindView::Bedrock),
        ApiEndpointView::OpenAICompatible { provider, openai_endpoint: OpenAI::ChatCompletions } => {
            match provider {
                ProviderView::Named(name) => if compatible_provider_names().contains(name) {
                    Some(ConverterKindView::OpenAICompatible(provider))
                } else {
                    None
                },
                _ => None,
            }
        },
    }
}

/// The converters that a registry built with `model_mapper` holds: one from
/// OpenAI chat completions to each endpoint that [`chat_converter_kind`]
/// names, and none for any other pair of endpoints.
pub open spec fn registered_converters(model_mapper: Seq<(ModelIdView, ModelIdView)>) -> Map<
    RegistryKeyView,
    EndpointConverterView,
> {
    Map::new(
        |k: RegistryKeyView|
            k.source == ApiEndpointView::OpenAI(OpenAI::ChatCompletions) && chat_converter_kind(
                k.target,
            ) is Some,
        |k: RegistryKeyView|
            EndpointConverterView {
                source: k.source,
                target: k.target,
                kind: chat_converter_kind(k.target).unwrap(),
                model_mapper,
            },
    )
}

/// A registry serves a converter for a pair of endpoints exactly when
/// requests are written for OpenAI chat completions and sent to Anthropic
/// messages, Google generate-contents, OpenAI or Ollama chat completions,
/// Bedrock converse, or the chat completions of one of the named
/// OpenAI-compatible providers.
pub proof fn lemma_registry_serves_supported_pairs(
    model_mapper: Seq<(ModelIdView, ModelIdView)>,
    source: ApiEndpointView,
    target: ApiEndpointView,
)
    ensures
        registered_converters(model_mapper).contains_key(RegistryKeyView { source, target }) <==> {
            &&& source == ApiEndpointView::OpenAI(OpenAI::ChatCompletions)
            &&& {
                ||| target == ApiEndpointView::Anthropic(Anthropic::Messages)
                ||| target == ApiEndpointView::Google(Google::GenerateContents)
                ||| target == ApiEndpointView::OpenAI(OpenAI::ChatCompletions)
                ||| target == ApiEndpointView::Ollama(Ollama::ChatCompletions)
                ||| target == ApiEndpointView::Bedrock(Bedrock::Converse)
                ||| target matches ApiEndpointView::OpenAICompatible {
                    provider: ProviderView::Named(name),
                    openai_endpoint: OpenAI::ChatCompletions,
                } && compatible_provider_names().contains(name)
            }
        },
{
}

/// Only chat completion is supported: every registered conversion starts
/// from an OpenAI chat-completions request.
pub proof fn lemma_every_conversion_starts_from_chat_completions(
    model_mapper: Seq<(ModelIdView, ModelIdView)>,
)
    ensures
        forall|k: RegistryKeyView| #[trigger] registered_converters(model_mapper).contains_key(k)
            ==> k.source == ApiEndpointView::OpenAI(OpenAI::ChatCompletions),
{
}

/// Every registered converter converts from the source endpoint of its key
/// to the target endpoint of its key, holds the registry's model mapper, and,
/// for an OpenAI-compatible target, is the converter for that target's
/// provider.
pub proof fn lemma_registered_converters_match_keys(
    model_mapper: Seq<(ModelIdView, ModelIdView)>,
    key: RegistryKeyView,
)
    requires
        registered_converters(model_mapper).contains_key(key),
    ensures
        registered_converters(model_mapper)[key].source == key.source,
        registered_converters(model_mapper)[key].target == key.target,
        registered_converters(model_mapper)[key].model_mapper == model_mapper,
        key.source == ApiEndpointView::OpenAI(OpenAI::ChatCompletions),
        key.target matches ApiEndpointView::OpenAICompatible { provider, .. }
            ==> registered_converters(model_mapper)[key].kind
            == ConverterKindView::OpenAICompatible(provider),
{
}

/// The key and converter for turning OpenAI chat completions into requests
/// for `target`.
fn chat_completions_to(target: ApiEndpoint, kind: ConverterKind, model_mapper: &ModelMapper) -> (entry: (RegistryKey, EndpointConverter))
    ensures
        entry.0@ == (RegistryKeyView {
            source: ApiEndpointView::OpenAI(OpenAI::ChatCompletions),
            target: target@,
        }),
        entry.1@ == (EndpointConverterView {
            source: ApiEndpointView::OpenAI(OpenAI::ChatCompletions),
            target: target@,
            kind: kind@,
            model_mapper: model_mapper@,
        }),
{
    let key = RegistryKey::new(ApiEndpoint::OpenAI(OpenAI::chat_completions()), target.clone());
    let converter = EndpointConverter {
        source: ApiEndpoint::OpenAI(OpenAI::chat_completions()),
        target,
        kind,
        model_mapper: model_mapper.clone(),
    };
    (key, converter)
}

/// The converters, by the pair of endpoints that each converts between.
#[derive(Debug)]
struct EndpointConverterRegistryInner {
    converters: ConverterTable,
}

impl EndpointConverterRegistryInner {
    spec fn entries(&self) -> Map<RegistryKeyView, EndpointConverterView> {
        converter_table_entries(self.converters)
    }

    fn empty() -> (registry: Self)
        ensures
            registry.entries().is_empty(),
    {
        EndpointConverterRegistryInner { converters: converter_table_new() }
    }

    /// Registers the converter for each pair of endpoints that this gateway
    /// converts between.
    fn new(model_mapper: &ModelMapper) -> (registry: Self)
        ensures
            registry.entries() == registered_converters(model_mapper@),
            forall|k: RegistryKeyView| #[trigger] registry.entries().contains_key(k) ==> k.source
                == ApiEndpointView::OpenAI(OpenAI::ChatCompletions),
    {
        let mut registry = EndpointConverterRegistryInner::empty();
        let ghost mm = model_mapper@;

        let (key, converter) = chat_completions_to(
            ApiEndpoint::Anthropic(Anthropic::messages()),
            ConverterKind::Anthropic,
            model_mapper,
        );
        registry.register_converter(key, converter);

        let (key, converter) = chat_completions_to(
            ApiEndpoint::Google(Google::generate_contents()),
            ConverterKind::OpenAICompatible(InferenceProvider::GoogleGemini),
            model_mapper,
        );
        registry.register_converter(key, converter);

        let (key, converter) = chat_completions_to(
            ApiEndpoint::OpenAI(OpenAI::chat_completions()),
            ConverterKind::OpenAI,
            model_mapper,
        );
        registry.register_converter(key, converter);

        let (key, converter) = chat_completions_to(
            ApiEndpoint::Ollama(Ollama::chat_completions()),
            ConverterKind::Ollama,
            model_mapper,
        );
        registry.register_converter(key, converter);

        let (key, converter) = chat_completions_to(
            ApiEndpoint::Bedrock(Bedrock::converse()),
            ConverterKind::Bedrock,
            model_mapper,
        );
        registry.register_converter(key, converter);

        registry.register_compatible("mistral", model_mapper);
        registry.register_compatible("groq", model_mapper);
        registry.register_compatible("deepseek", model_mapper);
        registry.register_compatible("xai", model_mapper);
        registry.register_compatible("hyperbolic", model_mapper);
        registry.register_compatible("ionet", model_mapper);

        assert(registry.entries() =~= registered_converters(mm));
        registry
    }

    /// Registers the converter from OpenAI chat completions to the
    /// OpenAI-compatible provider called `name`.
    fn register_compatible(&mut self, name: &str, model_mapper: &ModelMapper)
        ensures
            final(self).entries() == old(self).entries().insert(
                RegistryKeyView {
                    source: ApiEndpointView::OpenAI(OpenAI::ChatCompletions),
                    target: ApiEndpointView::OpenAICompatible {
                        provider: ProviderView::Named(name@),
                        openai_endpoint: OpenAI::ChatCompletions,
                    },
                },
                EndpointConverterView {
                    source: ApiEndpointView::OpenAI(OpenAI::ChatCompletions),
                    target: ApiEndpointView::OpenAICompatible {
                        provider: ProviderView::Named(name@),
                        openai_endpoint: OpenAI::ChatCompletions,
                    },
                    kind: ConverterKindView::OpenAICompatible(ProviderView::Named(name@)),
                    model_mapper: model_mapper@,
                },
            ),
    {
        let target = ApiEndpoint::OpenAICompatible {
            provider: InferenceProvider::Named(name.to_owned()),
            openai_endpoint: OpenAI::chat_completions(),
        };
        let kind = ConverterKind::OpenAICompatible(InferenceProvider::Named(name.to_owned()));
        let (key, converter) = chat_completions_to(target, kind, model_mapper);
        self.register_converter(key, converter);
    }

    fn register_converter(&mut self, key: RegistryKey, converter: EndpointConverter)
        ensures
            final(self).entries() == old(self).entries().insert(key@, converter@),
    {
        converter_table_insert(&mut self.converters, key, converter);
    }
}

/// Finds the converter between two API endpoints. Cloning a registry shares
/// its converters.
#[derive(Debug)]
pub struct EndpointConverterRegistry {
    inner: Arc<EndpointConverterRegistryInner>,
}

impl View for EndpointConverterRegistry {
    type V = Map<RegistryKeyView, EndpointConverterView>;

    closed spec fn view(&self) -> Map<RegistryKeyView, EndpointConverterView> {
        self.inner.entries()
    }
}

impl EndpointConverterRegistry {
    /// A registry of every converter that this gateway provides, each holding
    /// a copy of `model_mapper`.
    pub fn new(model_mapper: &ModelMapper) -> (registry: Self)
        ensures
            registry@ == registered_converters(model_mapper@),
            forall|k: RegistryKeyView| #[trigger] registry@.contains_key(k) ==> k.source
                == ApiEndpointView::OpenAI(OpenAI::ChatCompletions),
    {
        let inner = EndpointConverterRegistryInner::new(model_mapper);
        EndpointConverterRegistry { inner: Arc::new(inner) }
    }

    /// The converter from requests for `source_endpoint` to requests for
    /// `target_endpoint`, if one is registered.
    pub fn get_converter(&self, source_endpoint: &ApiEndpoint, target_endpoint: &ApiEndpoint) -> (converter: Option<&EndpointConverter>)
        ensures
            match converter {
                Some(c) => {
                    let key = RegistryKeyView { source: source_endpoint@, target: target_endpoint@ };
                    self@.contains_key(key) && self@[key] == c@
                },
                None => !self@.contains_key(
                    RegistryKeyView { source: source_endpoint@, target: target_endpoint@ },
                ),
            },
    {
        let key = RegistryKey::new(source_endpoint.clone(), target_endpoint.clone());
        converter_table_get(&self.inner.converters, &key)
    }
}

impl Default for EndpointConverterRegistry {
    fn default() -> (registry: Self)
        ensures
            registry@.is_empty(),
    {
        EndpointConverterRegistry { inner: Arc::new(EndpointConverterRegistryInner::empty()) }
    }
}

impl Clone for EndpointConverterRegistry {
    fn clone(&self) -> (copy: Self)
        ensures
            copy@ == self@,
    {
        EndpointConverterRegistry { inner: share(&self.inner) }
    }
}

} // verus!
