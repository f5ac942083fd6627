//! Inference providers and model identifiers.
use vstd::prelude::*;
use vstd::std_specs::cmp::PartialEqSpecImpl;

verus! {

/// A provider that serves inference requests.
#[derive(Debug, Eq, Hash)]
pub enum InferenceProvider {
    OpenAI,
    Anthropic,
    Bedrock,
    Ollama,
    GoogleGemini,
    /// A provider that speaks an OpenAI-compatible API, known by its name.
    Named(String),
}

/// The mathematical value of an [`InferenceProvider`].
pub enum ProviderView {
    OpenAI,
    Anthropic,
    Bedrock,
    Ollama,
    GoogleGemini,
    Named(Seq<char>),
}

impl View for InferenceProvider {
    type V = ProviderView;

    open spec fn view(&self) -> ProviderView {
        match self {
            InferenceProvider::OpenAI => ProviderView::OpenAI,
            InferenceProvider::Anthropic => ProviderView::Anthropic,
            InferenceProvider::Bedrock => ProviderView::Bedrock,
            InferenceProvider::Ollama => ProviderView::Ollama,
            InferenceProvider::GoogleGemini => ProviderView::GoogleGemini,
            InferenceProvider::Named(name) => ProviderView::Named(name@),
        }
    }
}

impl Clone for InferenceProvider {
    fn clone(&self) -> (copy: Self)
        ensures
            copy == *self,
    {
        match self {
            InferenceProvider::OpenAI => InferenceProvider::OpenAI,
            InferenceProvider::Anthropic => InferenceProvider::Anthropic,
            InferenceProvider::Bedrock => InferenceProvider::Bedrock,
            InferenceProvider::Ollama => InferenceProvider::Ollama,
            InferenceProvider::GoogleGemini => InferenceProvider::GoogleGemini,
            InferenceProvider::Named(name) => InferenceProvider::Named(name.clone()),
        }
    }
}

impl PartialEq for InferenceProvider {
    fn eq(&self, other: &Self) -> (same: bool) {
        match (self, other) {
            (InferenceProvider::OpenAI, InferenceProvider::OpenAI) => true,
            (InferenceProvider::Anthropic, InferenceProvider::Anthropic) => true,
            (InferenceProvider::Bedrock, InferenceProvider::Bedrock) => true,
            (InferenceProvider::Ollama, InferenceProvider::Ollama) => true,
            (InferenceProvider::GoogleGemini, InferenceProvider::GoogleGemini) => true,
            (InferenceProvider::Named(a), InferenceProvider::Named(b)) => a.eq(b),
            _ => false,
        }
    }
}

impl PartialEqSpecImpl for InferenceProvider {
    open spec fn obeys_eq_spec() -> bool {
        true
    }

    open spec fn eq_spec(&self, other: &InferenceProvider) -> bool {
        self@ == other@
    }
}


/// The identifier of a model, with the provider that serves it where one is known.
#[derive(Debug, Eq, Hash)]
pub enum ModelId {
    /// A model that a known provider serves, such as `openai/gpt-4o`.
    Provided { provider: InferenceProvider, name: String },
    /// A model whose provider is not known.
    Unknown(String),
}

/// The mathematical value of a [`ModelId`].
pub enum ModelIdView {
    Provided { provider: ProviderView, name: Seq<char> },
    Unknown(Seq<char>),
}

impl ModelIdView {
    /// The provider of the model, where one is known.
    pub open spec fn provider(self) -> Option<ProviderView> {
        match self {
            ModelIdView::Provided { provider, .. } => Some(provider),
            ModelIdView::Unknown(_) => None,
        }
    }
}

/// A model served by a known provider has that provider; a model whose
/// provider is not known has none.
pub proof fn lemma_model_provider(provider: ProviderView, name: Seq<char>)
    ensures
        (ModelIdView::Provided { provider, name }).provider() == Some(provider),
        ModelIdView::Unknown(name).provider() is None,
{
}

impl View for ModelId {
    type V = ModelIdView;

    open spec fn view(&self) -> ModelIdView {
        match self {
            ModelId::Provided { provider, name } => ModelIdView::Provided {
                provider: provider@,
                name: name@,
            },
            ModelId::Unknown(name) => ModelIdView::Unknown(name@),
        }
    }
}

impl Clone for ModelId {
    fn clone(&self) -> (copy: Self)
        ensures
            copy == *self,
    {
        match self {
            ModelId::Provided { provider, name } => ModelId::Provided {
                provider: provider.clone(),
                name: name.clone(),
            },
            ModelId::Unknown(name) => ModelId::Unknown(name.clone()),
        }
    }
}

impl PartialEq for ModelId {
    fn eq(&self, other: &Self) -> (same: bool) {
        match (self, other) {
            (
                ModelId::Provided { provider: p1, name: n1 },
                ModelId::Provided { provider: p2, name: n2 },
            ) => p1.eq(p2) && n1.eq(n2),
            (ModelId::Unknown(n1), ModelId::Unknown(n2)) => n1.eq(n2),
            _ => false,
        }
    }
}

impl PartialEqSpecImpl for ModelId {
    open spec fn obeys_eq_spec() -> bool {
        true
    }

    open spec fn eq_spec(&self, other: &ModelId) -> bool {
        self@ == other@
    }
}

impl ModelId {
    /// The provider that serves this model, or `None` where it is not known.
    pub fn inference_provider(&self) -> (found: Option<InferenceProvider>)
        ensures
            match found {
                Some(p) => self@.provider() == Some(p@),
                None => self@.provider() is None,
            },
            match self {
                ModelId::Provided { provider, .. } => found == Some(*provider),
                ModelId::Unknown(_) => found is None,
            },
    {
        match self {
            ModelId::Provided { provider, .. } => Some(provider.clone()),
            ModelId::Unknown(_) => None,
        }
    }
}

} // verus!
