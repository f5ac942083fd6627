//! The API endpoints that requests are sent to.
use vstd::prelude::*;
use vstd::std_specs::cmp::PartialEqSpecImpl;
use crate::provider::{InferenceProvider, ProviderView};

verus! {

/// Endpoints of the OpenAI API.
#[derive(Debug, Clone, Copy, PartialEq, Eq, Hash, Structural)]
pub enum OpenAI {
    ChatCompletions,
}

impl OpenAI {
    pub fn chat_completions() -> (e: OpenAI)
        ensures
            e == OpenAI::ChatCompletions,
    {
        OpenAI::ChatCompletions
    }
}

/// Endpoints of the Anthropic API.
#[derive(Debug, Clone, Copy, PartialEq, Eq, Hash, Structural)]
pub enum Anthropic {
    Messages,
}

impl Anthropic {
    pub fn messages() -> (e: Anthropic)
        ensures
            e == Anthropic::Messages,
    {
        Anthropic::Messages
    }
}

/// Endpoints of the Google Gemini API.
#[derive(Debug, Clone, Copy, PartialEq, Eq, Hash, Structural)]
pub enum Google {
    GenerateContents,
}

impl Google {
    pub fn generate_contents() -> (e: Google)
        ensures
            e == Google::GenerateContents,
    {
        Google::GenerateContents
    }
}

/// Endpoints of the Ollama API.
#[derive(Debug, Clone, Copy, PartialEq, Eq, Hash, Structural)]
pub enum Ollama {
    ChatCompletions,
}

impl Ollama {
    pub fn chat_completions() -> (e: Ollama)
        ensures
            e == Ollama::ChatCompletions,
    {
        Ollama::ChatCompletions
    }
}

/// Endpoints of the AWS Bedrock API.
#[derive(Debug, Clone, Copy, PartialEq, Eq, Hash, Structural)]
pub enum Bedrock {
    Converse,
}

impl Bedrock {
    pub fn converse() -> (e: Bedrock)
        ensures
            e == Bedrock::Converse,
    {
        Bedrock::Converse
    }
}

/// An endpoint of one provider's API.
#[derive(Debug, Eq, Hash)]
pub enum ApiEndpoint {
    OpenAI(OpenAI),
    Anthropic(Anthropic),
    Google(Google),
    Ollama(Ollama),
    Bedrock(Bedrock),
    /// An endpoint of a provider that speaks the OpenAI API.
    OpenAICompatible { provider: InferenceProvider, openai_endpoint: OpenAI },
}

/// The mathematical value of an [`ApiEndpoint`].
pub enum ApiEndpointView {
    OpenAI(OpenAI),
    Anthropic(Anthropic),
    Google(Google),
    Ollama(Ollama),
    Bedrock(Bedrock),
    OpenAICompatible { provider: ProviderView, openai_endpoint: OpenAI },
}

impl View for ApiEndpoint {
    type V = ApiEndpointView;

    open spec fn view(&self) -> ApiEndpointView {
        match self {
            ApiEndpoint::OpenAI(e) => ApiEndpointView::OpenAI(*e),
            ApiEndpoint::Anthropic(e) => ApiEndpointView::Anthropic(*e),
            ApiEndpoint::Google(e) => ApiEndpointView::Google(*e),
            ApiEndpoint::Ollama(e) => ApiEndpointView::Ollama(*e),
            ApiEndpoint::Bedrock(e) => ApiEndpointView::Bedrock(*e),
            ApiEndpoint::OpenAICompatible { provider, openai_endpoint } => {
                ApiEndpointView::OpenAICompatible {
                    provider: provider@,
                    openai_endpoint: *openai_endpoint,
                }
            },
        }
    }
}

impl Clone for ApiEndpoint {
    fn clone(&self) -> (copy: Self)
        ensures
            copy == *self,
    {
        match self {
            ApiEndpoint::OpenAI(e) => ApiEndpoint::OpenAI(*e),
            ApiEndpoint::Anthropic(e) => ApiEndpoint::Anthropic(*e),
            ApiEndpoint::Google(e) => ApiEndpoint::Google(*e),
            ApiEndpoint::Ollama(e) => ApiEndpoint::Ollama(*e),
            ApiEndpoint::Bedrock(e) => ApiEndpoint::Bedrock(*e),
            ApiEndpoint::OpenAICompatible { provider, openai_endpoint } => {
                ApiEndpoint::OpenAICompatible {
                    provider: provider.clone(),
                    openai_endpoint: *openai_endpoint,
                }
            },
        }
    }
}

impl PartialEq for ApiEndpoint {
    fn eq(&self, other: &Self) -> (same: bool) {
        match (self, other) {
            (ApiEndpoint::OpenAI(a), ApiEndpoint::OpenAI(b)) => *a == *b,
            (ApiEndpoint::Anthropic(a), ApiEndpoint::Anthropic(b)) => *a == *b,
            (ApiEndpoint::Google(a), ApiEndpoint::Google(b)) => *a == *b,
            (ApiEndpoint::Ollama(a), ApiEndpoint::Ollama(b)) => *a == *b,
            (ApiEndpoint::Bedrock(a), ApiEndpoint::Bedrock(b)) => *a == *b,
            (
                ApiEndpoint::OpenAICompatible { provider: p1, openai_endpoint: e1 },
                ApiEndpoint::OpenAICompatible { provider: p2, openai_endpoint: e2 },
            ) => p1.eq(p2) && *e1 == *e2,
            _ => false,
        }
    }
}

impl PartialEqSpecImpl for ApiEndpoint {
    open spec fn obeys_eq_spec() -> bool {
        true
    }

    open spec fn eq_spec(&self, other: &ApiEndpoint) -> bool {
        self@ == other@
    }
}

} // verus!
