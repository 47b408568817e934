//! The part of an agent's configuration that overrides read and change.
use crate::table::Table;
use vstd::prelude::*;

verus! {

/// The protocol that a provider speaks.
#[derive(Debug, Clone, Copy, PartialEq, Eq, Structural)]
pub enum WireApi {
    /// The Responses API.
    Responses,
    /// The Chat Completions API.
    Chat,
}

impl Default for WireApi {
    fn default() -> (res: Self)
        ensures
            res == WireApi::Responses,
    {
        WireApi::Responses
    }
}

/// The way an agent talks.
#[derive(Debug, Clone, Copy, PartialEq, Eq, Structural)]
pub enum Personality {
    /// Brief and to the point: the one an agent gets when none was chosen.
    Pragmatic,
    /// Another one that the host knows, by its number in the host's list.
    Other(usize),
}

/// A section of a provider's description that only the host reads, known here
/// by its number in the host's list of such sections.
#[derive(Debug, Clone, Copy, PartialEq, Eq, Structural)]
pub struct HostSection {
    pub index: usize,
}

/// How a model provider is reached.
#[derive(Debug)]
pub struct ModelProviderInfo {
    /// The name shown to people.
    pub name: String,
    pub base_url: Option<String>,
    /// The environment variable that holds the API key.
    pub env_key: Option<String>,
    pub env_key_instructions: Option<String>,
    /// The API key itself.
    pub experimental_bearer_token: Option<String>,
    pub auth: Option<HostSection>,
    pub aws: Option<HostSection>,
    pub wire_api: WireApi,
    pub query_params: Option<Table<String>>,
    pub http_headers: Option<Table<String>>,
    pub env_http_headers: Option<Table<String>>,
    pub request_max_retries: Option<u64>,
    pub stream_max_retries: Option<u64>,
    pub stream_idle_timeout_ms: Option<u64>,
    pub websocket_connect_timeout_ms: Option<u64>,
    pub requires_openai_auth: bool,
    pub supports_websockets: bool,
}

/// The model of a [`ModelProviderInfo`].
#[verifier::ext_equal]
pub struct ModelProviderInfoView {
    pub name: Seq<char>,
    pub base_url: Option<Seq<char>>,
    pub env_key: Option<Seq<char>>,
    pub env_key_instructions: Option<Seq<char>>,
    pub experimental_bearer_token: Option<Seq<char>>,
    pub auth: Option<HostSection>,
    pub aws: Option<HostSection>,
    pub wire_api: WireApi,
    pub query_params: Option<Map<Seq<char>, Seq<char>>>,
    pub http_headers: Option<Map<Seq<char>, Seq<char>>>,
    pub env_http_headers: Option<Map<Seq<char>, Seq<char>>>,
    pub request_max_retries: Option<u64>,
    pub stream_max_retries: Option<u64>,
    pub stream_idle_timeout_ms: Option<u64>,
    pub websocket_connect_timeout_ms: Option<u64>,
    pub requires_openai_auth: bool,
    pub supports_websockets: bool,
}

/// The model of an optional value.
pub open spec fn option_view<T: View>(value: Option<T>) -> Option<T::V> {
    match value {
        Some(inner) => Some(inner@),
        None => None,
    }
}

impl View for ModelProviderInfo {
    type V = ModelProviderInfoView;

    open spec fn view(&self) -> ModelProviderInfoView {
        ModelProviderInfoView {
            name: self.name@,
            base_url: option_view(self.base_url),
            env_key: option_view(self.env_key),
            env_key_instructions: option_view(self.env_key_instructions),
            experimental_bearer_token: option_view(self.experimental_bearer_token),
            auth: self.auth,
            aws: self.aws,
            wire_api: self.wire_api,
            query_params: option_view(self.query_params),
            http_headers: option_view(self.http_headers),
            env_http_headers: option_view(self.env_http_headers),
            request_max_retries: self.request_max_retries,
            stream_max_retries: self.stream_max_retries,
            stream_idle_timeout_ms: self.stream_idle_timeout_ms,
            websocket_connect_timeout_ms: self.websocket_connect_timeout_ms,
            requires_openai_auth: self.requires_openai_auth,
            supports_websockets: self.supports_websockets,
        }
    }
}

/// What of an agent's configuration the overrides read and change.
#[derive(Debug)]
pub struct Config {
    pub model: Option<String>,
    pub model_context_window: Option<i64>,
    /// The name under which the provider in use is registered.
    pub model_provider_id: String,
    /// The provider in use.
    pub model_provider: ModelProviderInfo,
    /// All providers, by name.
    pub model_providers: Table<ModelProviderInfo>,
    pub personality: Option<Personality>,
}

/// The model of a [`Config`].
#[verifier::ext_equal]
pub struct ConfigView {
    pub model: Option<Seq<char>>,
    pub model_context_window: Option<i64>,
    pub model_provider_id: Seq<char>,
    pub model_provider: ModelProviderInfoView,
    pub model_providers: Map<Seq<char>, ModelProviderInfoView>,
    pub personality: Option<Personality>,
}

impl View for Config {
    type V = ConfigView;

    open spec fn view(&self) -> ConfigView {
        ConfigView {
            model: option_view(self.model),
            model_context_window: self.model_context_window,
            model_provider_id: self.model_provider_id@,
            model_provider: self.model_provider@,
            model_providers: self.model_providers@,
            personality: self.personality,
        }
    }
}

} // verus!
