//! Overrides of the model and its provider, and what they make of a
//! configuration.
//!
//! An override reaches the agent as text: an environment variable, or a field
//! of [`CodexRuntimeOverrides`] written out. White space around it never
//! matters.
use crate::config::{
    option_view, Config, ConfigView, ModelProviderInfo, ModelProviderInfoView, Personality, WireApi,
};
use crate::table::Table;
use crate::text::{
    ascii_lowercase, decimal, i64_to_string, i64_value, lemma_trimmed_of_trimmed, parse_i64, reads,
    trimmed,
};
use crate::VERSION;
use vstd::prelude::*;

verus! {

pub const ENV_CODEX_MODEL: &'static str = "CODEX_MODEL";

pub const ENV_CODEX_BASE_URL: &'static str = "CODEX_BASE_URL";

pub const ENV_CODEX_API_KEY: &'static str = "CODEX_API_KEY";

pub const ENV_CODEX_PROVIDER_ID: &'static str = "CODEX_PROVIDER_ID";

pub const ENV_CODEX_PROVIDER_NAME: &'static str = "CODEX_PROVIDER_NAME";

pub const ENV_CODEX_MODEL_CONTEXT_WINDOW: &'static str = "CODEX_MODEL_CONTEXT_WINDOW";

pub const ENV_CODEX_PERSONALITY_ENABLED: &'static str = "CODEX_PERSONALITY_ENABLED";

pub const ENV_CODEX_WIRE_API: &'static str = "CODEX_WIRE_API";

/// The context window of a custom provider's model for which none is given.
pub const DEFAULT_CUSTOM_MODEL_CONTEXT_WINDOW: i64 = 200_000;

/// What an override asks of the context window.
#[derive(Debug, PartialEq, Eq)]
pub enum ModelContextWindowResolution {
    /// The size that the override gives.
    Explicit(i64),
    /// The size that custom providers start with.
    Default(i64),
    /// No change.
    Keep,
    /// No change: the trimmed text is not a positive integer.
    Invalid(String),
}

/// The model of a [`ModelContextWindowResolution`].
pub enum ModelContextWindowResolutionView {
    Explicit(i64),
    Default(i64),
    Keep,
    Invalid(Seq<char>),
}

impl View for ModelContextWindowResolution {
    type V = ModelContextWindowResolutionView;

    open spec fn view(&self) -> ModelContextWindowResolutionView {
        match self {
            ModelContextWindowResolution::Explicit(
                value,
            ) => ModelContextWindowResolutionView::Explicit(*value),
            ModelContextWindowResolution::Default(
                value,
            ) => ModelContextWindowResolutionView::Default(*value),
            ModelContextWindowResolution::Keep => ModelContextWindowResolutionView::Keep,
            ModelContextWindowResolution::Invalid(
                text,
            ) => ModelContextWindowResolutionView::Invalid(text@),
        }
    }
}

/// What an override asks of the personality feature.
#[derive(Debug, PartialEq, Eq)]
pub enum PersonalityResolution {
    /// On or off, as the override says.
    Explicit(bool),
    /// Off, since custom providers start without it.
    DefaultDisabledForCustomProvider,
    /// No change.
    Keep,
    /// No change: the trimmed text is no way to write a truth value.
    Invalid(String),
}

/// The model of a [`PersonalityResolution`].
pub enum PersonalityResolutionView {
    Explicit(bool),
    DefaultDisabledForCustomProvider,
    Keep,
    Invalid(Seq<char>),
}

impl View for PersonalityResolution {
    type V = PersonalityResolutionView;

    open spec fn view(&self) -> PersonalityResolutionView {
        match self {
            PersonalityResolution::Explicit(value) => PersonalityResolutionView::Explicit(*value),
            PersonalityResolution::DefaultDisabledForCustomProvider =>
                PersonalityResolutionView::DefaultDisabledForCustomProvider,
            PersonalityResolution::Keep => PersonalityResolutionView::Keep,
            PersonalityResolution::Invalid(text) => PersonalityResolutionView::Invalid(text@),
        }
    }
}

/// A positive integer is taken as it is, and any other text is invalid. Without
/// text, a custom provider gets the default size where the configuration has
/// none.
pub open spec fn context_window_resolution(
    raw_value: Option<Seq<char>>,
    custom_provider_configured: bool,
    current_context_window: Option<i64>,
) -> ModelContextWindowResolutionView {
    match raw_value {
        Some(text) => match i64_value(trimmed(text)) {
            Some(value) => if value > 0 {
                ModelContextWindowResolutionView::Explicit(value)
            } else {
                ModelContextWindowResolutionView::Invalid(trimmed(text))
            },
            None => ModelContextWindowResolutionView::Invalid(trimmed(text)),
        },
        None => if custom_provider_configured && current_context_window is None {
            ModelContextWindowResolutionView::Default(DEFAULT_CUSTOM_MODEL_CONTEXT_WINDOW)
        } else {
            ModelContextWindowResolutionView::Keep
        },
    }
}

/// What the override `raw_value` asks of the context window.
pub fn resolve_model_context_window_override(
    raw_value: Option<&str>,
    custom_provider_configured: bool,
    current_context_window: Option<i64>,
) -> (res: ModelContextWindowResolution)
    ensures
        res@ == context_window_resolution(
            option_view(raw_value),
            custom_provider_configured,
            current_context_window,
        ),
{
    if let Some(raw_value) = raw_value {
        let trimmed_value = raw_value.trim();
        return match parse_i64(trimmed_value) {
            Some(value) if value > 0 => ModelContextWindowResolution::Explicit(value),
            _ => ModelContextWindowResolution::Invalid(trimmed_value.to_string()),
        };
    }
    if custom_provider_configured && current_context_window.is_none() {
        ModelContextWindowResolution::Default(DEFAULT_CUSTOM_MODEL_CONTEXT_WINDOW)
    } else {
        ModelContextWindowResolution::Keep
    }
}

/// The truth value that `text` writes, in any case and with any white space
/// around it.
pub open spec fn bool_value(text: Seq<char>) -> Option<bool> {
    let word = ascii_lowercase(trimmed(text));
    if word == "true"@ || word == "1"@ || word == "yes"@ || word == "on"@ {
        Some(true)
    } else if word == "false"@ || word == "0"@ || word == "no"@ || word == "off"@ {
        Some(false)
    } else {
        None
    }
}

/// The truth value that `raw_value` writes.
pub fn parse_bool_override(raw_value: &str) -> (res: Option<bool>)
    ensures
        res == bool_value(raw_value@),
{
    let word: String = raw_value.trim().to_ascii_lowercase();
    if reads(&word, "true") || reads(&word, "1") || reads(&word, "yes") || reads(&word, "on") {
        Some(true)
    } else if reads(&word, "false") || reads(&word, "0") || reads(&word, "no") || reads(
        &word,
        "off",
    ) {
        Some(false)
    } else {
        None
    }
}

/// A truth value is taken as it is, and any other text is invalid. Without
/// text, a custom provider has the feature turned off.
pub open spec fn personality_resolution(
    raw_value: Option<Seq<char>>,
    custom_provider_configured: bool,
) -> PersonalityResolutionView {
    match raw_value {
        Some(text) => match bool_value(text) {
            Some(enabled) => PersonalityResolutionView::Explicit(enabled),
            None => PersonalityResolutionView::Invalid(trimmed(text)),
        },
        None => if custom_provider_configured {
            PersonalityResolutionView::DefaultDisabledForCustomProvider
        } else {
            PersonalityResolutionView::Keep
        },
    }
}

/// What the override `raw_value` asks of the personality feature.
pub fn resolve_personality_override(
    raw_value: Option<&str>,
    custom_provider_configured: bool,
) -> (res: PersonalityResolution)
    ensures
        res@ == personality_resolution(option_view(raw_value), custom_provider_configured),
{
    if let Some(raw_value) = raw_value {
        let trimmed_value = raw_value.trim();
        proof {
            lemma_trimmed_of_trimmed(raw_value@);
        }
        return match parse_bool_override(trimmed_value) {
            Some(enabled) => PersonalityResolution::Explicit(enabled),
            None => PersonalityResolution::Invalid(trimmed_value.to_string()),
        };
    }
    if custom_provider_configured {
        PersonalityResolution::DefaultDisabledForCustomProvider
    } else {
        PersonalityResolution::Keep
    }
}

/// The protocol that `raw_value` names, in any case and with any white space
/// around it.
pub open spec fn wire_api_value(raw_value: Option<Seq<char>>) -> Option<WireApi> {
    match raw_value {
        Some(text) => {
            let word = ascii_lowercase(trimmed(text));
            if word == "responses"@ {
                Some(WireApi::Responses)
            } else if word == "chat"@ {
                Some(WireApi::Chat)
            } else {
                None
            }
        },
        None => None,
    }
}

/// The protocol that `raw_value` names.
pub fn parse_wire_api(raw_value: Option<&str>) -> (res: Option<WireApi>)
    ensures
        res == wire_api_value(option_view(raw_value)),
{
    let raw_value = raw_value?;
    let word: String = raw_value.trim().to_ascii_lowercase();
    if reads(&word, "responses") {
        Some(WireApi::Responses)
    } else if reads(&word, "chat") {
        Some(WireApi::Chat)
    } else {
        None
    }
}

/// Runtime model/provider overrides for embedded callers.
///
/// A standalone process reads the same values from environment variables.
/// Embedded callers pass this struct instead, and leave the environment of the
/// process alone.
#[derive(Debug, Clone, PartialEq, Eq)]
pub struct CodexRuntimeOverrides {
    pub model: Option<String>,
    pub base_url: Option<String>,
    pub api_key: Option<String>,
    pub provider_id: Option<String>,
    pub provider_name: Option<String>,
    pub model_context_window: Option<i64>,
    pub personality_enabled: Option<bool>,
    pub wire_api: Option<String>,
}

/// The model of [`CodexRuntimeOverrides`].
#[verifier::ext_equal]
pub struct CodexRuntimeOverridesView {
    pub model: Option<Seq<char>>,
    pub base_url: Option<Seq<char>>,
    pub api_key: Option<Seq<char>>,
    pub provider_id: Option<Seq<char>>,
    pub provider_name: Option<Seq<char>>,
    pub model_context_window: Option<i64>,
    pub personality_enabled: Option<bool>,
    pub wire_api: Option<Seq<char>>,
}

impl View for CodexRuntimeOverrides {
    type V = CodexRuntimeOverridesView;

    open spec fn view(&self) -> CodexRuntimeOverridesView {
        CodexRuntimeOverridesView {
            model: option_view(self.model),
            base_url: option_view(self.base_url),
            api_key: option_view(self.api_key),
            provider_id: option_view(self.provider_id),
            provider_name: option_view(self.provider_name),
            model_context_window: self.model_context_window,
            personality_enabled: self.personality_enabled,
            wire_api: option_view(self.wire_api),
        }
    }
}

/// Overrides that give nothing.
pub open spec fn no_overrides() -> CodexRuntimeOverridesView {
    CodexRuntimeOverridesView {
        model: None,
        base_url: None,
        api_key: None,
        provider_id: None,
        provider_name: None,
        model_context_window: None,
        personality_enabled: None,
        wire_api: None,
    }
}

impl Default for CodexRuntimeOverrides {
    fn default() -> (res: Self)
        ensures
            res@ == no_overrides(),
    {
        CodexRuntimeOverrides {
            model: None,
            base_url: None,
            api_key: None,
            provider_id: None,
            provider_name: None,
            model_context_window: None,
            personality_enabled: None,
            wire_api: None,
        }
    }
}

/// Overrides as text, the way the environment gives them.
#[derive(Debug, Clone)]
pub struct RuntimeOverrideValues {
    pub model: Option<String>,
    pub base_url: Option<String>,
    pub api_key: Option<String>,
    pub provider_id: Option<String>,
    pub provider_name: Option<String>,
    pub model_context_window: Option<String>,
    pub personality_enabled: Option<String>,
    pub wire_api: Option<String>,
}

/// The model of [`RuntimeOverrideValues`].
#[verifier::ext_equal]
pub struct RuntimeOverrideValuesView {
    pub model: Option<Seq<char>>,
    pub base_url: Option<Seq<char>>,
    pub api_key: Option<Seq<char>>,
    pub provider_id: Option<Seq<char>>,
    pub provider_name: Option<Seq<char>>,
    pub model_context_window: Option<Seq<char>>,
    pub personality_enabled: Option<Seq<char>>,
    pub wire_api: Option<Seq<char>>,
}

impl View for RuntimeOverrideValues {
    type V = RuntimeOverrideValuesView;

    open spec fn view(&self) -> RuntimeOverrideValuesView {
        RuntimeOverrideValuesView {
            model: option_view(self.model),
            base_url: option_view(self.base_url),
            api_key: option_view(self.api_key),
            provider_id: option_view(self.provider_id),
            provider_name: option_view(self.provider_name),
            model_context_window: option_view(self.model_context_window),
            personality_enabled: option_view(self.personality_enabled),
            wire_api: option_view(self.wire_api),
        }
    }
}

/// Overrides of which no value is given.
pub open spec fn no_values() -> RuntimeOverrideValuesView {
    RuntimeOverrideValuesView {
        model: None,
        base_url: None,
        api_key: None,
        provider_id: None,
        provider_name: None,
        model_context_window: None,
        personality_enabled: None,
        wire_api: None,
    }
}

impl Default for RuntimeOverrideValues {
    fn default() -> (res: Self)
        ensures
            res@ == no_values(),
    {
        RuntimeOverrideValues {
            model: None,
            base_url: None,
            api_key: None,
            provider_id: None,
            provider_name: None,
            model_context_window: None,
            personality_enabled: None,
            wire_api: None,
        }
    }
}

/// A truth value written out.
pub open spec fn bool_text(value: bool) -> Seq<char> {
    if value {
        "true"@
    } else {
        "false"@
    }
}

/// The overrides written out as text.
pub open spec fn written_out(overrides: CodexRuntimeOverridesView) -> RuntimeOverrideValuesView {
    RuntimeOverrideValuesView {
        model: overrides.model,
        base_url: overrides.base_url,
        api_key: overrides.api_key,
        provider_id: overrides.provider_id,
        provider_name: overrides.provider_name,
        model_context_window: match overrides.model_context_window {
            Some(size) => Some(decimal(size as int)),
            None => None,
        },
        personality_enabled: match overrides.personality_enabled {
            Some(enabled) => Some(bool_text(enabled)),
            None => None,
        },
        wire_api: overrides.wire_api,
    }
}

// What `from` gives back holds text it writes itself, so its contract speaks of
// models and stands on `from`.
impl vstd::std_specs::convert::FromSpecImpl<CodexRuntimeOverrides> for RuntimeOverrideValues {
    open spec fn obeys_from_spec() -> bool {
        false
    }

    open spec fn from_spec(overrides: CodexRuntimeOverrides) -> RuntimeOverrideValues {
        arbitrary()
    }
}

impl From<CodexRuntimeOverrides> for RuntimeOverrideValues {
    fn from(overrides: CodexRuntimeOverrides) -> (res: Self)
        ensures
            res@ == written_out(overrides@),
    {
        RuntimeOverrideValues {
            model: overrides.model,
            base_url: overrides.base_url,
            api_key: overrides.api_key,
            provider_id: overrides.provider_id,
            provider_name: overrides.provider_name,
            model_context_window: match overrides.model_context_window {
                Some(size) => Some(i64_to_string(size)),
                None => None,
            },
            personality_enabled: match overrides.personality_enabled {
                Some(true) => Some("true".to_string()),
                Some(false) => Some("false".to_string()),
                None => None,
            },
            wire_api: overrides.wire_api,
        }
    }
}

/// `text` trimmed, if that leaves anything.
pub open spec fn non_blank(text: Option<Seq<char>>) -> Option<Seq<char>> {
    match text {
        Some(text) => if trimmed(text).len() > 0 {
            Some(trimmed(text))
        } else {
            None
        },
        None => None,
    }
}

/// `text` trimmed, if that leaves anything.
fn non_blank_text(text: &str) -> (res: Option<String>)
    ensures
        option_view(res) == non_blank(Some(text@)),
{
    let trimmed_text = text.trim();
    if trimmed_text.is_empty() {
        None
    } else {
        Some(trimmed_text.to_string())
    }
}

/// The override `value` trimmed, if that leaves anything.
fn non_blank_override(value: &Option<String>) -> (res: Option<String>)
    ensures
        option_view(res) == non_blank(option_view(*value)),
{
    match value {
        Some(value) => non_blank_text(value.as_str()),
        None => None,
    }
}

/// The override `value` as text.
fn override_text(value: &Option<String>) -> (res: Option<&str>)
    ensures
        option_view(res) == option_view(*value),
{
    match value {
        Some(value) => Some(value.as_str()),
        None => None,
    }
}

/// The value of the variable called `name`, if it is set.
pub open spec fn env_var(vars: Map<Seq<char>, Seq<char>>, name: Seq<char>) -> Option<Seq<char>> {
    if vars.contains_key(name) {
        Some(vars[name])
    } else {
        None
    }
}

/// The value of the variable called `name`, trimmed, if that leaves anything.
///
/// `vars` is as in [`read_runtime_overrides_from_env`].
pub fn non_empty_env_var(vars: &Table<String>, name: &str) -> (res: Option<String>)
    ensures
        option_view(res) == non_blank(env_var(vars@, name@)),
{
    match vars.get(name) {
        Some(value) => non_blank_text(value.as_str()),
        None => None,
    }
}

/// The overrides that an environment gives: each from its own variable,
/// trimmed, and none where that leaves nothing.
pub open spec fn values_from_env(vars: Map<Seq<char>, Seq<char>>) -> RuntimeOverrideValuesView {
    RuntimeOverrideValuesView {
        model: non_blank(env_var(vars, ENV_CODEX_MODEL@)),
        base_url: non_blank(env_var(vars, ENV_CODEX_BASE_URL@)),
        api_key: non_blank(env_var(vars, ENV_CODEX_API_KEY@)),
        provider_id: non_blank(env_var(vars, ENV_CODEX_PROVIDER_ID@)),
        provider_name: non_blank(env_var(vars, ENV_CODEX_PROVIDER_NAME@)),
        model_context_window: non_blank(env_var(vars, ENV_CODEX_MODEL_CONTEXT_WINDOW@)),
        personality_enabled: non_blank(env_var(vars, ENV_CODEX_PERSONALITY_ENABLED@)),
        wire_api: non_blank(env_var(vars, ENV_CODEX_WIRE_API@)),
    }
}

/// The overrides that the environment `vars` gives.
///
/// `vars` holds, under the name of each of the override variables, what the
/// host's own lookup of that name gives, and nothing where the lookup gives no
/// text: the variable is not set, or its value is not Unicode.
pub fn read_runtime_overrides_from_env(vars: &Table<String>) -> (res: RuntimeOverrideValues)
    ensures
        res@ == values_from_env(vars@),
{
    RuntimeOverrideValues {
        model: non_empty_env_var(vars, ENV_CODEX_MODEL),
        base_url: non_empty_env_var(vars, ENV_CODEX_BASE_URL),
        api_key: non_empty_env_var(vars, ENV_CODEX_API_KEY),
        provider_id: non_empty_env_var(vars, ENV_CODEX_PROVIDER_ID),
        provider_name: non_empty_env_var(vars, ENV_CODEX_PROVIDER_NAME),
        model_context_window: non_empty_env_var(vars, ENV_CODEX_MODEL_CONTEXT_WINDOW),
        personality_enabled: non_empty_env_var(vars, ENV_CODEX_PERSONALITY_ENABLED),
        wire_api: non_empty_env_var(vars, ENV_CODEX_WIRE_API),
    }
}

/// Whether the overrides set up a provider of their own: they give an address
/// or a key.
pub open spec fn configures_custom_provider(overrides: RuntimeOverrideValuesView) -> bool {
    non_blank(overrides.base_url) is Some || non_blank(overrides.api_key) is Some
}

/// What the overrides ask the personality feature to be, if anything.
pub open spec fn requested_personality(overrides: RuntimeOverrideValuesView) -> Option<bool> {
    match personality_resolution(
        overrides.personality_enabled,
        configures_custom_provider(overrides),
    ) {
        PersonalityResolutionView::Explicit(enabled) => Some(enabled),
        PersonalityResolutionView::DefaultDisabledForCustomProvider => Some(false),
        PersonalityResolutionView::Keep => None,
        PersonalityResolutionView::Invalid(_) => None,
    }
}

/// The protocol text that the overrides give and that is ignored, trimmed and
/// with its case folded. Without a custom provider the text is not looked at.
pub open spec fn ignored_wire_api_text(overrides: RuntimeOverrideValuesView) -> Option<Seq<char>> {
    match overrides.wire_api {
        Some(text) => if configures_custom_provider(overrides) && wire_api_value(
            Some(text),
        ) is None {
            Some(ascii_lowercase(trimmed(text)))
        } else {
            None
        },
        None => None,
    }
}

/// The protocol text of `overrides` that is ignored since it names no protocol.
pub fn ignored_wire_api(overrides: &RuntimeOverrideValues) -> (res: Option<String>)
    ensures
        option_view(res) == ignored_wire_api_text(overrides@),
{
    if !custom_provider_configured(overrides) {
        return None;
    }
    let text = override_text(&overrides.wire_api)?;
    if parse_wire_api(Some(text)).is_some() {
        None
    } else {
        Some(text.trim().to_ascii_lowercase())
    }
}

/// Whether `overrides` set up a provider of their own.
pub fn custom_provider_configured(overrides: &RuntimeOverrideValues) -> (res: bool)
    ensures
        res == configures_custom_provider(overrides@),
{
    non_blank_override(&overrides.base_url).is_some() || non_blank_override(
        &overrides.api_key,
    ).is_some()
}

/// What the host has to switch the personality feature to before `overrides`
/// are applied; nothing where it is to be left alone.
pub fn personality_switch(overrides: &RuntimeOverrideValues) -> (res: Option<bool>)
    ensures
        res == requested_personality(overrides@),
{
    match resolve_personality_override(
        override_text(&overrides.personality_enabled),
        custom_provider_configured(overrides),
    ) {
        PersonalityResolution::Explicit(enabled) => Some(enabled),
        PersonalityResolution::DefaultDisabledForCustomProvider => Some(false),
        PersonalityResolution::Keep => None,
        PersonalityResolution::Invalid(_) => None,
    }
}

/// The personality of an agent whose personality feature was switched: off, it
/// has none; on, it keeps the one it has or gets the pragmatic one.
pub open spec fn switched_personality(
    current: Option<Personality>,
    enabled: bool,
) -> Option<Personality> {
    if !enabled {
        None
    } else if current is Some {
        current
    } else {
        Some(Personality::Pragmatic)
    }
}

/// Brings the personality of `config` in line with the personality feature,
/// which the host was asked to switch to `enabled`.
///
/// `switched` says whether the host did so. Where it refused, nothing changes.
pub fn set_personality_enabled(config: &mut Config, enabled: bool, switched: bool)
    ensures
        final(config)@ == (ConfigView {
            personality: if switched {
                switched_personality(old(config)@.personality, enabled)
            } else {
                old(config)@.personality
            },
            ..old(config)@
        }),
{
    if !switched {
        return ;
    }
    if enabled {
        if config.personality.is_none() {
            config.personality = Some(Personality::Pragmatic);
        }
    } else {
        config.personality = None;
    }
}

/// The name under which the overrides register their provider.
pub open spec fn provider_id(
    config: ConfigView,
    overrides: RuntimeOverrideValuesView,
) -> Seq<char> {
    match non_blank(overrides.provider_id) {
        Some(id) => id,
        None => config.model_provider_id,
    }
}

/// The provider that the overrides describe, registered under `id`.
///
/// A key that was given is kept in the description itself; without one, the
/// description names the environment variable to read it from.
pub open spec fn custom_provider(
    id: Seq<char>,
    overrides: RuntimeOverrideValuesView,
) -> ModelProviderInfoView {
    ModelProviderInfoView {
        name: match non_blank(overrides.provider_name) {
            Some(name) => name,
            None => id,
        },
        base_url: non_blank(overrides.base_url),
        env_key: if non_blank(overrides.api_key) is Some {
            None
        } else {
            Some(ENV_CODEX_API_KEY@)
        },
        env_key_instructions: None,
        experimental_bearer_token: non_blank(overrides.api_key),
        auth: None,
        aws: None,
        wire_api: match wire_api_value(overrides.wire_api) {
            Some(wire_api) => wire_api,
            None => WireApi::Responses,
        },
        query_params: None,
        http_headers: Some(Map::empty().insert("version"@, VERSION@)),
        env_http_headers: None,
        request_max_retries: None,
        stream_max_retries: None,
        stream_idle_timeout_ms: None,
        websocket_connect_timeout_ms: None,
        requires_openai_auth: false,
        supports_websockets: false,
    }
}

/// The provider that `overrides` describe, registered under `id`.
fn custom_provider_info(id: &String, overrides: &RuntimeOverrideValues) -> (res: ModelProviderInfo)
    ensures
        res@ == custom_provider(id@, overrides@),
{
    let api_key = non_blank_override(&overrides.api_key);
    let env_key = if api_key.is_some() {
        None
    } else {
        Some(ENV_CODEX_API_KEY.to_string())
    };
    let mut http_headers: Table<String> = Table::new();
    http_headers.insert("version".to_string(), VERSION.to_string());
    ModelProviderInfo {
        name: match non_blank_override(&overrides.provider_name) {
            Some(name) => name,
            None => id.clone(),
        },
        base_url: non_blank_override(&overrides.base_url),
        env_key,
        env_key_instructions: None,
        experimental_bearer_token: api_key,
        auth: None,
        aws: None,
        wire_api: match parse_wire_api(override_text(&overrides.wire_api)) {
            Some(wire_api) => wire_api,
            None => WireApi::default(),
        },
        query_params: None,
        http_headers: Some(http_headers),
        env_http_headers: None,
        request_max_retries: None,
        stream_max_retries: None,
        stream_idle_timeout_ms: None,
        websocket_connect_timeout_ms: None,
        // The key comes from the environment or from the description: there is
        // no login.
        requires_openai_auth: false,
        // Most providers serve plain HTTP only.
        supports_websockets: false,
    }
}

/// The context window that the overrides leave.
pub open spec fn overridden_context_window(
    config: ConfigView,
    overrides: RuntimeOverrideValuesView,
) -> Option<i64> {
    match context_window_resolution(
        overrides.model_context_window,
        configures_custom_provider(overrides),
        config.model_context_window,
    ) {
        ModelContextWindowResolutionView::Explicit(size) => Some(size),
        ModelContextWindowResolutionView::Default(size) => Some(size),
        ModelContextWindowResolutionView::Keep => config.model_context_window,
        ModelContextWindowResolutionView::Invalid(_) => config.model_context_window,
    }
}

/// The personality that the overrides leave, where `switched` says whether the
/// host switched the personality feature as they ask.
pub open spec fn overridden_personality(
    config: ConfigView,
    overrides: RuntimeOverrideValuesView,
    switched: bool,
) -> Option<Personality> {
    match requested_personality(overrides) {
        Some(enabled) => if switched {
            switched_personality(config.personality, enabled)
        } else {
            config.personality
        },
        None => config.personality,
    }
}

/// What the overrides make of a configuration.
pub open spec fn overridden(
    config: ConfigView,
    overrides: RuntimeOverrideValuesView,
    switched: bool,
) -> ConfigView {
    let custom = configures_custom_provider(overrides);
    let id = provider_id(config, overrides);
    let provider = custom_provider(id, overrides);
    ConfigView {
        model: match non_blank(overrides.model) {
            Some(model) => Some(model),
            None => config.model,
        },
        model_context_window: overridden_context_window(config, overrides),
        model_provider_id: if custom {
            id
        } else {
            config.model_provider_id
        },
        model_provider: if custom {
            provider
        } else {
            config.model_provider
        },
        model_providers: if custom {
            config.model_providers.insert(id, provider)
        } else {
            config.model_providers
        },
        personality: overridden_personality(config, overrides, switched),
    }
}

/// Applies overrides to a loaded configuration.
///
/// `switched` says whether the host switched the personality feature to what
/// [`personality_switch`] asks for these overrides. It is not looked at where
/// that asks for nothing.
pub fn apply_runtime_override_values(
    mut config: Config,
    overrides: RuntimeOverrideValues,
    switched: bool,
) -> (res: Config)
    ensures
        res@ == overridden(config@, overrides@, switched),
{
    if let Some(model) = non_blank_override(&overrides.model) {
        config.model = Some(model);
    }
    let id = match non_blank_override(&overrides.provider_id) {
        Some(id) => id,
        None => config.model_provider_id.clone(),
    };
    let custom = custom_provider_configured(&overrides);
    if let Some(enabled) = personality_switch(&overrides) {
        set_personality_enabled(&mut config, enabled, switched);
    }
    match resolve_model_context_window_override(
        override_text(&overrides.model_context_window),
        custom,
        config.model_context_window,
    ) {
        ModelContextWindowResolution::Explicit(size) => {
            config.model_context_window = Some(size);
        },
        ModelContextWindowResolution::Default(size) => {
            config.model_context_window = Some(size);
        },
        ModelContextWindowResolution::Keep => {},
        ModelContextWindowResolution::Invalid(_) => {},
    }
    if custom {
        config.model_provider = custom_provider_info(&id, &overrides);
        config.model_providers.insert(id.clone(), custom_provider_info(&id, &overrides));
        config.model_provider_id = id;
    }
    config
}

/// Applies the overrides of an embedding application to a loaded configuration.
///
/// `switched` is as in [`apply_runtime_override_values`].
pub fn apply_runtime_overrides(
    config: Config,
    overrides: CodexRuntimeOverrides,
    switched: bool,
) -> (res: Config)
    ensures
        res@ == overridden(config@, written_out(overrides@), switched),
{
    apply_runtime_override_values(config, RuntimeOverrideValues::from(overrides), switched)
}

/// Applies the overrides of the environment `vars` to a loaded configuration.
///
/// `vars` is as in [`read_runtime_overrides_from_env`], and `switched` as in
/// [`apply_runtime_override_values`].
pub fn apply_env_overrides(config: Config, vars: &Table<String>, switched: bool) -> (res: Config)
    ensures
        res@ == overridden(config@, values_from_env(vars@), switched),
{
    apply_runtime_override_values(config, read_runtime_overrides_from_env(vars), switched)
}

} // verus!
