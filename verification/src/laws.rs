//! What holds of overrides as a whole.
use crate::config::{ConfigView, Personality, WireApi};
use crate::runtime_overrides::{
    bool_text, bool_value, configures_custom_provider, context_window_resolution, env_var,
    ignored_wire_api_text, no_overrides, no_values, non_blank, overridden, personality_resolution,
    requested_personality, switched_personality, values_from_env, wire_api_value, written_out,
    CodexRuntimeOverridesView, ModelContextWindowResolutionView, PersonalityResolutionView,
    RuntimeOverrideValuesView, DEFAULT_CUSTOM_MODEL_CONTEXT_WINDOW, ENV_CODEX_API_KEY,
    ENV_CODEX_BASE_URL, ENV_CODEX_MODEL, ENV_CODEX_MODEL_CONTEXT_WINDOW,
    ENV_CODEX_PERSONALITY_ENABLED, ENV_CODEX_PROVIDER_ID, ENV_CODEX_PROVIDER_NAME,
    ENV_CODEX_WIRE_API,
};
use crate::startup::{
    failure_kind, failure_prefix, log_target_for, FailureKind, LogTarget, Step,
};
use crate::text::{
    ascii_lowercase, i64_value, is_white_space, law_trimming_removes_white_space_at_the_ends,
    lemma_decimal_reads_back, lemma_trimmed_of_lowercase, lemma_trimmed_of_trimmed, trimmed,
};
use crate::VERSION;
use vstd::prelude::*;

verus! {

/// An environment that holds each of `values` in its own variable, and none of
/// the variables whose value is not given.
pub open spec fn holds_values(
    vars: Map<Seq<char>, Seq<char>>,
    values: RuntimeOverrideValuesView,
) -> bool {
    &&& env_var(vars, ENV_CODEX_MODEL@) == values.model
    &&& env_var(vars, ENV_CODEX_BASE_URL@) == values.base_url
    &&& env_var(vars, ENV_CODEX_API_KEY@) == values.api_key
    &&& env_var(vars, ENV_CODEX_PROVIDER_ID@) == values.provider_id
    &&& env_var(vars, ENV_CODEX_PROVIDER_NAME@) == values.provider_name
    &&& env_var(vars, ENV_CODEX_MODEL_CONTEXT_WINDOW@) == values.model_context_window
    &&& env_var(vars, ENV_CODEX_PERSONALITY_ENABLED@) == values.personality_enabled
    &&& env_var(vars, ENV_CODEX_WIRE_API@) == values.wire_api
}

proof fn lemma_non_blank_twice(text: Option<Seq<char>>)
    ensures
        non_blank(non_blank(text)) == non_blank(text),
{
    if let Some(text) = text {
        lemma_trimmed_of_trimmed(text);
    }
}

proof fn lemma_wire_api_of_non_blank(text: Option<Seq<char>>)
    ensures
        wire_api_value(non_blank(text)) == wire_api_value(text),
{
    reveal_strlit("responses");
    reveal_strlit("chat");
    assert("responses"@.len() == 9 && "chat"@.len() == 4);
    if let Some(text) = text {
        lemma_trimmed_of_trimmed(text);
        assert(ascii_lowercase(trimmed(text)).len() == trimmed(text).len());
    }
}

/// A truth value written out reads back as that truth value, and is no blank.
pub proof fn law_bool_text_reads_back(value: bool)
    ensures
        bool_value(bool_text(value)) == Some(value),
        non_blank(Some(bool_text(value))) == Some(bool_text(value)),
{
    reveal_strlit("true");
    reveal_strlit("false");
    reveal_strlit("1");
    reveal_strlit("yes");
    reveal_strlit("on");
    reveal_strlit("0");
    reveal_strlit("no");
    reveal_strlit("off");
    let text = bool_text(value);
    assert(text.first() == 't' || text.first() == 'f');
    assert(text.last() == 'e');
    assert(trimmed(text) == text);
    assert(ascii_lowercase(text) =~= text);
    if !value {
        assert(text.len() == 5);
    }
}

/// An environment that says what `overrides` say: each text up to white space,
/// with blank text as good as none; the size and the truth value in any of the
/// ways to write them.
pub open spec fn says_the_same(
    vars: Map<Seq<char>, Seq<char>>,
    overrides: CodexRuntimeOverridesView,
) -> bool {
    &&& non_blank(env_var(vars, ENV_CODEX_MODEL@)) == non_blank(overrides.model)
    &&& non_blank(env_var(vars, ENV_CODEX_BASE_URL@)) == non_blank(overrides.base_url)
    &&& non_blank(env_var(vars, ENV_CODEX_API_KEY@)) == non_blank(overrides.api_key)
    &&& non_blank(env_var(vars, ENV_CODEX_PROVIDER_ID@)) == non_blank(overrides.provider_id)
    &&& non_blank(env_var(vars, ENV_CODEX_PROVIDER_NAME@)) == non_blank(overrides.provider_name)
    &&& non_blank(env_var(vars, ENV_CODEX_WIRE_API@)) == non_blank(overrides.wire_api)
    &&& match overrides.model_context_window {
        Some(size) => env_var(vars, ENV_CODEX_MODEL_CONTEXT_WINDOW@) matches Some(text)
            && i64_value(trimmed(text)) == Some(size),
        None => non_blank(env_var(vars, ENV_CODEX_MODEL_CONTEXT_WINDOW@)) is None,
    }
    &&& match overrides.personality_enabled {
        Some(enabled) => env_var(vars, ENV_CODEX_PERSONALITY_ENABLED@) matches Some(text)
            && bool_value(text) == Some(enabled),
        None => non_blank(env_var(vars, ENV_CODEX_PERSONALITY_ENABLED@)) is None,
    }
}

proof fn lemma_truth_value_is_not_blank(text: Seq<char>)
    requires
        bool_value(text) is Some,
    ensures
        trimmed(text).len() > 0,
{
    reveal_strlit("true");
    reveal_strlit("1");
    reveal_strlit("yes");
    reveal_strlit("on");
    reveal_strlit("false");
    reveal_strlit("0");
    reveal_strlit("no");
    reveal_strlit("off");
    assert(ascii_lowercase(trimmed(text)).len() == trimmed(text).len());
}

/// An environment that says what an embedding application's overrides say has
/// the effect of those overrides.
pub proof fn law_environment_and_embedding_agree(
    config: ConfigView,
    overrides: CodexRuntimeOverridesView,
    vars: Map<Seq<char>, Seq<char>>,
    switched: bool,
)
    requires
        says_the_same(vars, overrides),
    ensures
        requested_personality(values_from_env(vars)) == requested_personality(
            written_out(overrides),
        ),
        overridden(config, values_from_env(vars), switched) == overridden(
            config,
            written_out(overrides),
            switched,
        ),
{
    lemma_non_blank_twice(overrides.model);
    lemma_non_blank_twice(overrides.base_url);
    lemma_non_blank_twice(overrides.api_key);
    lemma_non_blank_twice(overrides.provider_id);
    lemma_non_blank_twice(overrides.provider_name);
    lemma_wire_api_of_non_blank(overrides.wire_api);
    if let Some(size) = overrides.model_context_window {
        let text = env_var(vars, ENV_CODEX_MODEL_CONTEXT_WINDOW@)->0;
        lemma_trimmed_of_trimmed(text);
        lemma_decimal_reads_back(size);
    }
    if let Some(enabled) = overrides.personality_enabled {
        let text = env_var(vars, ENV_CODEX_PERSONALITY_ENABLED@)->0;
        lemma_trimmed_of_trimmed(text);
        lemma_truth_value_is_not_blank(text);
        law_bool_text_reads_back(enabled);
    }
}

/// An environment that holds an embedding application's overrides written out
/// says what they say.
pub proof fn law_written_out_says_the_same(
    overrides: CodexRuntimeOverridesView,
    vars: Map<Seq<char>, Seq<char>>,
)
    requires
        holds_values(vars, written_out(overrides)),
    ensures
        says_the_same(vars, overrides),
{
    if let Some(size) = overrides.model_context_window {
        lemma_decimal_reads_back(size);
    }
    if let Some(enabled) = overrides.personality_enabled {
        law_bool_text_reads_back(enabled);
    }
}

/// `text` trimmed, where there is any.
pub open spec fn trimmed_option(text: Option<Seq<char>>) -> Option<Seq<char>> {
    match text {
        Some(text) => Some(trimmed(text)),
        None => None,
    }
}

/// The overrides with each value trimmed.
pub open spec fn trimmed_values(values: RuntimeOverrideValuesView) -> RuntimeOverrideValuesView {
    RuntimeOverrideValuesView {
        model: trimmed_option(values.model),
        base_url: trimmed_option(values.base_url),
        api_key: trimmed_option(values.api_key),
        provider_id: trimmed_option(values.provider_id),
        provider_name: trimmed_option(values.provider_name),
        model_context_window: trimmed_option(values.model_context_window),
        personality_enabled: trimmed_option(values.personality_enabled),
        wire_api: trimmed_option(values.wire_api),
    }
}

proof fn lemma_trimmed_option(text: Option<Seq<char>>)
    ensures
        non_blank(trimmed_option(text)) == non_blank(text),
        wire_api_value(trimmed_option(text)) == wire_api_value(text),
{
    if let Some(text) = text {
        lemma_trimmed_of_trimmed(text);
    }
}

/// White space around the value of an override never matters.
pub proof fn law_white_space_never_matters(
    config: ConfigView,
    values: RuntimeOverrideValuesView,
    switched: bool,
)
    ensures
        requested_personality(trimmed_values(values)) == requested_personality(values),
        overridden(config, trimmed_values(values), switched) == overridden(
            config,
            values,
            switched,
        ),
{
    lemma_trimmed_option(values.model);
    lemma_trimmed_option(values.base_url);
    lemma_trimmed_option(values.api_key);
    lemma_trimmed_option(values.provider_id);
    lemma_trimmed_option(values.provider_name);
    lemma_trimmed_option(values.wire_api);
    if let Some(text) = values.model_context_window {
        lemma_trimmed_of_trimmed(text);
    }
    if let Some(text) = values.personality_enabled {
        lemma_trimmed_of_trimmed(text);
    }
}

/// A blank model, address, key, provider name, provider id or protocol is as
/// good as none.
pub proof fn law_blank_is_unset(
    config: ConfigView,
    values: RuntimeOverrideValuesView,
    switched: bool,
)
    ensures
        ({
            let given = RuntimeOverrideValuesView {
                model: non_blank(values.model),
                base_url: non_blank(values.base_url),
                api_key: non_blank(values.api_key),
                provider_id: non_blank(values.provider_id),
                provider_name: non_blank(values.provider_name),
                wire_api: non_blank(values.wire_api),
                ..values
            };
            &&& requested_personality(given) == requested_personality(values)
            &&& overridden(config, given, switched) == overridden(config, values, switched)
        }),
{
    lemma_non_blank_twice(values.model);
    lemma_non_blank_twice(values.base_url);
    lemma_non_blank_twice(values.api_key);
    lemma_non_blank_twice(values.provider_id);
    lemma_non_blank_twice(values.provider_name);
    lemma_wire_api_of_non_blank(values.wire_api);
}

/// Texts that differ in the case of ASCII letters alone name the same truth
/// value and the same protocol.
pub proof fn law_case_never_matters(a: Seq<char>, b: Seq<char>)
    requires
        ascii_lowercase(a) == ascii_lowercase(b),
    ensures
        bool_value(a) == bool_value(b),
        wire_api_value(Some(a)) == wire_api_value(Some(b)),
{
    lemma_trimmed_of_lowercase(a);
    lemma_trimmed_of_lowercase(b);
}

/// No override variable holds anything but white space.
pub open spec fn gives_nothing(vars: Map<Seq<char>, Seq<char>>) -> bool {
    &&& non_blank(env_var(vars, ENV_CODEX_MODEL@)) is None
    &&& non_blank(env_var(vars, ENV_CODEX_BASE_URL@)) is None
    &&& non_blank(env_var(vars, ENV_CODEX_API_KEY@)) is None
    &&& non_blank(env_var(vars, ENV_CODEX_PROVIDER_ID@)) is None
    &&& non_blank(env_var(vars, ENV_CODEX_PROVIDER_NAME@)) is None
    &&& non_blank(env_var(vars, ENV_CODEX_MODEL_CONTEXT_WINDOW@)) is None
    &&& non_blank(env_var(vars, ENV_CODEX_PERSONALITY_ENABLED@)) is None
    &&& non_blank(env_var(vars, ENV_CODEX_WIRE_API@)) is None
}

/// An environment gives no override just where none of the override variables
/// holds anything but white space, whatever other variables there are.
pub proof fn law_environment_gives_nothing(vars: Map<Seq<char>, Seq<char>>)
    ensures
        gives_nothing(vars) <==> values_from_env(vars) == no_values(),
{
}

/// Overrides that give nothing change nothing and ask nothing of the host.
pub proof fn law_no_overrides_change_nothing(config: ConfigView, switched: bool)
    ensures
        written_out(no_overrides()) == no_values(),
        requested_personality(no_values()) is None,
        overridden(config, no_values(), switched) == config,
{
}

/// An environment whose override variables are all unset or blank changes
/// nothing and asks nothing of the host.
pub proof fn law_environment_without_overrides_changes_nothing(
    config: ConfigView,
    vars: Map<Seq<char>, Seq<char>>,
    switched: bool,
)
    requires
        gives_nothing(vars),
    ensures
        requested_personality(values_from_env(vars)) is None,
        overridden(config, values_from_env(vars), switched) == config,
{
    law_environment_gives_nothing(vars);
    law_no_overrides_change_nothing(config, switched);
}

/// Applying overrides once more changes nothing.
pub proof fn law_applying_twice_is_applying_once(
    config: ConfigView,
    values: RuntimeOverrideValuesView,
    switched: bool,
)
    ensures
        overridden(overridden(config, values, switched), values, switched) == overridden(
            config,
            values,
            switched,
        ),
{
    let once = overridden(config, values, switched);
    let twice = overridden(once, values, switched);
    if configures_custom_provider(values) {
        assert(twice.model_providers =~= once.model_providers);
    }
}

/// Without an address or a key the providers stay as they are, whatever else is
/// overridden.
pub proof fn law_providers_stay_without_address_and_key(
    config: ConfigView,
    values: RuntimeOverrideValuesView,
    switched: bool,
)
    requires
        non_blank(values.base_url) is None,
        non_blank(values.api_key) is None,
    ensures
        ({
            let after = overridden(config, values, switched);
            &&& after.model_provider_id == config.model_provider_id
            &&& after.model_provider == config.model_provider
            &&& after.model_providers == config.model_providers
        }),
{
}

/// The provider in use is registered under its name.
pub open spec fn provider_is_registered(config: ConfigView) -> bool {
    &&& config.model_providers.contains_key(config.model_provider_id)
    &&& config.model_providers[config.model_provider_id] == config.model_provider
}

/// A custom provider is put in use and registered, and no other registration
/// changes. Overrides never lose the registration of the provider in use.
pub proof fn law_provider_in_use_is_registered(
    config: ConfigView,
    values: RuntimeOverrideValuesView,
    switched: bool,
)
    ensures
        ({
            let after = overridden(config, values, switched);
            &&& configures_custom_provider(values) || provider_is_registered(config)
                ==> provider_is_registered(after)
            &&& forall|id: Seq<char>|
                id != after.model_provider_id ==> (#[trigger] after.model_providers.contains_key(id)
                    == config.model_providers.contains_key(id)) && (
                config.model_providers.contains_key(id) ==> after.model_providers[id]
                    == config.model_providers[id])
        }),
{
}

/// The key of a custom provider has exactly one source: the description, where
/// a key was given, and the environment otherwise. Nobody has to log in.
pub proof fn law_custom_provider_has_one_key_source(
    config: ConfigView,
    values: RuntimeOverrideValuesView,
    switched: bool,
)
    requires
        configures_custom_provider(values),
    ensures
        ({
            let provider = overridden(config, values, switched).model_provider;
            &&& provider.experimental_bearer_token == non_blank(values.api_key)
            &&& provider.env_key is Some <==> provider.experimental_bearer_token is None
            &&& provider.env_key is Some ==> provider.env_key == Some(ENV_CODEX_API_KEY@)
            &&& provider.auth is None && provider.aws is None && !provider.requires_openai_auth
        }),
{
}

/// A context window that an embedding application gives is taken if it is
/// positive, and leaves the configured one alone otherwise.
pub proof fn law_given_context_window_is_taken_if_positive(
    config: ConfigView,
    overrides: CodexRuntimeOverridesView,
    size: i64,
    switched: bool,
)
    requires
        overrides.model_context_window == Some(size),
    ensures
        overridden(config, written_out(overrides), switched).model_context_window == if size > 0 {
            Some(size)
        } else {
            config.model_context_window
        },
{
    lemma_decimal_reads_back(size);
}

/// Where no context window is given, the configured one stays. Where there is
/// none either, a custom provider gets the default and any other gets none.
pub proof fn law_context_window_without_override(
    config: ConfigView,
    values: RuntimeOverrideValuesView,
    switched: bool,
)
    requires
        values.model_context_window is None,
    ensures
        overridden(config, values, switched).model_context_window
            == match config.model_context_window {
            Some(size) => Some(size),
            None => if configures_custom_provider(values) {
                Some(DEFAULT_CUSTOM_MODEL_CONTEXT_WINDOW)
            } else {
                None
            },
        },
{
}

/// Overrides never bring in a context window that is not positive.
pub proof fn law_context_window_is_positive_or_as_before(
    config: ConfigView,
    values: RuntimeOverrideValuesView,
    switched: bool,
)
    ensures
        match overridden(config, values, switched).model_context_window {
            Some(size) => size > 0 || config.model_context_window == Some(size),
            None => config.model_context_window is None,
        },
{
}

/// What an embedding application says of the personality feature is asked of
/// the host, whether or not the provider is a custom one. Where it says
/// nothing, a custom provider has the feature turned off, and the feature is
/// left alone otherwise.
pub proof fn law_personality_request(overrides: CodexRuntimeOverridesView)
    ensures
        requested_personality(written_out(overrides)) == match overrides.personality_enabled {
            Some(enabled) => Some(enabled),
            None => if configures_custom_provider(written_out(overrides)) {
                Some(false)
            } else {
                None
            },
        },
{
    if let Some(enabled) = overrides.personality_enabled {
        law_bool_text_reads_back(enabled);
    }
}

/// The personality follows the switch that the host made: with the feature
/// turned on it is the one that was there or else the pragmatic one, with the
/// feature turned off there is none, and it stays as it is where nothing was
/// asked or the host refused.
pub proof fn law_personality_follows_the_switch(
    config: ConfigView,
    values: RuntimeOverrideValuesView,
    switched: bool,
)
    ensures
        ({
            let after = overridden(config, values, switched).personality;
            &&& switched && requested_personality(values) == Some(true) ==> after == Some(
                match config.personality {
                    Some(personality) => personality,
                    None => Personality::Pragmatic,
                },
            )
            &&& switched && requested_personality(values) == Some(false) ==> after is None
            &&& !switched || requested_personality(values) is None ==> after == config.personality
        }),
{
}

/// No value, or one that is white space alone.
pub open spec fn blank(text: Option<Seq<char>>) -> bool {
    text matches Some(text) ==> forall|i: int|
        0 <= i < text.len() ==> is_white_space(#[trigger] text[i])
}

/// The value of an override is blank, or has something left when it is trimmed.
proof fn lemma_blank(text: Option<Seq<char>>)
    ensures
        blank(text) ==> non_blank(text) is None,
        !blank(text) ==> text is Some && trimmed(text->0).len() > 0 && non_blank(text) == Some(
            trimmed(text->0),
        ),
{
    if let Some(text) = text {
        let (from, to) = law_trimming_removes_white_space_at_the_ends(text);
        if from < to {
            assert(!is_white_space(text[from]));
        }
    }
}

/// An address or a key sets up a provider of its own, and nothing else does.
pub proof fn law_address_or_key_makes_a_custom_provider(values: RuntimeOverrideValuesView)
    ensures
        configures_custom_provider(values) <==> !blank(values.base_url) || !blank(values.api_key),
{
    lemma_blank(values.base_url);
    lemma_blank(values.api_key);
}

/// A model that is given is the model of the agent, whichever was configured
/// and whatever else is given. Without one the configured model stays.
pub proof fn law_given_model_wins(
    config: ConfigView,
    values: RuntimeOverrideValuesView,
    switched: bool,
)
    ensures
        !blank(values.model) ==> overridden(config, values, switched).model == Some(
            trimmed(values.model->0),
        ),
        blank(values.model) ==> overridden(config, values, switched).model == config.model,
{
    lemma_blank(values.model);
}

/// Where an address or a key is given, requests go to that address and carry
/// that key, whatever else is given: the provider in use has the address, or
/// none where none is given, and the key itself, or the name of the variable to
/// read it from where none is given.
pub proof fn law_address_and_key_reach_the_provider(
    config: ConfigView,
    values: RuntimeOverrideValuesView,
    switched: bool,
)
    requires
        !blank(values.base_url) || !blank(values.api_key),
    ensures
        ({
            let provider = overridden(config, values, switched).model_provider;
            &&& !blank(values.base_url) ==> provider.base_url == Some(trimmed(values.base_url->0))
            &&& blank(values.base_url) ==> provider.base_url is None
            &&& !blank(values.api_key) ==> provider.experimental_bearer_token == Some(
                trimmed(values.api_key->0),
            ) && provider.env_key is None
            &&& blank(values.api_key) ==> provider.experimental_bearer_token is None
                && provider.env_key == Some("CODEX_API_KEY"@)
        }),
{
    lemma_blank(values.base_url);
    lemma_blank(values.api_key);
}

/// Where an address or a key is given, the provider in use goes by the given id,
/// whether or not another provider had that id, and by the configured one where
/// none is given. It is registered under that id, and the registrations under
/// all others stay.
pub proof fn law_provider_goes_by_the_given_id(
    config: ConfigView,
    values: RuntimeOverrideValuesView,
    switched: bool,
)
    requires
        !blank(values.base_url) || !blank(values.api_key),
    ensures
        ({
            let after = overridden(config, values, switched);
            &&& !blank(values.provider_id) ==> after.model_provider_id == trimmed(
                values.provider_id->0,
            )
            &&& blank(values.provider_id) ==> after.model_provider_id == config.model_provider_id
            &&& after.model_providers.contains_key(after.model_provider_id)
            &&& after.model_providers[after.model_provider_id] == after.model_provider
            &&& forall|id: Seq<char>|
                id != after.model_provider_id ==> (#[trigger] after.model_providers.contains_key(id)
                    <==> config.model_providers.contains_key(id))
            &&& forall|id: Seq<char>|
                id != after.model_provider_id && config.model_providers.contains_key(id)
                    ==> #[trigger] after.model_providers[id] == config.model_providers[id]
        }),
{
    lemma_blank(values.base_url);
    lemma_blank(values.api_key);
    lemma_blank(values.provider_id);
}

/// Where an address or a key is given, the provider in use has the given name,
/// and its id for a name where none is given.
pub proof fn law_provider_has_the_given_name(
    config: ConfigView,
    values: RuntimeOverrideValuesView,
    switched: bool,
)
    requires
        !blank(values.base_url) || !blank(values.api_key),
    ensures
        ({
            let after = overridden(config, values, switched);
            &&& !blank(values.provider_name) ==> after.model_provider.name == trimmed(
                values.provider_name->0,
            )
            &&& blank(values.provider_name) ==> after.model_provider.name
                == after.model_provider_id
        }),
{
    lemma_blank(values.base_url);
    lemma_blank(values.api_key);
    lemma_blank(values.provider_name);
}

/// Where an address or a key is given, the provider in use is spoken to in the
/// Chat Completions API just where the override reads `chat`, in any case and
/// with any white space around it, and in the Responses API otherwise, whatever
/// else is given.
pub proof fn law_provider_speaks_the_given_protocol(
    config: ConfigView,
    values: RuntimeOverrideValuesView,
    switched: bool,
)
    requires
        !blank(values.base_url) || !blank(values.api_key),
    ensures
        ({
            let provider = overridden(config, values, switched).model_provider;
            let reads_chat = values.wire_api is Some && ascii_lowercase(trimmed(values.wire_api->0))
                == "chat"@;
            &&& reads_chat ==> provider.wire_api == WireApi::Chat
            &&& !reads_chat ==> provider.wire_api == WireApi::Responses
        }),
{
    reveal_strlit("responses");
    reveal_strlit("chat");
    assert("responses"@.len() == 9 && "chat"@.len() == 4);
    lemma_blank(values.base_url);
    lemma_blank(values.api_key);
}

/// Where an address or a key is given, the provider in use sends the version of
/// this package and no other header, needs neither a login nor a section of the
/// host's, serves plain HTTP, and leaves everything else to the host's defaults.
pub proof fn law_custom_provider_has_no_other_settings(
    config: ConfigView,
    values: RuntimeOverrideValuesView,
    switched: bool,
)
    requires
        !blank(values.base_url) || !blank(values.api_key),
    ensures
        ({
            let provider = overridden(config, values, switched).model_provider;
            &&& provider.http_headers is Some
            &&& forall|name: Seq<char>| #[trigger]
                provider.http_headers->0.contains_key(name) <==> name == "version"@
            &&& provider.http_headers->0["version"@] == VERSION@
            &&& !provider.requires_openai_auth
            &&& !provider.supports_websockets
            &&& provider.auth is None
            &&& provider.aws is None
            &&& provider.env_key_instructions is None
            &&& provider.query_params is None
            &&& provider.env_http_headers is None
            &&& provider.request_max_retries is None
            &&& provider.stream_max_retries is None
            &&& provider.stream_idle_timeout_ms is None
            &&& provider.websocket_connect_timeout_ms is None
        }),
{
    lemma_blank(values.base_url);
    lemma_blank(values.api_key);
}

/// Where neither an address nor a key is given, every provider stays as it is,
/// the one in use among them.
pub proof fn law_blank_address_and_key_leave_the_providers(
    config: ConfigView,
    values: RuntimeOverrideValuesView,
    switched: bool,
)
    requires
        blank(values.base_url),
        blank(values.api_key),
    ensures
        ({
            let after = overridden(config, values, switched);
            &&& after.model_provider_id == config.model_provider_id
            &&& after.model_provider == config.model_provider
            &&& after.model_providers == config.model_providers
        }),
{
    lemma_blank(values.base_url);
    lemma_blank(values.api_key);
}

/// A context window is taken from the override where that is a positive integer
/// with any white space around it, and stays as it is where the override is
/// anything else. Without an override a configured one stays, and where there
/// is none an address or a key brings in a window of 200000.
pub proof fn law_context_window(
    config: ConfigView,
    values: RuntimeOverrideValuesView,
    switched: bool,
)
    ensures
        ({
            let text = values.model_context_window;
            let after = overridden(config, values, switched).model_context_window;
            let custom = !blank(values.base_url) || !blank(values.api_key);
            &&& forall|size: i64|
                size > 0 && text is Some && #[trigger] i64_value(trimmed(text->0)) == Some(size)
                    ==> after == Some(size)
            &&& text is Some && !(i64_value(trimmed(text->0)) is Some && i64_value(
                trimmed(text->0),
            )->0 > 0) ==> after == config.model_context_window
            &&& text is None && config.model_context_window is Some ==> after
                == config.model_context_window
            &&& text is None && config.model_context_window is None && custom ==> after == Some(
                200_000i64,
            )
            &&& text is None && config.model_context_window is None && !custom ==> after is None
        }),
{
    lemma_blank(values.base_url);
    lemma_blank(values.api_key);
}

/// What a size that is given is resolved to: a positive integer to itself, and
/// any other text to that text trimmed. Without one, the default is for custom
/// providers without a configured size.
pub proof fn law_context_window_resolution(
    text: Seq<char>,
    custom_provider_configured: bool,
    current: Option<i64>,
)
    ensures
        ({
            let given = context_window_resolution(Some(text), custom_provider_configured, current);
            let size = i64_value(trimmed(text));
            &&& size is Some && size->0 > 0 ==> given == ModelContextWindowResolutionView::Explicit(
                size->0,
            )
            &&& !(size is Some && size->0 > 0) ==> given
                == ModelContextWindowResolutionView::Invalid(trimmed(text))
        }),
        custom_provider_configured && current is None ==> context_window_resolution(
            None,
            custom_provider_configured,
            current,
        ) == ModelContextWindowResolutionView::Default(200_000i64),
        !custom_provider_configured || current is Some ==> context_window_resolution(
            None,
            custom_provider_configured,
            current,
        ) == ModelContextWindowResolutionView::Keep,
{
}

/// The words that mean yes.
pub open spec fn affirmative(word: Seq<char>) -> bool {
    word == "true"@ || word == "1"@ || word == "yes"@ || word == "on"@
}

/// The words that mean no.
pub open spec fn negative(word: Seq<char>) -> bool {
    word == "false"@ || word == "0"@ || word == "no"@ || word == "off"@
}

proof fn lemma_no_word_means_both(word: Seq<char>)
    ensures
        !(affirmative(word) && negative(word)),
{
    reveal_strlit("true");
    reveal_strlit("1");
    reveal_strlit("yes");
    reveal_strlit("on");
    reveal_strlit("false");
    reveal_strlit("0");
    reveal_strlit("no");
    reveal_strlit("off");
    assert("true"@.len() == 4 && "1"@.len() == 1 && "yes"@.len() == 3 && "on"@.len() == 2);
    assert("false"@.len() == 5 && "0"@.len() == 1 && "no"@.len() == 2 && "off"@.len() == 3);
    assert("1"@[0] == '1' && "0"@[0] == '0');
    assert("on"@[0] == 'o' && "no"@[0] == 'n');
    assert("yes"@[0] == 'y' && "off"@[0] == 'o');
}

/// A text is a truth value just where it is one of the eight words, in any case
/// and with any white space around it.
pub proof fn law_truth_values(text: Seq<char>)
    ensures
        bool_value(text) == Some(true) <==> affirmative(ascii_lowercase(trimmed(text))),
        bool_value(text) == Some(false) <==> negative(ascii_lowercase(trimmed(text))),
{
    lemma_no_word_means_both(ascii_lowercase(trimmed(text)));
}

/// A text names a protocol just where it is one of the two words, in any case
/// and with any white space around it.
pub proof fn law_protocol_names(text: Option<Seq<char>>)
    ensures
        wire_api_value(text) == Some(WireApi::Chat) <==> text is Some && ascii_lowercase(
            trimmed(text->0),
        ) == "chat"@,
        wire_api_value(text) == Some(WireApi::Responses) <==> text is Some && ascii_lowercase(
            trimmed(text->0),
        ) == "responses"@,
{
    reveal_strlit("responses");
    reveal_strlit("chat");
    assert("responses"@.len() == 9 && "chat"@.len() == 4);
}

/// What a text that is given for the personality feature is resolved to: a
/// truth value to itself, and any other text to that text trimmed. Without one,
/// the feature is off for custom providers and left alone for others.
pub proof fn law_personality_resolution(text: Seq<char>, custom_provider_configured: bool)
    ensures
        ({
            let given = personality_resolution(Some(text), custom_provider_configured);
            let word = ascii_lowercase(trimmed(text));
            &&& affirmative(word) ==> given == PersonalityResolutionView::Explicit(true)
            &&& negative(word) ==> given == PersonalityResolutionView::Explicit(false)
            &&& !affirmative(word) && !negative(word) ==> given
                == PersonalityResolutionView::Invalid(trimmed(text))
        }),
        personality_resolution(None, true)
            == PersonalityResolutionView::DefaultDisabledForCustomProvider,
        personality_resolution(None, false) == PersonalityResolutionView::Keep,
{
    law_truth_values(text);
}

/// The host is asked to turn the personality feature on just where the override
/// says yes, and off just where it says no, or says nothing while an address or
/// a key is given. It is asked nothing otherwise.
pub proof fn law_what_is_asked_of_the_host(values: RuntimeOverrideValuesView)
    ensures
        ({
            let text = values.personality_enabled;
            let word = ascii_lowercase(trimmed(text->0));
            let custom = !blank(values.base_url) || !blank(values.api_key);
            &&& requested_personality(values) == Some(true) <==> text is Some && affirmative(word)
            &&& requested_personality(values) == Some(false) <==> (text is Some && negative(word))
                || (text is None && custom)
        }),
{
    if let Some(text) = values.personality_enabled {
        law_truth_values(text);
    }
    lemma_blank(values.base_url);
    lemma_blank(values.api_key);
}

/// The personality is kept where the host did not make a switch that was asked
/// for. Where it did, an agent asked to have none has none, and an agent asked
/// to have one has the one it had, or the pragmatic one where it had none.
pub proof fn law_personality(
    config: ConfigView,
    values: RuntimeOverrideValuesView,
    switched: bool,
)
    ensures
        ({
            let text = values.personality_enabled;
            let word = ascii_lowercase(trimmed(text->0));
            let custom = !blank(values.base_url) || !blank(values.api_key);
            let on = text is Some && affirmative(word);
            let off = (text is Some && negative(word)) || (text is None && custom);
            let after = overridden(config, values, switched).personality;
            &&& !switched || !(on || off) ==> after == config.personality
            &&& switched && off ==> after is None
            &&& switched && on && config.personality is Some ==> after == config.personality
            &&& switched && on && config.personality is None ==> after == Some(
                Personality::Pragmatic,
            )
        }),
{
    law_what_is_asked_of_the_host(values);
}

/// A personality feature that is turned off leaves no personality. One that is
/// turned on leaves the personality there was, or the pragmatic one.
pub proof fn law_switched_personality(current: Option<Personality>)
    ensures
        switched_personality(current, false) is None,
        current is Some ==> switched_personality(current, true) == current,
        current is None ==> switched_personality(current, true) == Some(Personality::Pragmatic),
{
}

/// A protocol text is reported as ignored just where a custom provider would
/// have used it and it is neither of the two names. It is reported trimmed and
/// with its case folded.
pub proof fn law_ignored_protocol(values: RuntimeOverrideValuesView)
    ensures
        ({
            let word = ascii_lowercase(trimmed(values.wire_api->0));
            let custom = !blank(values.base_url) || !blank(values.api_key);
            let ignored = values.wire_api is Some && custom && word != "chat"@ && word
                != "responses"@;
            &&& ignored ==> ignored_wire_api_text(values) == Some(word)
            &&& !ignored ==> ignored_wire_api_text(values) is None
        }),
{
    law_protocol_names(values.wire_api);
    lemma_blank(values.base_url);
    lemma_blank(values.api_key);
}

/// A variable that is set to more than white space is read trimmed, and any
/// other is as good as unset.
pub proof fn law_environment_variable(vars: Map<Seq<char>, Seq<char>>, name: Seq<char>)
    ensures
        ({
            let value = if vars.contains_key(name) {
                Some(vars[name])
            } else {
                None
            };
            &&& !blank(value) ==> non_blank(env_var(vars, name)) == Some(trimmed(vars[name]))
            &&& blank(value) ==> non_blank(env_var(vars, name)) is None
        }),
{
    lemma_blank(env_var(vars, name));
}

/// `value` is what the variable `name` says: its text trimmed, or nothing where
/// it is unset or white space alone.
pub open spec fn comes_from(
    value: Option<Seq<char>>,
    vars: Map<Seq<char>, Seq<char>>,
    name: Seq<char>,
) -> bool {
    if vars.contains_key(name) && !blank(Some(vars[name])) {
        value == Some(trimmed(vars[name]))
    } else {
        value is None
    }
}

/// Each override comes from the variable of its name, and from that one alone.
pub proof fn law_each_override_has_its_variable(vars: Map<Seq<char>, Seq<char>>)
    ensures
        ({
            let values = values_from_env(vars);
            &&& comes_from(values.model, vars, "CODEX_MODEL"@)
            &&& comes_from(values.base_url, vars, "CODEX_BASE_URL"@)
            &&& comes_from(values.api_key, vars, "CODEX_API_KEY"@)
            &&& comes_from(values.provider_id, vars, "CODEX_PROVIDER_ID"@)
            &&& comes_from(values.provider_name, vars, "CODEX_PROVIDER_NAME"@)
            &&& comes_from(values.model_context_window, vars, "CODEX_MODEL_CONTEXT_WINDOW"@)
            &&& comes_from(values.personality_enabled, vars, "CODEX_PERSONALITY_ENABLED"@)
            &&& comes_from(values.wire_api, vars, "CODEX_WIRE_API"@)
        }),
{
    law_environment_variable(vars, "CODEX_MODEL"@);
    law_environment_variable(vars, "CODEX_BASE_URL"@);
    law_environment_variable(vars, "CODEX_API_KEY"@);
    law_environment_variable(vars, "CODEX_PROVIDER_ID"@);
    law_environment_variable(vars, "CODEX_PROVIDER_NAME"@);
    law_environment_variable(vars, "CODEX_MODEL_CONTEXT_WINDOW"@);
    law_environment_variable(vars, "CODEX_PERSONALITY_ENABLED"@);
    law_environment_variable(vars, "CODEX_WIRE_API"@);
}

/// Writing overrides out keeps every text as it is, and writes the size and the
/// truth value so that they read back as themselves. What is not given is not
/// written.
pub proof fn law_writing_out_keeps_the_values(overrides: CodexRuntimeOverridesView)
    ensures
        ({
            let values = written_out(overrides);
            let size = values.model_context_window;
            let word = values.personality_enabled;
            &&& values.model == overrides.model
            &&& values.base_url == overrides.base_url
            &&& values.api_key == overrides.api_key
            &&& values.provider_id == overrides.provider_id
            &&& values.provider_name == overrides.provider_name
            &&& values.wire_api == overrides.wire_api
            &&& size is Some <==> overrides.model_context_window is Some
            &&& size is Some ==> i64_value(size->0) == overrides.model_context_window
            &&& overrides.personality_enabled == Some(true) ==> word == Some("true"@)
            &&& overrides.personality_enabled == Some(false) ==> word == Some("false"@)
            &&& overrides.personality_enabled is None ==> word is None
        }),
{
    if let Some(size) = overrides.model_context_window {
        lemma_decimal_reads_back(size);
    }
}

/// Overrides of which nothing is given have no field that is set.
pub proof fn law_no_overrides_give_nothing()
    ensures
        no_values().model is None,
        no_values().base_url is None,
        no_values().api_key is None,
        no_values().provider_id is None,
        no_values().provider_name is None,
        no_values().model_context_window is None,
        no_values().personality_enabled is None,
        no_values().wire_api is None,
        no_overrides().model is None,
        no_overrides().base_url is None,
        no_overrides().api_key is None,
        no_overrides().provider_id is None,
        no_overrides().provider_name is None,
        no_overrides().model_context_window is None,
        no_overrides().personality_enabled is None,
        no_overrides().wire_api is None,
{
}

/// The overrides of the model, the context window and the personality feature
/// each reach what they are named after and nothing else: with another value
/// for one of them, the rest of the outcome is the same.
pub proof fn law_overrides_do_not_interfere(
    config: ConfigView,
    values: RuntimeOverrideValuesView,
    switched: bool,
    text: Option<Seq<char>>,
)
    ensures
        ({
            let after = overridden(config, values, switched);
            let model = overridden(
                config,
                RuntimeOverrideValuesView { model: text, ..values },
                switched,
            );
            let window = overridden(
                config,
                RuntimeOverrideValuesView { model_context_window: text, ..values },
                switched,
            );
            let personality = overridden(
                config,
                RuntimeOverrideValuesView { personality_enabled: text, ..values },
                switched,
            );
            &&& model == (ConfigView { model: model.model, ..after })
            &&& window == (ConfigView {
                model_context_window: window.model_context_window,
                ..after
            })
            &&& personality == (ConfigView { personality: personality.personality, ..after })
        }),
{
}

/// The overrides that describe a provider reach the providers alone: with other
/// values for the id, the name and the protocol, the model, the context window
/// and the personality are the same.
pub proof fn law_description_reaches_the_providers_alone(
    config: ConfigView,
    values: RuntimeOverrideValuesView,
    switched: bool,
    id: Option<Seq<char>>,
    name: Option<Seq<char>>,
    wire_api: Option<Seq<char>>,
)
    ensures
        ({
            let after = overridden(config, values, switched);
            let other = overridden(
                config,
                RuntimeOverrideValuesView {
                    provider_id: id,
                    provider_name: name,
                    wire_api,
                    ..values
                },
                switched,
            );
            &&& other.model == after.model
            &&& other.model_context_window == after.model_context_window
            &&& other.personality == after.personality
        }),
{
}

/// A directory brings in a log file, unless one was started before: then nothing
/// changes. Without a directory the log goes to standard error, whatever was
/// started before.
pub proof fn law_log_file_is_started_once(dir: String, file_log_started: bool)
    ensures
        log_target_for(None, file_log_started) == LogTarget::Stderr,
        dir@ == ""@ ==> log_target_for(Some(dir), file_log_started) == LogTarget::Stderr,
        dir@ != ""@ ==> log_target_for(Some(dir), false) == LogTarget::StderrAndFile(dir),
        dir@ != ""@ ==> log_target_for(Some(dir), true) == LogTarget::Unchanged,
{
    reveal_strlit("");
    assert(""@ =~= Seq::<char>::empty());
    if dir@.len() == 0 {
        assert(dir@ =~= ""@);
    }
}

/// A failure is reported by the kind and the words of the step on which it
/// happened.
pub proof fn law_failures_name_their_step()
    ensures
        failure_kind(Step::ParseOverrides) == FailureKind::InvalidInput,
        failure_kind(Step::LoadConfig) == FailureKind::InvalidData,
        failure_kind(Step::Serve) == FailureKind::Other,
        failure_prefix(Step::ParseOverrides) == "error parsing -c overrides: "@,
        failure_prefix(Step::LoadConfig) == "error loading config: "@,
        failure_prefix(Step::Serve) == "ACP error: "@,
{
}

/// Reports of different steps differ, whatever the reasons are.
pub proof fn law_reports_tell_steps_apart(a: Step, b: Step, detail_a: Seq<char>, detail_b: Seq<char>)
    requires
        a != b,
    ensures
        failure_kind(a) != failure_kind(b),
        failure_prefix(a) + detail_a != failure_prefix(b) + detail_b,
{
    reveal_strlit("error parsing -c overrides: ");
    reveal_strlit("error loading config: ");
    reveal_strlit("ACP error: ");
    let left = failure_prefix(a) + detail_a;
    let right = failure_prefix(b) + detail_b;
    assert(left[0] != right[0] || left[6] != right[6]);
}

} // verus!
