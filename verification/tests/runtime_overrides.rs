use nuwax_codex_acp::config::{Config, ModelProviderInfo, Personality, WireApi};
use nuwax_codex_acp::runtime_overrides::{
    apply_env_overrides, apply_runtime_override_values, apply_runtime_overrides,
    custom_provider_configured, ignored_wire_api, non_empty_env_var, parse_bool_override, parse_wire_api,
    personality_switch, read_runtime_overrides_from_env, resolve_model_context_window_override,
    resolve_personality_override, set_personality_enabled, ModelContextWindowResolution,
    PersonalityResolution, RuntimeOverrideValues, DEFAULT_CUSTOM_MODEL_CONTEXT_WINDOW,
    ENV_CODEX_API_KEY,
};
use nuwax_codex_acp::table::Table;
use nuwax_codex_acp::{CodexRuntimeOverrides, VERSION};

fn builtin_provider() -> ModelProviderInfo {
    ModelProviderInfo {
        name: "OpenAI".to_string(),
        base_url: None,
        env_key: None,
        env_key_instructions: None,
        experimental_bearer_token: None,
        auth: None,
        aws: None,
        wire_api: WireApi::Responses,
        query_params: None,
        http_headers: None,
        env_http_headers: None,
        request_max_retries: Some(4),
        stream_max_retries: None,
        stream_idle_timeout_ms: None,
        websocket_connect_timeout_ms: None,
        requires_openai_auth: true,
        supports_websockets: true,
    }
}

fn base_test_config() -> Config {
    let mut model_providers = Table::new();
    model_providers.insert("openai".to_string(), builtin_provider());
    Config {
        model: None,
        model_context_window: None,
        model_provider_id: "openai".to_string(),
        model_provider: builtin_provider(),
        model_providers,
        personality: None,
    }
}

fn text(value: &str) -> Option<String> {
    Some(value.to_string())
}

fn environment(vars: &[(&str, &str)]) -> Table<String> {
    let mut table = Table::new();
    for (name, value) in vars {
        table.insert(name.to_string(), value.to_string());
    }
    table
}

fn switch_of(overrides: &CodexRuntimeOverrides) -> Option<bool> {
    personality_switch(&RuntimeOverrideValues::from(overrides.clone()))
}

/// Everything of a configuration that can be compared, written out.
fn summary(config: &Config) -> String {
    let mut providers: Vec<String> = config
        .model_providers
        .entries()
        .iter()
        .map(|entry| format!("{:?}", entry))
        .collect();
    providers.sort();
    format!(
        "{:?} {:?} {:?} {:?} {:?} {:?}",
        config.model,
        config.model_context_window,
        config.model_provider_id,
        config.model_provider,
        providers,
        config.personality
    )
}

#[test]
fn model_context_window_uses_explicit_env_value() {
    assert_eq!(
        resolve_model_context_window_override(Some("200000"), true, None),
        ModelContextWindowResolution::Explicit(200_000)
    );
}

#[test]
fn model_context_window_defaults_for_custom_provider_when_unset() {
    assert_eq!(
        resolve_model_context_window_override(None, true, None),
        ModelContextWindowResolution::Default(DEFAULT_CUSTOM_MODEL_CONTEXT_WINDOW)
    );
    assert_eq!(DEFAULT_CUSTOM_MODEL_CONTEXT_WINDOW, 200_000);
}

#[test]
fn model_context_window_keeps_existing_config_when_env_unset() {
    assert_eq!(
        resolve_model_context_window_override(None, true, Some(128_000)),
        ModelContextWindowResolution::Keep
    );
}

#[test]
fn model_context_window_invalid_values_do_not_override() {
    assert_eq!(
        resolve_model_context_window_override(Some("abc"), true, Some(128_000)),
        ModelContextWindowResolution::Invalid("abc".to_string())
    );
    assert_eq!(
        resolve_model_context_window_override(Some("0"), true, None),
        ModelContextWindowResolution::Invalid("0".to_string())
    );
    assert_eq!(
        resolve_model_context_window_override(Some("-1"), true, None),
        ModelContextWindowResolution::Invalid("-1".to_string())
    );
}

#[test]
fn model_context_window_is_not_defaulted_for_builtin_provider() {
    assert_eq!(
        resolve_model_context_window_override(None, false, None),
        ModelContextWindowResolution::Keep
    );
}

#[test]
fn personality_override_parses_common_bool_values() {
    assert_eq!(
        resolve_personality_override(Some("true"), true),
        PersonalityResolution::Explicit(true)
    );
    assert_eq!(
        resolve_personality_override(Some("1"), true),
        PersonalityResolution::Explicit(true)
    );
    assert_eq!(
        resolve_personality_override(Some("yes"), true),
        PersonalityResolution::Explicit(true)
    );
    assert_eq!(
        resolve_personality_override(Some("on"), true),
        PersonalityResolution::Explicit(true)
    );
    assert_eq!(
        resolve_personality_override(Some("false"), true),
        PersonalityResolution::Explicit(false)
    );
    assert_eq!(
        resolve_personality_override(Some("0"), true),
        PersonalityResolution::Explicit(false)
    );
    assert_eq!(
        resolve_personality_override(Some("no"), true),
        PersonalityResolution::Explicit(false)
    );
    assert_eq!(
        resolve_personality_override(Some("off"), true),
        PersonalityResolution::Explicit(false)
    );
}

#[test]
fn personality_defaults_to_disabled_for_custom_provider() {
    assert_eq!(
        resolve_personality_override(None, true),
        PersonalityResolution::DefaultDisabledForCustomProvider
    );
}

#[test]
fn personality_keeps_builtin_provider_default() {
    assert_eq!(
        resolve_personality_override(None, false),
        PersonalityResolution::Keep
    );
}

#[test]
fn personality_invalid_values_do_not_override() {
    assert_eq!(
        resolve_personality_override(Some("maybe"), true),
        PersonalityResolution::Invalid("maybe".to_string())
    );
}

#[test]
fn runtime_overrides_configure_custom_provider_without_env_key() {
    let overrides = CodexRuntimeOverrides {
        model: text("glm-5"),
        base_url: text("http://127.0.0.1:12345/v1"),
        api_key: text("real-key"),
        provider_id: text("glm"),
        provider_name: text("GLM"),
        model_context_window: Some(200_000),
        personality_enabled: None,
        ..CodexRuntimeOverrides::default()
    };
    assert_eq!(switch_of(&overrides), Some(false));
    let config = apply_runtime_overrides(base_test_config(), overrides, true);

    assert_eq!(config.model.as_deref(), Some("glm-5"));
    assert_eq!(config.model_provider_id, "glm");
    assert_eq!(config.model_provider.name, "GLM");
    assert_eq!(
        config.model_provider.base_url.as_deref(),
        Some("http://127.0.0.1:12345/v1")
    );
    assert_eq!(config.model_provider.env_key, None);
    assert_eq!(
        config.model_provider.experimental_bearer_token.as_deref(),
        Some("real-key")
    );
    assert_eq!(config.model_context_window, Some(200_000));
    assert!(config.model_providers.contains_key("glm"));
    assert_eq!(config.personality, None);
}

#[test]
fn runtime_overrides_without_api_key_keep_env_key_fallback() {
    let overrides = CodexRuntimeOverrides {
        base_url: text("http://127.0.0.1:12345/v1"),
        provider_id: text("glm"),
        ..CodexRuntimeOverrides::default()
    };
    assert_eq!(switch_of(&overrides), Some(false));
    let config = apply_runtime_overrides(base_test_config(), overrides, true);

    assert_eq!(
        config.model_provider.env_key.as_deref(),
        Some(ENV_CODEX_API_KEY)
    );
    assert_eq!(ENV_CODEX_API_KEY, "CODEX_API_KEY");
    assert_eq!(config.model_provider.experimental_bearer_token, None);
    assert_eq!(config.personality, None);
}

#[test]
fn runtime_overrides_keep_personality_default_for_builtin_provider() {
    for personality in [None, Some(Personality::Pragmatic), Some(Personality::Other(3))] {
        let mut base_config = base_test_config();
        base_config.personality = personality;
        let overrides = CodexRuntimeOverrides::default();
        assert_eq!(switch_of(&overrides), None);
        let config = apply_runtime_overrides(base_config, overrides, true);
        assert_eq!(config.personality, personality);
    }
}

#[test]
fn runtime_overrides_can_enable_personality_for_custom_provider() {
    let overrides = CodexRuntimeOverrides {
        base_url: text("http://127.0.0.1:12345/v1"),
        api_key: text("real-key"),
        provider_id: text("glm"),
        personality_enabled: Some(true),
        ..CodexRuntimeOverrides::default()
    };
    assert_eq!(switch_of(&overrides), Some(true));
    let config = apply_runtime_overrides(base_test_config(), overrides, true);
    assert_eq!(config.personality, Some(Personality::Pragmatic));
}

#[test]
fn runtime_overrides_can_disable_personality_for_builtin_provider() {
    let overrides = CodexRuntimeOverrides {
        personality_enabled: Some(false),
        ..CodexRuntimeOverrides::default()
    };
    assert_eq!(switch_of(&overrides), Some(false));
    let mut base_config = base_test_config();
    base_config.personality = Some(Personality::Pragmatic);
    let config = apply_runtime_overrides(base_config, overrides, true);
    assert_eq!(config.personality, None);
}

#[test]
fn runtime_overrides_ignore_invalid_personality_value() {
    let overrides = RuntimeOverrideValues {
        personality_enabled: text("maybe"),
        ..RuntimeOverrideValues::default()
    };
    assert_eq!(personality_switch(&overrides), None);
    let mut base_config = base_test_config();
    base_config.personality = Some(Personality::Other(3));
    let config = apply_runtime_override_values(base_config, overrides, true);
    assert_eq!(config.personality, Some(Personality::Other(3)));
}

#[test]
fn wire_api_parses_chat() {
    assert_eq!(parse_wire_api(Some("chat")), Some(WireApi::Chat));
}

#[test]
fn wire_api_parses_responses() {
    assert_eq!(parse_wire_api(Some("responses")), Some(WireApi::Responses));
}

#[test]
fn wire_api_defaults_to_none_when_unset() {
    assert_eq!(parse_wire_api(None), None);
}

#[test]
fn wire_api_ignores_invalid_values() {
    assert_eq!(parse_wire_api(Some("invalid")), None);
    assert_eq!(parse_wire_api(Some("")), None);
    assert_eq!(parse_wire_api(Some("CHATGPT")), None);
}

#[test]
fn runtime_overrides_sets_wire_api_to_chat() {
    let config = apply_runtime_overrides(
        base_test_config(),
        CodexRuntimeOverrides {
            base_url: text("http://127.0.0.1:12345/v1"),
            api_key: text("real-key"),
            provider_id: text("glm"),
            wire_api: text("chat"),
            ..CodexRuntimeOverrides::default()
        },
        true,
    );
    assert_eq!(config.model_provider.wire_api, WireApi::Chat);
}

#[test]
fn runtime_overrides_defaults_wire_api_to_responses() {
    let config = apply_runtime_overrides(
        base_test_config(),
        CodexRuntimeOverrides {
            base_url: text("http://127.0.0.1:12345/v1"),
            api_key: text("real-key"),
            provider_id: text("glm"),
            ..CodexRuntimeOverrides::default()
        },
        true,
    );
    assert_eq!(config.model_provider.wire_api, WireApi::Responses);
}

#[test]
fn white_space_is_trimmed() {
    let spaces = [
        '\u{9}', '\u{a}', '\u{b}', '\u{c}', '\u{d}', '\u{20}', '\u{85}', '\u{a0}', '\u{1680}',
        '\u{2000}', '\u{2001}', '\u{2002}', '\u{2003}', '\u{2004}', '\u{2005}', '\u{2006}',
        '\u{2007}', '\u{2008}', '\u{2009}', '\u{200a}', '\u{2028}', '\u{2029}', '\u{202f}',
        '\u{205f}', '\u{3000}',
    ];
    for space in spaces {
        let raw = format!("{space}{space}4 2{space}");
        assert_eq!(
            resolve_model_context_window_override(Some(&raw), false, None),
            ModelContextWindowResolution::Invalid("4 2".to_string())
        );
        let raw = format!("{space}42{space}{space}");
        assert_eq!(
            resolve_model_context_window_override(Some(&raw), false, None),
            ModelContextWindowResolution::Explicit(42)
        );
    }
    let listed = (0..=0x10ffffu32)
        .filter_map(char::from_u32)
        .filter(|c| c.to_string().trim().is_empty())
        .collect::<Vec<char>>();
    assert_eq!(listed, spaces.to_vec());
}

#[test]
fn other_characters_are_not_trimmed() {
    for c in ['\u{1f}', '\u{200b}', '\u{180e}', '\u{feff}', '_'] {
        let raw = format!("{c}42");
        assert_eq!(
            resolve_model_context_window_override(Some(&raw), false, None),
            ModelContextWindowResolution::Invalid(raw.clone())
        );
    }
}

#[test]
fn context_windows_are_read_as_integers() {
    for (raw, size) in [
        ("+5", 5),
        ("007", 7),
        ("9223372036854775807", i64::MAX),
        ("  64000\n", 64_000),
    ] {
        assert_eq!(
            resolve_model_context_window_override(Some(raw), false, Some(1)),
            ModelContextWindowResolution::Explicit(size)
        );
    }
    for raw in [
        "",
        "+",
        "-",
        "--1",
        "+-1",
        "1+",
        "1 000",
        "1_000",
        "1.5",
        "0x10",
        "-0",
        "\u{ff11}",
        "9223372036854775808",
        "-9223372036854775808",
        "-9223372036854775809",
    ] {
        assert_eq!(
            resolve_model_context_window_override(Some(raw), true, None),
            ModelContextWindowResolution::Invalid(raw.to_string())
        );
    }
}

#[test]
fn truth_values_are_read_in_any_case() {
    assert_eq!(parse_bool_override(" TrUe\t"), Some(true));
    assert_eq!(parse_bool_override("YES"), Some(true));
    assert_eq!(parse_bool_override("oN"), Some(true));
    assert_eq!(parse_bool_override("\nOFF"), Some(false));
    assert_eq!(parse_bool_override("No"), Some(false));
    assert_eq!(parse_bool_override("FALSE"), Some(false));
    assert_eq!(parse_bool_override(""), None);
    assert_eq!(parse_bool_override("truee"), None);
    assert_eq!(parse_bool_override("t r u e"), None);
    assert_eq!(parse_bool_override("10"), None);
    assert_eq!(parse_bool_override("\u{ff2f}\u{ff2e}"), None);
}

#[test]
fn invalid_personality_text_is_trimmed_but_not_folded() {
    assert_eq!(
        resolve_personality_override(Some("  Maybe "), false),
        PersonalityResolution::Invalid("Maybe".to_string())
    );
}

#[test]
fn protocols_are_read_in_any_case() {
    assert_eq!(parse_wire_api(Some("  Chat ")), Some(WireApi::Chat));
    assert_eq!(parse_wire_api(Some("RESPONSES\n")), Some(WireApi::Responses));
    assert_eq!(WireApi::default(), WireApi::Responses);
}

#[test]
fn ignored_protocols_are_reported_for_custom_providers() {
    let values = |api_key: Option<String>, wire_api: Option<String>| RuntimeOverrideValues {
        api_key,
        wire_api,
        ..RuntimeOverrideValues::default()
    };
    assert_eq!(
        ignored_wire_api(&values(text("k"), text(" ChatGPT\n"))).as_deref(),
        Some("chatgpt")
    );
    assert_eq!(ignored_wire_api(&values(text("k"), text(" "))).as_deref(), Some(""));
    assert_eq!(ignored_wire_api(&values(text("k"), text(" CHAT "))), None);
    assert_eq!(ignored_wire_api(&values(text("k"), None)), None);
    assert_eq!(ignored_wire_api(&values(text(" "), text("ChatGPT"))), None);
}

#[test]
fn overrides_are_written_out() {
    let values = RuntimeOverrideValues::from(CodexRuntimeOverrides {
        model: text(" m "),
        base_url: text("b"),
        api_key: text("k"),
        provider_id: text("i"),
        provider_name: text("n"),
        model_context_window: Some(-1200),
        personality_enabled: Some(true),
        wire_api: text("w"),
    });
    assert_eq!(values.model.as_deref(), Some(" m "));
    assert_eq!(values.base_url.as_deref(), Some("b"));
    assert_eq!(values.api_key.as_deref(), Some("k"));
    assert_eq!(values.provider_id.as_deref(), Some("i"));
    assert_eq!(values.provider_name.as_deref(), Some("n"));
    assert_eq!(values.model_context_window.as_deref(), Some("-1200"));
    assert_eq!(values.personality_enabled.as_deref(), Some("true"));
    assert_eq!(values.wire_api.as_deref(), Some("w"));
    for (size, written) in [
        (0, "0"),
        (7, "7"),
        (10, "10"),
        (200_000, "200000"),
        (i64::MAX, "9223372036854775807"),
        (i64::MIN, "-9223372036854775808"),
    ] {
        let values = RuntimeOverrideValues::from(CodexRuntimeOverrides {
            model_context_window: Some(size),
            personality_enabled: Some(false),
            ..CodexRuntimeOverrides::default()
        });
        assert_eq!(values.model_context_window.as_deref(), Some(written));
        assert_eq!(values.personality_enabled.as_deref(), Some("false"));
    }
}

#[test]
fn environment_variables_are_trimmed_and_blank_ones_unset() {
    let vars = environment(&[
        ("CODEX_MODEL", "  glm-5\n"),
        ("CODEX_BASE_URL", " \t "),
        ("CODEX_API_KEY_FILE", "k"),
    ]);
    assert_eq!(non_empty_env_var(&vars, "CODEX_MODEL").as_deref(), Some("glm-5"));
    assert_eq!(non_empty_env_var(&vars, "CODEX_BASE_URL"), None);
    assert_eq!(non_empty_env_var(&vars, "CODEX_API_KEY"), None);
}

#[test]
fn each_override_has_its_own_variable() {
    let vars = environment(&[
        ("CODEX_MODEL", "a"),
        ("CODEX_BASE_URL", "b"),
        ("CODEX_API_KEY", "c"),
        ("CODEX_PROVIDER_ID", "d"),
        ("CODEX_PROVIDER_NAME", "e"),
        ("CODEX_MODEL_CONTEXT_WINDOW", "f"),
        ("CODEX_PERSONALITY_ENABLED", "g"),
        ("CODEX_WIRE_API", "h"),
    ]);
    let values = read_runtime_overrides_from_env(&vars);
    assert_eq!(values.model.as_deref(), Some("a"));
    assert_eq!(values.base_url.as_deref(), Some("b"));
    assert_eq!(values.api_key.as_deref(), Some("c"));
    assert_eq!(values.provider_id.as_deref(), Some("d"));
    assert_eq!(values.provider_name.as_deref(), Some("e"));
    assert_eq!(values.model_context_window.as_deref(), Some("f"));
    assert_eq!(values.personality_enabled.as_deref(), Some("g"));
    assert_eq!(values.wire_api.as_deref(), Some("h"));
}

#[test]
fn custom_provider_is_described_in_full() {
    let config = apply_runtime_override_values(
        base_test_config(),
        RuntimeOverrideValues {
            api_key: text(" key "),
            ..RuntimeOverrideValues::default()
        },
        true,
    );
    assert_eq!(config.model, None);
    assert_eq!(config.model_provider_id, "openai");
    let provider = &config.model_provider;
    assert_eq!(provider.name, "openai");
    assert_eq!(provider.base_url, None);
    assert_eq!(provider.env_key, None);
    assert_eq!(provider.env_key_instructions, None);
    assert_eq!(provider.experimental_bearer_token.as_deref(), Some("key"));
    assert_eq!(provider.auth, None);
    assert_eq!(provider.aws, None);
    assert_eq!(provider.wire_api, WireApi::Responses);
    assert!(provider.query_params.is_none());
    let headers = provider.http_headers.as_ref().unwrap();
    assert_eq!(headers.entries().len(), 1);
    assert_eq!(headers.get("version").map(|v| v.as_str()), Some(VERSION));
    assert!(provider.env_http_headers.is_none());
    assert_eq!(provider.request_max_retries, None);
    assert_eq!(provider.stream_max_retries, None);
    assert_eq!(provider.stream_idle_timeout_ms, None);
    assert_eq!(provider.websocket_connect_timeout_ms, None);
    assert!(!provider.requires_openai_auth);
    assert!(!provider.supports_websockets);
    assert_eq!(config.model_context_window, Some(200_000));
}

#[test]
fn provider_in_use_is_registered_beside_the_others() {
    let config = apply_runtime_override_values(
        base_test_config(),
        RuntimeOverrideValues {
            base_url: text("http://127.0.0.1/v1"),
            provider_id: text(" glm "),
            ..RuntimeOverrideValues::default()
        },
        true,
    );
    assert_eq!(config.model_provider_id, "glm");
    assert_eq!(config.model_provider.name, "glm");
    assert_eq!(config.model_providers.entries().len(), 2);
    assert_eq!(
        format!("{:?}", config.model_providers.get("glm").unwrap()),
        format!("{:?}", config.model_provider)
    );
    assert_eq!(config.model_providers.get("openai").unwrap().name, "OpenAI");
    assert!(config.model_providers.get("other").is_none());
}

#[test]
fn providers_stay_without_address_and_key() {
    let values = RuntimeOverrideValues {
        model: text("glm-5"),
        base_url: text("  "),
        api_key: text(""),
        provider_id: text("glm"),
        provider_name: text("GLM"),
        wire_api: text("chat"),
        ..RuntimeOverrideValues::default()
    };
    assert!(!custom_provider_configured(&values));
    let config = apply_runtime_override_values(base_test_config(), values, true);
    assert_eq!(config.model.as_deref(), Some("glm-5"));
    assert_eq!(config.model_provider_id, "openai");
    assert_eq!(config.model_provider.name, "OpenAI");
    assert_eq!(config.model_provider.request_max_retries, Some(4));
    assert!(!config.model_providers.contains_key("glm"));
    assert_eq!(config.model_context_window, None);
}

#[test]
fn refused_switch_leaves_the_personality() {
    for personality in [None, Some(Personality::Pragmatic), Some(Personality::Other(3))] {
        for enabled in [false, true] {
            let mut config = base_test_config();
            config.personality = personality;
            set_personality_enabled(&mut config, enabled, false);
            assert_eq!(config.personality, personality);
        }
    }
}

#[test]
fn switched_on_personality_is_kept_or_pragmatic() {
    let mut config = base_test_config();
    set_personality_enabled(&mut config, true, true);
    assert_eq!(config.personality, Some(Personality::Pragmatic));
    config.personality = Some(Personality::Other(3));
    set_personality_enabled(&mut config, true, true);
    assert_eq!(config.personality, Some(Personality::Other(3)));
    set_personality_enabled(&mut config, false, true);
    assert_eq!(config.personality, None);
}

#[test]
fn invalid_context_window_leaves_the_configured_one() {
    for current in [None, Some(128_000)] {
        let mut config = base_test_config();
        config.model_context_window = current;
        let config = apply_runtime_overrides(
            config,
            CodexRuntimeOverrides {
                api_key: text("k"),
                model_context_window: Some(-5),
                ..CodexRuntimeOverrides::default()
            },
            true,
        );
        assert_eq!(config.model_context_window, current);
    }
}

#[test]
fn configured_context_window_beats_the_default() {
    let mut config = base_test_config();
    config.model_context_window = Some(128_000);
    let config = apply_runtime_overrides(
        config,
        CodexRuntimeOverrides {
            api_key: text("k"),
            ..CodexRuntimeOverrides::default()
        },
        true,
    );
    assert_eq!(config.model_context_window, Some(128_000));
}

#[test]
fn environment_and_embedding_agree() {
    let overrides = CodexRuntimeOverrides {
        model: text(" glm-5"),
        base_url: text("http://127.0.0.1/v1 "),
        api_key: text("   "),
        provider_id: None,
        provider_name: text("GLM"),
        model_context_window: Some(64_000),
        personality_enabled: Some(true),
        wire_api: text("Chat"),
    };
    let vars = environment(&[
        ("HOME", "/root"),
        ("CODEX_MODEL", "glm-5"),
        ("CODEX_BASE_URL", "http://127.0.0.1/v1 "),
        ("CODEX_PROVIDER_ID", " "),
        ("CODEX_PROVIDER_NAME", "GLM\n"),
        ("CODEX_MODEL_CONTEXT_WINDOW", " +064000 "),
        ("CODEX_PERSONALITY_ENABLED", "On"),
        ("CODEX_WIRE_API", " Chat"),
    ]);
    assert_eq!(
        personality_switch(&read_runtime_overrides_from_env(&vars)),
        switch_of(&overrides)
    );
    let embedded = apply_runtime_overrides(base_test_config(), overrides, true);
    let from_env = apply_env_overrides(base_test_config(), &vars, true);
    assert_eq!(summary(&embedded), summary(&from_env));
    assert_eq!(from_env.model.as_deref(), Some("glm-5"));
    assert_eq!(from_env.model_context_window, Some(64_000));
    assert_eq!(from_env.model_provider.wire_api, WireApi::Chat);
    assert_eq!(from_env.personality, Some(Personality::Pragmatic));
}

#[test]
fn environment_and_embedding_agree_on_a_refused_size() {
    let vars = environment(&[
        ("CODEX_API_KEY", "k"),
        ("CODEX_MODEL_CONTEXT_WINDOW", "-07"),
    ]);
    let overrides = CodexRuntimeOverrides {
        api_key: text("k"),
        model_context_window: Some(-7),
        ..CodexRuntimeOverrides::default()
    };
    let embedded = apply_runtime_overrides(base_test_config(), overrides, true);
    let from_env = apply_env_overrides(base_test_config(), &vars, true);
    assert_eq!(summary(&embedded), summary(&from_env));
    assert_eq!(from_env.model_context_window, None);
}

#[test]
fn applying_twice_is_applying_once() {
    let values = RuntimeOverrideValues {
        model: text("m"),
        base_url: text("u"),
        personality_enabled: text("yes"),
        ..RuntimeOverrideValues::default()
    };
    let once = apply_runtime_override_values(base_test_config(), values.clone(), true);
    let written = summary(&once);
    let twice = apply_runtime_override_values(once, values, true);
    assert_eq!(summary(&twice), written);
}

#[test]
fn no_overrides_change_nothing() {
    for switched in [false, true] {
        let vars = environment(&[("PATH", "/bin"), ("CODEX_API_KEY", " "), ("CODEX_HOME", "h")]);
        assert_eq!(personality_switch(&read_runtime_overrides_from_env(&vars)), None);
        let config = apply_env_overrides(base_test_config(), &vars, switched);
        assert_eq!(summary(&config), summary(&base_test_config()));
        let config =
            apply_runtime_overrides(base_test_config(), CodexRuntimeOverrides::default(), switched);
        assert_eq!(summary(&config), summary(&base_test_config()));
    }
}

#[test]
fn white_space_and_blanks_do_not_matter() {
    let spaced = RuntimeOverrideValues {
        model: text(" m\t"),
        base_url: text("\n u"),
        api_key: text(" "),
        provider_id: text("\t"),
        provider_name: text(" n "),
        model_context_window: text(" 12 "),
        personality_enabled: text(" on "),
        wire_api: text(" chat "),
    };
    let plain = RuntimeOverrideValues {
        model: text("m"),
        base_url: text("u"),
        api_key: None,
        provider_id: None,
        provider_name: text("n"),
        model_context_window: text("12"),
        personality_enabled: text("on"),
        wire_api: text("chat"),
    };
    assert_eq!(personality_switch(&spaced), personality_switch(&plain));
    assert_eq!(
        summary(&apply_runtime_override_values(base_test_config(), spaced, true)),
        summary(&apply_runtime_override_values(base_test_config(), plain, true))
    );
}
