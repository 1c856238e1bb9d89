use mcp_guards::injection::config as injection;
use mcp_guards::json::JsonValue;
use mcp_guards::spoofing::config::{config_keys, get_config, parse_config, GuardConfig};
use mcp_guards::spoofing::levenshtein::Ratio;
use mcp_guards::spoofing::state::{get_cached_config, set_cached_config, ConfigCache};

fn s(text: &str) -> JsonValue {
    JsonValue::Str(text.to_string())
}

fn object(members: Vec<(&str, JsonValue)>) -> JsonValue {
    JsonValue::Object(members.into_iter().map(|(k, v)| (k.to_string(), v)).collect())
}

fn raw(values: &[(&str, &str)]) -> Vec<(String, String)> {
    values.iter().map(|(k, v)| (k.to_string(), v.to_string())).collect()
}

fn as_float(ratio: Ratio) -> f64 {
    ratio.numerator as f64 / ratio.denominator as f64
}

#[test]
fn test_parse_empty_config() {
    let val = object(vec![]);
    let config = parse_config(&val, None);
    assert!(config.whitelist_enabled);
    assert!(config.block_unknown_servers);
    assert!(config.whitelist.is_empty());
}

#[test]
fn test_parse_full_config() {
    let val = object(vec![
        ("whitelist_enabled", JsonValue::Bool(false)),
        (
            "whitelist",
            JsonValue::Array(vec![object(vec![
                ("name", s("test-server")),
                ("url_pattern", s("https://test\\.example\\.com/.*")),
                ("tool_fingerprints", object(vec![("my-tool", s("abc123"))])),
            ])]),
        ),
        ("block_unknown_servers", JsonValue::Bool(false)),
        ("typosquat_detection_enabled", JsonValue::Bool(false)),
        ("typosquat_similarity_threshold", JsonValue::Number(None)),
        ("tool_mimicry_detection_enabled", JsonValue::Bool(false)),
    ]);
    let config = parse_config(&val, Some(Ratio { numerator: 9, denominator: 10 }));
    assert!(!config.whitelist_enabled);
    assert!(!config.block_unknown_servers);
    assert!(!config.typosquat_detection_enabled);
    assert!((as_float(config.typosquat_similarity_threshold) - 0.9).abs() < f64::EPSILON);
    assert!(!config.tool_mimicry_detection_enabled);
    assert_eq!(config.whitelist.len(), 1);
    assert_eq!(config.whitelist[0].name, "test-server");
    assert_eq!(
        config.whitelist[0].url_pattern.as_deref(),
        Some("https://test\\.example\\.com/.*")
    );
    assert_eq!(
        config.whitelist[0].tool_fingerprints.get("my-tool"),
        Some(&"abc123".to_string())
    );
}

#[test]
fn test_parse_whitelist_missing_name() {
    let val = object(vec![(
        "whitelist",
        JsonValue::Array(vec![object(vec![("url_pattern", s("https://test.com"))])]),
    )]);
    let config = parse_config(&val, None);
    assert!(config.whitelist.is_empty());
}

#[test]
fn spoofing_config_fields_of_the_wrong_form_take_defaults() {
    let val = object(vec![
        ("whitelist_enabled", s("false")),
        ("block_unknown_servers", JsonValue::Number(Some(0))),
        ("typosquat_detection_enabled", JsonValue::Null),
        ("tool_mimicry_detection_enabled", JsonValue::Array(vec![])),
        ("whitelist", object(vec![])),
    ]);
    let config = parse_config(&val, None);
    let defaults = GuardConfig::default();
    assert_eq!(config.whitelist_enabled, defaults.whitelist_enabled);
    assert_eq!(config.block_unknown_servers, defaults.block_unknown_servers);
    assert_eq!(config.typosquat_detection_enabled, defaults.typosquat_detection_enabled);
    assert_eq!(config.tool_mimicry_detection_enabled, defaults.tool_mimicry_detection_enabled);
    assert_eq!(config.typosquat_similarity_threshold, Ratio { numerator: 85, denominator: 100 });
    assert!(config.whitelist.is_empty());
    // A document that is no object gives the defaults as well.
    let config = parse_config(&JsonValue::Array(vec![]), None);
    assert!(config.whitelist_enabled && config.whitelist.is_empty());
}

#[test]
fn whitelist_entries_keep_what_has_the_right_form() {
    let val = object(vec![(
        "whitelist",
        JsonValue::Array(vec![
            object(vec![("name", s("first"))]),
            s("not an object"),
            object(vec![("name", JsonValue::Number(Some(3)))]),
            object(vec![
                ("name", s("second")),
                ("url_pattern", JsonValue::Bool(true)),
                (
                    "tool_fingerprints",
                    object(vec![
                        ("a", s("1")),
                        ("b", JsonValue::Number(Some(2))),
                        ("c", s("3")),
                    ]),
                ),
            ]),
            object(vec![("name", s("third")), ("tool_fingerprints", s("none"))]),
        ]),
    )]);
    let config = parse_config(&val, None);
    let names: Vec<&str> = config.whitelist.iter().map(|e| e.name.as_str()).collect();
    assert_eq!(names, vec!["first", "second", "third"]);
    assert_eq!(config.whitelist[0].url_pattern, None);
    assert!(config.whitelist[0].tool_fingerprints.entries().is_empty());
    assert_eq!(config.whitelist[1].url_pattern, None);
    assert_eq!(
        config.whitelist[1].tool_fingerprints.entries(),
        &vec![("a".to_string(), "1".to_string()), ("c".to_string(), "3".to_string())]
    );
    assert!(config.whitelist[2].tool_fingerprints.entries().is_empty());
}

#[test]
fn spoofing_config_from_raw_values() {
    let keys = config_keys();
    assert_eq!(
        keys,
        vec![
            "whitelist_enabled",
            "whitelist",
            "block_unknown_servers",
            "typosquat_detection_enabled",
            "typosquat_similarity_threshold",
            "tool_mimicry_detection_enabled"
        ]
    );
    let values = raw(&[
        ("whitelist_enabled", "true"),
        ("whitelist", "[{\"name\": \"finance-tools\", \"tool_fingerprints\": {\"t\": \"00ff\"}}]"),
        ("block_unknown_servers", "false"),
        ("typosquat_detection_enabled", ""),
        ("typosquat_similarity_threshold", "0.9"),
        ("tool_mimicry_detection_enabled", "not json"),
    ]);
    let config = get_config(&values, Some(Ratio { numerator: 9, denominator: 10 }));
    assert!(config.whitelist_enabled);
    assert!(!config.block_unknown_servers);
    assert!(config.typosquat_detection_enabled);
    assert!(config.tool_mimicry_detection_enabled);
    assert_eq!(config.typosquat_similarity_threshold, Ratio { numerator: 9, denominator: 10 });
    assert_eq!(config.whitelist.len(), 1);
    assert_eq!(config.whitelist[0].name, "finance-tools");
    assert_eq!(config.whitelist[0].tool_fingerprints.get("t"), Some(&"00ff".to_string()));
    // Nothing stored: the default configuration.
    let empty = get_config(&raw(&[("whitelist_enabled", ""), ("whitelist", "")]), None);
    assert!(empty.whitelist_enabled && empty.block_unknown_servers && empty.whitelist.is_empty());
    assert_eq!(empty.typosquat_similarity_threshold, Ratio { numerator: 85, denominator: 100 });
}

#[test]
fn injection_config_parse() {
    let val = object(vec![
        ("enabled_categories", JsonValue::Array(vec![s("prompt_override"), JsonValue::Null, s("x")])),
        ("score_threshold", JsonValue::Number(Some(12))),
        (
            "custom_patterns",
            JsonValue::Array(vec![
                object(vec![("pattern", s("secret")), ("weight", JsonValue::Number(Some(3)))]),
                object(vec![("pattern", s("no weight"))]),
                object(vec![("weight", JsonValue::Number(Some(9)))]),
                object(vec![("pattern", s("odd weight")), ("weight", s("7"))]),
                object(vec![("pattern", JsonValue::Number(Some(1)))]),
                s("not an object"),
                object(vec![("pattern", s("negative")), ("weight", JsonValue::Number(None))]),
            ]),
        ),
        ("scan_tool_arguments", JsonValue::Bool(false)),
        ("scan_responses", s("yes")),
        ("max_scan_length", JsonValue::Number(Some(500))),
    ]);
    let config = injection::parse_config(&val);
    assert_eq!(config.enabled_categories, vec!["prompt_override", "x"]);
    assert_eq!(config.score_threshold, 12);
    assert_eq!(
        config.custom_patterns,
        vec![
            ("secret".to_string(), 3),
            ("no weight".to_string(), 5),
            ("odd weight".to_string(), 5),
            ("negative".to_string(), 5),
        ]
    );
    assert!(!config.scan_tool_arguments);
    assert!(config.scan_responses);
    assert_eq!(config.max_scan_length, 500);
}

#[test]
fn injection_config_defaults_and_truncation() {
    let defaults = injection::PromptInjectionConfig::default();
    let config = injection::parse_config(&object(vec![]));
    assert_eq!(config.enabled_categories, defaults.enabled_categories);
    assert_eq!(config.score_threshold, 5);
    assert!(config.custom_patterns.is_empty());
    assert!(config.scan_tool_arguments && config.scan_responses);
    assert_eq!(config.max_scan_length, 10000);
    let config = injection::parse_config(&JsonValue::Null);
    assert_eq!(config.enabled_categories.len(), 7);
    // Integers wider than 32 bits are cut to the low 32 bits.
    let wide = object(vec![
        ("score_threshold", JsonValue::Number(Some((1u64 << 32) + 7))),
        (
            "custom_patterns",
            JsonValue::Array(vec![object(vec![
                ("pattern", s("p")),
                ("weight", JsonValue::Number(Some(u64::MAX))),
            ])]),
        ),
        ("enabled_categories", JsonValue::Array(vec![])),
    ]);
    let config = injection::parse_config(&wide);
    assert_eq!(config.score_threshold, 7);
    assert_eq!(config.custom_patterns, vec![("p".to_string(), u32::MAX)]);
    assert!(config.enabled_categories.is_empty());
}

#[test]
fn injection_config_from_raw_values() {
    assert_eq!(
        injection::config_keys(),
        vec![
            "score_threshold",
            "scan_tool_arguments",
            "scan_responses",
            "enabled_categories",
            "max_scan_length",
            "custom_patterns"
        ]
    );
    let values = raw(&[
        ("score_threshold", "9"),
        ("scan_tool_arguments", "false"),
        ("scan_responses", ""),
        ("enabled_categories", "[\"system_override\", 3]"),
        ("max_scan_length", "-5"),
        ("custom_patterns", "[{\"pattern\": \"Secret\", \"weight\": 2.5}, {\"pattern\": \"x\", \"weight\": 4}]"),
    ]);
    let config = injection::get_config(&values);
    assert_eq!(config.score_threshold, 9);
    assert!(!config.scan_tool_arguments);
    assert!(config.scan_responses);
    assert_eq!(config.enabled_categories, vec!["system_override"]);
    assert_eq!(config.max_scan_length, 10000);
    assert_eq!(config.custom_patterns, vec![("Secret".to_string(), 5), ("x".to_string(), 4)]);
    let nothing = injection::get_config(&raw(&[("score_threshold", ""), ("custom_patterns", "{")]));
    assert_eq!(nothing.score_threshold, 5);
    assert_eq!(nothing.enabled_categories.len(), 7);
}

#[test]
fn config_cache_holds_the_last_document() {
    let mut cache = ConfigCache::new();
    assert!(get_cached_config(&cache).is_none());
    set_cached_config(&mut cache, object(vec![("whitelist_enabled", JsonValue::Bool(false))]));
    let config = parse_config(get_cached_config(&cache).unwrap(), None);
    assert!(!config.whitelist_enabled);
    set_cached_config(&mut cache, JsonValue::Null);
    assert!(matches!(get_cached_config(&cache), Some(JsonValue::Null)));
    cache.invalidate();
    assert!(get_cached_config(&cache).is_none());
}

#[test]
fn a_later_raw_value_replaces_an_earlier_one() {
    let values = raw(&[
        ("score_threshold", "9"),
        ("scan_responses", "false"),
        ("score_threshold", "12"),
        ("scan_responses", "not json"),
        ("score_threshold", ""),
    ]);
    let config = injection::get_config(&values);
    assert_eq!(config.score_threshold, 12);
    assert!(!config.scan_responses);
    let values = raw(&[("whitelist_enabled", "false"), ("whitelist_enabled", "true")]);
    assert!(get_config(&values, None).whitelist_enabled);
}
