//! Configuration of the prompt-injection guard.
//!
//! The gateway stores the configuration as one raw value for each key. The
//! values are parsed as JSON, put together as one object, and read field by
//! field; a field that is missing or has the wrong form takes its default.

use crate::json::{
    assemble, assembled, collect_text_items, fields_of, member, text_items, JsonValue,
};
use crate::text::lookup;
use vstd::prelude::*;
use vstd::string::StringExecFns;

verus! {

/// The mathematical content of a [`PromptInjectionConfig`].
pub struct PromptInjectionConfigView {
    pub enabled_categories: Seq<Seq<char>>,
    pub score_threshold: u32,
    pub custom_patterns: Seq<(Seq<char>, u32)>,
    pub scan_tool_arguments: bool,
    pub scan_responses: bool,
    pub max_scan_length: usize,
}

/// The configuration of the guard: a snapshot that the caller loads before
/// every evaluation.
#[derive(Debug, Clone)]
pub struct PromptInjectionConfig {
    /// Which pattern categories are enabled.
    pub enabled_categories: Vec<String>,
    /// The total score from which on a text is denied.
    pub score_threshold: u32,
    /// Custom patterns, each with its weight.
    pub custom_patterns: Vec<(String, u32)>,
    /// Whether the arguments of tool invocations are scanned.
    pub scan_tool_arguments: bool,
    /// Whether server responses are scanned.
    pub scan_responses: bool,
    /// The number of bytes of a text that are scanned at most.
    pub max_scan_length: usize,
}

impl View for PromptInjectionConfig {
    type V = PromptInjectionConfigView;

    open spec fn view(&self) -> PromptInjectionConfigView {
        PromptInjectionConfigView {
            enabled_categories: self.enabled_categories.deep_view(),
            score_threshold: self.score_threshold,
            custom_patterns: self.custom_patterns.deep_view(),
            scan_tool_arguments: self.scan_tool_arguments,
            scan_responses: self.scan_responses,
            max_scan_length: self.max_scan_length,
        }
    }
}

/// The configuration used where none is given: all built-in categories,
/// threshold 5, no custom patterns, both scans on, 10000 bytes.
pub open spec fn default_injection_config() -> PromptInjectionConfigView {
    PromptInjectionConfigView {
        enabled_categories: seq![
            "prompt_override"@,
            "role_manipulation"@,
            "system_override"@,
            "safety_bypass"@,
            "hidden_instructions"@,
            "data_exfiltration"@,
            "encoding_tricks"@,
        ],
        score_threshold: 5,
        custom_patterns: Seq::empty(),
        scan_tool_arguments: true,
        scan_responses: true,
        max_scan_length: 10000,
    }
}

impl Default for PromptInjectionConfig {
    fn default() -> (config: Self)
        ensures
            config@ == default_injection_config(),
    {
        let config = PromptInjectionConfig {
            enabled_categories: vec![
                String::from_str("prompt_override"),
                String::from_str("role_manipulation"),
                String::from_str("system_override"),
                String::from_str("safety_bypass"),
                String::from_str("hidden_instructions"),
                String::from_str("data_exfiltration"),
                String::from_str("encoding_tricks"),
            ],
            score_threshold: 5,
            custom_patterns: Vec::new(),
            scan_tool_arguments: true,
            scan_responses: true,
            max_scan_length: 10000,
        };
        assert(config.enabled_categories.deep_view()
            =~= default_injection_config().enabled_categories);
        assert(config.custom_patterns.deep_view() =~= Seq::empty());
        config
    }
}

/// The weight of a custom pattern that names none.
pub const DEFAULT_CUSTOM_WEIGHT: u32 = 5;

/// The custom pattern that an item of the list stands for: its `pattern`,
/// which must be a string, with its `weight`, or with weight 5 where that
/// is missing or no integer from 0 up. An item without a pattern stands
/// for none.
pub open spec fn custom_item(item: JsonValue) -> Option<(Seq<char>, u32)> {
    match member(item, "pattern"@) {
        Some(JsonValue::Str(pattern)) => Some(
            (
                pattern@,
                match member(item, "weight"@) {
                    Some(JsonValue::Number(Some(weight))) => weight as u32,
                    _ => DEFAULT_CUSTOM_WEIGHT,
                },
            ),
        ),
        _ => None,
    }
}

/// The custom patterns that the items of a list stand for, in order.
pub open spec fn custom_items(items: Seq<JsonValue>) -> Seq<(Seq<char>, u32)>
    decreases items.len(),
{
    if items.len() == 0 {
        Seq::empty()
    } else {
        match custom_item(items.last()) {
            Some(pattern) => custom_items(items.drop_last()).push(pattern),
            None => custom_items(items.drop_last()),
        }
    }
}

/// The configuration that a set of fields stands for. Integers wider than
/// the field are cut to its width.
pub open spec fn config_of_fields(given: Seq<(Seq<char>, JsonValue)>) -> PromptInjectionConfigView {
    let fallback = default_injection_config();
    PromptInjectionConfigView {
        enabled_categories: match lookup(given, "enabled_categories"@) {
            Some(JsonValue::Array(items)) => text_items(items@),
            _ => fallback.enabled_categories,
        },
        score_threshold: match lookup(given, "score_threshold"@) {
            Some(JsonValue::Number(Some(threshold))) => threshold as u32,
            _ => fallback.score_threshold,
        },
        custom_patterns: match lookup(given, "custom_patterns"@) {
            Some(JsonValue::Array(items)) => custom_items(items@),
            _ => fallback.custom_patterns,
        },
        scan_tool_arguments: match lookup(given, "scan_tool_arguments"@) {
            Some(JsonValue::Bool(flag)) => flag,
            _ => fallback.scan_tool_arguments,
        },
        scan_responses: match lookup(given, "scan_responses"@) {
            Some(JsonValue::Bool(flag)) => flag,
            _ => fallback.scan_responses,
        },
        max_scan_length: match lookup(given, "max_scan_length"@) {
            Some(JsonValue::Number(Some(length))) => length as usize,
            _ => fallback.max_scan_length,
        },
    }
}

/// The configuration that a document stands for; a document that is no
/// object stands for the default configuration.
pub open spec fn parsed_config(value: JsonValue) -> PromptInjectionConfigView {
    config_of_fields(fields_of(value))
}

/// The configuration that the raw values of the gateway stand for.
pub open spec fn loaded_config(values: Seq<(Seq<char>, Seq<char>)>) -> PromptInjectionConfigView {
    config_of_fields(assembled(values))
}

/// Without any field the configuration is the default one.
pub proof fn lemma_empty_fields_give_default()
    ensures
        config_of_fields(Seq::empty()) == default_injection_config(),
{
}

/// The keys under which the gateway stores the configuration.
pub fn config_keys() -> (keys: Vec<String>)
    ensures
        keys.deep_view() == seq![
            "score_threshold"@,
            "scan_tool_arguments"@,
            "scan_responses"@,
            "enabled_categories"@,
            "max_scan_length"@,
            "custom_patterns"@,
        ],
{
    let keys = vec![
        String::from_str("score_threshold"),
        String::from_str("scan_tool_arguments"),
        String::from_str("scan_responses"),
        String::from_str("enabled_categories"),
        String::from_str("max_scan_length"),
        String::from_str("custom_patterns"),
    ];
    assert(keys.deep_view() =~= seq![
        "score_threshold"@,
        "scan_tool_arguments"@,
        "scan_responses"@,
        "enabled_categories"@,
        "max_scan_length"@,
        "custom_patterns"@,
    ]);
    keys
}

/// Reads the custom patterns from the items of a list.
fn parse_custom_patterns(items: &Vec<JsonValue>) -> (r: Vec<(String, u32)>)
    ensures
        r.deep_view() == custom_items(items@),
{
    let mut r: Vec<(String, u32)> = Vec::new();
    assert(r.deep_view() =~= custom_items(items@.take(0)));
    let mut i: usize = 0;
    while i < items.len()
        invariant
            i <= items.len(),
            r.deep_view() == custom_items(items@.take(i as int)),
        decreases items.len() - i,
    {
        let ghost before = r.deep_view();
        proof {
            assert(items@.take(i + 1).drop_last() == items@.take(i as int));
            assert(items@.take(i + 1).last() == items@[i as int]);
        }
        let item = &items[i];
        match item.get("pattern") {
            Some(JsonValue::Str(pattern)) => {
                let weight: u32 = match item.get("weight") {
                    Some(JsonValue::Number(Some(weight))) => {
                        #[verifier::truncate]
                        (*weight as u32)
                    },
                    _ => DEFAULT_CUSTOM_WEIGHT,
                };
                r.push((pattern.clone(), weight));
                assert(r.deep_view() =~= before.push((pattern@, weight)));
            },
            _ => {},
        }
        i += 1;
    }
    assert(items@.take(items.len() as int) == items@);
    r
}

/// Reads a configuration from a JSON document. Every field that is
/// missing or has the wrong form takes its default value.
pub fn parse_config(value: &JsonValue) -> (config: PromptInjectionConfig)
    ensures
        config@ == parsed_config(*value),
{
    let fallback = PromptInjectionConfig::default();
    let enabled_categories = match value.get("enabled_categories") {
        Some(JsonValue::Array(items)) => collect_text_items(items),
        _ => fallback.enabled_categories,
    };
    let score_threshold: u32 = match value.get("score_threshold") {
        Some(JsonValue::Number(Some(threshold))) => {
            #[verifier::truncate]
            (*threshold as u32)
        },
        _ => fallback.score_threshold,
    };
    let custom_patterns = match value.get("custom_patterns") {
        Some(JsonValue::Array(items)) => parse_custom_patterns(items),
        _ => fallback.custom_patterns,
    };
    let scan_tool_arguments = match value.get("scan_tool_arguments") {
        Some(JsonValue::Bool(flag)) => *flag,
        _ => fallback.scan_tool_arguments,
    };
    let scan_responses = match value.get("scan_responses") {
        Some(JsonValue::Bool(flag)) => *flag,
        _ => fallback.scan_responses,
    };
    let max_scan_length: usize = match value.get("max_scan_length") {
        Some(JsonValue::Number(Some(length))) => {
            #[verifier::truncate]
            (*length as usize)
        },
        _ => fallback.max_scan_length,
    };
    PromptInjectionConfig {
        enabled_categories,
        score_threshold,
        custom_patterns,
        scan_tool_arguments,
        scan_responses,
        max_scan_length,
    }
}

/// Puts a configuration together from the raw values that the gateway
/// holds, one for each key. A value that is empty or no JSON counts as
/// missing.
pub fn get_config(values: &[(String, String)]) -> (config: PromptInjectionConfig)
    ensures
        config@ == loaded_config(values.deep_view()),
{
    let members = assemble(values);
    parse_config(&JsonValue::Object(members))
}

} // verus!
