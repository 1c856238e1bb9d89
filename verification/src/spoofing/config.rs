//! Configuration of the server-spoofing guard.
//!
//! The gateway stores the configuration as one raw value for each key. The
//! values are parsed as JSON, put together as one object, and read field by
//! field; a field that is missing or has the wrong form takes its default.
//! The similarity threshold is a fraction, which a JSON number of this
//! crate cannot hold: the caller decodes it and hands it in.

use crate::json::{assemble, assembled, fields, fields_of, member, JsonValue};
use crate::spoofing::levenshtein::{Fraction, Ratio};
use crate::spoofing::state::FingerprintMap;
use crate::text::{chars_eq, inserted, lookup, lowercase_chars, lowercased};
use vstd::prelude::*;
use vstd::string::StringExecFns;

verus! {

/// The mathematical content of a [`WhitelistEntry`].
pub struct WhitelistEntryView {
    pub name: Seq<char>,
    pub url_pattern: Option<Seq<char>>,
    pub tool_fingerprints: Seq<(Seq<char>, Seq<char>)>,
}

/// A trusted server: its name, an optional pattern for its address, and
/// the fingerprints expected of its tools.
#[derive(Debug, Clone)]
pub struct WhitelistEntry {
    pub name: String,
    pub url_pattern: Option<String>,
    pub tool_fingerprints: FingerprintMap,
}

impl View for WhitelistEntry {
    type V = WhitelistEntryView;

    open spec fn view(&self) -> WhitelistEntryView {
        WhitelistEntryView {
            name: self.name@,
            url_pattern: self.url_pattern.deep_view(),
            tool_fingerprints: self.tool_fingerprints.deep_view(),
        }
    }
}

impl DeepView for WhitelistEntry {
    type V = WhitelistEntryView;

    open spec fn deep_view(&self) -> WhitelistEntryView {
        self.view()
    }
}

/// The mathematical content of a [`GuardConfig`].
pub struct GuardConfigView {
    pub whitelist_enabled: bool,
    pub whitelist: Seq<WhitelistEntryView>,
    pub block_unknown_servers: bool,
    pub typosquat_detection_enabled: bool,
    pub typosquat_similarity_threshold: Fraction,
    pub tool_mimicry_detection_enabled: bool,
}

impl GuardConfigView {
    /// What a configuration is meant to satisfy: no two whitelist entries
    /// have the same name, letter case aside, and the threshold lies
    /// between zero and one. The guard decides on every configuration;
    /// on one that is not well formed the first entry of a name counts.
    pub open spec fn wf(self) -> bool {
        &&& self.typosquat_similarity_threshold.is_proper()
        &&& forall|i: int, j: int|
            0 <= i < j < self.whitelist.len() ==> lowercased((#[trigger] self.whitelist[i]).name)
                != lowercased((#[trigger] self.whitelist[j]).name)
    }
}

/// The configuration of the guard. The similarity threshold is a fraction
/// between zero and one.
#[derive(Debug, Clone)]
pub struct GuardConfig {
    pub whitelist_enabled: bool,
    pub whitelist: Vec<WhitelistEntry>,
    pub block_unknown_servers: bool,
    pub typosquat_detection_enabled: bool,
    pub typosquat_similarity_threshold: Ratio,
    pub tool_mimicry_detection_enabled: bool,
}

impl View for GuardConfig {
    type V = GuardConfigView;

    open spec fn view(&self) -> GuardConfigView {
        GuardConfigView {
            whitelist_enabled: self.whitelist_enabled,
            whitelist: self.whitelist.deep_view(),
            block_unknown_servers: self.block_unknown_servers,
            typosquat_detection_enabled: self.typosquat_detection_enabled,
            typosquat_similarity_threshold: self.typosquat_similarity_threshold@,
            tool_mimicry_detection_enabled: self.tool_mimicry_detection_enabled,
        }
    }
}

/// The configuration used where none is given: every check on, nothing
/// whitelisted, threshold 0.85.
pub open spec fn default_guard_config() -> GuardConfigView {
    GuardConfigView {
        whitelist_enabled: true,
        whitelist: Seq::empty(),
        block_unknown_servers: true,
        typosquat_detection_enabled: true,
        typosquat_similarity_threshold: Fraction { numerator: 85, denominator: 100 },
        tool_mimicry_detection_enabled: true,
    }
}

impl Default for GuardConfig {
    fn default() -> (config: Self)
        ensures
            config@ == default_guard_config(),
            config@.wf(),
    {
        let config = GuardConfig {
            whitelist_enabled: true,
            whitelist: Vec::new(),
            block_unknown_servers: true,
            typosquat_detection_enabled: true,
            typosquat_similarity_threshold: Ratio { numerator: 85, denominator: 100 },
            tool_mimicry_detection_enabled: true,
        };
        assert(config.whitelist.deep_view() =~= Seq::empty());
        config
    }
}

/// Some entry of the whitelist has the given name, letter case aside.
pub open spec fn whitelisted(whitelist: Seq<WhitelistEntryView>, server_name: Seq<char>) -> bool {
    exists|i: int|
        0 <= i < whitelist.len() && lowercased((#[trigger] whitelist[i]).name) == lowercased(
            server_name,
        )
}

/// The whitelist entries of a configuration.
pub fn get_whitelist(config: &GuardConfig) -> (whitelist: &Vec<WhitelistEntry>)
    ensures
        *whitelist == config.whitelist,
{
    &config.whitelist
}

/// The typosquat similarity threshold of a configuration.
pub fn get_threshold(config: &GuardConfig) -> (threshold: Ratio)
    ensures
        threshold == config.typosquat_similarity_threshold,
{
    config.typosquat_similarity_threshold
}

/// Checks whether a server name is in the whitelist, ignoring letter case.
pub fn is_whitelisted(config: &GuardConfig, server_name: &str) -> (r: bool)
    ensures
        r == whitelisted(config@.whitelist, server_name@),
{
    let ghost whitelist = config@.whitelist;
    let server_lower = lowercase_chars(server_name);
    let mut i: usize = 0;
    while i < config.whitelist.len()
        invariant
            i <= config.whitelist.len(),
            whitelist == config.whitelist.deep_view(),
            server_lower@ == lowercased(server_name@),
            forall|j: int|
                0 <= j < i ==> lowercased((#[trigger] whitelist[j]).name) != lowercased(
                    server_name@,
                ),
        decreases config.whitelist.len() - i,
    {
        assert(whitelist[i as int] == config.whitelist@[i as int]@);
        let entry_lower = lowercase_chars(config.whitelist[i].name.as_str());
        if chars_eq(&entry_lower, &server_lower) {
            return true;
        }
        i += 1;
    }
    false
}

/// The fingerprints that the members of an object stand for: every member
/// whose value is a string, under its key.
pub open spec fn fingerprint_items(given: Seq<(Seq<char>, JsonValue)>) -> Seq<
    (Seq<char>, Seq<char>),
>
    decreases given.len(),
{
    if given.len() == 0 {
        Seq::empty()
    } else {
        match given.last().1 {
            JsonValue::Str(fingerprint) => inserted(
                fingerprint_items(given.drop_last()),
                given.last().0,
                fingerprint@,
            ),
            _ => fingerprint_items(given.drop_last()),
        }
    }
}

/// The whitelist entry that an item of the list stands for: its `name`,
/// which must be a string, its `url_pattern` if that is a string, and the
/// fingerprints of its `tool_fingerprints` if that is an object. An item
/// without a name stands for none.
pub open spec fn whitelist_item(item: JsonValue) -> Option<WhitelistEntryView> {
    match member(item, "name"@) {
        Some(JsonValue::Str(name)) => Some(
            WhitelistEntryView {
                name: name@,
                url_pattern: match member(item, "url_pattern"@) {
                    Some(JsonValue::Str(pattern)) => Some(pattern@),
                    _ => None,
                },
                tool_fingerprints: match member(item, "tool_fingerprints"@) {
                    Some(JsonValue::Object(members)) => fingerprint_items(fields(members@)),
                    _ => Seq::empty(),
                },
            },
        ),
        _ => None,
    }
}

/// The whitelist entries that the items of a list stand for, in order.
pub open spec fn whitelist_items(items: Seq<JsonValue>) -> Seq<WhitelistEntryView>
    decreases items.len(),
{
    if items.len() == 0 {
        Seq::empty()
    } else {
        match whitelist_item(items.last()) {
            Some(entry) => whitelist_items(items.drop_last()).push(entry),
            None => whitelist_items(items.drop_last()),
        }
    }
}

/// The value of a field that must be a truth value, with its default.
pub open spec fn flag_field(
    given: Seq<(Seq<char>, JsonValue)>,
    key: Seq<char>,
    fallback: bool,
) -> bool {
    match lookup(given, key) {
        Some(JsonValue::Bool(flag)) => flag,
        _ => fallback,
    }
}

/// The configuration that a set of fields and a decoded threshold stand
/// for.
pub open spec fn config_of_fields(
    given: Seq<(Seq<char>, JsonValue)>,
    threshold: Option<Fraction>,
) -> GuardConfigView {
    let fallback = default_guard_config();
    GuardConfigView {
        whitelist_enabled: flag_field(given, "whitelist_enabled"@, fallback.whitelist_enabled),
        whitelist: match lookup(given, "whitelist"@) {
            Some(JsonValue::Array(items)) => whitelist_items(items@),
            _ => fallback.whitelist,
        },
        block_unknown_servers: flag_field(
            given,
            "block_unknown_servers"@,
            fallback.block_unknown_servers,
        ),
        typosquat_detection_enabled: flag_field(
            given,
            "typosquat_detection_enabled"@,
            fallback.typosquat_detection_enabled,
        ),
        typosquat_similarity_threshold: match threshold {
            Some(fraction) => fraction,
            None => fallback.typosquat_similarity_threshold,
        },
        tool_mimicry_detection_enabled: flag_field(
            given,
            "tool_mimicry_detection_enabled"@,
            fallback.tool_mimicry_detection_enabled,
        ),
    }
}

/// The configuration that a document and a decoded threshold stand for.
pub open spec fn parsed_config(value: JsonValue, threshold: Option<Fraction>) -> GuardConfigView {
    config_of_fields(fields_of(value), threshold)
}

/// The configuration that the raw values of the gateway and a decoded
/// threshold stand for.
pub open spec fn loaded_config(
    values: Seq<(Seq<char>, Seq<char>)>,
    threshold: Option<Fraction>,
) -> GuardConfigView {
    config_of_fields(assembled(values), threshold)
}

/// Without any field and without a threshold the configuration is the
/// default one.
pub proof fn lemma_empty_fields_give_default()
    ensures
        config_of_fields(Seq::empty(), None) == default_guard_config(),
{
}

/// The keys under which the gateway stores the configuration.
pub fn config_keys() -> (keys: Vec<String>)
    ensures
        keys.deep_view() == seq![
            "whitelist_enabled"@,
            "whitelist"@,
            "block_unknown_servers"@,
            "typosquat_detection_enabled"@,
            "typosquat_similarity_threshold"@,
            "tool_mimicry_detection_enabled"@,
        ],
{
    let keys = vec![
        String::from_str("whitelist_enabled"),
        String::from_str("whitelist"),
        String::from_str("block_unknown_servers"),
        String::from_str("typosquat_detection_enabled"),
        String::from_str("typosquat_similarity_threshold"),
        String::from_str("tool_mimicry_detection_enabled"),
    ];
    assert(keys.deep_view() =~= seq![
        "whitelist_enabled"@,
        "whitelist"@,
        "block_unknown_servers"@,
        "typosquat_detection_enabled"@,
        "typosquat_similarity_threshold"@,
        "tool_mimicry_detection_enabled"@,
    ]);
    keys
}

/// Reads a field that must be a truth value.
fn parse_flag(value: &JsonValue, key: &str, fallback: bool) -> (flag: bool)
    ensures
        flag == flag_field(fields_of(*value), key@, fallback),
{
    match value.get(key) {
        Some(JsonValue::Bool(flag)) => *flag,
        _ => fallback,
    }
}

/// Reads the fingerprints from the members of an object.
fn parse_fingerprints(members: &Vec<(String, JsonValue)>) -> (map: FingerprintMap)
    ensures
        map.deep_view() == fingerprint_items(fields(members@)),
{
    let ghost given = fields(members@);
    let mut map = FingerprintMap::new();
    assert(map.deep_view() =~= fingerprint_items(given.take(0)));
    let mut i: usize = 0;
    while i < members.len()
        invariant
            i <= members.len(),
            given == fields(members@),
            map.deep_view() == fingerprint_items(given.take(i as int)),
        decreases members.len() - i,
    {
        proof {
            assert(given.take(i + 1).drop_last() == given.take(i as int));
            assert(given.take(i + 1).last() == (members@[i as int].0@, members@[i as int].1));
        }
        match &members[i].1 {
            JsonValue::Str(fingerprint) => {
                map.insert(members[i].0.clone(), fingerprint.clone());
            },
            _ => {},
        }
        i += 1;
    }
    assert(given.take(given.len() as int) == given);
    map
}

/// Reads one whitelist entry.
fn parse_whitelist_entry(item: &JsonValue) -> (r: Option<WhitelistEntry>)
    ensures
        r.deep_view() == whitelist_item(*item),
{
    match item.get("name") {
        Some(JsonValue::Str(name)) => {
            let url_pattern = match item.get("url_pattern") {
                Some(JsonValue::Str(pattern)) => Some(pattern.clone()),
                _ => None,
            };
            let tool_fingerprints = match item.get("tool_fingerprints") {
                Some(JsonValue::Object(members)) => parse_fingerprints(members),
                _ => {
                    let empty = FingerprintMap::new();
                    assert(empty.deep_view() =~= Seq::empty());
                    empty
                },
            };
            Some(WhitelistEntry { name: name.clone(), url_pattern, tool_fingerprints })
        },
        _ => None,
    }
}

/// Reads the whitelist from the items of a list; items without a name are
/// dropped.
fn parse_whitelist(items: &Vec<JsonValue>) -> (r: Vec<WhitelistEntry>)
    ensures
        r.deep_view() == whitelist_items(items@),
{
    let mut r: Vec<WhitelistEntry> = Vec::new();
    assert(r.deep_view() =~= whitelist_items(items@.take(0)));
    let mut i: usize = 0;
    while i < items.len()
        invariant
            i <= items.len(),
            r.deep_view() == whitelist_items(items@.take(i as int)),
        decreases items.len() - i,
    {
        let ghost before = r.deep_view();
        proof {
            assert(items@.take(i + 1).drop_last() == items@.take(i as int));
            assert(items@.take(i + 1).last() == items@[i as int]);
        }
        match parse_whitelist_entry(&items[i]) {
            Some(entry) => {
                r.push(entry);
                assert(r.deep_view() =~= before.push(entry@));
            },
            None => {},
        }
        i += 1;
    }
    assert(items@.take(items.len() as int) == items@);
    r
}

/// Reads a configuration from a JSON document and a decoded threshold.
/// Every field that is missing or has the wrong form takes its default
/// value; whitelist entries without a name are dropped.
pub fn parse_config(value: &JsonValue, threshold: Option<Ratio>) -> (config: GuardConfig)
    ensures
        config@ == parsed_config(*value, threshold.deep_view()),
{
    let whitelist = match value.get("whitelist") {
        Some(JsonValue::Array(items)) => parse_whitelist(items),
        _ => {
            let empty: Vec<WhitelistEntry> = Vec::new();
            assert(empty.deep_view() =~= Seq::empty());
            empty
        },
    };
    GuardConfig {
        whitelist_enabled: parse_flag(value, "whitelist_enabled", true),
        whitelist,
        block_unknown_servers: parse_flag(value, "block_unknown_servers", true),
        typosquat_detection_enabled: parse_flag(value, "typosquat_detection_enabled", true),
        typosquat_similarity_threshold: match threshold {
            Some(ratio) => ratio,
            None => Ratio { numerator: 85, denominator: 100 },
        },
        tool_mimicry_detection_enabled: parse_flag(value, "tool_mimicry_detection_enabled", true),
    }
}

/// Puts a configuration together from the raw values that the gateway
/// holds, one for each key, and the decoded threshold. A value that is
/// empty or no JSON counts as missing.
pub fn get_config(values: &[(String, String)], threshold: Option<Ratio>) -> (config: GuardConfig)
    ensures
        config@ == loaded_config(values.deep_view(), threshold.deep_view()),
{
    let members = assemble(values);
    parse_config(&JsonValue::Object(members), threshold)
}

} // verus!
