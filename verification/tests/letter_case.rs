use mcp_guards::gateway::{Decision, GuardContext, Tool};
use mcp_guards::injection::patterns::{match_custom_pattern, normalize_text};
use mcp_guards::injection::scoring::scan_text;
use mcp_guards::spoofing::config::{is_whitelisted, GuardConfig, WhitelistEntry};
use mcp_guards::spoofing::guard::{evaluate_server_connection, evaluate_tools_list};
use mcp_guards::spoofing::mimicry::{
    check_namespace_collision, check_tool_mimicry, register_tools, MatchType,
};
use mcp_guards::spoofing::state::{FingerprintMap, ToolRegistry};
use mcp_guards::spoofing::typosquat::detect_typosquat;

fn context(server: &str) -> GuardContext {
    GuardContext { server_name: server.to_string() }
}

fn tool(name: &str) -> Tool {
    Tool { name: name.to_string(), description: None, input_schema: "{}".to_string() }
}

fn entry(name: &str, tools: &[(&str, &str)]) -> WhitelistEntry {
    let mut tool_fingerprints = FingerprintMap::new();
    for (tool_name, fingerprint) in tools {
        tool_fingerprints.insert(tool_name.to_string(), fingerprint.to_string());
    }
    WhitelistEntry { name: name.to_string(), url_pattern: None, tool_fingerprints }
}

fn config(whitelist: Vec<WhitelistEntry>) -> GuardConfig {
    GuardConfig { whitelist, ..GuardConfig::default() }
}

#[test]
fn normalize_lowercases_letters_of_every_script() {
    assert_eq!(normalize_text("É"), "é");
    assert_eq!(normalize_text("ÄRGER_Über-ALLES"), "ärger über alles");
    assert_eq!(normalize_text("ПРИВЕТ : Мир"), "привет: мир");
    // A capital sigma at the end of a word becomes a final sigma.
    assert_eq!(normalize_text("ὈΔΥΣΣΕΎΣ"), "ὀδυσσεύς");
    // Lowercasing may add characters.
    assert_eq!(normalize_text("İ"), "i\u{307}");
    // The Kelvin sign becomes an ordinary k.
    assert_eq!(normalize_text("\u{212A}"), "k");
}

#[test]
fn normalize_twice_is_normalize_once_beyond_ascii() {
    for sample in ["É", "ÄRGER_Über-ALLES :  x", "ὈΔΥΣΣΕΎΣ", "İ__İ", "\u{212A}elvin : K", "ǅ ǈ"] {
        let once = normalize_text(sample);
        assert_eq!(normalize_text(&once), once, "normal form of {:?}", sample);
    }
}

#[test]
fn custom_patterns_ignore_letter_case_beyond_ascii() {
    assert_eq!(match_custom_pattern(&normalize_text("é"), "É"), Some("é".to_string()));
    assert_eq!(
        match_custom_pattern(&normalize_text("Streng GEHEIME Sache"), "Geheime SACHE"),
        Some("geheime sache".to_string())
    );
    // The evidence is the lowercase form of the pattern, which may be longer than the pattern.
    assert_eq!(match_custom_pattern("xi\u{307}y", "İ"), Some("i\u{307}".to_string()));
    let result = scan_text("Das ist STRENG GEHEIM", &[], &[("Streng Geheim".to_string(), 4)], 1000);
    assert_eq!(result.total_score, 4);
    assert_eq!(result.matches[0].matched_text, "streng geheim");
    let result = scan_text("ÉCOLE", &[], &[("école".to_string(), 2)], 1000);
    assert_eq!(result.total_score, 2);
}

#[test]
fn whitelist_ignores_letter_case_beyond_ascii() {
    let cfg = config(vec![entry("É", &[])]);
    assert!(is_whitelisted(&cfg, "é"));
    assert!(is_whitelisted(&cfg, "É"));
    assert!(!is_whitelisted(&cfg, "e"));
    assert!(matches!(evaluate_server_connection(&cfg, &context("é")), Decision::Allow));
    let cfg = config(vec![entry("Bücher-Dienst", &[])]);
    assert!(is_whitelisted(&cfg, "BÜCHER-DIENST"));
    assert!(matches!(evaluate_server_connection(&cfg, &context("bücher-dienst")), Decision::Allow));
}

#[test]
fn typosquat_ignores_letter_case_beyond_ascii() {
    let cfg = config(vec![entry("Bücher-Dienst-Tools", &[])]);
    // The same name in other letter case is no typosquat.
    assert_eq!(detect_typosquat(&cfg, "BÜCHER-DIENST-TOOLS"), None);
    // One substituted character is.
    assert_eq!(
        detect_typosquat(&cfg, "BÜCHER-DIENST-TO0LS"),
        Some("Bücher-Dienst-Tools".to_string())
    );
    match evaluate_server_connection(&cfg, &context("BÜCHER-DIENST-TO0LS")) {
        Decision::Deny(reason) => assert_eq!(reason.code, "typosquat_detected"),
        _ => panic!("expected a denial"),
    }
}

#[test]
fn mimicry_by_name_ignores_letter_case_beyond_ascii() {
    let cfg = config(vec![entry("trusted", &[("é", "0000000000000000")])]);
    let finding = check_tool_mimicry(&cfg, "evil", &[tool("É")]).unwrap();
    assert_eq!(finding.match_type, MatchType::NameCollision);
    assert_eq!(finding.tool_name, "É");
    assert_eq!(finding.mimics_tool, "é");
    assert_eq!(finding.mimics_server, "trusted");
    // The entry of the server itself is passed over, letter case aside.
    let own = config(vec![entry("Équipe", &[("outil", "0000000000000000")])]);
    assert!(check_tool_mimicry(&own, "équipe", &[tool("outil")]).is_none());
    assert!(check_tool_mimicry(&own, "equipe", &[tool("outil")]).is_some());
}

#[test]
fn own_registry_entry_is_skipped_beyond_ascii() {
    let mut registry = ToolRegistry::new();
    register_tools(&mut registry, "É", &[tool("x")]);
    assert!(check_namespace_collision(&registry, "é", &[tool("x")]).is_none());
    assert!(check_namespace_collision(&registry, "e", &[tool("x")]).is_some());
    let cfg = GuardConfig::default();
    let listed = [tool("x")];
    assert!(matches!(
        evaluate_tools_list(&cfg, &mut registry, &listed, &context("é")),
        Decision::Allow
    ));
    // The tools are registered, under the name as it was given this time.
    assert!(mcp_guards::spoofing::state::get_tool_registry(&registry, "é").is_some());
    assert!(mcp_guards::spoofing::state::get_tool_registry(&registry, "É").is_some());
    // Tool names are compared exactly.
    let mut registry = ToolRegistry::new();
    register_tools(&mut registry, "a", &[tool("é")]);
    assert!(check_namespace_collision(&registry, "b", &[tool("É")]).is_none());
    assert!(check_namespace_collision(&registry, "b", &[tool("é")]).is_some());
}
