//! Decisions of the server-spoofing guard.
//!
//! A connecting server is checked against the whitelist; a list of tools
//! is checked for imitation of trusted tools and for names that another
//! server already uses, and is registered if it passes.

use crate::gateway::{
    Decision, DecisionView, DenyDetails, DenyDetailsView, DenyReason, DenyReasonView, GuardContext,
    Tool, ToolView,
};
use crate::spoofing::config::{is_whitelisted, whitelisted, GuardConfig, GuardConfigView};
use crate::spoofing::fingerprint::tool_fingerprint;
use crate::spoofing::mimicry::{
    check_namespace_collision, check_tool_mimicry, fingerprints_of,
    lemma_colliding_server_exists, lemma_fingerprint_match_is_found,
    lemma_fingerprints_hold_names, lemma_mimicry_finding_exists,
    lemma_namespace_collision_exists, lemma_tool_finding_exists, mimicry_finding,
    namespace_collision, register_tools, registered,
};
use crate::spoofing::state::{RegistryView, ToolRegistry};
use crate::spoofing::typosquat::{detect_typosquat, typosquat_target};
use crate::text::{append_str, from_chars, inserted, lemma_inserted_holds, lowercased};
use vstd::prelude::*;
use vstd::string::StringExecFns;

verus! {

/// The message for a server whose name imitates a whitelisted name.
pub open spec fn typosquat_message(server_name: Seq<char>, approved: Seq<char>) -> Seq<char> {
    "Server '"@ + server_name + "' appears to be typosquatting approved server '"@ + approved
        + "'"@
}

/// The message for an unknown server that is blocked.
pub open spec fn not_whitelisted_message(server_name: Seq<char>) -> Seq<char> {
    "Server '"@ + server_name + "' is not in the approved server registry"@
}

/// The warning for an unknown server that is let through.
pub open spec fn unknown_server_warning(server_name: Seq<char>) -> Seq<char> {
    "Server '"@ + server_name + "' is not in whitelist"@
}

/// The message for a server with tools that imitate trusted tools.
pub open spec fn mimicry_message(server_name: Seq<char>) -> Seq<char> {
    "Server '"@ + server_name + "' contains tools that mimic trusted server tools"@
}

/// The message for a server with tool names that other servers use.
pub open spec fn collision_message(server_name: Seq<char>) -> Seq<char> {
    "Server '"@ + server_name + "' has tools that collide with other servers"@
}

/// The decision on a connecting server.
///
/// With the whitelist off every server passes. A whitelisted server
/// passes. A typosquat of a whitelisted name is denied if that check is
/// on. Any other server is denied if unknown servers are blocked, and
/// passes with a warning if not.
pub open spec fn connection_decision(
    config: GuardConfigView,
    server_name: Seq<char>,
) -> DecisionView {
    if !config.whitelist_enabled || whitelisted(config.whitelist, server_name) {
        DecisionView::Allow
    } else if config.typosquat_detection_enabled && typosquat_target(
        config.whitelist,
        server_name,
        config.typosquat_similarity_threshold,
    ) is Some {
        let approved = typosquat_target(
            config.whitelist,
            server_name,
            config.typosquat_similarity_threshold,
        )->0;
        DecisionView::Deny(
            DenyReasonView {
                code: "typosquat_detected"@,
                message: typosquat_message(server_name, approved),
                details: Some(
                    DenyDetailsView::Typosquat { detected_name: server_name, similar_to: approved },
                ),
            },
        )
    } else if config.block_unknown_servers {
        DecisionView::Deny(
            DenyReasonView {
                code: "server_not_whitelisted"@,
                message: not_whitelisted_message(server_name),
                details: Some(DenyDetailsView::ServerNotWhitelisted { server_name }),
            },
        )
    } else {
        DecisionView::Warn(seq![unknown_server_warning(server_name)])
    }
}

/// The decision on a list of tools.
///
/// Imitation of a trusted tool denies if that check is on; else a tool
/// name that another registered server uses denies, whatever the
/// configuration; else the list passes.
pub open spec fn tools_list_decision(
    config: GuardConfigView,
    registry: RegistryView,
    server_name: Seq<char>,
    tools: Seq<ToolView>,
) -> DecisionView {
    if config.tool_mimicry_detection_enabled && mimicry_finding(
        server_name,
        tools,
        config.whitelist,
        0,
    ) is Some {
        DecisionView::Deny(
            DenyReasonView {
                code: "tool_mimicry_detected"@,
                message: mimicry_message(server_name),
                details: Some(
                    DenyDetailsView::ToolMimicry {
                        server_name,
                        finding: mimicry_finding(server_name, tools, config.whitelist, 0)->0,
                    },
                ),
            },
        )
    } else if namespace_collision(registry, server_name, tools, 0) is Some {
        DecisionView::Deny(
            DenyReasonView {
                code: "tool_namespace_collision"@,
                message: collision_message(server_name),
                details: Some(
                    DenyDetailsView::NamespaceCollision {
                        finding: namespace_collision(registry, server_name, tools, 0)->0,
                    },
                ),
            },
        )
    } else {
        DecisionView::Allow
    }
}

/// The registry after a list of tools has been evaluated: the tools are
/// registered if the list passes, and nothing changes if it is denied.
pub open spec fn registry_after(
    config: GuardConfigView,
    registry: RegistryView,
    server_name: Seq<char>,
    tools: Seq<ToolView>,
) -> RegistryView {
    if tools_list_decision(config, registry, server_name, tools) is Allow {
        registered(registry, server_name, tools)
    } else {
        registry
    }
}

/// A server that lists a tool whose fingerprint is recorded for a tool of
/// a whitelisted server of another name is denied for tool mimicry, if
/// that check is on.
pub proof fn lemma_copied_tool_is_denied(
    config: GuardConfigView,
    registry: RegistryView,
    server_name: Seq<char>,
    tools: Seq<ToolView>,
    t: int,
    e: int,
    k: int,
)
    requires
        config.tool_mimicry_detection_enabled,
        0 <= t < tools.len(),
        0 <= e < config.whitelist.len(),
        0 <= k < config.whitelist[e].tool_fingerprints.len(),
        lowercased(config.whitelist[e].name) != lowercased(server_name),
        config.whitelist[e].tool_fingerprints[k].1 == tool_fingerprint(tools[t]),
    ensures
        tools_list_decision(config, registry, server_name, tools) matches DecisionView::Deny(reason)
            && reason.code == "tool_mimicry_detected"@,
{
    let fingerprint = tool_fingerprint(tools[t]);
    lemma_fingerprint_match_is_found(tools[t], fingerprint, config.whitelist[e], k);
    lemma_tool_finding_exists(server_name, tools[t], fingerprint, config.whitelist, 0, e);
    lemma_mimicry_finding_exists(server_name, tools, config.whitelist, 0, t);
}

/// Once a server has registered a tool, a server of another name that
/// lists a tool of the same name is denied for a namespace collision,
/// unless the list is already denied for tool mimicry.
pub proof fn lemma_name_collision_is_denied(
    config: GuardConfigView,
    registry: RegistryView,
    first_server: Seq<char>,
    first_tools: Seq<ToolView>,
    i: int,
    second_server: Seq<char>,
    second_tools: Seq<ToolView>,
    j: int,
)
    requires
        0 <= i < first_tools.len(),
        0 <= j < second_tools.len(),
        first_tools[i].name == second_tools[j].name,
        lowercased(first_server) != lowercased(second_server),
        !(config.tool_mimicry_detection_enabled && mimicry_finding(
            second_server,
            second_tools,
            config.whitelist,
            0,
        ) is Some),
    ensures
        tools_list_decision(
            config,
            registered(registry, first_server, first_tools),
            second_server,
            second_tools,
        ) matches DecisionView::Deny(reason) && reason.code == "tool_namespace_collision"@,
{
    let after = registered(registry, first_server, first_tools);
    let listed = fingerprints_of(first_tools);
    lemma_inserted_holds(registry, first_server, listed);
    let p = choose|p: int|
        0 <= p < inserted(registry, first_server, listed).len() && #[trigger] inserted(
            registry,
            first_server,
            listed,
        )[p] == (first_server, listed);
    lemma_fingerprints_hold_names(first_tools, i);
    lemma_colliding_server_exists(after, second_server, second_tools[j].name, 0, p);
    lemma_namespace_collision_exists(after, second_server, second_tools, 0, j);
}

/// A list of tools that is denied leaves the registry as it was.
pub proof fn lemma_denied_list_is_not_registered(
    config: GuardConfigView,
    registry: RegistryView,
    server_name: Seq<char>,
    tools: Seq<ToolView>,
)
    requires
        tools_list_decision(config, registry, server_name, tools) is Deny,
    ensures
        registry_after(config, registry, server_name, tools) == registry,
{
}

/// A text made of three parts.
fn concat3(a: &str, b: &str, c: &str) -> (r: String)
    ensures
        r@ == a@ + b@ + c@,
{
    let mut text: Vec<char> = Vec::new();
    append_str(&mut text, a);
    append_str(&mut text, b);
    append_str(&mut text, c);
    assert(text@ =~= a@ + b@ + c@);
    from_chars(&text)
}

/// Evaluates a connecting server against the whitelist.
pub fn evaluate_server_connection(config: &GuardConfig, context: &GuardContext) -> (decision:
    Decision)
    ensures
        decision@ == connection_decision(config@, context@.server_name),
{
    let server_name = context.server_name.as_str();
    if !config.whitelist_enabled {
        return Decision::Allow;
    }
    if is_whitelisted(config, server_name) {
        return Decision::Allow;
    }
    if config.typosquat_detection_enabled {
        match detect_typosquat(config, server_name) {
            Some(approved) => {
                let mut text: Vec<char> = Vec::new();
                append_str(&mut text, "Server '");
                append_str(&mut text, server_name);
                append_str(&mut text, "' appears to be typosquatting approved server '");
                append_str(&mut text, approved.as_str());
                append_str(&mut text, "'");
                assert(text@ =~= typosquat_message(server_name@, approved@));
                return Decision::Deny(
                    DenyReason {
                        code: String::from_str("typosquat_detected"),
                        message: from_chars(&text),
                        details: Some(
                            DenyDetails::Typosquat {
                                detected_name: context.server_name.clone(),
                                similar_to: approved,
                            },
                        ),
                    },
                );
            },
            None => {},
        }
    }
    if config.block_unknown_servers {
        return Decision::Deny(
            DenyReason {
                code: String::from_str("server_not_whitelisted"),
                message: concat3(
                    "Server '",
                    server_name,
                    "' is not in the approved server registry",
                ),
                details: Some(
                    DenyDetails::ServerNotWhitelisted { server_name: context.server_name.clone() },
                ),
            },
        );
    }
    let mut warnings: Vec<String> = Vec::new();
    warnings.push(concat3("Server '", server_name, "' is not in whitelist"));
    assert(warnings.deep_view() =~= seq![unknown_server_warning(server_name@)]);
    Decision::Warn(warnings)
}

/// Evaluates the tools that a server lists, and registers them if they
/// pass.
pub fn evaluate_tools_list(
    config: &GuardConfig,
    registry: &mut ToolRegistry,
    tools: &[Tool],
    context: &GuardContext,
) -> (decision: Decision)
    ensures
        decision@ == tools_list_decision(
            config@,
            old(registry)@,
            context@.server_name,
            tools.deep_view(),
        ),
        final(registry)@ == registry_after(
            config@,
            old(registry)@,
            context@.server_name,
            tools.deep_view(),
        ),
{
    let server_name = context.server_name.as_str();
    if config.tool_mimicry_detection_enabled {
        match check_tool_mimicry(config, server_name, tools) {
            Some(finding) => {
                return Decision::Deny(
                    DenyReason {
                        code: String::from_str("tool_mimicry_detected"),
                        message: concat3(
                            "Server '",
                            server_name,
                            "' contains tools that mimic trusted server tools",
                        ),
                        details: Some(
                            DenyDetails::ToolMimicry {
                                server_name: context.server_name.clone(),
                                finding,
                            },
                        ),
                    },
                );
            },
            None => {},
        }
    }
    match check_namespace_collision(registry, server_name, tools) {
        Some(finding) => {
            return Decision::Deny(
                DenyReason {
                    code: String::from_str("tool_namespace_collision"),
                    message: concat3(
                        "Server '",
                        server_name,
                        "' has tools that collide with other servers",
                    ),
                    details: Some(DenyDetails::NamespaceCollision { finding }),
                },
            );
        },
        None => {},
    }
    register_tools(registry, server_name, tools);
    Decision::Allow
}

} // verus!
