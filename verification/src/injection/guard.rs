//! Decisions of the prompt-injection guard.
//!
//! The text of a payload is scanned; a score at or above the threshold
//! denies the event, any match below it yields a warning, and no match
//! lets it pass.

use crate::gateway::{
    Decision, DecisionView, DenyDetails, DenyDetailsView, DenyReason, DenyReasonView, GuardContext,
    ScanPhase,
};
use crate::injection::config::{PromptInjectionConfig, PromptInjectionConfigView};
use crate::injection::patterns::{PatternMatch, PatternMatchView};
use crate::injection::scoring::{scan, scan_text, ScanResultView};
use crate::json::{extract_payload_text, payload_text};
use crate::text::{append_decimal, append_str, decimal, from_chars};
use vstd::prelude::*;
use vstd::string::StringExecFns;

verus! {

/// The code of a denial for the given phase.
pub open spec fn deny_code(phase: ScanPhase) -> Seq<char> {
    match phase {
        ScanPhase::ToolInvoke => "prompt_injection_detected"@,
        ScanPhase::Response => "prompt_injection_in_response"@,
    }
}

/// The message of a denial.
pub open spec fn deny_message(
    phase: ScanPhase,
    tool_name: Seq<char>,
    server_name: Seq<char>,
    score: u32,
    threshold: u32,
) -> Seq<char> {
    match phase {
        ScanPhase::ToolInvoke => "Prompt injection detected in tool '"@ + tool_name
            + "' arguments (score: "@ + decimal(score as nat) + "/"@ + decimal(threshold as nat)
            + ")"@,
        ScanPhase::Response => "Prompt injection detected in response from server '"@
            + server_name + "' (score: "@ + decimal(score as nat) + "/"@ + decimal(
            threshold as nat,
        ) + ")"@,
    }
}

/// The warning for one match.
pub open spec fn warn_message(
    phase: ScanPhase,
    tool_name: Seq<char>,
    server_name: Seq<char>,
    found: PatternMatchView,
) -> Seq<char> {
    match phase {
        ScanPhase::ToolInvoke => "Suspicious pattern in tool '"@ + tool_name
            + "' args: category="@ + found.category + ", weight="@ + decimal(found.weight as nat),
        ScanPhase::Response => "Suspicious pattern in response from '"@ + server_name
            + "': category="@ + found.category + ", weight="@ + decimal(found.weight as nat),
    }
}

/// The warnings for a list of matches, one for each match, in order.
pub open spec fn warn_messages(
    phase: ScanPhase,
    tool_name: Seq<char>,
    server_name: Seq<char>,
    matches: Seq<PatternMatchView>,
) -> Seq<Seq<char>> {
    Seq::new(matches.len(), |i: int| warn_message(phase, tool_name, server_name, matches[i]))
}

/// The decision for the result of a scan: denial from the threshold on,
/// else a warning if anything matched, else permission.
pub open spec fn result_decision(
    phase: ScanPhase,
    tool_name: Seq<char>,
    server_name: Seq<char>,
    threshold: u32,
    result: ScanResultView,
) -> DecisionView {
    if result.total_score >= threshold {
        DecisionView::Deny(
            DenyReasonView {
                code: deny_code(phase),
                message: deny_message(
                    phase,
                    tool_name,
                    server_name,
                    result.total_score,
                    threshold,
                ),
                details: Some(
                    DenyDetailsView::PromptInjection {
                        phase,
                        tool_name: match phase {
                            ScanPhase::ToolInvoke => Some(tool_name),
                            ScanPhase::Response => None,
                        },
                        server_name,
                        total_score: result.total_score,
                        threshold,
                        matches: result.matches,
                    },
                ),
            },
        )
    } else if result.matches.len() > 0 {
        DecisionView::Warn(warn_messages(phase, tool_name, server_name, result.matches))
    } else {
        DecisionView::Allow
    }
}

/// The decision for a text that is to be scanned: empty text passes, any
/// other text is scanned and judged by the result.
pub open spec fn text_decision(
    config: PromptInjectionConfigView,
    phase: ScanPhase,
    tool_name: Seq<char>,
    server_name: Seq<char>,
    text: Seq<char>,
) -> DecisionView {
    if text.len() == 0 {
        DecisionView::Allow
    } else {
        result_decision(
            phase,
            tool_name,
            server_name,
            config.score_threshold,
            scan(
                text,
                config.enabled_categories,
                config.custom_patterns,
                config.max_scan_length as nat,
            ),
        )
    }
}

/// The decision for the arguments of a tool invocation.
pub open spec fn tool_invoke_decision(
    config: PromptInjectionConfigView,
    tool_name: Seq<char>,
    arguments: Seq<char>,
    server_name: Seq<char>,
) -> DecisionView {
    if !config.scan_tool_arguments {
        DecisionView::Allow
    } else {
        text_decision(
            config,
            ScanPhase::ToolInvoke,
            tool_name,
            server_name,
            payload_text(arguments),
        )
    }
}

/// The decision for a server response.
pub open spec fn response_decision(
    config: PromptInjectionConfigView,
    response: Seq<char>,
    server_name: Seq<char>,
) -> DecisionView {
    if !config.scan_responses {
        DecisionView::Allow
    } else {
        text_decision(
            config,
            ScanPhase::Response,
            Seq::empty(),
            server_name,
            payload_text(response),
        )
    }
}

/// A score at or above the threshold always denies, with the code of the
/// phase; below the threshold nothing is denied.
pub proof fn lemma_threshold_decides(
    phase: ScanPhase,
    tool_name: Seq<char>,
    server_name: Seq<char>,
    threshold: u32,
    result: ScanResultView,
)
    ensures
        result.total_score >= threshold <==> result_decision(
            phase,
            tool_name,
            server_name,
            threshold,
            result,
        ) is Deny,
        result_decision(phase, tool_name, server_name, threshold, result) matches
            DecisionView::Deny(reason) ==> reason.code == deny_code(phase),
{
}

/// Builds the message of a denial.
fn build_deny_message(
    phase: ScanPhase,
    tool_name: &str,
    server_name: &str,
    score: u32,
    threshold: u32,
) -> (message: String)
    ensures
        message@ == deny_message(phase, tool_name@, server_name@, score, threshold),
{
    let mut text: Vec<char> = Vec::new();
    match phase {
        ScanPhase::ToolInvoke => {
            append_str(&mut text, "Prompt injection detected in tool '");
            append_str(&mut text, tool_name);
            append_str(&mut text, "' arguments (score: ");
        },
        ScanPhase::Response => {
            append_str(&mut text, "Prompt injection detected in response from server '");
            append_str(&mut text, server_name);
            append_str(&mut text, "' (score: ");
        },
    }
    append_decimal(&mut text, score);
    append_str(&mut text, "/");
    append_decimal(&mut text, threshold);
    append_str(&mut text, ")");
    assert(text@ =~= deny_message(phase, tool_name@, server_name@, score, threshold));
    from_chars(&text)
}

/// Builds the warning for one match.
fn build_warn_message(
    phase: ScanPhase,
    tool_name: &str,
    server_name: &str,
    found: &PatternMatch,
) -> (message: String)
    ensures
        message@ == warn_message(phase, tool_name@, server_name@, found@),
{
    let mut text: Vec<char> = Vec::new();
    match phase {
        ScanPhase::ToolInvoke => {
            append_str(&mut text, "Suspicious pattern in tool '");
            append_str(&mut text, tool_name);
            append_str(&mut text, "' args: category=");
        },
        ScanPhase::Response => {
            append_str(&mut text, "Suspicious pattern in response from '");
            append_str(&mut text, server_name);
            append_str(&mut text, "': category=");
        },
    }
    append_str(&mut text, found.category.as_str());
    append_str(&mut text, ", weight=");
    append_decimal(&mut text, found.weight);
    assert(text@ =~= warn_message(phase, tool_name@, server_name@, found@));
    from_chars(&text)
}

/// Decides on a text that was taken from a payload.
///
/// An empty text passes. Any other text is scanned with the configured
/// categories, custom patterns and length limit; a total score at or above
/// the threshold denies, any match below it warns.
pub fn evaluate_text(
    config: &PromptInjectionConfig,
    phase: ScanPhase,
    tool_name: &str,
    context: &GuardContext,
    text: &str,
) -> (decision: Decision)
    ensures
        decision@ == text_decision(config@, phase, tool_name@, context@.server_name, text@),
{
    if text.is_empty() {
        return Decision::Allow;
    }
    let result = scan_text(
        text,
        config.enabled_categories.as_slice(),
        config.custom_patterns.as_slice(),
        config.max_scan_length,
    );
    let server_name = context.server_name.as_str();
    let ghost found = result@.matches;
    if result.total_score >= config.score_threshold {
        let message = build_deny_message(
            phase,
            tool_name,
            server_name,
            result.total_score,
            config.score_threshold,
        );
        let code = match phase {
            ScanPhase::ToolInvoke => String::from_str("prompt_injection_detected"),
            ScanPhase::Response => String::from_str("prompt_injection_in_response"),
        };
        let subject = match phase {
            ScanPhase::ToolInvoke => Some(String::from_str(tool_name)),
            ScanPhase::Response => None,
        };
        return Decision::Deny(
            DenyReason {
                code,
                message,
                details: Some(
                    DenyDetails::PromptInjection {
                        phase,
                        tool_name: subject,
                        server_name: context.server_name.clone(),
                        total_score: result.total_score,
                        threshold: config.score_threshold,
                        matches: result.matches,
                    },
                ),
            },
        );
    }
    if result.matches.len() > 0 {
        let mut warnings: Vec<String> = Vec::new();
        let mut i: usize = 0;
        while i < result.matches.len()
            invariant
                i <= result.matches.len(),
                found == result.matches.deep_view(),
                server_name@ == context@.server_name,
                warnings@.len() == i,
                forall|j: int|
                    0 <= j < i ==> (#[trigger] warnings@[j])@ == warn_message(
                        phase,
                        tool_name@,
                        context@.server_name,
                        found[j],
                    ),
            decreases result.matches.len() - i,
        {
            assert(found[i as int] == result.matches@[i as int]@);
            warnings.push(build_warn_message(phase, tool_name, server_name, &result.matches[i]));
            i += 1;
        }
        assert(warnings.deep_view() =~= warn_messages(
            phase,
            tool_name@,
            context@.server_name,
            found,
        ));
        return Decision::Warn(warnings);
    }
    Decision::Allow
}

/// Evaluates the arguments of a tool invocation.
///
/// Where scanning of arguments is off the invocation passes. Else the
/// text to scan is the string content of the arguments if they are JSON,
/// or the arguments verbatim if not; it is judged as [`evaluate_text`]
/// says.
pub fn evaluate_tool_invoke(
    config: &PromptInjectionConfig,
    tool_name: &str,
    arguments: &str,
    context: &GuardContext,
) -> (decision: Decision)
    ensures
        decision@ == tool_invoke_decision(
            config@,
            tool_name@,
            arguments@,
            context@.server_name,
        ),
{
    if !config.scan_tool_arguments {
        return Decision::Allow;
    }
    let text = extract_payload_text(arguments);
    evaluate_text(config, ScanPhase::ToolInvoke, tool_name, context, text.as_str())
}

/// Evaluates the response of a server.
///
/// Where scanning of responses is off the response passes. Else the text
/// to scan is the string content of the response if it is JSON, or the
/// response verbatim if not; it is judged as [`evaluate_text`] says.
pub fn evaluate_response(
    config: &PromptInjectionConfig,
    response: &str,
    context: &GuardContext,
) -> (decision: Decision)
    ensures
        decision@ == response_decision(config@, response@, context@.server_name),
{
    if !config.scan_responses {
        return Decision::Allow;
    }
    let text = extract_payload_text(response);
    proof {
        reveal_strlit("");
        assert(""@ =~= Seq::<char>::empty());
    }
    evaluate_text(config, ScanPhase::Response, "", context, text.as_str())
}

} // verus!
