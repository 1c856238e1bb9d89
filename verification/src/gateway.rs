//! The values exchanged with the gateway: tool definitions coming in,
//! decisions going out.

use crate::injection::patterns::{PatternMatch, PatternMatchView};
use crate::spoofing::mimicry::{
    CollisionFinding, CollisionFindingView, MimicryFinding, MimicryFindingView,
};
use vstd::prelude::*;

verus! {

/// The mathematical content of a [`Tool`].
pub struct ToolView {
    pub name: Seq<char>,
    pub description: Option<Seq<char>>,
    pub input_schema: Seq<char>,
}

/// A tool as a server lists it. The input schema is kept in its serialised
/// form.
#[derive(Debug, Clone)]
pub struct Tool {
    pub name: String,
    pub description: Option<String>,
    pub input_schema: String,
}

impl View for Tool {
    type V = ToolView;

    open spec fn view(&self) -> ToolView {
        ToolView {
            name: self.name@,
            description: self.description.deep_view(),
            input_schema: self.input_schema@,
        }
    }
}

impl DeepView for Tool {
    type V = ToolView;

    open spec fn deep_view(&self) -> ToolView {
        self.view()
    }
}

/// The mathematical content of a [`GuardContext`].
pub struct GuardContextView {
    pub server_name: Seq<char>,
}

/// What the gateway tells about the origin of an event.
#[derive(Debug, Clone)]
pub struct GuardContext {
    /// The name of the server that the event comes from.
    pub server_name: String,
}

impl View for GuardContext {
    type V = GuardContextView;

    open spec fn view(&self) -> GuardContextView {
        GuardContextView { server_name: self.server_name@ }
    }
}

/// The kind of text that a scan looked at.
#[derive(Clone, Copy, Debug, PartialEq, Eq, Structural)]
pub enum ScanPhase {
    /// The arguments of a tool invocation.
    ToolInvoke,
    /// The response of a server.
    Response,
}

/// The mathematical content of [`DenyDetails`].
pub enum DenyDetailsView {
    PromptInjection {
        phase: ScanPhase,
        tool_name: Option<Seq<char>>,
        server_name: Seq<char>,
        total_score: u32,
        threshold: u32,
        matches: Seq<PatternMatchView>,
    },
    Typosquat { detected_name: Seq<char>, similar_to: Seq<char> },
    ServerNotWhitelisted { server_name: Seq<char> },
    ToolMimicry { server_name: Seq<char>, finding: MimicryFindingView },
    NamespaceCollision { finding: CollisionFindingView },
}

/// The structured payload of a denial.
#[derive(Debug, Clone)]
pub enum DenyDetails {
    /// A scan reached the score threshold.
    PromptInjection {
        phase: ScanPhase,
        tool_name: Option<String>,
        server_name: String,
        total_score: u32,
        threshold: u32,
        matches: Vec<PatternMatch>,
    },
    /// The server's name imitates a whitelisted name.
    Typosquat { detected_name: String, similar_to: String },
    /// The server is unknown and unknown servers are blocked.
    ServerNotWhitelisted { server_name: String },
    /// A listed tool imitates a tool of a whitelisted server.
    ToolMimicry { server_name: String, finding: MimicryFinding },
    /// A listed tool has a name that another server already uses.
    NamespaceCollision { finding: CollisionFinding },
}

impl View for DenyDetails {
    type V = DenyDetailsView;

    open spec fn view(&self) -> DenyDetailsView {
        match *self {
            DenyDetails::PromptInjection {
                phase,
                tool_name,
                server_name,
                total_score,
                threshold,
                matches,
            } => DenyDetailsView::PromptInjection {
                phase,
                tool_name: tool_name.deep_view(),
                server_name: server_name@,
                total_score,
                threshold,
                matches: matches.deep_view(),
            },
            DenyDetails::Typosquat { detected_name, similar_to } => DenyDetailsView::Typosquat {
                detected_name: detected_name@,
                similar_to: similar_to@,
            },
            DenyDetails::ServerNotWhitelisted {
                server_name,
            } => DenyDetailsView::ServerNotWhitelisted { server_name: server_name@ },
            DenyDetails::ToolMimicry { server_name, finding } => DenyDetailsView::ToolMimicry {
                server_name: server_name@,
                finding: finding@,
            },
            DenyDetails::NamespaceCollision {
                finding,
            } => DenyDetailsView::NamespaceCollision { finding: finding@ },
        }
    }
}

impl DeepView for DenyDetails {
    type V = DenyDetailsView;

    open spec fn deep_view(&self) -> DenyDetailsView {
        self.view()
    }
}

/// The mathematical content of a [`DenyReason`].
pub struct DenyReasonView {
    pub code: Seq<char>,
    pub message: Seq<char>,
    pub details: Option<DenyDetailsView>,
}

/// Why an event is denied.
#[derive(Debug, Clone)]
pub struct DenyReason {
    /// A stable, machine-readable code.
    pub code: String,
    /// A message for a human reader.
    pub message: String,
    /// What was found, in structured form.
    pub details: Option<DenyDetails>,
}

impl View for DenyReason {
    type V = DenyReasonView;

    open spec fn view(&self) -> DenyReasonView {
        DenyReasonView {
            code: self.code@,
            message: self.message@,
            details: self.details.deep_view(),
        }
    }
}

/// The mathematical content of a [`Decision`].
pub enum DecisionView {
    Allow,
    Warn(Seq<Seq<char>>),
    Deny(DenyReasonView),
}

/// The outcome of an evaluation.
#[derive(Debug, Clone)]
pub enum Decision {
    /// The event may pass.
    Allow,
    /// The event may pass; the messages say what looked suspicious.
    Warn(Vec<String>),
    /// The event is refused.
    Deny(DenyReason),
}

impl View for Decision {
    type V = DecisionView;

    open spec fn view(&self) -> DecisionView {
        match *self {
            Decision::Allow => DecisionView::Allow,
            Decision::Warn(messages) => DecisionView::Warn(messages.deep_view()),
            Decision::Deny(reason) => DecisionView::Deny(reason@),
        }
    }
}

} // verus!
