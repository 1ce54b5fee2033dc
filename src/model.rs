use std::collections::HashMap;
use vstd::prelude::*;

use crate::text::same_text;

verus! {

/// What the agent has learned about the application it builds.
#[derive(Clone, Debug)]
pub struct AppContext {
    pub name: Option<String>,
    pub goal: Option<String>,
    pub description: Option<String>,
}

/// One turn of the workflow's conversation log. `timestamp` is in Unix
/// milliseconds.
#[derive(Clone, Debug)]
pub struct AgentMessage {
    pub message_type: String,
    pub content: Option<String>,
    pub timestamp: Option<i64>,
}

/// Where the sandbox serves the application while it is being built.
#[derive(Clone, Debug)]
pub struct ContainerInfo {
    pub container_id: Option<String>,
    pub sandbox_id: Option<String>,
    pub app_relative_dir: Option<String>,
    pub frontend_port: Option<i32>,
    pub backend_port: Option<i32>,
    pub testing_port: Option<i32>,
    pub frontend_url: Option<String>,
    pub backend_url: Option<String>,
    pub testing_url: Option<String>,
    pub is_healthy: Option<bool>,
}

/// Where, and how far, the finished application is deployed.
#[derive(Clone, Debug)]
pub struct AgentDeploymentInfo {
    pub url: Option<String>,
    pub status: Option<String>,
    pub files_path: Option<String>,
    pub port: Option<i32>,
}

/// Progress counters; `percentage` is the whole percent, rounded.
#[derive(Clone, Debug)]
pub struct ProgressInfo {
    pub percentage: Option<u64>,
    pub current_stage: Option<i32>,
    pub total_stages: Option<i32>,
}

/// The agent's build plan.
#[derive(Clone, Debug)]
pub struct AgentPlan {
    pub context: Option<String>,
    pub stages: Vec<AgentPlanStage>,
    pub current_stage: Option<i32>,
}

#[derive(Clone, Debug)]
pub struct AgentPlanStage {
    pub description: Option<String>,
    pub lanes: Vec<AgentPlanWorkLane>,
}

#[derive(Clone, Debug)]
pub struct AgentPlanWorkLane {
    pub description: Option<String>,
    pub parts: Vec<String>,
    pub target_files: Vec<String>,
    pub is_complete: Option<bool>,
}

/// Branding the agent chose or was given.
#[derive(Clone, Debug)]
pub struct BrandKit {
    pub primary_color: Option<String>,
    pub secondary_color: Option<String>,
    pub accent_color: Option<String>,
    pub background_color: Option<String>,
    pub text_color: Option<String>,
    pub font_family: Option<String>,
    pub company_name: Option<String>,
    pub logo_public_urls: Vec<String>,
    pub hero_public_urls: Vec<String>,
    pub primary_logo_index: Option<i32>,
    pub primary_logo_url: Option<String>,
}

/// One polled snapshot of a workflow. Identifiers are UUIDs held as their
/// 128-bit value; `files` maps each generated file's name to its content.
#[derive(Clone, Debug)]
pub struct AgentState {
    pub thread_id: u128,
    pub is_working: bool,
    pub status: Option<String>,
    pub phase: Option<String>,
    pub app_uuid: Option<u128>,
    pub app_domain_name: Option<String>,
    pub app_context: Option<AppContext>,
    pub messages: Vec<AgentMessage>,
    pub files: HashMap<String, String>,
    pub container_info: Option<ContainerInfo>,
    pub deployment: Option<AgentDeploymentInfo>,
    pub progress: Option<ProgressInfo>,
    pub plan: Option<AgentPlan>,
    pub brand_kit: Option<BrandKit>,
    pub github_repo_url: Option<String>,
    pub github_repo_name: Option<String>,
    pub github_repo_created: Option<bool>,
    pub tests_passed: Option<i32>,
    pub tests_failed: Option<i32>,
    pub tests_ran: Option<i32>,
}

/// Answer to a start request: the new workflow's handle.
#[derive(Clone, Debug)]
pub struct StartAgentResponse {
    pub thread_id: u128,
    pub status: String,
    pub message: String,
}

#[derive(Clone, Debug)]
pub struct SendPromptRequest {
    pub prompt: String,
}

#[derive(Clone, Debug)]
pub struct SendPromptResponse {
    pub success: bool,
    pub message: String,
}

#[derive(Clone, Debug)]
pub struct StopWorkflowResponse {
    pub success: bool,
    pub message: String,
}

#[derive(Clone, Debug)]
pub struct PullLatestResponse {
    pub success: bool,
    pub message: String,
    pub state: Option<AgentState>,
}

/// Body of an error answer from the server.
#[derive(Clone, Debug)]
pub struct ApiErrorResponse {
    pub message: String,
}

/// The workflow stage named by a snapshot's `phase`; names outside the known
/// set are kept as they are.
#[derive(Clone, Debug)]
pub enum Phase {
    Planning,
    Building,
    Testing,
    Deploying,
    Deployed,
    Complete,
    Failed,
    Other(String),
}

/// The author of a conversation turn, by its `type`; unknown types are kept.
#[derive(Clone, Debug)]
pub enum MessageKind {
    User,
    Assistant,
    System,
    Tool,
    Other(String),
}

/// Whether `p` names a phase in which the workflow ends once it stops working.
pub open spec fn is_final_phase(p: Seq<char>) -> bool {
    p == "deployed"@ || p == "complete"@ || p == "failed"@
}

/// The phase text of a snapshot, empty when it has none.
pub open spec fn phase_text(s: AgentState) -> Seq<char> {
    match s.phase {
        Some(p) => p@,
        None => Seq::empty(),
    }
}

/// Whether the snapshot reports its deployment as live.
pub open spec fn is_deployed(s: AgentState) -> bool {
    match s.deployment {
        Some(d) => match d.status {
            Some(st) => st@ == "deployed"@,
            None => false,
        },
        None => false,
    }
}

/// Whether a message is shown in the live stream: written by the assistant
/// and with some content.
pub open spec fn is_shown(m: AgentMessage) -> bool {
    m.message_type@ == "assistant"@ && match m.content {
        Some(c) => c@.len() > 0,
        None => false,
    }
}

impl Phase {
    /// Classifies a phase name; matching is exact and case-sensitive.
    pub fn parse(s: &String) -> (r: Phase)
        ensures
            (r is Planning) == (s@ == "planning"@),
            (r is Building) == (s@ == "building"@),
            (r is Testing) == (s@ == "testing"@),
            (r is Deploying) == (s@ == "deploying"@),
            (r is Deployed) == (s@ == "deployed"@),
            (r is Complete) == (s@ == "complete"@),
            (r is Failed) == (s@ == "failed"@),
            r matches Phase::Other(t) ==> t@ == s@,
    {
        proof {
            reveal_strlit("planning");
            reveal_strlit("building");
            reveal_strlit("testing");
            reveal_strlit("deploying");
            reveal_strlit("deployed");
            reveal_strlit("complete");
            reveal_strlit("failed");
        }
        assert("planning"@[0] == 'p' && "building"@[0] == 'b' && "deployed"@[0] == 'd'
            && "complete"@[0] == 'c');
        assert("planning"@.len() == 8 && "building"@.len() == 8 && "testing"@.len() == 7
            && "deploying"@.len() == 9 && "deployed"@.len() == 8 && "complete"@.len() == 8
            && "failed"@.len() == 6);
        if same_text(s, "planning") {
            Phase::Planning
        } else if same_text(s, "building") {
            Phase::Building
        } else if same_text(s, "testing") {
            Phase::Testing
        } else if same_text(s, "deploying") {
            Phase::Deploying
        } else if same_text(s, "deployed") {
            Phase::Deployed
        } else if same_text(s, "complete") {
            Phase::Complete
        } else if same_text(s, "failed") {
            Phase::Failed
        } else {
            Phase::Other(s.clone())
        }
    }

    /// The marker shown before the phase name; unknown phases get a generic one.
    pub fn icon(&self) -> (r: &'static str)
        ensures
            r@ == phase_icon(*self),
    {
        match self {
            Phase::Planning => "📋",
            Phase::Building => "🔨",
            Phase::Testing => "🧪",
            Phase::Deploying => "🚀",
            Phase::Deployed => "✅",
            Phase::Complete => "✅",
            Phase::Failed => "⚡",
            Phase::Other(_) => "⚡",
        }
    }
}

pub open spec fn phase_icon(p: Phase) -> Seq<char> {
    match p {
        Phase::Planning => "📋"@,
        Phase::Building => "🔨"@,
        Phase::Testing => "🧪"@,
        Phase::Deploying => "🚀"@,
        Phase::Deployed => "✅"@,
        Phase::Complete => "✅"@,
        _ => "⚡"@,
    }
}

/// The marker for a phase, by its name.
pub open spec fn icon_for(name: Seq<char>) -> Seq<char> {
    if name == "planning"@ {
        "📋"@
    } else if name == "building"@ {
        "🔨"@
    } else if name == "testing"@ {
        "🧪"@
    } else if name == "deploying"@ {
        "🚀"@
    } else if name == "deployed"@ || name == "complete"@ {
        "✅"@
    } else {
        "⚡"@
    }
}

/// The marker shown before a phase name.
pub fn phase_icon_of(name: &String) -> (r: &'static str)
    ensures
        r@ == icon_for(name@),
{
    let p = Phase::parse(name);
    proof {
        reveal_strlit("planning");
        reveal_strlit("building");
        reveal_strlit("testing");
        reveal_strlit("deploying");
        reveal_strlit("deployed");
        reveal_strlit("complete");
        reveal_strlit("failed");
        assert("planning"@[0] == 'p' && "building"@[0] == 'b' && "deployed"@[0] == 'd'
            && "complete"@[0] == 'c');
        assert("planning"@.len() == 8 && "building"@.len() == 8 && "testing"@.len() == 7
            && "deploying"@.len() == 9 && "deployed"@.len() == 8 && "complete"@.len() == 8
            && "failed"@.len() == 6);
    }
    p.icon()
}

impl MessageKind {
    /// Classifies a message type; matching is exact and case-sensitive.
    pub fn parse(s: &String) -> (r: MessageKind)
        ensures
            (r is User) == (s@ == "user"@),
            (r is Assistant) == (s@ == "assistant"@),
            (r is System) == (s@ == "system"@),
            (r is Tool) == (s@ == "tool"@),
            r matches MessageKind::Other(t) ==> t@ == s@,
    {
        proof {
            reveal_strlit("user");
            reveal_strlit("assistant");
            reveal_strlit("system");
            reveal_strlit("tool");
        }
        assert("user"@[0] == 'u' && "tool"@[0] == 't');
        assert("user"@.len() == 4 && "assistant"@.len() == 9 && "system"@.len() == 6
            && "tool"@.len() == 4);
        if same_text(s, "user") {
            MessageKind::User
        } else if same_text(s, "assistant") {
            MessageKind::Assistant
        } else if same_text(s, "system") {
            MessageKind::System
        } else if same_text(s, "tool") {
            MessageKind::Tool
        } else {
            MessageKind::Other(s.clone())
        }
    }
}

} // verus!
