use vstd::prelude::*;

use crate::ids::{uuid_string, uuid_text};
use crate::model::{AgentState, StartAgentResponse};
use crate::render::{
    Panel, Span, Tone, blank_line, details_view, print_success, push_span, rows_view,
    span, spans_view, success_header,
};
use crate::summary::app_name_of;
use crate::text::join;
use crate::watch::text_of;

verus! {

/// Options of the `agent start` command.
#[derive(Clone, Debug)]
pub struct StartArgs {
    pub prompt: String,
    pub name: Option<String>,
    pub github: bool,
    pub parallel: bool,
    pub accessibility: String,
    pub backend: Option<String>,
    pub backend_lang: Option<String>,
    pub frontend: Option<String>,
    pub frontend_lang: Option<String>,
    pub database: Option<String>,
    pub primary_color: Option<String>,
    pub secondary_color: Option<String>,
    pub no_watch: bool,
    pub json: bool,
}

/// A framework and its language, for one tier of the app.
#[derive(Clone, Debug)]
pub struct StackConfig {
    pub stack: Option<String>,
    pub language: Option<String>,
}

/// The technologies asked for.
#[derive(Clone, Debug)]
pub struct TechStack {
    pub backend: Option<StackConfig>,
    pub frontend: Option<StackConfig>,
    pub database: Option<String>,
}

/// The colors asked for.
#[derive(Clone, Debug)]
pub struct ColorPreferences {
    pub color_type: String,
    pub primary_color: Option<String>,
    pub secondary_color: Option<String>,
}

/// Body of the request that starts a workflow.
#[derive(Clone, Debug)]
pub struct StartAgentRequest {
    pub prompt: String,
    pub project_name: Option<String>,
    pub include_github: Option<bool>,
    pub parallel_mode: Option<bool>,
    pub accessibility_target: Option<String>,
    pub tech_stack: Option<TechStack>,
    pub color_preferences: Option<ColorPreferences>,
}

pub open spec fn stack_view(o: Option<StackConfig>) -> Option<(Option<Seq<char>>, Option<Seq<char>>)> {
    match o {
        Some(c) => Some((text_of(c.stack), text_of(c.language))),
        None => None,
    }
}

/// A tier's stack, present when its framework or its language is given.
pub open spec fn stack_from(stack: Option<String>, language: Option<String>) -> Option<
    (Option<Seq<char>>, Option<Seq<char>>),
> {
    if stack is Some || language is Some {
        Some((text_of(stack), text_of(language)))
    } else {
        None
    }
}

pub open spec fn tech_view(o: Option<TechStack>) -> Option<
    (
        Option<(Option<Seq<char>>, Option<Seq<char>>)>,
        Option<(Option<Seq<char>>, Option<Seq<char>>)>,
        Option<Seq<char>>,
    ),
> {
    match o {
        Some(t) => Some((stack_view(t.backend), stack_view(t.frontend), text_of(t.database))),
        None => None,
    }
}

/// The technologies of a start request, present when any option names one.
pub open spec fn tech_from(a: StartArgs) -> Option<
    (
        Option<(Option<Seq<char>>, Option<Seq<char>>)>,
        Option<(Option<Seq<char>>, Option<Seq<char>>)>,
        Option<Seq<char>>,
    ),
> {
    if a.backend is Some || a.backend_lang is Some || a.frontend is Some || a.frontend_lang is Some
        || a.database is Some {
        Some(
            (
                stack_from(a.backend, a.backend_lang),
                stack_from(a.frontend, a.frontend_lang),
                text_of(a.database),
            ),
        )
    } else {
        None
    }
}

pub open spec fn colors_view(o: Option<ColorPreferences>) -> Option<
    (Seq<char>, Option<Seq<char>>, Option<Seq<char>>),
> {
    match o {
        Some(c) => Some((c.color_type@, text_of(c.primary_color), text_of(c.secondary_color))),
        None => None,
    }
}

/// The colors of a start request: custom ones, when either is given.
pub open spec fn colors_from(a: StartArgs) -> Option<(Seq<char>, Option<Seq<char>>, Option<Seq<char>>)> {
    if a.primary_color is Some || a.secondary_color is Some {
        Some(("custom"@, text_of(a.primary_color), text_of(a.secondary_color)))
    } else {
        None
    }
}

fn clone_opt(o: &Option<String>) -> (r: Option<String>)
    ensures
        text_of(r) == text_of(*o),
{
    match o {
        Some(s) => Some(s.clone()),
        None => None,
    }
}

fn stack_config(stack: &Option<String>, language: &Option<String>) -> (r: Option<StackConfig>)
    ensures
        stack_view(r) == stack_from(*stack, *language),
{
    if stack.is_some() || language.is_some() {
        Some(StackConfig { stack: clone_opt(stack), language: clone_opt(language) })
    } else {
        None
    }
}

impl StartArgs {
    /// The request that starts a workflow with these options.
    pub fn to_request(&self) -> (r: StartAgentRequest)
        ensures
            r.prompt@ == self.prompt@,
            text_of(r.project_name) == text_of(self.name),
            r.include_github == Some(self.github),
            r.parallel_mode == Some(self.parallel),
            text_of(r.accessibility_target) == Some(self.accessibility@),
            tech_view(r.tech_stack) == tech_from(*self),
            colors_view(r.color_preferences) == colors_from(*self),
    {
        let tech_stack = if self.backend.is_some() || self.backend_lang.is_some()
            || self.frontend.is_some() || self.frontend_lang.is_some() || self.database.is_some() {
            Some(
                TechStack {
                    backend: stack_config(&self.backend, &self.backend_lang),
                    frontend: stack_config(&self.frontend, &self.frontend_lang),
                    database: clone_opt(&self.database),
                },
            )
        } else {
            None
        };
        let color_preferences = if self.primary_color.is_some() || self.secondary_color.is_some() {
            Some(
                ColorPreferences {
                    color_type: String::from_str("custom"),
                    primary_color: clone_opt(&self.primary_color),
                    secondary_color: clone_opt(&self.secondary_color),
                },
            )
        } else {
            None
        };
        StartAgentRequest {
            prompt: self.prompt.clone(),
            project_name: clone_opt(&self.name),
            include_github: Some(self.github),
            parallel_mode: Some(self.parallel),
            accessibility_target: Some(self.accessibility.clone()),
            tech_stack,
            color_preferences,
        }
    }
}

/// Where the workflow endpoints live.
pub const AGENT_PATH: &'static str = "/api/v1/agents/quome-coder";

/// The endpoint that starts a workflow.
pub fn start_path() -> (r: String)
    ensures
        r@ == AGENT_PATH@ + "/start"@,
{
    join(AGENT_PATH, "/start")
}

/// What is done with a running workflow.
#[derive(Clone, Copy, Debug, PartialEq, Eq, Structural)]
pub enum ThreadAction {
    Prompt,
    State,
    Stop,
    Pull,
}

pub open spec fn action_name(a: ThreadAction) -> Seq<char> {
    match a {
        ThreadAction::Prompt => "prompt"@,
        ThreadAction::State => "state"@,
        ThreadAction::Stop => "stop"@,
        ThreadAction::Pull => "pull"@,
    }
}

/// The endpoint for an action on the workflow `thread_id`.
pub fn thread_path(thread_id: u128, action: ThreadAction) -> (r: String)
    ensures
        r@ == AGENT_PATH@ + "/"@ + uuid_text(thread_id) + "/"@ + action_name(action),
{
    let name = match action {
        ThreadAction::Prompt => "prompt",
        ThreadAction::State => "state",
        ThreadAction::Stop => "stop",
        ThreadAction::Pull => "pull",
    };
    let p = join(AGENT_PATH, "/");
    let p = join(p.as_str(), uuid_string(thread_id).as_str());
    let p = join(p.as_str(), "/");
    join(p.as_str(), name)
}

/// The name a watch shows for the app when none is known.
pub const DEFAULT_APP_NAME: &'static str = "your app";

/// The app name a watch shows: the one given, or a generic one.
pub fn app_name_or_default(name: &Option<String>) -> (r: String)
    ensures
        r@ == match text_of(*name) {
            Some(n) => n,
            None => DEFAULT_APP_NAME@,
        },
{
    match name {
        Some(n) => n.clone(),
        None => String::from_str(DEFAULT_APP_NAME),
    }
}

/// The app name a watch of an existing workflow shows: the one the agent
/// chose, or a generic one.
pub fn watch_title(s: &AgentState) -> (r: String)
    ensures
        r@ == match app_name_of(*s) {
            Some(n) => n,
            None => DEFAULT_APP_NAME@,
        },
{
    match &s.app_context {
        Some(c) => app_name_or_default(&c.name),
        None => String::from_str(DEFAULT_APP_NAME),
    }
}

/// The panel shown when a workflow was started without watching it.
pub fn started_panel(r: &StartAgentResponse) -> (p: Panel)
    ensures
        spans_view(p.header@) == success_header("Started AI workflow"@),
        rows_view(p.rows@) == seq![
            ("Thread ID"@, uuid_text(r.thread_id)),
            ("Status"@, r.status@),
            ("Message"@, r.message@),
        ],
{
    let id = uuid_string(r.thread_id);
    let details = [("Thread ID", id.as_str()), ("Status", r.status.as_str()), (
        "Message",
        r.message.as_str(),
    )];
    let p = print_success("Started AI workflow", &details);
    assert(details_view(details@) =~= seq![
        ("Thread ID"@, uuid_text(r.thread_id)),
        ("Status"@, r.status@),
        ("Message"@, r.message@),
    ]);
    p
}

/// The line printed when the server declines a request.
pub open spec fn refusal_spans(message: Seq<char>) -> Seq<(Seq<char>, Tone)> {
    seq![("error:"@, Tone::RedBold), (" "@, Tone::Plain), (message, Tone::Plain)]
}

/// What a prompt, stop or pull answer shows: a success panel titled
/// `title` with the server's message, or, when the server declined, the
/// message as an error line.
pub fn reply_report(success: bool, title: &str, message: &String) -> (r: Result<Panel, Vec<Span>>)
    ensures
        success ==> (r matches Ok(p) && spans_view(p.header@) == success_header(title@)
            && rows_view(p.rows@) == seq![("Message"@, message@)]),
        !success ==> (r matches Err(l) && spans_view(l@) == refusal_spans(message@)),
{
    if success {
        let details = [("Message", message.as_str())];
        let p = print_success(title, &details);
        assert(details_view(details@) =~= seq![("Message"@, message@)]);
        Ok(p)
    } else {
        let mut l = blank_line();
        push_span(&mut l, span("error:", Tone::RedBold));
        push_span(&mut l, span(" ", Tone::Plain));
        push_span(&mut l, Span { text: message.clone(), tone: Tone::Plain });
        assert(spans_view(l@) =~= refusal_spans(message@));
        Err(l)
    }
}

} // verus!
