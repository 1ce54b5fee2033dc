use vstd::prelude::*;

use crate::model::{
    AgentMessage, AgentState, is_deployed, is_final_phase, is_shown, phase_text,
};
use crate::text::{same_text, truncate_display, truncated};

verus! {

/// How a finished workflow ended.
#[derive(Clone, Copy, Debug, PartialEq, Eq, Structural)]
pub enum Outcome {
    Success,
    Failed,
}

/// The URLs on the info line: the sandbox preview and the live deployment.
#[derive(Clone, Debug)]
pub struct InfoLine {
    pub preview: Option<String>,
    pub live: Option<String>,
}

/// A message of the conversation log that the watch shows, by its index in
/// the log, with its content shortened for display.
#[derive(Clone, Debug)]
pub struct ShownMessage {
    pub index: usize,
    pub text: String,
}

/// Longest message content shown in the live stream.
pub const MESSAGE_WIDTH: usize = 70;

/// The watch loop's memory between polls: how many log entries it has
/// already gone through, the last deployment URL seen, what the display
/// currently shows, and, once the workflow is over, how it ended.
#[derive(Clone, Debug)]
pub struct Watch {
    pub rendered: usize,
    pub deployment_url: Option<String>,
    pub percent: u64,
    pub stage: Option<(i32, i32)>,
    pub status: Option<String>,
    pub phase: Option<String>,
    pub info: Option<InfoLine>,
    pub outcome: Option<Outcome>,
}

pub struct WatchView {
    pub rendered: nat,
    pub deployment_url: Option<Seq<char>>,
    pub percent: nat,
    pub stage: Option<(i32, i32)>,
    pub status: Option<Seq<char>>,
    pub phase: Option<Seq<char>>,
    pub info: Option<(Option<Seq<char>>, Option<Seq<char>>)>,
    pub outcome: Option<Outcome>,
}

pub open spec fn text_of(o: Option<String>) -> Option<Seq<char>> {
    match o {
        Some(s) => Some(s@),
        None => None,
    }
}

pub open spec fn info_view(o: Option<InfoLine>) -> Option<(Option<Seq<char>>, Option<Seq<char>>)> {
    match o {
        Some(i) => Some((text_of(i.preview), text_of(i.live))),
        None => None,
    }
}

impl View for Watch {
    type V = WatchView;

    open spec fn view(&self) -> WatchView {
        WatchView {
            rendered: self.rendered as nat,
            deployment_url: text_of(self.deployment_url),
            percent: self.percent as nat,
            stage: self.stage,
            status: text_of(self.status),
            phase: text_of(self.phase),
            info: info_view(self.info),
            outcome: self.outcome,
        }
    }
}

/// The state before the first poll.
pub open spec fn fresh_watch() -> WatchView {
    WatchView {
        rendered: 0,
        deployment_url: None,
        percent: 0,
        stage: None,
        status: None,
        phase: None,
        info: None,
        outcome: None,
    }
}

/// How a snapshot ends the workflow, if it does: a live deployment is a
/// success whatever else the snapshot says; otherwise a snapshot that is no
/// longer working and in a final phase ends it, failed or not by that phase.
pub open spec fn outcome_of(s: AgentState) -> Option<Outcome> {
    if is_deployed(s) {
        Some(Outcome::Success)
    } else if !s.is_working && is_final_phase(phase_text(s)) {
        if phase_text(s) == "failed"@ {
            Some(Outcome::Failed)
        } else {
            Some(Outcome::Success)
        }
    } else {
        None
    }
}

/// The deployment URL of a snapshot, if it has one.
pub open spec fn deployment_url_of(s: AgentState) -> Option<Seq<char>> {
    match s.deployment {
        Some(d) => text_of(d.url),
        None => None,
    }
}

/// The preview URL of a snapshot's sandbox, if it has one.
pub open spec fn preview_url_of(s: AgentState) -> Option<Seq<char>> {
    match s.container_info {
        Some(c) => text_of(c.frontend_url),
        None => None,
    }
}

/// The live URL: the deployment URL, only while the deployment is live.
pub open spec fn live_url_of(s: AgentState) -> Option<Seq<char>> {
    if is_deployed(s) {
        deployment_url_of(s)
    } else {
        None
    }
}

/// The indices in `lo .. hi` of the messages shown in the live stream.
pub open spec fn shown_between(msgs: Seq<AgentMessage>, lo: int, hi: int) -> Seq<int>
    decreases hi - lo,
{
    if hi <= lo {
        Seq::empty()
    } else if is_shown(msgs[hi - 1]) {
        shown_between(msgs, lo, hi - 1).push(hi - 1)
    } else {
        shown_between(msgs, lo, hi - 1)
    }
}

/// The indices of the messages that one poll shows: those shown among the
/// entries past the ones already gone through.
pub open spec fn shown_step(w: WatchView, s: AgentState) -> Seq<int> {
    shown_between(s.messages@, w.rendered as int, s.messages@.len() as int)
}

/// The content of a message, empty when it has none.
pub open spec fn content_text(m: AgentMessage) -> Seq<char> {
    match m.content {
        Some(c) => c@,
        None => Seq::empty(),
    }
}

/// The state after one poll returned snapshot `s`. Fields the snapshot
/// leaves out keep what they showed before.
pub open spec fn next_watch(w: WatchView, s: AgentState) -> WatchView {
    WatchView {
        rendered: if s.messages@.len() > w.rendered {
            s.messages@.len()
        } else {
            w.rendered
        },
        deployment_url: match deployment_url_of(s) {
            Some(u) => Some(u),
            None => w.deployment_url,
        },
        percent: if is_deployed(s) {
            100
        } else {
            match s.progress {
                Some(p) => match p.percentage {
                    Some(x) => x as nat,
                    None => w.percent,
                },
                None => w.percent,
            }
        },
        stage: match s.progress {
            Some(p) => match (p.current_stage, p.total_stages) {
                (Some(c), Some(t)) => Some((c, t)),
                _ => w.stage,
            },
            None => w.stage,
        },
        status: match s.status {
            Some(t) => Some(t@),
            None => w.status,
        },
        phase: match s.phase {
            Some(t) => Some(t@),
            None => w.phase,
        },
        info: if preview_url_of(s) is Some || live_url_of(s) is Some {
            Some((preview_url_of(s), live_url_of(s)))
        } else {
            w.info
        },
        outcome: outcome_of(s),
    }
}

pub open spec fn shown_indices(r: Seq<ShownMessage>) -> Seq<int> {
    r.map_values(|m: ShownMessage| m.index as int)
}

fn opt_same(o: &Option<String>, t: &str) -> (r: bool)
    ensures
        r == (o matches Some(s) && s@ == t@),
{
    match o {
        Some(s) => same_text(s, t),
        None => false,
    }
}

/// Whether the snapshot reports its deployment as live.
pub fn deployed(s: &AgentState) -> (r: bool)
    ensures
        r == is_deployed(*s),
{
    match &s.deployment {
        Some(d) => opt_same(&d.status, "deployed"),
        None => false,
    }
}

/// How the snapshot ends the workflow, if it does.
pub fn outcome(s: &AgentState) -> (r: Option<Outcome>)
    ensures
        r == outcome_of(*s),
{
    if deployed(s) {
        return Some(Outcome::Success);
    }
    if s.is_working {
        return None;
    }
    proof {
        reveal_strlit("deployed");
        reveal_strlit("complete");
        reveal_strlit("failed");
    }
    if opt_same(&s.phase, "failed") {
        Some(Outcome::Failed)
    } else if opt_same(&s.phase, "deployed") || opt_same(&s.phase, "complete") {
        Some(Outcome::Success)
    } else {
        proof {
            assert(s.phase is None ==> phase_text(*s) =~= Seq::<char>::empty());
        }
        None
    }
}

fn shows(m: &AgentMessage) -> (r: bool)
    ensures
        r == is_shown(*m),
{
    if !same_text(&m.message_type, "assistant") {
        return false;
    }
    match &m.content {
        Some(c) => !c.as_str().is_empty(),
        None => false,
    }
}

fn clone_text(o: &Option<String>) -> (r: Option<String>)
    ensures
        text_of(r) == text_of(*o),
{
    match o {
        Some(s) => Some(s.clone()),
        None => None,
    }
}

impl Watch {
    /// A watch that has seen nothing yet.
    pub fn new() -> (r: Watch)
        ensures
            r@ == fresh_watch(),
    {
        Watch {
            rendered: 0,
            deployment_url: None,
            percent: 0,
            stage: None,
            status: None,
            phase: None,
            info: None,
            outcome: None,
        }
    }

    /// Whether the workflow is over.
    pub fn is_done(&self) -> (r: bool)
        ensures
            r == (self.outcome is Some),
    {
        self.outcome.is_some()
    }

    /// Folds one polled snapshot into the watch. Returns the messages to
    /// show, each once: the assistant's messages with content among the log
    /// entries not gone through before, in log order.
    pub fn on_snapshot(&mut self, s: &AgentState) -> (r: Vec<ShownMessage>)
        ensures
            final(self)@ == next_watch(old(self)@, *s),
            shown_indices(r@) == shown_step(old(self)@, *s),
            forall|k: int|
                0 <= k < r@.len() ==> #[trigger] r@[k].text@ == truncated(
                    content_text(s.messages@[r@[k].index as int]),
                    MESSAGE_WIDTH as nat,
                ),
    {
        let n = s.messages.len();
        let lo = self.rendered;
        let mut out: Vec<ShownMessage> = Vec::new();
        let mut i: usize = lo;
        while i < n
            invariant
                lo <= i,
                i <= n || i == lo,
                n == s.messages@.len(),
                shown_indices(out@) == shown_between(s.messages@, lo as int, i as int),
                forall|k: int|
                    0 <= k < out@.len() ==> #[trigger] out@[k].text@ == truncated(
                        content_text(s.messages@[out@[k].index as int]),
                        MESSAGE_WIDTH as nat,
                    ),
            decreases n - i,
        {
            let m = &s.messages[i];
            if shows(m) {
                let text = match &m.content {
                    Some(c) => truncate_display(c.as_str(), MESSAGE_WIDTH),
                    None => String::new(),
                };
                let ghost before = out@;
                out.push(ShownMessage { index: i, text });
                proof {
                    assert(shown_indices(out@) =~= shown_indices(before).push(i as int));
                }
            }
            i = i + 1;
        }
        proof {
            if n <= lo {
                assert(shown_between(s.messages@, lo as int, n as int) =~= Seq::<int>::empty());
            }
        }
        if n > lo {
            self.rendered = n;
        }
        match &s.deployment {
            Some(d) => match &d.url {
                Some(u) => {
                    self.deployment_url = Some(u.clone());
                },
                None => {},
            },
            None => {},
        }
        let live = deployed(s);
        match &s.progress {
            Some(p) => {
                match p.percentage {
                    Some(x) => {
                        self.percent = x;
                    },
                    None => {},
                }
                match (p.current_stage, p.total_stages) {
                    (Some(c), Some(t)) => {
                        self.stage = Some((c, t));
                    },
                    _ => {},
                }
            },
            None => {},
        }
        if live {
            self.percent = 100;
        }
        match &s.status {
            Some(t) => {
                self.status = Some(t.clone());
            },
            None => {},
        }
        match &s.phase {
            Some(t) => {
                self.phase = Some(t.clone());
            },
            None => {},
        }
        let preview = match &s.container_info {
            Some(c) => clone_text(&c.frontend_url),
            None => None,
        };
        let live_url = if live {
            match &s.deployment {
                Some(d) => clone_text(&d.url),
                None => None,
            }
        } else {
            None
        };
        if preview.is_some() || live_url.is_some() {
            self.info = Some(InfoLine { preview, live: live_url });
        }
        self.outcome = outcome(s);
        out
    }
}

} // verus!
