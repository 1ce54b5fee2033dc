use vstd::prelude::*;
use vstd::std_specs::hash::spec_hash_map_len;

use crate::ids::{uuid_string, uuid_text};
use crate::model::{AgentMessage, AgentState, MessageKind};
use crate::render::{
    Span, Tone, blank_line, lines_view, line_of, no_lines, push_line, push_lines, push_span, span,
    spans_view,
};
use crate::summary::{files_text, github_of};
use crate::text::{decimal_text, int_text, join, truncate_display, truncated};
use crate::watch::text_of;

verus! {

/// Longest message content in the report's recent messages.
pub const RECENT_WIDTH: usize = 100;

/// How many of the latest messages the report lists.
pub const RECENT_COUNT: usize = 3;

pub open spec fn heading(t: Seq<char>) -> Seq<(Seq<char>, Tone)> {
    seq![(t, Tone::Bold)]
}

/// A labelled value, indented.
pub open spec fn field(label: Seq<char>, value: Seq<char>) -> Seq<(Seq<char>, Tone)> {
    seq![("  "@, Tone::Plain), (label, Tone::Cyan), (" "@, Tone::Plain), (value, Tone::Plain)]
}

pub open spec fn opt_field(label: Seq<char>, value: Option<Seq<char>>) -> Seq<
    Seq<(Seq<char>, Tone)>,
> {
    match value {
        Some(v) => seq![field(label, v)],
        None => Seq::empty(),
    }
}

pub open spec fn yes_no(b: bool) -> Seq<char> {
    if b {
        "Yes"@
    } else {
        "No"@
    }
}

pub open spec fn or_zero(o: Option<i32>) -> int {
    match o {
        Some(x) => x as int,
        None => 0,
    }
}

pub open spec fn header_section(s: AgentState) -> Seq<Seq<(Seq<char>, Tone)>> {
    seq![
        heading("Workflow State"@),
        field("Thread ID:"@, uuid_text(s.thread_id)),
        field("Working:"@, yes_no(s.is_working)),
    ] + opt_field("Status:"@, text_of(s.status)) + opt_field("Phase:"@, text_of(s.phase))
}

pub open spec fn progress_section(s: AgentState) -> Seq<Seq<(Seq<char>, Tone)>> {
    match s.progress {
        Some(p) => match p.percentage {
            Some(x) => seq![
                field(
                    "Progress:"@,
                    decimal_text(x as int) + "% (stage "@ + decimal_text(or_zero(p.current_stage))
                        + "/"@ + decimal_text(or_zero(p.total_stages)) + ")"@,
                ),
            ],
            None => Seq::empty(),
        },
        None => Seq::empty(),
    }
}

pub open spec fn app_section(s: AgentState) -> Seq<Seq<(Seq<char>, Tone)>> {
    match s.app_context {
        Some(c) => (match c.name {
            Some(n) => seq![Seq::empty(), heading("Application"@), field("Name:"@, n@)],
            None => Seq::empty(),
        }) + opt_field("Goal:"@, text_of(c.goal)),
        None => Seq::empty(),
    }
}

pub open spec fn deployment_section(s: AgentState) -> Seq<Seq<(Seq<char>, Tone)>> {
    match s.deployment {
        Some(d) => (match d.url {
            Some(u) => seq![Seq::empty(), heading("Deployment"@), field("URL:"@, u@)],
            None => Seq::empty(),
        }) + opt_field("Status:"@, text_of(d.status)),
        None => Seq::empty(),
    }
}

pub open spec fn preview_section(s: AgentState) -> Seq<Seq<(Seq<char>, Tone)>> {
    match s.container_info {
        Some(c) => if c.frontend_url is Some || c.backend_url is Some {
            seq![Seq::empty(), heading("Preview"@)] + opt_field(
                "Frontend:"@,
                text_of(c.frontend_url),
            ) + opt_field("Backend:"@, text_of(c.backend_url)) + match c.is_healthy {
                Some(h) => seq![field("Healthy:"@, yes_no(h))],
                None => Seq::empty(),
            }
        } else {
            Seq::empty()
        },
        None => Seq::empty(),
    }
}

pub open spec fn github_section(s: AgentState) -> Seq<Seq<(Seq<char>, Tone)>> {
    match github_of(s) {
        Some(u) => seq![Seq::empty(), heading("GitHub"@), field("Repository:"@, u)],
        None => Seq::empty(),
    }
}

pub open spec fn tests_section(s: AgentState) -> Seq<Seq<(Seq<char>, Tone)>> {
    match s.tests_ran {
        Some(r) => if r > 0 {
            seq![
                Seq::empty(),
                heading("Tests"@),
                seq![
                    ("  "@, Tone::Plain),
                    (decimal_text(or_zero(s.tests_passed)), Tone::Green),
                    (" passed, "@, Tone::Plain),
                    (decimal_text(or_zero(s.tests_failed)), Tone::Red),
                    (" failed ("@, Tone::Plain),
                    (decimal_text(r as int), Tone::Plain),
                    (" total)"@, Tone::Plain),
                ],
            ]
        } else {
            Seq::empty()
        },
        None => Seq::empty(),
    }
}

pub open spec fn files_section(s: AgentState) -> Seq<Seq<(Seq<char>, Tone)>> {
    if spec_hash_map_len(&s.files) > 0 {
        seq![
            Seq::empty(),
            seq![
                ("Files:"@, Tone::Cyan),
                (" "@, Tone::Plain),
                (files_text(spec_hash_map_len(&s.files)), Tone::Plain),
            ],
        ]
    } else {
        Seq::empty()
    }
}

/// The label of a message's author, and its style.
pub open spec fn kind_label(t: Seq<char>) -> (Seq<char>, Tone) {
    if t == "user"@ {
        ("You"@, Tone::Blue)
    } else if t == "assistant"@ {
        ("AI"@, Tone::Green)
    } else if t == "system"@ {
        ("System"@, Tone::Yellow)
    } else if t == "tool"@ {
        ("Tool"@, Tone::Magenta)
    } else {
        (t, Tone::Plain)
    }
}

/// A message in the report, when it has content.
pub open spec fn message_lines(m: AgentMessage) -> Seq<Seq<(Seq<char>, Tone)>> {
    match m.content {
        Some(c) => seq![
            seq![
                ("  "@, Tone::Plain),
                kind_label(m.message_type@),
                (" "@, Tone::Plain),
                (truncated(c@, RECENT_WIDTH as nat), Tone::Dimmed),
            ],
        ],
        None => Seq::empty(),
    }
}

pub open spec fn messages_lines(ms: Seq<AgentMessage>) -> Seq<Seq<(Seq<char>, Tone)>>
    decreases ms.len(),
{
    if ms.len() == 0 {
        Seq::empty()
    } else {
        messages_lines(ms.drop_last()) + message_lines(ms.last())
    }
}

/// The latest messages of a log, oldest first.
pub open spec fn latest(ms: Seq<AgentMessage>) -> Seq<AgentMessage> {
    if ms.len() > RECENT_COUNT {
        ms.subrange(ms.len() - RECENT_COUNT, ms.len() as int)
    } else {
        ms
    }
}

pub open spec fn recent_section(s: AgentState) -> Seq<Seq<(Seq<char>, Tone)>> {
    if s.messages@.len() > 0 {
        seq![Seq::empty(), heading("Recent Messages"@)] + messages_lines(latest(s.messages@))
    } else {
        Seq::empty()
    }
}

/// Everything the report shows of a snapshot, section by section; a section
/// appears only when the snapshot has something for it.
pub open spec fn state_report(s: AgentState) -> Seq<Seq<(Seq<char>, Tone)>> {
    header_section(s) + progress_section(s) + app_section(s) + deployment_section(s)
        + preview_section(s) + github_section(s) + tests_section(s) + files_section(s)
        + recent_section(s)
}

fn field_line(label: &str, value: String) -> (r: Vec<Span>)
    ensures
        spans_view(r@) == field(label@, value@),
{
    let ghost v = value@;
    let mut l = blank_line();
    push_span(&mut l, span("  ", Tone::Plain));
    push_span(&mut l, span(label, Tone::Cyan));
    push_span(&mut l, span(" ", Tone::Plain));
    push_span(&mut l, Span { text: value, tone: Tone::Plain });
    assert(spans_view(l@) =~= field(label@, v));
    l
}

fn push_opt_field(out: &mut Vec<Vec<Span>>, label: &str, value: &Option<String>)
    ensures
        lines_view(final(out)@) == lines_view(old(out)@) + opt_field(label@, text_of(*value)),
{
    let ghost before = lines_view(out@);
    match value {
        Some(v) => push_line(out, field_line(label, v.clone())),
        None => {},
    }
    assert(lines_view(out@) =~= before + opt_field(label@, text_of(*value)));
}

fn yes_no_text(b: bool) -> (r: String)
    ensures
        r@ == yes_no(b),
{
    if b {
        String::from_str("Yes")
    } else {
        String::from_str("No")
    }
}

fn heading_line(t: &str) -> (r: Vec<Span>)
    ensures
        spans_view(r@) == heading(t@),
{
    line_of(span(t, Tone::Bold))
}

fn header_lines_of(s: &AgentState) -> (r: Vec<Vec<Span>>)
    ensures
        lines_view(r@) == header_section(*s),
{
    let mut r = no_lines();
    push_line(&mut r, heading_line("Workflow State"));
    push_line(&mut r, field_line("Thread ID:", uuid_string(s.thread_id)));
    push_line(&mut r, field_line("Working:", yes_no_text(s.is_working)));
    push_opt_field(&mut r, "Status:", &s.status);
    push_opt_field(&mut r, "Phase:", &s.phase);
    assert(lines_view(r@) =~~= header_section(*s));
    r
}

fn or_zero_of(o: Option<i32>) -> (r: i32)
    ensures
        r as int == or_zero(o),
{
    match o {
        Some(x) => x,
        None => 0,
    }
}

fn progress_lines_of(s: &AgentState) -> (r: Vec<Vec<Span>>)
    ensures
        lines_view(r@) == progress_section(*s),
{
    let mut r = no_lines();
    match &s.progress {
        Some(p) => match p.percentage {
            Some(x) => {
                let t = join(int_text(x as i128).as_str(), "% (stage ");
                let t = join(t.as_str(), int_text(or_zero_of(p.current_stage) as i128).as_str());
                let t = join(t.as_str(), "/");
                let t = join(t.as_str(), int_text(or_zero_of(p.total_stages) as i128).as_str());
                let t = join(t.as_str(), ")");
                push_line(&mut r, field_line("Progress:", t));
            },
            None => {},
        },
        None => {},
    }
    assert(lines_view(r@) =~~= progress_section(*s));
    r
}

fn app_lines_of(s: &AgentState) -> (r: Vec<Vec<Span>>)
    ensures
        lines_view(r@) == app_section(*s),
{
    let mut r = no_lines();
    match &s.app_context {
        Some(c) => {
            match &c.name {
                Some(n) => {
                    push_line(&mut r, blank_line());
                    push_line(&mut r, heading_line("Application"));
                    push_line(&mut r, field_line("Name:", n.clone()));
                },
                None => {},
            }
            push_opt_field(&mut r, "Goal:", &c.goal);
        },
        None => {},
    }
    assert(lines_view(r@) =~~= app_section(*s));
    r
}

fn deployment_lines_of(s: &AgentState) -> (r: Vec<Vec<Span>>)
    ensures
        lines_view(r@) == deployment_section(*s),
{
    let mut r = no_lines();
    match &s.deployment {
        Some(d) => {
            match &d.url {
                Some(u) => {
                    push_line(&mut r, blank_line());
                    push_line(&mut r, heading_line("Deployment"));
                    push_line(&mut r, field_line("URL:", u.clone()));
                },
                None => {},
            }
            push_opt_field(&mut r, "Status:", &d.status);
        },
        None => {},
    }
    assert(lines_view(r@) =~~= deployment_section(*s));
    r
}

fn preview_lines_of(s: &AgentState) -> (r: Vec<Vec<Span>>)
    ensures
        lines_view(r@) == preview_section(*s),
{
    let mut r = no_lines();
    match &s.container_info {
        Some(c) => {
            if c.frontend_url.is_some() || c.backend_url.is_some() {
                push_line(&mut r, blank_line());
                push_line(&mut r, heading_line("Preview"));
                push_opt_field(&mut r, "Frontend:", &c.frontend_url);
                push_opt_field(&mut r, "Backend:", &c.backend_url);
                match c.is_healthy {
                    Some(h) => push_line(&mut r, field_line("Healthy:", yes_no_text(h))),
                    None => {},
                }
            }
        },
        None => {},
    }
    assert(lines_view(r@) =~~= preview_section(*s));
    r
}

fn github_lines_of(s: &AgentState) -> (r: Vec<Vec<Span>>)
    ensures
        lines_view(r@) == github_section(*s),
{
    let mut r = no_lines();
    if s.github_repo_created == Some(true) {
        match &s.github_repo_url {
            Some(u) => {
                push_line(&mut r, blank_line());
                push_line(&mut r, heading_line("GitHub"));
                push_line(&mut r, field_line("Repository:", u.clone()));
            },
            None => {},
        }
    }
    assert(lines_view(r@) =~~= github_section(*s));
    r
}

fn tests_lines_of(s: &AgentState) -> (r: Vec<Vec<Span>>)
    ensures
        lines_view(r@) == tests_section(*s),
{
    let mut r = no_lines();
    match s.tests_ran {
        Some(ran) => {
            if ran > 0 {
                push_line(&mut r, blank_line());
                push_line(&mut r, heading_line("Tests"));
                let mut l = blank_line();
                push_span(&mut l, span("  ", Tone::Plain));
                push_span(
                    &mut l,
                    Span { text: int_text(or_zero_of(s.tests_passed) as i128), tone: Tone::Green },
                );
                push_span(&mut l, span(" passed, ", Tone::Plain));
                push_span(
                    &mut l,
                    Span { text: int_text(or_zero_of(s.tests_failed) as i128), tone: Tone::Red },
                );
                push_span(&mut l, span(" failed (", Tone::Plain));
                push_span(&mut l, Span { text: int_text(ran as i128), tone: Tone::Plain });
                push_span(&mut l, span(" total)", Tone::Plain));
                push_line(&mut r, l);
            }
        },
        None => {},
    }
    assert(lines_view(r@) =~~= tests_section(*s));
    r
}

fn files_lines_of(s: &AgentState) -> (r: Vec<Vec<Span>>)
    ensures
        lines_view(r@) == files_section(*s),
{
    let mut r = no_lines();
    let n = s.files.len();
    if n > 0 {
        push_line(&mut r, blank_line());
        let mut l = blank_line();
        push_span(&mut l, span("Files:", Tone::Cyan));
        push_span(&mut l, span(" ", Tone::Plain));
        push_span(
            &mut l,
            Span { text: join(int_text(n as i128).as_str(), " files generated"), tone: Tone::Plain },
        );
        push_line(&mut r, l);
    }
    assert(lines_view(r@) =~~= files_section(*s));
    r
}

/// The label of a message's author, and its style.
pub fn kind_span(t: &String) -> (r: Span)
    ensures
        r@ == kind_label(t@),
{
    let k = MessageKind::parse(t);
    proof {
        reveal_strlit("user");
        reveal_strlit("assistant");
        reveal_strlit("system");
        reveal_strlit("tool");
        assert("user"@[0] == 'u' && "tool"@[0] == 't');
        assert("user"@.len() == 4 && "assistant"@.len() == 9 && "system"@.len() == 6
            && "tool"@.len() == 4);
    }
    match k {
        MessageKind::User => span("You", Tone::Blue),
        MessageKind::Assistant => span("AI", Tone::Green),
        MessageKind::System => span("System", Tone::Yellow),
        MessageKind::Tool => span("Tool", Tone::Magenta),
        MessageKind::Other(raw) => Span { text: raw, tone: Tone::Plain },
    }
}

fn recent_lines_of(s: &AgentState) -> (r: Vec<Vec<Span>>)
    ensures
        lines_view(r@) == recent_section(*s),
{
    let mut r = no_lines();
    let n = s.messages.len();
    if n == 0 {
        assert(lines_view(r@) =~~= recent_section(*s));
        return r;
    }
    push_line(&mut r, blank_line());
    push_line(&mut r, heading_line("Recent Messages"));
    let ghost head = lines_view(r@);
    let start: usize = if n > RECENT_COUNT {
        n - RECENT_COUNT
    } else {
        0
    };
    let ghost ms = s.messages@;
    assert(latest(ms) =~= ms.subrange(start as int, n as int));
    let mut i: usize = start;
    while i < n
        invariant
            start <= i <= n,
            n == ms.len(),
            ms == s.messages@,
            lines_view(r@) == head + messages_lines(ms.subrange(start as int, i as int)),
        decreases n - i,
    {
        let m = &s.messages[i];
        let ghost before = lines_view(r@);
        match &m.content {
            Some(c) => {
                let mut l = blank_line();
                push_span(&mut l, span("  ", Tone::Plain));
                push_span(&mut l, kind_span(&m.message_type));
                push_span(&mut l, span(" ", Tone::Plain));
                push_span(
                    &mut l,
                    Span { text: truncate_display(c.as_str(), RECENT_WIDTH), tone: Tone::Dimmed },
                );
                push_line(&mut r, l);
            },
            None => {},
        }
        proof {
            let sub = ms.subrange(start as int, i + 1);
            assert(sub.drop_last() =~= ms.subrange(start as int, i as int));
            assert(sub.last() == ms[i as int]);
            assert(lines_view(r@) =~~= head + messages_lines(sub));
        }
        i = i + 1;
    }
    assert(lines_view(r@) =~~= recent_section(*s));
    r
}

/// The report printed for a workflow's state.
pub fn agent_state_report(s: &AgentState) -> (r: Vec<Vec<Span>>)
    ensures
        lines_view(r@) == state_report(*s),
{
    let mut r = header_lines_of(s);
    push_lines(&mut r, progress_lines_of(s));
    push_lines(&mut r, app_lines_of(s));
    push_lines(&mut r, deployment_lines_of(s));
    push_lines(&mut r, preview_lines_of(s));
    push_lines(&mut r, github_lines_of(s));
    push_lines(&mut r, tests_lines_of(s));
    push_lines(&mut r, files_lines_of(s));
    push_lines(&mut r, recent_lines_of(s));
    r
}

} // verus!
