use std::collections::HashMap;
use vstd::prelude::*;
use vstd::std_specs::hash::spec_hash_map_len;

use crate::ids::{uuid_string, uuid_text};
use crate::model::AgentState;
use crate::render::{
    Span, Tone, blank_line, lines_view, no_lines, push_line, push_lines, push_span, spaces, span,
    spans_view,
};
use crate::text::{decimal_text, int_text, join};
use crate::watch::{Outcome, Watch, text_of};

verus! {

pub const BOX_TOP: &'static str = "╔══════════════════════════════════════════════════════════╗";

pub const BOX_ROW: &'static str = "║                                                          ║";

pub const BOX_BOTTOM: &'static str = "╚══════════════════════════════════════════════════════════╝";

pub const BOX_SIDE: &'static str = "║";

pub const LIVE_TITLE: &'static str = "🎉 Your app is live!                                    ";

pub const ITERATE_HINT: &'static str = "Run 'quome agent prompt <thread-id> \"your changes\"' to iterate.";

/// Width the URL row of the success box is padded to.
pub const BOX_URL_WIDTH: usize = 56;

pub open spec fn pairs_view(v: Seq<(String, String)>) -> Seq<(Seq<char>, Seq<char>)> {
    v.map_values(|p: (String, String)| (p.0@, p.1@))
}

/// The app's name, if the agent named it.
pub open spec fn app_name_of(s: AgentState) -> Option<Seq<char>> {
    match s.app_context {
        Some(c) => text_of(c.name),
        None => None,
    }
}

/// The repository URL, when the workflow created one.
pub open spec fn github_of(s: AgentState) -> Option<Seq<char>> {
    if s.github_repo_created == Some(true) {
        text_of(s.github_repo_url)
    } else {
        None
    }
}

/// The test counts, when any tests ran: passed and failed, absent ones as 0.
pub open spec fn tests_text(s: AgentState) -> Option<Seq<char>> {
    match s.tests_ran {
        Some(r) => if r > 0 {
            Some(
                decimal_text(
                    match s.tests_passed {
                        Some(p) => p as int,
                        None => 0,
                    },
                ) + " passed, "@ + decimal_text(
                    match s.tests_failed {
                        Some(f) => f as int,
                        None => 0,
                    },
                ) + " failed"@,
            )
        } else {
            None
        },
        None => None,
    }
}

pub open spec fn files_text(n: usize) -> Seq<char> {
    decimal_text(n as int) + " files generated"@
}

pub open spec fn opt_pair(label: Seq<char>, value: Option<Seq<char>>) -> Seq<(Seq<char>, Seq<char>)> {
    match value {
        Some(v) => seq![(label, v)],
        None => Seq::empty(),
    }
}

/// What the success summary lists about the finished app: its name, its
/// id, its repository, how many files were generated and how the tests went,
/// each only when known.
pub open spec fn success_details(s: AgentState) -> Seq<(Seq<char>, Seq<char>)> {
    opt_pair("App Name"@, app_name_of(s)) + opt_pair(
        "App ID"@,
        match s.app_uuid {
            Some(id) => Some(uuid_text(id)),
            None => None,
        },
    ) + opt_pair("GitHub"@, github_of(s)) + opt_pair(
        "Files"@,
        if spec_hash_map_len(&s.files) > 0 {
            Some(files_text(spec_hash_map_len(&s.files)))
        } else {
            None
        },
    ) + opt_pair("Tests"@, tests_text(s))
}

fn push_pair(v: &mut Vec<(String, String)>, label: &str, value: String)
    ensures
        pairs_view(final(v)@) == pairs_view(old(v)@).push((label@, value@)),
{
    let ghost before = v@;
    let ghost w = value@;
    v.push((String::from_str(label), value));
    assert(pairs_view(v@) =~= pairs_view(before).push((label@, w)));
}

fn files_count(files: &HashMap<String, String>) -> (r: usize)
    ensures
        r == spec_hash_map_len(files),
{
    files.len()
}

/// The details listed under the success box.
pub fn summary_details(s: &AgentState) -> (r: Vec<(String, String)>)
    ensures
        pairs_view(r@) == success_details(*s),
{
    let mut r: Vec<(String, String)> = Vec::new();
    assert(pairs_view(r@) =~= Seq::<(Seq<char>, Seq<char>)>::empty());
    match &s.app_context {
        Some(c) => match &c.name {
            Some(n) => push_pair(&mut r, "App Name", n.clone()),
            None => {},
        },
        None => {},
    }
    match s.app_uuid {
        Some(id) => push_pair(&mut r, "App ID", uuid_string(id)),
        None => {},
    }
    if s.github_repo_created == Some(true) {
        match &s.github_repo_url {
            Some(u) => push_pair(&mut r, "GitHub", u.clone()),
            None => {},
        }
    }
    let n = files_count(&s.files);
    if n > 0 {
        let count = int_text(n as i128);
        push_pair(&mut r, "Files", join(count.as_str(), " files generated"));
    }
    match s.tests_ran {
        Some(ran) => {
            if ran > 0 {
                let passed = match s.tests_passed {
                    Some(p) => p,
                    None => 0,
                };
                let failed = match s.tests_failed {
                    Some(f) => f,
                    None => 0,
                };
                let t = join(int_text(passed as i128).as_str(), " passed, ");
                let t = join(t.as_str(), int_text(failed as i128).as_str());
                push_pair(&mut r, "Tests", join(t.as_str(), " failed"));
            }
        },
        None => {},
    }
    assert(pairs_view(r@) =~= success_details(*s));
    r
}

/// One detail under the success box.
pub open spec fn detail_spans(p: (Seq<char>, Seq<char>)) -> Seq<(Seq<char>, Tone)> {
    seq![("  "@, Tone::Plain), (p.0 + ":"@, Tone::Dimmed), (" "@, Tone::Plain), (p.1, Tone::Plain)]
}

/// The text of the URL row of the success box, and the spaces that pad it.
pub open spec fn url_display(url: Seq<char>) -> Seq<char> {
    "   "@ + url
}

pub open spec fn url_padding(url: Seq<char>) -> nat {
    if url_display(url).len() < BOX_URL_WIDTH {
        (BOX_URL_WIDTH - url_display(url).len()) as nat
    } else {
        0
    }
}

pub open spec fn boxed(text: Seq<char>) -> Seq<(Seq<char>, Tone)> {
    seq![("  "@, Tone::Plain), (text, Tone::Green)]
}

pub open spec fn url_rows(url: Option<Seq<char>>) -> Seq<Seq<(Seq<char>, Tone)>> {
    match url {
        Some(u) => seq![
            seq![
                ("  "@, Tone::Plain),
                (BOX_SIDE@, Tone::Green),
                ("  "@, Tone::Plain),
                (url_display(u), Tone::CyanBold),
                (Seq::new(url_padding(u), |i: int| ' '), Tone::Plain),
                (BOX_SIDE@, Tone::Green),
            ],
        ],
        None => Seq::empty(),
    }
}

/// The success summary: a box announcing the app with its URL, the
/// details, and a hint on how to iterate.
pub open spec fn success_lines(s: AgentState, url: Option<Seq<char>>) -> Seq<
    Seq<(Seq<char>, Tone)>,
> {
    seq![
        boxed(BOX_TOP@),
        boxed(BOX_ROW@),
        seq![
            ("  "@, Tone::Plain),
            (BOX_SIDE@, Tone::Green),
            ("  "@, Tone::Plain),
            (LIVE_TITLE@, Tone::Bold),
            ("  "@, Tone::Plain),
            (BOX_SIDE@, Tone::Green),
        ],
        boxed(BOX_ROW@),
    ] + url_rows(url) + seq![boxed(BOX_ROW@), boxed(BOX_BOTTOM@), Seq::empty()]
        + success_details(s).map_values(|p: (Seq<char>, Seq<char>)| detail_spans(p)) + seq![
        Seq::empty(),
        seq![("  "@, Tone::Plain), (ITERATE_HINT@, Tone::Dimmed)],
    ]
}

/// The failure summary: a failure mark and the last status text known.
pub open spec fn failure_lines(status: Option<Seq<char>>) -> Seq<Seq<(Seq<char>, Tone)>> {
    seq![
        seq![
            ("  "@, Tone::Plain),
            ("✗"@, Tone::RedBold),
            (" "@, Tone::Plain),
            ("Build failed"@, Tone::RedBold),
        ],
    ] + match status {
        Some(t) => seq![seq![("  "@, Tone::Plain), (t, Tone::Dimmed)]],
        None => Seq::empty(),
    }
}

fn boxed_line(text: &str) -> (r: Vec<Span>)
    ensures
        spans_view(r@) == boxed(text@),
{
    let mut l = blank_line();
    push_span(&mut l, span("  ", Tone::Plain));
    push_span(&mut l, span(text, Tone::Green));
    assert(spans_view(l@) =~= boxed(text@));
    l
}

fn detail_lines(details: &Vec<(String, String)>) -> (r: Vec<Vec<Span>>)
    ensures
        lines_view(r@) == pairs_view(details@).map_values(
            |p: (Seq<char>, Seq<char>)| detail_spans(p),
        ),
{
    let mut r = no_lines();
    let mut i: usize = 0;
    while i < details.len()
        invariant
            i <= details@.len(),
            lines_view(r@) == pairs_view(details@).subrange(0, i as int).map_values(
                |p: (Seq<char>, Seq<char>)| detail_spans(p),
            ),
        decreases details@.len() - i,
    {
        let mut l = blank_line();
        push_span(&mut l, span("  ", Tone::Plain));
        push_span(&mut l, Span { text: join(details[i].0.as_str(), ":"), tone: Tone::Dimmed });
        push_span(&mut l, span(" ", Tone::Plain));
        push_span(&mut l, Span { text: details[i].1.clone(), tone: Tone::Plain });
        let ghost lv = spans_view(l@);
        assert(lv =~= detail_spans(pairs_view(details@)[i as int]));
        push_line(&mut r, l);
        assert(pairs_view(details@).subrange(0, i + 1) =~= pairs_view(details@).subrange(
            0,
            i as int,
        ).push(pairs_view(details@)[i as int]));
        assert(lines_view(r@) =~= pairs_view(details@).subrange(0, i + 1).map_values(
            |p: (Seq<char>, Seq<char>)| detail_spans(p),
        ));
        i = i + 1;
    }
    assert(pairs_view(details@).subrange(0, details@.len() as int) =~= pairs_view(details@));
    r
}

/// The success summary for the final snapshot `s`, showing `url` as the
/// app's address when there is one.
pub fn print_deployment_success(s: &AgentState, url: &Option<String>) -> (r: Vec<Vec<Span>>)
    ensures
        lines_view(r@) == success_lines(*s, text_of(*url)),
{
    let mut r = no_lines();
    push_line(&mut r, boxed_line(BOX_TOP));
    push_line(&mut r, boxed_line(BOX_ROW));
    let mut title = blank_line();
    push_span(&mut title, span("  ", Tone::Plain));
    push_span(&mut title, span(BOX_SIDE, Tone::Green));
    push_span(&mut title, span("  ", Tone::Plain));
    push_span(&mut title, span(LIVE_TITLE, Tone::Bold));
    push_span(&mut title, span("  ", Tone::Plain));
    push_span(&mut title, span(BOX_SIDE, Tone::Green));
    push_line(&mut r, title);
    push_line(&mut r, boxed_line(BOX_ROW));
    let ghost head = lines_view(r@);
    match url {
        Some(u) => {
            let shown = join("   ", u.as_str());
            let len = shown.as_str().unicode_len();
            let pad: usize = if len < BOX_URL_WIDTH {
                BOX_URL_WIDTH - len
            } else {
                0
            };
            let mut row = blank_line();
            push_span(&mut row, span("  ", Tone::Plain));
            push_span(&mut row, span(BOX_SIDE, Tone::Green));
            push_span(&mut row, span("  ", Tone::Plain));
            push_span(&mut row, Span { text: shown, tone: Tone::CyanBold });
            push_span(&mut row, Span { text: spaces(pad), tone: Tone::Plain });
            push_span(&mut row, span(BOX_SIDE, Tone::Green));
            push_line(&mut r, row);
        },
        None => {},
    }
    let ghost with_url = lines_view(r@);
    assert(with_url =~~= head + url_rows(text_of(*url)));
    push_line(&mut r, boxed_line(BOX_ROW));
    push_line(&mut r, boxed_line(BOX_BOTTOM));
    push_line(&mut r, blank_line());
    let details = summary_details(s);
    push_lines(&mut r, detail_lines(&details));
    push_line(&mut r, blank_line());
    let mut hint = blank_line();
    push_span(&mut hint, span("  ", Tone::Plain));
    push_span(&mut hint, span(ITERATE_HINT, Tone::Dimmed));
    push_line(&mut r, hint);
    assert(lines_view(r@) =~~= success_lines(*s, text_of(*url)));
    r
}

/// What is printed once the watch is over: a blank line, then the failure
/// summary with the last status seen, or the success summary with the last
/// deployment URL seen.
pub fn final_report(w: &Watch, last: &AgentState) -> (r: Vec<Vec<Span>>)
    requires
        w.outcome is Some,
    ensures
        lines_view(r@) == seq![Seq::<(Seq<char>, Tone)>::empty()] + if w.outcome == Some(
            Outcome::Failed,
        ) {
            failure_lines(text_of(w.status))
        } else {
            success_lines(*last, text_of(w.deployment_url))
        },
{
    let mut r = no_lines();
    push_line(&mut r, blank_line());
    if w.outcome == Some(Outcome::Failed) {
        let mut l = blank_line();
        push_span(&mut l, span("  ", Tone::Plain));
        push_span(&mut l, span("✗", Tone::RedBold));
        push_span(&mut l, span(" ", Tone::Plain));
        push_span(&mut l, span("Build failed", Tone::RedBold));
        push_line(&mut r, l);
        match &w.status {
            Some(t) => {
                let mut l2 = blank_line();
                push_span(&mut l2, span("  ", Tone::Plain));
                push_span(&mut l2, Span { text: t.clone(), tone: Tone::Dimmed });
                push_line(&mut r, l2);
            },
            None => {},
        }
        assert(lines_view(r@) =~~= seq![Seq::<(Seq<char>, Tone)>::empty()] + failure_lines(
            text_of(w.status),
        ));
    } else {
        push_lines(&mut r, print_deployment_success(last, &w.deployment_url));
        assert(lines_view(r@) =~= seq![Seq::<(Seq<char>, Tone)>::empty()] + success_lines(
            *last,
            text_of(w.deployment_url),
        ));
    }
    r
}

} // verus!
