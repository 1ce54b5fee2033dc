use vstd::prelude::*;

use crate::model::{icon_for, phase_icon_of};
use crate::text::{
    decimal_text, int_text, join, truncate_display, truncated, upper_of, uppercase,
};
use crate::watch::{InfoLine, ShownMessage, text_of};

verus! {

/// How a piece of terminal text is styled.
#[derive(Clone, Copy, Debug, PartialEq, Eq, Structural)]
pub enum Tone {
    Plain,
    Bold,
    Dimmed,
    Cyan,
    CyanBold,
    Green,
    GreenBold,
    Red,
    RedBold,
    Yellow,
    Blue,
    Magenta,
}

/// A piece of a terminal line and its style.
#[derive(Clone, Debug)]
pub struct Span {
    pub text: String,
    pub tone: Tone,
}

impl View for Span {
    type V = (Seq<char>, Tone);

    open spec fn view(&self) -> (Seq<char>, Tone) {
        (self.text@, self.tone)
    }
}

/// A line as the texts and styles of its pieces.
pub open spec fn spans_view(l: Seq<Span>) -> Seq<(Seq<char>, Tone)> {
    l.map_values(|s: Span| s@)
}

/// Lines as the texts and styles of their pieces.
pub open spec fn lines_view(ls: Seq<Vec<Span>>) -> Seq<Seq<(Seq<char>, Tone)>> {
    ls.map_values(|l: Vec<Span>| spans_view(l@))
}

pub fn span(text: &str, tone: Tone) -> (r: Span)
    ensures
        r@ == (text@, tone),
{
    Span { text: String::from_str(text), tone }
}

pub fn push_span(l: &mut Vec<Span>, s: Span)
    ensures
        spans_view(final(l)@) == spans_view(old(l)@).push(s@),
{
    let ghost before = l@;
    l.push(s);
    assert(spans_view(l@) =~= spans_view(before).push(s@));
}

pub fn push_line(out: &mut Vec<Vec<Span>>, l: Vec<Span>)
    ensures
        lines_view(final(out)@) == lines_view(old(out)@).push(spans_view(l@)),
{
    let ghost before = out@;
    let ghost v = spans_view(l@);
    out.push(l);
    assert(lines_view(out@) =~= lines_view(before).push(v));
}

pub fn push_lines(out: &mut Vec<Vec<Span>>, more: Vec<Vec<Span>>)
    ensures
        lines_view(final(out)@) == lines_view(old(out)@) + lines_view(more@),
{
    let ghost before = out@;
    let ghost added = more@;
    let mut more = more;
    out.append(&mut more);
    assert(lines_view(out@) =~= lines_view(before) + lines_view(added));
}

pub fn no_lines() -> (r: Vec<Vec<Span>>)
    ensures
        lines_view(r@) == Seq::<Seq<(Seq<char>, Tone)>>::empty(),
{
    let r: Vec<Vec<Span>> = Vec::new();
    assert(lines_view(r@) =~= Seq::<Seq<(Seq<char>, Tone)>>::empty());
    r
}

pub fn line_of(a: Span) -> (r: Vec<Span>)
    ensures
        spans_view(r@) == seq![a@],
{
    let mut r: Vec<Span> = Vec::new();
    let ghost v = a@;
    r.push(a);
    assert(spans_view(r@) =~= seq![v]);
    r
}

pub fn blank_line() -> (r: Vec<Span>)
    ensures
        spans_view(r@) == Seq::<(Seq<char>, Tone)>::empty(),
{
    let r: Vec<Span> = Vec::new();
    assert(spans_view(r@) =~= Seq::<(Seq<char>, Tone)>::empty());
    r
}

/// The stage counter shown beside the progress bar.
pub open spec fn stage_text(current: i32, total: i32) -> Seq<char> {
    "Stage "@ + decimal_text(current as int) + seq!['/'] + decimal_text(total as int)
}

pub fn stage_label(current: i32, total: i32) -> (r: String)
    ensures
        r@ == stage_text(current, total),
{
    let a = int_text(current as i128);
    let b = int_text(total as i128);
    let s = join("Stage ", a.as_str());
    let s = join(s.as_str(), "/");
    proof {
        reveal_strlit("/");
    }
    join(s.as_str(), b.as_str())
}

/// Longest status text on the status line.
pub const STATUS_WIDTH: usize = 50;

/// The status line: the status shortened for display.
pub fn status_label(status: &String) -> (r: String)
    ensures
        r@ == truncated(status@, STATUS_WIDTH as nat),
{
    truncate_display(status.as_str(), STATUS_WIDTH)
}

/// The phase line: the phase's marker, then its name in capitals.
pub open spec fn phase_line_text(name: Seq<char>) -> Seq<char> {
    icon_for(name) + " Phase: "@ + upper_of(name)
}

pub fn phase_label(phase: &String) -> (r: Span)
    ensures
        r@ == (phase_line_text(phase@), Tone::Dimmed),
{
    let icon = phase_icon_of(phase);
    let upper = uppercase(phase.as_str());
    let s = join(icon, " Phase: ");
    Span { text: join(s.as_str(), upper.as_str()), tone: Tone::Dimmed }
}

/// The info line: the preview URL and the live URL, whichever are known.
pub open spec fn info_spans(preview: Option<Seq<char>>, live: Option<Seq<char>>) -> Seq<
    (Seq<char>, Tone),
> {
    let p = match preview {
        Some(u) => seq![("Preview: "@, Tone::Plain), (u, Tone::Cyan)],
        None => Seq::empty(),
    };
    let l = match live {
        Some(u) => seq![("Live: "@, Tone::Plain), (u, Tone::GreenBold)],
        None => Seq::empty(),
    };
    if p.len() > 0 && l.len() > 0 {
        p + seq![("  │  "@, Tone::Plain)] + l
    } else {
        p + l
    }
}

pub fn info_line(info: &InfoLine) -> (r: Vec<Span>)
    ensures
        spans_view(r@) == info_spans(text_of(info.preview), text_of(info.live)),
{
    let mut r = blank_line();
    match &info.preview {
        Some(u) => {
            push_span(&mut r, span("Preview: ", Tone::Plain));
            push_span(&mut r, Span { text: u.clone(), tone: Tone::Cyan });
        },
        None => {},
    }
    match &info.live {
        Some(u) => {
            if info.preview.is_some() {
                push_span(&mut r, span("  │  ", Tone::Plain));
            }
            push_span(&mut r, span("Live: ", Tone::Plain));
            push_span(&mut r, Span { text: u.clone(), tone: Tone::GreenBold });
        },
        None => {},
    }
    assert(spans_view(r@) =~= info_spans(text_of(info.preview), text_of(info.live)));
    r
}

/// A message of the live stream, as printed under the progress display.
pub open spec fn message_spans(text: Seq<char>) -> Seq<(Seq<char>, Tone)> {
    seq![("  "@, Tone::Plain), ("AI:"@, Tone::GreenBold), (" "@, Tone::Plain), (text, Tone::Dimmed)]
}

pub fn message_line(m: &ShownMessage) -> (r: Vec<Span>)
    ensures
        spans_view(r@) == message_spans(m.text@),
{
    let mut r = blank_line();
    push_span(&mut r, span("  ", Tone::Plain));
    push_span(&mut r, span("AI:", Tone::GreenBold));
    push_span(&mut r, span(" ", Tone::Plain));
    push_span(&mut r, Span { text: m.text.clone(), tone: Tone::Dimmed });
    assert(spans_view(r@) =~= message_spans(m.text@));
    r
}

/// Longest prompt text in the watch header.
pub const PROMPT_WIDTH: usize = 60;

/// The header printed when a watch starts: the app's name and, when there is
/// one, the prompt, shortened.
pub open spec fn header_lines(app_name: Seq<char>, prompt: Seq<char>) -> Seq<
    Seq<(Seq<char>, Tone)>,
> {
    let top = seq![Seq::empty(), seq![("  Building: "@ + app_name, Tone::CyanBold)]];
    let mid = if prompt.len() > 0 {
        seq![seq![("  "@, Tone::Plain), (truncated(prompt, PROMPT_WIDTH as nat), Tone::Dimmed)]]
    } else {
        Seq::empty()
    };
    top + mid + seq![Seq::empty()]
}

pub fn watch_header(app_name: &str, prompt: &str) -> (r: Vec<Vec<Span>>)
    ensures
        lines_view(r@) == header_lines(app_name@, prompt@),
{
    let mut r = no_lines();
    push_line(&mut r, blank_line());
    push_line(&mut r, line_of(Span { text: join("  Building: ", app_name), tone: Tone::CyanBold }));
    if !prompt.is_empty() {
        let mut l = blank_line();
        push_span(&mut l, span("  ", Tone::Plain));
        push_span(&mut l, Span { text: truncate_display(prompt, PROMPT_WIDTH), tone: Tone::Dimmed });
        push_line(&mut r, l);
    }
    push_line(&mut r, blank_line());
    assert(lines_view(r@) =~~= header_lines(app_name@, prompt@));
    r
}

/// `n` spaces.
pub fn spaces(n: usize) -> (r: String)
    ensures
        r@ == Seq::new(n as nat, |i: int| ' '),
{
    let mut r = String::new();
    let mut i: usize = 0;
    while i < n
        invariant
            i <= n,
            r@ == Seq::new(i as nat, |k: int| ' '),
        decreases n - i,
    {
        r.append(" ");
        proof {
            reveal_strlit(" ");
        }
        assert(r@ =~= Seq::new((i + 1) as nat, |k: int| ' '));
        i = i + 1;
    }
    r
}

/// A titled panel of labelled values, printed as a table under its header.
#[derive(Clone, Debug)]
pub struct Panel {
    pub header: Vec<Span>,
    pub rows: Vec<(String, String)>,
}

pub open spec fn rows_view(v: Seq<(String, String)>) -> Seq<(Seq<char>, Seq<char>)> {
    v.map_values(|p: (String, String)| (p.0@, p.1@))
}

pub open spec fn details_view(d: Seq<(&str, &str)>) -> Seq<(Seq<char>, Seq<char>)> {
    d.map_values(|p: (&str, &str)| (p.0@, p.1@))
}

fn owned_rows(details: &[(&str, &str)]) -> (r: Vec<(String, String)>)
    ensures
        rows_view(r@) == details_view(details@),
{
    let mut r: Vec<(String, String)> = Vec::new();
    let mut i: usize = 0;
    while i < details.len()
        invariant
            i <= details@.len(),
            rows_view(r@) == details_view(details@).subrange(0, i as int),
        decreases details@.len() - i,
    {
        let (k, v) = details[i];
        assert(k == details@[i as int].0 && v == details@[i as int].1);
        let ghost prev = r@;
        r.push((String::from_str(k), String::from_str(v)));
        assert(rows_view(r@) =~= rows_view(prev).push((k@, v@)));
        assert(rows_view(r@) =~= details_view(details@).subrange(0, i + 1));
        i = i + 1;
    }
    assert(details_view(details@).subrange(0, details@.len() as int) =~= details_view(details@));
    r
}

/// The header of a success panel: a check mark and the title.
pub open spec fn success_header(title: Seq<char>) -> Seq<(Seq<char>, Tone)> {
    seq![("✓"@, Tone::Green), (" "@, Tone::Plain), (title, Tone::GreenBold)]
}

/// A panel announcing that something succeeded, with its details.
pub fn print_success(title: &str, details: &[(&str, &str)]) -> (r: Panel)
    ensures
        spans_view(r.header@) == success_header(title@),
        rows_view(r.rows@) == details_view(details@),
{
    let mut header = blank_line();
    push_span(&mut header, span("✓", Tone::Green));
    push_span(&mut header, span(" ", Tone::Plain));
    push_span(&mut header, span(title, Tone::GreenBold));
    assert(spans_view(header@) =~= success_header(title@));
    Panel { header, rows: owned_rows(details) }
}

/// A panel presenting a thing's details under its title.
pub fn print_detail(title: &str, details: &[(&str, &str)]) -> (r: Panel)
    ensures
        spans_view(r.header@) == seq![(title@, Tone::Bold)],
        rows_view(r.rows@) == details_view(details@),
{
    Panel { header: line_of(span(title, Tone::Bold)), rows: owned_rows(details) }
}

} // verus!
