use std::collections::HashMap;

use quome::error::QuomeError;
use quome::model::{AgentDeploymentInfo, AgentMessage, AgentState, ProgressInfo};
use quome::render::{Span, Tone};
use quome::run::watch_polls;
use quome::summary::final_report;
use quome::watch::{Outcome, Watch};
use quome::workflow::started_panel;
use quome::model::StartAgentResponse;

const THREAD: u128 = 0x67e5_5044_10b1_426f_9247_bb68_0e5f_e0c8;

fn snapshot(working: bool, phase: Option<&str>) -> AgentState {
    AgentState {
        thread_id: THREAD,
        is_working: working,
        status: None,
        phase: phase.map(|p| p.to_string()),
        app_uuid: None,
        app_domain_name: None,
        app_context: None,
        messages: Vec::new(),
        files: HashMap::new(),
        container_info: None,
        deployment: None,
        progress: None,
        plan: None,
        brand_kit: None,
        github_repo_url: None,
        github_repo_name: None,
        github_repo_created: None,
        tests_passed: None,
        tests_failed: None,
        tests_ran: None,
    }
}

fn message(kind: &str, content: Option<&str>) -> AgentMessage {
    AgentMessage {
        message_type: kind.to_string(),
        content: content.map(|c| c.to_string()),
        timestamp: None,
    }
}

fn deployment(url: &str, status: &str) -> AgentDeploymentInfo {
    AgentDeploymentInfo {
        url: Some(url.to_string()),
        status: Some(status.to_string()),
        files_path: None,
        port: None,
    }
}

fn progress(percentage: Option<u64>) -> ProgressInfo {
    ProgressInfo { percentage, current_stage: Some(2), total_stages: Some(5) }
}

fn texts(line: &[Span]) -> Vec<String> {
    line.iter().map(|s| s.text.clone()).collect()
}

#[test]
fn scenario_start_then_complete() {
    let started = StartAgentResponse {
        thread_id: THREAD,
        status: "accepted".to_string(),
        message: "ok".to_string(),
    };
    let panel = started_panel(&started);
    let rows: Vec<(String, String)> = panel.rows.clone();
    assert_eq!(rows[0], ("Thread ID".to_string(), "67e55044-10b1-426f-9247-bb680e5fe0c8".to_string()));
    assert_eq!(rows[1], ("Status".to_string(), "accepted".to_string()));
    assert_eq!(rows[2], ("Message".to_string(), "ok".to_string()));

    let first = snapshot(true, Some("building"));
    let mut second = snapshot(false, Some("complete"));
    second.messages.push(message("assistant", Some("done")));
    second.deployment = Some(deployment("https://x.test", "deployed"));

    let mut w = Watch::new();
    assert!(w.on_snapshot(&first).is_empty());
    assert!(!w.is_done());
    let shown = w.on_snapshot(&second);
    assert_eq!(shown.len(), 1);
    assert_eq!(shown[0].index, 0);
    assert_eq!(shown[0].text, "done");
    assert_eq!(w.outcome, Some(Outcome::Success));

    let run = watch_polls(&vec![Ok(first), Ok(second.clone())]);
    assert_eq!(run.shown, vec![0]);
    assert_eq!(run.polls_used, 2);
    assert!(!run.failed);
    assert_eq!(run.watch.outcome, Some(Outcome::Success));

    let report = final_report(&run.watch, &second);
    let url_row = report
        .iter()
        .find(|l| l.iter().any(|s| s.text == "   https://x.test"))
        .expect("the summary shows the URL");
    assert_eq!(url_row[3].tone, Tone::CyanBold);
    assert_eq!(url_row[4].text.len(), 56 - "   https://x.test".len());
}

#[test]
fn scenario_failed_build_reports_status() {
    let mut s = snapshot(false, Some("failed"));
    s.status = Some("build error: syntax".to_string());
    let run = watch_polls(&vec![Ok(s.clone())]);
    assert_eq!(run.watch.outcome, Some(Outcome::Failed));
    let report = final_report(&run.watch, &s);
    assert_eq!(report.len(), 3);
    assert!(report[0].is_empty());
    assert_eq!(texts(&report[1]), vec!["  ", "✗", " ", "Build failed"]);
    assert_eq!(texts(&report[2]), vec!["  ", "build error: syntax"]);
    assert_eq!(report[2][1].tone, Tone::Dimmed);
}

#[test]
fn scenario_log_without_growth_shown_once() {
    let mut s = snapshot(true, Some("building"));
    s.messages.push(message("assistant", Some("one")));
    s.messages.push(message("assistant", Some("two")));
    s.messages.push(message("assistant", Some("three")));
    let mut w = Watch::new();
    let first: Vec<usize> = w.on_snapshot(&s).iter().map(|m| m.index).collect();
    assert_eq!(first, vec![0, 1, 2]);
    assert!(w.on_snapshot(&s).is_empty());
    let run = watch_polls(&vec![Ok(s.clone()), Ok(s)]);
    assert_eq!(run.shown, vec![0, 1, 2]);
    assert_eq!(run.polls_used, 2);
}

#[test]
fn scenario_fetch_error_ends_watch() {
    let working = snapshot(true, Some("building"));
    let mut done = snapshot(false, Some("complete"));
    done.deployment = Some(deployment("https://x.test", "deployed"));
    let polls = vec![
        Ok(working),
        Err(QuomeError::Http("connection reset".to_string())),
        Ok(done),
    ];
    let run = watch_polls(&polls);
    assert!(run.failed);
    assert_eq!(run.polls_used, 2);
    assert_eq!(run.watch.outcome, None);
    match &polls[run.polls_used - 1] {
        Err(e) => assert_eq!(e.message(), "connection reset"),
        Ok(_) => panic!("the watch ended on a snapshot"),
    }
}

#[test]
fn scenario_live_deployment_ends_working_workflow() {
    let mut s = snapshot(true, Some("deploying"));
    s.deployment = Some(deployment("https://x.test", "deployed"));
    s.progress = Some(progress(Some(80)));
    let later = snapshot(true, Some("deploying"));
    let run = watch_polls(&vec![Ok(s), Ok(later)]);
    assert_eq!(run.polls_used, 1);
    assert_eq!(run.watch.outcome, Some(Outcome::Success));
    assert_eq!(run.watch.percent, 100);
    assert_eq!(run.watch.deployment_url.as_deref(), Some("https://x.test"));
}

#[test]
fn growing_log_shows_each_message_once() {
    let mut a = snapshot(true, Some("planning"));
    a.messages.push(message("assistant", Some("plan ready")));
    let b = a.clone();
    let mut c = b.clone();
    c.messages.push(message("user", Some("make it blue")));
    c.messages.push(message("assistant", Some("on it")));
    let mut d = c.clone();
    d.messages.push(message("assistant", Some("")));
    d.messages.push(message("assistant", Some("blue now")));
    let run = watch_polls(&vec![Ok(a), Ok(b), Ok(c), Ok(d)]);
    assert_eq!(run.shown, vec![0, 2, 4]);
    assert_eq!(run.watch.rendered, 5);
}

#[test]
fn final_snapshot_again_keeps_outcome() {
    let mut s = snapshot(false, Some("failed"));
    s.messages.push(message("assistant", Some("giving up")));
    let mut w = Watch::new();
    assert_eq!(w.on_snapshot(&s).len(), 1);
    assert_eq!(w.outcome, Some(Outcome::Failed));
    assert!(w.on_snapshot(&s).is_empty());
    assert_eq!(w.outcome, Some(Outcome::Failed));
}

#[test]
fn missing_progress_keeps_percentage() {
    let mut a = snapshot(true, Some("building"));
    a.progress = Some(progress(Some(50)));
    let b = snapshot(true, Some("building"));
    let mut c = snapshot(true, Some("testing"));
    c.progress = Some(progress(None));
    let mut w = Watch::new();
    w.on_snapshot(&a);
    assert_eq!(w.percent, 50);
    assert_eq!(w.stage, Some((2, 5)));
    w.on_snapshot(&b);
    assert_eq!(w.percent, 50);
    w.on_snapshot(&c);
    assert_eq!(w.percent, 50);
    assert_eq!(w.phase.as_deref(), Some("testing"));
}

#[test]
fn long_message_is_shortened() {
    let long = "x".repeat(80);
    let mut s = snapshot(true, None);
    s.messages.push(message("assistant", Some(&long)));
    s.messages.push(message("assistant", None));
    s.messages.push(message("system", Some("internal")));
    let mut w = Watch::new();
    let shown = w.on_snapshot(&s);
    assert_eq!(shown.len(), 1);
    assert_eq!(shown[0].text, format!("{}...", "x".repeat(70)));
    assert_eq!(w.rendered, 3);
}

#[test]
fn shrinking_log_shows_nothing_new() {
    let mut a = snapshot(true, None);
    a.messages.push(message("assistant", Some("a")));
    a.messages.push(message("assistant", Some("b")));
    let mut b = snapshot(true, None);
    b.messages.push(message("assistant", Some("a")));
    let mut w = Watch::new();
    assert_eq!(w.on_snapshot(&a).len(), 2);
    assert!(w.on_snapshot(&b).is_empty());
    assert_eq!(w.rendered, 2);
}

#[test]
fn terminal_phase_while_working_goes_on() {
    let s = snapshot(true, Some("complete"));
    let mut w = Watch::new();
    w.on_snapshot(&s);
    assert_eq!(w.outcome, None);
    let stopped = snapshot(false, Some("building"));
    w.on_snapshot(&stopped);
    assert_eq!(w.outcome, None);
    let done = snapshot(false, Some("deployed"));
    w.on_snapshot(&done);
    assert_eq!(w.outcome, Some(Outcome::Success));
}

#[test]
fn live_deployment_overrides_failed_phase() {
    let mut s = snapshot(false, Some("failed"));
    s.deployment = Some(deployment("https://y.test", "deployed"));
    let mut w = Watch::new();
    w.on_snapshot(&s);
    assert_eq!(w.outcome, Some(Outcome::Success));
}

#[test]
fn last_deployment_url_is_kept() {
    let mut a = snapshot(true, None);
    a.deployment = Some(deployment("https://first.test", "pending"));
    let mut b = snapshot(false, Some("complete"));
    b.deployment = Some(AgentDeploymentInfo { url: None, status: None, files_path: None, port: None });
    let run = watch_polls(&vec![Ok(a), Ok(b.clone())]);
    assert_eq!(run.watch.outcome, Some(Outcome::Success));
    assert_eq!(run.watch.deployment_url.as_deref(), Some("https://first.test"));
    let report = final_report(&run.watch, &b);
    assert!(report.iter().any(|l| l.iter().any(|s| s.text == "   https://first.test")));
}

#[test]
fn empty_poll_series_uses_nothing() {
    let run = watch_polls(&Vec::new());
    assert_eq!(run.polls_used, 0);
    assert!(!run.failed);
    assert!(run.shown.is_empty());
    assert_eq!(run.watch.outcome, None);
}
