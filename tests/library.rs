use std::collections::HashMap;

use quome::config::{
    Config, LinkedContext, UserConfig, get_linked_app_id, get_linked_org_id, require_linked_app,
    require_linked_org,
};
use quome::error::{QuomeError, check_status};
use quome::model::{
    AgentMessage, AgentState, AppContext, ContainerInfo, MessageKind, Phase, ProgressInfo,
};
use quome::render::{info_line, phase_label, print_detail, print_success, stage_label, status_label, watch_header, Span, Tone};
use quome::report::agent_state_report;
use quome::resources::{
    ComputeRequested, DatabaseState, DeploymentStatus, LogLevel, compute_needs_current,
    compute_update, find_by_name,
};
use quome::settings::Settings;
use quome::summary::summary_details;
use quome::text::truncate_display;
use quome::watch::InfoLine;
use quome::workflow::{
    StartArgs, ThreadAction, app_name_or_default, reply_report, start_path, thread_path,
    watch_title,
};

const THREAD: u128 = 0x67e5_5044_10b1_426f_9247_bb68_0e5f_e0c8;

fn bare_state() -> AgentState {
    AgentState {
        thread_id: THREAD,
        is_working: false,
        status: None,
        phase: None,
        app_uuid: None,
        app_domain_name: None,
        app_context: None,
        messages: Vec::new(),
        files: HashMap::new(),
        container_info: None,
        deployment: None,
        progress: None,
        plan: None,
        brand_kit: None,
        github_repo_url: None,
        github_repo_name: None,
        github_repo_created: None,
        tests_passed: None,
        tests_failed: None,
        tests_ran: None,
    }
}

fn texts(line: &[Span]) -> Vec<String> {
    line.iter().map(|s| s.text.clone()).collect()
}

fn start_args() -> StartArgs {
    StartArgs {
        prompt: "a todo app".to_string(),
        name: None,
        github: true,
        parallel: false,
        accessibility: "AA".to_string(),
        backend: None,
        backend_lang: None,
        frontend: None,
        frontend_lang: None,
        database: None,
        primary_color: None,
        secondary_color: None,
        no_watch: false,
        json: false,
    }
}

#[test]
fn success_statuses_pass() {
    assert!(check_status(200, None).is_ok());
    assert!(check_status(204, Some("ignored".to_string())).is_ok());
    assert!(check_status(299, None).is_ok());
}

#[test]
fn unauthorized_and_rate_limited() {
    assert!(matches!(check_status(401, Some("x".to_string())), Err(QuomeError::Unauthorized)));
    assert!(matches!(check_status(429, None), Err(QuomeError::RateLimited)));
}

#[test]
fn not_found_message() {
    match check_status(404, None) {
        Err(QuomeError::NotFound(m)) => assert_eq!(m, "Resource not found"),
        _ => panic!("expected NotFound"),
    }
    match check_status(404, Some("no such thread".to_string())) {
        Err(e) => assert_eq!(e.message(), "Not found: no such thread"),
        _ => panic!("expected NotFound"),
    }
}

#[test]
fn other_status_names_the_code() {
    match check_status(500, None) {
        Err(QuomeError::ApiError(m)) => {
            assert_eq!(m, "Request failed with status 500 Internal Server Error")
        },
        _ => panic!("expected ApiError"),
    }
    match check_status(302, Some("moved".to_string())) {
        Err(e) => assert_eq!(e.message(), "API error: moved"),
        _ => panic!("expected ApiError"),
    }
}

#[test]
fn error_messages() {
    assert_eq!(QuomeError::NotLoggedIn.message(), "Not logged in. Run `quome login` first.");
    assert_eq!(
        QuomeError::Unauthorized.message(),
        "Unauthorized. Your session may have expired. Run `quome login`."
    );
    assert_eq!(QuomeError::RateLimited.message(), "Rate limited. Please wait and try again.");
    assert_eq!(QuomeError::Json("bad json".to_string()).message(), "bad json");
    assert_eq!(QuomeError::Io("disk full".to_string()).message(), "disk full");
    assert_eq!(QuomeError::InvalidResponse.message(), "Invalid response from server");
    assert_eq!(
        QuomeError::NoLinkedOrg.message(),
        "No linked organization. Run `quome link` to connect."
    );
    assert_eq!(
        QuomeError::NoLinkedApp.message(),
        "No linked application. Run `quome link` to connect."
    );
}

#[test]
fn truncation_keeps_short_text() {
    assert_eq!(truncate_display("abcdef", 3), "abc...");
    assert_eq!(truncate_display("abc", 3), "abc");
    assert_eq!(truncate_display("", 0), "");
    assert_eq!(truncate_display("héllo wörld", 5), "héllo...");
}

#[test]
fn display_lines_of_the_watch() {
    assert_eq!(stage_label(2, 5), "Stage 2/5");
    assert_eq!(stage_label(-1, 10), "Stage -1/10");
    let status = "s".repeat(60);
    assert_eq!(status_label(&status), format!("{}...", "s".repeat(50)));
    let p = phase_label(&"building".to_string());
    assert_eq!(p.text, "🔨 Phase: BUILDING");
    assert_eq!(p.tone, Tone::Dimmed);
    assert_eq!(phase_label(&"complete".to_string()).text, "✅ Phase: COMPLETE");
    assert_eq!(phase_label(&"reviewing".to_string()).text, "⚡ Phase: REVIEWING");
}

#[test]
fn phase_and_message_kinds() {
    assert!(matches!(Phase::parse(&"failed".to_string()), Phase::Failed));
    assert!(matches!(Phase::parse(&"Failed".to_string()), Phase::Other(ref s) if s == "Failed"));
    assert!(matches!(MessageKind::parse(&"tool".to_string()), MessageKind::Tool));
    assert!(matches!(MessageKind::parse(&"critic".to_string()), MessageKind::Other(_)));
}

#[test]
fn info_line_joins_urls() {
    let both = InfoLine {
        preview: Some("https://p.test".to_string()),
        live: Some("https://l.test".to_string()),
    };
    assert_eq!(
        texts(&info_line(&both)),
        vec!["Preview: ", "https://p.test", "  │  ", "Live: ", "https://l.test"]
    );
    let live = InfoLine { preview: None, live: Some("https://l.test".to_string()) };
    let l = info_line(&live);
    assert_eq!(texts(&l), vec!["Live: ", "https://l.test"]);
    assert_eq!(l[1].tone, Tone::GreenBold);
}

#[test]
fn header_shortens_prompt() {
    let prompt = "p".repeat(61);
    let h = watch_header("todo", &prompt);
    assert_eq!(h.len(), 4);
    assert_eq!(texts(&h[1]), vec!["  Building: todo"]);
    assert_eq!(texts(&h[2]), vec!["  ".to_string(), format!("{}...", "p".repeat(60))]);
    assert_eq!(watch_header("todo", "").len(), 3);
}

#[test]
fn endpoint_paths() {
    assert_eq!(start_path(), "/api/v1/agents/quome-coder/start");
    assert_eq!(
        thread_path(THREAD, ThreadAction::State),
        "/api/v1/agents/quome-coder/67e55044-10b1-426f-9247-bb680e5fe0c8/state"
    );
    assert_eq!(
        thread_path(1, ThreadAction::Pull),
        "/api/v1/agents/quome-coder/00000000-0000-0000-0000-000000000001/pull"
    );
}

#[test]
fn start_request_without_stack_options() {
    let r = start_args().to_request();
    assert_eq!(r.prompt, "a todo app");
    assert_eq!(r.include_github, Some(true));
    assert_eq!(r.parallel_mode, Some(false));
    assert_eq!(r.accessibility_target.as_deref(), Some("AA"));
    assert!(r.project_name.is_none());
    assert!(r.tech_stack.is_none());
    assert!(r.color_preferences.is_none());
}

#[test]
fn start_request_with_stack_and_colors() {
    let mut a = start_args();
    a.name = Some("todo".to_string());
    a.backend_lang = Some("python".to_string());
    a.database = Some("postgresql".to_string());
    a.secondary_color = Some("#111111".to_string());
    let r = a.to_request();
    assert_eq!(r.project_name.as_deref(), Some("todo"));
    let t = r.tech_stack.expect("a stack option was given");
    let b = t.backend.expect("a backend option was given");
    assert!(b.stack.is_none());
    assert_eq!(b.language.as_deref(), Some("python"));
    assert!(t.frontend.is_none());
    assert_eq!(t.database.as_deref(), Some("postgresql"));
    let c = r.color_preferences.expect("a color was given");
    assert_eq!(c.color_type, "custom");
    assert!(c.primary_color.is_none());
    assert_eq!(c.secondary_color.as_deref(), Some("#111111"));
}

#[test]
fn app_names_for_the_watch() {
    assert_eq!(app_name_or_default(&None), "your app");
    assert_eq!(app_name_or_default(&Some("shop".to_string())), "shop");
    let mut s = bare_state();
    assert_eq!(watch_title(&s), "your app");
    s.app_context = Some(AppContext { name: Some("shop".to_string()), goal: None, description: None });
    assert_eq!(watch_title(&s), "shop");
}

#[test]
fn replies_to_control_requests() {
    match reply_report(true, "Workflow stopped", &"stopping".to_string()) {
        Ok(p) => {
            assert_eq!(texts(&p.header), vec!["✓", " ", "Workflow stopped"]);
            assert_eq!(p.rows, vec![("Message".to_string(), "stopping".to_string())]);
        },
        Err(_) => panic!("expected a panel"),
    }
    match reply_report(false, "Prompt sent", &"workflow is busy".to_string()) {
        Err(l) => assert_eq!(texts(&l), vec!["error:", " ", "workflow is busy"]),
        Ok(_) => panic!("expected an error line"),
    }
}

#[test]
fn panels_keep_details() {
    let p = print_success("Linked", &[("Organization", "acme"), ("Application", "shop")]);
    assert_eq!(p.header[2].tone, Tone::GreenBold);
    assert_eq!(p.rows.len(), 2);
    assert_eq!(p.rows[1], ("Application".to_string(), "shop".to_string()));
    let d = print_detail("Deployment", &[]);
    assert_eq!(texts(&d.header), vec!["Deployment"]);
    assert!(d.rows.is_empty());
}

#[test]
fn summary_details_list_what_is_known() {
    let mut s = bare_state();
    assert!(summary_details(&s).is_empty());
    s.app_context = Some(AppContext { name: Some("shop".to_string()), goal: None, description: None });
    s.app_uuid = Some(1);
    s.github_repo_created = Some(true);
    s.github_repo_url = Some("https://github.test/shop".to_string());
    s.files.insert("a.py".to_string(), "".to_string());
    s.files.insert("b.py".to_string(), "".to_string());
    s.tests_ran = Some(4);
    s.tests_passed = Some(3);
    let d = summary_details(&s);
    let labels: Vec<&str> = d.iter().map(|(k, _)| k.as_str()).collect();
    assert_eq!(labels, vec!["App Name", "App ID", "GitHub", "Files", "Tests"]);
    assert_eq!(d[1].1, "00000000-0000-0000-0000-000000000001");
    assert_eq!(d[3].1, "2 files generated");
    assert_eq!(d[4].1, "3 passed, 0 failed");
    s.github_repo_created = Some(false);
    s.tests_ran = Some(0);
    assert_eq!(summary_details(&s).len(), 3);
}

#[test]
fn state_report_sections() {
    let mut s = bare_state();
    s.is_working = true;
    s.status = Some("writing code".to_string());
    s.progress = Some(ProgressInfo { percentage: Some(42), current_stage: None, total_stages: Some(6) });
    s.container_info = Some(ContainerInfo {
        container_id: None,
        sandbox_id: None,
        app_relative_dir: None,
        frontend_port: None,
        backend_port: None,
        testing_port: None,
        frontend_url: Some("https://p.test".to_string()),
        backend_url: None,
        testing_url: None,
        is_healthy: Some(false),
    });
    for (kind, content) in [("user", Some("hi")), ("assistant", Some("hello")), ("tool", None), ("critic", Some("meh"))] {
        s.messages.push(AgentMessage {
            message_type: kind.to_string(),
            content: content.map(|c| c.to_string()),
            timestamp: Some(0),
        });
    }
    let r = agent_state_report(&s);
    let lines: Vec<Vec<String>> = r.iter().map(|l| texts(l)).collect();
    let expected: Vec<Vec<&str>> = vec![
        vec!["Workflow State"],
        vec!["  ", "Thread ID:", " ", "67e55044-10b1-426f-9247-bb680e5fe0c8"],
        vec!["  ", "Working:", " ", "Yes"],
        vec!["  ", "Status:", " ", "writing code"],
        vec!["  ", "Progress:", " ", "42% (stage 0/6)"],
        vec![],
        vec!["Preview"],
        vec!["  ", "Frontend:", " ", "https://p.test"],
        vec!["  ", "Healthy:", " ", "No"],
        vec![],
        vec!["Recent Messages"],
        vec!["  ", "AI", " ", "hello"],
        vec!["  ", "critic", " ", "meh"],
    ];
    assert_eq!(lines, expected);
    assert_eq!(r[11][1].tone, Tone::Green);
    assert_eq!(r[12][1].tone, Tone::Plain);
}

#[test]
fn state_report_of_bare_state() {
    let r = agent_state_report(&bare_state());
    assert_eq!(r.len(), 3);
    assert_eq!(texts(&r[2]), vec!["  ", "Working:", " ", "No"]);
}

#[test]
fn resource_names_and_colors() {
    assert_eq!(DeploymentStatus::InProgress.as_str(), "in_progress");
    assert_eq!(DeploymentStatus::Failed.styled().tone, Tone::Red);
    assert_eq!(LogLevel::Warn.as_str(), "WARN");
    assert_eq!(LogLevel::Info.styled().text, "INFO ");
    assert_eq!(DatabaseState::Paused.styled().tone, Tone::Dimmed);
    assert_eq!(DatabaseState::Initializing.as_str(), "Initializing");
}

#[test]
fn compute_update_keeps_current_value() {
    let current = ComputeRequested { vcpu: "1".to_string(), memory: "2Gi".to_string() };
    assert!(compute_needs_current(&Some("2".to_string()), &None));
    assert!(!compute_needs_current(&None, &None));
    let c = compute_update(Some("2".to_string()), None, Some(current.clone())).unwrap();
    assert_eq!(c.requested.vcpu, "2");
    assert_eq!(c.requested.memory, "2Gi");
    let c = compute_update(None, Some("4Gi".to_string()), Some(current)).unwrap();
    assert_eq!(c.requested.vcpu, "1");
    assert!(compute_update(None, None, None).is_none());
}

#[test]
fn settings_precedence() {
    let d = Settings::default();
    assert_eq!(d.api_url, "https://demo.quome.cloud");
    assert_eq!(d.docs_url, "https://docs.quome.com");
    assert_eq!(d.website_url, "https://quome.com");
    let local = Settings {
        api_url: "http://localhost:8080".to_string(),
        docs_url: String::new(),
        website_url: String::new(),
    };
    assert_eq!(Settings::resolve(Some(local.clone()), Some(d.clone())).api_url, "http://localhost:8080");
    assert_eq!(Settings::resolve(None, Some(local.clone())).api_url, "http://localhost:8080");
    assert_eq!(Settings::resolve(None, None).api_url, "https://demo.quome.cloud");
    assert_eq!(local.get_api_url(Some("https://env.test".to_string())), "https://env.test");
    assert_eq!(local.get_api_url(None), "http://localhost:8080");
}

#[test]
fn token_precedence() {
    let mut c = Config::new();
    assert!(matches!(c.require_token(None), Err(QuomeError::NotLoggedIn)));
    c.set_user("stored".to_string(), 7, "a@b.test".to_string());
    assert_eq!(c.require_token(None).unwrap(), "stored");
    assert_eq!(c.get_token_string(Some("env".to_string())).as_deref(), Some("env"));
    assert!(matches!(&c.user, Some(UserConfig { id: 7, .. })));
    c.clear_user();
    assert!(c.get_token_string(None).is_none());
}

fn linked() -> LinkedContext {
    LinkedContext { org_id: 10, org_name: "acme".to_string(), app_id: Some(20), app_name: None }
}

#[test]
fn linked_org_resolution() {
    let l = linked();
    assert_eq!(get_linked_org_id(&None, Some(&l)).unwrap(), Some(10));
    assert_eq!(get_linked_org_id(&None, None).unwrap(), None);
    let env = Some("00000000-0000-0000-0000-00000000000f".to_string());
    assert_eq!(get_linked_org_id(&env, Some(&l)).unwrap(), Some(15));
    match get_linked_org_id(&Some("acme".to_string()), Some(&l)) {
        Err(e) => assert_eq!(e.message(), "API error: Invalid QUOME_ORG UUID"),
        Ok(_) => panic!("expected an invalid id"),
    }
    assert_eq!(require_linked_org(Some(3), &None, None).unwrap(), 3);
    assert!(matches!(require_linked_org(None, &None, None), Err(QuomeError::NoLinkedOrg)));
}

#[test]
fn linked_app_resolution() {
    let l = linked();
    assert_eq!(get_linked_app_id(false, &None, Some(&l)).unwrap(), Some(20));
    assert_eq!(get_linked_app_id(true, &None, Some(&l)).unwrap(), None);
    let env = Some("00000000000000000000000000000021".to_string());
    assert_eq!(get_linked_app_id(true, &env, None).unwrap(), Some(0x21));
    assert!(matches!(
        get_linked_app_id(false, &Some("x".to_string()), None),
        Err(QuomeError::ApiError(_))
    ));
    assert!(matches!(require_linked_app(None, true, &None, Some(&l)), Err(QuomeError::NoLinkedApp)));
    assert_eq!(require_linked_app(None, false, &None, Some(&l)).unwrap(), 20);
}

#[test]
fn find_by_name_takes_first_match() {
    let names = vec!["db-url".to_string(), "api-key".to_string(), "api-key".to_string()];
    assert_eq!(find_by_name(&names, "api-key"), Some(1));
    assert_eq!(find_by_name(&names, "API-KEY"), None);
    assert_eq!(find_by_name(&Vec::new(), "x"), None);
}
