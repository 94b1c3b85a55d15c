use kraken::platform_executor::{
    node_mode_for_priority, orchestrator_failure_recovery, search_step, ExecutionFailure, Recovery,
    SearchStep,
};
use kraken::clock::Timestamp;
use kraken::deployment::shipwreck::{AppConfig, Config, DeploymentConfig};
use kraken::gql_model::{ApplicationStatus, Deployment, Node};
use kraken::platform_executor::orchestration_executor::db::Database;
use kraken::platform_executor::orchestration_executor::github_api::{
    find_branch_commit, parse_git_url, try_decode_file_content, Branch, Commit,
};
use kraken::platform_executor::orchestration_executor::reports::{
    apply_deployment_report, apply_node_report,
};
use kraken::platform_executor::orchestration_executor::{
    check_for_update, database_export_url, deployment_validation, log_backup_url, pending_action,
    plan_ui_update, request_destruction, rollover_priority_url, schedule_deployment,
    select_node_for_deployment, start_validation, DeploymentAction, UiPlan,
};
use kraken::platform_executor::orchestration_executor::github_api::{branches_url, file_contents_url};
use kraken::platform_executor::worker_executor::pending_log_text;
use kraken::decimal::parse_u8;
use kraken::network::retry_healthcheck;
use kraken::utils::log_file_path;
use kraken::docker::ContainerStatus;
use kraken::platform_executor::worker_executor::{
    container_state_text, deployment_dir, dockerfile_for_language, has_custom_dockerfile,
    log_poll_due, mark_deployment_stopped, remove_failed_deployments, status_for_container,
    task_for_request, WorkerTask,
};
use kraken::platform_executor::{
    initial_node_mode, orchestrator_address, orchestrator_search_backoff, rabbit_address,
    takes_over_on_orchestrator_loss, DeploymentInfo, NodeMode,
};
use kraken::docker::ContainerState;
use kraken::rabbit::work_request_message::{WorkRequestMessage, WorkRequestType};

fn node_with(id: &str, deployments: &[&str]) -> Node {
    let mut n = Node::new(id, "pi", "10.0.0.1", NodeMode::WORKER, None);
    for d in deployments {
        n.add_application_instance(d);
    }
    n
}

fn deployment(id: &str, status: ApplicationStatus, commit: &str, node: &str) -> Deployment {
    Deployment::new(
        id,
        "https://github.com/u/app",
        "main",
        "1.0.0",
        commit,
        status,
        "",
        "",
        "",
        node,
    )
}

fn config_with_port(port: i64) -> Config {
    Config {
        app: AppConfig {
            name: String::from("scapenode"),
            version: String::from("1.0.0"),
            author: String::from("Ethan Shry"),
            endpoint: String::from("https://github.com/ethanshry/scapenode"),
        },
        config: DeploymentConfig {
            lang: String::from("node"),
            test: String::from("npm test"),
            run: String::from("npm start"),
            port,
        },
    }
}

#[test]
fn select_node_picks_first_with_fewest_deployments() {
    let nodes = vec![
        node_with("a", &["d1", "d2"]),
        node_with("b", &["d3"]),
        node_with("c", &["d4"]),
    ];
    assert_eq!(select_node_for_deployment(&nodes), 1);
    let single = vec![node_with("only", &["x", "y", "z"])];
    assert_eq!(select_node_for_deployment(&single), 0);
}

#[test]
fn pending_actions_follow_status() {
    assert_eq!(pending_action(ApplicationStatus::DeploymentRequested), DeploymentAction::Schedule);
    assert_eq!(pending_action(ApplicationStatus::UpdateRequested), DeploymentAction::CheckForUpdate);
    assert_eq!(pending_action(ApplicationStatus::DestructionRequested), DeploymentAction::Destroy);
    assert_eq!(pending_action(ApplicationStatus::Running), DeploymentAction::Nothing);
}

#[test]
fn requested_deployment_is_validated() {
    let mut db = Database::new();
    let mut d = deployment("d", ApplicationStatus::DeploymentRequested, "", "");
    start_validation(&mut db, &mut d);
    assert_eq!(d.status.0, ApplicationStatus::ValidatingDeploymentData);
    assert_eq!(db.get_deployment("d").unwrap().status.0, ApplicationStatus::ValidatingDeploymentData);
}

#[test]
fn requested_deployment_flows_to_deploying() {
    let mut db = Database::new();
    db.insert_node(&node_with("n1", &["x", "y"]));
    db.insert_node(&node_with("n2", &["z"]));
    let mut d = deployment("d", ApplicationStatus::DeploymentRequested, "", "");
    db.insert_deployment(&d);
    start_validation(&mut db, &mut d);
    let (node_id, msg) = schedule_deployment(&mut db, &mut d, Ok((String::from("sha"), None))).unwrap();
    assert_eq!(node_id, "n2");
    assert_eq!(msg.request_type, WorkRequestType::RequestDeployment);
    let stored = db.get_deployment("d").unwrap();
    assert_eq!(stored.status.0, ApplicationStatus::Deploying);
    assert_eq!(stored.commit, "sha");
    assert_eq!(stored.node, "n2");
    let hist: Vec<ApplicationStatus> = stored.status_history.iter().map(|s| s.0).collect();
    assert_eq!(
        hist,
        vec![
            ApplicationStatus::DeploymentRequested,
            ApplicationStatus::ValidatingDeploymentData,
            ApplicationStatus::DelegatingDeployment,
        ]
    );
    assert_eq!(pending_action(stored.status.0), DeploymentAction::Nothing);
    assert_eq!(db.get_node("n2").unwrap().deployments, vec![String::from("z"), String::from("d")]);
}

#[test]
fn schedule_failed_validation_errors() {
    let mut db = Database::new();
    let mut d = deployment("d", ApplicationStatus::Running, "old", "");
    let res = schedule_deployment(&mut db, &mut d, Err(()));
    assert!(res.is_none());
    assert_eq!(d.status.0, ApplicationStatus::Errored);
    assert_eq!(d.status_history.len(), 1);
    assert_eq!(d.commit, "old");
    assert_eq!(db.get_deployment("d").unwrap().status.0, ApplicationStatus::Errored);
}

#[test]
fn schedule_without_nodes_errors_after_taking_commit() {
    let mut db = Database::new();
    let mut d = deployment("d", ApplicationStatus::Running, "old", "");
    let res = schedule_deployment(&mut db, &mut d, Ok((String::from("abc123"), None)));
    assert!(res.is_none());
    assert_eq!(d.commit, "abc123");
    assert_eq!(d.port, "");
    assert_eq!(d.status.0, ApplicationStatus::Errored);
    let hist: Vec<ApplicationStatus> = d.status_history.iter().map(|s| s.0).collect();
    assert_eq!(hist, vec![ApplicationStatus::Running, ApplicationStatus::DelegatingDeployment]);
    let stored = db.get_deployment("d").unwrap();
    assert_eq!(stored.commit, "abc123");
    assert_eq!(stored.status.0, ApplicationStatus::Errored);
}

#[test]
fn schedule_delegates_to_least_loaded_node() {
    let mut db = Database::new();
    db.insert_node(&node_with("n1", &["x"]));
    db.insert_node(&node_with("n2", &[]));
    let mut d = deployment("d", ApplicationStatus::Running, "", "");
    let res = schedule_deployment(
        &mut db,
        &mut d,
        Ok((String::from("abc123"), Some(config_with_port(7211)))),
    );
    let (node_id, msg) = res.unwrap();
    assert_eq!(node_id, "n2");
    assert_eq!(msg.request_type, WorkRequestType::RequestDeployment);
    assert_eq!(msg.deployment_id, Some(String::from("d")));
    assert_eq!(msg.deployment_url, Some(String::from("https://github.com/u/app")));
    assert_eq!(msg.priority, None);
    assert_eq!(d.node, "n2");
    assert_eq!(d.port, "7211");
    assert_eq!(d.commit, "abc123");
    assert_eq!(d.status.0, ApplicationStatus::Deploying);
    assert_eq!(db.get_node("n2").unwrap().deployments, vec![String::from("d")]);
    assert_eq!(db.get_node("n1").unwrap().deployments, vec![String::from("x")]);
    assert_eq!(db.get_deployment("d").unwrap().node, "n2");
}

#[test]
fn check_for_update_without_commit_changes_nothing() {
    let mut db = Database::new();
    let mut d = deployment("d", ApplicationStatus::Errored, "c1", "n1");
    let out = check_for_update(&mut db, &mut d, None);
    assert!(out.is_empty());
    assert!(db.get_deployment("d").is_none());
    assert_eq!(d.status.0, ApplicationStatus::Errored);
}

#[test]
fn check_for_update_same_commit_is_running() {
    let mut db = Database::new();
    let mut d = deployment("d", ApplicationStatus::Errored, "c1", "n1");
    let out = check_for_update(&mut db, &mut d, Some(String::from("c1")));
    assert!(out.is_empty());
    assert_eq!(d.status.0, ApplicationStatus::Running);
    assert_eq!(db.get_deployment("d").unwrap().status.0, ApplicationStatus::Running);
}

#[test]
fn check_for_update_new_commit_redeploys() {
    let mut db = Database::new();
    let mut d = deployment("d", ApplicationStatus::Running, "c1", "n1");
    let out = check_for_update(&mut db, &mut d, Some(String::from("c2")));
    assert_eq!(out.len(), 2);
    assert_eq!(out[0].0, "n1");
    assert_eq!(out[0].1.request_type, WorkRequestType::CancelDeployment);
    assert_eq!(out[0].1.deployment_id, Some(String::from("d")));
    assert_eq!(out[0].1.deployment_url, None);
    assert_eq!(out[1].0, "n1");
    assert_eq!(out[1].1.request_type, WorkRequestType::RequestDeployment);
    assert_eq!(out[1].1.deployment_url, Some(String::from("https://github.com/u/app")));
    assert_eq!(d.status.0, ApplicationStatus::DelegatingDestruction);
}

#[test]
fn destruction_removes_deployment_from_nodes() {
    let mut db = Database::new();
    db.insert_node(&node_with("n1", &["d", "e"]));
    let mut d = deployment("d", ApplicationStatus::Running, "c1", "n1");
    let (node, msg) = request_destruction(&mut db, &mut d);
    assert_eq!(node, "n1");
    assert_eq!(msg.request_type, WorkRequestType::CancelDeployment);
    assert_eq!(msg.deployment_id, Some(String::from("d")));
    assert_eq!(msg.deployment_url, None);
    assert_eq!(db.get_node("n1").unwrap().deployments, vec![String::from("e")]);
    assert_eq!(db.get_deployment("d").unwrap().status.0, ApplicationStatus::DelegatingDestruction);
}

fn branch(name: &str, sha: &str) -> Branch {
    Branch {
        name: String::from(name),
        commit: Commit { sha: String::from(sha), url: String::new() },
        protected: false,
    }
}

#[test]
fn ui_plan_cases() {
    let branches = Some(vec![branch("main", "m1"), branch("build", "b1"), branch("build", "b2")]);
    assert_eq!(plan_ui_update(&None, "build", &None), UiPlan::NoBuildBranch);
    assert_eq!(plan_ui_update(&branches, "missing", &None), UiPlan::NoBuildBranch);
    assert_eq!(plan_ui_update(&branches, "build", &None), UiPlan::Update(String::from("b1")));
    assert_eq!(
        plan_ui_update(&branches, "build", &Some(String::from("b1"))),
        UiPlan::UpToDate(String::from("b1"))
    );
    assert_eq!(
        plan_ui_update(&branches, "build", &Some(String::from("old"))),
        UiPlan::Update(String::from("b1"))
    );
    let empty_sha = Some(vec![branch("build", "")]);
    assert_eq!(plan_ui_update(&empty_sha, "build", &None), UiPlan::NoBuildBranch);
}

#[test]
fn branch_commit_lookup() {
    let branches = vec![branch("main", "m1"), branch("dev", "d1")];
    assert_eq!(find_branch_commit(&branches, "dev"), Some(String::from("d1")));
    assert_eq!(find_branch_commit(&branches, "nope"), None);
}

#[test]
fn git_url_parsing() {
    let u = parse_git_url("https://github.com/ethanshry/Kraken").unwrap();
    assert_eq!(u.user, "ethanshry");
    assert_eq!(u.repo, "Kraken");
    let u = parse_git_url("github.com/a/b").unwrap();
    assert_eq!((u.user.as_str(), u.repo.as_str()), ("a", "b"));
    assert!(parse_git_url("https://gitlab.com/a/b").is_none());
    assert!(parse_git_url("https://github.com/a").is_none());
    assert!(parse_git_url("https://github.com/a/b/c").is_none());
    let u = kraken::gitapi::GitApi::parse_git_url("https://gitlab.com/a/b").unwrap();
    assert_eq!(u.repo, "b");
}

#[test]
fn file_content_is_base64_decoded() {
    assert_eq!(try_decode_file_content("aGVsbG8="), Some(String::from("hello")));
    assert_eq!(try_decode_file_content("!!!!"), None);
    assert_eq!(try_decode_file_content("/w=="), None);
}

#[test]
fn dockerfiles_by_language() {
    assert_eq!(dockerfile_for_language("python3"), Ok(Some("python36.dockerfile")));
    assert_eq!(dockerfile_for_language("node"), Ok(Some("node.dockerfile")));
    assert_eq!(dockerfile_for_language("custom"), Ok(None));
    assert_eq!(dockerfile_for_language("rust"), Err(()));
}

#[test]
fn deployment_directories() {
    assert_eq!(deployment_dir("abc"), "tmp/deployment/abc");
    let files = vec![String::from("tmp/deployment/abc/src"), String::from("tmp/deployment/abc/Dockerfile")];
    assert!(has_custom_dockerfile(&files, "tmp/deployment/abc"));
    assert!(!has_custom_dockerfile(&files, "tmp/deployment/xyz"));
}

#[test]
fn container_states_map_to_statuses() {
    assert_eq!(container_state_text(ContainerState::EXITED), "EXITED");
    let (s, d) = status_for_container(ContainerState::RUNNING);
    assert_eq!(s, ApplicationStatus::Running);
    assert_eq!(d, "Application status normal");
    let (s, d) = status_for_container(ContainerState::DEAD);
    assert_eq!(s, ApplicationStatus::Errored);
    assert_eq!(d, "Docker reported error in application, state DEAD");
}

#[test]
fn logs_are_polled_after_two_seconds() {
    let last = Timestamp { secs: 100, nanos: 500 };
    assert!(!log_poll_due(&last, &Timestamp { secs: 101, nanos: 999_999_999 }));
    assert!(!log_poll_due(&last, &Timestamp { secs: 102, nanos: 499 }));
    assert!(log_poll_due(&last, &Timestamp { secs: 102, nanos: 500 }));
    assert!(!log_poll_due(&last, &Timestamp { secs: 50, nanos: 0 }));
}

#[test]
fn timestamps() {
    let t = Timestamp { secs: u64::MAX - 1, nanos: 7 };
    assert_eq!(t.plus_secs(5), Timestamp { secs: u64::MAX, nanos: 7 });
    assert_eq!(Timestamp { secs: 10, nanos: 0 }.plus_secs(5).unix_secs(), 15);
    let a = Timestamp { secs: 10, nanos: 900_000_000 };
    assert_eq!(a.whole_secs_until(&Timestamp { secs: 13, nanos: 100_000_000 }), 2);
    assert_eq!(a.whole_secs_until(&Timestamp { secs: 9, nanos: 0 }), 0);
}

#[test]
fn failed_deployments_are_removed_in_order() {
    let mut v = vec![
        DeploymentInfo::new("a", "addr-a", true),
        DeploymentInfo::new("b", "addr-b", false),
        DeploymentInfo::new("c", "addr-c", true),
    ];
    remove_failed_deployments(&mut v);
    let ids: Vec<&str> = v.iter().map(|d| d.deployment_id.as_str()).collect();
    assert_eq!(ids, vec!["a", "c"]);
}

#[test]
fn stopped_deployment_is_marked_failed() {
    let mut v = vec![DeploymentInfo::new("a", "x", true), DeploymentInfo::new("b", "y", true)];
    mark_deployment_stopped(&mut v, "b");
    assert!(v[0].status.is_ok());
    assert!(v[1].status.is_err());
    assert_eq!(v[1].address, "y");
    mark_deployment_stopped(&mut v, "zzz");
    assert_eq!(v.len(), 2);
    assert!(v[0].status.is_ok());
}

#[test]
fn deployment_info_updates() {
    let mut d = DeploymentInfo::new("a", "x", false);
    assert!(d.status.is_err());
    d.deployment_is_ok(true);
    assert!(d.status.is_ok());
    d.update_address("y:3000");
    assert_eq!(d.address, "y:3000");
    d.update_log_time();
    assert!(d.last_log_time.secs >= 1);
    assert_eq!(d.deployment_id, "a");
    d.update_log_time_at(&Timestamp { secs: 41, nanos: 7 });
    assert_eq!(d.last_log_time, Timestamp { secs: 42, nanos: 7 });
    d.update_log_time_at(&Timestamp { secs: u64::MAX, nanos: 0 });
    assert_eq!(d.last_log_time, Timestamp { secs: u64::MAX, nanos: 0 });
}

#[test]
fn worker_tasks_from_requests() {
    let m = WorkRequestMessage::new(WorkRequestType::RequestDeployment, Some("d"), Some("u"), None);
    assert_eq!(task_for_request(&m), WorkerTask::Deploy { url: String::from("u"), id: String::from("d") });
    let m = WorkRequestMessage::new(WorkRequestType::CancelDeployment, Some("d"), None, None);
    assert_eq!(task_for_request(&m), WorkerTask::Kill { id: String::from("d") });
    let m = WorkRequestMessage::new(WorkRequestType::SetPromotionPriority, None, None, Some(2));
    assert_eq!(task_for_request(&m), WorkerTask::Unhandled);
}

#[test]
fn node_roles_and_addresses() {
    assert_eq!(initial_node_mode(true), NodeMode::WORKER);
    assert_eq!(initial_node_mode(false), NodeMode::ORCHESTRATOR);
    assert!(takes_over_on_orchestrator_loss(Some(1)));
    assert!(!takes_over_on_orchestrator_loss(Some(2)));
    assert!(!takes_over_on_orchestrator_loss(None));
    assert_eq!(rabbit_address("192.168.1.5"), "amqp://192.168.1.5:5672");
    assert_eq!(orchestrator_address("192.168.1.5", 8000), "192.168.1.5:8000");
    assert_eq!(orchestrator_search_backoff(), vec![0, 1, 1, 2, 3, 5, 8, 13, 21, 34, 55]);
}

#[test]
fn validation_outcomes() {
    let branches = vec![branch("main", "m1"), branch("dev", "d1")];
    let ok = deployment_validation(Some(String::from("[app]")), Some(branches), "dev");
    assert_eq!(ok, Ok((String::from("d1"), String::from("[app]"))));
    let branches = vec![branch("main", "m1")];
    assert_eq!(deployment_validation(Some(String::from("x")), Some(branches), "dev"), Err(()));
    assert_eq!(deployment_validation(None, Some(vec![branch("dev", "d1")]), "dev"), Err(()));
    assert_eq!(deployment_validation(Some(String::from("x")), None, "dev"), Err(()));
}

#[test]
fn orchestrator_addresses() {
    assert_eq!(rollover_priority_url("10.0.0.2:8000", "node-1"), "http://10.0.0.2:8000/health/node-1");
    assert_eq!(database_export_url("10.0.0.2:8000"), "http://10.0.0.2:8000/export/database");
    assert_eq!(log_backup_url("10.0.0.2:8000", "d1"), "http://10.0.0.2:8000/log/d1");
    assert_eq!(log_file_path("d1"), "log/d1.log");
    assert_eq!(branches_url("ethanshry", "kraken-ui"), "https://api.github.com/repos/ethanshry/kraken-ui/branches");
    assert_eq!(
        file_contents_url("u", "r", "shipwreck.toml"),
        "https://api.github.com/repos/u/r/contents/shipwreck.toml"
    );
}

#[test]
fn rollover_priorities_are_read() {
    assert_eq!(parse_u8("1"), Some(1));
    assert_eq!(parse_u8("255"), Some(255));
    assert_eq!(parse_u8("+7"), Some(7));
    assert_eq!(parse_u8("256"), None);
    assert_eq!(parse_u8("-1"), None);
    assert_eq!(parse_u8(""), None);
    assert_eq!(parse_u8("+"), None);
    assert_eq!(parse_u8("1a"), None);
    assert_eq!(parse_u8("007"), Some(7));
    for p in 0..=255u8 {
        assert_eq!(parse_u8(&p.to_string()), Some(p));
    }
}

#[test]
fn deployment_reports_update_known_deployments() {
    let mut db = Database::new();
    assert!(!apply_deployment_report(&mut db, "d", ApplicationStatus::Running, None));
    assert!(db.get_deployment("d").is_none());
    db.insert_deployment(&deployment("d", ApplicationStatus::Deploying, "c", "n"));
    let stats = ContainerStatus { size: 10, mem_mb: 20, mem_max_mb: 30, cpu_usage: 0, state: ContainerState::RUNNING };
    assert!(apply_deployment_report(&mut db, "d", ApplicationStatus::Running, Some(stats)));
    let d = db.get_deployment("d").unwrap();
    assert_eq!(d.status.0, ApplicationStatus::Running);
    assert_eq!(d.status_history.len(), 1);
    assert_eq!((d.size, d.mem_mb, d.max_mem_mb), (10, 20, 30));
    assert!(apply_deployment_report(&mut db, "d", ApplicationStatus::Running, None));
    let d = db.get_deployment("d").unwrap();
    assert_eq!(d.status_history.len(), 1);
    assert_eq!(d.size, 10);
}

#[test]
fn node_reports_update_or_add_nodes() {
    let mut db = Database::new();
    apply_node_report(&mut db, "n1", "10.0.0.7", 100, 200, 300, 0x3f800000);
    let n = db.get_node("n1").unwrap();
    assert_eq!(n.model, "placeholder_model");
    assert_eq!(n.addr, "10.0.0.7");
    assert_eq!(n.mode, NodeMode::ORCHESTRATOR);
    assert_eq!((n.ram_free, n.ram_used, n.uptime, n.load_avg_5()), (100, 200, 300, 0x3f800000));
    db.insert_node(&node_with("n2", &["d"]));
    apply_node_report(&mut db, "n2", "ignored", 1, 2, 3, 4);
    let n = db.get_node("n2").unwrap();
    assert_eq!(n.addr, "10.0.0.1");
    assert_eq!(n.model, "pi");
    assert_eq!(n.deployments, vec![String::from("d")]);
    assert_eq!((n.ram_free, n.ram_used, n.uptime, n.load_avg_5()), (1, 2, 3, 4));
    assert_eq!(db.get_nodes().unwrap().len(), 2);
}

#[test]
fn worker_log_text_and_retries() {
    assert_eq!(pending_log_text(&vec![]), None);
    assert_eq!(pending_log_text(&vec![String::from("a\n"), String::from("b")]), Some(String::from("a\nb")));
    assert!(retry_healthcheck(1_000_000, None));
    assert!(retry_healthcheck(2, Some(3)));
    assert!(!retry_healthcheck(3, Some(3)));
    assert!(!retry_healthcheck(0, Some(0)));
}

#[test]
fn u64_numbers_are_read() {
    use_parse_u64();
}

fn use_parse_u64() {
    assert_eq!(kraken::decimal::parse_u64("18446744073709551615"), Some(u64::MAX));
    assert_eq!(kraken::decimal::parse_u64("18446744073709551616"), None);
    assert_eq!(kraken::decimal::parse_u64("+0"), Some(0));
    assert_eq!(kraken::decimal::parse_u64("-0"), None);
    assert_eq!(kraken::decimal::parse_u64(" 1"), None);
    assert_eq!(kraken::decimal::parse_u64("1844674407370955162"), Some(1844674407370955162));
}

#[test]
fn requested_update_and_destruction_move_on() {
    let mut db = Database::new();
    let mut d = deployment("d", ApplicationStatus::UpdateRequested, "c1", "n1");
    let out = check_for_update(&mut db, &mut d, Some(String::from("c2")));
    assert_eq!(out.len(), 2);
    assert_eq!(d.status.0, ApplicationStatus::DelegatingDestruction);
    assert_eq!(pending_action(d.status.0), DeploymentAction::Nothing);
    let mut d = deployment("e", ApplicationStatus::UpdateRequested, "c1", "n1");
    assert!(check_for_update(&mut db, &mut d, Some(String::from("c1"))).is_empty());
    assert_eq!(d.status.0, ApplicationStatus::Running);
    let mut d = deployment("f", ApplicationStatus::DestructionRequested, "c1", "n1");
    request_destruction(&mut db, &mut d);
    assert_eq!(db.get_deployment("f").unwrap().status.0, ApplicationStatus::DelegatingDestruction);
}

#[test]
fn failures_and_rejoining() {
    assert_eq!(node_mode_for_priority(Some(0)), NodeMode::ORCHESTRATOR);
    assert_eq!(node_mode_for_priority(Some(1)), NodeMode::WORKER);
    assert_eq!(node_mode_for_priority(None), NodeMode::WORKER);
    assert_eq!(orchestrator_failure_recovery(ExecutionFailure::NoOrchestrator, Some(1)), Recovery::TakeOver);
    assert_eq!(
        orchestrator_failure_recovery(ExecutionFailure::NoOrchestrator, Some(3)),
        Recovery::SearchForOrchestrator
    );
    assert_eq!(
        orchestrator_failure_recovery(ExecutionFailure::NoOrchestrator, None),
        Recovery::SearchForOrchestrator
    );
    assert_eq!(orchestrator_failure_recovery(ExecutionFailure::SigKill, Some(1)), Recovery::Exit);
    assert_eq!(orchestrator_failure_recovery(ExecutionFailure::BadConsumer, Some(0)), Recovery::Exit);
    assert_eq!(search_step(true, 55, 55), SearchStep::Rejoin);
    assert_eq!(search_step(false, 8, 55), SearchStep::KeepSearching);
    assert_eq!(search_step(false, 55, 55), SearchStep::GiveUp);
}
