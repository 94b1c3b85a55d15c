use kraken::docker::{ContainerState, ContainerStatus};
use kraken::gql_model::{
    ApplicationStatus, Deployment, Node, Orchestrator, OrchestratorInterface, ParseError,
    Platform, Service, ServiceStatus, TemporalApplicationStatus,
};
use kraken::platform_executor::NodeMode;

#[test]
fn deployment_appropriately_updates_status() {
    let mut d = Deployment::new(
        "12345",
        "http://github.com",
        "main",
        "1.0.0",
        "abc123",
        ApplicationStatus::Running,
        "http://123.456",
        "http://123.456",
        "5000",
        "54321",
    );

    assert!(d.status_history.len() == 0);

    d.update_status(&ApplicationStatus::Running);

    // Status is same as initial, so history should not change
    assert!(d.status_history.len() == 0);

    d.update_status(&ApplicationStatus::Errored);

    // Status is same as initial, so history should change
    assert!(d.status_history.len() == 1);
    assert!(d.status_history[0].0 == ApplicationStatus::Running);
}

#[test]
fn requests_move_on() {
    for pending in [
        ApplicationStatus::DeploymentRequested,
        ApplicationStatus::UpdateRequested,
        ApplicationStatus::DestructionRequested,
    ] {
        let mut d = Deployment::new("1", "u", "b", "", "", pending, "", "", "", "");
        let before = d.status;
        d.update_status(&ApplicationStatus::ValidatingDeploymentData);
        assert_eq!(d.status.0, ApplicationStatus::ValidatingDeploymentData);
        assert_eq!(d.status_history, vec![before]);
    }
}

#[test]
fn status_history_keeps_order() {
    let mut d = Deployment::new("1", "u", "b", "", "", ApplicationStatus::Deploying, "", "", "", "");
    d.update_status(&ApplicationStatus::Running);
    d.update_status(&ApplicationStatus::Errored);
    d.update_status(&ApplicationStatus::Destroyed);
    let statuses: Vec<ApplicationStatus> = d.status_history.iter().map(|s| s.0).collect();
    assert_eq!(
        statuses,
        vec![ApplicationStatus::Deploying, ApplicationStatus::Running, ApplicationStatus::Errored]
    );
    assert_eq!(d.status.0, ApplicationStatus::Destroyed);
    let served = d.status_history();
    assert_eq!(served.len(), 4);
    assert_eq!(served[3].status, ApplicationStatus::Destroyed);
    assert_eq!(served[0].time, d.status_history[0].1.secs);
}

#[test]
fn status_text_roundtrip() {
    let all = [
        ApplicationStatus::DeploymentRequested,
        ApplicationStatus::ValidatingDeploymentData,
        ApplicationStatus::RetrievingApplicationData,
        ApplicationStatus::DelegatingDeployment,
        ApplicationStatus::BuildingDeployment,
        ApplicationStatus::TestingDeployment,
        ApplicationStatus::Deploying,
        ApplicationStatus::Running,
        ApplicationStatus::Errored,
        ApplicationStatus::DestructionRequested,
        ApplicationStatus::DelegatingDestruction,
        ApplicationStatus::DestructionInProgress,
        ApplicationStatus::Destroyed,
        ApplicationStatus::UpdateRequested,
    ];
    for s in all {
        assert_eq!(ApplicationStatus::from_str(&s.to_string()), Ok(s));
    }
    assert_eq!(ApplicationStatus::Running.to_string(), "Running");
    assert_eq!(ApplicationStatus::from_str("running"), Err(ParseError::VariantNotFound));
    assert_eq!(ApplicationStatus::from_str(""), Err(ParseError::VariantNotFound));
}

#[test]
fn container_status_is_copied_into_deployment() {
    let mut d = Deployment::new("1", "u", "b", "", "", ApplicationStatus::Running, "", "", "", "");
    let stats = ContainerStatus {
        size: 10,
        mem_mb: 20,
        mem_max_mb: 30,
        cpu_usage: 1.5f32.to_bits(),
        state: ContainerState::RUNNING,
    };
    d.update_container_status(&stats);
    assert_eq!(d.size, 10);
    assert_eq!(d.mem_mb, 20);
    assert_eq!(d.max_mem_mb, 30);
    assert_eq!(f32::from_bits(d.cpu_usage), 1.5);
}

#[test]
fn node_from_incomplete_fills_defaults() {
    let n = Node::from_incomplete("id", None, "10.0.0.2", Some(1), None, Some(3), None, None, None);
    assert_eq!(n.model, "placeholder_model");
    assert_eq!(n.mode, NodeMode::ORCHESTRATOR);
    assert_eq!(n.ram_free(), 1);
    assert_eq!(n.ram_used(), 0);
    assert_eq!(n.uptime(), 3);
    assert_eq!(n.load_avg_5(), 0);
    let m = Node::from_incomplete("id", Some("pi"), "a", None, None, None, Some(2.5f32.to_bits()), None, None);
    assert_eq!(m.model, "pi");
    assert_eq!(f32::from_bits(m.load_avg_5()), 2.5);
}

#[test]
fn node_updates() {
    let mut n = Node::new("a", "m", "1.2.3.4", NodeMode::WORKER, Some(2));
    n.update(5, 6, 7, 0);
    assert_eq!((n.ram_free(), n.ram_used(), n.uptime()), (5, 6, 7));
    n.set_id("b");
    assert_eq!(n.id, "b");
    n.add_application_instance("dep");
    assert_eq!(n.deployments, vec![String::from("dep")]);
    n.add_service(Service::new("rabbitmq", "0.1.0", "amqp://x", ServiceStatus::OK));
    assert_eq!(n.services.len(), 1);
    let c = n.clone();
    assert_eq!(c, n);
}

#[test]
fn orchestrator_collects_services() {
    let mut o = Orchestrator::new(OrchestratorInterface::new(None, None, ApplicationStatus::Errored));
    assert!(o.services.is_none());
    o.add_service(Service::new("a", "1", "x", ServiceStatus::OK));
    o.add_service(Service::new("b", "2", "y", ServiceStatus::ERRORED));
    let names: Vec<String> = o.services.as_ref().unwrap().iter().map(|s| s.name.clone()).collect();
    assert_eq!(names, vec![String::from("a"), String::from("b")]);
    let mut ui = OrchestratorInterface::new(Some(String::from("src")), None, ApplicationStatus::Errored);
    ui.update_status(ApplicationStatus::Running);
    assert_eq!(ui.status, ApplicationStatus::Running);
    assert_eq!(ui.src_url, Some(String::from("src")));
}

#[test]
fn platform_collects_nodes_and_deployments() {
    let o = Orchestrator::new(OrchestratorInterface::new(None, None, ApplicationStatus::Errored));
    let mut p = Platform::new(&vec![], &o, &vec![]);
    p.add_node(Node::new("n", "m", "a", NodeMode::WORKER, None));
    p.add_deployment(Deployment::new("d", "u", "b", "", "", ApplicationStatus::Running, "", "", "", ""));
    assert_eq!(p.nodes.len(), 1);
    assert_eq!(p.deployments.len(), 1);
    assert_eq!(p.deployments[0].id, "d");
}

#[test]
fn temporal_status_resolvers() {
    let t = TemporalApplicationStatus { status: ApplicationStatus::Running, time: 5_000_000_000 };
    assert_eq!(t.status(), ApplicationStatus::Running);
    assert_eq!(t.time(), 5_000_000_000u64 as i32);
}

#[test]
fn legacy_model_statuses() {
    assert_eq!(kraken::model::ApplicationStatus::from_str(&kraken::model::ApplicationStatus::DEPLOYED.to_string()), Ok(kraken::model::ApplicationStatus::DEPLOYED));
    let mut d = kraken::model::Deployment::new("1", "u", "v", "c", kraken::model::ApplicationStatus::REQUESTED, "r", "d", &vec![None]);
    assert_eq!(d.instances.len(), 1);
    d.add_instance(kraken::model::ApplicationInstance::new("i", "n", "1", ServiceStatus::OK));
    assert_eq!(d.instances.len(), 2);
    d.update_status(kraken::model::ApplicationStatus::DEPLOYED);
    assert_eq!(d.status, kraken::model::ApplicationStatus::DEPLOYED);
}
