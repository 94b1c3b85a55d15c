use kraken::gql_model::{ApplicationStatus, Deployment, Node, Service, ServiceStatus};
use kraken::gql_schema::{Mutation, Query, SchemaError};
use kraken::platform_executor::orchestration_executor::db::Database;
use kraken::platform_executor::NodeMode;
use kraken::utils::{default_platform, load_platform, UI_GIT_ADDR};

#[test]
fn db_handles_nodes() {
    let mut db = Database::new();

    let node = Node::new("abcd", "temp", "192.168.0.55", NodeMode::WORKER, None);

    db.insert_node(&node);

    assert_eq!(db.get_nodes().unwrap().iter().count(), 1);

    assert_eq!(db.get_node("1234"), None);
    assert_eq!(db.get_node("abcd"), Some(node));
}

#[test]
fn db_handles_deployments() {
    let mut db = Database::new();

    let deployment = Deployment::new(
        "1234",
        "http://url.com",
        "main",
        "1.0.0",
        "abcd1234",
        ApplicationStatus::Running,
        "localhost:8000/log/1234",
        "localhost:9000",
        "3000",
        "abcd",
    );

    db.insert_deployment(&deployment);

    assert_eq!(db.get_deployment("abcd"), None);
    assert_eq!(db.get_deployment("1234"), Some(deployment));
}

fn deployment(id: &str, status: ApplicationStatus) -> Deployment {
    Deployment::new(id, "https://github.com/u/r", "main", "", "", status, "", "", "", "")
}

#[test]
fn insert_returns_previous_and_keeps_order() {
    let mut db = Database::new();
    assert!(db.get_nodes().is_none());
    assert!(db.get_deployments().is_none());
    assert!(db.insert_deployment(&deployment("a", ApplicationStatus::Running)).is_none());
    assert!(db.insert_deployment(&deployment("b", ApplicationStatus::Running)).is_none());
    let prev = db.insert_deployment(&deployment("a", ApplicationStatus::Errored)).unwrap();
    assert_eq!(prev.status.0, ApplicationStatus::Running);
    let all = db.get_deployments().unwrap();
    let ids: Vec<&str> = all.iter().map(|d| d.id.as_str()).collect();
    assert_eq!(ids, vec!["a", "b"]);
    assert_eq!(all[0].status.0, ApplicationStatus::Errored);
}

#[test]
fn update_deployment_stores_under_given_id() {
    let mut db = Database::new();
    db.update_deployment("other", &deployment("a", ApplicationStatus::Running));
    assert!(db.get_deployment("a").is_none());
    assert_eq!(db.get_deployment("other").unwrap().id, "a");
}

#[test]
fn deployments_on_nodes() {
    let mut db = Database::new();
    db.insert_node(&Node::new("n1", "m", "a", NodeMode::WORKER, None));
    db.insert_node(&Node::new("n2", "m", "b", NodeMode::WORKER, None));
    assert_eq!(db.add_deployment_to_node("n1", String::from("d1")), Ok(()));
    assert_eq!(db.add_deployment_to_node("n1", String::from("d2")), Ok(()));
    assert_eq!(db.add_deployment_to_node("n2", String::from("d1")), Ok(()));
    assert_eq!(db.add_deployment_to_node("missing", String::from("d1")), Err(()));
    db.remove_deployment_from_nodes("d1");
    assert_eq!(db.get_node("n1").unwrap().deployments, vec![String::from("d2")]);
    assert!(db.get_node("n2").unwrap().deployments.is_empty());
}

#[test]
fn platform_services() {
    let mut db = Database::new();
    assert!(db.get_platform_services().is_none());
    assert_eq!(db.add_platform_service(Service::new("rabbitmq", "0.1.0", "amqp://localhost:5672", ServiceStatus::OK)), Ok(0));
    let services = db.get_platform_services().unwrap();
    assert_eq!(services.len(), 1);
    assert_eq!(services[0].name, "rabbitmq");
    assert_eq!(db.get_orchestrator().services.unwrap().len(), 1);
}

#[test]
fn queries_and_mutations() {
    let mut db = Database::new();
    assert_eq!(Query::get_platform(&db).err(), Some(SchemaError::NoPlatformAvailable));
    let id = Mutation::create_deployment(&mut db, "https://github.com/u/r", "main");
    assert_eq!(id.len(), 36);
    let d = Query::get_deployment(&db, &id).unwrap();
    assert_eq!(d.status.0, ApplicationStatus::DeploymentRequested);
    assert_eq!(d.src_url, "https://github.com/u/r");
    assert_eq!(d.git_branch, "main");
    assert_eq!(Query::get_platform(&db).err(), Some(SchemaError::NoPlatformAvailable));
    db.insert_node(&Node::new("n", "m", "a", NodeMode::WORKER, None));
    let p = Query::get_platform(&db).unwrap();
    assert_eq!(p.deployments.len(), 1);
    assert_eq!(p.nodes.len(), 1);
    assert_eq!(Mutation::poll_redeploy(&mut db, "nope"), Err(SchemaError::NoDeploymentWithId));
    assert_eq!(Mutation::cancel_deployment(&mut db, "nope"), Err(SchemaError::NoDeploymentWithId));
    assert_eq!(SchemaError::NoDeploymentWithId.message(), "No Active Deployment with the specified id");
    assert_eq!(SchemaError::NoPlatformAvailable.internal_error(), "no_platform_available");
    // Cancelling a requested deployment turns the request into a destruction request.
    assert_eq!(Mutation::cancel_deployment(&mut db, &id), Ok(true));
    let cancelled = Query::get_deployment(&db, &id).unwrap();
    assert_eq!(cancelled.status.0, ApplicationStatus::DestructionRequested);
    assert_eq!(cancelled.status_history[0].0, ApplicationStatus::DeploymentRequested);
    db.insert_deployment(&deployment("r", ApplicationStatus::Running));
    assert_eq!(Mutation::cancel_deployment(&mut db, "r"), Ok(true));
    assert_eq!(Query::get_deployment(&db, "r").unwrap().status.0, ApplicationStatus::DestructionRequested);
    db.insert_deployment(&deployment("s", ApplicationStatus::Running));
    assert_eq!(Mutation::poll_redeploy(&mut db, "s"), Ok(true));
    assert_eq!(Query::get_deployment(&db, "s").unwrap().status.0, ApplicationStatus::UpdateRequested);
}

#[test]
fn two_created_deployments_get_distinct_ids() {
    let mut db = Database::new();
    let a = Mutation::create_deployment(&mut db, "u", "b");
    let b = Mutation::create_deployment(&mut db, "u", "b");
    assert_ne!(a, b);
    assert_eq!(Query::get_deployments(&db).unwrap().len(), 2);
    let given = Mutation::create_deployment_with_id(&mut db, String::from("fixed"), "u2", "dev");
    assert_eq!(given, "fixed");
    assert_eq!(Query::get_deployment(&db, "fixed").unwrap().src_url, "u2");
}

#[test]
fn available_logs() {
    let files = vec![
        String::from("/root/log/abc.log"),
        String::from("/root/log/readme.txt"),
        String::from("def.log"),
        String::from("/a/b/ghi.log.1"),
    ];
    assert_eq!(
        Query::get_available_logs(&files),
        vec![String::from("abc"), String::from("def"), String::from("ghi")]
    );
}

#[test]
fn loading_a_platform() {
    let mut db = Database::new();
    let mut p = default_platform();
    assert_eq!(p.orchestrator.ui.src_url, Some(String::from(UI_GIT_ADDR)));
    p.add_node(Node::new("n", "m", "a", NodeMode::WORKER, None));
    p.add_deployment(deployment("d", ApplicationStatus::Running));
    load_platform(&mut db, &p);
    assert_eq!(db.get_orchestrator().ui.src_url, Some(String::from(UI_GIT_ADDR)));
    assert!(db.get_node("n").is_some());
    assert!(db.get_deployment("d").is_some());
}
