use kraken::deployment::shipwreck::{AppConfig, Config, DeploymentConfig};
use kraken::docker::DockerImageBuildResult;
use kraken::clock::Timestamp;
use kraken::gql_model::ApplicationStatus;
use kraken::platform_executor::DeploymentInfo;
use kraken::platform_executor::worker_executor::deployment_job::{DeploymentJob, JobAction, JobStage};

fn config(lang: &str, port: i64) -> Config {
    Config {
        app: AppConfig {
            name: String::from("app"),
            version: String::from("1"),
            author: String::from("me"),
            endpoint: String::from("e"),
        },
        config: DeploymentConfig {
            lang: String::from(lang),
            test: String::from("t"),
            run: String::from("r"),
            port,
        },
    }
}

fn report(status: ApplicationStatus, description: &str) -> JobAction {
    JobAction::Report { status, description: String::from(description), container_status: None }
}

#[test]
fn job_begins_by_announcing_and_cloning() {
    let mut job = DeploymentJob::new("abc", "https://github.com/u/app");
    assert_eq!(job.dir(), "tmp/deployment/abc");
    let actions = job.begin();
    assert_eq!(
        actions,
        vec![
            report(ApplicationStatus::DeploymentRequested, ""),
            JobAction::ClearDirectory,
            report(
                ApplicationStatus::RetrievingApplicationData,
                "Retrieving Application Data from https://github.com/u/app"
            ),
            JobAction::CloneRepository,
            JobAction::ReadConfig,
        ]
    );
    assert_eq!(job.stage, JobStage::Configuring);
    assert!(job.begin().is_empty());
}

#[test]
fn job_without_config_fails() {
    let mut job = DeploymentJob::new("abc", "u");
    job.begin();
    let actions = job.config_read(None);
    assert_eq!(
        actions,
        vec![report(
            ApplicationStatus::Errored,
            "shipwreck.toml not detected or incompatible format, please ensure your file is compliant"
        )]
    );
    assert_eq!(job.stage, JobStage::Done);
    let info = job.into_result().unwrap().unwrap_err();
    assert_eq!(info.address, "");
}

#[test]
fn job_with_unknown_language_fails_with_address() {
    let mut job = DeploymentJob::new("abc", "u");
    job.begin();
    let actions = job.config_read(Some(config("cobol", 9000)));
    assert_eq!(
        actions,
        vec![report(
            ApplicationStatus::Errored,
            "shipwreck.toml specified an unsupported language. check the Kraken-UI for supported languages"
        )]
    );
    let info = job.into_result().unwrap().unwrap_err();
    assert_eq!(info.address, "9000");
    assert_eq!(info.deployment_id, "abc");
}

#[test]
fn job_runs_to_a_running_container() {
    let mut job = DeploymentJob::new("abc", "https://github.com/u/app");
    job.begin();
    let actions = job.config_read(Some(config("node", 7211)));
    assert_eq!(
        actions,
        vec![
            JobAction::CopyDockerfile(String::from("node.dockerfile")),
            report(ApplicationStatus::BuildingDeployment, ""),
            JobAction::ConnectDocker,
        ]
    );
    assert_eq!(job.stage, JobStage::Connecting { port: 7211 });
    assert_eq!(job.docker_connected(true), vec![JobAction::BuildImage]);
    let build = DockerImageBuildResult {
        log: vec![String::from("step 1"), String::from("step 2")],
        image_id: String::from("img"),
    };
    let actions = job.image_built(Some(build));
    assert_eq!(
        actions,
        vec![
            report(ApplicationStatus::BuildingDeployment, "step 1\nstep 2"),
            JobAction::Log(String::from("step 1\nstep 2")),
            report(
                ApplicationStatus::BuildingDeployment,
                "docker image created for https://github.com/u/app with id step 1\nstep 2"
            ),
            report(ApplicationStatus::Deploying, ""),
            JobAction::StartContainer { image_id: String::from("img"), port: 7211 },
        ]
    );
    assert_eq!(job.stage, JobStage::Starting);
    let actions = job.container_started(Some((String::from("cid"), Some(String::from("{}")))));
    assert_eq!(
        actions,
        vec![JobAction::Report {
            status: ApplicationStatus::Running,
            description: String::from("cid"),
            container_status: Some(String::from("{}")),
        }]
    );
    let info = job.into_result().unwrap().unwrap();
    assert_eq!(info.address, "7211");
    assert!(info.status.is_ok());
}

#[test]
fn job_with_custom_dockerfile_checks_for_it() {
    let mut job = DeploymentJob::new("abc", "u");
    job.begin();
    assert_eq!(job.config_read(Some(config("custom", 80))), vec![JobAction::ListFiles]);
    assert_eq!(job.stage, JobStage::CheckingDockerfile { port: 80 });
    let files = vec![String::from("tmp/deployment/abc/Dockerfile")];
    assert_eq!(
        job.files_listed(&files),
        vec![report(ApplicationStatus::BuildingDeployment, ""), JobAction::ConnectDocker]
    );
    assert_eq!(job.stage, JobStage::Connecting { port: 80 });

    let mut job = DeploymentJob::new("abc", "u");
    job.begin();
    job.config_read(Some(config("custom", 80)));
    let files = vec![String::from("tmp/deployment/abc/src/Dockerfile")];
    assert_eq!(
        job.files_listed(&files),
        vec![report(
            ApplicationStatus::Errored,
            "The Deployment is configured to use a custom Dockerfile, and one could not be found in the repository root."
        )]
    );
    assert!(job.into_result().unwrap().is_err());
}

#[test]
fn job_without_docker_fails() {
    let mut job = DeploymentJob::new("abc", "u");
    job.begin();
    job.config_read(Some(config("python3", 5000)));
    assert_eq!(
        job.docker_connected(false),
        vec![report(ApplicationStatus::Errored, "Docker could not be reached")]
    );
    assert_eq!(job.stage, JobStage::Done);
    let info = job.into_result().unwrap().unwrap_err();
    assert_eq!(info.address, "5000");
    assert!(info.status.is_err());
}

#[test]
fn job_records_the_clock_reading() {
    let t = Timestamp { secs: 77, nanos: 3 };
    let job = DeploymentJob::new_at("abc", "u", &t);
    assert_eq!(job.info.last_log_time, t);
    assert_eq!(job.stage, JobStage::Start);
    let info = DeploymentInfo::new_at("x", "addr", true, &t);
    assert_eq!(info.last_log_time, t);
    assert_eq!(info.address, "addr");
    assert!(info.status.is_ok());
}

#[test]
fn job_build_and_start_failures() {
    let mut job = DeploymentJob::new("abc", "u");
    job.begin();
    job.config_read(Some(config("python3", 5000)));
    job.docker_connected(true);
    assert_eq!(job.image_built(None), vec![report(ApplicationStatus::Errored, "Error in build process")]);
    assert!(job.into_result().unwrap().is_err());

    let mut job = DeploymentJob::new("abc", "u");
    job.begin();
    job.config_read(Some(config("python3", 5000)));
    job.docker_connected(true);
    job.image_built(Some(DockerImageBuildResult { log: vec![], image_id: String::from("i") }));
    assert_eq!(job.container_started(None), vec![report(ApplicationStatus::Errored, "Error in deployment")]);
    assert!(job.into_result().unwrap().is_err());
}

#[test]
fn job_ignores_outcomes_out_of_order() {
    let mut job = DeploymentJob::new("abc", "u");
    assert!(job.config_read(None).is_empty());
    assert!(job.docker_connected(true).is_empty());
    assert!(job.image_built(None).is_empty());
    assert!(job.container_started(None).is_empty());
    assert!(job.files_listed(&vec![]).is_empty());
    assert_eq!(job.stage, JobStage::Start);
    assert!(job.into_result().is_none());
}
