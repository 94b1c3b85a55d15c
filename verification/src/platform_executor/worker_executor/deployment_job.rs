//! The steps a worker takes to deploy an application: clone its repository, read its
//! configuration, prepare its Dockerfile, build an image and start a container, reporting
//! each step to the orchestrator.
//!
//! A `DeploymentJob` holds where the deployment stands. Each outcome of outside work (the
//! configuration read, the files listed, docker reached, the image built, the container
//! started) is handed to the job, which moves to its next stage and returns the actions to
//! perform next, in order.
use crate::decimal::{i64_text, i64_to_text};
use crate::deployment::shipwreck::Config;
use crate::docker::DockerImageBuildResult;
use crate::gql_model::{text_views, ApplicationStatus};
use crate::platform_executor::DeploymentInfo;
use crate::text::{join_lines, join_newline, owned, push_str};
use super::{deployment_dir, dockerfile_for, dockerfile_for_language, has_custom_dockerfile};
use vstd::prelude::*;

verus! {

/// Where a deployment job stands.
#[derive(Clone, Copy, Debug, PartialEq, Eq, Structural)]
pub enum JobStage {
    /// Nothing done yet
    Start,
    /// The repository is being cloned and its configuration file read
    Configuring,
    /// A custom Dockerfile is being looked for; the application listens on `port`
    CheckingDockerfile { port: i64 },
    /// Docker is being reached
    Connecting { port: i64 },
    /// The image is being built
    Building { port: i64 },
    /// The container is being started
    Starting,
    /// The job is over
    Done,
}

/// Work a job asks for.
#[derive(Debug, PartialEq, Eq)]
pub enum JobAction {
    /// Publish a deployment report with this status and description, and the container
    /// statistics (as JSON text) when there are some
    Report { status: ApplicationStatus, description: String, container_status: Option<String> },
    /// Publish this text to the deployment's log
    Log(String),
    /// Remove what an earlier deployment left in the job's directory
    ClearDirectory,
    /// Clone the repository into the job's directory
    CloneRepository,
    /// Read the configuration file of the cloned repository
    ReadConfig,
    /// Copy the platform's Dockerfile of this name into the job's directory
    CopyDockerfile(String),
    /// List the files of the job's directory
    ListFiles,
    /// Reach the docker daemon
    ConnectDocker,
    /// Build an image from the job's directory
    BuildImage,
    /// Start a container from an image, publishing a port
    StartContainer { image_id: String, port: i64 },
}

/// The mathematical model of an action.
pub enum JobActionView {
    Report(ApplicationStatus, Seq<char>, Option<Seq<char>>),
    Log(Seq<char>),
    ClearDirectory,
    CloneRepository,
    ReadConfig,
    CopyDockerfile(Seq<char>),
    ListFiles,
    ConnectDocker,
    BuildImage,
    StartContainer(Seq<char>, i64),
}

impl View for JobAction {
    type V = JobActionView;

    open spec fn view(&self) -> JobActionView {
        match self {
            JobAction::Report { status, description, container_status } => JobActionView::Report(
                *status,
                description@,
                match container_status {
                    Some(c) => Some(c@),
                    None => None,
                },
            ),
            JobAction::Log(t) => JobActionView::Log(t@),
            JobAction::ClearDirectory => JobActionView::ClearDirectory,
            JobAction::CloneRepository => JobActionView::CloneRepository,
            JobAction::ReadConfig => JobActionView::ReadConfig,
            JobAction::CopyDockerfile(f) => JobActionView::CopyDockerfile(f@),
            JobAction::ListFiles => JobActionView::ListFiles,
            JobAction::ConnectDocker => JobActionView::ConnectDocker,
            JobAction::BuildImage => JobActionView::BuildImage,
            JobAction::StartContainer { image_id, port } => JobActionView::StartContainer(
                image_id@,
                *port,
            ),
        }
    }
}

/// The models of a list of actions.
pub open spec fn action_views(v: Seq<JobAction>) -> Seq<JobActionView> {
    v.map_values(|a: JobAction| a@)
}

/// A report without container statistics.
pub open spec fn report(status: ApplicationStatus, description: Seq<char>) -> JobActionView {
    JobActionView::Report(status, description, None)
}

/// A report action without container statistics.
fn report_action(status: ApplicationStatus, description: &str) -> (res: JobAction)
    ensures
        res@ == report(status, description@),
{
    JobAction::Report { status, description: owned(description), container_status: None }
}

/// The deployment of one application on this worker.
#[derive(Debug)]
pub struct DeploymentJob {
    pub deployment_id: String,
    /// The repository the application is cloned from
    pub git_uri: String,
    pub stage: JobStage,
    /// What the worker keeps of the deployment once the job is over: its address (the
    /// configured port) and whether it is running
    pub info: DeploymentInfo,
}

/// The description of a failed configuration read.
pub open spec fn no_config_text() -> Seq<char> {
    "shipwreck.toml not detected or incompatible format, please ensure your file is compliant"@
}

/// The description of a configuration with an unknown language.
pub open spec fn unsupported_language_text() -> Seq<char> {
    "shipwreck.toml specified an unsupported language. check the Kraken-UI for supported languages"@
}

/// The description of a deployment for which docker could not be reached.
pub open spec fn no_docker_text() -> Seq<char> {
    "Docker could not be reached"@
}

/// The description of a missing custom Dockerfile.
pub open spec fn missing_dockerfile_text() -> Seq<char> {
    "The Deployment is configured to use a custom Dockerfile, and one could not be found in the repository root."@
}

impl DeploymentJob {
    /// The other parts of a job stay as they were.
    pub open spec fn same_but_stage(self, other: DeploymentJob) -> bool {
        &&& self.deployment_id == other.deployment_id
        &&& self.git_uri == other.git_uri
        &&& self.info == other.info
    }

    /// The parts of a job other than its stage and the status of its deployment stay as
    /// they were.
    pub open spec fn same_but_stage_and_status(self, other: DeploymentJob) -> bool {
        &&& self.deployment_id == other.deployment_id
        &&& self.git_uri == other.git_uri
        &&& self.info.deployment_id == other.info.deployment_id
        &&& self.info.address == other.info.address
        &&& self.info.last_log_time == other.info.last_log_time
    }

    /// A job for deployment `deployment_id` from the repository at `git_uri`, with nothing
    /// done yet and a deployment without address, not running.
    pub fn new(deployment_id: &str, git_uri: &str) -> (res: DeploymentJob)
        ensures
            res.deployment_id@ == deployment_id@,
            res.git_uri@ == git_uri@,
            res.stage == JobStage::Start,
            res.info.deployment_id@ == deployment_id@,
            res.info.address@ == Seq::<char>::empty(),
            res.info.status is Err,
            res.info.last_log_time.wf(),
    {
        proof {
            reveal_strlit("");
            assert(""@ =~= Seq::<char>::empty());
        }
        DeploymentJob {
            deployment_id: owned(deployment_id),
            git_uri: owned(git_uri),
            stage: JobStage::Start,
            info: DeploymentInfo::new(deployment_id, "", false),
        }
    }

    /// A job as `new` makes it, whose deployment counts its logs as read up to the clock
    /// reading `now`.
    pub fn new_at(deployment_id: &str, git_uri: &str, now: &crate::clock::Timestamp) -> (res: DeploymentJob)
        ensures
            res.deployment_id@ == deployment_id@,
            res.git_uri@ == git_uri@,
            res.stage == JobStage::Start,
            res.info.deployment_id@ == deployment_id@,
            res.info.address@ == Seq::<char>::empty(),
            res.info.status is Err,
            res.info.last_log_time == *now,
    {
        proof {
            reveal_strlit("");
            assert(""@ =~= Seq::<char>::empty());
        }
        DeploymentJob {
            deployment_id: owned(deployment_id),
            git_uri: owned(git_uri),
            stage: JobStage::Start,
            info: DeploymentInfo::new_at(deployment_id, "", false, now),
        }
    }

    /// The directory the job clones into and builds from.
    pub fn dir(&self) -> (res: String)
        ensures
            res@ == "tmp/deployment/"@ + self.deployment_id@,
    {
        deployment_dir(self.deployment_id.as_str())
    }

    /// Starts the job: announces the deployment, clears the job's directory, announces the
    /// retrieval of the application and asks for the repository and its configuration.
    pub fn begin(&mut self) -> (res: Vec<JobAction>)
        ensures
            final(self).same_but_stage(*old(self)),
            old(self).stage == JobStage::Start ==> {
                &&& final(self).stage == JobStage::Configuring
                &&& action_views(res@) == seq![
                    report(ApplicationStatus::DeploymentRequested, Seq::empty()),
                    JobActionView::ClearDirectory,
                    report(
                        ApplicationStatus::RetrievingApplicationData,
                        "Retrieving Application Data from "@ + old(self).git_uri@,
                    ),
                    JobActionView::CloneRepository,
                    JobActionView::ReadConfig,
                ]
            },
            old(self).stage != JobStage::Start ==> final(self).stage == old(self).stage
                && res@.len() == 0,
    {
        let mut actions: Vec<JobAction> = Vec::new();
        if self.stage == JobStage::Start {
            let mut retrieving = owned("Retrieving Application Data from ");
            push_str(&mut retrieving, self.git_uri.as_str());
            actions.push(report_action(ApplicationStatus::DeploymentRequested, ""));
            actions.push(JobAction::ClearDirectory);
            actions.push(report_action(ApplicationStatus::RetrievingApplicationData, retrieving.as_str()));
            actions.push(JobAction::CloneRepository);
            actions.push(JobAction::ReadConfig);
            self.stage = JobStage::Configuring;
            proof {
                reveal_strlit("");
                assert(""@ =~= Seq::<char>::empty());
                assert(action_views(actions@) =~= seq![
                    report(ApplicationStatus::DeploymentRequested, Seq::empty()),
                    JobActionView::ClearDirectory,
                    report(
                        ApplicationStatus::RetrievingApplicationData,
                        "Retrieving Application Data from "@ + old(self).git_uri@,
                    ),
                    JobActionView::CloneRepository,
                    JobActionView::ReadConfig,
                ]);
            }
        }
        actions
    }

    /// Takes the configuration read from the repository, if it could be read.
    ///
    /// * Without one the job fails.
    /// * Otherwise the deployment takes the configured port as its address, and the
    ///   language decides the Dockerfile: a platform Dockerfile is copied and the build is
    ///   announced, a custom one is looked for among the files, and an unknown language
    ///   fails the job.
    pub fn config_read(&mut self, config: Option<Config>) -> (res: Vec<JobAction>)
        ensures
            old(self).stage == JobStage::Configuring ==> match config {
                None => {
                    &&& final(self).same_but_stage(*old(self))
                    &&& final(self).stage == JobStage::Done
                    &&& action_views(res@) == seq![report(ApplicationStatus::Errored, no_config_text())]
                },
                Some(c) => {
                    &&& final(self).deployment_id == old(self).deployment_id
                    &&& final(self).git_uri == old(self).git_uri
                    &&& final(self).info.deployment_id == old(self).info.deployment_id
                    &&& final(self).info.status == old(self).info.status
                    &&& final(self).info.last_log_time == old(self).info.last_log_time
                    &&& final(self).info.address@ == i64_text(c.config.port)
                    &&& match dockerfile_for(c.config.lang@) {
                        Err(_) => final(self).stage == JobStage::Done && action_views(res@)
                            == seq![report(ApplicationStatus::Errored, unsupported_language_text())],
                        Ok(Some(f)) => final(self).stage == (JobStage::Connecting { port: c.config.port })
                            && action_views(res@) == seq![
                            JobActionView::CopyDockerfile(f),
                            report(ApplicationStatus::BuildingDeployment, Seq::empty()),
                            JobActionView::ConnectDocker,
                        ],
                        Ok(None) => final(self).stage == (JobStage::CheckingDockerfile {
                            port: c.config.port,
                        }) && action_views(res@) == seq![JobActionView::ListFiles],
                    }
                },
            },
            old(self).stage != JobStage::Configuring ==> final(self).same_but_stage(*old(self))
                && final(self).stage == old(self).stage && res@.len() == 0,
    {
        let mut actions: Vec<JobAction> = Vec::new();
        if self.stage != JobStage::Configuring {
            return actions;
        }
        match config {
            None => {
                actions.push(
                    report_action(
                        ApplicationStatus::Errored,
                        "shipwreck.toml not detected or incompatible format, please ensure your file is compliant",
                    ),
                );
                self.stage = JobStage::Done;
                proof {
                    reveal_strlit("shipwreck.toml not detected or incompatible format, please ensure your file is compliant");
                    assert(action_views(actions@) =~= seq![report(ApplicationStatus::Errored, no_config_text())]);
                }
            },
            Some(c) => {
                let port = c.config.port;
                let address = i64_to_text(port);
                self.info.update_address(address.as_str());
                match dockerfile_for_language(c.config.lang.as_str()) {
                    Err(_) => {
                        actions.push(
                            report_action(
                                ApplicationStatus::Errored,
                                "shipwreck.toml specified an unsupported language. check the Kraken-UI for supported languages",
                            ),
                        );
                        self.stage = JobStage::Done;
                        proof {
                            assert(action_views(actions@) =~= seq![
                                report(ApplicationStatus::Errored, unsupported_language_text()),
                            ]);
                        }
                    },
                    Ok(Some(f)) => {
                        actions.push(JobAction::CopyDockerfile(owned(f)));
                        actions.push(report_action(ApplicationStatus::BuildingDeployment, ""));
                        actions.push(JobAction::ConnectDocker);
                        self.stage = JobStage::Connecting { port };
                        proof {
                            reveal_strlit("");
                            assert(""@ =~= Seq::<char>::empty());
                            assert(action_views(actions@) =~= seq![
                                JobActionView::CopyDockerfile(f@),
                                report(ApplicationStatus::BuildingDeployment, Seq::empty()),
                                JobActionView::ConnectDocker,
                            ]);
                        }
                    },
                    Ok(None) => {
                        actions.push(JobAction::ListFiles);
                        self.stage = JobStage::CheckingDockerfile { port };
                        proof {
                            assert(action_views(actions@) =~= seq![JobActionView::ListFiles]);
                        }
                    },
                }
            },
        }
        actions
    }

    /// Takes the files of the job's directory: with the custom Dockerfile at its root the
    /// build is announced, without it the job fails.
    pub fn files_listed(&mut self, files: &Vec<String>) -> (res: Vec<JobAction>)
        ensures
            final(self).same_but_stage(*old(self)),
            match old(self).stage {
                JobStage::CheckingDockerfile { port } => if text_views(files@).contains(
                    "tmp/deployment/"@ + old(self).deployment_id@ + "/Dockerfile"@,
                ) {
                    &&& final(self).stage == (JobStage::Connecting { port })
                    &&& action_views(res@) == seq![
                        report(ApplicationStatus::BuildingDeployment, Seq::empty()),
                        JobActionView::ConnectDocker,
                    ]
                } else {
                    &&& final(self).stage == JobStage::Done
                    &&& action_views(res@) == seq![report(ApplicationStatus::Errored, missing_dockerfile_text())]
                },
                _ => final(self).stage == old(self).stage && res@.len() == 0,
            },
    {
        let mut actions: Vec<JobAction> = Vec::new();
        if let JobStage::CheckingDockerfile { port } = self.stage {
            let dir = self.dir();
            if has_custom_dockerfile(files, dir.as_str()) {
                actions.push(report_action(ApplicationStatus::BuildingDeployment, ""));
                actions.push(JobAction::ConnectDocker);
                self.stage = JobStage::Connecting { port };
                proof {
                    reveal_strlit("");
                    assert(""@ =~= Seq::<char>::empty());
                    assert(action_views(actions@) =~= seq![
                        report(ApplicationStatus::BuildingDeployment, Seq::empty()),
                        JobActionView::ConnectDocker,
                    ]);
                }
            } else {
                actions.push(
                    report_action(
                        ApplicationStatus::Errored,
                        "The Deployment is configured to use a custom Dockerfile, and one could not be found in the repository root.",
                    ),
                );
                self.stage = JobStage::Done;
                proof {
                    assert(action_views(actions@) =~= seq![
                        report(ApplicationStatus::Errored, missing_dockerfile_text()),
                    ]);
                }
            }
        }
        actions
    }

    /// Takes whether docker could be reached: if so the image is built; if not nothing can
    /// be deployed, and the job fails.
    pub fn docker_connected(&mut self, available: bool) -> (res: Vec<JobAction>)
        ensures
            final(self).same_but_stage(*old(self)),
            match old(self).stage {
                JobStage::Connecting { port } => if available {
                    &&& final(self).stage == (JobStage::Building { port })
                    &&& action_views(res@) == seq![JobActionView::BuildImage]
                } else {
                    &&& final(self).stage == JobStage::Done
                    &&& action_views(res@) == seq![report(ApplicationStatus::Errored, no_docker_text())]
                },
                _ => final(self).stage == old(self).stage && res@.len() == 0,
            },
    {
        let mut actions: Vec<JobAction> = Vec::new();
        if let JobStage::Connecting { port } = self.stage {
            if available {
                actions.push(JobAction::BuildImage);
                self.stage = JobStage::Building { port };
                proof {
                    assert(action_views(actions@) =~= seq![JobActionView::BuildImage]);
                }
            } else {
                actions.push(report_action(ApplicationStatus::Errored, "Docker could not be reached"));
                self.stage = JobStage::Done;
                proof {
                    assert(action_views(actions@) =~= seq![
                        report(ApplicationStatus::Errored, no_docker_text()),
                    ]);
                }
            }
        }
        actions
    }

    /// Takes the result of the image build. A failed build fails the job. A built image's
    /// log is reported and published to the deployment's log, the image is announced and
    /// the container is started on the configured port.
    pub fn image_built(&mut self, build: Option<DockerImageBuildResult>) -> (res: Vec<JobAction>)
        ensures
            final(self).same_but_stage(*old(self)),
            match old(self).stage {
                JobStage::Building { port } => match build {
                    None => final(self).stage == JobStage::Done && action_views(res@) == seq![
                        report(ApplicationStatus::Errored, "Error in build process"@),
                    ],
                    Some(r) => {
                        let log = join_lines(text_views(r.log@));
                        &&& final(self).stage == JobStage::Starting
                        &&& action_views(res@) == seq![
                            report(ApplicationStatus::BuildingDeployment, log),
                            JobActionView::Log(log),
                            report(
                                ApplicationStatus::BuildingDeployment,
                                "docker image created for "@ + old(self).git_uri@ + " with id "@ + log,
                            ),
                            report(ApplicationStatus::Deploying, Seq::empty()),
                            JobActionView::StartContainer(r.image_id@, port),
                        ]
                    },
                },
                _ => final(self).stage == old(self).stage && res@.len() == 0,
            },
    {
        let mut actions: Vec<JobAction> = Vec::new();
        if let JobStage::Building { port } = self.stage {
            match build {
                None => {
                    actions.push(report_action(ApplicationStatus::Errored, "Error in build process"));
                    self.stage = JobStage::Done;
                    proof {
                        assert(action_views(actions@) =~= seq![
                            report(ApplicationStatus::Errored, "Error in build process"@),
                        ]);
                    }
                },
                Some(r) => {
                    let log = join_newline(&r.log);
                    let mut created = owned("docker image created for ");
                    push_str(&mut created, self.git_uri.as_str());
                    push_str(&mut created, " with id ");
                    push_str(&mut created, log.as_str());
                    actions.push(report_action(ApplicationStatus::BuildingDeployment, log.as_str()));
                    actions.push(JobAction::Log(log.clone()));
                    actions.push(report_action(ApplicationStatus::BuildingDeployment, created.as_str()));
                    actions.push(report_action(ApplicationStatus::Deploying, ""));
                    actions.push(JobAction::StartContainer { image_id: r.image_id, port });
                    self.stage = JobStage::Starting;
                    proof {
                        reveal_strlit("");
                        assert(""@ =~= Seq::<char>::empty());
                        let l = join_lines(text_views(r.log@));
                        assert(action_views(actions@) =~= seq![
                            report(ApplicationStatus::BuildingDeployment, l),
                            JobActionView::Log(l),
                            report(
                                ApplicationStatus::BuildingDeployment,
                                "docker image created for "@ + old(self).git_uri@ + " with id "@ + l,
                            ),
                            report(ApplicationStatus::Deploying, Seq::empty()),
                            JobActionView::StartContainer(r.image_id@, port),
                        ]);
                    }
                },
            }
        }
        actions
    }

    /// Takes the started container's id and statistics (as JSON text), or nothing when it
    /// could not be started: the job ends with the deployment running, or failed.
    pub fn container_started(&mut self, started: Option<(String, Option<String>)>) -> (res: Vec<JobAction>)
        ensures
            final(self).same_but_stage_and_status(*old(self)),
            old(self).stage == JobStage::Starting ==> {
                &&& final(self).stage == JobStage::Done
                &&& match started {
                    Some((id, stats)) => {
                        &&& final(self).info.status is Ok
                        &&& action_views(res@) == seq![
                            JobActionView::Report(
                                ApplicationStatus::Running,
                                id@,
                                match stats {
                                    Some(s) => Some(s@),
                                    None => None,
                                },
                            ),
                        ]
                    },
                    None => {
                        &&& final(self).info.status == old(self).info.status
                        &&& action_views(res@) == seq![
                            report(ApplicationStatus::Errored, "Error in deployment"@),
                        ]
                    },
                }
            },
            old(self).stage != JobStage::Starting ==> final(self).stage == old(self).stage
                && final(self).info.status == old(self).info.status && res@.len() == 0,
    {
        let mut actions: Vec<JobAction> = Vec::new();
        if self.stage == JobStage::Starting {
            match started {
                Some((id, stats)) => {
                    actions.push(JobAction::Report {
                        status: ApplicationStatus::Running,
                        description: id,
                        container_status: stats,
                    });
                    self.info.deployment_is_ok(true);
                },
                None => {
                    actions.push(report_action(ApplicationStatus::Errored, "Error in deployment"));
                },
            }
            self.stage = JobStage::Done;
            proof {
                assert(action_views(actions@) =~= seq![actions@[0]@]);
            }
        }
        actions
    }

    /// What the job leaves once over: the deployment, as a success when it is running and as
    /// a failure otherwise; nothing while the job goes on.
    pub fn into_result(self) -> (res: Option<Result<DeploymentInfo, DeploymentInfo>>)
        ensures
            self.stage == JobStage::Done ==> match res {
                Some(Ok(d)) => self.info.status is Ok && d == self.info,
                Some(Err(d)) => self.info.status is Err && d == self.info,
                None => false,
            },
            self.stage != JobStage::Done ==> res is None,
    {
        if self.stage == JobStage::Done {
            if self.info.status.is_ok() {
                Some(Ok(self.info))
            } else {
                Some(Err(self.info))
            }
        } else {
            None
        }
    }
}

} // verus!
