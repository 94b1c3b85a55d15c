//! The model of the platform that the orchestrator keeps and serves:
//! services, nodes, deployments and their statuses.
use crate::clock::{now, Timestamp};
use crate::docker::ContainerStatus;
use crate::platform_executor::NodeMode;
use crate::text::{owned, text_eq};
use vstd::prelude::*;

verus! {

/// Statuses for platform services.
#[derive(Clone, Copy, Debug, PartialEq, Eq, Structural)]
pub enum ServiceStatus {
    OK,
    ERRORED,
}

/// A service provided by the Kraken platform.
#[derive(Debug, PartialEq, Eq)]
pub struct Service {
    pub name: String,
    pub version: String,
    pub service_url: String,
    pub status: ServiceStatus,
}

/// The mathematical model of a service.
pub struct ServiceView {
    pub name: Seq<char>,
    pub version: Seq<char>,
    pub service_url: Seq<char>,
    pub status: ServiceStatus,
}

impl View for Service {
    type V = ServiceView;

    open spec fn view(&self) -> ServiceView {
        ServiceView {
            name: self.name@,
            version: self.version@,
            service_url: self.service_url@,
            status: self.status,
        }
    }
}

/// The models of a list of services.
pub open spec fn service_views(v: Seq<Service>) -> Seq<ServiceView> {
    v.map_values(|x: Service| x@)
}

impl Clone for Service {
    fn clone(&self) -> (res: Self)
        ensures
            res@ == self@,
    {
        Service {
            name: self.name.clone(),
            version: self.version.clone(),
            service_url: self.service_url.clone(),
            status: self.status,
        }
    }
}

impl Service {
    pub fn new(name: &str, version: &str, service_url: &str, status: ServiceStatus) -> (res: Service)
        ensures
            res@ == (ServiceView {
                name: name@,
                version: version@,
                service_url: service_url@,
                status,
            }),
    {
        Service {
            name: owned(name),
            version: owned(version),
            service_url: owned(service_url),
            status,
        }
    }
}

/// The error of `ApplicationStatus::from_str`: the text names no status.
#[derive(Clone, Copy, Debug, PartialEq, Eq, Structural)]
pub enum ParseError {
    VariantNotFound,
}

/// States an application (deployment) can be in.
#[derive(Clone, Copy, Debug, PartialEq, Eq, Structural)]
pub enum ApplicationStatus {
    /// User has requested a deployment
    /// This state is used by the orchestrator to initiate new deployments
    DeploymentRequested,
    /// Ensuring deployment has a valid configuration
    ValidatingDeploymentData,
    /// Deployment data is being cloned to the target Node
    RetrievingApplicationData,
    /// The deployment is being assigned to a Worker on the Platform
    DelegatingDeployment,
    /// The Worker is building the docker image
    BuildingDeployment,
    /// Unused, intended for CI operations
    TestingDeployment,
    /// Docker image has been built, rolling out container
    Deploying,
    /// Deployment is running normally
    Running,
    /// Deployment has errored somewhere along the build process, or container has errored out
    Errored,
    /// The deployment has been requested to be killed. Used by the Orchestrator to Delegate Destruction
    DestructionRequested,
    /// The orchestrator is dispatching a WorkRequestMessage to kill the Deployment
    DelegatingDestruction,
    /// The Worker responsible for the Deployment is killing the Docker Container
    DestructionInProgress,
    /// The Deployment has succesfully been destroyed
    Destroyed,
    /// The User has requested the deployment be updated from the remote source
    /// This will trigger a Destruction, followed by a Deployment Request
    UpdateRequested,
}

/// The text of a status: the name of its variant.
pub open spec fn status_name(s: ApplicationStatus) -> Seq<char> {
    match s {
        ApplicationStatus::DeploymentRequested => "DeploymentRequested"@,
        ApplicationStatus::ValidatingDeploymentData => "ValidatingDeploymentData"@,
        ApplicationStatus::RetrievingApplicationData => "RetrievingApplicationData"@,
        ApplicationStatus::DelegatingDeployment => "DelegatingDeployment"@,
        ApplicationStatus::BuildingDeployment => "BuildingDeployment"@,
        ApplicationStatus::TestingDeployment => "TestingDeployment"@,
        ApplicationStatus::Deploying => "Deploying"@,
        ApplicationStatus::Running => "Running"@,
        ApplicationStatus::Errored => "Errored"@,
        ApplicationStatus::DestructionRequested => "DestructionRequested"@,
        ApplicationStatus::DelegatingDestruction => "DelegatingDestruction"@,
        ApplicationStatus::DestructionInProgress => "DestructionInProgress"@,
        ApplicationStatus::Destroyed => "Destroyed"@,
        ApplicationStatus::UpdateRequested => "UpdateRequested"@,
    }
}

/// The status whose name is `s`, if there is one.
pub open spec fn status_named(s: Seq<char>) -> Option<ApplicationStatus> {
    if s == "DeploymentRequested"@ {
        Some(ApplicationStatus::DeploymentRequested)
    } else if s == "ValidatingDeploymentData"@ {
        Some(ApplicationStatus::ValidatingDeploymentData)
    } else if s == "RetrievingApplicationData"@ {
        Some(ApplicationStatus::RetrievingApplicationData)
    } else if s == "DelegatingDeployment"@ {
        Some(ApplicationStatus::DelegatingDeployment)
    } else if s == "BuildingDeployment"@ {
        Some(ApplicationStatus::BuildingDeployment)
    } else if s == "TestingDeployment"@ {
        Some(ApplicationStatus::TestingDeployment)
    } else if s == "Deploying"@ {
        Some(ApplicationStatus::Deploying)
    } else if s == "Running"@ {
        Some(ApplicationStatus::Running)
    } else if s == "Errored"@ {
        Some(ApplicationStatus::Errored)
    } else if s == "DestructionRequested"@ {
        Some(ApplicationStatus::DestructionRequested)
    } else if s == "DelegatingDestruction"@ {
        Some(ApplicationStatus::DelegatingDestruction)
    } else if s == "DestructionInProgress"@ {
        Some(ApplicationStatus::DestructionInProgress)
    } else if s == "Destroyed"@ {
        Some(ApplicationStatus::Destroyed)
    } else if s == "UpdateRequested"@ {
        Some(ApplicationStatus::UpdateRequested)
    } else {
        None
    }
}

/// Reading a status back from its text gives the same status.
pub proof fn lemma_status_name_roundtrip(s: ApplicationStatus)
    ensures
        status_named(status_name(s)) == Some(s),
{
    reveal_strlit("DeploymentRequested");
    reveal_strlit("ValidatingDeploymentData");
    reveal_strlit("RetrievingApplicationData");
    reveal_strlit("DelegatingDeployment");
    reveal_strlit("BuildingDeployment");
    reveal_strlit("TestingDeployment");
    reveal_strlit("Deploying");
    reveal_strlit("Running");
    reveal_strlit("Errored");
    reveal_strlit("DestructionRequested");
    reveal_strlit("DelegatingDestruction");
    reveal_strlit("DestructionInProgress");
    reveal_strlit("Destroyed");
    reveal_strlit("UpdateRequested");
    match s {
        ApplicationStatus::DeploymentRequested => {

        },
        ApplicationStatus::ValidatingDeploymentData => {
            assert("ValidatingDeploymentData"@.len() != "DeploymentRequested"@.len());
            assert("ValidatingDeploymentData"@ != "DeploymentRequested"@);
        },
        ApplicationStatus::RetrievingApplicationData => {
            assert("RetrievingApplicationData"@.len() != "DeploymentRequested"@.len());
            assert("RetrievingApplicationData"@ != "DeploymentRequested"@);
            assert("RetrievingApplicationData"@.len() != "ValidatingDeploymentData"@.len());
            assert("RetrievingApplicationData"@ != "ValidatingDeploymentData"@);
        },
        ApplicationStatus::DelegatingDeployment => {
            assert("DelegatingDeployment"@.len() != "DeploymentRequested"@.len());
            assert("DelegatingDeployment"@ != "DeploymentRequested"@);
            assert("DelegatingDeployment"@.len() != "ValidatingDeploymentData"@.len());
            assert("DelegatingDeployment"@ != "ValidatingDeploymentData"@);
            assert("DelegatingDeployment"@.len() != "RetrievingApplicationData"@.len());
            assert("DelegatingDeployment"@ != "RetrievingApplicationData"@);
        },
        ApplicationStatus::BuildingDeployment => {
            assert("BuildingDeployment"@.len() != "DeploymentRequested"@.len());
            assert("BuildingDeployment"@ != "DeploymentRequested"@);
            assert("BuildingDeployment"@.len() != "ValidatingDeploymentData"@.len());
            assert("BuildingDeployment"@ != "ValidatingDeploymentData"@);
            assert("BuildingDeployment"@.len() != "RetrievingApplicationData"@.len());
            assert("BuildingDeployment"@ != "RetrievingApplicationData"@);
            assert("BuildingDeployment"@.len() != "DelegatingDeployment"@.len());
            assert("BuildingDeployment"@ != "DelegatingDeployment"@);
        },
        ApplicationStatus::TestingDeployment => {
            assert("TestingDeployment"@.len() != "DeploymentRequested"@.len());
            assert("TestingDeployment"@ != "DeploymentRequested"@);
            assert("TestingDeployment"@.len() != "ValidatingDeploymentData"@.len());
            assert("TestingDeployment"@ != "ValidatingDeploymentData"@);
            assert("TestingDeployment"@.len() != "RetrievingApplicationData"@.len());
            assert("TestingDeployment"@ != "RetrievingApplicationData"@);
            assert("TestingDeployment"@.len() != "DelegatingDeployment"@.len());
            assert("TestingDeployment"@ != "DelegatingDeployment"@);
            assert("TestingDeployment"@.len() != "BuildingDeployment"@.len());
            assert("TestingDeployment"@ != "BuildingDeployment"@);
        },
        ApplicationStatus::Deploying => {
            assert("Deploying"@.len() != "DeploymentRequested"@.len());
            assert("Deploying"@ != "DeploymentRequested"@);
            assert("Deploying"@.len() != "ValidatingDeploymentData"@.len());
            assert("Deploying"@ != "ValidatingDeploymentData"@);
            assert("Deploying"@.len() != "RetrievingApplicationData"@.len());
            assert("Deploying"@ != "RetrievingApplicationData"@);
            assert("Deploying"@.len() != "DelegatingDeployment"@.len());
            assert("Deploying"@ != "DelegatingDeployment"@);
            assert("Deploying"@.len() != "BuildingDeployment"@.len());
            assert("Deploying"@ != "BuildingDeployment"@);
            assert("Deploying"@.len() != "TestingDeployment"@.len());
            assert("Deploying"@ != "TestingDeployment"@);
        },
        ApplicationStatus::Running => {
            assert("Running"@.len() != "DeploymentRequested"@.len());
            assert("Running"@ != "DeploymentRequested"@);
            assert("Running"@.len() != "ValidatingDeploymentData"@.len());
            assert("Running"@ != "ValidatingDeploymentData"@);
            assert("Running"@.len() != "RetrievingApplicationData"@.len());
            assert("Running"@ != "RetrievingApplicationData"@);
            assert("Running"@.len() != "DelegatingDeployment"@.len());
            assert("Running"@ != "DelegatingDeployment"@);
            assert("Running"@.len() != "BuildingDeployment"@.len());
            assert("Running"@ != "BuildingDeployment"@);
            assert("Running"@.len() != "TestingDeployment"@.len());
            assert("Running"@ != "TestingDeployment"@);
            assert("Running"@.len() != "Deploying"@.len());
            assert("Running"@ != "Deploying"@);
        },
        ApplicationStatus::Errored => {
            assert("Errored"@.len() != "DeploymentRequested"@.len());
            assert("Errored"@ != "DeploymentRequested"@);
            assert("Errored"@.len() != "ValidatingDeploymentData"@.len());
            assert("Errored"@ != "ValidatingDeploymentData"@);
            assert("Errored"@.len() != "RetrievingApplicationData"@.len());
            assert("Errored"@ != "RetrievingApplicationData"@);
            assert("Errored"@.len() != "DelegatingDeployment"@.len());
            assert("Errored"@ != "DelegatingDeployment"@);
            assert("Errored"@.len() != "BuildingDeployment"@.len());
            assert("Errored"@ != "BuildingDeployment"@);
            assert("Errored"@.len() != "TestingDeployment"@.len());
            assert("Errored"@ != "TestingDeployment"@);
            assert("Errored"@.len() != "Deploying"@.len());
            assert("Errored"@ != "Deploying"@);
            assert("Errored"@[0] != "Running"@[0]);
            assert("Errored"@ != "Running"@);
        },
        ApplicationStatus::DestructionRequested => {
            assert("DestructionRequested"@.len() != "DeploymentRequested"@.len());
            assert("DestructionRequested"@ != "DeploymentRequested"@);
            assert("DestructionRequested"@.len() != "ValidatingDeploymentData"@.len());
            assert("DestructionRequested"@ != "ValidatingDeploymentData"@);
            assert("DestructionRequested"@.len() != "RetrievingApplicationData"@.len());
            assert("DestructionRequested"@ != "RetrievingApplicationData"@);
            assert("DestructionRequested"@[2] != "DelegatingDeployment"@[2]);
            assert("DestructionRequested"@ != "DelegatingDeployment"@);
            assert("DestructionRequested"@.len() != "BuildingDeployment"@.len());
            assert("DestructionRequested"@ != "BuildingDeployment"@);
            assert("DestructionRequested"@.len() != "TestingDeployment"@.len());
            assert("DestructionRequested"@ != "TestingDeployment"@);
            assert("DestructionRequested"@.len() != "Deploying"@.len());
            assert("DestructionRequested"@ != "Deploying"@);
            assert("DestructionRequested"@.len() != "Running"@.len());
            assert("DestructionRequested"@ != "Running"@);
            assert("DestructionRequested"@.len() != "Errored"@.len());
            assert("DestructionRequested"@ != "Errored"@);
        },
        ApplicationStatus::DelegatingDestruction => {
            assert("DelegatingDestruction"@.len() != "DeploymentRequested"@.len());
            assert("DelegatingDestruction"@ != "DeploymentRequested"@);
            assert("DelegatingDestruction"@.len() != "ValidatingDeploymentData"@.len());
            assert("DelegatingDestruction"@ != "ValidatingDeploymentData"@);
            assert("DelegatingDestruction"@.len() != "RetrievingApplicationData"@.len());
            assert("DelegatingDestruction"@ != "RetrievingApplicationData"@);
            assert("DelegatingDestruction"@.len() != "DelegatingDeployment"@.len());
            assert("DelegatingDestruction"@ != "DelegatingDeployment"@);
            assert("DelegatingDestruction"@.len() != "BuildingDeployment"@.len());
            assert("DelegatingDestruction"@ != "BuildingDeployment"@);
            assert("DelegatingDestruction"@.len() != "TestingDeployment"@.len());
            assert("DelegatingDestruction"@ != "TestingDeployment"@);
            assert("DelegatingDestruction"@.len() != "Deploying"@.len());
            assert("DelegatingDestruction"@ != "Deploying"@);
            assert("DelegatingDestruction"@.len() != "Running"@.len());
            assert("DelegatingDestruction"@ != "Running"@);
            assert("DelegatingDestruction"@.len() != "Errored"@.len());
            assert("DelegatingDestruction"@ != "Errored"@);
            assert("DelegatingDestruction"@.len() != "DestructionRequested"@.len());
            assert("DelegatingDestruction"@ != "DestructionRequested"@);
        },
        ApplicationStatus::DestructionInProgress => {
            assert("DestructionInProgress"@.len() != "DeploymentRequested"@.len());
            assert("DestructionInProgress"@ != "DeploymentRequested"@);
            assert("DestructionInProgress"@.len() != "ValidatingDeploymentData"@.len());
            assert("DestructionInProgress"@ != "ValidatingDeploymentData"@);
            assert("DestructionInProgress"@.len() != "RetrievingApplicationData"@.len());
            assert("DestructionInProgress"@ != "RetrievingApplicationData"@);
            assert("DestructionInProgress"@.len() != "DelegatingDeployment"@.len());
            assert("DestructionInProgress"@ != "DelegatingDeployment"@);
            assert("DestructionInProgress"@.len() != "BuildingDeployment"@.len());
            assert("DestructionInProgress"@ != "BuildingDeployment"@);
            assert("DestructionInProgress"@.len() != "TestingDeployment"@.len());
            assert("DestructionInProgress"@ != "TestingDeployment"@);
            assert("DestructionInProgress"@.len() != "Deploying"@.len());
            assert("DestructionInProgress"@ != "Deploying"@);
            assert("DestructionInProgress"@.len() != "Running"@.len());
            assert("DestructionInProgress"@ != "Running"@);
            assert("DestructionInProgress"@.len() != "Errored"@.len());
            assert("DestructionInProgress"@ != "Errored"@);
            assert("DestructionInProgress"@.len() != "DestructionRequested"@.len());
            assert("DestructionInProgress"@ != "DestructionRequested"@);
            assert("DestructionInProgress"@[2] != "DelegatingDestruction"@[2]);
            assert("DestructionInProgress"@ != "DelegatingDestruction"@);
        },
        ApplicationStatus::Destroyed => {
            assert("Destroyed"@.len() != "DeploymentRequested"@.len());
            assert("Destroyed"@ != "DeploymentRequested"@);
            assert("Destroyed"@.len() != "ValidatingDeploymentData"@.len());
            assert("Destroyed"@ != "ValidatingDeploymentData"@);
            assert("Destroyed"@.len() != "RetrievingApplicationData"@.len());
            assert("Destroyed"@ != "RetrievingApplicationData"@);
            assert("Destroyed"@.len() != "DelegatingDeployment"@.len());
            assert("Destroyed"@ != "DelegatingDeployment"@);
            assert("Destroyed"@.len() != "BuildingDeployment"@.len());
            assert("Destroyed"@ != "BuildingDeployment"@);
            assert("Destroyed"@.len() != "TestingDeployment"@.len());
            assert("Destroyed"@ != "TestingDeployment"@);
            assert("Destroyed"@[2] != "Deploying"@[2]);
            assert("Destroyed"@ != "Deploying"@);
            assert("Destroyed"@.len() != "Running"@.len());
            assert("Destroyed"@ != "Running"@);
            assert("Destroyed"@.len() != "Errored"@.len());
            assert("Destroyed"@ != "Errored"@);
            assert("Destroyed"@.len() != "DestructionRequested"@.len());
            assert("Destroyed"@ != "DestructionRequested"@);
            assert("Destroyed"@.len() != "DelegatingDestruction"@.len());
            assert("Destroyed"@ != "DelegatingDestruction"@);
            assert("Destroyed"@.len() != "DestructionInProgress"@.len());
            assert("Destroyed"@ != "DestructionInProgress"@);
        },
        ApplicationStatus::UpdateRequested => {
            assert("UpdateRequested"@.len() != "DeploymentRequested"@.len());
            assert("UpdateRequested"@ != "DeploymentRequested"@);
            assert("UpdateRequested"@.len() != "ValidatingDeploymentData"@.len());
            assert("UpdateRequested"@ != "ValidatingDeploymentData"@);
            assert("UpdateRequested"@.len() != "RetrievingApplicationData"@.len());
            assert("UpdateRequested"@ != "RetrievingApplicationData"@);
            assert("UpdateRequested"@.len() != "DelegatingDeployment"@.len());
            assert("UpdateRequested"@ != "DelegatingDeployment"@);
            assert("UpdateRequested"@.len() != "BuildingDeployment"@.len());
            assert("UpdateRequested"@ != "BuildingDeployment"@);
            assert("UpdateRequested"@.len() != "TestingDeployment"@.len());
            assert("UpdateRequested"@ != "TestingDeployment"@);
            assert("UpdateRequested"@.len() != "Deploying"@.len());
            assert("UpdateRequested"@ != "Deploying"@);
            assert("UpdateRequested"@.len() != "Running"@.len());
            assert("UpdateRequested"@ != "Running"@);
            assert("UpdateRequested"@.len() != "Errored"@.len());
            assert("UpdateRequested"@ != "Errored"@);
            assert("UpdateRequested"@.len() != "DestructionRequested"@.len());
            assert("UpdateRequested"@ != "DestructionRequested"@);
            assert("UpdateRequested"@.len() != "DelegatingDestruction"@.len());
            assert("UpdateRequested"@ != "DelegatingDestruction"@);
            assert("UpdateRequested"@.len() != "DestructionInProgress"@.len());
            assert("UpdateRequested"@ != "DestructionInProgress"@);
            assert("UpdateRequested"@.len() != "Destroyed"@.len());
            assert("UpdateRequested"@ != "Destroyed"@);
        },
    }
}

/// No status name holds a `'|'`.
pub proof fn lemma_status_name_bar_free(s: ApplicationStatus)
    ensures
        crate::text::bar_free(status_name(s)),
{
    reveal_strlit("DeploymentRequested");
    reveal_strlit("ValidatingDeploymentData");
    reveal_strlit("RetrievingApplicationData");
    reveal_strlit("DelegatingDeployment");
    reveal_strlit("BuildingDeployment");
    reveal_strlit("TestingDeployment");
    reveal_strlit("Deploying");
    reveal_strlit("Running");
    reveal_strlit("Errored");
    reveal_strlit("DestructionRequested");
    reveal_strlit("DelegatingDestruction");
    reveal_strlit("DestructionInProgress");
    reveal_strlit("Destroyed");
    reveal_strlit("UpdateRequested");
    let n = status_name(s);
    assert(!n.contains('|')) by {
        if n.contains('|') {
            let k = choose|k: int| 0 <= k < n.len() && n[k] == '|';
        }
    }
}

impl ApplicationStatus {
    /// The name of the status, as its `Display` text.
    pub fn to_string(&self) -> (res: String)
        ensures
            res@ == status_name(*self),
    {
        match self {
            ApplicationStatus::DeploymentRequested => owned("DeploymentRequested"),
            ApplicationStatus::ValidatingDeploymentData => owned("ValidatingDeploymentData"),
            ApplicationStatus::RetrievingApplicationData => owned("RetrievingApplicationData"),
            ApplicationStatus::DelegatingDeployment => owned("DelegatingDeployment"),
            ApplicationStatus::BuildingDeployment => owned("BuildingDeployment"),
            ApplicationStatus::TestingDeployment => owned("TestingDeployment"),
            ApplicationStatus::Deploying => owned("Deploying"),
            ApplicationStatus::Running => owned("Running"),
            ApplicationStatus::Errored => owned("Errored"),
            ApplicationStatus::DestructionRequested => owned("DestructionRequested"),
            ApplicationStatus::DelegatingDestruction => owned("DelegatingDestruction"),
            ApplicationStatus::DestructionInProgress => owned("DestructionInProgress"),
            ApplicationStatus::Destroyed => owned("Destroyed"),
            ApplicationStatus::UpdateRequested => owned("UpdateRequested"),
        }
    }

    /// Parses a status from the exact name of its variant.
    pub fn from_str(s: &str) -> (res: Result<ApplicationStatus, ParseError>)
        ensures
            res == match status_named(s@) {
                Some(v) => Ok::<ApplicationStatus, ParseError>(v),
                None => Err(ParseError::VariantNotFound),
            },
    {
        if text_eq(s, "DeploymentRequested") {
            Ok(ApplicationStatus::DeploymentRequested)
        } else if text_eq(s, "ValidatingDeploymentData") {
            Ok(ApplicationStatus::ValidatingDeploymentData)
        } else if text_eq(s, "RetrievingApplicationData") {
            Ok(ApplicationStatus::RetrievingApplicationData)
        } else if text_eq(s, "DelegatingDeployment") {
            Ok(ApplicationStatus::DelegatingDeployment)
        } else if text_eq(s, "BuildingDeployment") {
            Ok(ApplicationStatus::BuildingDeployment)
        } else if text_eq(s, "TestingDeployment") {
            Ok(ApplicationStatus::TestingDeployment)
        } else if text_eq(s, "Deploying") {
            Ok(ApplicationStatus::Deploying)
        } else if text_eq(s, "Running") {
            Ok(ApplicationStatus::Running)
        } else if text_eq(s, "Errored") {
            Ok(ApplicationStatus::Errored)
        } else if text_eq(s, "DestructionRequested") {
            Ok(ApplicationStatus::DestructionRequested)
        } else if text_eq(s, "DelegatingDestruction") {
            Ok(ApplicationStatus::DelegatingDestruction)
        } else if text_eq(s, "DestructionInProgress") {
            Ok(ApplicationStatus::DestructionInProgress)
        } else if text_eq(s, "Destroyed") {
            Ok(ApplicationStatus::Destroyed)
        } else if text_eq(s, "UpdateRequested") {
            Ok(ApplicationStatus::UpdateRequested)
        } else {
            Err(ParseError::VariantNotFound)
        }
    }
}

/// The name of a status read back gives the status.
pub proof fn law_status_text_roundtrip(s: ApplicationStatus)
    ensures
        status_named(status_name(s)) == Some(s),
{
    lemma_status_name_roundtrip(s);
}

/// An application status coupled with the time of the update.
#[derive(Clone, Copy, Debug, PartialEq, Eq, Structural)]
pub struct TemporalApplicationStatus {
    pub status: ApplicationStatus,
    /// Unix timestamp for the status update.
    pub time: u64,
}

impl TemporalApplicationStatus {
    /// The status, as the GraphQL resolver serves it.
    pub fn status(&self) -> (res: ApplicationStatus)
        ensures
            res == self.status,
    {
        self.status
    }

    /// The time, as the GraphQL resolver serves it: cast to `i32`, keeping the low 32 bits.
    pub fn time(&self) -> (res: i32)
        ensures
            res == self.time as i32,
    {
        self.time as i32
    }
}

/// Information associated with a Kraken-UI instance.
#[derive(Debug, PartialEq, Eq)]
pub struct OrchestratorInterface {
    pub src_url: Option<String>,
    pub cloned_commit: Option<String>,
    pub status: ApplicationStatus,
}

/// The mathematical model of an orchestrator interface.
pub struct OrchestratorInterfaceView {
    pub src_url: Option<Seq<char>>,
    pub cloned_commit: Option<Seq<char>>,
    pub status: ApplicationStatus,
}

/// The model of an optional text.
pub open spec fn opt_text(s: Option<String>) -> Option<Seq<char>> {
    match s {
        Some(v) => Some(v@),
        None => None,
    }
}

impl View for OrchestratorInterface {
    type V = OrchestratorInterfaceView;

    open spec fn view(&self) -> OrchestratorInterfaceView {
        OrchestratorInterfaceView {
            src_url: opt_text(self.src_url),
            cloned_commit: opt_text(self.cloned_commit),
            status: self.status,
        }
    }
}

impl Clone for OrchestratorInterface {
    fn clone(&self) -> (res: Self)
        ensures
            res@ == self@,
    {
        OrchestratorInterface {
            src_url: clone_opt_string(&self.src_url),
            cloned_commit: clone_opt_string(&self.cloned_commit),
            status: self.status,
        }
    }
}

/// A copy of an optional text.
pub fn clone_opt_string(s: &Option<String>) -> (res: Option<String>)
    ensures
        opt_text(res) == opt_text(*s),
{
    match s {
        Some(v) => Some(v.clone()),
        None => None,
    }
}

impl OrchestratorInterface {
    pub fn new(src_url: Option<String>, cloned_commit: Option<String>, status: ApplicationStatus) -> (res: OrchestratorInterface)
        ensures
            res@ == (OrchestratorInterfaceView {
                src_url: opt_text(src_url),
                cloned_commit: opt_text(cloned_commit),
                status,
            }),
    {
        OrchestratorInterface { src_url, cloned_commit, status }
    }

    pub fn update_status(&mut self, new_status: ApplicationStatus)
        ensures
            final(self)@ == (OrchestratorInterfaceView { status: new_status, ..old(self)@ }),
    {
        self.status = new_status;
    }
}

/// Orchestrator-specific metadata.
#[derive(Debug, PartialEq, Eq)]
pub struct Orchestrator {
    pub ui: OrchestratorInterface,
    pub services: Option<Vec<Service>>,
}

/// The mathematical model of the orchestrator's metadata.
pub struct OrchestratorView {
    pub ui: OrchestratorInterfaceView,
    pub services: Option<Seq<ServiceView>>,
}

impl View for Orchestrator {
    type V = OrchestratorView;

    open spec fn view(&self) -> OrchestratorView {
        OrchestratorView {
            ui: self.ui@,
            services: match self.services {
                Some(v) => Some(service_views(v@)),
                None => None,
            },
        }
    }
}

/// A copy of a list of services.
pub fn clone_services(v: &Vec<Service>) -> (res: Vec<Service>)
    ensures
        service_views(res@) == service_views(v@),
{
    let mut out: Vec<Service> = Vec::new();
    let mut i: usize = 0;
    while i < v.len()
        invariant
            i <= v.len(),
            out@.len() == i,
            forall|j: int| 0 <= j < i ==> #[trigger] out@[j]@ == v@[j]@,
        decreases v.len() - i,
    {
        out.push(v[i].clone());
        i = i + 1;
    }
    proof {
        assert(service_views(out@) =~= service_views(v@));
    }
    out
}

impl Clone for Orchestrator {
    fn clone(&self) -> (res: Self)
        ensures
            res@ == self@,
    {
        Orchestrator {
            ui: self.ui.clone(),
            services: match &self.services {
                Some(v) => Some(clone_services(v)),
                None => None,
            },
        }
    }
}

impl Orchestrator {
    pub fn new(interface: OrchestratorInterface) -> (res: Orchestrator)
        ensures
            res@ == (OrchestratorView { ui: interface@, services: None }),
    {
        Orchestrator { ui: interface, services: None }
    }

    pub fn add_service(&mut self, service: Service)
        ensures
            final(self)@ == old(self)@.with_service(service@),
    {
        match &mut self.services {
            Some(v) => {
                v.push(service);
                proof {
                    assert(service_views(v@) =~= service_views(old(self).services->0@).push(service@));
                }
            },
            None => {
                self.services = Some(vec![service]);
                proof {
                    assert(service_views(self.services->0@) =~= seq![service@]);
                }
            },
        }
    }
}

impl OrchestratorView {
    /// The services of the orchestrator as a sequence; none is the empty sequence.
    pub open spec fn service_list(self) -> Seq<ServiceView> {
        match self.services {
            Some(v) => v,
            None => Seq::empty(),
        }
    }

    /// The orchestrator after `Orchestrator::add_service`: the service is appended to its
    /// services, and the interface is unchanged.
    pub open spec fn with_service(self, s: ServiceView) -> OrchestratorView {
        OrchestratorView { services: Some(self.service_list().push(s)), ..self }
    }

    /// The orchestrator after adding the services `ss` one after the other.
    pub open spec fn with_services(self, ss: Seq<ServiceView>) -> OrchestratorView
        decreases ss.len(),
    {
        if ss.len() == 0 {
            self
        } else {
            self.with_services(ss.drop_last()).with_service(ss.last())
        }
    }
}

/// Adding services one after the other keeps them all, in call order, after those the
/// orchestrator had, and leaves its interface unchanged; some services are listed once at
/// least one was added.
pub proof fn law_services_kept_in_order(o: OrchestratorView, ss: Seq<ServiceView>)
    ensures
        o.with_services(ss).ui == o.ui,
        o.with_services(ss).service_list() == o.service_list() + ss,
        ss.len() > 0 ==> o.with_services(ss).services is Some,
        ss.len() == 0 ==> o.with_services(ss) == o,
    decreases ss.len(),
{
    if ss.len() > 0 {
        law_services_kept_in_order(o, ss.drop_last());
        assert(o.service_list() + ss.drop_last() + seq![ss.last()] =~= o.service_list() + ss);
        assert((o.service_list() + ss.drop_last()).push(ss.last()) =~= o.service_list() + ss);
    } else {
        assert(o.service_list() + ss =~= o.service_list());
    }
}

/// A new orchestrator that is given services one after the other lists exactly them, in
/// call order, or none when it was given none.
pub proof fn law_new_orchestrator_services(ui: OrchestratorInterfaceView, ss: Seq<ServiceView>)
    ensures
        (OrchestratorView { ui, services: None }).with_services(ss).ui == ui,
        (OrchestratorView { ui, services: None }).with_services(ss).services == if ss.len() == 0 {
            None
        } else {
            Some(ss)
        },
{
    let o = OrchestratorView { ui, services: None };
    law_services_kept_in_order(o, ss);
    assert(Seq::<ServiceView>::empty() + ss =~= ss);
}

/// The models of a list of texts.
pub open spec fn text_views(v: Seq<String>) -> Seq<Seq<char>> {
    v.map_values(|x: String| x@)
}

/// A copy of a list of texts.
pub fn clone_strings(v: &Vec<String>) -> (res: Vec<String>)
    ensures
        res@ == v@,
        text_views(res@) == text_views(v@),
{
    let mut out: Vec<String> = Vec::new();
    let mut i: usize = 0;
    while i < v.len()
        invariant
            i <= v.len(),
            out@ == v@.take(i as int),
        decreases v.len() - i,
    {
        out.push(v[i].clone());
        i = i + 1;
        proof {
            assert(out@ =~= v@.take(i as int));
        }
    }
    proof {
        assert(v@.take(v.len() as int) =~= v@);
    }
    out
}

/// A node on the platform.
#[derive(Debug, PartialEq, Eq)]
pub struct Node {
    /// Unique ID for the node
    pub id: String,
    /// Descriptive string for the node
    pub model: String,
    /// The IP address of the node
    pub addr: String,
    /// The mode the node is operating in
    pub mode: NodeMode,
    /// The priority this node holds for orchestration
    pub orchestration_priority: Option<u8>,
    /// The time the node has been running
    pub uptime: u64,
    /// How much ram is free on the device
    pub ram_free: u64,
    /// How much ram is in use on the device
    pub ram_used: u64,
    /// Average load on the CPU over the last five minutes, as the bit pattern of an `f32`
    pub load_avg_5: u32,
    /// Deployment IDs associated with this node
    pub deployments: Vec<String>,
    /// Platform services associated with this node
    pub services: Vec<Service>,
    /// The last time (Unix seconds) this node's data was updated
    pub update_time: u64,
}

/// The mathematical model of a node.
pub struct NodeView {
    pub id: Seq<char>,
    pub model: Seq<char>,
    pub addr: Seq<char>,
    pub mode: NodeMode,
    pub orchestration_priority: Option<u8>,
    pub uptime: u64,
    pub ram_free: u64,
    pub ram_used: u64,
    pub load_avg_5: u32,
    pub deployments: Seq<Seq<char>>,
    pub services: Seq<ServiceView>,
    pub update_time: u64,
}

impl View for Node {
    type V = NodeView;

    open spec fn view(&self) -> NodeView {
        NodeView {
            id: self.id@,
            model: self.model@,
            addr: self.addr@,
            mode: self.mode,
            orchestration_priority: self.orchestration_priority,
            uptime: self.uptime,
            ram_free: self.ram_free,
            ram_used: self.ram_used,
            load_avg_5: self.load_avg_5,
            deployments: text_views(self.deployments@),
            services: service_views(self.services@),
            update_time: self.update_time,
        }
    }
}

impl Clone for Node {
    fn clone(&self) -> (res: Self)
        ensures
            res@ == self@,
    {
        Node {
            id: self.id.clone(),
            model: self.model.clone(),
            addr: self.addr.clone(),
            mode: self.mode,
            orchestration_priority: self.orchestration_priority,
            uptime: self.uptime,
            ram_free: self.ram_free,
            ram_used: self.ram_used,
            load_avg_5: self.load_avg_5,
            deployments: clone_strings(&self.deployments),
            services: clone_services(&self.services),
            update_time: self.update_time,
        }
    }
}

impl Node {
    pub fn new(id: &str, model: &str, addr: &str, mode: NodeMode, orchestration_priority: Option<u8>) -> (res: Node)
        ensures
            res@ == (NodeView {
                id: id@,
                model: model@,
                addr: addr@,
                mode,
                orchestration_priority,
                uptime: 0,
                ram_free: 0,
                ram_used: 0,
                load_avg_5: 0,
                deployments: Seq::empty(),
                services: Seq::empty(),
                update_time: res@.update_time,
            }),
    {
        let t = now();
        let res = Node {
            id: owned(id),
            model: owned(model),
            addr: owned(addr),
            mode,
            orchestration_priority,
            uptime: 0,
            ram_free: 0,
            ram_used: 0,
            load_avg_5: 0,
            deployments: Vec::new(),
            services: Vec::new(),
            update_time: t.unix_secs(),
        };
        proof {
            assert(text_views(res.deployments@) =~= Seq::empty());
            assert(service_views(res.services@) =~= Seq::empty());
        }
        res
    }

    pub fn uptime(&self) -> (res: u64)
        ensures
            res == self.uptime,
    {
        self.uptime
    }

    pub fn ram_free(&self) -> (res: u64)
        ensures
            res == self.ram_free,
    {
        self.ram_free
    }

    pub fn ram_used(&self) -> (res: u64)
        ensures
            res == self.ram_used,
    {
        self.ram_used
    }

    /// The five minute load average, as the bit pattern of an `f32`.
    pub fn load_avg_5(&self) -> (res: u32)
        ensures
            res == self.load_avg_5,
    {
        self.load_avg_5
    }

    pub fn set_id(&mut self, id: &str)
        ensures
            final(self)@ == (NodeView { id: id@, ..old(self)@ }),
    {
        self.id = owned(id);
    }

    /// Records fresh system statistics and stamps the node with the current time.
    pub fn update(&mut self, ram_free: u64, ram_used: u64, uptime: u64, load_avg_5: u32)
        ensures
            final(self)@ == (NodeView {
                ram_free,
                ram_used,
                uptime,
                load_avg_5,
                update_time: final(self)@.update_time,
                ..old(self)@
            }),
    {
        let t = now();
        self.update_time = t.unix_secs();
        self.ram_free = ram_free;
        self.ram_used = ram_used;
        self.uptime = uptime;
        self.load_avg_5 = load_avg_5;
    }

    /// Builds a node from the fields a sysinfo message carries; absent statistics stay 0,
    /// an absent model becomes `placeholder_model`, and the mode is `ORCHESTRATOR`.
    pub fn from_incomplete(
        id: &str,
        model: Option<&str>,
        addr: &str,
        ram_free: Option<u64>,
        ram_used: Option<u64>,
        uptime: Option<u64>,
        load_avg_5: Option<u32>,
        _apps: Option<Vec<String>>,
        _services: Option<Vec<Service>>,
    ) -> (res: Node)
        ensures
            res@ == (NodeView {
                id: id@,
                model: match model {
                    Some(m) => m@,
                    None => "placeholder_model"@,
                },
                addr: addr@,
                mode: NodeMode::ORCHESTRATOR,
                orchestration_priority: None,
                uptime: match uptime {
                    Some(u) => u,
                    None => 0,
                },
                ram_free: match ram_free {
                    Some(u) => u,
                    None => 0,
                },
                ram_used: match ram_used {
                    Some(u) => u,
                    None => 0,
                },
                load_avg_5: match load_avg_5 {
                    Some(u) => u,
                    None => 0,
                },
                deployments: Seq::empty(),
                services: Seq::empty(),
                update_time: res@.update_time,
            }),
    {
        let mut n = Node::new(
            id,
            match model {
                Some(m) => m,
                None => "placeholder_model",
            },
            addr,
            NodeMode::ORCHESTRATOR,
            None,
        );
        if let Some(u) = uptime {
            n.uptime = u;
        }
        if let Some(r) = ram_free {
            n.ram_free = r;
        }
        if let Some(r) = ram_used {
            n.ram_used = r;
        }
        if let Some(l) = load_avg_5 {
            n.load_avg_5 = l;
        }
        n
    }

    pub fn add_service(&mut self, service: Service)
        ensures
            final(self)@ == (NodeView { services: old(self)@.services.push(service@), ..old(self)@ }),
    {
        self.services.push(service);
        proof {
            assert(service_views(self.services@) =~= service_views(old(self).services@).push(service@));
        }
    }

    pub fn add_application_instance(&mut self, app: &str)
        ensures
            final(self)@ == (NodeView { deployments: old(self)@.deployments.push(app@), ..old(self)@ }),
    {
        self.deployments.push(owned(app));
        proof {
            assert(text_views(self.deployments@) =~= text_views(old(self).deployments@).push(app@));
        }
    }
}

/// A copy of a status history.
pub fn copy_history(v: &Vec<(ApplicationStatus, Timestamp)>) -> (res: Vec<(ApplicationStatus, Timestamp)>)
    ensures
        res@ == v@,
{
    let mut out: Vec<(ApplicationStatus, Timestamp)> = Vec::new();
    let mut i: usize = 0;
    while i < v.len()
        invariant
            i <= v.len(),
            out@ == v@.take(i as int),
        decreases v.len() - i,
    {
        out.push(v[i]);
        i = i + 1;
        proof {
            assert(out@ =~= v@.take(i as int));
        }
    }
    proof {
        assert(v@.take(v.len() as int) =~= v@);
    }
    out
}

/// Information related to a specific deployment.
#[derive(Debug, PartialEq, Eq)]
pub struct Deployment {
    /// Unique ID for this deployment
    pub id: String,
    /// The github.com url this deployment comes from (not the clone link)
    pub src_url: String,
    pub git_branch: String,
    pub version: String,
    /// The git commit associated with the current version of the deployment
    pub commit: String,
    /// The current status of this deployment and when it was entered
    pub status: (ApplicationStatus, Timestamp),
    /// A history of statuses for this deployment
    pub status_history: Vec<(ApplicationStatus, Timestamp)>,
    pub results_url: String,
    /// The URL the deployment can be accessed on
    pub deployment_url: String,
    pub port: String,
    /// The ID of the node responsible for the deployment
    pub node: String,
    /// Bytes the container is using on disk
    pub size: i32,
    /// Current memory usage for the container, in Mb
    pub mem_mb: i32,
    /// Maximum memory usage for the container, in Mb
    pub max_mem_mb: i32,
    /// CPU utilization as a percentage, as the bit pattern of an `f32`
    pub cpu_usage: u32,
}

/// The mathematical model of a deployment.
pub struct DeploymentView {
    pub id: Seq<char>,
    pub src_url: Seq<char>,
    pub git_branch: Seq<char>,
    pub version: Seq<char>,
    pub commit: Seq<char>,
    pub status: (ApplicationStatus, Timestamp),
    pub status_history: Seq<(ApplicationStatus, Timestamp)>,
    pub results_url: Seq<char>,
    pub deployment_url: Seq<char>,
    pub port: Seq<char>,
    pub node: Seq<char>,
    pub size: i32,
    pub mem_mb: i32,
    pub max_mem_mb: i32,
    pub cpu_usage: u32,
}

impl View for Deployment {
    type V = DeploymentView;

    open spec fn view(&self) -> DeploymentView {
        DeploymentView {
            id: self.id@,
            src_url: self.src_url@,
            git_branch: self.git_branch@,
            version: self.version@,
            commit: self.commit@,
            status: self.status,
            status_history: self.status_history@,
            results_url: self.results_url@,
            deployment_url: self.deployment_url@,
            port: self.port@,
            node: self.node@,
            size: self.size,
            mem_mb: self.mem_mb,
            max_mem_mb: self.max_mem_mb,
            cpu_usage: self.cpu_usage,
        }
    }
}

impl Clone for Deployment {
    fn clone(&self) -> (res: Self)
        ensures
            res@ == self@,
    {
        Deployment {
            id: self.id.clone(),
            src_url: self.src_url.clone(),
            git_branch: self.git_branch.clone(),
            version: self.version.clone(),
            commit: self.commit.clone(),
            status: self.status,
            status_history: copy_history(&self.status_history),
            results_url: self.results_url.clone(),
            deployment_url: self.deployment_url.clone(),
            port: self.port.clone(),
            node: self.node.clone(),
            size: self.size,
            mem_mb: self.mem_mb,
            max_mem_mb: self.max_mem_mb,
            cpu_usage: self.cpu_usage,
        }
    }
}

/// What `Deployment::update_status` does to a deployment's model: a status other than the
/// current one replaces it, and the current one moves to the end of the history; `time` is
/// when the change happens.
pub open spec fn status_after_update(d: DeploymentView, new_status: ApplicationStatus, time: Timestamp) -> DeploymentView {
    if new_status != d.status.0 {
        DeploymentView { status: (new_status, time), status_history: d.status_history.push(d.status), ..d }
    } else {
        d
    }
}

/// A status other than the current one always replaces it, whatever the current status is
/// (a pending request included), and the current one moves to the end of the history;
/// the current status again changes nothing.
pub proof fn law_status_update_moves(d: DeploymentView, new_status: ApplicationStatus, time: Timestamp)
    ensures
        new_status != d.status.0 ==> status_after_update(d, new_status, time).status == (new_status, time)
            && status_after_update(d, new_status, time).status_history == d.status_history.push(d.status),
        new_status == d.status.0 ==> status_after_update(d, new_status, time) == d,
{
}

impl Deployment {
    pub fn new(
        id: &str,
        src_url: &str,
        git_branch: &str,
        version: &str,
        commit: &str,
        status: ApplicationStatus,
        results_url: &str,
        deployment_url: &str,
        port: &str,
        node: &str,
    ) -> (res: Deployment)
        ensures
            res@ == (DeploymentView {
                id: id@,
                src_url: src_url@,
                git_branch: git_branch@,
                version: version@,
                commit: commit@,
                status: (status, res@.status.1),
                status_history: Seq::empty(),
                results_url: results_url@,
                deployment_url: deployment_url@,
                port: port@,
                node: node@,
                size: 0,
                mem_mb: 0,
                max_mem_mb: 0,
                cpu_usage: 0,
            }),
            res@.status.1.wf(),
    {
        Deployment {
            id: owned(id),
            src_url: owned(src_url),
            git_branch: owned(git_branch),
            version: owned(version),
            commit: owned(commit),
            status: (status, now()),
            status_history: Vec::new(),
            results_url: owned(results_url),
            deployment_url: owned(deployment_url),
            port: owned(port),
            node: owned(node),
            size: 0,
            mem_mb: 0,
            max_mem_mb: 0,
            cpu_usage: 0,
        }
    }

    /// Updates the deployment's status, keeping a record of status history: only a status
    /// that differs from the current one is recorded.
    pub fn update_status(&mut self, new_status: &ApplicationStatus)
        ensures
            final(self)@ == status_after_update(old(self)@, *new_status, final(self)@.status.1),
            *new_status != old(self)@.status.0 ==> final(self)@.status.1.wf(),
    {
        if *new_status != self.status.0 {
            self.status_history.push(self.status);
            self.status = (*new_status, now());
        }
    }

    /// Updates the docker container statistics of the deployment.
    pub fn update_container_status(&mut self, stats: &ContainerStatus)
        ensures
            final(self)@ == (DeploymentView {
                size: stats.size,
                mem_mb: stats.mem_mb,
                max_mem_mb: stats.mem_max_mb,
                cpu_usage: stats.cpu_usage,
                ..old(self)@
            }),
    {
        self.size = stats.size;
        self.mem_mb = stats.mem_mb;
        self.max_mem_mb = stats.mem_max_mb;
        self.cpu_usage = stats.cpu_usage;
    }
}

/// The models of a list of deployments.
pub open spec fn deployment_views(v: Seq<Deployment>) -> Seq<DeploymentView> {
    v.map_values(|x: Deployment| x@)
}

/// The models of a list of nodes.
pub open spec fn node_views(v: Seq<Node>) -> Seq<NodeView> {
    v.map_values(|x: Node| x@)
}

/// A copy of a list of deployments.
pub fn clone_deployments(v: &Vec<Deployment>) -> (res: Vec<Deployment>)
    ensures
        deployment_views(res@) == deployment_views(v@),
{
    let mut out: Vec<Deployment> = Vec::new();
    let mut i: usize = 0;
    while i < v.len()
        invariant
            i <= v.len(),
            out@.len() == i,
            forall|j: int| 0 <= j < i ==> #[trigger] out@[j]@ == v@[j]@,
        decreases v.len() - i,
    {
        out.push(v[i].clone());
        i = i + 1;
    }
    proof {
        assert(deployment_views(out@) =~= deployment_views(v@));
    }
    out
}

/// A copy of a list of nodes.
pub fn clone_nodes(v: &Vec<Node>) -> (res: Vec<Node>)
    ensures
        node_views(res@) == node_views(v@),
{
    let mut out: Vec<Node> = Vec::new();
    let mut i: usize = 0;
    while i < v.len()
        invariant
            i <= v.len(),
            out@.len() == i,
            forall|j: int| 0 <= j < i ==> #[trigger] out@[j]@ == v@[j]@,
        decreases v.len() - i,
    {
        out.push(v[i].clone());
        i = i + 1;
    }
    proof {
        assert(node_views(out@) =~= node_views(v@));
    }
    out
}

/// Data about the platform.
#[derive(Debug, PartialEq, Eq)]
pub struct Platform {
    pub deployments: Vec<Deployment>,
    pub orchestrator: Orchestrator,
    pub nodes: Vec<Node>,
}

/// The mathematical model of the platform.
pub struct PlatformView {
    pub deployments: Seq<DeploymentView>,
    pub orchestrator: OrchestratorView,
    pub nodes: Seq<NodeView>,
}

impl View for Platform {
    type V = PlatformView;

    open spec fn view(&self) -> PlatformView {
        PlatformView {
            deployments: deployment_views(self.deployments@),
            orchestrator: self.orchestrator@,
            nodes: node_views(self.nodes@),
        }
    }
}

impl Platform {
    pub fn new(deployments: &Vec<Deployment>, orchestrator: &Orchestrator, nodes: &Vec<Node>) -> (res: Platform)
        ensures
            res@ == (PlatformView {
                deployments: deployment_views(deployments@),
                orchestrator: orchestrator@,
                nodes: node_views(nodes@),
            }),
    {
        Platform {
            deployments: clone_deployments(deployments),
            orchestrator: orchestrator.clone(),
            nodes: clone_nodes(nodes),
        }
    }

    pub fn add_node(&mut self, node: Node)
        ensures
            final(self)@ == (PlatformView { nodes: old(self)@.nodes.push(node@), ..old(self)@ }),
    {
        self.nodes.push(node);
        proof {
            assert(node_views(self.nodes@) =~= node_views(old(self).nodes@).push(node@));
        }
    }

    pub fn add_deployment(&mut self, deployment: Deployment)
        ensures
            final(self)@ == (PlatformView {
                deployments: old(self)@.deployments.push(deployment@),
                ..old(self)@
            }),
    {
        self.deployments.push(deployment);
        proof {
            assert(deployment_views(self.deployments@) =~= deployment_views(old(self).deployments@).push(deployment@));
        }
    }
}

} // verus!
