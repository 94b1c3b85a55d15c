//! The first model of the platform, kept by the first orchestrator: deployments made of
//! application instances, with a coarser set of statuses.
pub use crate::gql_model::{Service, ServiceStatus};
use crate::gql_model::{clone_opt_string, opt_text, OrchestratorView};
use crate::text::{owned, text_eq};
use vstd::prelude::*;

verus! {

/// The statuses of a deployment in the first model.
#[derive(Clone, Copy, Debug, PartialEq, Eq, Structural)]
pub enum ApplicationStatus {
    REQUESTED,
    INITIALIZED,
    RETRIEVING,
    BUILDING,
    TESTING,
    DEPLOYING,
    DEPLOYED,
    ERRORED,
}

/// The text of a status: the name of its variant.
pub open spec fn status_name(s: ApplicationStatus) -> Seq<char> {
    match s {
        ApplicationStatus::REQUESTED => "REQUESTED"@,
        ApplicationStatus::INITIALIZED => "INITIALIZED"@,
        ApplicationStatus::RETRIEVING => "RETRIEVING"@,
        ApplicationStatus::BUILDING => "BUILDING"@,
        ApplicationStatus::TESTING => "TESTING"@,
        ApplicationStatus::DEPLOYING => "DEPLOYING"@,
        ApplicationStatus::DEPLOYED => "DEPLOYED"@,
        ApplicationStatus::ERRORED => "ERRORED"@,
    }
}

/// The status whose name is `s`, if there is one.
pub open spec fn status_named(s: Seq<char>) -> Option<ApplicationStatus> {
    if s == "REQUESTED"@ {
        Some(ApplicationStatus::REQUESTED)
    } else if s == "INITIALIZED"@ {
        Some(ApplicationStatus::INITIALIZED)
    } else if s == "RETRIEVING"@ {
        Some(ApplicationStatus::RETRIEVING)
    } else if s == "BUILDING"@ {
        Some(ApplicationStatus::BUILDING)
    } else if s == "TESTING"@ {
        Some(ApplicationStatus::TESTING)
    } else if s == "DEPLOYING"@ {
        Some(ApplicationStatus::DEPLOYING)
    } else if s == "DEPLOYED"@ {
        Some(ApplicationStatus::DEPLOYED)
    } else if s == "ERRORED"@ {
        Some(ApplicationStatus::ERRORED)
    } else {
        None
    }
}

impl ApplicationStatus {
    /// The name of the status, as its `Display` text.
    pub fn to_string(&self) -> (res: String)
        ensures
            res@ == status_name(*self),
    {
        match self {
            ApplicationStatus::REQUESTED => owned("REQUESTED"),
            ApplicationStatus::INITIALIZED => owned("INITIALIZED"),
            ApplicationStatus::RETRIEVING => owned("RETRIEVING"),
            ApplicationStatus::BUILDING => owned("BUILDING"),
            ApplicationStatus::TESTING => owned("TESTING"),
            ApplicationStatus::DEPLOYING => owned("DEPLOYING"),
            ApplicationStatus::DEPLOYED => owned("DEPLOYED"),
            ApplicationStatus::ERRORED => owned("ERRORED"),
        }
    }

    /// Parses a status from the exact name of its variant.
    pub fn from_str(s: &str) -> (res: Result<ApplicationStatus, crate::gql_model::ParseError>)
        ensures
            res == match status_named(s@) {
                Some(v) => Ok::<ApplicationStatus, crate::gql_model::ParseError>(v),
                None => Err(crate::gql_model::ParseError::VariantNotFound),
            },
    {
        if text_eq(s, "REQUESTED") {
            Ok(ApplicationStatus::REQUESTED)
        } else if text_eq(s, "INITIALIZED") {
            Ok(ApplicationStatus::INITIALIZED)
        } else if text_eq(s, "RETRIEVING") {
            Ok(ApplicationStatus::RETRIEVING)
        } else if text_eq(s, "BUILDING") {
            Ok(ApplicationStatus::BUILDING)
        } else if text_eq(s, "TESTING") {
            Ok(ApplicationStatus::TESTING)
        } else if text_eq(s, "DEPLOYING") {
            Ok(ApplicationStatus::DEPLOYING)
        } else if text_eq(s, "DEPLOYED") {
            Ok(ApplicationStatus::DEPLOYED)
        } else if text_eq(s, "ERRORED") {
            Ok(ApplicationStatus::ERRORED)
        } else {
            Err(crate::gql_model::ParseError::VariantNotFound)
        }
    }
}

/// Reading a status back from its text gives the same status.
pub proof fn law_status_text_roundtrip(s: ApplicationStatus)
    ensures
        status_named(status_name(s)) == Some(s),
{
    reveal_strlit("REQUESTED");
    reveal_strlit("INITIALIZED");
    reveal_strlit("RETRIEVING");
    reveal_strlit("BUILDING");
    reveal_strlit("TESTING");
    reveal_strlit("DEPLOYING");
    reveal_strlit("DEPLOYED");
    reveal_strlit("ERRORED");
    assert("REQUESTED"@.len() == 9);
    assert("INITIALIZED"@.len() == 11);
    assert("RETRIEVING"@.len() == 10);
    assert("BUILDING"@.len() == 8);
    assert("TESTING"@.len() == 7);
    assert("DEPLOYING"@.len() == 9);
    assert("DEPLOYED"@.len() == 8);
    assert("ERRORED"@.len() == 7);
    assert("DEPLOYING"@[0] != "REQUESTED"@[0]);
    assert("DEPLOYED"@[0] != "BUILDING"@[0]);
    assert("ERRORED"@[0] != "TESTING"@[0]);
}

/// Metadata pertaining to the orchestrator's user interface.
#[derive(Debug, PartialEq, Eq)]
pub struct OrchestratorInterface {
    pub src_url: Option<String>,
    pub cloned_commit: Option<String>,
    pub status: ApplicationStatus,
}

impl OrchestratorInterface {
    pub fn new(src_url: Option<String>, cloned_commit: Option<String>, status: ApplicationStatus) -> (res: OrchestratorInterface)
        ensures
            opt_text(res.src_url) == opt_text(src_url),
            opt_text(res.cloned_commit) == opt_text(cloned_commit),
            res.status == status,
    {
        OrchestratorInterface {
            src_url: clone_opt_string(&src_url),
            cloned_commit: clone_opt_string(&cloned_commit),
            status,
        }
    }

    pub fn update_status(&mut self, new_status: ApplicationStatus)
        ensures
            final(self).status == new_status,
            final(self).src_url == old(self).src_url,
            final(self).cloned_commit == old(self).cloned_commit,
    {
        self.status = new_status;
    }
}

/// A running instance of an application on a node.
#[derive(Debug, PartialEq, Eq)]
pub struct ApplicationInstance {
    pub instance_id: String,
    pub node_id: String,
    pub deployment_id: String,
    pub status: ServiceStatus,
}

impl Clone for ApplicationInstance {
    fn clone(&self) -> (res: Self)
        ensures
            res == *self,
    {
        ApplicationInstance {
            instance_id: self.instance_id.clone(),
            node_id: self.node_id.clone(),
            deployment_id: self.deployment_id.clone(),
            status: self.status,
        }
    }
}

/// A copy of a list of optional instances.
pub fn clone_instances(v: &Vec<Option<ApplicationInstance>>) -> (res: Vec<Option<ApplicationInstance>>)
    ensures
        res@ == v@,
{
    let mut out: Vec<Option<ApplicationInstance>> = Vec::new();
    let mut i: usize = 0;
    while i < v.len()
        invariant
            i <= v.len(),
            out@ == v@.take(i as int),
        decreases v.len() - i,
    {
        let c = match &v[i] {
            Some(a) => Some(a.clone()),
            None => None,
        };
        out.push(c);
        i = i + 1;
        proof {
            assert(out@ =~= v@.take(i as int));
        }
    }
    proof {
        assert(v@.take(v.len() as int) =~= v@);
    }
    out
}

impl ApplicationInstance {
    pub fn new(instance_id: &str, node_id: &str, deployment_id: &str, status: ServiceStatus) -> (res: ApplicationInstance)
        ensures
            res.instance_id@ == instance_id@,
            res.node_id@ == node_id@,
            res.deployment_id@ == deployment_id@,
            res.status == status,
    {
        ApplicationInstance {
            instance_id: owned(instance_id),
            node_id: owned(node_id),
            deployment_id: owned(deployment_id),
            status,
        }
    }

    pub fn update_status(&mut self, new_status: ServiceStatus)
        ensures
            final(self).status == new_status,
            final(self).instance_id == old(self).instance_id,
            final(self).node_id == old(self).node_id,
            final(self).deployment_id == old(self).deployment_id,
    {
        self.status = new_status;
    }
}

/// A deployment of the first model, made of application instances.
#[derive(Debug, PartialEq, Eq)]
pub struct Deployment {
    pub id: String,
    pub src_url: String,
    pub version: String,
    pub commit: String,
    pub status: ApplicationStatus,
    pub results_url: String,
    pub deployment_url: String,
    pub instances: Vec<Option<ApplicationInstance>>,
}

impl Deployment {
    pub fn new(
        id: &str,
        src_url: &str,
        version: &str,
        commit: &str,
        status: ApplicationStatus,
        results_url: &str,
        deployment_url: &str,
        instances: &Vec<Option<ApplicationInstance>>,
    ) -> (res: Deployment)
        ensures
            res.id@ == id@,
            res.src_url@ == src_url@,
            res.version@ == version@,
            res.commit@ == commit@,
            res.status == status,
            res.results_url@ == results_url@,
            res.deployment_url@ == deployment_url@,
            res.instances@ == instances@,
    {
        Deployment {
            id: owned(id),
            src_url: owned(src_url),
            version: owned(version),
            commit: owned(commit),
            status,
            results_url: owned(results_url),
            deployment_url: owned(deployment_url),
            instances: clone_instances(instances),
        }
    }

    pub fn update_status(&mut self, new_status: ApplicationStatus)
        ensures
            final(self).status == new_status,
            final(self).id == old(self).id,
            final(self).instances == old(self).instances,
    {
        self.status = new_status;
    }

    pub fn add_instance(&mut self, instance: ApplicationInstance)
        ensures
            final(self).instances@ == old(self).instances@.push(Some(instance)),
            final(self).id == old(self).id,
            final(self).status == old(self).status,
    {
        self.instances.push(Some(instance));
    }

    /// Removing an instance is not supported by this model: the deployment is left as it is.
    pub fn remove_instance(&mut self, _instance_id: &str)
        ensures
            *final(self) == *old(self),
    {
    }
}

} // verus!
