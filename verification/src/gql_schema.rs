//! The queries and mutations the orchestrator's GraphQL API answers, over its database.
use crate::gql_model::{
    deployment_views, node_views, ApplicationStatus, Deployment, DeploymentView, Node, Platform,
    PlatformView, Service, TemporalApplicationStatus,
};
use crate::platform_executor::orchestration_executor::db::{values, Database, DatabaseView};
use crate::text::{owned, split_char, split_on, text_eq};
use vstd::prelude::*;

verus! {

/// Why a query or mutation was refused.
#[derive(Clone, Copy, Debug, PartialEq, Eq, Structural)]
pub enum SchemaError {
    /// The database holds no deployment or no node
    NoPlatformAvailable,
    /// No deployment is stored under the requested id
    NoDeploymentWithId,
}

impl SchemaError {
    /// The message of the error as the API reports it.
    pub fn message(&self) -> (res: &'static str)
        ensures
            res@ == match *self {
                SchemaError::NoPlatformAvailable => "No Platform Available"@,
                SchemaError::NoDeploymentWithId => "No Active Deployment with the specified id"@,
            },
    {
        match self {
            SchemaError::NoPlatformAvailable => "No Platform Available",
            SchemaError::NoDeploymentWithId => "No Active Deployment with the specified id",
        }
    }

    /// The value of the `internal_error` field the API reports with the error.
    pub fn internal_error(&self) -> (res: &'static str)
        ensures
            res@ == match *self {
                SchemaError::NoPlatformAvailable => "no_platform_available"@,
                SchemaError::NoDeploymentWithId => "no_deployment_id"@,
            },
    {
        match self {
            SchemaError::NoPlatformAvailable => "no_platform_available",
            SchemaError::NoDeploymentWithId => "no_deployment_id",
        }
    }
}

/// The status history of a deployment as the API serves it: each past status with the Unix
/// second it was entered, then the current one.
pub open spec fn temporal_history(d: DeploymentView) -> Seq<TemporalApplicationStatus> {
    d.status_history.push(d.status).map_values(
        |e: (ApplicationStatus, crate::clock::Timestamp)| TemporalApplicationStatus {
            status: e.0,
            time: e.1.secs,
        },
    )
}

impl Deployment {
    /// The statuses the deployment has been in, oldest first, ending with the current one.
    pub fn status_history(&self) -> (res: Vec<TemporalApplicationStatus>)
        ensures
            res@ == temporal_history(self@),
    {
        let mut statuses: Vec<TemporalApplicationStatus> = Vec::new();
        let mut i: usize = 0;
        while i < self.status_history.len()
            invariant
                i <= self.status_history@.len(),
                statuses@.len() == i,
                forall|j: int| 0 <= j < i ==> #[trigger] statuses@[j] == temporal_history(self@)[j],
            decreases self.status_history.len() - i,
        {
            let s = self.status_history[i];
            statuses.push(TemporalApplicationStatus { status: s.0, time: s.1.unix_secs() });
            i = i + 1;
        }
        statuses.push(TemporalApplicationStatus { status: self.status.0, time: self.status.1.unix_secs() });
        proof {
            assert(statuses@ =~= temporal_history(self@));
        }
        statuses
    }
}

/// The deployment model a deployment request creates: the url and branch are set, the
/// other texts are empty, and the status is `DeploymentRequested` since `time`.
pub open spec fn requested_deployment(id: Seq<char>, url: Seq<char>, branch: Seq<char>, time: crate::clock::Timestamp) -> DeploymentView {
    DeploymentView {
        id,
        src_url: url,
        git_branch: branch,
        version: Seq::empty(),
        commit: Seq::empty(),
        status: (ApplicationStatus::DeploymentRequested, time),
        status_history: Seq::empty(),
        results_url: Seq::empty(),
        deployment_url: Seq::empty(),
        port: Seq::empty(),
        node: Seq::empty(),
        size: 0,
        mem_mb: 0,
        max_mem_mb: 0,
        cpu_usage: 0,
    }
}

/// The id of a log file: the name of a file whose extension, the text between its first
/// and second `.`, is `log`, taken after the last `/` of the part before the first `.`.
pub open spec fn log_id_of(file: Seq<char>) -> Option<Seq<char>> {
    let pieces = split_on(file, '.');
    if pieces[1] == "log"@ {
        Some(split_on(pieces[0], '/').last())
    } else {
        None
    }
}

/// The ids of the log files among `files`, in order.
pub open spec fn log_ids(files: Seq<Seq<char>>) -> Seq<Seq<char>>
    decreases files.len(),
{
    if files.len() == 0 {
        Seq::empty()
    } else {
        let rest = log_ids(files.drop_last());
        match log_id_of(files.last()) {
            Some(id) => rest.push(id),
            None => rest,
        }
    }
}

/// Defines the GraphQL queries.
pub struct Query;

impl Query {
    /// Information for a specific deployment on the platform.
    pub fn get_deployment(db: &Database, deployment_id: &str) -> (res: Option<Deployment>)
        ensures
            match res {
                Some(d) => db@.deployment(deployment_id@) == Some(d@),
                None => db@.deployment(deployment_id@) is None,
            },
    {
        db.get_deployment(deployment_id)
    }

    /// All deployments on the platform, or `None` when there are none.
    pub fn get_deployments(db: &Database) -> (res: Option<Vec<Deployment>>)
        ensures
            match res {
                Some(v) => db@.deployments.len() > 0 && deployment_views(v@) == values(db@.deployments),
                None => db@.deployments.len() == 0,
            },
    {
        db.get_deployments()
    }

    /// The services the orchestrator provides to the platform, or `None` when there are none.
    pub fn get_platform_services(db: &Database) -> (res: Option<Vec<Service>>)
        ensures
            match res {
                Some(v) => db@.platform_services() == Some(crate::gql_model::service_views(v@)),
                None => db@.platform_services() is None,
            },
    {
        db.get_platform_services()
    }

    /// Information for a specific node on the platform.
    pub fn get_node(db: &Database, node_id: &str) -> (res: Option<Node>)
        ensures
            match res {
                Some(n) => db@.node(node_id@) == Some(n@),
                None => db@.node(node_id@) is None,
            },
    {
        db.get_node(node_id)
    }

    /// All nodes attached to the platform, or `None` when there are none.
    pub fn get_nodes(db: &Database) -> (res: Option<Vec<Node>>)
        ensures
            match res {
                Some(v) => db@.nodes.len() > 0 && node_views(v@) == values(db@.nodes),
                None => db@.nodes.len() == 0,
            },
    {
        db.get_nodes()
    }

    /// The platform as a whole; refused when there is no deployment or no node.
    pub fn get_platform(db: &Database) -> (res: Result<Platform, SchemaError>)
        ensures
            match res {
                Ok(p) => db@.deployments.len() > 0 && db@.nodes.len() > 0 && p@ == (PlatformView {
                    deployments: values(db@.deployments),
                    orchestrator: db@.orchestrator,
                    nodes: values(db@.nodes),
                }),
                Err(e) => e == SchemaError::NoPlatformAvailable && (db@.deployments.len() == 0
                    || db@.nodes.len() == 0),
            },
    {
        match (db.get_deployments(), db.get_nodes()) {
            (Some(deployments), Some(nodes)) => {
                let o = db.get_orchestrator();
                Ok(Platform::new(&deployments, &o, &nodes))
            },
            _ => Err(SchemaError::NoPlatformAvailable),
        }
    }

    /// The ids of the deployments with a log file among the files of the log folder.
    pub fn get_available_logs(files: &Vec<String>) -> (res: Vec<String>)
        requires
            forall|i: int| 0 <= i < files@.len() ==> (#[trigger] files@[i])@.contains('.'),
        ensures
            crate::gql_model::text_views(res@) == log_ids(crate::gql_model::text_views(files@)),
    {
        let mut logs: Vec<String> = Vec::new();
        let ghost fv = crate::gql_model::text_views(files@);
        let mut i: usize = 0;
        while i < files.len()
            invariant
                i <= files@.len(),
                fv == crate::gql_model::text_views(files@),
                forall|k: int| 0 <= k < files@.len() ==> (#[trigger] files@[k])@.contains('.'),
                crate::gql_model::text_views(logs@) == log_ids(fv.take(i as int)),
            decreases files.len() - i,
        {
            let file = &files[i];
            let pieces = split_char(file.as_str(), '.');
            proof {
                assert(fv.take(i + 1).drop_last() =~= fv.take(i as int));
                assert(fv.take(i + 1).last() == file@);
                crate::text::lemma_split_on_contains(file@, '.');
            }
            if text_eq(pieces[1].as_str(), "log") {
                let path_pieces = split_char(pieces[0].as_str(), '/');
                proof {
                    crate::text::lemma_split_on_nonempty(pieces@[0]@, '/');
                }
                let last = path_pieces[path_pieces.len() - 1].clone();
                let ghost prev = logs@;
                logs.push(last);
                proof {
                    assert(crate::gql_model::text_views(logs@) =~= crate::gql_model::text_views(prev).push(last@));
                }
            }
            i = i + 1;
        }
        proof {
            assert(fv.take(files@.len() as int) =~= fv);
        }
        logs
    }
}

/// The id given to a new deployment: calls `uuid::Uuid::new_v4` and writes the random id
/// in its hyphenated form, 36 characters that are lowercase hexadecimal digits or hyphens.
/// Which id comes out rests on chance and is not stated.
#[verifier::external_body]
fn new_deployment_id() -> (res: String)
    ensures
        res@.len() == 36,
        forall|i: int| 0 <= i < res@.len() ==> #[trigger] res@[i] == '-' || ('0' <= res@[i] <= '9') || ('a' <= res@[i] <= 'f'),
{
    uuid::Uuid::new_v4().hyphenated().to_string()
}

/// Defines the GraphQL mutations.
pub struct Mutation;

impl Mutation {
    /// Requests the platform to create a deployment from a repository url and branch, under
    /// the id `id`; returns the id.
    pub fn create_deployment_with_id(db: &mut Database, id: String, deployment_url: &str, git_branch: &str) -> (res: String)
        requires
            old(db).wf(),
        ensures
            final(db).wf(),
            res@ == id@,
            final(db)@ == old(db)@.with_deployment(
                id@,
                requested_deployment(id@, deployment_url@, git_branch@, final(db)@.deployment(id@)->0.status.1),
            ),
    {
        let d = Deployment::new(
            id.as_str(),
            deployment_url,
            git_branch,
            "",
            "",
            ApplicationStatus::DeploymentRequested,
            "",
            "",
            "",
            "",
        );
        proof {
            reveal_strlit("");
            assert(""@ =~= Seq::<char>::empty());
        }
        db.insert_deployment(&d);
        proof {
            crate::platform_executor::orchestration_executor::db::lemma_lookup_upsert(
                old(db)@.deployments,
                id@,
                d@,
                id@,
            );
            assert(d@ == requested_deployment(id@, deployment_url@, git_branch@, d@.status.1));
        }
        id
    }

    /// Requests the platform to create a deployment from a repository url and branch, under a
    /// fresh random id (a hyphenated UUID); returns the id.
    pub fn create_deployment(db: &mut Database, deployment_url: &str, git_branch: &str) -> (res: String)
        requires
            old(db).wf(),
        ensures
            final(db).wf(),
            res@.len() == 36,
            final(db)@ == old(db)@.with_deployment(
                res@,
                requested_deployment(res@, deployment_url@, git_branch@, final(db)@.deployment(res@)->0.status.1),
            ),
    {
        let id = new_deployment_id();
        Mutation::create_deployment_with_id(db, id, deployment_url, git_branch)
    }

    /// Requests the platform to look for an update of a deployment; refused when no
    /// deployment is stored under the id.
    pub fn poll_redeploy(db: &mut Database, deployment_id: &str) -> (res: Result<bool, SchemaError>)
        requires
            old(db).wf(),
        ensures
            final(db).wf(),
            match old(db)@.deployment(deployment_id@) {
                Some(d) => res == Ok::<bool, SchemaError>(true) && final(db)@ == old(db)@.with_deployment(
                    deployment_id@,
                    crate::gql_model::status_after_update(d, ApplicationStatus::UpdateRequested, final(db)@.deployment(deployment_id@)->0.status.1),
                ),
                None => res == Err::<bool, SchemaError>(SchemaError::NoDeploymentWithId) && final(db)@ == old(db)@,
            },
    {
        Mutation::request_status(db, deployment_id, ApplicationStatus::UpdateRequested)
    }

    /// Requests the platform to terminate a deployment; refused when no deployment is stored
    /// under the id.
    pub fn cancel_deployment(db: &mut Database, deployment_id: &str) -> (res: Result<bool, SchemaError>)
        requires
            old(db).wf(),
        ensures
            final(db).wf(),
            match old(db)@.deployment(deployment_id@) {
                Some(d) => res == Ok::<bool, SchemaError>(true) && final(db)@ == old(db)@.with_deployment(
                    deployment_id@,
                    crate::gql_model::status_after_update(d, ApplicationStatus::DestructionRequested, final(db)@.deployment(deployment_id@)->0.status.1),
                ),
                None => res == Err::<bool, SchemaError>(SchemaError::NoDeploymentWithId) && final(db)@ == old(db)@,
            },
    {
        Mutation::request_status(db, deployment_id, ApplicationStatus::DestructionRequested)
    }

    /// Moves the deployment stored under `deployment_id` to the status `requested`.
    fn request_status(db: &mut Database, deployment_id: &str, requested: ApplicationStatus) -> (res: Result<bool, SchemaError>)
        requires
            old(db).wf(),
        ensures
            final(db).wf(),
            match old(db)@.deployment(deployment_id@) {
                Some(d) => res == Ok::<bool, SchemaError>(true) && final(db)@ == old(db)@.with_deployment(
                    deployment_id@,
                    crate::gql_model::status_after_update(d, requested, final(db)@.deployment(deployment_id@)->0.status.1),
                ),
                None => res == Err::<bool, SchemaError>(SchemaError::NoDeploymentWithId) && final(db)@ == old(db)@,
            },
    {
        match db.get_deployment(deployment_id) {
            Some(mut d) => {
                let ghost before = d@;
                d.update_status(&requested);
                db.update_deployment(deployment_id, &d);
                proof {
                    crate::platform_executor::orchestration_executor::db::lemma_lookup_upsert(
                        old(db)@.deployments,
                        deployment_id@,
                        d@,
                        deployment_id@,
                    );
                }
                Ok(true)
            },
            None => Err(SchemaError::NoDeploymentWithId),
        }
    }
}

} // verus!
