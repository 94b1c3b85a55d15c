//! The orchestrator role, which manages work for all devices on the platform.
//!
//! The orchestrator's executor alternates between outside work (asking GitHub about a
//! repository, publishing work requests) and decisions. The decisions stand here: each takes
//! the database, a deployment and what the outside work returned, updates both, and returns
//! the work requests to publish.
pub mod db;
pub mod github_api;
pub mod reports;

use crate::decimal::{i64_text, i64_to_text};
use crate::deployment::shipwreck::Config;
use crate::gql_model::{
    node_views, status_after_update, ApplicationStatus, Deployment, DeploymentView, Node, NodeView,
};
use crate::rabbit::work_request_message::{WorkRequestMessage, WorkRequestMessageView, WorkRequestType};
use crate::text::{owned, push_str, text_eq};
use db::{
    key_index, lemma_key_index, lemma_lookup_upsert, upsert, values, Database, DatabaseView,
};
use github_api::{branch_commit_sha, find_branch_commit, Branch};
use vstd::prelude::*;

verus! {

/// The index of the first node among the first `n` with the fewest deployments.
pub open spec fn least_loaded_upto(nodes: Seq<NodeView>, n: int) -> int
    decreases n,
{
    if n <= 1 {
        0
    } else {
        let k = least_loaded_upto(nodes, n - 1);
        if nodes[n - 1].deployments.len() < nodes[k].deployments.len() {
            n - 1
        } else {
            k
        }
    }
}

/// The index of the first node with the fewest deployments.
pub open spec fn least_loaded(nodes: Seq<NodeView>) -> int {
    least_loaded_upto(nodes, nodes.len() as int)
}

/// The chosen node has the fewest deployments of all, and every node before it has more.
pub proof fn lemma_least_loaded(nodes: Seq<NodeView>, n: int)
    requires
        1 <= n <= nodes.len(),
    ensures
        0 <= least_loaded_upto(nodes, n) < n,
        forall|j: int| 0 <= j < n ==> nodes[least_loaded_upto(nodes, n)].deployments.len() <= (
        #[trigger] nodes[j]).deployments.len(),
        forall|j: int| 0 <= j < least_loaded_upto(nodes, n) ==> nodes[least_loaded_upto(nodes, n)].deployments.len() < (#[trigger] nodes[j]).deployments.len(),
    decreases n,
{
    if n > 1 {
        lemma_least_loaded(nodes, n - 1);
    }
}

/// The node to delegate a new deployment to: the first node with the fewest deployments.
pub fn select_node_for_deployment(nodes: &Vec<Node>) -> (res: usize)
    requires
        nodes@.len() > 0,
    ensures
        res == least_loaded(node_views(nodes@)),
        res < nodes@.len(),
{
    let ghost nv = node_views(nodes@);
    let mut curr: usize = 0;
    let mut i: usize = 1;
    while i < nodes.len()
        invariant
            1 <= i <= nodes@.len(),
            nv == node_views(nodes@),
            curr == least_loaded_upto(nv, i as int),
        decreases nodes.len() - i,
    {
        proof {
            lemma_least_loaded(nv, i as int);
            assert(nv[i as int].deployments.len() == nodes@[i as int].deployments@.len());
            assert(nv[curr as int].deployments.len() == nodes@[curr as int].deployments@.len());
        }
        if nodes[i].deployments.len() < nodes[curr].deployments.len() {
            curr = i;
        }
        i = i + 1;
    }
    proof {
        lemma_least_loaded(nv, nodes@.len() as int);
    }
    curr
}

/// The node chosen for a deployment has no more deployments than any other node.
pub proof fn law_selected_node_least_loaded(nodes: Seq<NodeView>, j: int)
    requires
        0 <= j < nodes.len(),
    ensures
        0 <= least_loaded(nodes) < nodes.len(),
        nodes[least_loaded(nodes)].deployments.len() <= nodes[j].deployments.len(),
        j < least_loaded(nodes) ==> nodes[least_loaded(nodes)].deployments.len() < nodes[j].deployments.len(),
{
    lemma_least_loaded(nodes, nodes.len() as int);
}

/// What the orchestrator does for a deployment in a given status.
#[derive(Clone, Copy, Debug, PartialEq, Eq, Structural)]
pub enum DeploymentAction {
    /// Validate the requested deployment and delegate it to a node
    Schedule,
    /// Compare the deployed commit with the remote branch and redeploy on a change
    CheckForUpdate,
    /// Have the node running the deployment destroy it
    Destroy,
    /// Nothing to do
    Nothing,
}

/// The action a deployment's status calls for.
pub open spec fn action_for(status: ApplicationStatus) -> DeploymentAction {
    match status {
        ApplicationStatus::DeploymentRequested => DeploymentAction::Schedule,
        ApplicationStatus::UpdateRequested => DeploymentAction::CheckForUpdate,
        ApplicationStatus::DestructionRequested => DeploymentAction::Destroy,
        _ => DeploymentAction::Nothing,
    }
}

/// The action the orchestrator takes for a deployment in status `status`.
pub fn pending_action(status: ApplicationStatus) -> (res: DeploymentAction)
    ensures
        res == action_for(status),
        res == DeploymentAction::Schedule <==> status == ApplicationStatus::DeploymentRequested,
        res == DeploymentAction::CheckForUpdate <==> status == ApplicationStatus::UpdateRequested,
        res == DeploymentAction::Destroy <==> status == ApplicationStatus::DestructionRequested,
{
    match status {
        ApplicationStatus::DeploymentRequested => DeploymentAction::Schedule,
        ApplicationStatus::UpdateRequested => DeploymentAction::CheckForUpdate,
        ApplicationStatus::DestructionRequested => DeploymentAction::Destroy,
        _ => DeploymentAction::Nothing,
    }
}

/// Storing twice under one id is storing the second value.
pub proof fn lemma_upsert_twice<V>(s: Seq<(Seq<char>, V)>, k: Seq<char>, a: V, b: V)
    ensures
        upsert(upsert(s, k, a), k, b) == upsert(s, k, b),
{
    lemma_key_index(s, k);
    let ki = key_index(s, k);
    let t = upsert(s, k, a);
    if ki >= 0 {
        crate::platform_executor::orchestration_executor::db::lemma_key_index_update(s, ki, a, k);
        assert(t == s.update(ki, (s[ki].0, a)));
        assert(upsert(t, k, b) =~= upsert(s, k, b));
    } else {
        crate::platform_executor::orchestration_executor::db::lemma_key_index_push(s, k, a, k);
        assert(upsert(t, k, b) =~= upsert(s, k, b));
    }
}

/// A deployment after its status moved to `s` at some time: the deployment `after` is
/// `before` updated to `s` at the time `after` entered its status.
pub open spec fn status_moved(before: DeploymentView, after: DeploymentView, s: ApplicationStatus) -> bool {
    after == status_after_update(before, s, after.status.1)
}

/// Starts validating a requested deployment: its status moves to `ValidatingDeploymentData`
/// and it is stored.
pub fn start_validation(db: &mut Database, deployment: &mut Deployment)
    requires
        old(db).wf(),
    ensures
        final(db).wf(),
        status_moved(old(deployment)@, final(deployment)@, ApplicationStatus::ValidatingDeploymentData),
        final(db)@ == old(db)@.with_deployment(old(deployment)@.id, final(deployment)@),
{
    deployment.update_status(&ApplicationStatus::ValidatingDeploymentData);
    db.update_deployment(deployment.id.as_str(), deployment);
}

/// A deployment once validated: its status moves to `DelegatingDeployment` at `time`, it
/// takes the validated commit, and the port of its configuration when there is one.
pub open spec fn delegated(d: DeploymentView, commit: Seq<char>, port: Option<i64>, time: crate::clock::Timestamp) -> DeploymentView {
    let u = status_after_update(d, ApplicationStatus::DelegatingDeployment, time);
    DeploymentView {
        commit,
        port: match port {
            Some(p) => i64_text(p),
            None => u.port,
        },
        ..u
    }
}

/// The work request that asks a node to run a deployment.
pub open spec fn deployment_request(d: DeploymentView) -> WorkRequestMessageView {
    WorkRequestMessageView {
        request_type: WorkRequestType::RequestDeployment,
        deployment_id: Some(d.id),
        deployment_url: Some(d.src_url),
        priority: None,
    }
}

/// The port a parsed configuration asks for.
pub open spec fn config_port(c: Option<Config>) -> Option<i64> {
    match c {
        Some(c) => Some(c.config.port),
        None => None,
    }
}

/// Schedules a deployment whose validation returned `validation`: the commit of the
/// requested branch and the parsed configuration, or an error.
///
/// * A failed validation leaves the deployment `Errored`.
/// * Otherwise the deployment moves to `DelegatingDeployment` with the commit and the
///   configured port. Without any node it then errors. With nodes, it is assigned to the
///   first node with the fewest deployments, its status moves to `Deploying`, the node
///   lists it, and a deployment request for that node is returned.
///
/// The deployment is stored after each change.
pub fn schedule_deployment(
    db: &mut Database,
    deployment: &mut Deployment,
    validation: Result<(String, Option<Config>), ()>,
) -> (res: Option<(String, WorkRequestMessage)>)
    requires
        old(db).wf(),
    ensures
        final(db).wf(),
        final(deployment)@.id == old(deployment)@.id,
        match validation {
            Err(_) => {
                &&& status_moved(old(deployment)@, final(deployment)@, ApplicationStatus::Errored)
                &&& final(db)@ == old(db)@.with_deployment(old(deployment)@.id, final(deployment)@)
                &&& res is None
            },
            Ok((commit, config)) => {
                let nodes = values(old(db)@.nodes);
                if nodes.len() == 0 {
                    &&& exists|t: crate::clock::Timestamp| status_moved(
                        #[trigger] delegated(old(deployment)@, commit@, config_port(config), t),
                        final(deployment)@,
                        ApplicationStatus::Errored,
                    )
                    &&& final(db)@ == old(db)@.with_deployment(old(deployment)@.id, final(deployment)@)
                    &&& res is None
                } else {
                    let n = nodes[least_loaded(nodes)];
                    &&& exists|t: crate::clock::Timestamp| status_moved(
                        DeploymentView {
                            node: n.id,
                            ..#[trigger] delegated(old(deployment)@, commit@, config_port(config), t)
                        },
                        final(deployment)@,
                        ApplicationStatus::Deploying,
                    )
                    &&& final(db)@ == old(db)@.with_deployment(
                        old(deployment)@.id,
                        final(deployment)@,
                    ).with_deployment_on_node(n.id, old(deployment)@.id)
                    &&& res matches Some((node_id, request)) && node_id@ == n.id && request@
                        == deployment_request(old(deployment)@)
                }
            },
        },
{
    let ghost d0 = deployment@;
    let ghost db0 = db@;
    match validation {
        Err(_) => {
            deployment.update_status(&ApplicationStatus::Errored);
            db.update_deployment(deployment.id.as_str(), deployment);
            None
        },
        Ok((commit, config)) => {
            deployment.update_status(&ApplicationStatus::DelegatingDeployment);
            deployment.commit = commit;
            if let Some(c) = config {
                deployment.port = i64_to_text(c.config.port);
            }
            let ghost t1 = deployment@.status.1;
            let ghost d1 = deployment@;
            proof {
                assert(d1 == delegated(d0, commit@, config_port(config), t1));
            }
            db.update_deployment(deployment.id.as_str(), deployment);
            let ghost db1 = db@;
            match db.get_nodes() {
                None => {
                    deployment.update_status(&ApplicationStatus::Errored);
                    db.update_deployment(deployment.id.as_str(), deployment);
                    proof {
                        lemma_upsert_twice(db0.deployments, d0.id, d1, deployment@);
                        assert(db@ == db0.with_deployment(d0.id, deployment@));
                        assert(status_moved(d1, deployment@, ApplicationStatus::Errored));
                    }
                    None
                },
                Some(nodes) => {
                    let k = select_node_for_deployment(&nodes);
                    let node_id = nodes[k].id.clone();
                    deployment.node = node_id.clone();
                    let ghost d2 = deployment@;
                    deployment.update_status(&ApplicationStatus::Deploying);
                    db.update_deployment(deployment.id.as_str(), deployment);
                    proof {
                        lemma_upsert_twice(db0.deployments, d0.id, d1, deployment@);
                        assert(node_views(nodes@) == values(db0.nodes));
                        assert(node_id@ == values(db0.nodes)[k as int].id);
                        assert(d2 == DeploymentView { node: node_id@, ..d1 });
                        assert(status_moved(d2, deployment@, ApplicationStatus::Deploying));
                    }
                    let msg = WorkRequestMessage::new(
                        WorkRequestType::RequestDeployment,
                        Some(deployment.id.as_str()),
                        Some(deployment.src_url.as_str()),
                        None,
                    );
                    let _ = db.add_deployment_to_node(node_id.as_str(), deployment.id.clone());
                    proof {
                        assert(msg@ == deployment_request(d0));
                    }
                    Some((node_id, msg))
                },
            }
        },
    }
}

/// The work requests that redeploy a deployment on its node: a cancellation and a new
/// deployment request.
pub open spec fn redeploy_requests(d: DeploymentView) -> Seq<(Seq<char>, WorkRequestMessageView)> {
    seq![
        (d.node, destruction_request(d)),
        (d.node, deployment_request(d)),
    ]
}

/// The models of a list of addressed work requests.
pub open spec fn request_views(v: Seq<(String, WorkRequestMessage)>) -> Seq<(Seq<char>, WorkRequestMessageView)> {
    v.map_values(|e: (String, WorkRequestMessage)| (e.0@, e.1@))
}

/// Handles an update request given the latest commit of the deployment's branch, when it
/// could be read.
///
/// * Without a commit nothing happens.
/// * A commit other than the deployed one moves the deployment to `DelegatingDestruction`
///   and returns a cancellation and a new deployment request for its node.
/// * The deployed commit moves the deployment to `Running`.
///
pub fn check_for_update(db: &mut Database, deployment: &mut Deployment, remote_commit: Option<String>) -> (res: Vec<(String, WorkRequestMessage)>)
    requires
        old(db).wf(),
    ensures
        final(db).wf(),
        match remote_commit {
            None => final(db)@ == old(db)@ && final(deployment)@ == old(deployment)@ && res@.len() == 0,
            Some(c) => if c@ != old(deployment)@.commit {
                &&& status_moved(old(deployment)@, final(deployment)@, ApplicationStatus::DelegatingDestruction)
                &&& final(db)@ == old(db)@.with_deployment(old(deployment)@.id, final(deployment)@)
                &&& request_views(res@) == redeploy_requests(old(deployment)@)
            } else {
                &&& status_moved(old(deployment)@, final(deployment)@, ApplicationStatus::Running)
                &&& final(db)@ == old(db)@.with_deployment(old(deployment)@.id, final(deployment)@)
                &&& res@.len() == 0
            },
        },
{
    let mut out: Vec<(String, WorkRequestMessage)> = Vec::new();
    match remote_commit {
        None => {},
        Some(c) => {
            if !text_eq(c.as_str(), deployment.commit.as_str()) {
                let ghost d0 = deployment@;
                deployment.update_status(&ApplicationStatus::DelegatingDestruction);
                db.update_deployment(deployment.id.as_str(), deployment);
                let cancel = WorkRequestMessage::new(
                    WorkRequestType::CancelDeployment,
                    Some(deployment.id.as_str()),
                    None,
                    None,
                );
                let request = WorkRequestMessage::new(
                    WorkRequestType::RequestDeployment,
                    Some(deployment.id.as_str()),
                    Some(deployment.src_url.as_str()),
                    None,
                );
                out.push((deployment.node.clone(), cancel));
                out.push((deployment.node.clone(), request));
                proof {
                    assert(request_views(out@) =~= redeploy_requests(d0));
                }
            } else {
                deployment.update_status(&ApplicationStatus::Running);
                db.update_deployment(deployment.id.as_str(), deployment);
            }
        },
    }
    out
}

/// The work request that asks a node to destroy a deployment.
pub open spec fn destruction_request(d: DeploymentView) -> WorkRequestMessageView {
    WorkRequestMessageView {
        request_type: WorkRequestType::CancelDeployment,
        deployment_id: Some(d.id),
        deployment_url: None,
        priority: None,
    }
}

/// Handles a destruction request: the deployment moves to `DelegatingDestruction` and is
/// stored, no node lists it any more, and a cancellation for its node is returned.
pub fn request_destruction(db: &mut Database, deployment: &mut Deployment) -> (res: (String, WorkRequestMessage))
    requires
        old(db).wf(),
    ensures
        final(db).wf(),
        status_moved(old(deployment)@, final(deployment)@, ApplicationStatus::DelegatingDestruction),
        final(db)@ == old(db)@.with_deployment(old(deployment)@.id, final(deployment)@).without_deployment_on_nodes(old(deployment)@.id),
        res.0@ == old(deployment)@.node,
        res.1@ == destruction_request(old(deployment)@),
{
    deployment.update_status(&ApplicationStatus::DelegatingDestruction);
    db.update_deployment(deployment.id.as_str(), deployment);
    db.remove_deployment_from_nodes(deployment.id.as_str());
    let msg = WorkRequestMessage::new(
        WorkRequestType::CancelDeployment,
        Some(deployment.id.as_str()),
        None,
        None,
    );
    (deployment.node.clone(), msg)
}

/// What the orchestrator does about its user interface.
#[derive(Debug, PartialEq, Eq)]
pub enum UiPlan {
    /// No build branch was found: the interface cannot be updated
    NoBuildBranch,
    /// The interface was built from this commit already
    UpToDate(String),
    /// The interface must be cloned and built at this commit
    Update(String),
}

/// The plan for the user interface given the branches of its repository (when they could be
/// read), the name of the build branch and the commit the interface was last built from.
pub open spec fn ui_plan(branches: Option<Seq<Branch>>, branch_name: Seq<char>, active_commit: Option<Seq<char>>) -> (int, Seq<char>) {
    match branches {
        None => (0, Seq::empty()),
        Some(bs) => match branch_commit_sha(bs, branch_name) {
            None => (0, Seq::empty()),
            Some(sha) => if sha.len() == 0 {
                (0, Seq::empty())
            } else if active_commit == Some(sha) {
                (1, sha)
            } else {
                (2, sha)
            },
        },
    }
}

/// The model of a plan: its kind (no branch, up to date, update) and commit.
pub open spec fn ui_plan_view(p: UiPlan) -> (int, Seq<char>) {
    match p {
        UiPlan::NoBuildBranch => (0, Seq::empty()),
        UiPlan::UpToDate(s) => (1, s@),
        UiPlan::Update(s) => (2, s@),
    }
}

/// Decides whether the user interface must be rebuilt: it must when the build branch's
/// latest commit differs from the one it was built from.
pub fn plan_ui_update(branches: &Option<Vec<Branch>>, branch_name: &str, active_commit: &Option<String>) -> (res: UiPlan)
    ensures
        ui_plan_view(res) == ui_plan(
            match branches {
                Some(v) => Some(v@),
                None => None,
            },
            branch_name@,
            match active_commit {
                Some(c) => Some(c@),
                None => None,
            },
        ),
{
    match branches {
        None => UiPlan::NoBuildBranch,
        Some(bs) => match find_branch_commit(bs, branch_name) {
            None => UiPlan::NoBuildBranch,
            Some(sha) => {
                if sha.unicode_len() == 0 {
                    UiPlan::NoBuildBranch
                } else {
                    match active_commit {
                        Some(b) => if text_eq(b.as_str(), sha.as_str()) {
                            UiPlan::UpToDate(sha)
                        } else {
                            UiPlan::Update(sha)
                        },
                        None => UiPlan::Update(sha),
                    }
                }
            },
        },
    }
}

/// What validating a deployment gives once the repository's configuration file (when the
/// branch holds one) and its branches (when they could be read) are known: the last commit
/// of the first branch named `git_branch`, with the text of the configuration file.
pub open spec fn validation_result(
    shipwreck: Option<Seq<char>>,
    branches: Option<Seq<Branch>>,
    git_branch: Seq<char>,
) -> Option<(Seq<char>, Seq<char>)> {
    match (shipwreck, branches) {
        (Some(text), Some(bs)) => match branch_commit_sha(bs, git_branch) {
            Some(sha) => Some((sha, text)),
            None => None,
        },
        _ => None,
    }
}

/// Finishes validating a deployment from what GitHub returned: the configuration file's
/// text and the repository's branches. Validation fails without either, or when no branch
/// has the requested name.
pub fn deployment_validation(
    shipwreck: Option<String>,
    branches: Option<Vec<Branch>>,
    git_branch: &str,
) -> (res: Result<(String, String), ()>)
    ensures
        match res {
            Ok((commit, text)) => validation_result(
                match shipwreck {
                    Some(s) => Some(s@),
                    None => None,
                },
                match branches {
                    Some(v) => Some(v@),
                    None => None,
                },
                git_branch@,
            ) == Some((commit@, text@)),
            Err(_) => validation_result(
                match shipwreck {
                    Some(s) => Some(s@),
                    None => None,
                },
                match branches {
                    Some(v) => Some(v@),
                    None => None,
                },
                git_branch@,
            ) is None,
        },
{
    match shipwreck {
        None => Err(()),
        Some(text) => match branches {
            None => Err(()),
            Some(bs) => match find_branch_commit(&bs, git_branch) {
                Some(sha) => Ok((sha, text)),
                None => Err(()),
            },
        },
    }
}

/// The address at which the orchestrator tells a node its rollover priority.
pub fn rollover_priority_url(orchestrator_addr: &str, system_id: &str) -> (res: String)
    ensures
        res@ == "http://"@ + orchestrator_addr@ + "/health/"@ + system_id@,
{
    let mut s = owned("http://");
    push_str(&mut s, orchestrator_addr);
    push_str(&mut s, "/health/");
    push_str(&mut s, system_id);
    s
}

/// The address at which the orchestrator exports its database.
pub fn database_export_url(orchestrator_addr: &str) -> (res: String)
    ensures
        res@ == "http://"@ + orchestrator_addr@ + "/export/database"@,
{
    let mut s = owned("http://");
    push_str(&mut s, orchestrator_addr);
    push_str(&mut s, "/export/database");
    s
}

/// The address at which the orchestrator serves the log of a deployment.
pub fn log_backup_url(orchestrator_addr: &str, log_id: &str) -> (res: String)
    ensures
        res@ == "http://"@ + orchestrator_addr@ + "/log/"@ + log_id@,
{
    let mut s = owned("http://");
    push_str(&mut s, orchestrator_addr);
    push_str(&mut s, "/log/");
    push_str(&mut s, log_id);
    s
}

/// A requested deployment that is validated and then delegated to a node goes through
/// `ValidatingDeploymentData` and `DelegatingDeployment` to `Deploying`, each earlier status
/// joining its history in order: what `start_validation` followed by a successful
/// `schedule_deployment` on a platform with nodes does to it.
pub proof fn law_requested_deployment_reaches_deploying(
    d: DeploymentView,
    validating: DeploymentView,
    commit: Seq<char>,
    port: Option<i64>,
    t_delegated: crate::clock::Timestamp,
    node: Seq<char>,
    after: DeploymentView,
)
    requires
        d.status.0 == ApplicationStatus::DeploymentRequested,
        status_moved(d, validating, ApplicationStatus::ValidatingDeploymentData),
        status_moved(
            DeploymentView { node, ..delegated(validating, commit, port, t_delegated) },
            after,
            ApplicationStatus::Deploying,
        ),
    ensures
        after.status.0 == ApplicationStatus::Deploying,
        after.commit == commit,
        after.node == node,
        after.status_history == d.status_history.push(d.status).push(
            (ApplicationStatus::ValidatingDeploymentData, validating.status.1),
        ).push((ApplicationStatus::DelegatingDeployment, t_delegated)),
{
}

/// The orchestrator acts on requests only: a deployment request is scheduled, an update
/// request checked against the remote commit, a destruction request delegated, and a
/// deployment in any other status (errored, running, deploying, ...) is left alone.
pub proof fn law_only_requests_are_acted_on(status: ApplicationStatus)
    ensures
        action_for(status) == DeploymentAction::Schedule <==> status
            == ApplicationStatus::DeploymentRequested,
        action_for(status) == DeploymentAction::CheckForUpdate <==> status
            == ApplicationStatus::UpdateRequested,
        action_for(status) == DeploymentAction::Destroy <==> status
            == ApplicationStatus::DestructionRequested,
        (status != ApplicationStatus::DeploymentRequested && status != ApplicationStatus::UpdateRequested
            && status != ApplicationStatus::DestructionRequested) ==> action_for(status)
            == DeploymentAction::Nothing,
{
}

} // verus!
