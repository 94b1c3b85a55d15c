//! The worker role, common to all devices: it deploys applications in docker containers and
//! monitors them. The decisions the worker takes between its outside work stand here.
pub mod deployment_job;

use crate::clock::Timestamp;
use crate::docker::ContainerState;
use crate::gql_model::ApplicationStatus;
use crate::platform_executor::DeploymentInfo;
use crate::rabbit::work_request_message::{WorkRequestMessage, WorkRequestType};
use crate::text::{owned, push_str, text_eq};
use vstd::prelude::*;

verus! {

/// The dockerfile a deployment configuration's language calls for: `Some` file among the
/// platform's dockerfiles, `None` for a repository that brings its own `Dockerfile`, or an
/// error for an unsupported language.
pub open spec fn dockerfile_for(lang: Seq<char>) -> Result<Option<Seq<char>>, ()> {
    if lang == "python3"@ {
        Ok(Some("python36.dockerfile"@))
    } else if lang == "node"@ {
        Ok(Some("node.dockerfile"@))
    } else if lang == "custom"@ {
        Ok(None)
    } else {
        Err(())
    }
}

/// Chooses the dockerfile for a deployment's language.
pub fn dockerfile_for_language(lang: &str) -> (res: Result<Option<&'static str>, ()>)
    ensures
        match res {
            Ok(Some(f)) => dockerfile_for(lang@) == Ok::<Option<Seq<char>>, ()>(Some(f@)),
            Ok(None) => dockerfile_for(lang@) == Ok::<Option<Seq<char>>, ()>(None),
            Err(_) => dockerfile_for(lang@) is Err,
        },
{
    if text_eq(lang, "python3") {
        Ok(Some("python36.dockerfile"))
    } else if text_eq(lang, "node") {
        Ok(Some("node.dockerfile"))
    } else if text_eq(lang, "custom") {
        Ok(None)
    } else {
        Err(())
    }
}

/// The temporary directory a deployment's repository is cloned into.
pub fn deployment_dir(id: &str) -> (res: String)
    ensures
        res@ == "tmp/deployment/"@ + id@,
{
    let mut s = owned("tmp/deployment/");
    push_str(&mut s, id);
    s
}

/// Whether a repository cloned into `dir` brings its own `Dockerfile`, given the paths of
/// the files in `dir`.
pub fn has_custom_dockerfile(files: &Vec<String>, dir: &str) -> (res: bool)
    ensures
        res == crate::gql_model::text_views(files@).contains(dir@ + "/Dockerfile"@),
{
    let mut path = owned(dir);
    push_str(&mut path, "/Dockerfile");
    let ghost fv = crate::gql_model::text_views(files@);
    let mut i: usize = 0;
    while i < files.len()
        invariant
            i <= files@.len(),
            fv == crate::gql_model::text_views(files@),
            path@ == dir@ + "/Dockerfile"@,
            forall|j: int| 0 <= j < i ==> fv[j] != path@,
        decreases files.len() - i,
    {
        if text_eq(files[i].as_str(), path.as_str()) {
            proof {
                assert(fv[i as int] == path@);
            }
            return true;
        }
        i = i + 1;
    }
    false
}

/// The name docker reports for a container state.
pub open spec fn container_state_name(s: ContainerState) -> Seq<char> {
    match s {
        ContainerState::EMPTY => "EMPTY"@,
        ContainerState::CREATED => "CREATED"@,
        ContainerState::RUNNING => "RUNNING"@,
        ContainerState::PAUSED => "PAUSED"@,
        ContainerState::RESTARTING => "RESTARTING"@,
        ContainerState::REMOVING => "REMOVING"@,
        ContainerState::EXITED => "EXITED"@,
        ContainerState::DEAD => "DEAD"@,
    }
}

/// The name of a container state.
pub fn container_state_text(s: ContainerState) -> (res: &'static str)
    ensures
        res@ == container_state_name(s),
{
    match s {
        ContainerState::EMPTY => "EMPTY",
        ContainerState::CREATED => "CREATED",
        ContainerState::RUNNING => "RUNNING",
        ContainerState::PAUSED => "PAUSED",
        ContainerState::RESTARTING => "RESTARTING",
        ContainerState::REMOVING => "REMOVING",
        ContainerState::EXITED => "EXITED",
        ContainerState::DEAD => "DEAD",
    }
}

/// The status a worker reports for a deployment whose container is in state `s`, with its
/// description: a running container is `Running`, any other state is an error.
pub open spec fn reported_status(s: ContainerState) -> (ApplicationStatus, Seq<char>) {
    if s == ContainerState::RUNNING {
        (ApplicationStatus::Running, "Application status normal"@)
    } else {
        (
            ApplicationStatus::Errored,
            "Docker reported error in application, state "@ + container_state_name(s),
        )
    }
}

/// The status and description to report for a deployment whose container is in state `s`.
pub fn status_for_container(s: ContainerState) -> (res: (ApplicationStatus, String))
    ensures
        (res.0, res.1@) == reported_status(s),
        res.0 == ApplicationStatus::Running <==> s == ContainerState::RUNNING,
        s != ContainerState::RUNNING ==> res.0 == ApplicationStatus::Errored,
{
    if s == ContainerState::RUNNING {
        (ApplicationStatus::Running, owned("Application status normal"))
    } else {
        let mut d = owned("Docker reported error in application, state ");
        push_str(&mut d, container_state_text(s));
        (ApplicationStatus::Errored, d)
    }
}

/// Whether the logs of a deployment are due to be read: more than a whole second has
/// passed since they were last read.
pub fn log_poll_due(last_log_time: &Timestamp, now: &Timestamp) -> (res: bool)
    requires
        last_log_time.wf(),
        now.wf(),
    ensures
        res == (now.total_nanos() >= last_log_time.total_nanos() + 2_000_000_000),
{
    let secs = last_log_time.whole_secs_until(now);
    proof {
        let d = now.total_nanos() - last_log_time.total_nanos();
        if d >= 0 {
            assert(secs > 1 <==> d >= 2_000_000_000) by (nonlinear_arith)
                requires
                    secs == d / 1_000_000_000,
                    d >= 0,
            ;
        }
    }
    secs > 1
}

/// The deployments that are still fine, in order.
pub open spec fn healthy_deployments(s: Seq<DeploymentInfo>) -> Seq<DeploymentInfo> {
    s.filter(|d: DeploymentInfo| d.status is Ok)
}

/// Drops the deployments whose status is an error, keeping the order of the others.
pub fn remove_failed_deployments(deployments: &mut Vec<DeploymentInfo>)
    ensures
        final(deployments)@ == healthy_deployments(old(deployments)@),
{
    let ghost orig = deployments@;
    let mut kept: Vec<DeploymentInfo> = Vec::new();
    while deployments.len() > 0
        invariant
            kept@ == healthy_deployments(orig.take(orig.len() - deployments@.len())),
            deployments@ == orig.skip(orig.len() - deployments@.len()),
            deployments@.len() <= orig.len(),
        decreases deployments@.len(),
    {
        let d = deployments.remove(0);
        let ghost taken = orig.len() - deployments@.len();
        proof {
            reveal_with_fuel(Seq::filter, 1);
            assert(orig.take(taken).drop_last() =~= orig.take(taken - 1));
            assert(orig.take(taken).last() == d);
            assert(deployments@ =~= orig.skip(taken));
        }
        if d.status.is_ok() {
            kept.push(d);
        }
    }
    proof {
        assert(orig.take(orig.len() as int) =~= orig);
    }
    *deployments = kept;
}

/// Marks the first deployment with id `id` as stopped.
pub fn mark_deployment_stopped(deployments: &mut Vec<DeploymentInfo>, id: &str)
    ensures
        final(deployments)@.len() == old(deployments)@.len(),
        match first_with_id(old(deployments)@, id@) {
            Some(k) => {
                &&& final(deployments)@[k].status is Err
                &&& final(deployments)@[k].deployment_id == old(deployments)@[k].deployment_id
                &&& final(deployments)@[k].address == old(deployments)@[k].address
                &&& final(deployments)@[k].last_log_time == old(deployments)@[k].last_log_time
                &&& forall|j: int| 0 <= j < old(deployments)@.len() && j != k ==> final(deployments)@[j]
                    == old(deployments)@[j]
            },
            None => final(deployments)@ == old(deployments)@,
        },
{
    let ghost orig = deployments@;
    let mut i: usize = 0;
    while i < deployments.len()
        invariant
            i <= deployments@.len(),
            deployments@ == orig,
            orig == old(deployments)@,
            forall|j: int| 0 <= j < i ==> (#[trigger] orig[j]).deployment_id@ != id@,
        decreases deployments.len() - i,
    {
        if text_eq(deployments[i].deployment_id.as_str(), id) {
            proof {
                lemma_first_with_id(orig, id@, i as int);
            }
            let mut d = deployments.remove(i);
            let ghost removed = deployments@;
            d.deployment_is_ok(false);
            deployments.insert(i, d);
            proof {
                assert(removed =~= orig.remove(i as int));
                assert(deployments@ =~= removed.insert(i as int, d));
                assert forall|j: int| 0 <= j < orig.len() && j != i implies deployments@[j] == orig[j] by {
                    if j < i {
                        assert(deployments@[j] == removed[j]);
                    } else {
                        assert(deployments@[j] == removed[j - 1]);
                    }
                }
                assert(deployments@.len() == orig.len());
                assert(orig == old(deployments)@);
                assert(deployments@[i as int] == d);
                assert(d.status is Err);
            }
            return ;
        }
        i = i + 1;
    }
    proof {
        lemma_first_with_id_none(orig, id@);
    }
}

/// The index of the first deployment with id `id`.
pub open spec fn first_with_id(s: Seq<DeploymentInfo>, id: Seq<char>) -> Option<int>
    decreases s.len(),
{
    if s.len() == 0 {
        None
    } else if s[0].deployment_id@ == id {
        Some(0)
    } else {
        match first_with_id(s.drop_first(), id) {
            Some(k) => Some(k + 1),
            None => None,
        }
    }
}

proof fn lemma_first_with_id(s: Seq<DeploymentInfo>, id: Seq<char>, i: int)
    requires
        0 <= i < s.len(),
        s[i].deployment_id@ == id,
        forall|j: int| 0 <= j < i ==> (#[trigger] s[j]).deployment_id@ != id,
    ensures
        first_with_id(s, id) == Some(i),
    decreases i,
{
    if i > 0 {
        assert forall|j: int| 0 <= j < i - 1 implies (#[trigger] s.drop_first()[j]).deployment_id@ != id by {
            assert(s.drop_first()[j] == s[j + 1]);
        }
        lemma_first_with_id(s.drop_first(), id, i - 1);
    }
}

proof fn lemma_first_with_id_none(s: Seq<DeploymentInfo>, id: Seq<char>)
    requires
        forall|j: int| 0 <= j < s.len() ==> (#[trigger] s[j]).deployment_id@ != id,
    ensures
        first_with_id(s, id) is None,
    decreases s.len(),
{
    if s.len() > 0 {
        assert forall|j: int| 0 <= j < s.drop_first().len() implies (#[trigger] s.drop_first()[j]).deployment_id@ != id by {
            assert(s.drop_first()[j] == s[j + 1]);
        }
        lemma_first_with_id_none(s.drop_first(), id);
    }
}

/// The work a request asks of a worker.
#[derive(Debug, PartialEq, Eq)]
pub enum WorkerTask {
    /// Deploy the repository at `url` as deployment `id`
    Deploy { url: String, id: String },
    /// Destroy deployment `id`
    Kill { id: String },
    /// The request is not handled by workers
    Unhandled,
}

/// The work a work request asks for. A deployment request must carry its id and url, and a
/// cancellation its id.
pub fn task_for_request(msg: &WorkRequestMessage) -> (res: WorkerTask)
    requires
        msg@.request_type == WorkRequestType::RequestDeployment ==> msg@.deployment_id is Some
            && msg@.deployment_url is Some,
        msg@.request_type == WorkRequestType::CancelDeployment ==> msg@.deployment_id is Some,
    ensures
        match msg@.request_type {
            WorkRequestType::RequestDeployment => res matches WorkerTask::Deploy { url, id } && url@
                == msg@.deployment_url->0 && id@ == msg@.deployment_id->0,
            WorkRequestType::CancelDeployment => res matches WorkerTask::Kill { id } && id@
                == msg@.deployment_id->0,
            WorkRequestType::SetPromotionPriority => res is Unhandled,
        },
{
    match msg.request_type {
        WorkRequestType::RequestDeployment => WorkerTask::Deploy {
            url: msg.deployment_url.as_ref().unwrap().clone(),
            id: msg.deployment_id.as_ref().unwrap().clone(),
        },
        WorkRequestType::CancelDeployment => WorkerTask::Kill {
            id: msg.deployment_id.as_ref().unwrap().clone(),
        },
        WorkRequestType::SetPromotionPriority => WorkerTask::Unhandled,
    }
}

/// The text to publish to a deployment's log from the lines docker returned since the last
/// poll: all of them one after the other, or nothing when there are none.
pub fn pending_log_text(logs: &Vec<String>) -> (res: Option<String>)
    ensures
        logs@.len() == 0 ==> res is None,
        logs@.len() > 0 ==> (res matches Some(t) && t@ == crate::text::concat_fields(
            crate::gql_model::text_views(logs@),
        )),
{
    if logs.len() == 0 {
        None
    } else {
        Some(crate::text::concat_texts(logs))
    }
}

/// A container is reported running exactly when docker says it runs; in any other state
/// the deployment is reported errored, with a description naming that state, and
/// different states get different descriptions.
pub proof fn law_only_running_containers_are_running(s: ContainerState, other: ContainerState)
    ensures
        reported_status(s).0 == ApplicationStatus::Running <==> s == ContainerState::RUNNING,
        s == ContainerState::RUNNING ==> reported_status(s).1 == "Application status normal"@,
        s != ContainerState::RUNNING ==> reported_status(s).0 == ApplicationStatus::Errored
            && reported_status(s).1 == "Docker reported error in application, state "@
            + container_state_name(s),
        s == ContainerState::EXITED ==> container_state_name(s) == "EXITED"@,
        s == ContainerState::DEAD ==> container_state_name(s) == "DEAD"@,
        s != other ==> container_state_name(s) != container_state_name(other),
{
    reveal_strlit("EMPTY");
    reveal_strlit("CREATED");
    reveal_strlit("RUNNING");
    reveal_strlit("PAUSED");
    reveal_strlit("RESTARTING");
    reveal_strlit("REMOVING");
    reveal_strlit("EXITED");
    reveal_strlit("DEAD");
    if s != other {
        let a = container_state_name(s);
        let b = container_state_name(other);
        if a.len() == b.len() {
            assert(a[0] != b[0] || a[1] != b[1] || a[2] != b[2]);
        }
    }
}

} // verus!
