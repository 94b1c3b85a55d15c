//! The core logic for the platform's two executors:
//! * the orchestration executor, which forms the platform, handles rollover and
//!   coordinates deployments;
//! * the worker executor, which runs deployments in docker containers and monitors them.
pub mod orchestration_executor;
pub mod worker_executor;

use crate::clock::{now, Timestamp};
use crate::text::owned;
use vstd::prelude::*;

verus! {

/// The type of a Kraken node, which decides the functions it must perform.
#[derive(Clone, Copy, Debug, PartialEq, Eq, Structural)]
pub enum NodeMode {
    /// A node only responsible for handling deployments
    WORKER,
    /// A node which both coordinates the platform and handles deployments
    ORCHESTRATOR,
}

} // verus!

verus! {

/// Reasons for failure of the setup task.
#[derive(Clone, Copy, Debug, PartialEq, Eq, Structural)]
pub enum SetupFailure {
    /// Could not connect to an existing platform
    NoPlatform,
    /// Could not create the RabbitMQ instance
    BadRabbit,
    /// Could not connect to the RabbitMQ instance
    NoRabbit,
}

/// Reasons for failure of the execute task.
#[derive(Clone, Copy, Debug, PartialEq, Eq, Structural)]
pub enum ExecutionFailure {
    /// The task should be killed after this execution
    SigKill,
    /// Error in accessing the consumer or parsing a message
    BadConsumer,
    /// Error in communicating with the orchestrator
    NoOrchestrator,
}

/// Information about a deployment a worker runs.
#[derive(Debug, PartialEq, Eq)]
pub struct DeploymentInfo {
    pub deployment_id: String,
    pub address: String,
    pub last_log_time: Timestamp,
    pub status: Result<(), ()>,
}

impl DeploymentInfo {
    /// A deployment record whose logs were last read now.
    pub fn new(deployment_id: &str, address: &str, is_ok: bool) -> (res: DeploymentInfo)
        ensures
            res.deployment_id@ == deployment_id@,
            res.address@ == address@,
            res.status is Ok <==> is_ok,
            res.last_log_time.wf(),
    {
        let t = now();
        DeploymentInfo::new_at(deployment_id, address, is_ok, &t)
    }

    /// A deployment whose logs count as read up to the clock reading `now`.
    pub fn new_at(deployment_id: &str, address: &str, is_ok: bool, now: &Timestamp) -> (res: DeploymentInfo)
        ensures
            res.deployment_id@ == deployment_id@,
            res.address@ == address@,
            res.status is Ok <==> is_ok,
            res.last_log_time == *now,
    {
        DeploymentInfo {
            deployment_id: owned(deployment_id),
            address: owned(address),
            last_log_time: *now,
            status: if is_ok {
                Ok(())
            } else {
                Err(())
            },
        }
    }

    pub fn deployment_is_ok(&mut self, is_ok: bool)
        ensures
            final(self).status is Ok <==> is_ok,
            final(self).deployment_id == old(self).deployment_id,
            final(self).address == old(self).address,
            final(self).last_log_time == old(self).last_log_time,
    {
        self.status = if is_ok {
            Ok(())
        } else {
            Err(())
        };
    }

    pub fn update_address(&mut self, address: &str)
        ensures
            final(self).address@ == address@,
            final(self).deployment_id == old(self).deployment_id,
            final(self).status == old(self).status,
            final(self).last_log_time == old(self).last_log_time,
    {
        self.address = owned(address);
    }

    /// Marks the logs as read up to one second after the clock reading `now` (saturating at
    /// the latest representable second).
    pub fn update_log_time_at(&mut self, now: &Timestamp)
        ensures
            final(self).last_log_time == now.later_by(1),
            final(self).deployment_id == old(self).deployment_id,
            final(self).address == old(self).address,
            final(self).status == old(self).status,
    {
        self.last_log_time = now.plus_secs(1);
    }

    /// Marks the logs as read up to one second after the current time.
    pub fn update_log_time(&mut self)
        ensures
            exists|t: Timestamp| t.wf() && final(self).last_log_time == #[trigger] t.later_by(1),
            final(self).last_log_time.wf(),
            final(self).deployment_id == old(self).deployment_id,
            final(self).address == old(self).address,
            final(self).status == old(self).status,
    {
        let t = now();
        self.update_log_time_at(&t);
    }
}

/// The address of the RabbitMQ instance on a host.
pub fn rabbit_address(host: &str) -> (res: String)
    ensures
        res@ == "amqp://"@ + host@ + ":5672"@,
{
    let mut s = owned("amqp://");
    crate::text::push_str(&mut s, host);
    crate::text::push_str(&mut s, ":5672");
    s
}

/// The address of the orchestrator's API server on a host.
pub fn orchestrator_address(host: &str, port: u16) -> (res: String)
    ensures
        res@ == host@ + ":"@ + crate::decimal::decimal_digits(port as nat),
{
    let mut s = owned(host);
    crate::text::push_str(&mut s, ":");
    crate::decimal::push_decimal(&mut s, port as u64);
    s
}

/// The mode a node starts in: a worker when an orchestrator was found on the network,
/// the orchestrator otherwise.
pub fn initial_node_mode(orchestrator_found: bool) -> (res: NodeMode)
    ensures
        res == if orchestrator_found {
            NodeMode::WORKER
        } else {
            NodeMode::ORCHESTRATOR
        },
{
    if orchestrator_found {
        NodeMode::WORKER
    } else {
        NodeMode::ORCHESTRATOR
    }
}

/// Whether a node whose orchestrator was lost takes over as the orchestrator: only the
/// primary backup, the node with rollover priority 1, does.
pub fn takes_over_on_orchestrator_loss(rollover_priority: Option<u8>) -> (res: bool)
    ensures
        res == (rollover_priority == Some(1u8)),
{
    match rollover_priority {
        Some(p) => p == 1,
        None => false,
    }
}

/// The seconds a node that is not the primary backup waits before each new search for an
/// orchestrator.
pub fn orchestrator_search_backoff() -> (res: Vec<u64>)
    ensures
        res@ == seq![0u64, 1, 1, 2, 3, 5, 8, 13, 21, 34, 55],
{
    let mut v: Vec<u64> = Vec::new();
    v.push(0);
    v.push(1);
    v.push(1);
    v.push(2);
    v.push(3);
    v.push(5);
    v.push(8);
    v.push(13);
    v.push(21);
    v.push(34);
    v.push(55);
    proof {
        assert(v@ =~= seq![0u64, 1, 1, 2, 3, 5, 8, 13, 21, 34, 55]);
    }
    v
}

/// The role a node's own entry in the database shows for its rollover priority: the active
/// orchestrator (priority 0) or a worker.
pub fn node_mode_for_priority(rollover_priority: Option<u8>) -> (res: NodeMode)
    ensures
        res == if rollover_priority == Some(0u8) {
            NodeMode::ORCHESTRATOR
        } else {
            NodeMode::WORKER
        },
{
    match rollover_priority {
        Some(p) => if p == 0 {
            NodeMode::ORCHESTRATOR
        } else {
            NodeMode::WORKER
        },
        None => NodeMode::WORKER,
    }
}

/// What a node does when one of its roles fails.
#[derive(Clone, Copy, Debug, PartialEq, Eq, Structural)]
pub enum Recovery {
    /// The node cannot go on and stops
    Exit,
    /// The node becomes the platform's orchestrator
    TakeOver,
    /// The node looks for a new orchestrator to join
    SearchForOrchestrator,
}

/// What a failure of the orchestrator role leads to: a lost orchestrator is replaced by the
/// primary rollover candidate, and looked for by every other node; any other failure stops
/// the node.
pub fn orchestrator_failure_recovery(failure: ExecutionFailure, rollover_priority: Option<u8>) -> (res: Recovery)
    ensures
        res == match failure {
            ExecutionFailure::NoOrchestrator => if rollover_priority == Some(1u8) {
                Recovery::TakeOver
            } else {
                Recovery::SearchForOrchestrator
            },
            _ => Recovery::Exit,
        },
{
    match failure {
        ExecutionFailure::NoOrchestrator => if takes_over_on_orchestrator_loss(rollover_priority) {
            Recovery::TakeOver
        } else {
            Recovery::SearchForOrchestrator
        },
        _ => Recovery::Exit,
    }
}

/// The next step of the search for a new orchestrator.
#[derive(Clone, Copy, Debug, PartialEq, Eq, Structural)]
pub enum SearchStep {
    /// An orchestrator was found: the node sets its roles up again
    Rejoin,
    /// None was found yet: wait for the next period and look again
    KeepSearching,
    /// None was found after the last period: the node stops
    GiveUp,
}

/// The step after one look for an orchestrator, made after waiting `wait` seconds, where
/// `last_wait` is the last period of the search.
pub fn search_step(found: bool, wait: u64, last_wait: u64) -> (res: SearchStep)
    ensures
        res == if found {
            SearchStep::Rejoin
        } else if wait == last_wait {
            SearchStep::GiveUp
        } else {
            SearchStep::KeepSearching
        },
{
    if found {
        SearchStep::Rejoin
    } else if wait == last_wait {
        SearchStep::GiveUp
    } else {
        SearchStep::KeepSearching
    }
}

} // verus!
