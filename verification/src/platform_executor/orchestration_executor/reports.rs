//! What the orchestrator does with the reports its nodes publish: the status of a
//! deployment, and the system statistics of a node.
use crate::clock::Timestamp;
use crate::docker::ContainerStatus;
use crate::gql_model::{status_after_update, ApplicationStatus, DeploymentView, Node, NodeView};
use crate::platform_executor::NodeMode;
use super::db::{
    law_deployment_read_after_write, law_node_read_after_write, lemma_lookup_upsert, Database,
    DatabaseView,
};
use vstd::prelude::*;

verus! {

/// A deployment after a report from its node: the reported status (entered at `time` when
/// it is recorded), then the container statistics when the report carries them.
pub open spec fn reported_deployment(
    d: DeploymentView,
    status: ApplicationStatus,
    time: Timestamp,
    stats: Option<ContainerStatus>,
) -> DeploymentView {
    let u = status_after_update(d, status, time);
    match stats {
        Some(c) => DeploymentView {
            size: c.size,
            mem_mb: c.mem_mb,
            max_mem_mb: c.mem_max_mb,
            cpu_usage: c.cpu_usage,
            ..u
        },
        None => u,
    }
}

/// Records a deployment report: a deployment the database holds takes the reported status
/// and container statistics and is stored again (the result is `true`); a report on an
/// unknown deployment changes nothing (`false`).
pub fn apply_deployment_report(
    db: &mut Database,
    deployment_id: &str,
    status: ApplicationStatus,
    container_status: Option<ContainerStatus>,
) -> (res: bool)
    requires
        old(db).wf(),
    ensures
        final(db).wf(),
        res == old(db)@.deployment(deployment_id@) is Some,
        res ==> exists|t: Timestamp| final(db)@ == old(db)@.with_deployment(
            deployment_id@,
            #[trigger] reported_deployment(
                old(db)@.deployment(deployment_id@)->0,
                status,
                t,
                container_status,
            ),
        ),
        !res ==> final(db)@ == old(db)@,
        res ==> (final(db)@.deployment(deployment_id@) matches Some(e) && e.status.0 == status
            && match container_status {
            Some(c) => e.size == c.size && e.mem_mb == c.mem_mb && e.max_mem_mb == c.mem_max_mb
                && e.cpu_usage == c.cpu_usage,
            None => {
                let d = old(db)@.deployment(deployment_id@)->0;
                e.size == d.size && e.mem_mb == d.mem_mb && e.max_mem_mb == d.max_mem_mb && e.cpu_usage
                    == d.cpu_usage
            },
        }),
{
    match db.get_deployment(deployment_id) {
        Some(d) => {
            let ghost d0 = d@;
            let mut updated = d;
            updated.update_status(&status);
            let ghost t = updated@.status.1;
            if let Some(c) = container_status {
                updated.update_container_status(&c);
            }
            proof {
                assert(updated@ == reported_deployment(d0, status, t, container_status));
            }
            db.update_deployment(deployment_id, &updated);
            proof {
                assert(old(db)@.deployment(deployment_id@)->0 == d0);
                assert(db@ == old(db)@.with_deployment(
                    deployment_id@,
                    reported_deployment(
                        old(db)@.deployment(deployment_id@)->0,
                        status,
                        t,
                        container_status,
                    ),
                ));
                lemma_lookup_upsert(old(db)@.deployments, deployment_id@, updated@, deployment_id@);
                law_report_sets_statistics(d0, status, t, container_status);
            }
            true
        },
        None => false,
    }
}

/// A node as a system report leaves it: a known node takes the reported id and statistics
/// and the time of the report; an unknown one is made from the report, as an
/// orchestrator-mode node with a placeholder model and no deployments or services.
pub open spec fn reported_node(
    known: Option<NodeView>,
    id: Seq<char>,
    addr: Seq<char>,
    ram_free: u64,
    ram_used: u64,
    uptime: u64,
    load_avg_5: u32,
    time: u64,
) -> NodeView {
    match known {
        Some(n) => NodeView { id, ram_free, ram_used, uptime, load_avg_5, update_time: time, ..n },
        None => NodeView {
            id,
            model: "placeholder_model"@,
            addr,
            mode: NodeMode::ORCHESTRATOR,
            orchestration_priority: None,
            uptime,
            ram_free,
            ram_used,
            load_avg_5,
            deployments: Seq::empty(),
            services: Seq::empty(),
            update_time: time,
        },
    }
}

/// Records the system statistics a node reported (`load_avg_5` is the bit pattern of an
/// `f32`): the node is updated, or added when the database does not know it yet.
pub fn apply_node_report(
    db: &mut Database,
    node_id: &str,
    lan_addr: &str,
    ram_free: u64,
    ram_used: u64,
    uptime: u64,
    load_avg_5: u32,
)
    requires
        old(db).wf(),
    ensures
        final(db).wf(),
        exists|t: u64| final(db)@ == old(db)@.with_node(
            #[trigger] reported_node(
                old(db)@.node(node_id@),
                node_id@,
                lan_addr@,
                ram_free,
                ram_used,
                uptime,
                load_avg_5,
                t,
            ),
        ),
{
    let ghost known = db@.node(node_id@);
    match db.get_node(node_id) {
        Some(n) => {
            let mut new_node = n;
            new_node.set_id(node_id);
            new_node.update(ram_free, ram_used, uptime, load_avg_5);
            proof {
                assert(new_node@ == reported_node(
                    known, node_id@, lan_addr@, ram_free, ram_used, uptime, load_avg_5,
                    new_node@.update_time,
                ));
            }
            db.insert_node(&new_node);
        },
        None => {
            let new_node = Node::from_incomplete(
                node_id,
                None,
                lan_addr,
                Some(ram_free),
                Some(ram_used),
                Some(uptime),
                Some(load_avg_5),
                None,
                None,
            );
            proof {
                assert(new_node@ == reported_node(
                    known, node_id@, lan_addr@, ram_free, ram_used, uptime, load_avg_5,
                    new_node@.update_time,
                ));
            }
            db.insert_node(&new_node);
        },
    }
}

/// After a report on a stored deployment, reading the deployment gives the reported status;
/// a status that changed joins its history, and no other deployment or node changes.
pub proof fn law_report_read_back(
    db: DatabaseView,
    id: Seq<char>,
    status: ApplicationStatus,
    time: Timestamp,
    stats: Option<ContainerStatus>,
    other: Seq<char>,
)
    requires
        db.deployment(id) is Some,
        other != id,
    ensures
        ({
            let d = db.deployment(id)->0;
            let after = db.with_deployment(id, reported_deployment(d, status, time, stats));
            &&& after.deployment(id) is Some
            &&& after.deployment(id)->0.status.0 == status
            &&& status != d.status.0 ==> after.deployment(id)->0.status_history
                == d.status_history.push(d.status)
            &&& after.deployment(other) == db.deployment(other)
            &&& after.nodes == db.nodes
        }),
{
    let d = db.deployment(id)->0;
    law_deployment_read_after_write(db, id, reported_deployment(d, status, time, stats), other);
}

/// After a node reports, reading it gives the reported statistics; a node the database knew
/// keeps its model, address, role and deployments; no other node and no deployment changes.
pub proof fn law_node_report_read_back(
    db: DatabaseView,
    id: Seq<char>,
    addr: Seq<char>,
    ram_free: u64,
    ram_used: u64,
    uptime: u64,
    load_avg_5: u32,
    time: u64,
    other: Seq<char>,
)
    requires
        other != id,
    ensures
        ({
            let n = reported_node(db.node(id), id, addr, ram_free, ram_used, uptime, load_avg_5, time);
            let after = db.with_node(n);
            &&& after.node(id) == Some(n)
            &&& n.ram_free == ram_free && n.ram_used == ram_used && n.uptime == uptime
                && n.load_avg_5 == load_avg_5
            &&& db.node(id) matches Some(old_node) ==> n.model == old_node.model && n.addr
                == old_node.addr && n.mode == old_node.mode && n.deployments
                == old_node.deployments
            &&& after.node(other) == db.node(other)
            &&& after.deployments == db.deployments
        }),
{
    let n = reported_node(db.node(id), id, addr, ram_free, ram_used, uptime, load_avg_5, time);
    law_node_read_after_write(db, n, other);
}

/// A report's container statistics are what the deployment then holds: its size, memory,
/// memory limit and CPU usage are exactly the reported ones; a report without statistics
/// keeps the deployment's own, and either way the reported status is the deployment's.
pub proof fn law_report_sets_statistics(
    d: DeploymentView,
    status: ApplicationStatus,
    time: Timestamp,
    stats: Option<ContainerStatus>,
)
    ensures
        reported_deployment(d, status, time, stats).status.0 == status,
        stats matches Some(c) ==> {
            let r = reported_deployment(d, status, time, stats);
            &&& r.size == c.size
            &&& r.mem_mb == c.mem_mb
            &&& r.max_mem_mb == c.mem_max_mb
            &&& r.cpu_usage == c.cpu_usage
        },
        stats is None ==> {
            let r = reported_deployment(d, status, time, stats);
            &&& r.size == d.size
            &&& r.mem_mb == d.mem_mb
            &&& r.max_mem_mb == d.max_mem_mb
            &&& r.cpu_usage == d.cpu_usage
        },
        reported_deployment(d, status, time, stats).id == d.id,
{
}

} // verus!
