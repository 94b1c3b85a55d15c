//! Constants of the platform, and loading a saved platform into the orchestrator's database.
use crate::gql_model::{
    deployment_views, node_views, ApplicationStatus, Deployment, Node, Orchestrator,
    OrchestratorInterface, OrchestratorInterfaceView, OrchestratorView, Platform, PlatformView,
};
use crate::platform_executor::orchestration_executor::db::{Database, DatabaseView};
use crate::text::{owned, push_str};
use vstd::prelude::*;

verus! {

/// The port the orchestrator's API server listens on.
pub const ROCKET_PORT_NO: u16 = 8000;

/// The repository the platform's user interface is built from.
pub const UI_GIT_ADDR: &'static str = "https://github.com/ethanshry/Kraken-UI.git";

/// The branch of the interface repository the orchestrator builds its interface from.
pub const UI_BRANCH_NAME: &'static str = "build";

/// The folder the orchestrator keeps deployment logs in.
pub const LOG_LOCATION: &'static str = "log";

/// The file the log of deployment `log_id` is kept in.
pub fn log_file_path(log_id: &str) -> (res: String)
    ensures
        res@ == LOG_LOCATION@ + "/"@ + log_id@ + ".log"@,
{
    let mut s = owned(LOG_LOCATION);
    push_str(&mut s, "/");
    push_str(&mut s, log_id);
    push_str(&mut s, ".log");
    s
}

/// The platform an orchestrator starts with when none was saved: no deployments or nodes,
/// and an interface to build from the UI repository, not built yet (`Errored`).
pub fn default_platform() -> (res: Platform)
    ensures
        res@ == (PlatformView {
            deployments: Seq::empty(),
            orchestrator: OrchestratorView {
                ui: OrchestratorInterfaceView {
                    src_url: Some(UI_GIT_ADDR@),
                    cloned_commit: None,
                    status: ApplicationStatus::Errored,
                },
                services: None,
            },
            nodes: Seq::empty(),
        }),
{
    let deployments: Vec<Deployment> = Vec::new();
    let nodes: Vec<Node> = Vec::new();
    let o = Orchestrator::new(
        OrchestratorInterface::new(Some(owned(UI_GIT_ADDR)), None, ApplicationStatus::Errored),
    );
    let p = Platform::new(&deployments, &o, &nodes);
    proof {
        assert(deployment_views(deployments@) =~= Seq::empty());
        assert(node_views(nodes@) =~= Seq::empty());
    }
    p
}

/// The database after a saved platform is loaded: its interface, then each of its nodes and
/// each of its deployments stored in order.
pub open spec fn loaded(db: DatabaseView, p: PlatformView) -> DatabaseView {
    stored_deployments(
        stored_nodes(
            DatabaseView {
                orchestrator: crate::gql_model::OrchestratorView { ui: p.orchestrator.ui, ..db.orchestrator },
                ..db
            },
            p.nodes,
        ),
        p.deployments,
    )
}

/// The database after the nodes are stored in order.
pub open spec fn stored_nodes(db: DatabaseView, nodes: Seq<crate::gql_model::NodeView>) -> DatabaseView
    decreases nodes.len(),
{
    if nodes.len() == 0 {
        db
    } else {
        stored_nodes(db, nodes.drop_last()).with_node(nodes.last())
    }
}

/// The database after the deployments are stored in order, each under its id.
pub open spec fn stored_deployments(db: DatabaseView, ds: Seq<crate::gql_model::DeploymentView>) -> DatabaseView
    decreases ds.len(),
{
    if ds.len() == 0 {
        db
    } else {
        let prev = stored_deployments(db, ds.drop_last());
        prev.with_deployment(ds.last().id, ds.last())
    }
}

/// Loads a saved platform into the database.
pub fn load_platform(db: &mut Database, platform: &Platform)
    requires
        old(db).wf(),
    ensures
        final(db).wf(),
        final(db)@ == loaded(old(db)@, platform@),
{
    db.update_orchestrator_interface(&platform.orchestrator.ui);
    let ghost start = db@;
    let mut i: usize = 0;
    while i < platform.nodes.len()
        invariant
            i <= platform.nodes@.len(),
            db.wf(),
            db@ == stored_nodes(start, node_views(platform.nodes@).take(i as int)),
        decreases platform.nodes.len() - i,
    {
        db.insert_node(&platform.nodes[i]);
        proof {
            assert(node_views(platform.nodes@).take(i + 1).drop_last() =~= node_views(platform.nodes@).take(i as int));
        }
        i = i + 1;
    }
    proof {
        assert(node_views(platform.nodes@).take(platform.nodes@.len() as int) =~= node_views(platform.nodes@));
    }
    let ghost mid = db@;
    let mut j: usize = 0;
    while j < platform.deployments.len()
        invariant
            j <= platform.deployments@.len(),
            db.wf(),
            db@ == stored_deployments(mid, deployment_views(platform.deployments@).take(j as int)),
        decreases platform.deployments.len() - j,
    {
        db.insert_deployment(&platform.deployments[j]);
        proof {
            assert(deployment_views(platform.deployments@).take(j + 1).drop_last() =~= deployment_views(platform.deployments@).take(j as int));
        }
        j = j + 1;
    }
    proof {
        assert(deployment_views(platform.deployments@).take(platform.deployments@.len() as int) =~= deployment_views(platform.deployments@));
    }
}

} // verus!
