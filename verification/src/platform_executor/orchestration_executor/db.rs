//! Storage for platform information on the orchestrator.
//!
//! Deployments and nodes are kept as lists of entries keyed by text, each key at most once,
//! in the order in which the keys were first inserted.
use crate::gql_model::{
    clone_services, service_views, text_views, ApplicationStatus, Deployment, DeploymentView,
    Node, NodeView, Orchestrator, OrchestratorInterface, OrchestratorInterfaceView,
    OrchestratorView, Service, ServiceView,
};
use crate::text::{owned, text_eq};
use vstd::prelude::*;

verus! {

/// The index of the last entry with key `k`, or -1 when there is none.
pub open spec fn key_index<V>(s: Seq<(Seq<char>, V)>, k: Seq<char>) -> int
    decreases s.len(),
{
    if s.len() == 0 {
        -1
    } else if s.last().0 == k {
        s.len() - 1
    } else {
        key_index(s.drop_last(), k)
    }
}

/// The value stored under key `k`.
pub open spec fn lookup<V>(s: Seq<(Seq<char>, V)>, k: Seq<char>) -> Option<V> {
    if key_index(s, k) >= 0 {
        Some(s[key_index(s, k)].1)
    } else {
        None
    }
}

/// The entries after storing `v` under `k`: the entry of `k` is replaced in place, or a new
/// entry is appended when `k` has none.
pub open spec fn upsert<V>(s: Seq<(Seq<char>, V)>, k: Seq<char>, v: V) -> Seq<(Seq<char>, V)> {
    if key_index(s, k) >= 0 {
        s.update(key_index(s, k), (k, v))
    } else {
        s.push((k, v))
    }
}

/// The stored values, in entry order.
pub open spec fn values<V>(s: Seq<(Seq<char>, V)>) -> Seq<V> {
    s.map_values(|e: (Seq<char>, V)| e.1)
}

/// No key occurs twice.
pub open spec fn keys_unique<V>(s: Seq<(Seq<char>, V)>) -> bool {
    forall|i: int, j: int| 0 <= i < s.len() && 0 <= j < s.len() && i != j ==> s[i].0 != s[j].0
}

/// What `key_index` finds: the last entry with the key, or none.
pub proof fn lemma_key_index<V>(s: Seq<(Seq<char>, V)>, k: Seq<char>)
    ensures
        -1 <= key_index(s, k) < s.len(),
        key_index(s, k) >= 0 ==> s[key_index(s, k)].0 == k,
        forall|j: int| key_index(s, k) < j < s.len() ==> s[j].0 != k,
    decreases s.len(),
{
    if s.len() > 0 && s.last().0 != k {
        lemma_key_index(s.drop_last(), k);
        assert forall|j: int| key_index(s, k) < j < s.len() implies s[j].0 != k by {
            if j < s.len() - 1 {
                assert(s[j] == s.drop_last()[j]);
            }
        }
    }
}

/// `key_index` names the last entry with the key.
pub proof fn lemma_key_index_is<V>(s: Seq<(Seq<char>, V)>, k: Seq<char>, i: int)
    requires
        -1 <= i < s.len(),
        i >= 0 ==> s[i].0 == k,
        forall|j: int| i < j < s.len() ==> s[j].0 != k,
    ensures
        key_index(s, k) == i,
{
    lemma_key_index(s, k);
    let ki = key_index(s, k);
    if ki > i {
    } else if ki < i {
        assert(s[i].0 == k);
    }
}

/// Keys do not change when a value is replaced.
pub proof fn lemma_key_index_update<V>(s: Seq<(Seq<char>, V)>, i: int, v: V, k: Seq<char>)
    requires
        0 <= i < s.len(),
    ensures
        key_index(s.update(i, (s[i].0, v)), k) == key_index(s, k),
{
    let t = s.update(i, (s[i].0, v));
    lemma_key_index(s, k);
    let ki = key_index(s, k);
    assert forall|j: int| ki < j < t.len() implies t[j].0 != k by {
        assert(t[j].0 == s[j].0);
    }
    if ki >= 0 {
        assert(t[ki].0 == s[ki].0);
    }
    lemma_key_index_is(t, k, ki);
}

/// Appending an entry makes it the last with its key.
pub proof fn lemma_key_index_push<V>(s: Seq<(Seq<char>, V)>, k2: Seq<char>, v: V, k: Seq<char>)
    ensures
        key_index(s.push((k2, v)), k) == if k2 == k {
            s.len() as int
        } else {
            key_index(s, k)
        },
{
    assert(s.push((k2, v)).drop_last() =~= s);
}

/// A lookup after storing a value under a key gives that value; other keys are unaffected.
pub proof fn lemma_lookup_upsert<V>(s: Seq<(Seq<char>, V)>, k: Seq<char>, v: V, k2: Seq<char>)
    ensures
        lookup(upsert(s, k, v), k2) == if k2 == k {
            Some(v)
        } else {
            lookup(s, k2)
        },
{
    lemma_key_index(s, k);
    lemma_key_index(s, k2);
    let ki = key_index(s, k);
    if ki >= 0 {
        assert(s[ki].0 == k);
        lemma_key_index_update(s, ki, v, k2);
        assert(s.update(ki, (k, v)) == s.update(ki, (s[ki].0, v)));
        if k2 == k {
        } else {
            let k2i = key_index(s, k2);
            if k2i >= 0 {
                assert(k2i != ki);
            }
        }
    } else {
        lemma_key_index_push(s, k, v, k2);
    }
}

/// Storing a value keeps keys unique.
pub proof fn lemma_upsert_unique<V>(s: Seq<(Seq<char>, V)>, k: Seq<char>, v: V)
    requires
        keys_unique(s),
    ensures
        keys_unique(upsert(s, k, v)),
        upsert(s, k, v).len() == if lookup(s, k) is Some {
            s.len()
        } else {
            s.len() + 1
        },
{
    lemma_key_index(s, k);
    let t = upsert(s, k, v);
    let ki = key_index(s, k);
    if ki >= 0 {
        assert forall|i: int, j: int| 0 <= i < t.len() && 0 <= j < t.len() && i != j implies t[i].0
            != t[j].0 by {
            assert(t[i].0 == s[i].0);
            assert(t[j].0 == s[j].0);
        }
    } else {
        assert forall|i: int, j: int| 0 <= i < t.len() && 0 <= j < t.len() && i != j implies t[i].0
            != t[j].0 by {
            if i < s.len() && j < s.len() {
                assert(t[i] == s[i]);
                assert(t[j] == s[j]);
            } else if i == s.len() {
                assert(t[j] == s[j]);
            } else {
                assert(t[i] == s[i]);
            }
        }
    }
}

/// Finds the entry with key `key`, searching from the last entry.
pub fn find_key<V>(entries: &Vec<(String, V)>, key: &str) -> (res: Option<usize>)
    ensures
        match res {
            Some(i) => i == key_index(key_views(entries@), key@) && i < entries@.len()
                && entries@[i as int].0@ == key@,
            None => key_index(key_views(entries@), key@) == -1,
        },
{
    let ghost s = key_views(entries@);
    let mut i: usize = entries.len();
    while i > 0
        invariant
            i <= entries.len(),
            s == key_views(entries@),
            forall|j: int| i <= j < s.len() ==> s[j].0 != key@,
        decreases i,
    {
        let k = &entries[i - 1].0;
        if text_eq(k.as_str(), key) {
            proof {
                lemma_key_index_is(s, key@, i - 1);
            }
            return Some(i - 1);
        }
        i = i - 1;
    }
    proof {
        lemma_key_index_is(s, key@, -1);
    }
    None
}

/// The entries with their keys seen as texts and their values kept.
pub open spec fn key_views<V>(s: Seq<(String, V)>) -> Seq<(Seq<char>, V)> {
    s.map_values(|e: (String, V)| (e.0@, e.1))
}

/// The model of a list of deployment entries.
pub open spec fn deployment_entries(s: Seq<(String, Deployment)>) -> Seq<(Seq<char>, DeploymentView)> {
    s.map_values(|e: (String, Deployment)| (e.0@, e.1@))
}

/// The model of a list of node entries.
pub open spec fn node_entries(s: Seq<(String, Node)>) -> Seq<(Seq<char>, NodeView)> {
    s.map_values(|e: (String, Node)| (e.0@, e.1@))
}

/// Finding a key among exec entries finds it among their models.
pub proof fn lemma_key_index_views<V, W>(s: Seq<(String, V)>, t: Seq<(Seq<char>, W)>, k: Seq<char>)
    requires
        s.len() == t.len(),
        forall|i: int| 0 <= i < s.len() ==> #[trigger] t[i].0 == s[i].0@,
    ensures
        key_index(t, k) == key_index(key_views(s), k),
    decreases s.len(),
{
    let ks = key_views(s);
    lemma_key_index(ks, k);
    let ki = key_index(ks, k);
    if ki >= 0 {
        assert(t[ki].0 == ks[ki].0);
    }
    assert forall|j: int| ki < j < t.len() implies t[j].0 != k by {
        assert(t[j].0 == ks[j].0);
    }
    lemma_key_index_is(t, k, ki);
}

/// The database contains information about the currently running platform; only the
/// orchestrator keeps one.
#[derive(Debug)]
pub struct Database {
    /// Information about the deployments the orchestrator is managing
    deployments: Vec<(String, Deployment)>,
    /// Information about the nodes the orchestrator is managing
    nodes: Vec<(String, Node)>,
    /// Information about the platform
    orchestrator: Orchestrator,
}

/// The mathematical model of the database.
pub struct DatabaseView {
    pub deployments: Seq<(Seq<char>, DeploymentView)>,
    pub nodes: Seq<(Seq<char>, NodeView)>,
    pub orchestrator: OrchestratorView,
}

impl View for Database {
    type V = DatabaseView;

    closed spec fn view(&self) -> DatabaseView {
        DatabaseView {
            deployments: deployment_entries(self.deployments@),
            nodes: node_entries(self.nodes@),
            orchestrator: self.orchestrator@,
        }
    }
}

/// The deployment ids of a node's model with every occurrence of `deployment_id` taken out.
pub open spec fn without_deployment(n: NodeView, deployment_id: Seq<char>) -> NodeView {
    NodeView { deployments: n.deployments.filter(|d: Seq<char>| d != deployment_id), ..n }
}

impl DatabaseView {
    /// Keys are unique, and each node is stored under its own id.
    pub open spec fn wf(self) -> bool {
        &&& keys_unique(self.deployments)
        &&& keys_unique(self.nodes)
        &&& forall|i: int| 0 <= i < self.nodes.len() ==> (#[trigger] self.nodes[i]).0 == self.nodes[i].1.id
    }

    pub open spec fn node(self, id: Seq<char>) -> Option<NodeView> {
        lookup(self.nodes, id)
    }

    pub open spec fn deployment(self, id: Seq<char>) -> Option<DeploymentView> {
        lookup(self.deployments, id)
    }

    /// The database after storing a node under its id.
    pub open spec fn with_node(self, n: NodeView) -> DatabaseView {
        DatabaseView { nodes: upsert(self.nodes, n.id, n), ..self }
    }

    /// The database after storing a deployment under `id`.
    pub open spec fn with_deployment(self, id: Seq<char>, d: DeploymentView) -> DatabaseView {
        DatabaseView { deployments: upsert(self.deployments, id, d), ..self }
    }

    /// The database after a deployment id is added to the node stored under `node_id`.
    pub open spec fn with_deployment_on_node(self, node_id: Seq<char>, deployment_id: Seq<char>) -> DatabaseView {
        match self.node(node_id) {
            Some(n) => self.with_node(NodeView { deployments: n.deployments.push(deployment_id), ..n }),
            None => self,
        }
    }

    /// The database after a deployment id is taken out of every node.
    pub open spec fn without_deployment_on_nodes(self, deployment_id: Seq<char>) -> DatabaseView {
        DatabaseView {
            nodes: self.nodes.map_values(
                |e: (Seq<char>, NodeView)| (e.0, without_deployment(e.1, deployment_id)),
            ),
            ..self
        }
    }

    /// The services the orchestrator provides, when there is at least one.
    pub open spec fn platform_services(self) -> Option<Seq<ServiceView>> {
        match self.orchestrator.services {
            Some(v) => if v.len() == 0 {
                None
            } else {
                Some(v)
            },
            None => None,
        }
    }
}


/// Whether a node among `nodes` holds rollover priority `i`.
pub open spec fn priority_taken(nodes: Seq<(Seq<char>, NodeView)>, i: int) -> bool {
    exists|k: int|
        0 <= k < nodes.len() && #[trigger] nodes[k].1.orchestration_priority == Some(i as u8)
}

/// The lowest priority from `i` up to 254 that no node holds.
pub open spec fn free_priority_from(nodes: Seq<(Seq<char>, NodeView)>, i: int) -> Option<int>
    decreases 255 - i,
{
    if i < 0 || i >= 255 {
        None
    } else if !priority_taken(nodes, i) {
        Some(i)
    } else {
        free_priority_from(nodes, i + 1)
    }
}

/// The lowest priority below 255 that no node holds.
pub open spec fn lowest_free_priority(nodes: Seq<(Seq<char>, NodeView)>) -> Option<int> {
    free_priority_from(nodes, 0)
}

/// No node holds priority 255, the rank that stands for "no rank".
pub open spec fn priorities_below_limit(nodes: Seq<(Seq<char>, NodeView)>) -> bool {
    forall|k: int| 0 <= k < nodes.len() ==> #[trigger] nodes[k].1.orchestration_priority != Some(255u8)
}

/// The rollover rank the orchestrator gives the node stored under `node_id`, and the
/// database after: an unknown node, or any node when every priority below 255 is held,
/// gets 255; a node holding a priority below the lowest free one keeps it; any other node
/// takes the lowest free priority.
pub open spec fn orchestrator_rank(db: DatabaseView, node_id: Seq<char>) -> (u8, DatabaseView) {
    match db.node(node_id) {
        None => (255u8, db),
        Some(n) => match lowest_free_priority(db.nodes) {
            None => (255u8, db),
            Some(i) => match n.orchestration_priority {
                Some(p) if (p as int) < i => (p, db),
                _ => (i as u8, db.with_node(NodeView { orchestration_priority: Some(i as u8), ..n })),
            },
        },
    }
}

impl Database {
    pub closed spec fn wf(&self) -> bool {
        &&& self@.wf()
        &&& forall|i: int| 0 <= i < self.nodes@.len() ==> (#[trigger] self.nodes@[i]).0@ == self.nodes@[i].1.id@
    }

    /// A valid database has a valid model: unique keys, and each node stored under its id.
    pub proof fn lemma_wf_view(&self)
        requires
            self.wf(),
        ensures
            self@.wf(),
    {
    }

    /// An empty database whose orchestrator interface has no source and is `Errored`.
    pub fn new() -> (res: Database)
        ensures
            res.wf(),
            res@ == (DatabaseView {
                deployments: Seq::empty(),
                nodes: Seq::empty(),
                orchestrator: OrchestratorView {
                    ui: OrchestratorInterfaceView {
                        src_url: None,
                        cloned_commit: None,
                        status: ApplicationStatus::Errored,
                    },
                    services: None,
                },
            }),
    {
        let orchestrator = Orchestrator::new(
            OrchestratorInterface::new(None, None, ApplicationStatus::Errored),
        );
        let res = Database { deployments: Vec::new(), nodes: Vec::new(), orchestrator };
        proof {
            assert(deployment_entries(res.deployments@) =~= Seq::empty());
            assert(node_entries(res.nodes@) =~= Seq::empty());
        }
        res
    }

    pub fn get_orchestrator(&self) -> (res: Orchestrator)
        ensures
            res@ == self@.orchestrator,
    {
        self.orchestrator.clone()
    }

    pub fn update_orchestrator_interface(&mut self, o: &OrchestratorInterface)
        requires
            old(self).wf(),
        ensures
            final(self).wf(),
            final(self)@ == (DatabaseView {
                orchestrator: OrchestratorView { ui: o@, ..old(self)@.orchestrator },
                ..old(self)@
            }),
    {
        self.orchestrator.ui = o.clone();
    }

    /// The services of the orchestrator, or `None` when it provides none.
    pub fn get_platform_services(&self) -> (res: Option<Vec<Service>>)
        ensures
            match res {
                Some(v) => self@.platform_services() == Some(service_views(v@)),
                None => self@.platform_services() is None,
            },
    {
        match &self.orchestrator.services {
            Some(services) => if services.len() == 0 {
                None
            } else {
                Some(clone_services(services))
            },
            None => None,
        }
    }

    /// Adds a service to the orchestrator; always succeeds with `Ok(0)`.
    pub fn add_platform_service(&mut self, service: Service) -> (res: Result<i32, String>)
        requires
            old(self).wf(),
        ensures
            final(self).wf(),
            res == Ok::<i32, String>(0),
            final(self)@ == (DatabaseView {
                orchestrator: OrchestratorView {
                    services: Some(old(self)@.orchestrator.service_list().push(service@)),
                    ..old(self)@.orchestrator
                },
                ..old(self)@
            }),
    {
        self.orchestrator.add_service(service);
        Ok(0)
    }

    /// A copy of the node stored under `node_id`.
    pub fn get_node(&self, node_id: &str) -> (res: Option<Node>)
        ensures
            match res {
                Some(n) => self@.node(node_id@) == Some(n@),
                None => self@.node(node_id@) is None,
            },
    {
        proof {
            lemma_key_index_views(self.nodes@, self@.nodes, node_id@);
        }
        match find_key(&self.nodes, node_id) {
            Some(i) => Some(self.nodes[i].1.clone()),
            None => None,
        }
    }

    /// Stores a copy of `node` under its id; returns the node stored there before.
    pub fn insert_node(&mut self, node: &Node) -> (res: Option<Node>)
        requires
            old(self).wf(),
        ensures
            final(self).wf(),
            final(self)@ == old(self)@.with_node(node@),
            match res {
                Some(n) => old(self)@.node(node@.id) == Some(n@),
                None => old(self)@.node(node@.id) is None,
            },
    {
        let ghost old_nodes = self@.nodes;
        proof {
            lemma_key_index_views(self.nodes@, old_nodes, node.id@);
            lemma_key_index(old_nodes, node.id@);
        }
        let copy = node.clone();
        match find_key(&self.nodes, node.id.as_str()) {
            Some(i) => {
                let key = self.nodes[i].0.clone();
                let prev = self.nodes[i].1.clone();
                self.nodes.set(i, (key, copy));
                proof {
                    assert(node_entries(self.nodes@) =~= upsert(old_nodes, node.id@, node@));
                    lemma_upsert_unique(old_nodes, node.id@, node@);
                }
                Some(prev)
            },
            None => {
                self.nodes.push((node.id.clone(), copy));
                proof {
                    assert(node_entries(self.nodes@) =~= upsert(old_nodes, node.id@, node@));
                    lemma_upsert_unique(old_nodes, node.id@, node@);
                }
                None
            },
        }
    }

    /// Whether no stored node holds priority 255, as ranking nodes needs.
    pub fn priorities_below_limit(&self) -> (res: bool)
        ensures
            res == priorities_below_limit(self@.nodes),
    {
        let mut j: usize = 0;
        while j < self.nodes.len()
            invariant
                j <= self.nodes@.len(),
                self@.nodes.len() == self.nodes@.len(),
                forall|k: int| 0 <= k < j ==> #[trigger] self@.nodes[k].1.orchestration_priority != Some(255u8),
            decreases self.nodes.len() - j,
        {
            proof {
                assert(self@.nodes[j as int].1.orchestration_priority == self.nodes@[j as int].1.orchestration_priority);
            }
            if self.nodes[j].1.orchestration_priority == Some(255u8) {
                return false;
            }
            j = j + 1;
        }
        true
    }

    /// The rollover rank of the node stored under `node_id`, assigning it the lowest free
    /// priority when it holds none below that (see `orchestrator_rank`).
    pub fn get_orchestrator_rank(&mut self, node_id: &str) -> (res: u8)
        requires
            old(self).wf(),
            priorities_below_limit(old(self)@.nodes),
        ensures
            final(self).wf(),
            (res, final(self)@) == orchestrator_rank(old(self)@, node_id@),
    {
        let ghost nodes = self@.nodes;
        match self.get_node(node_id) {
            None => 255,
            Some(n) => {
                let mut n = n;
                let mut taken: Vec<bool> = Vec::new();
                let mut k: usize = 0;
                while k < 255
                    invariant
                        self.wf(),
                        self@ == old(self)@,
                        old(self)@.node(node_id@) == Some(n@),
                        k <= 255,
                        taken@.len() == k,
                        forall|m: int| 0 <= m < k ==> !taken@[m],
                    decreases 255 - k,
                {
                    taken.push(false);
                    k = k + 1;
                }
                let mut j: usize = 0;
                while j < self.nodes.len()
                    invariant
                        self.wf(),
                        self@ == old(self)@,
                        old(self)@.node(node_id@) == Some(n@),
                        j <= self.nodes@.len(),
                        nodes == self@.nodes,
                        nodes.len() == self.nodes@.len(),
                        priorities_below_limit(nodes),
                        taken@.len() == 255,
                        forall|m: int| 0 <= m < 255 ==> (taken@[m] <==> priority_taken(nodes.take(j as int), m)),
                    decreases self.nodes.len() - j,
                {
                    let prio = self.nodes[j].1.orchestration_priority;
                    proof {
                        assert(nodes[j as int].1.orchestration_priority == prio);
                    }
                    if let Some(p) = prio {
                        taken.set(p as usize, true);
                    }
                    proof {
                        let before = nodes.take(j as int);
                        let after = nodes.take(j + 1);
                        assert forall|m: int| 0 <= m < 255 implies (taken@[m] <==> priority_taken(after, m)) by {
                            if priority_taken(before, m) {
                                let w = choose|w: int| 0 <= w < before.len() && #[trigger] before[w].1.orchestration_priority == Some(m as u8);
                                assert(after[w] == before[w]);
                            }
                            if prio == Some(m as u8) {
                                assert(after[j as int].1.orchestration_priority == Some(m as u8));
                            }
                            if priority_taken(after, m) {
                                let w = choose|w: int| 0 <= w < after.len() && #[trigger] after[w].1.orchestration_priority == Some(m as u8);
                                if w < j {
                                    assert(before[w] == after[w]);
                                }
                            }
                        }
                    }
                    j = j + 1;
                }
                proof {
                    assert(nodes.take(nodes.len() as int) =~= nodes);
                }
                let mut i: usize = 0;
                while i < 255
                    invariant
                        self.wf(),
                        self@ == old(self)@,
                        old(self)@.node(node_id@) == Some(n@),
                        i <= 255,
                        nodes == self@.nodes,
                        taken@.len() == 255,
                        forall|m: int| 0 <= m < 255 ==> (taken@[m] <==> priority_taken(nodes, m)),
                        lowest_free_priority(nodes) == free_priority_from(nodes, i as int),
                    decreases 255 - i,
                {
                    if !taken[i] {
                        proof {
                            assert(free_priority_from(nodes, i as int) == Some(i as int));
                        }
                        match n.orchestration_priority {
                            Some(p) => {
                                if p < i as u8 {
                                    return p;
                                }
                            },
                            None => {},
                        }
                        n.orchestration_priority = Some(i as u8);
                        self.insert_node(&n);
                        return i as u8;
                    }
                    proof {
                        assert(priority_taken(nodes, i as int));
                    }
                    i = i + 1;
                }
                255
            },
        }
    }

    /// All stored nodes in entry order, or `None` when there are none.
    pub fn get_nodes(&self) -> (res: Option<Vec<Node>>)
        ensures
            match res {
                Some(v) => self@.nodes.len() > 0 && crate::gql_model::node_views(v@) == values(
                    self@.nodes,
                ),
                None => self@.nodes.len() == 0,
            },
    {
        let mut res: Vec<Node> = Vec::new();
        let mut i: usize = 0;
        while i < self.nodes.len()
            invariant
                i <= self.nodes@.len(),
                res@.len() == i,
                forall|j: int| 0 <= j < i ==> #[trigger] res@[j]@ == self.nodes@[j].1@,
            decreases self.nodes.len() - i,
        {
            res.push(self.nodes[i].1.clone());
            i = i + 1;
        }
        if res.len() == 0 {
            None
        } else {
            proof {
                assert(crate::gql_model::node_views(res@) =~= values(self@.nodes));
            }
            Some(res)
        }
    }

    /// A copy of the deployment stored under `deployment_id`.
    pub fn get_deployment(&self, deployment_id: &str) -> (res: Option<Deployment>)
        ensures
            match res {
                Some(d) => self@.deployment(deployment_id@) == Some(d@),
                None => self@.deployment(deployment_id@) is None,
            },
    {
        proof {
            lemma_key_index_views(self.deployments@, self@.deployments, deployment_id@);
        }
        match find_key(&self.deployments, deployment_id) {
            Some(i) => Some(self.deployments[i].1.clone()),
            None => None,
        }
    }

    /// Stores a copy of `deployment` under `deployment_id`; returns the deployment stored
    /// there before.
    pub fn update_deployment(&mut self, deployment_id: &str, deployment: &Deployment) -> (res: Option<Deployment>)
        requires
            old(self).wf(),
        ensures
            final(self).wf(),
            final(self)@ == old(self)@.with_deployment(deployment_id@, deployment@),
            match res {
                Some(d) => old(self)@.deployment(deployment_id@) == Some(d@),
                None => old(self)@.deployment(deployment_id@) is None,
            },
    {
        let ghost old_d = self@.deployments;
        proof {
            lemma_key_index_views(self.deployments@, old_d, deployment_id@);
            lemma_key_index(old_d, deployment_id@);
        }
        let copy = deployment.clone();
        match find_key(&self.deployments, deployment_id) {
            Some(i) => {
                let key = self.deployments[i].0.clone();
                let prev = self.deployments[i].1.clone();
                self.deployments.set(i, (key, copy));
                proof {
                    assert(deployment_entries(self.deployments@) =~= upsert(
                        old_d,
                        deployment_id@,
                        deployment@,
                    ));
                    lemma_upsert_unique(old_d, deployment_id@, deployment@);
                }
                Some(prev)
            },
            None => {
                self.deployments.push((owned(deployment_id), copy));
                proof {
                    assert(deployment_entries(self.deployments@) =~= upsert(
                        old_d,
                        deployment_id@,
                        deployment@,
                    ));
                    lemma_upsert_unique(old_d, deployment_id@, deployment@);
                }
                None
            },
        }
    }

    /// Stores a copy of `deployment` under its id; returns the deployment stored there before.
    pub fn insert_deployment(&mut self, deployment: &Deployment) -> (res: Option<Deployment>)
        requires
            old(self).wf(),
        ensures
            final(self).wf(),
            final(self)@ == old(self)@.with_deployment(deployment@.id, deployment@),
            match res {
                Some(d) => old(self)@.deployment(deployment@.id) == Some(d@),
                None => old(self)@.deployment(deployment@.id) is None,
            },
    {
        self.update_deployment(deployment.id.as_str(), deployment)
    }

    /// All stored deployments in entry order, or `None` when there are none.
    pub fn get_deployments(&self) -> (res: Option<Vec<Deployment>>)
        ensures
            match res {
                Some(v) => self@.deployments.len() > 0 && crate::gql_model::deployment_views(v@)
                    == values(self@.deployments),
                None => self@.deployments.len() == 0,
            },
    {
        let mut res: Vec<Deployment> = Vec::new();
        let mut i: usize = 0;
        while i < self.deployments.len()
            invariant
                i <= self.deployments@.len(),
                res@.len() == i,
                forall|j: int| 0 <= j < i ==> #[trigger] res@[j]@ == self.deployments@[j].1@,
            decreases self.deployments.len() - i,
        {
            res.push(self.deployments[i].1.clone());
            i = i + 1;
        }
        if res.len() == 0 {
            None
        } else {
            proof {
                assert(crate::gql_model::deployment_views(res@) =~= values(self@.deployments));
            }
            Some(res)
        }
    }

    /// Adds `deployment_id` to the deployments of the node stored under `node_id`;
    /// `Err(())` when there is no such node.
    pub fn add_deployment_to_node(&mut self, node_id: &str, deployment_id: String) -> (res: Result<(), ()>)
        requires
            old(self).wf(),
        ensures
            final(self).wf(),
            res is Ok <==> old(self)@.node(node_id@) is Some,
            final(self)@ == old(self)@.with_deployment_on_node(node_id@, deployment_id@),
    {
        let ghost old_nodes = self@.nodes;
        proof {
            lemma_key_index_views(self.nodes@, old_nodes, node_id@);
            lemma_key_index(old_nodes, node_id@);
        }
        match find_key(&self.nodes, node_id) {
            Some(i) => {
                let mut node = self.nodes[i].1.clone();
                let ghost n = node@;
                node.add_application_instance(deployment_id.as_str());
                proof {
                    assert(old_nodes[i as int].0 == n.id);
                    lemma_key_index(old_nodes, n.id);
                    assert(key_index(old_nodes, n.id) == i);
                }
                let key = self.nodes[i].0.clone();
                self.nodes.set(i, (key, node));
                proof {
                    assert(node_entries(self.nodes@) =~= upsert(old_nodes, n.id, node@));
                    lemma_upsert_unique(old_nodes, n.id, node@);
                }
                Ok(())
            },
            None => Err(()),
        }
    }

    /// Takes `deployment_id` out of the deployments of every node.
    pub fn remove_deployment_from_nodes(&mut self, deployment_id: &str)
        requires
            old(self).wf(),
        ensures
            final(self).wf(),
            final(self)@ == old(self)@.without_deployment_on_nodes(deployment_id@),
    {
        let ghost old_nodes = self@.nodes;
        let ghost target = old(self)@.without_deployment_on_nodes(deployment_id@).nodes;
        let mut i: usize = 0;
        while i < self.nodes.len()
            invariant
                self.nodes@.len() == old_nodes.len(),
                i <= self.nodes@.len(),
                target.len() == old_nodes.len(),
                target == old_nodes.map_values(
                    |e: (Seq<char>, NodeView)| (e.0, without_deployment(e.1, deployment_id@)),
                ),
                old_nodes == node_entries(old(self).nodes@),
                forall|j: int| 0 <= j < i ==> #[trigger] node_entries(self.nodes@)[j] == target[j],
                forall|j: int| i <= j < self.nodes@.len() ==> #[trigger] self.nodes@[j] == old(self).nodes@[j],
                self.deployments == old(self).deployments,
                self.orchestrator == old(self).orchestrator,
            decreases self.nodes.len() - i,
        {
            let mut node = self.nodes[i].1.clone();
            let ghost before = node@;
            let mut kept: Vec<String> = Vec::new();
            let mut j: usize = 0;
            while j < node.deployments.len()
                invariant
                    j <= node.deployments@.len(),
                    node@ == before,
                    text_views(kept@) == before.deployments.take(j as int).filter(
                        |d: Seq<char>| d != deployment_id@,
                    ),
                decreases node.deployments.len() - j,
            {
                proof {
                    reveal_with_fuel(Seq::filter, 1);
                    assert(before.deployments.take(j + 1).drop_last() =~= before.deployments.take(
                        j as int,
                    ));
                    assert(before.deployments[j as int] == node.deployments@[j as int]@);
                }
                if !text_eq(node.deployments[j].as_str(), deployment_id) {
                    let ghost prev = kept@;
                    kept.push(node.deployments[j].clone());
                    proof {
                        assert(text_views(kept@) =~= text_views(prev).push(node.deployments@[j as int]@));
                    }
                }
                j = j + 1;
            }
            proof {
                assert(before.deployments.take(node.deployments@.len() as int) =~= before.deployments);
            }
            node.deployments = kept;
            let key = self.nodes[i].0.clone();
            let ghost prev_nodes = self.nodes@;
            self.nodes.set(i, (key, node));
            proof {
                assert(node_entries(self.nodes@)[i as int] == target[i as int]);
                assert forall|j: int| 0 <= j < i + 1 implies #[trigger] node_entries(self.nodes@)[j]
                    == target[j] by {
                    if j < i {
                        assert(self.nodes@[j] == prev_nodes[j]);
                        assert(node_entries(prev_nodes)[j] == target[j]);
                    }
                }
            }
            i = i + 1;
        }
        proof {
            assert(node_entries(self.nodes@) =~= target);
            assert forall|a: int, b: int| 0 <= a < target.len() && 0 <= b < target.len() && a != b implies target[a].0 != target[b].0 by {
                assert(target[a].0 == old_nodes[a].0);
                assert(target[b].0 == old_nodes[b].0);
            }
            assert forall|a: int| 0 <= a < self.nodes@.len() implies (#[trigger] self.nodes@[a]).0@ == self.nodes@[a].1.id@ by {
                assert(node_entries(self.nodes@)[a] == target[a]);
                assert(old_nodes[a].0 == old_nodes[a].1.id);
            }
        }
    }
}

/// Two entry lists with the same keys at the same places find every key at the same place.
pub proof fn lemma_key_index_same_keys<V, W>(s: Seq<(Seq<char>, V)>, t: Seq<(Seq<char>, W)>, k: Seq<char>)
    requires
        s.len() == t.len(),
        forall|i: int| 0 <= i < s.len() ==> #[trigger] t[i].0 == s[i].0,
    ensures
        key_index(t, k) == key_index(s, k),
{
    lemma_key_index(s, k);
    let ki = key_index(s, k);
    if ki >= 0 {
        assert(t[ki].0 == s[ki].0);
    }
    assert forall|j: int| ki < j < t.len() implies t[j].0 != k by {
        assert(t[j].0 == s[j].0);
    }
    lemma_key_index_is(t, k, ki);
}

/// Reading a node after storing it gives it back; the nodes under other ids are unchanged.
pub proof fn law_node_read_after_write(db: DatabaseView, n: NodeView, other: Seq<char>)
    requires
        other != n.id,
    ensures
        db.with_node(n).node(n.id) == Some(n),
        db.with_node(n).node(other) == db.node(other),
        db.with_node(n).deployments == db.deployments,
{
    lemma_lookup_upsert(db.nodes, n.id, n, n.id);
    lemma_lookup_upsert(db.nodes, n.id, n, other);
}

/// Reading a deployment after storing it under an id gives it back; the deployments under
/// other ids are unchanged.
pub proof fn law_deployment_read_after_write(db: DatabaseView, id: Seq<char>, d: DeploymentView, other: Seq<char>)
    requires
        other != id,
    ensures
        db.with_deployment(id, d).deployment(id) == Some(d),
        db.with_deployment(id, d).deployment(other) == db.deployment(other),
        db.with_deployment(id, d).nodes == db.nodes,
{
    lemma_lookup_upsert(db.deployments, id, d, id);
    lemma_lookup_upsert(db.deployments, id, d, other);
}

/// Storing a deployment twice under the same id leaves the second one.
pub proof fn law_deployment_write_twice(db: DatabaseView, id: Seq<char>, d1: DeploymentView, d2: DeploymentView, k: Seq<char>)
    ensures
        db.with_deployment(id, d1).with_deployment(id, d2).deployment(k) == db.with_deployment(
            id,
            d2,
        ).deployment(k),
{
    let once = db.with_deployment(id, d1);
    lemma_lookup_upsert(once.deployments, id, d2, k);
    lemma_lookup_upsert(db.deployments, id, d1, k);
    lemma_lookup_upsert(db.deployments, id, d2, k);
}

/// After a deployment is taken out of the nodes, no node lists it, each node keeps its other
/// deployments in order, and the same ids have nodes as before.
pub proof fn law_deployment_removed_from_nodes(db: DatabaseView, deployment_id: Seq<char>, k: Seq<char>)
    ensures
        db.without_deployment_on_nodes(deployment_id).node(k) == match db.node(k) {
            Some(n) => Some(without_deployment(n, deployment_id)),
            None => None,
        },
        db.without_deployment_on_nodes(deployment_id).node(k) matches Some(n)
            ==> !n.deployments.contains(deployment_id),
        db.without_deployment_on_nodes(deployment_id).deployments == db.deployments,
{
    let after = db.without_deployment_on_nodes(deployment_id);
    lemma_key_index_same_keys(db.nodes, after.nodes, k);
    lemma_key_index(db.nodes, k);
    if let Some(n) = db.node(k) {
        let kept = n.deployments.filter(|d: Seq<char>| d != deployment_id);
        if kept.contains(deployment_id) {
            let j = choose|j: int| 0 <= j < kept.len() && kept[j] == deployment_id;
            n.deployments.lemma_filter_pred(|d: Seq<char>| d != deployment_id, j);
        }
    }
}

/// Adding a deployment to a stored node appends it to that node's list; other nodes are
/// unchanged.
pub proof fn law_deployment_added_to_node(db: DatabaseView, node_id: Seq<char>, deployment_id: Seq<char>, other: Seq<char>)
    requires
        db.wf(),
        other != node_id,
    ensures
        db.with_deployment_on_node(node_id, deployment_id).node(node_id) == match db.node(node_id) {
            Some(n) => Some(NodeView { deployments: n.deployments.push(deployment_id), ..n }),
            None => None,
        },
        db.with_deployment_on_node(node_id, deployment_id).node(other) == db.node(other),
{
    lemma_key_index(db.nodes, node_id);
    if let Some(n) = db.node(node_id) {
        let i = key_index(db.nodes, node_id);
        assert(db.nodes[i].0 == db.nodes[i].1.id);
        let n2 = NodeView { deployments: n.deployments.push(deployment_id), ..n };
        lemma_lookup_upsert(db.nodes, n.id, n2, node_id);
        lemma_lookup_upsert(db.nodes, n.id, n2, other);
    }
}

/// What the lowest free priority from `i` on is: it is free, and every priority from `i`
/// below it is held; with none, every priority from `i` to 254 is held.
proof fn lemma_free_from(nodes: Seq<(Seq<char>, NodeView)>, i: int)
    requires
        0 <= i <= 255,
    ensures
        match free_priority_from(nodes, i) {
            Some(r) => i <= r < 255 && !priority_taken(nodes, r) && forall|m: int|
                i <= m < r ==> #[trigger] priority_taken(nodes, m),
            None => forall|m: int| i <= m < 255 ==> #[trigger] priority_taken(nodes, m),
        },
    decreases 255 - i,
{
    if i < 255 && priority_taken(nodes, i) {
        lemma_free_from(nodes, i + 1);
    }
}

/// No two nodes hold the same rollover priority.
pub open spec fn priorities_unique(nodes: Seq<(Seq<char>, NodeView)>) -> bool {
    forall|a: int, b: int|
        0 <= a < nodes.len() && 0 <= b < nodes.len() && a != b && (#[trigger] nodes[a]).1.orchestration_priority
            is Some ==> nodes[a].1.orchestration_priority != (#[trigger] nodes[b]).1.orchestration_priority
}

/// The entry a stored node sits in, and what storing it back with a new priority does.
proof fn lemma_rank_assign(db: DatabaseView, node_id: Seq<char>, i: int)
    requires
        db.wf(),
        db.node(node_id) is Some,
        0 <= i < 255,
    ensures
        ({
            let n = db.node(node_id)->0;
            let ki = key_index(db.nodes, node_id);
            let n2 = NodeView { orchestration_priority: Some(i as u8), ..n };
            let after = db.with_node(n2);
            &&& 0 <= ki < db.nodes.len()
            &&& db.nodes[ki].1 == n
            &&& n.id == node_id
            &&& after.nodes == db.nodes.update(ki, (node_id, n2))
            &&& after.node(node_id) == Some(n2)
        }),
{
    lemma_key_index(db.nodes, node_id);
    let n = db.node(node_id)->0;
    let ki = key_index(db.nodes, node_id);
    assert(db.nodes[ki].0 == db.nodes[ki].1.id);
    let n2 = NodeView { orchestration_priority: Some(i as u8), ..n };
    lemma_lookup_upsert(db.nodes, n2.id, n2, node_id);
}

/// Asking for a node's rank twice changes nothing the second time, and gives the same rank
/// as long as some priority below 255 is still free.
pub proof fn law_rank_stable(db: DatabaseView, node_id: Seq<char>)
    requires
        db.wf(),
    ensures
        ({
            let first = orchestrator_rank(db, node_id);
            let second = orchestrator_rank(first.1, node_id);
            &&& second.1 == first.1
            &&& lowest_free_priority(first.1.nodes) is Some ==> second.0 == first.0
        }),
{
    if let Some(n) = db.node(node_id) {
        lemma_free_from(db.nodes, 0);
        if let Some(i) = lowest_free_priority(db.nodes) {
            let held_below = match n.orchestration_priority {
                Some(p) => (p as int) < i,
                None => false,
            };
            if !held_below {
                lemma_rank_assign(db, node_id, i);
                let ki = key_index(db.nodes, node_id);
                let n2 = NodeView { orchestration_priority: Some(i as u8), ..n };
                let after = db.with_node(n2);
                assert forall|m: int| 0 <= m <= i implies #[trigger] priority_taken(after.nodes, m) by {
                    if m == i {
                        assert(after.nodes[ki].1.orchestration_priority == Some(i as u8));
                    } else {
                        assert(priority_taken(db.nodes, m));
                        let w = choose|w: int|
                            0 <= w < db.nodes.len() && #[trigger] db.nodes[w].1.orchestration_priority
                                == Some(m as u8);
                        assert(w != ki);
                        assert(after.nodes[w] == db.nodes[w]);
                    }
                }
                lemma_free_from(after.nodes, 0);
            }
        }
    }
}

/// A rank below 255 is the priority the node then holds.
pub proof fn law_rank_held(db: DatabaseView, node_id: Seq<char>)
    requires
        db.wf(),
    ensures
        ({
            let (rank, after) = orchestrator_rank(db, node_id);
            rank != 255 ==> (after.node(node_id) matches Some(n) && n.orchestration_priority == Some(rank))
        }),
{
    if let Some(n) = db.node(node_id) {
        lemma_free_from(db.nodes, 0);
        if let Some(i) = lowest_free_priority(db.nodes) {
            lemma_rank_assign(db, node_id, i);
        }
    }
}

/// Handing out ranks never gives two nodes the same priority.
pub proof fn law_rank_keeps_priorities_unique(db: DatabaseView, node_id: Seq<char>)
    requires
        db.wf(),
        priorities_unique(db.nodes),
    ensures
        priorities_unique(orchestrator_rank(db, node_id).1.nodes),
{
    if let Some(n) = db.node(node_id) {
        lemma_free_from(db.nodes, 0);
        if let Some(i) = lowest_free_priority(db.nodes) {
            lemma_rank_assign(db, node_id, i);
            let ki = key_index(db.nodes, node_id);
            let n2 = NodeView { orchestration_priority: Some(i as u8), ..n };
            let t = db.with_node(n2).nodes;
            assert forall|a: int, b: int|
                0 <= a < t.len() && 0 <= b < t.len() && a != b && (#[trigger] t[a]).1.orchestration_priority
                    is Some implies t[a].1.orchestration_priority != (#[trigger] t[b]).1.orchestration_priority by {
                if a == ki {
                    assert(t[b] == db.nodes[b]);
                    if db.nodes[b].1.orchestration_priority == Some(i as u8) {
                        assert(priority_taken(db.nodes, i));
                    }
                } else if b == ki {
                    assert(t[a] == db.nodes[a]);
                    if db.nodes[a].1.orchestration_priority == Some(i as u8) {
                        assert(priority_taken(db.nodes, i));
                    }
                } else {
                    assert(t[a] == db.nodes[a]);
                    assert(t[b] == db.nodes[b]);
                }
            }
        }
    }
}

} // verus!
