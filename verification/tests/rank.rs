use kraken::api_routes::{health_reply, ping_reply};
use kraken::gql_model::Node;
use kraken::platform_executor::orchestration_executor::db::Database;
use kraken::platform_executor::NodeMode;

fn node(id: &str, priority: Option<u8>) -> Node {
    Node::new(id, "pi", "10.0.0.9", NodeMode::WORKER, priority)
}

#[test]
fn ranks_fill_the_lowest_free_priority() {
    let mut db = Database::new();
    db.insert_node(&node("orch", Some(0)));
    db.insert_node(&node("a", None));
    db.insert_node(&node("b", None));
    assert_eq!(db.get_orchestrator_rank("a"), 1);
    assert_eq!(db.get_node("a").unwrap().orchestration_priority, Some(1));
    assert_eq!(db.get_orchestrator_rank("a"), 1);
    assert_eq!(db.get_orchestrator_rank("b"), 2);
    assert_eq!(db.get_orchestrator_rank("orch"), 0);
    assert_eq!(db.get_orchestrator_rank("unknown"), 255);
    assert!(db.get_node("unknown").is_none());
}

#[test]
fn ranks_move_down_to_free_priorities() {
    let mut db = Database::new();
    db.insert_node(&node("orch", Some(0)));
    db.insert_node(&node("b", Some(2)));
    db.insert_node(&node("c", None));
    assert_eq!(db.get_orchestrator_rank("b"), 1);
    assert_eq!(db.get_node("b").unwrap().orchestration_priority, Some(1));
    assert_eq!(db.get_orchestrator_rank("c"), 2);
}

#[test]
fn ranks_run_out_at_255() {
    let mut db = Database::new();
    for p in 0..255u8 {
        db.insert_node(&node(&format!("n{}", p), Some(p)));
    }
    db.insert_node(&node("late", None));
    assert!(db.priorities_below_limit());
    assert_eq!(db.get_orchestrator_rank("late"), 255);
    assert_eq!(db.get_node("late").unwrap().orchestration_priority, None);
    assert_eq!(db.get_orchestrator_rank("n254"), 255);
    assert_eq!(db.get_node("n254").unwrap().orchestration_priority, Some(254));
    db.insert_node(&node("odd", Some(255)));
    assert!(!db.priorities_below_limit());
}

#[test]
fn health_and_ping_replies() {
    let mut db = Database::new();
    db.insert_node(&node("orch", Some(0)));
    db.insert_node(&node("w", None));
    assert_eq!(health_reply(&mut db, "w"), "1");
    assert_eq!(health_reply(&mut db, "nobody"), "255");
    assert_eq!(ping_reply(), "pong");
}
