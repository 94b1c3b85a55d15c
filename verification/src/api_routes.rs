//! What the orchestrator's HTTP routes answer.
use crate::decimal::{decimal_digits, u8_to_text};
use crate::platform_executor::orchestration_executor::db::{orchestrator_rank, priorities_below_limit, Database};
use crate::text::owned;
use vstd::prelude::*;

verus! {

/// The answer to `/ping`, by which nodes find the orchestrator.
pub fn ping_reply() -> (res: String)
    ensures
        res@ == "pong"@,
{
    owned("pong")
}

/// The answer to `/health/<requester_node_id>`: the decimal text of the requester's
/// rollover rank, which it is given here when it has none yet.
pub fn health_reply(db: &mut Database, requester_node_id: &str) -> (res: String)
    requires
        old(db).wf(),
        priorities_below_limit(old(db)@.nodes),
    ensures
        final(db).wf(),
        res@ == decimal_digits(orchestrator_rank(old(db)@, requester_node_id@).0 as nat),
        final(db)@ == orchestrator_rank(old(db)@, requester_node_id@).1,
{
    let rank = db.get_orchestrator_rank(requester_node_id);
    u8_to_text(rank)
}

} // verus!
