//! The messages the platform exchanges over RabbitMQ and the names of its queues.
//!
//! Every message travels as the UTF-8 bytes of a line of text whose fields are separated
//! by `'|'`; each message type turns itself into such bytes and reads itself back.
pub mod deployment_message;
pub mod log_message;
pub mod sysinfo_message;
pub mod work_request_message;

use vstd::prelude::*;

verus! {

/// Labels of the queues that rabbit messages are posted to.
#[derive(Clone, Copy, Debug, PartialEq, Eq, Structural)]
pub enum QueueLabel {
    Sysinfo,
    Deployment,
    Log,
}

/// The queue name of a label.
pub open spec fn queue_name(l: QueueLabel) -> Seq<char> {
    match l {
        QueueLabel::Sysinfo => "sysinfo"@,
        QueueLabel::Deployment => "deployment"@,
        QueueLabel::Log => "log"@,
    }
}

impl QueueLabel {
    /// The name of the queue, unique across the rabbit instance.
    pub fn as_str(&self) -> (res: &'static str)
        ensures
            res@ == queue_name(*self),
    {
        match *self {
            QueueLabel::Sysinfo => "sysinfo",
            QueueLabel::Deployment => "deployment",
            QueueLabel::Log => "log",
        }
    }
}

/// Distinct labels name distinct queues.
pub proof fn law_queue_names_distinct(a: QueueLabel, b: QueueLabel)
    requires
        a != b,
    ensures
        queue_name(a) != queue_name(b),
{
    reveal_strlit("sysinfo");
    reveal_strlit("deployment");
    reveal_strlit("log");
    assert("sysinfo"@.len() != "deployment"@.len());
    assert("sysinfo"@.len() != "log"@.len());
    assert("log"@.len() != "deployment"@.len());
}

} // verus!
