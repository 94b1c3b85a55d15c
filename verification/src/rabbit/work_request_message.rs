//! Messages with which the orchestrator requests work from a node.
use crate::decimal::{i16_text, i16_to_text, lemma_i16_text_roundtrip, parse_i16, parse_i16_text};
use crate::text::{
    bar, bar_free, join_fields, lemma_split_join, lossy_utf8_text, owned, push_char, push_str,
    split_bars, split_fields, text_bytes, text_eq, text_from_bytes_lossy,
};
use vstd::prelude::*;
use vstd::utf8::*;

verus! {

/// The kinds of work a node can be asked for.
#[derive(Clone, Copy, Debug, PartialEq, Eq, Structural)]
pub enum WorkRequestType {
    RequestDeployment,
    CancelDeployment,
    SetPromotionPriority,
}

/// The text of a request type.
pub open spec fn request_type_name(t: WorkRequestType) -> Seq<char> {
    match t {
        WorkRequestType::RequestDeployment => "request_deployment"@,
        WorkRequestType::CancelDeployment => "cancel_deployment"@,
        WorkRequestType::SetPromotionPriority => "set_promotion_priority"@,
    }
}

/// The request type a text names; any text but the first two names is a priority change.
pub open spec fn request_type_named(s: Seq<char>) -> WorkRequestType {
    if s == "request_deployment"@ {
        WorkRequestType::RequestDeployment
    } else if s == "cancel_deployment"@ {
        WorkRequestType::CancelDeployment
    } else {
        WorkRequestType::SetPromotionPriority
    }
}

impl WorkRequestType {
    pub fn as_str(&self) -> (res: &'static str)
        ensures
            res@ == request_type_name(*self),
    {
        match *self {
            WorkRequestType::RequestDeployment => "request_deployment",
            WorkRequestType::CancelDeployment => "cancel_deployment",
            WorkRequestType::SetPromotionPriority => "set_promotion_priority",
        }
    }

    pub fn from_str(s: &str) -> (res: WorkRequestType)
        ensures
            res == request_type_named(s@),
    {
        if text_eq(s, "request_deployment") {
            WorkRequestType::RequestDeployment
        } else if text_eq(s, "cancel_deployment") {
            WorkRequestType::CancelDeployment
        } else {
            WorkRequestType::SetPromotionPriority
        }
    }
}

/// The text of a request type names it back, and holds no `'|'`.
pub proof fn law_request_type_roundtrip(t: WorkRequestType)
    ensures
        request_type_named(request_type_name(t)) == t,
        bar_free(request_type_name(t)),
{
    reveal_strlit("request_deployment");
    reveal_strlit("cancel_deployment");
    reveal_strlit("set_promotion_priority");
    assert("request_deployment"@.len() != "cancel_deployment"@.len());
    assert("request_deployment"@.len() != "set_promotion_priority"@.len());
    assert("cancel_deployment"@.len() != "set_promotion_priority"@.len());
    let n = request_type_name(t);
    if n.contains(bar()) {
        let k = choose|k: int| 0 <= k < n.len() && n[k] == bar();
    }
}

/// A request of work from the orchestrator. The request type decides which fields are used:
/// a deployment request carries a deployment id and url, a cancellation a deployment id,
/// a priority change a priority.
#[derive(Debug, PartialEq, Eq)]
pub struct WorkRequestMessage {
    pub request_type: WorkRequestType,
    pub deployment_id: Option<String>,
    pub deployment_url: Option<String>,
    pub priority: Option<i16>,
}

/// The mathematical model of a work request.
pub struct WorkRequestMessageView {
    pub request_type: WorkRequestType,
    pub deployment_id: Option<Seq<char>>,
    pub deployment_url: Option<Seq<char>>,
    pub priority: Option<i16>,
}

/// The model of an optional borrowed text.
pub open spec fn opt_str(s: Option<&str>) -> Option<Seq<char>> {
    match s {
        Some(v) => Some(v@),
        None => None,
    }
}

/// The model of an optional owned text.
pub open spec fn opt_string(s: Option<String>) -> Option<Seq<char>> {
    match s {
        Some(v) => Some(v@),
        None => None,
    }
}

impl View for WorkRequestMessage {
    type V = WorkRequestMessageView;

    open spec fn view(&self) -> WorkRequestMessageView {
        WorkRequestMessageView {
            request_type: self.request_type,
            deployment_id: opt_string(self.deployment_id),
            deployment_url: opt_string(self.deployment_url),
            priority: self.priority,
        }
    }
}

impl Clone for WorkRequestMessage {
    fn clone(&self) -> (res: Self)
        ensures
            res@ == self@,
    {
        WorkRequestMessage {
            request_type: self.request_type,
            deployment_id: match &self.deployment_id {
                Some(d) => Some(d.clone()),
                None => None,
            },
            deployment_url: match &self.deployment_url {
                Some(d) => Some(d.clone()),
                None => None,
            },
            priority: self.priority,
        }
    }
}

/// Whether a work request carries the fields its type needs to be sent.
pub open spec fn work_request_sendable(m: WorkRequestMessageView) -> bool {
    match m.request_type {
        WorkRequestType::RequestDeployment => m.deployment_id is Some && m.deployment_url is Some,
        WorkRequestType::CancelDeployment => m.deployment_id is Some,
        WorkRequestType::SetPromotionPriority => m.priority is Some,
    }
}

/// The fields of a sendable work request on the wire.
pub open spec fn work_request_fields(m: WorkRequestMessageView) -> Seq<Seq<char>> {
    match m.request_type {
        WorkRequestType::RequestDeployment => seq![
            request_type_name(m.request_type),
            m.deployment_id->0,
            m.deployment_url->0,
        ],
        WorkRequestType::CancelDeployment => seq![
            request_type_name(m.request_type),
            m.deployment_id->0,
        ],
        WorkRequestType::SetPromotionPriority => seq![
            request_type_name(m.request_type),
            i16_text(m.priority->0),
        ],
    }
}

/// The text a work request travels as: `type|id|url`, `type|id` or `type|priority`.
pub open spec fn work_request_text(m: WorkRequestMessageView) -> Seq<char> {
    join_fields(work_request_fields(m))
}

/// Whether a work request can be read from `text`: the fields its type needs are there,
/// and a priority is a number in the range of `i16`.
pub open spec fn work_request_readable(text: Seq<char>) -> bool {
    let f = split_fields(text);
    match request_type_named(f[0]) {
        WorkRequestType::RequestDeployment => f.len() >= 3,
        WorkRequestType::CancelDeployment => f.len() >= 2,
        WorkRequestType::SetPromotionPriority => f.len() >= 2 && parse_i16_text(f[1]) is Some,
    }
}

/// What a work request read from `text` holds.
pub open spec fn read_work_request(text: Seq<char>) -> WorkRequestMessageView {
    let f = split_fields(text);
    match request_type_named(f[0]) {
        WorkRequestType::RequestDeployment => WorkRequestMessageView {
            request_type: WorkRequestType::RequestDeployment,
            deployment_id: Some(f[1]),
            deployment_url: Some(f[2]),
            priority: None,
        },
        WorkRequestType::CancelDeployment => WorkRequestMessageView {
            request_type: WorkRequestType::CancelDeployment,
            deployment_id: Some(f[1]),
            deployment_url: None,
            priority: None,
        },
        WorkRequestType::SetPromotionPriority => WorkRequestMessageView {
            request_type: WorkRequestType::SetPromotionPriority,
            deployment_id: None,
            deployment_url: None,
            priority: parse_i16_text(f[1]),
        },
    }
}

impl WorkRequestMessage {
    pub fn new(
        request_type: WorkRequestType,
        deployment_id: Option<&str>,
        deployment_url: Option<&str>,
        priority: Option<i16>,
    ) -> (res: WorkRequestMessage)
        ensures
            res@ == (WorkRequestMessageView {
                request_type,
                deployment_id: opt_str(deployment_id),
                deployment_url: opt_str(deployment_url),
                priority,
            }),
    {
        WorkRequestMessage {
            request_type,
            deployment_id: match deployment_id {
                Some(d) => Some(owned(d)),
                None => None,
            },
            deployment_url: match deployment_url {
                Some(d) => Some(owned(d)),
                None => None,
            },
            priority,
        }
    }

    /// The bytes the request is sent as: the UTF-8 encoding of its text.
    pub fn build_message(&self) -> (res: Vec<u8>)
        requires
            work_request_sendable(self@),
        ensures
            res@ == encode_utf8(work_request_text(self@)),
    {
        let mut s = owned(self.request_type.as_str());
        push_char(&mut s, '|');
        match self.request_type {
            WorkRequestType::RequestDeployment => {
                let id = self.deployment_id.as_ref().unwrap();
                let url = self.deployment_url.as_ref().unwrap();
                push_str(&mut s, id.as_str());
                push_char(&mut s, '|');
                push_str(&mut s, url.as_str());
                proof {
                    let f = work_request_fields(self@);
                    let g1 = seq![f[0]];
                    let g2 = seq![f[0], f[1]];
                    assert(g2.drop_last() =~= g1);
                    assert(f.drop_last() =~= g2);
                    assert(join_fields(g1) == f[0]);
                    assert(join_fields(g2) == f[0] + seq![bar()] + f[1]);
                    assert(join_fields(f) == join_fields(g2) + seq![bar()] + f[2]);
                    assert(s@ =~= work_request_text(self@));
                }
            },
            WorkRequestType::CancelDeployment => {
                let id = self.deployment_id.as_ref().unwrap();
                push_str(&mut s, id.as_str());
                proof {
                    let f = work_request_fields(self@);
                    assert(f.drop_last() =~= seq![f[0]]);
                    assert(join_fields(seq![f[0]]) == f[0]);
                    assert(join_fields(f) == f[0] + seq![bar()] + f[1]);
                    assert(s@ =~= work_request_text(self@));
                }
            },
            WorkRequestType::SetPromotionPriority => {
                let p = i16_to_text(self.priority.unwrap());
                push_str(&mut s, p.as_str());
                proof {
                    let f = work_request_fields(self@);
                    assert(f.drop_last() =~= seq![f[0]]);
                    assert(join_fields(seq![f[0]]) == f[0]);
                    assert(f[1] == p@);
                    assert(join_fields(f) == f[0] + seq![bar()] + f[1]);
                    assert(s@ =~= work_request_text(self@));
                }
            },
        }
        text_bytes(s.as_str())
    }

    /// Whether a work request can be read from `text`.
    pub fn is_readable_text(text: &str) -> (res: bool)
        ensures
            res == work_request_readable(text@),
    {
        let fields = split_bars(text);
        proof {
            crate::text::lemma_split_nonempty(text@);
        }
        match WorkRequestType::from_str(fields[0].as_str()) {
            WorkRequestType::RequestDeployment => fields.len() >= 3,
            WorkRequestType::CancelDeployment => fields.len() >= 2,
            WorkRequestType::SetPromotionPriority => fields.len() >= 2 && parse_i16(
                fields[1].as_str(),
            ).is_some(),
        }
    }

    /// Reads a work request from its text; returns the first field and the request.
    pub fn deconstruct_text(text: &str) -> (res: (String, WorkRequestMessage))
        requires
            work_request_readable(text@),
        ensures
            res.0@ == split_fields(text@)[0],
            res.1@ == read_work_request(text@),
    {
        let fields = split_bars(text);
        proof {
            crate::text::lemma_split_nonempty(text@);
        }
        let request_type = WorkRequestType::from_str(fields[0].as_str());
        let msg = match request_type {
            WorkRequestType::RequestDeployment => WorkRequestMessage::new(
                request_type,
                Some(fields[1].as_str()),
                Some(fields[2].as_str()),
                None,
            ),
            WorkRequestType::CancelDeployment => WorkRequestMessage::new(
                request_type,
                Some(fields[1].as_str()),
                None,
                None,
            ),
            WorkRequestType::SetPromotionPriority => WorkRequestMessage::new(
                request_type,
                None,
                None,
                parse_i16(fields[1].as_str()),
            ),
        };
        (fields[0].clone(), msg)
    }

    /// Reads a work request from the bytes it was sent as, decoding them as
    /// `String::from_utf8_lossy` does; returns the first field and the request.
    pub fn deconstruct_message(packet_data: &Vec<u8>) -> (res: (String, WorkRequestMessage))
        requires
            work_request_readable(lossy_utf8_text(packet_data@)),
        ensures
            res.0@ == split_fields(lossy_utf8_text(packet_data@))[0],
            res.1@ == read_work_request(lossy_utf8_text(packet_data@)),
            valid_utf8(packet_data@) ==> res.1@ == read_work_request(decode_utf8(packet_data@)),
    {
        let text = text_from_bytes_lossy(packet_data.as_slice());
        WorkRequestMessage::deconstruct_text(text.as_str())
    }

    /// Reads a work request from bytes of any content: `None` when no request can be read
    /// from their text.
    pub fn try_deconstruct_message(packet_data: &Vec<u8>) -> (res: Option<(String, WorkRequestMessage)>)
        ensures
            res is Some <==> work_request_readable(lossy_utf8_text(packet_data@)),
            res matches Some(r) ==> r.0@ == split_fields(lossy_utf8_text(packet_data@))[0]
                && r.1@ == read_work_request(lossy_utf8_text(packet_data@)),
    {
        let text = text_from_bytes_lossy(packet_data.as_slice());
        if WorkRequestMessage::is_readable_text(text.as_str()) {
            Some(WorkRequestMessage::deconstruct_message(packet_data))
        } else {
            None
        }
    }
}

/// Whether a work request carries exactly the fields its type uses, so that nothing is lost
/// on the wire.
pub open spec fn work_request_canonical(m: WorkRequestMessageView) -> bool {
    match m.request_type {
        WorkRequestType::RequestDeployment => m.deployment_id is Some && m.deployment_url is Some
            && m.priority is None,
        WorkRequestType::CancelDeployment => m.deployment_id is Some && m.deployment_url is None
            && m.priority is None,
        WorkRequestType::SetPromotionPriority => m.priority is Some && m.deployment_id is None
            && m.deployment_url is None,
    }
}

/// A work request survives the trip over the wire: the bytes `build_message` makes, read
/// back by `deconstruct_message`, give the same request and its type's name, as long as it
/// carries exactly the fields its type uses and none of its texts holds a `'|'`.
pub proof fn law_work_request_invertible(m: WorkRequestMessageView)
    requires
        work_request_canonical(m),
        m.deployment_id matches Some(d) ==> bar_free(d),
        m.deployment_url matches Some(u) ==> bar_free(u),
    ensures
        work_request_sendable(m),
        valid_utf8(encode_utf8(work_request_text(m))),
        work_request_readable(decode_utf8(encode_utf8(work_request_text(m)))),
        read_work_request(decode_utf8(encode_utf8(work_request_text(m)))) == m,
        split_fields(decode_utf8(encode_utf8(work_request_text(m))))[0] == request_type_name(
            m.request_type,
        ),
{
    broadcast use encode_utf8_valid_utf8, encode_utf8_decode_utf8;

    law_request_type_roundtrip(m.request_type);
    let f = work_request_fields(m);
    if let Some(p) = m.priority {
        lemma_i16_text_roundtrip(p);
    }
    assert forall|i: int| 0 <= i < f.len() implies bar_free(#[trigger] f[i]) by {
        if i == 0 {
        } else if i == 1 {
        } else {
        }
    }
    lemma_split_join(f);
}

} // verus!
