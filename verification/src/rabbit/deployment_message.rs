//! A message describing the status of an active deployment.
use crate::gql_model::{
    lemma_status_name_bar_free, lemma_status_name_roundtrip, status_name, status_named,
    ApplicationStatus,
};
use crate::text::{
    bar, bar_free, join_fields, lemma_split_join, lemma_split_nonempty, lossy_utf8_text, owned,
    push_char, push_str, split_bars, split_fields, text_bytes, text_eq, text_from_bytes_lossy,
};
use vstd::prelude::*;
use vstd::utf8::*;

verus! {

/// A report from a worker on one of its deployments.
#[derive(Debug, PartialEq, Eq)]
pub struct DeploymentMessage {
    pub system_identifier: String,
    pub deployment_id: String,
    pub deployment_status: ApplicationStatus,
    pub deployment_status_description: String,
    /// The docker statistics of the deployment's container, as the JSON text of a
    /// `docker::ContainerStatus` (the text `null` never stands here)
    pub container_status: Option<String>,
}

/// The mathematical model of a deployment message.
pub struct DeploymentMessageView {
    pub system_identifier: Seq<char>,
    pub deployment_id: Seq<char>,
    pub deployment_status: ApplicationStatus,
    pub deployment_status_description: Seq<char>,
    pub container_status: Option<Seq<char>>,
}

impl View for DeploymentMessage {
    type V = DeploymentMessageView;

    open spec fn view(&self) -> DeploymentMessageView {
        DeploymentMessageView {
            system_identifier: self.system_identifier@,
            deployment_id: self.deployment_id@,
            deployment_status: self.deployment_status,
            deployment_status_description: self.deployment_status_description@,
            container_status: match self.container_status {
                Some(j) => Some(j@),
                None => None,
            },
        }
    }
}

/// The JSON text of an optional container status: `null` when there is none.
pub open spec fn container_json(cs: Option<Seq<char>>) -> Seq<char> {
    match cs {
        Some(j) => j,
        None => "null"@,
    }
}

/// The container status a JSON field stands for.
pub open spec fn read_container_json(f: Seq<char>) -> Option<Seq<char>> {
    if f == "null"@ {
        None
    } else {
        Some(f)
    }
}

/// The fields of a deployment message on the wire.
pub open spec fn deployment_message_fields(m: DeploymentMessageView) -> Seq<Seq<char>> {
    seq![
        m.system_identifier,
        m.deployment_id,
        status_name(m.deployment_status),
        m.deployment_status_description,
        container_json(m.container_status),
    ]
}

/// The text a deployment message travels as:
/// `system|deployment|status|description|container JSON`.
pub open spec fn deployment_message_text(m: DeploymentMessageView) -> Seq<char> {
    join_fields(deployment_message_fields(m))
}

/// Whether a deployment message can be read from `text` at all: it needs a system and a
/// deployment identifier, and when all five fields are there, a known status.
pub open spec fn deployment_text_readable(text: Seq<char>) -> bool {
    let f = split_fields(text);
    &&& f.len() >= 2
    &&& f.len() == 5 ==> status_named(f[2]) is Some
}

/// What a deployment message read from `text` holds. With exactly five fields, the status,
/// description and container status are read; otherwise the message is a fresh one for the
/// identifiers in the first two fields.
pub open spec fn read_deployment_message(text: Seq<char>) -> DeploymentMessageView {
    let f = split_fields(text);
    let base = DeploymentMessageView {
        system_identifier: f[0],
        deployment_id: f[1],
        deployment_status: ApplicationStatus::DeploymentRequested,
        deployment_status_description: Seq::empty(),
        container_status: None,
    };
    if f.len() == 5 {
        DeploymentMessageView {
            deployment_status: status_named(f[2])->0,
            deployment_status_description: f[3],
            container_status: read_container_json(f[4]),
            ..base
        }
    } else {
        base
    }
}

impl DeploymentMessage {
    pub fn new(system_identifier: &str, deployment_id: &str) -> (res: DeploymentMessage)
        ensures
            res@ == (DeploymentMessageView {
                system_identifier: system_identifier@,
                deployment_id: deployment_id@,
                deployment_status: ApplicationStatus::DeploymentRequested,
                deployment_status_description: Seq::empty(),
                container_status: None,
            }),
    {
        DeploymentMessage {
            system_identifier: owned(system_identifier),
            deployment_id: owned(deployment_id),
            deployment_status: ApplicationStatus::DeploymentRequested,
            deployment_status_description: String::new(),
            container_status: None,
        }
    }

    /// Sets the status and its description; a given container status replaces the old one,
    /// an absent one keeps it.
    pub fn update_message(&mut self, s: ApplicationStatus, descr: &str, status: Option<String>)
        ensures
            final(self)@ == (DeploymentMessageView {
                deployment_status: s,
                deployment_status_description: descr@,
                container_status: match status {
                    Some(j) => Some(j@),
                    None => old(self)@.container_status,
                },
                ..old(self)@
            }),
    {
        self.deployment_status = s;
        self.deployment_status_description = owned(descr);
        if let Some(_) = status {
            self.container_status = status;
        }
    }

    /// The bytes the message is sent as: the UTF-8 encoding of its text.
    pub fn build_message(&self) -> (res: Vec<u8>)
        ensures
            res@ == encode_utf8(deployment_message_text(self@)),
    {
        let mut s = self.system_identifier.clone();
        push_char(&mut s, '|');
        push_str(&mut s, self.deployment_id.as_str());
        push_char(&mut s, '|');
        let status = self.deployment_status.to_string();
        push_str(&mut s, status.as_str());
        push_char(&mut s, '|');
        push_str(&mut s, self.deployment_status_description.as_str());
        push_char(&mut s, '|');
        match &self.container_status {
            Some(j) => push_str(&mut s, j.as_str()),
            None => push_str(&mut s, "null"),
        }
        proof {
            let f = deployment_message_fields(self@);
            let g1 = seq![f[0]];
            let g2 = seq![f[0], f[1]];
            let g3 = seq![f[0], f[1], f[2]];
            let g4 = seq![f[0], f[1], f[2], f[3]];
            assert(g2.drop_last() =~= g1);
            assert(g3.drop_last() =~= g2);
            assert(g4.drop_last() =~= g3);
            assert(f.drop_last() =~= g4);
            assert(join_fields(g1) == f[0]);
            assert(join_fields(g2) == f[0] + seq![bar()] + f[1]);
            assert(join_fields(g3) == join_fields(g2) + seq![bar()] + f[2]);
            assert(join_fields(g4) == join_fields(g3) + seq![bar()] + f[3]);
            assert(join_fields(f) == join_fields(g4) + seq![bar()] + f[4]);
            assert(s@ =~= deployment_message_text(self@));
        }
        text_bytes(s.as_str())
    }

    /// Whether a deployment message can be read from `text`.
    pub fn is_readable_text(text: &str) -> (res: bool)
        ensures
            res == deployment_text_readable(text@),
    {
        let fields = split_bars(text);
        if fields.len() < 2 {
            return false;
        }
        if fields.len() == 5 {
            return ApplicationStatus::from_str(fields[2].as_str()).is_ok();
        }
        true
    }

    /// Reads a deployment message from its text; returns the system identifier and the message.
    pub fn deconstruct_text(text: &str) -> (res: (String, DeploymentMessage))
        requires
            deployment_text_readable(text@),
        ensures
            res.0@ == split_fields(text@)[0],
            res.1@ == read_deployment_message(text@),
    {
        let fields = split_bars(text);
        let mut msg = DeploymentMessage::new(fields[0].as_str(), fields[1].as_str());
        if fields.len() == 5 {
            let status = match ApplicationStatus::from_str(fields[2].as_str()) {
                Ok(s) => s,
                Err(_) => {
                    proof {
                        assert(false);
                    }
                    ApplicationStatus::DeploymentRequested
                },
            };
            let container = if text_eq(fields[4].as_str(), "null") {
                None
            } else {
                Some(fields[4].clone())
            };
            msg.update_message(status, fields[3].as_str(), container);
        }
        (fields[0].clone(), msg)
    }

    /// Reads a deployment message from the bytes it was sent as, decoding them as
    /// `String::from_utf8_lossy` does; returns the system identifier and the message.
    pub fn deconstruct_message(packet_data: &Vec<u8>) -> (res: (String, DeploymentMessage))
        requires
            deployment_text_readable(lossy_utf8_text(packet_data@)),
        ensures
            res.0@ == split_fields(lossy_utf8_text(packet_data@))[0],
            res.1@ == read_deployment_message(lossy_utf8_text(packet_data@)),
            valid_utf8(packet_data@) ==> res.1@ == read_deployment_message(decode_utf8(packet_data@)),
    {
        let text = text_from_bytes_lossy(packet_data.as_slice());
        DeploymentMessage::deconstruct_text(text.as_str())
    }

    /// Reads a deployment message from bytes of any content: `None` when no message can be
    /// read from their text.
    pub fn try_deconstruct_message(packet_data: &Vec<u8>) -> (res: Option<(String, DeploymentMessage)>)
        ensures
            res is Some <==> deployment_text_readable(lossy_utf8_text(packet_data@)),
            res matches Some(r) ==> r.0@ == split_fields(lossy_utf8_text(packet_data@))[0]
                && r.1@ == read_deployment_message(lossy_utf8_text(packet_data@)),
    {
        let text = text_from_bytes_lossy(packet_data.as_slice());
        if DeploymentMessage::is_readable_text(text.as_str()) {
            Some(DeploymentMessage::deconstruct_message(packet_data))
        } else {
            None
        }
    }
}

/// A deployment message survives the trip over the wire: the bytes `build_message` makes,
/// read back by `deconstruct_message`, give the same message, as long as no text field holds
/// a `'|'` and the container status is not the text `null`.
pub proof fn law_deployment_message_invertible(m: DeploymentMessageView)
    requires
        bar_free(m.system_identifier),
        bar_free(m.deployment_id),
        bar_free(m.deployment_status_description),
        m.container_status matches Some(j) ==> bar_free(j) && j != "null"@,
    ensures
        valid_utf8(encode_utf8(deployment_message_text(m))),
        deployment_text_readable(decode_utf8(encode_utf8(deployment_message_text(m)))),
        read_deployment_message(decode_utf8(encode_utf8(deployment_message_text(m)))) == m,
        split_fields(decode_utf8(encode_utf8(deployment_message_text(m))))[0] == m.system_identifier,
{
    broadcast use encode_utf8_valid_utf8, encode_utf8_decode_utf8;

    let f = deployment_message_fields(m);
    lemma_status_name_bar_free(m.deployment_status);
    lemma_status_name_roundtrip(m.deployment_status);
    reveal_strlit("null");
    assert(bar_free(container_json(m.container_status))) by {
        if m.container_status is None {
            let n = "null"@;
            if n.contains(bar()) {
                let k = choose|k: int| 0 <= k < n.len() && n[k] == bar();
            }
        }
    }
    assert forall|i: int| 0 <= i < f.len() implies bar_free(#[trigger] f[i]) by {
        if i == 0 {
        } else if i == 1 {
        } else if i == 2 {
        } else if i == 3 {
        } else {
        }
    }
    lemma_split_join(f);
}

} // verus!
