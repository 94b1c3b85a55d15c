//! A message containing log data from an active deployment.
use crate::text::{
    bar, bar_free, join_fields, lemma_join_split, lemma_split_after_bar, lemma_split_free,
    lemma_split_nonempty, lossy_utf8_text, owned, push_char, push_str, split_bars, split_fields,
    text_bytes, text_from_bytes_lossy,
};
use vstd::prelude::*;
use vstd::utf8::*;

verus! {

/// A chunk of log output of one deployment.
#[derive(Debug, PartialEq, Eq)]
pub struct LogMessage {
    pub deployment_identifier: String,
    pub message: String,
}

/// The mathematical model of a log message.
pub struct LogMessageView {
    pub deployment_identifier: Seq<char>,
    pub message: Seq<char>,
}

impl View for LogMessage {
    type V = LogMessageView;

    open spec fn view(&self) -> LogMessageView {
        LogMessageView { deployment_identifier: self.deployment_identifier@, message: self.message@ }
    }
}

/// The text a log message travels as: `identifier|message`.
pub open spec fn log_message_text(m: LogMessageView) -> Seq<char> {
    m.deployment_identifier + seq![bar()] + m.message
}

/// What a log message read from `text` holds: the identifier is the text before the first
/// `'|'`, and the message is all the text after it, `'|'` included (empty when there is no
/// `'|'`).
pub open spec fn read_log_message(text: Seq<char>) -> LogMessageView {
    let f = split_fields(text);
    LogMessageView { deployment_identifier: f[0], message: join_fields(f.drop_first()) }
}

impl LogMessage {
    pub fn new(deployment_identifier: &str) -> (res: LogMessage)
        ensures
            res@ == (LogMessageView {
                deployment_identifier: deployment_identifier@,
                message: Seq::empty(),
            }),
    {
        LogMessage { deployment_identifier: owned(deployment_identifier), message: String::new() }
    }

    pub fn update_message(&mut self, message: &str)
        ensures
            final(self)@ == (LogMessageView { message: message@, ..old(self)@ }),
    {
        self.message = owned(message);
    }

    /// The bytes the message is sent as: the UTF-8 encoding of `identifier|message`.
    pub fn build_message(&self) -> (res: Vec<u8>)
        ensures
            res@ == encode_utf8(log_message_text(self@)),
    {
        let mut s = self.deployment_identifier.clone();
        push_char(&mut s, '|');
        push_str(&mut s, self.message.as_str());
        proof {
            assert(s@ =~= log_message_text(self@));
        }
        text_bytes(s.as_str())
    }

    /// Reads a log message from its text; returns the identifier and the message.
    pub fn deconstruct_text(text: &str) -> (res: (String, LogMessage))
        ensures
            res.0@ == read_log_message(text@).deployment_identifier,
            res.1@ == read_log_message(text@),
    {
        let fields = split_bars(text);
        proof {
            lemma_split_nonempty(text@);
        }
        let mut msg = LogMessage::new(fields[0].as_str());
        let mut message = String::new();
        let mut i: usize = 1;
        let ghost f = split_fields(text@);
        while i < fields.len()
            invariant
                1 <= i <= fields.len(),
                fields@.len() == f.len(),
                forall|k: int| 0 <= k < fields@.len() ==> #[trigger] fields@[k]@ == f[k],
                message@ == join_fields(f.subrange(1, i as int)),
            decreases fields.len() - i,
        {
            proof {
                assert(f.subrange(1, i + 1).drop_last() =~= f.subrange(1, i as int));
                if i == 1 {
                    assert(f.subrange(1, 2) =~= seq![f[1]]);
                    assert(message@ =~= Seq::<char>::empty());
                }
            }
            if i > 1 {
                push_char(&mut message, '|');
            }
            push_str(&mut message, fields[i].as_str());
            proof {
                if i == 1 {
                    assert(message@ =~= f[1]);
                }
            }
            i = i + 1;
        }
        proof {
            assert(f.subrange(1, f.len() as int) =~= f.drop_first());
        }
        msg.update_message(message.as_str());
        let id = msg.deployment_identifier.clone();
        (id, msg)
    }

    /// Reads a log message from the bytes it was sent as, decoding them as
    /// `String::from_utf8_lossy` does; returns the identifier and the message.
    pub fn deconstruct_message(packet_data: &Vec<u8>) -> (res: (String, LogMessage))
        ensures
            res.0@ == read_log_message(lossy_utf8_text(packet_data@)).deployment_identifier,
            res.1@ == read_log_message(lossy_utf8_text(packet_data@)),
            valid_utf8(packet_data@) ==> res.1@ == read_log_message(decode_utf8(packet_data@)),
    {
        let text = text_from_bytes_lossy(packet_data.as_slice());
        LogMessage::deconstruct_text(text.as_str())
    }
}

/// Reading the text of a log message gives it back, as long as its identifier holds no
/// `'|'`; the message may hold any text.
pub proof fn lemma_read_log_message(m: LogMessageView)
    requires
        bar_free(m.deployment_identifier),
    ensures
        read_log_message(log_message_text(m)) == m,
{
    let t = log_message_text(m);
    lemma_split_after_bar(m.deployment_identifier, m.message);
    lemma_split_free(m.deployment_identifier);
    let f = split_fields(t);
    let fm = split_fields(m.message);
    lemma_split_nonempty(m.message);
    assert(f == seq![m.deployment_identifier] + fm);
    assert(f.drop_first() =~= fm);
    lemma_join_split(m.message);
}

/// A log message survives the trip over the wire: the bytes `build_message` makes, read
/// back by `deconstruct_message`, give the same identifier and message, as long as the
/// identifier holds no `'|'`; the message may hold any text, `'|'` included.
pub proof fn law_log_message_invertible(m: LogMessageView)
    requires
        bar_free(m.deployment_identifier),
    ensures
        valid_utf8(encode_utf8(log_message_text(m))),
        read_log_message(decode_utf8(encode_utf8(log_message_text(m)))) == m,
{
    broadcast use encode_utf8_valid_utf8, encode_utf8_decode_utf8;

    lemma_read_log_message(m);
}

} // verus!
