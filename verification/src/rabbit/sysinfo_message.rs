//! A message containing status information for a device on the platform.
use crate::decimal::{decimal_digits, lemma_decimal_digits, lemma_digits_bar_free, law_u64_text_roundtrip, parse_u64, parse_u64_text, push_decimal};
use crate::text::{
    bar, bar_free, join_fields, lemma_split_join, lossy_utf8_text, owned,
    push_char, push_str, split_bars, split_fields, text_bytes, text_from_bytes_lossy,
};
use vstd::prelude::*;
use vstd::utf8::*;

verus! {

/// The system statistics of a device.
#[derive(Debug, PartialEq, Eq)]
pub struct SysinfoMessage {
    pub system_identifier: String,
    pub lan_addr: String,
    pub ram_free: u64,
    pub ram_used: u64,
    pub uptime: u64,
    /// The five minute load average, as the decimal text of an `f32`; a text that does not
    /// read as a number stands for zero
    pub load_avg_5: String,
}

/// The mathematical model of a system statistics message.
pub struct SysinfoMessageView {
    pub system_identifier: Seq<char>,
    pub lan_addr: Seq<char>,
    pub ram_free: u64,
    pub ram_used: u64,
    pub uptime: u64,
    pub load_avg_5: Seq<char>,
}

impl View for SysinfoMessage {
    type V = SysinfoMessageView;

    open spec fn view(&self) -> SysinfoMessageView {
        SysinfoMessageView {
            system_identifier: self.system_identifier@,
            lan_addr: self.lan_addr@,
            ram_free: self.ram_free,
            ram_used: self.ram_used,
            uptime: self.uptime,
            load_avg_5: self.load_avg_5@,
        }
    }
}

/// The fields of a statistics message on the wire.
pub open spec fn sysinfo_fields(m: SysinfoMessageView) -> Seq<Seq<char>> {
    seq![
        m.system_identifier,
        m.lan_addr,
        decimal_digits(m.ram_free as nat),
        decimal_digits(m.ram_used as nat),
        decimal_digits(m.uptime as nat),
        m.load_avg_5,
    ]
}

/// The text a statistics message travels as: `system|address|free|used|uptime|load`.
pub open spec fn sysinfo_message_text(m: SysinfoMessageView) -> Seq<char> {
    join_fields(sysinfo_fields(m))
}

/// Whether a statistics message can be read from `text`: it needs a system identifier and
/// an address.
pub open spec fn sysinfo_text_readable(text: Seq<char>) -> bool {
    split_fields(text).len() >= 2
}

/// A number field as read: its value, or zero when it is not the text of a `u64`.
pub open spec fn number_or_zero(f: Seq<char>) -> u64 {
    match parse_u64_text(f) {
        Some(v) => v,
        None => 0,
    }
}

/// What a statistics message read from `text` holds: the identifier and address, and with
/// all six fields there, the statistics; otherwise zero statistics.
pub open spec fn read_sysinfo_message(text: Seq<char>) -> SysinfoMessageView {
    let f = split_fields(text);
    let base = SysinfoMessageView {
        system_identifier: f[0],
        lan_addr: f[1],
        ram_free: 0,
        ram_used: 0,
        uptime: 0,
        load_avg_5: "0"@,
    };
    if f.len() == 6 {
        SysinfoMessageView {
            ram_free: number_or_zero(f[2]),
            ram_used: number_or_zero(f[3]),
            uptime: number_or_zero(f[4]),
            load_avg_5: f[5],
            ..base
        }
    } else {
        base
    }
}

/// A number field read as `parse::<u64>().unwrap_or(0)` does.
fn read_number(f: &str) -> (res: u64)
    ensures
        res == number_or_zero(f@),
{
    match parse_u64(f) {
        Some(v) => v,
        None => 0,
    }
}

impl SysinfoMessage {
    pub fn new(system_identifier: &str, lan_addr: &str) -> (res: SysinfoMessage)
        ensures
            res@ == (SysinfoMessageView {
                system_identifier: system_identifier@,
                lan_addr: lan_addr@,
                ram_free: 0,
                ram_used: 0,
                uptime: 0,
                load_avg_5: "0"@,
            }),
    {
        SysinfoMessage {
            system_identifier: owned(system_identifier),
            lan_addr: owned(lan_addr),
            ram_free: 0,
            ram_used: 0,
            uptime: 0,
            load_avg_5: owned("0"),
        }
    }

    pub fn update_message(&mut self, ram_free: u64, ram_used: u64, uptime: u64, load_avg_5: &str)
        ensures
            final(self)@ == (SysinfoMessageView {
                ram_free,
                ram_used,
                uptime,
                load_avg_5: load_avg_5@,
                ..old(self)@
            }),
    {
        self.ram_free = ram_free;
        self.ram_used = ram_used;
        self.uptime = uptime;
        self.load_avg_5 = owned(load_avg_5);
    }

    /// The bytes the message is sent as: the UTF-8 encoding of its text.
    pub fn build_message(&self) -> (res: Vec<u8>)
        ensures
            res@ == encode_utf8(sysinfo_message_text(self@)),
    {
        let mut s = self.system_identifier.clone();
        push_char(&mut s, '|');
        push_str(&mut s, self.lan_addr.as_str());
        push_char(&mut s, '|');
        push_decimal(&mut s, self.ram_free);
        push_char(&mut s, '|');
        push_decimal(&mut s, self.ram_used);
        push_char(&mut s, '|');
        push_decimal(&mut s, self.uptime);
        push_char(&mut s, '|');
        push_str(&mut s, self.load_avg_5.as_str());
        proof {
            let f = sysinfo_fields(self@);
            let g1 = seq![f[0]];
            let g2 = seq![f[0], f[1]];
            let g3 = seq![f[0], f[1], f[2]];
            let g4 = seq![f[0], f[1], f[2], f[3]];
            let g5 = seq![f[0], f[1], f[2], f[3], f[4]];
            assert(g2.drop_last() =~= g1);
            assert(g3.drop_last() =~= g2);
            assert(g4.drop_last() =~= g3);
            assert(g5.drop_last() =~= g4);
            assert(f.drop_last() =~= g5);
            assert(join_fields(g1) == f[0]);
            assert(join_fields(g2) == f[0] + seq![bar()] + f[1]);
            assert(join_fields(g3) == join_fields(g2) + seq![bar()] + f[2]);
            assert(join_fields(g4) == join_fields(g3) + seq![bar()] + f[3]);
            assert(join_fields(g5) == join_fields(g4) + seq![bar()] + f[4]);
            assert(join_fields(f) == join_fields(g5) + seq![bar()] + f[5]);
            assert(s@ =~= sysinfo_message_text(self@));
        }
        text_bytes(s.as_str())
    }

    /// Whether a statistics message can be read from `text`.
    pub fn is_readable_text(text: &str) -> (res: bool)
        ensures
            res == sysinfo_text_readable(text@),
    {
        split_bars(text).len() >= 2
    }

    /// Reads a statistics message from its text; returns the system identifier and the
    /// message.
    pub fn deconstruct_text(text: &str) -> (res: (String, SysinfoMessage))
        requires
            sysinfo_text_readable(text@),
        ensures
            res.0@ == split_fields(text@)[0],
            res.1@ == read_sysinfo_message(text@),
    {
        let fields = split_bars(text);
        let mut msg = SysinfoMessage::new(fields[0].as_str(), fields[1].as_str());
        if fields.len() == 6 {
            msg.update_message(
                read_number(fields[2].as_str()),
                read_number(fields[3].as_str()),
                read_number(fields[4].as_str()),
                fields[5].as_str(),
            );
        }
        (fields[0].clone(), msg)
    }

    /// Reads a statistics message from the bytes it was sent as, decoding them as
    /// `String::from_utf8_lossy` does; returns the system identifier and the message.
    pub fn deconstruct_message(packet_data: &Vec<u8>) -> (res: (String, SysinfoMessage))
        requires
            sysinfo_text_readable(lossy_utf8_text(packet_data@)),
        ensures
            res.0@ == split_fields(lossy_utf8_text(packet_data@))[0],
            res.1@ == read_sysinfo_message(lossy_utf8_text(packet_data@)),
            valid_utf8(packet_data@) ==> res.1@ == read_sysinfo_message(decode_utf8(packet_data@)),
    {
        let text = text_from_bytes_lossy(packet_data.as_slice());
        SysinfoMessage::deconstruct_text(text.as_str())
    }

    /// Reads a statistics message from bytes of any content: `None` when no message can be
    /// read from their text.
    pub fn try_deconstruct_message(packet_data: &Vec<u8>) -> (res: Option<(String, SysinfoMessage)>)
        ensures
            res is Some <==> sysinfo_text_readable(lossy_utf8_text(packet_data@)),
            res matches Some(r) ==> r.0@ == split_fields(lossy_utf8_text(packet_data@))[0]
                && r.1@ == read_sysinfo_message(lossy_utf8_text(packet_data@)),
    {
        let text = text_from_bytes_lossy(packet_data.as_slice());
        if SysinfoMessage::is_readable_text(text.as_str()) {
            Some(SysinfoMessage::deconstruct_message(packet_data))
        } else {
            None
        }
    }
}

/// A statistics message survives the trip over the wire: the bytes `build_message` makes,
/// read back by `deconstruct_message`, give the same message and identifier, as long as no
/// text field holds a `'|'`.
pub proof fn law_sysinfo_message_invertible(m: SysinfoMessageView)
    requires
        bar_free(m.system_identifier),
        bar_free(m.lan_addr),
        bar_free(m.load_avg_5),
    ensures
        valid_utf8(encode_utf8(sysinfo_message_text(m))),
        sysinfo_text_readable(decode_utf8(encode_utf8(sysinfo_message_text(m)))),
        read_sysinfo_message(decode_utf8(encode_utf8(sysinfo_message_text(m)))) == m,
        split_fields(decode_utf8(encode_utf8(sysinfo_message_text(m))))[0] == m.system_identifier,
{
    broadcast use encode_utf8_valid_utf8, encode_utf8_decode_utf8;

    let f = sysinfo_fields(m);
    lemma_decimal_digits(m.ram_free as nat);
    lemma_decimal_digits(m.ram_used as nat);
    lemma_decimal_digits(m.uptime as nat);
    lemma_digits_bar_free(decimal_digits(m.ram_free as nat));
    lemma_digits_bar_free(decimal_digits(m.ram_used as nat));
    lemma_digits_bar_free(decimal_digits(m.uptime as nat));
    law_u64_text_roundtrip(m.ram_free);
    law_u64_text_roundtrip(m.ram_used);
    law_u64_text_roundtrip(m.uptime);
    assert forall|i: int| 0 <= i < f.len() implies bar_free(#[trigger] f[i]) by {
        if i == 0 {
        } else if i == 1 {
        } else if i == 2 {
        } else if i == 3 {
        } else if i == 4 {
        } else {
        }
    }
    lemma_split_join(f);
}

} // verus!
