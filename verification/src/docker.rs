//! Values exchanged with Docker: image build results, container statistics and the
//! text the platform makes of container logs and listings.
use crate::decimal::{i64_text, i64_to_text};
use crate::text::{owned, push_str, text_from_bytes};
use vstd::prelude::*;
use vstd::utf8::*;

verus! {

/// The result of building a docker image.
#[derive(Debug, PartialEq, Eq)]
pub struct DockerImageBuildResult {
    pub log: Vec<String>,
    pub image_id: String,
}

/// The states docker reports for a container.
#[derive(Clone, Copy, Debug, PartialEq, Eq, Structural)]
pub enum ContainerState {
    EMPTY,
    CREATED,
    RUNNING,
    PAUSED,
    RESTARTING,
    REMOVING,
    EXITED,
    DEAD,
}

/// Statistics docker reports for a running container.
#[derive(Clone, Copy, Debug, PartialEq, Eq, Structural)]
pub struct ContainerStatus {
    /// Bytes the container uses on disk
    pub size: i32,
    /// Current memory usage, in Mb
    pub mem_mb: i32,
    /// Maximum memory usage, in Mb
    pub mem_max_mb: i32,
    /// CPU utilization as a percentage, as the bit pattern of an `f32`
    pub cpu_usage: u32,
    /// The state of the container
    pub state: ContainerState,
}

/// The stream a line of container log output came from.
#[derive(Clone, Copy, Debug, PartialEq, Eq, Structural)]
pub enum LogStream {
    StdOut,
    StdIn,
    StdErr,
    Console,
}

/// The prefix a log line of a stream is written with.
pub open spec fn log_prefix(s: LogStream) -> Seq<char> {
    match s {
        LogStream::StdOut | LogStream::Console => "[LOG]: "@,
        LogStream::StdIn => "[IN]: "@,
        LogStream::StdErr => "[ERR]: "@,
    }
}

/// The text of bytes that are valid UTF-8, or the empty text.
pub open spec fn utf8_or_empty(bytes: Seq<u8>) -> Seq<char> {
    if valid_utf8(bytes) {
        decode_utf8(bytes)
    } else {
        Seq::empty()
    }
}

/// A line of container log output as the platform records it: the stream's prefix, then the
/// message when it is UTF-8 text (nothing otherwise).
pub fn format_log_output(stream: LogStream, message: Vec<u8>) -> (res: String)
    ensures
        res@ == log_prefix(stream) + utf8_or_empty(message@),
        stream == LogStream::StdErr ==> res@ == "[ERR]: "@ + utf8_or_empty(message@),
        stream == LogStream::StdOut ==> res@ == "[LOG]: "@ + utf8_or_empty(message@),
        stream == LogStream::StdIn ==> res@ == "[IN]: "@ + utf8_or_empty(message@),
        stream == LogStream::Console ==> res@ == "[LOG]: "@ + utf8_or_empty(message@),
{
    let mut line = match stream {
        LogStream::StdOut | LogStream::Console => owned("[LOG]: "),
        LogStream::StdIn => owned("[IN]: "),
        LogStream::StdErr => owned("[ERR]: "),
    };
    match text_from_bytes(message) {
        Some(t) => push_str(&mut line, t.as_str()),
        None => {
            proof {
                assert(line@ + Seq::<char>::empty() =~= line@);
            }
        },
    }
    line
}

/// The key under which a container exposes a TCP port: `port/tcp`.
pub fn exposed_port_key(port: i64) -> (res: String)
    ensures
        res@ == i64_text(port) + "/tcp"@,
{
    let mut s = i64_to_text(port);
    push_str(&mut s, "/tcp");
    s
}

/// The path of the archive a project is packed into before its image is built.
pub fn image_archive_path(container_guid: &str) -> (res: String)
    ensures
        res@ == "./tmp/containers/"@ + container_guid@ + ".tar.gz"@,
{
    let mut s = owned("./tmp/containers/");
    push_str(&mut s, container_guid);
    push_str(&mut s, ".tar.gz");
    s
}

/// The name of a container: its first name without the leading `/` docker puts there, or
/// the empty text when it has none.
pub fn container_name(names: &Option<Vec<String>>) -> (res: String)
    requires
        names matches Some(v) ==> v@.len() > 0 && v@[0]@.len() > 0 && (v@[0]@[0] as u32) < 128,
    ensures
        res@ == match names {
            Some(v) => v@[0]@.drop_first(),
            None => Seq::empty(),
        },
{
    match names {
        Some(v) => {
            let first = v[0].as_str();
            let n = first.unicode_len();
            let rest = first.substring_char(1, n);
            proof {
                assert(rest@ =~= v@[0]@.drop_first());
            }
            owned(rest)
        },
        None => String::new(),
    }
}

/// The public ports among the ports docker reports for a container.
pub fn public_ports(ports: &Option<Vec<Option<u16>>>) -> (res: Option<Vec<u16>>)
    ensures
        match ports {
            Some(ps) => res matches Some(v) && v@ == ps@.filter(|p: Option<u16>| p is Some).map_values(
                |p: Option<u16>| p->0,
            ),
            None => res is None,
        },
{
    match ports {
        Some(ps) => {
            let mut v: Vec<u16> = Vec::new();
            let mut i: usize = 0;
            while i < ps.len()
                invariant
                    i <= ps@.len(),
                    v@ == ps@.take(i as int).filter(|p: Option<u16>| p is Some).map_values(
                        |p: Option<u16>| p->0,
                    ),
                decreases ps.len() - i,
            {
                proof {
                    reveal_with_fuel(Seq::filter, 1);
                    assert(ps@.take(i + 1).drop_last() =~= ps@.take(i as int));
                    assert(ps@.take(i + 1).last() == ps@[i as int]);
                }
                let ghost prev = v@;
                if let Some(p) = ps[i] {
                    v.push(p);
                    proof {
                        let f = ps@.take(i as int).filter(|p: Option<u16>| p is Some);
                        assert(ps@.take(i + 1).filter(|p: Option<u16>| p is Some) == f.push(ps@[i as int]));
                        assert(f.push(ps@[i as int]).map_values(|p: Option<u16>| p->0) =~= f.map_values(|p: Option<u16>| p->0).push(p));
                    }
                }
                i = i + 1;
            }
            proof {
                assert(ps@.take(ps@.len() as int) =~= ps@);
            }
            Some(v)
        },
        None => None,
    }
}

/// Each log line is labelled with its stream: standard error as `[ERR]: `, standard output
/// and console output as `[LOG]: `, standard input as `[IN]: `; so an error line is never
/// taken for ordinary output, and streams with different labels never share one.
pub proof fn law_log_lines_labelled_by_stream(a: LogStream, b: LogStream)
    ensures
        log_prefix(LogStream::StdErr) == "[ERR]: "@,
        log_prefix(LogStream::StdOut) == "[LOG]: "@,
        log_prefix(LogStream::Console) == "[LOG]: "@,
        log_prefix(LogStream::StdIn) == "[IN]: "@,
        log_prefix(LogStream::StdErr) != log_prefix(LogStream::StdOut),
        (a == LogStream::StdErr) != (b == LogStream::StdErr) ==> log_prefix(a) != log_prefix(b),
{
    reveal_strlit("[ERR]: ");
    reveal_strlit("[LOG]: ");
    reveal_strlit("[IN]: ");
    assert("[ERR]: "@[1] != "[LOG]: "@[1]);
    assert("[ERR]: "@[1] != "[IN]: "@[1]);
}

} // verus!
