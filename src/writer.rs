use vstd::prelude::*;
use crate::error_kind::{indicates_dead_stream, is_dead_stream_kind, IoErrorKind};
use crate::log_event::LogEvent;
use crate::messages::{RemoveStreamMsg, Shutdown, StreamKey};
use crate::stream::{ByteStream, StreamOp};

verus! {

/// What a single write came to, and what it asks of the pool and the log.
#[derive(Clone, Copy, Debug, PartialEq, Eq)]
pub struct WriteReport {
    pub result: Result<usize, IoErrorKind>,
    /// A removal of this writer, to be posted to the pool.
    pub remove: Option<RemoveStreamMsg>,
    pub log: Option<LogEvent>,
}

/// The removal that a failed write of a writer for `key` asks for: one
/// exactly when the error ends the stream.
pub open spec fn failure_remove(key: StreamKey, kind: IoErrorKind) -> Option<RemoveStreamMsg> {
    if is_dead_stream_kind(kind) {
        Some(RemoveStreamMsg { socket_addr: key })
    } else {
        None
    }
}

/// The report of a write of `len` bytes by the writer for `key` that
/// returned `result`.
pub open spec fn write_report(key: StreamKey, len: nat, result: Result<usize, IoErrorKind>) -> WriteReport {
    match result {
        Ok(_) => WriteReport { result, remove: None, log: None },
        Err(kind) => WriteReport {
            result,
            remove: failure_remove(key, kind),
            log: Some(LogEvent::TransmitFailed { peer: key, bytes: len as usize, kind }),
        },
    }
}

pub open spec fn is_shutdown_both(op: StreamOp) -> bool {
    match op {
        StreamOp::Shutdown { how, .. } => how == Shutdown::Both,
        _ => false,
    }
}

/// The calls that one transmission makes on a stream whose calls were
/// `before`: the write of `data`, which returned `result`, then a shutdown of
/// both directions exactly when the failure ended the stream.
pub open spec fn transmitted(
    before: Seq<StreamOp>,
    after: Seq<StreamOp>,
    data: Seq<u8>,
    result: Result<usize, IoErrorKind>,
    ended: bool,
) -> bool {
    let n = before.len() as int;
    &&& after.len() == n + 1 + if ended { 1int } else { 0int }
    &&& after.take(n) == before
    &&& after[n] == StreamOp::Write { data, result }
    &&& ended ==> is_shutdown_both(after[n + 1])
}

/// The report of a write of `len` bytes by the writer for `key` that
/// returned `result`.
pub fn report_write(key: StreamKey, len: usize, result: Result<usize, IoErrorKind>) -> (r: WriteReport)
    ensures
        r == write_report(key, len as nat, result),
{
    match result {
        Ok(size) => WriteReport { result: Ok(size), remove: None, log: None },
        Err(kind) => {
            let remove = if indicates_dead_stream(kind) {
                Some(RemoveStreamMsg { socket_addr: key })
            } else {
                None
            };
            WriteReport {
                result: Err(kind),
                remove,
                log: Some(LogEvent::TransmitFailed { peer: key, bytes: len, kind }),
            }
        },
    }
}

/// The outbound handle of one connection, held by the pool.
pub struct StreamWriter<S> {
    stream: S,
    stream_key: StreamKey,
}

impl<S> StreamWriter<S> {
    /// The peer address of the connection, which keys this writer in the pool.
    pub closed spec fn key(&self) -> StreamKey {
        self.stream_key
    }
}

impl<S: ByteStream> StreamWriter<S> {
    /// The calls made on the writer's stream.
    pub closed spec fn stream_ops(&self) -> Seq<StreamOp> {
        self.stream.ops()
    }

    /// A writer over `stream` for the connection to `stream_key`.
    pub fn new(stream: S, stream_key: StreamKey) -> (r: StreamWriter<S>)
        ensures
            r.key() == stream_key,
            r.stream_ops() == stream.ops(),
    {
        StreamWriter { stream, stream_key }
    }

    pub fn stream_key(&self) -> (r: StreamKey)
        ensures
            r == self.key(),
    {
        self.stream_key
    }

    /// Writes `data` once. A failure is logged; one that ends the stream also
    /// shuts the stream down and asks the pool to remove this writer.
    pub fn transmit(&mut self, data: &[u8]) -> (r: WriteReport)
        ensures
            final(self).key() == old(self).key(),
            r == write_report(old(self).key(), data@.len(), r.result),
            transmitted(old(self).stream_ops(), final(self).stream_ops(), data@, r.result, r.remove is Some),
    {
        let result = self.stream.write(data);
        let report = report_write(self.stream_key, data.len(), result);
        if report.remove.is_some() {
            // a failed shutdown changes nothing: the stream is gone either way
            let _ = self.stream.shutdown(Shutdown::Both);
        }
        proof {
            let n = old(self).stream_ops().len() as int;
            assert(self.stream_ops().take(n) =~= old(self).stream_ops());
        }
        report
    }

    /// Shuts the stream down in the direction `how`, and returns what the
    /// stream returned.
    pub fn shutdown(&mut self, how: Shutdown) -> (r: Result<(), IoErrorKind>)
        ensures
            final(self).key() == old(self).key(),
            final(self).stream_ops() == old(self).stream_ops().push(StreamOp::Shutdown { how, result: r }),
    {
        self.stream.shutdown(how)
    }
}

} // verus!
