use vstd::prelude::*;

verus! {

/// The kind of an I/O error, as reported by a byte stream.
#[derive(Clone, Copy, Debug, PartialEq, Eq, Structural)]
pub enum IoErrorKind {
    NotFound,
    PermissionDenied,
    ConnectionRefused,
    ConnectionReset,
    ConnectionAborted,
    NotConnected,
    AddrInUse,
    AddrNotAvailable,
    BrokenPipe,
    AlreadyExists,
    WouldBlock,
    InvalidInput,
    InvalidData,
    TimedOut,
    WriteZero,
    Interrupted,
    Other,
    UnexpectedEof,
}

/// The kinds after which a connection cannot go on.
pub open spec fn is_dead_stream_kind(kind: IoErrorKind) -> bool {
    match kind {
        IoErrorKind::BrokenPipe
        | IoErrorKind::ConnectionRefused
        | IoErrorKind::ConnectionReset
        | IoErrorKind::ConnectionAborted
        | IoErrorKind::TimedOut => true,
        _ => false,
    }
}

/// The kinds that say a read found nothing in time.
pub open spec fn is_timeout_kind(kind: IoErrorKind) -> bool {
    kind == IoErrorKind::WouldBlock || kind == IoErrorKind::TimedOut
}

/// True exactly for BrokenPipe, ConnectionRefused, ConnectionReset,
/// ConnectionAborted and TimedOut.
pub fn indicates_dead_stream(kind: IoErrorKind) -> (r: bool)
    ensures
        r == is_dead_stream_kind(kind),
{
    match kind {
        IoErrorKind::BrokenPipe
        | IoErrorKind::ConnectionRefused
        | IoErrorKind::ConnectionReset
        | IoErrorKind::ConnectionAborted
        | IoErrorKind::TimedOut => true,
        _ => false,
    }
}

/// True exactly for WouldBlock and TimedOut.
pub fn indicates_timeout(kind: IoErrorKind) -> (r: bool)
    ensures
        r == is_timeout_kind(kind),
{
    match kind {
        IoErrorKind::WouldBlock | IoErrorKind::TimedOut => true,
        _ => false,
    }
}

} // verus!
