use vstd::prelude::*;
use crate::error_kind::IoErrorKind;
use crate::messages::StreamKey;

verus! {

/// How serious a log entry is.
#[derive(Clone, Copy, Debug, PartialEq, Eq, Structural)]
pub enum LogLevel {
    Warning,
    Error,
}

/// Which of the two handles of a new connection could not be made.
#[derive(Clone, Copy, Debug, PartialEq, Eq, Structural)]
pub enum StreamSide {
    Read,
    Write,
}

/// Something worth a log line. The embedding program renders the text.
#[derive(Clone, Copy, Debug, PartialEq, Eq, Structural)]
pub enum LogEvent {
    /// A handle of an added stream could not be cloned; the stream was dropped.
    CloneFailed { side: StreamSide, kind: IoErrorKind },
    /// A reader met an error that does not end the stream, and reads on.
    ReadErrorContinuing { peer: StreamKey, port: u16, kind: IoErrorKind },
    /// A writer could not write `bytes` bytes.
    TransmitFailed { peer: StreamKey, bytes: usize, kind: IoErrorKind },
    /// Data of `bytes` bytes was meant for a connection that the pool does not hold.
    NonexistentStream { addr: StreamKey, bytes: usize },
}

pub open spec fn level_of(event: LogEvent) -> LogLevel {
    match event {
        LogEvent::ReadErrorContinuing { .. } => LogLevel::Warning,
        _ => LogLevel::Error,
    }
}

impl LogEvent {
    /// Read errors that the reader survives are warnings; everything else is
    /// an error.
    pub fn level(&self) -> (r: LogLevel)
        ensures
            r == level_of(*self),
    {
        match self {
            LogEvent::ReadErrorContinuing { .. } => LogLevel::Warning,
            _ => LogLevel::Error,
        }
    }
}

} // verus!
