use vstd::prelude::*;
use crate::error_kind::IoErrorKind;
use crate::messages::{Shutdown, StreamKey};

verus! {

/// A call made on a byte stream, with what it returned.
pub enum StreamOp {
    Write { data: Seq<u8>, result: Result<usize, IoErrorKind> },
    Shutdown { how: Shutdown, result: Result<(), IoErrorKind> },
}

/// A duplex byte stream over one connection, as the embedding program
/// supplies it (a socket, or a mock that scripts outcomes). What its
/// operations return is up to the connection; the contracts below say only
/// that each write and each shutdown is one call, made with the arguments
/// given.
pub trait ByteStream: Sized {
    /// The writes and shutdowns made on this handle so far, oldest first,
    /// each with what it returned. An implementation verified with Verus
    /// defines it; one written outside Verus cannot hold spec code and
    /// keeps this empty default, which nothing here relies on.
    closed spec fn ops(&self) -> Seq<StreamOp> {
        Seq::empty()
    }

    /// The socket address of the other end.
    fn peer_addr(&self) -> Result<StreamKey, IoErrorKind>;

    /// An independent handle over the same connection.
    fn try_clone(&self) -> Result<Self, IoErrorKind>;

    /// Writes `data` once, and returns how many bytes went out.
    fn write(&mut self, data: &[u8]) -> (r: Result<usize, IoErrorKind>)
        ensures
            final(self).ops() == old(self).ops().push(StreamOp::Write { data: data@, result: r }),
    ;

    /// Shuts one or both directions down.
    fn shutdown(&mut self, how: Shutdown) -> (r: Result<(), IoErrorKind>)
        ensures
            final(self).ops() == old(self).ops().push(StreamOp::Shutdown { how, result: r }),
    ;
}

} // verus!
