//! Stream handler pool: owns the live connections of a node, turns inbound
//! bytes into framed messages for the dispatcher, and routes outbound writes
//! to the right connection.
//!
//! The pool, the stream writers and the decisions of the reader workers are
//! verified here. The byte streams and discriminators are capabilities that
//! the embedding program supplies.
pub mod error_kind;
pub mod log_event;
pub mod messages;
pub mod pool;
pub mod reader;
pub mod stream;
pub mod writer;

pub use error_kind::{indicates_dead_stream, indicates_timeout, IoErrorKind};
pub use log_event::{LogEvent, LogLevel, StreamSide};
pub use messages::{
    Component, Endpoint, InboundClientData, IpAddr, RemoveStreamMsg, Shutdown, StreamKey,
    TransmitDataMsg, UnmaskedChunk,
};
pub use stream::{ByteStream, StreamOp};
pub use writer::{report_write, StreamWriter, WriteReport};
pub use pool::{AddOutcome, AddStreamMsg, ReaderSetup, StreamHandlerPool, TransmitOutcome};
pub use reader::{ReadAction, ReadClass, StreamReader};
