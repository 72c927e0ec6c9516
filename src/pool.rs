use vstd::prelude::*;
use crate::error_kind::{is_dead_stream_kind, IoErrorKind};
use crate::log_event::{LogEvent, StreamSide};
use crate::messages::{Endpoint, RemoveStreamMsg, Shutdown, StreamKey, TransmitDataMsg};
use crate::stream::ByteStream;
use crate::stream::StreamOp;
use crate::writer::{transmitted, write_report, StreamWriter, WriteReport};

verus! {

/// A new connection handed to the pool, with the local port it was accepted
/// on (none for an outbound connection) and the factories of the
/// discriminators that will frame its inbound bytes.
pub struct AddStreamMsg<S, F> {
    pub stream: S,
    pub origin_port: Option<u16>,
    pub discriminator_factories: Vec<F>,
}

/// What a reader worker for a new connection is started with.
pub struct ReaderSetup<S, F> {
    pub read_stream: S,
    pub peer: StreamKey,
    pub origin_port: Option<u16>,
    pub discriminator_factories: Vec<F>,
}

/// What became of an added connection.
pub enum AddOutcome<S, F> {
    /// A handle could not be cloned; nothing was kept.
    CloneFailed(LogEvent),
    /// The write handle had no peer address; nothing was kept.
    NoPeerAddress(IoErrorKind),
    /// The writer is in the pool; a reader is to be started.
    Started(ReaderSetup<S, F>),
}

/// What became of outbound data.
#[derive(Clone, Copy, Debug, PartialEq, Eq)]
pub enum TransmitOutcome {
    /// The pool holds no writer for the address.
    Nonexistent(LogEvent),
    /// The writer wrote; `shutdown` holds the result of the shutdown that
    /// final data asks for.
    Written { report: WriteReport, shutdown: Option<Result<(), IoErrorKind>> },
}

/// The writers left once the one for `key` is gone.
pub open spec fn without<S>(ws: Seq<StreamWriter<S>>, key: StreamKey) -> Seq<StreamWriter<S>> {
    ws.filter(|w: StreamWriter<S>| w.key() != key)
}

/// The keys of the writers, in order.
pub open spec fn keys_of<S>(ws: Seq<StreamWriter<S>>) -> Seq<StreamKey> {
    ws.map_values(|w: StreamWriter<S>| w.key())
}

/// At most one writer for each key.
pub open spec fn keys_unique<S>(ws: Seq<StreamWriter<S>>) -> bool {
    forall|i: int, j: int| 0 <= i < j < ws.len() ==> ws[i].key() != ws[j].key()
}

pub open spec fn holds_key<S>(ws: Seq<StreamWriter<S>>, key: StreamKey) -> bool {
    exists|i: int| 0 <= i < ws.len() && ws[i].key() == key
}

/// The address that outbound data goes to, for the endpoints that the pool
/// serves.
pub open spec fn target_of(endpoint: Endpoint) -> StreamKey
    recommends
        endpoint is Socket,
{
    endpoint->Socket_0
}

/// The calls that handling `msg` makes on the stream of its writer, whose
/// calls were `before`: the transmission of the data, then, after final
/// data, a shutdown of both directions, whose result is `shutdown`.
pub open spec fn handled_ops(
    before: Seq<StreamOp>,
    after: Seq<StreamOp>,
    msg: TransmitDataMsg,
    report: WriteReport,
    shutdown: Option<Result<(), IoErrorKind>>,
) -> bool {
    if msg.last_data {
        &&& after.len() > 0
        &&& shutdown is Some
        &&& after.last() == (StreamOp::Shutdown { how: Shutdown::Both, result: shutdown->Some_0 })
        &&& transmitted(before, after.drop_last(), msg.data@, report.result, report.remove is Some)
    } else {
        &&& shutdown is None
        &&& transmitted(before, after, msg.data@, report.result, report.remove is Some)
    }
}

proof fn lemma_without_absent<S>(ws: Seq<StreamWriter<S>>, key: StreamKey)
    requires
        !holds_key(ws, key),
    ensures
        without(ws, key) == ws,
    decreases ws.len(),
{
    reveal(Seq::filter);
    if ws.len() > 0 {
        assert(!holds_key(ws.drop_last(), key)) by {
            if holds_key(ws.drop_last(), key) {
                let i = choose|i: int| 0 <= i < ws.drop_last().len() && ws.drop_last()[i].key() == key;
                assert(ws[i].key() == key);
            }
        }
        lemma_without_absent(ws.drop_last(), key);
        assert(ws[ws.len() - 1].key() != key);
        assert(ws.drop_last().push(ws.last()) =~= ws);
    }
}

proof fn lemma_without_at<S>(ws: Seq<StreamWriter<S>>, key: StreamKey, i: int)
    requires
        keys_unique(ws),
        0 <= i < ws.len(),
        ws[i].key() == key,
    ensures
        without(ws, key) == ws.remove(i),
    decreases ws.len(),
{
    reveal(Seq::filter);
    let rest = ws.drop_last();
    if i == ws.len() - 1 {
        assert(!holds_key(rest, key)) by {
            if holds_key(rest, key) {
                let j = choose|j: int| 0 <= j < rest.len() && rest[j].key() == key;
                assert(ws[j].key() == ws[i].key());
            }
        }
        lemma_without_absent(rest, key);
        assert(ws.remove(i) =~= rest);
    } else {
        assert(keys_unique(rest));
        lemma_without_at(rest, key, i);
        assert(ws.last().key() != key);
        assert(rest.remove(i).push(ws.last()) =~= ws.remove(i));
    }
}

/// A removal leaves no writer for its key.
pub proof fn lemma_remove_drops_key<S>(ws: Seq<StreamWriter<S>>, key: StreamKey)
    ensures
        !holds_key(without(ws, key), key),
{
    broadcast use vstd::seq_lib::group_filter_ensures;

    if holds_key(without(ws, key), key) {
        let i = choose|i: int| 0 <= i < without(ws, key).len() && without(ws, key)[i].key() == key;
        assert(without(ws, key)[i].key() != key);
    }
}

/// Removing a connection twice leaves the pool as removing it once does.
pub proof fn lemma_remove_idempotent<S>(ws: Seq<StreamWriter<S>>, key: StreamKey)
    ensures
        without(without(ws, key), key) == without(ws, key),
{
    lemma_remove_drops_key(ws, key);
    lemma_without_absent(without(ws, key), key);
}

/// A write that fails with a dead-stream error asks for the removal of its
/// writer, and that removal leaves the pool with no writer for the address:
/// further data for it finds no stream.
pub proof fn lemma_dead_write_then_transmit<S>(
    ws: Seq<StreamWriter<S>>,
    key: StreamKey,
    len: nat,
    kind: IoErrorKind,
)
    requires
        is_dead_stream_kind(kind),
    ensures
        write_report(key, len, Err(kind)).remove == Some(RemoveStreamMsg { socket_addr: key }),
        !holds_key(without(ws, write_report(key, len, Err(kind)).remove->Some_0.socket_addr), key),
{
    lemma_remove_drops_key(ws, key);
}

/// The central registry of the writers of live connections. It handles its
/// events one at a time.
pub struct StreamHandlerPool<S> {
    stream_writers: Vec<StreamWriter<S>>,
    bound: bool,
}

impl<S> StreamHandlerPool<S> {
    /// The writers that the pool holds.
    pub closed spec fn writers(&self) -> Seq<StreamWriter<S>> {
        self.stream_writers@
    }

    /// Whether the pool has been bound to its sinks.
    pub closed spec fn is_bound(&self) -> bool {
        self.bound
    }

    pub open spec fn wf(&self) -> bool {
        keys_unique(self.writers())
    }
}

impl<S: ByteStream> StreamHandlerPool<S> {
    /// An unbound pool with no writers.
    pub fn new() -> (r: StreamHandlerPool<S>)
        ensures
            r.wf(),
            r.writers() == Seq::<StreamWriter<S>>::empty(),
            !r.is_bound(),
    {
        StreamHandlerPool { stream_writers: Vec::new(), bound: false }
    }

    pub fn bound(&self) -> (r: bool)
        ensures
            r == self.is_bound(),
    {
        self.bound
    }

    /// Records that the pool's sinks are in place; events other than a
    /// removal need that first.
    pub fn handle_bind(&mut self)
        ensures
            final(self).is_bound(),
            final(self).writers() == old(self).writers(),
    {
        self.bound = true;
    }

    /// How many writers the pool holds.
    pub fn len(&self) -> (r: usize)
        ensures
            r == self.writers().len(),
    {
        self.stream_writers.len()
    }

    /// Whether the pool holds a writer for `key`.
    pub fn contains(&self, key: StreamKey) -> (r: bool)
        requires
            self.wf(),
        ensures
            r == holds_key(self.writers(), key),
    {
        match self.find(key) {
            Some(_) => true,
            None => false,
        }
    }

    fn find(&self, key: StreamKey) -> (r: Option<usize>)
        ensures
            match r {
                Some(i) => i < self.writers().len() && self.writers()[i as int].key() == key,
                None => !holds_key(self.writers(), key),
            },
    {
        let mut i: usize = 0;
        while i < self.stream_writers.len()
            invariant
                i <= self.stream_writers@.len(),
                forall|j: int| 0 <= j < i ==> self.stream_writers@[j].key() != key,
            decreases self.stream_writers@.len() - i,
        {
            if self.stream_writers[i].stream_key() == key {
                return Some(i);
            }
            i = i + 1;
        }
        None
    }

    /// Forgets the writer for `msg.socket_addr`; an unknown address changes
    /// nothing.
    pub fn handle_remove(&mut self, msg: RemoveStreamMsg)
        requires
            old(self).wf(),
        ensures
            final(self).wf(),
            final(self).writers() == without(old(self).writers(), msg.socket_addr),
            final(self).is_bound() == old(self).is_bound(),
    {
        let key = msg.socket_addr;
        match self.find(key) {
            Some(i) => {
                proof {
                    lemma_without_at(self.stream_writers@, key, i as int);
                }
                self.stream_writers.remove(i);
            },
            None => {
                proof {
                    lemma_without_absent(self.stream_writers@, key);
                }
            },
        }
    }

    /// Keeps `writer` under its key, in place of any writer already there.
    fn insert(&mut self, writer: StreamWriter<S>)
        requires
            old(self).wf(),
        ensures
            final(self).wf(),
            final(self).writers() == without(old(self).writers(), writer.key()).push(writer),
            final(self).is_bound() == old(self).is_bound(),
    {
        let key = writer.stream_key();
        self.handle_remove(RemoveStreamMsg { socket_addr: key });
        proof {
            lemma_remove_drops_key(old(self).writers(), key);
        }
        self.stream_writers.push(writer);
    }

    /// Takes a new connection: one handle of it becomes the writer kept
    /// under its peer address, replacing a stale one; the other is handed
    /// back to start a reader with. Where a handle cannot be made, the
    /// connection is dropped and the pool is left as it was.
    pub fn handle_add<F>(&mut self, msg: AddStreamMsg<S, F>) -> (r: AddOutcome<S, F>)
        requires
            old(self).wf(),
            old(self).is_bound(),
        ensures
            final(self).wf(),
            final(self).is_bound(),
            match r {
                AddOutcome::CloneFailed(event) => final(self).writers() == old(self).writers()
                    && event is CloneFailed,
                AddOutcome::NoPeerAddress(_) => final(self).writers() == old(self).writers(),
                AddOutcome::Started(setup) => {
                    &&& final(self).writers().len() > 0
                    &&& final(self).writers().last().key() == setup.peer
                    &&& final(self).writers() == without(old(self).writers(), setup.peer).push(
                        final(self).writers().last(),
                    )
                    &&& setup.origin_port == msg.origin_port
                    &&& setup.discriminator_factories == msg.discriminator_factories
                },
            },
    {
        let read_stream = match msg.stream.try_clone() {
            Ok(stream) => stream,
            Err(kind) => {
                return AddOutcome::CloneFailed(LogEvent::CloneFailed { side: StreamSide::Read, kind });
            },
        };
        let write_stream = match msg.stream.try_clone() {
            Ok(stream) => stream,
            Err(kind) => {
                return AddOutcome::CloneFailed(LogEvent::CloneFailed { side: StreamSide::Write, kind });
            },
        };
        let peer = match write_stream.peer_addr() {
            Ok(peer) => peer,
            Err(kind) => {
                return AddOutcome::NoPeerAddress(kind);
            },
        };
        self.insert(StreamWriter::new(write_stream, peer));
        AddOutcome::Started(
            ReaderSetup {
                read_stream,
                peer,
                origin_port: msg.origin_port,
                discriminator_factories: msg.discriminator_factories,
            },
        )
    }

    /// Writes outbound data to the writer of its address, and shuts that
    /// writer down after final data. Data for an address that the pool does
    /// not hold is logged and goes nowhere.
    pub fn handle_transmit(&mut self, msg: &TransmitDataMsg) -> (r: TransmitOutcome)
        requires
            old(self).wf(),
            msg.endpoint is Socket,
        ensures
            final(self).wf(),
            final(self).is_bound() == old(self).is_bound(),
            keys_of(final(self).writers()) == keys_of(old(self).writers()),
            forall|j: int|
                0 <= j < old(self).writers().len() && old(self).writers()[j].key() != target_of(msg.endpoint)
                    ==> #[trigger] final(self).writers()[j] == old(self).writers()[j],
            !holds_key(old(self).writers(), target_of(msg.endpoint)) ==> {
                &&& r == TransmitOutcome::Nonexistent(
                    LogEvent::NonexistentStream { addr: target_of(msg.endpoint), bytes: msg.data@.len() as usize },
                )
                &&& final(self).writers() == old(self).writers()
            },
            holds_key(old(self).writers(), target_of(msg.endpoint)) ==> match r {
                TransmitOutcome::Written { report, shutdown } => {
                    &&& report == write_report(target_of(msg.endpoint), msg.data@.len(), report.result)
                    &&& shutdown is Some == msg.last_data
                    &&& forall|i: int|
                        0 <= i < old(self).writers().len() && old(self).writers()[i].key() == target_of(
                            msg.endpoint,
                        ) ==> handled_ops(
                            #[trigger] old(self).writers()[i].stream_ops(),
                            final(self).writers()[i].stream_ops(),
                            *msg,
                            report,
                            shutdown,
                        )
                },
                TransmitOutcome::Nonexistent(_) => false,
            },
    {
        let key = match &msg.endpoint {
            Endpoint::Socket(addr) => *addr,
            _ => vstd::pervasive::unreached(),
        };
        match self.find(key) {
            Some(i) => {
                let ghost before = self.stream_writers@;
                let report = self.stream_writers[i].transmit(msg.data.as_slice());
                let ghost middle = self.stream_writers@[i as int].stream_ops();
                let mut shutdown: Option<Result<(), IoErrorKind>> = None;
                if msg.last_data {
                    shutdown = Some(self.stream_writers[i].shutdown(Shutdown::Both));
                    assert(self.stream_writers@[i as int].stream_ops().drop_last() =~= middle);
                }
                proof {
                    assert forall|j: int|
                        0 <= j < before.len() && before[j].key() == key implies j == i by {
                        if j != i {
                            assert(before[j].key() != before[i as int].key());
                        }
                    }
                    assert(keys_of(self.stream_writers@) =~= keys_of(before));
                    assert forall|a: int, b: int| 0 <= a < b < self.stream_writers@.len() implies
                        self.stream_writers@[a].key() != self.stream_writers@[b].key() by {
                        assert(keys_of(self.stream_writers@)[a] == keys_of(before)[a]);
                        assert(keys_of(self.stream_writers@)[b] == keys_of(before)[b]);
                    }
                }
                TransmitOutcome::Written { report, shutdown }
            },
            None => {
                TransmitOutcome::Nonexistent(LogEvent::NonexistentStream { addr: key, bytes: msg.data.len() })
            },
        }
    }
}

} // verus!
