use vstd::prelude::*;
use crate::error_kind::{indicates_dead_stream, indicates_timeout, is_dead_stream_kind, is_timeout_kind, IoErrorKind};
use crate::log_event::LogEvent;
use crate::writer::StreamWriter;
use crate::pool::{holds_key, lemma_remove_drops_key, without};
use crate::messages::{Component, InboundClientData, RemoveStreamMsg, StreamKey, UnmaskedChunk};

verus! {

/// How a reader treats the result of one read.
#[derive(Clone, Copy, Debug, PartialEq, Eq, Structural)]
pub enum ReadClass {
    /// Nothing came, or the read timed out: wait and read again.
    Pause,
    /// Bytes came: they go to the discriminator.
    Feed,
    /// An error that does not end the stream: log it and read again.
    Benign,
    /// The stream is dead: the reader ends it.
    Dead,
}

/// The class of a read result. Dead-stream kinds are tested before
/// timeout kinds, so a timed-out read ends the stream.
pub open spec fn read_class(result: Result<usize, IoErrorKind>) -> ReadClass {
    match result {
        Ok(n) => if n == 0 { ReadClass::Pause } else { ReadClass::Feed },
        Err(kind) => if is_dead_stream_kind(kind) {
            ReadClass::Dead
        } else if is_timeout_kind(kind) {
            ReadClass::Pause
        } else {
            ReadClass::Benign
        },
    }
}

/// What a reader does after one read.
#[derive(Clone, Debug, PartialEq, Eq)]
pub enum ReadAction {
    /// Wait a moment and read again.
    Pause,
    /// Feed the first `n` bytes of the buffer to the discriminator and pass on
    /// what it frames.
    Feed(usize),
    /// Log the event and read again.
    Continue(LogEvent),
    /// Post `remove` to the pool, shut the stream down, send `last` to the
    /// dispatcher, and stop.
    Terminate { remove: RemoveStreamMsg, last: InboundClientData },
}

pub open spec fn class_of(action: ReadAction) -> ReadClass {
    match action {
        ReadAction::Pause => ReadClass::Pause,
        ReadAction::Feed(_) => ReadClass::Feed,
        ReadAction::Continue(_) => ReadClass::Benign,
        ReadAction::Terminate { .. } => ReadClass::Dead,
    }
}

/// What the dispatcher and the pool see of a reader, one connection at a
/// time.
pub enum ReaderEffect {
    /// Inbound data for the dispatcher.
    Deliver { component: Component, last_data: bool, data: Seq<u8> },
    /// A removal of the connection's writer, posted to the pool.
    Remove(StreamKey),
    /// A warning in the log.
    Warn(IoErrorKind),
}

pub open spec fn effect_of(m: InboundClientData) -> ReaderEffect {
    ReaderEffect::Deliver { component: m.component, last_data: m.last_data, data: m.data@ }
}

pub open spec fn chunk_effect(c: UnmaskedChunk) -> ReaderEffect {
    ReaderEffect::Deliver { component: c.component, last_data: false, data: c.chunk@ }
}

/// The end of a stream: the removal, then an empty last message meant for
/// the proxy server.
pub open spec fn terminal_effects(key: StreamKey) -> Seq<ReaderEffect> {
    seq![
        ReaderEffect::Remove(key),
        ReaderEffect::Deliver { component: Component::ProxyServer, last_data: true, data: Seq::empty() },
    ]
}

/// One read: its result, and the chunks that the discriminator framed once
/// the bytes read were fed to it (looked at only when bytes came).
pub type ReadStep = (Result<usize, IoErrorKind>, Seq<UnmaskedChunk>);

pub open spec fn step_effects(key: StreamKey, step: ReadStep) -> Seq<ReaderEffect> {
    match read_class(step.0) {
        ReadClass::Pause => Seq::empty(),
        ReadClass::Feed => step.1.map_values(|c: UnmaskedChunk| chunk_effect(c)),
        ReadClass::Benign => seq![ReaderEffect::Warn(step.0->Err_0)],
        ReadClass::Dead => terminal_effects(key),
    }
}

/// Everything a reader brings about over a run of reads; it stops at the
/// first read that finds the stream dead.
pub open spec fn reader_trace(key: StreamKey, steps: Seq<ReadStep>) -> Seq<ReaderEffect>
    decreases steps.len(),
{
    if steps.len() == 0 {
        Seq::empty()
    } else if read_class(steps[0].0) == ReadClass::Dead {
        step_effects(key, steps[0])
    } else {
        step_effects(key, steps[0]) + reader_trace(key, steps.drop_first())
    }
}

pub open spec fn is_last(e: ReaderEffect) -> bool {
    match e {
        ReaderEffect::Deliver { last_data, .. } => last_data,
        _ => false,
    }
}

pub open spec fn is_remove(e: ReaderEffect) -> bool {
    e is Remove
}

/// The bytes that the dispatcher receives, in order.
pub open spec fn delivered_bytes(effects: Seq<ReaderEffect>) -> Seq<u8>
    decreases effects.len(),
{
    if effects.len() == 0 {
        Seq::empty()
    } else {
        let head = match effects[0] {
            ReaderEffect::Deliver { data, .. } => data,
            _ => Seq::empty(),
        };
        head + delivered_bytes(effects.drop_first())
    }
}

/// The bytes of the chunks, in order.
pub open spec fn chunk_bytes(chunks: Seq<UnmaskedChunk>) -> Seq<u8>
    decreases chunks.len(),
{
    if chunks.len() == 0 {
        Seq::empty()
    } else {
        chunks[0].chunk@ + chunk_bytes(chunks.drop_first())
    }
}

/// The bytes that the discriminator framed over a run of reads, up to the
/// read that finds the stream dead.
pub open spec fn framed_bytes(steps: Seq<ReadStep>) -> Seq<u8>
    decreases steps.len(),
{
    if steps.len() == 0 {
        Seq::empty()
    } else {
        match read_class(steps[0].0) {
            ReadClass::Dead => Seq::empty(),
            ReadClass::Feed => chunk_bytes(steps[0].1) + framed_bytes(steps.drop_first()),
            _ => framed_bytes(steps.drop_first()),
        }
    }
}

proof fn lemma_filter_none<A>(s: Seq<A>, pred: spec_fn(A) -> bool)
    requires
        forall|i: int| 0 <= i < s.len() ==> !pred(#[trigger] s[i]),
    ensures
        s.filter(pred) == Seq::<A>::empty(),
    decreases s.len(),
{
    reveal(Seq::filter);
    if s.len() > 0 {
        assert(!pred(s[s.len() - 1]));
        lemma_filter_none(s.drop_last(), pred);
    }
}

proof fn lemma_delivered_bytes_add(a: Seq<ReaderEffect>, b: Seq<ReaderEffect>)
    ensures
        delivered_bytes(a + b) == delivered_bytes(a) + delivered_bytes(b),
    decreases a.len(),
{
    if a.len() == 0 {
        assert(a + b =~= b);
    } else {
        lemma_delivered_bytes_add(a.drop_first(), b);
        assert((a + b).drop_first() =~= a.drop_first() + b);
        let head = match a[0] {
            ReaderEffect::Deliver { data, .. } => data,
            _ => Seq::empty(),
        };
        assert(head + (delivered_bytes(a.drop_first()) + delivered_bytes(b)) =~= (head + delivered_bytes(
            a.drop_first(),
        )) + delivered_bytes(b));
    }
}

proof fn lemma_delivered_chunks(chunks: Seq<UnmaskedChunk>)
    ensures
        delivered_bytes(chunks.map_values(|c: UnmaskedChunk| chunk_effect(c))) == chunk_bytes(chunks),
    decreases chunks.len(),
{
    let effects = chunks.map_values(|c: UnmaskedChunk| chunk_effect(c));
    if chunks.len() > 0 {
        lemma_delivered_chunks(chunks.drop_first());
        assert(effects.drop_first() =~= chunks.drop_first().map_values(|c: UnmaskedChunk| chunk_effect(c)));
    } else {
        assert(effects =~= Seq::<ReaderEffect>::empty());
    }
}

proof fn lemma_delivered_single(e: ReaderEffect)
    ensures
        delivered_bytes(seq![e]) == match e {
            ReaderEffect::Deliver { data, .. } => data,
            _ => Seq::empty(),
        },
{
    let s = seq![e];
    assert(s.drop_first() =~= Seq::<ReaderEffect>::empty());
    assert(delivered_bytes(Seq::<ReaderEffect>::empty()) == Seq::<u8>::empty());
    let head = match e {
        ReaderEffect::Deliver { data, .. } => data,
        _ => Seq::empty(),
    };
    assert(head + Seq::<u8>::empty() =~= head);
}

proof fn lemma_terminal_delivers_nothing(key: StreamKey)
    ensures
        delivered_bytes(terminal_effects(key)) == Seq::<u8>::empty(),
{
    let t = terminal_effects(key);
    assert(t.drop_first() =~= seq![t[1]]);
    lemma_delivered_single(t[1]);
    assert(delivered_bytes(t) =~= Seq::<u8>::empty());
}

/// The dispatcher receives, over all the data messages of a reader, exactly
/// the bytes that the discriminator framed from what the stream delivered.
pub proof fn lemma_delivered_bytes_are_framed_bytes(key: StreamKey, steps: Seq<ReadStep>)
    ensures
        delivered_bytes(reader_trace(key, steps)) == framed_bytes(steps),
    decreases steps.len(),
{
    if steps.len() > 0 {
        let rest = steps.drop_first();
        let first = step_effects(key, steps[0]);
        match read_class(steps[0].0) {
            ReadClass::Dead => {
                lemma_terminal_delivers_nothing(key);
            },
            _ => {
                lemma_delivered_bytes_are_framed_bytes(key, rest);
                lemma_delivered_bytes_add(first, reader_trace(key, rest));
                match read_class(steps[0].0) {
                    ReadClass::Feed => {
                        lemma_delivered_chunks(steps[0].1);
                    },
                    ReadClass::Pause => {
                        assert(delivered_bytes(first) =~= Seq::<u8>::empty());
                    },
                    _ => {
                        lemma_delivered_single(ReaderEffect::Warn(steps[0].0->Err_0));
                    },
                }
                assert(Seq::<u8>::empty() + framed_bytes(rest) =~= framed_bytes(rest));
            },
        }
    }
}

/// A read error that does not end the stream brings a warning and nothing
/// else: no last message and no removal; the reader reads on.
pub proof fn lemma_benign_error_continues(key: StreamKey, step: ReadStep, rest: Seq<ReadStep>)
    requires
        read_class(step.0) == ReadClass::Benign,
    ensures
        reader_trace(key, seq![step] + rest) == seq![ReaderEffect::Warn(step.0->Err_0)] + reader_trace(key, rest),
        forall|e: ReaderEffect| step_effects(key, step).contains(e) ==> !is_last(e) && !is_remove(e),
{
    let steps = seq![step] + rest;
    assert(steps.drop_first() =~= rest);
    assert(steps[0] == step);
    assert(step_effects(key, step) =~= seq![ReaderEffect::Warn(step.0->Err_0)]);
}

/// Once a reader reads from a dead stream, it has posted exactly one removal,
/// that of its own connection, and sent exactly one last message, empty and
/// last of all; and that removal leaves the pool with no writer for the
/// connection.
pub proof fn lemma_dead_read_ends_stream_once<S>(
    steps: Seq<ReadStep>,
    i: int,
    ws: Seq<StreamWriter<S>>,
    key: StreamKey,
)
    requires
        0 <= i < steps.len(),
        read_class(steps[i].0) == ReadClass::Dead,
    ensures
        reader_trace(key, steps).filter(|e: ReaderEffect| is_last(e)).len() == 1,
        reader_trace(key, steps).filter(|e: ReaderEffect| is_remove(e)) == seq![ReaderEffect::Remove(key)],
        reader_trace(key, steps).last() == (ReaderEffect::Deliver {
            component: Component::ProxyServer,
            last_data: true,
            data: Seq::empty(),
        }),
        !holds_key(without(ws, key), key),
    decreases steps.len(),
{
    lemma_remove_drops_key(ws, key);
    let last_pred = |e: ReaderEffect| is_last(e);
    let remove_pred = |e: ReaderEffect| is_remove(e);
    if read_class(steps[0].0) == ReadClass::Dead {
        reveal_with_fuel(Seq::filter, 3);
        let t = terminal_effects(key);
        assert(t.drop_last().drop_last() =~= Seq::<ReaderEffect>::empty());
        assert(t.filter(last_pred) =~= seq![t[1]]);
        assert(t.filter(remove_pred) =~= seq![t[0]]);
    } else {
        let rest = steps.drop_first();
        let first = step_effects(key, steps[0]);
        assert(rest[i - 1] == steps[i]);
        lemma_dead_read_ends_stream_once(rest, i - 1, ws, key);
        let tail = reader_trace(key, rest);
        assert forall|j: int| 0 <= j < first.len() implies !last_pred(#[trigger] first[j]) && !remove_pred(
            first[j],
        ) by {
            if read_class(steps[0].0) == ReadClass::Feed {
                assert(first[j] == chunk_effect(steps[0].1[j]));
            }
        }
        lemma_filter_none(first, last_pred);
        lemma_filter_none(first, remove_pred);
        Seq::filter_distributes_over_add(first, tail, last_pred);
        Seq::filter_distributes_over_add(first, tail, remove_pred);
        assert(Seq::<ReaderEffect>::empty() + tail.filter(last_pred) =~= tail.filter(last_pred));
        assert(Seq::<ReaderEffect>::empty() + tail.filter(remove_pred) =~= tail.filter(remove_pred));
        assert(tail.len() > 0);
    }
}

/// The worker-side state of one connection's reader.
pub struct StreamReader {
    stream_key: StreamKey,
    origin_port: Option<u16>,
    local_port: u16,
    finished: bool,
}

impl StreamReader {
    /// The peer address: the key of the connection.
    pub closed spec fn key(&self) -> StreamKey {
        self.stream_key
    }

    /// The local port the connection was accepted on, if it was accepted.
    pub closed spec fn origin(&self) -> Option<u16> {
        self.origin_port
    }

    /// The local port of the connection, for the log.
    pub closed spec fn local(&self) -> u16 {
        self.local_port
    }

    /// Whether the reader has ended its stream.
    pub closed spec fn is_finished(&self) -> bool {
        self.finished
    }

    pub fn new(stream_key: StreamKey, origin_port: Option<u16>, local_port: u16) -> (r: StreamReader)
        ensures
            r.key() == stream_key,
            r.origin() == origin_port,
            r.local() == local_port,
            !r.is_finished(),
    {
        StreamReader { stream_key, origin_port, local_port, finished: false }
    }

    pub fn stream_key(&self) -> (r: StreamKey)
        ensures
            r == self.key(),
    {
        self.stream_key
    }

    pub fn origin_port(&self) -> (r: Option<u16>)
        ensures
            r == self.origin(),
    {
        self.origin_port
    }

    pub fn local_port(&self) -> (r: u16)
        ensures
            r == self.local(),
    {
        self.local_port
    }

    pub fn finished(&self) -> (r: bool)
        ensures
            r == self.is_finished(),
    {
        self.finished
    }

    /// Decides what follows a read that returned `result`. A dead stream
    /// finishes the reader: it is ended exactly once.
    pub fn on_read(&mut self, result: Result<usize, IoErrorKind>) -> (r: ReadAction)
        requires
            !old(self).is_finished(),
        ensures
            final(self).key() == old(self).key(),
            final(self).origin() == old(self).origin(),
            final(self).local() == old(self).local(),
            final(self).is_finished() == (read_class(result) == ReadClass::Dead),
            class_of(r) == read_class(result),
            match r {
                ReadAction::Pause => true,
                ReadAction::Feed(n) => result == Ok::<usize, IoErrorKind>(n),
                ReadAction::Continue(event) => event == LogEvent::ReadErrorContinuing {
                    peer: old(self).key(),
                    port: old(self).local(),
                    kind: result->Err_0,
                },
                ReadAction::Terminate { remove, last } => {
                    &&& remove == RemoveStreamMsg { socket_addr: old(self).key() }
                    &&& last.socket_addr == old(self).key()
                    &&& last.origin_port == old(self).origin()
                    &&& seq![ReaderEffect::Remove(remove.socket_addr), effect_of(last)] == terminal_effects(old(self).key())
                },
            },
    {
        match result {
            Ok(length) => {
                if length == 0 {
                    ReadAction::Pause
                } else {
                    ReadAction::Feed(length)
                }
            },
            Err(kind) => {
                if indicates_dead_stream(kind) {
                    self.finished = true;
                    let last = InboundClientData {
                        socket_addr: self.stream_key,
                        origin_port: self.origin_port,
                        component: Component::ProxyServer,
                        last_data: true,
                        data: Vec::new(),
                    };
                    proof {
                        assert(seq![ReaderEffect::Remove(self.stream_key), effect_of(last)] =~= terminal_effects(self.stream_key));
                    }
                    ReadAction::Terminate { remove: RemoveStreamMsg { socket_addr: self.stream_key }, last }
                } else if indicates_timeout(kind) {
                    ReadAction::Pause
                } else {
                    ReadAction::Continue(
                        LogEvent::ReadErrorContinuing { peer: self.stream_key, port: self.local_port, kind },
                    )
                }
            },
        }
    }

    /// The messages for the dispatcher that carry the chunks a discriminator
    /// framed, in order.
    pub fn frame(&self, chunks: &Vec<UnmaskedChunk>) -> (r: Vec<InboundClientData>)
        ensures
            r@.len() == chunks@.len(),
            forall|i: int|
                0 <= i < r@.len() ==> #[trigger] r@[i].socket_addr == self.key()
                    && r@[i].origin_port == self.origin(),
            r@.map_values(|m: InboundClientData| effect_of(m)) == chunks@.map_values(
                |c: UnmaskedChunk| chunk_effect(c),
            ),
    {
        let mut messages: Vec<InboundClientData> = Vec::new();
        let mut i: usize = 0;
        while i < chunks.len()
            invariant
                i <= chunks@.len(),
                messages@.len() == i,
                forall|j: int|
                    0 <= j < i ==> #[trigger] messages@[j].socket_addr == self.key()
                        && messages@[j].origin_port == self.origin()
                        && effect_of(messages@[j]) == chunk_effect(chunks@[j]),
            decreases chunks@.len() - i,
        {
            let chunk = &chunks[i];
            let data = chunk.chunk.clone();
            let message = InboundClientData {
                socket_addr: self.stream_key,
                origin_port: self.origin_port,
                component: chunk.component,
                last_data: false,
                data,
            };
            messages.push(message);
            i = i + 1;
        }
        assert forall|j: int| 0 <= j < messages@.len() implies effect_of(messages@[j]) == chunk_effect(
            chunks@[j],
        ) by {
            assert(messages@[j].socket_addr == self.key());
        }
        assert(messages@.map_values(|m: InboundClientData| effect_of(m)) =~= chunks@.map_values(
            |c: UnmaskedChunk| chunk_effect(c),
        ));
        messages
    }
}

} // verus!
