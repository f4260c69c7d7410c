//! The decoder of a chat stream.
//!
//! The body of a streamed answer arrives in chunks, each holding one event.
//! The decoder is told what each read of the body gave and says what to do
//! next: hand an item to the consumer, or stop. It never reads and never
//! waits; whoever drives it does, and asks it again only when the last
//! item has been handed over, so that no item is lost or overtaken when the
//! consumer is slow.
use vstd::prelude::*;

use crate::api::chat::{ChatStreamResponse, ChatStreamResponseView};
use crate::error::CohereStreamError;
use crate::json::read::shape_error;
use crate::json::{document, parse};

verus! {

/// How many items may wait for the consumer. The queue between the decoder
/// and the consumer holds no more; while it is full the driver waits, and
/// reads no further.
pub const STREAM_QUEUE_CAPACITY: usize = 32;

/// What one read of the body gave.
#[derive(Debug)]
pub enum BodyRead<'a> {
    /// The next chunk of bytes.
    Chunk(&'a [u8]),
    /// The body has ended.
    Finished,
    /// The read failed.
    Failed,
}

/// What the driver does next.
#[derive(Debug)]
pub enum StreamAction {
    /// Hand this item to the consumer, then read again.
    Deliver(Result<ChatStreamResponse, CohereStreamError>),
    /// Stop reading: the stream has ended.
    Stop,
}

/// What the consumer gets for one chunk: the event it holds, or the notice
/// that it holds none.
pub enum Delivery {
    Event(ChatStreamResponseView),
    DecodeError,
}

/// What the consumer gets for `chunk`.
pub open spec fn decoded(chunk: Seq<u8>) -> Delivery {
    match document(chunk) {
        Some(j) => match ChatStreamResponse::of_json(j) {
            Some(event) => Delivery::Event(event),
            None => Delivery::DecodeError,
        },
        None => Delivery::DecodeError,
    }
}

/// What an item tells the consumer.
pub open spec fn delivery_of(item: Result<ChatStreamResponse, CohereStreamError>) -> Delivery {
    match item {
        Ok(event) => Delivery::Event(event@),
        Err(_) => Delivery::DecodeError,
    }
}

/// Whether a read ends the stream: anything but a chunk that holds bytes.
pub open spec fn ends_stream(read: BodyRead) -> bool {
    match read {
        BodyRead::Chunk(chunk) => chunk@.len() == 0,
        _ => true,
    }
}

/// What the consumer gets, in order, from a body that arrives as `chunks`:
/// one item for each chunk up to the first empty one.
pub open spec fn deliveries(chunks: Seq<Seq<u8>>) -> Seq<Delivery>
    decreases chunks.len(),
{
    if chunks.len() == 0 || chunks[0].len() == 0 {
        Seq::empty()
    } else {
        seq![decoded(chunks[0])] + deliveries(chunks.skip(1))
    }
}

/// Decodes the event that a chunk holds. A chunk that holds none gives a
/// decode error that wraps the parser's.
pub fn decode_event(chunk: &[u8]) -> (item: Result<ChatStreamResponse, CohereStreamError>)
    ensures
        delivery_of(item) == decoded(chunk@),
        item matches Err(error) ==> error is RequestError,
{
    match parse(chunk) {
        Ok(j) => match ChatStreamResponse::from_json(&j) {
            Some(event) => Ok(event),
            None => Err(CohereStreamError::RequestError(shape_error("not a chat stream event"))),
        },
        Err(e) => Err(CohereStreamError::RequestError(e)),
    }
}

/// The state of one stream.
#[derive(Debug)]
pub struct StreamDecoder {
    finished: bool,
}

impl StreamDecoder {
    /// Whether the stream has ended.
    pub closed spec fn finished(&self) -> bool {
        self.finished
    }

    /// The decoder of a stream whose body has not been read yet.
    pub fn new() -> (decoder: StreamDecoder)
        ensures
            !decoder.finished(),
    {
        StreamDecoder { finished: false }
    }

    /// Whether the stream has ended.
    pub fn is_finished(&self) -> (b: bool)
        ensures
            b == self.finished(),
    {
        self.finished
    }

    /// Takes what a read of the body gave. A chunk that holds bytes is
    /// decoded into the next item, whether or not it holds an event; an
    /// empty chunk, the end of the body and a failed read end the stream,
    /// as does any read after the end.
    pub fn on_read(&mut self, read: BodyRead) -> (action: StreamAction)
        ensures
            final(self).finished() == (old(self).finished() || ends_stream(read)),
            final(self).finished() <==> action is Stop,
            action matches StreamAction::Deliver(item) ==> read matches BodyRead::Chunk(chunk)
                && delivery_of(item) == decoded(chunk@) && (item matches Err(error)
                ==> error is RequestError),
    {
        if self.finished {
            return StreamAction::Stop;
        }
        match read {
            BodyRead::Chunk(chunk) => {
                if chunk.len() == 0 {
                    self.finished = true;
                    StreamAction::Stop
                } else {
                    StreamAction::Deliver(decode_event(chunk))
                }
            },
            _ => {
                self.finished = true;
                StreamAction::Stop
            },
        }
    }

    /// Takes the outcome of handing an item over. A consumer that is gone
    /// ends the stream: nothing more is read or decoded for it.
    pub fn on_delivered(&mut self, accepted: bool)
        ensures
            final(self).finished() == (old(self).finished() || !accepted),
    {
        if !accepted {
            self.finished = true;
        }
    }
}

/// Decodes a body that has arrived whole, chunk by chunk.
pub fn decode_stream(chunks: &Vec<Vec<u8>>) -> (items: Vec<
    Result<ChatStreamResponse, CohereStreamError>,
>)
    ensures
        items@.len() == deliveries(chunks.deep_view()).len(),
        forall|i: int|
            0 <= i < items@.len() ==> delivery_of(#[trigger] items@[i]) == deliveries(
                chunks.deep_view(),
            )[i],
        forall|i: int|
            0 <= i < items@.len() ==> ((#[trigger] items@[i]) matches Err(error)
                ==> error is RequestError),
{
    let ghost all = chunks.deep_view();
    let mut decoder = StreamDecoder::new();
    let mut items: Vec<Result<ChatStreamResponse, CohereStreamError>> = Vec::new();
    let mut i: usize = 0;
    proof {
        assert(all.skip(0) =~= all);
    }
    while i < chunks.len()
        invariant
            i <= chunks.len(),
            all == chunks.deep_view(),
            all.len() == chunks.len(),
            !decoder.finished(),
            items@.len() == i,
            deliveries(all) =~= Seq::new(i as nat, |k: int| delivery_of(items@[k])) + deliveries(
                all.skip(i as int),
            ),
            forall|k: int|
                0 <= k < items@.len() ==> ((#[trigger] items@[k]) matches Err(error)
                    ==> error is RequestError),
        decreases chunks.len() - i,
    {
        let ghost rest = all.skip(i as int);
        let ghost before = Seq::new(i as nat, |k: int| delivery_of(items@[k]));
        proof {
            assert(rest[0] == all[i as int]);
            assert(all[i as int] == chunks@[i as int]@);
            assert(rest.skip(1) =~= all.skip(i + 1));
        }
        match decoder.on_read(BodyRead::Chunk(chunks[i].as_slice())) {
            StreamAction::Deliver(item) => {
                items.push(item);
                proof {
                    let after = Seq::new((i + 1) as nat, |k: int| delivery_of(items@[k]));
                    assert(after =~= before + seq![decoded(rest[0])]);
                }
            },
            StreamAction::Stop => {
                proof {
                    assert(deliveries(rest) =~= Seq::<Delivery>::empty());
                    assert(deliveries(all) =~= before);
                }
                return items;
            },
        }
        i += 1;
    }
    proof {
        assert(deliveries(all.skip(i as int)) =~= Seq::<Delivery>::empty());
    }
    items
}

/// Every chunk of a body whose chunks all hold bytes gives one item, in the
/// order of arrival: none is lost, none comes twice, none overtakes.
pub proof fn lemma_one_item_per_chunk(chunks: Seq<Seq<u8>>)
    requires
        forall|i: int| 0 <= i < chunks.len() ==> (#[trigger] chunks[i]).len() > 0,
    ensures
        deliveries(chunks).len() == chunks.len(),
        forall|i: int| 0 <= i < chunks.len() ==> #[trigger] deliveries(chunks)[i] == decoded(chunks[i]),
    decreases chunks.len(),
{
    if chunks.len() > 0 {
        let rest = chunks.skip(1);
        assert forall|i: int| 0 <= i < rest.len() implies (#[trigger] rest[i]).len() > 0 by {
            assert(rest[i] == chunks[i + 1]);
        }
        lemma_one_item_per_chunk(rest);
        assert forall|i: int| 0 <= i < chunks.len() implies #[trigger] deliveries(chunks)[i]
            == decoded(chunks[i]) by {
            if i > 0 {
                assert(deliveries(chunks)[i] == deliveries(rest)[i - 1]);
                assert(rest[i - 1] == chunks[i]);
            }
        }
    }
}

/// A body of chunks that each hold an event is decoded into as many
/// events, each the one its chunk holds, in the order of arrival.
pub proof fn lemma_events_in_order(chunks: Seq<Seq<u8>>)
    requires
        forall|i: int|
            0 <= i < chunks.len() ==> (#[trigger] chunks[i]).len() > 0 && decoded(chunks[i]) is Event,
    ensures
        deliveries(chunks).len() == chunks.len(),
        forall|i: int|
            0 <= i < chunks.len() ==> (#[trigger] deliveries(chunks)[i]) is Event && deliveries(
                chunks,
            )[i] == decoded(chunks[i]),
{
    lemma_one_item_per_chunk(chunks);
}

/// A chunk that holds no event gives a decode error at its own place and
/// takes nothing from the chunks around it: each of them still gives the
/// event it holds, in the order of arrival.
pub proof fn lemma_malformed_chunk_in_place(chunks: Seq<Seq<u8>>, bad: int)
    requires
        0 <= bad < chunks.len(),
        forall|i: int| 0 <= i < chunks.len() ==> (#[trigger] chunks[i]).len() > 0,
        decoded(chunks[bad]) is DecodeError,
        forall|i: int| 0 <= i < chunks.len() && i != bad ==> decoded(#[trigger] chunks[i]) is Event,
    ensures
        deliveries(chunks).len() == chunks.len(),
        deliveries(chunks)[bad] is DecodeError,
        forall|i: int|
            0 <= i < chunks.len() && i != bad ==> (#[trigger] deliveries(chunks)[i]) is Event
                && deliveries(chunks)[i] == decoded(chunks[i]),
{
    lemma_one_item_per_chunk(chunks);
}

/// Nothing is delivered for what arrives after the first empty chunk.
pub proof fn lemma_empty_chunk_ends(chunks: Seq<Seq<u8>>, end: int)
    requires
        0 <= end < chunks.len(),
        chunks[end].len() == 0,
        forall|i: int| 0 <= i < end ==> (#[trigger] chunks[i]).len() > 0,
    ensures
        deliveries(chunks) == deliveries(chunks.take(end)),
        deliveries(chunks).len() == end,
    decreases end,
{
    if end == 0 {
        assert(chunks.take(0) =~= Seq::<Seq<u8>>::empty());
    } else {
        let rest = chunks.skip(1);
        assert(rest[end - 1] == chunks[end]);
        assert forall|i: int| 0 <= i < end - 1 implies (#[trigger] rest[i]).len() > 0 by {
            assert(rest[i] == chunks[i + 1]);
        }
        lemma_empty_chunk_ends(rest, end - 1);
        assert(chunks.take(end).skip(1) =~= rest.take(end - 1));
        assert(chunks.take(end)[0] == chunks[0]);
        lemma_one_item_per_chunk(chunks.take(end));
    }
}

} // verus!
