use vstd::prelude::*;
use vstd::utf8::{decode_utf8, valid_utf8};
use crate::error::AppError;
use crate::lifecycle::is_success;

verus! {

/// Relies on `String::from_utf8`: it succeeds exactly on valid UTF-8, and
/// the string holds the decoded characters.
#[verifier::external_body]
fn utf8_string(bytes: Vec<u8>) -> (r: Option<String>)
    ensures
        r is Some <==> valid_utf8(bytes@),
        r matches Some(s) ==> s@ == decode_utf8(bytes@),
{
    String::from_utf8(bytes).ok()
}

/// Decodes one chunk of a streamed answer; a chunk that is not UTF-8 is fatal.
pub fn decode_chunk(bytes: Vec<u8>) -> (r: Result<String, AppError>)
    ensures
        r is Ok <==> valid_utf8(bytes@),
        r matches Ok(s) ==> s@ == decode_utf8(bytes@),
        r matches Err(e) ==> e is Fatal,
{
    match utf8_string(bytes) {
        Some(s) => Ok(s),
        None => Err(AppError::Fatal(String::from_str("chunk is not UTF-8"))),
    }
}

/// Where a streamed answer stands.
#[derive(Debug, Clone, Copy, PartialEq, Eq, Structural)]
pub enum StreamState {
    /// The response status has not been seen yet.
    AwaitingStatus,
    /// Chunks are being passed on.
    Streaming,
    /// The stream closed or failed; nothing more comes out.
    Finished,
}

/// What the transport reported.
#[derive(Debug, Clone)]
pub enum StreamEvent {
    /// The status line of the response.
    Status(u16),
    /// The next chunk of the body.
    Chunk(Vec<u8>),
    /// Reading the body failed.
    ReadFailed,
    /// The body ended.
    Closed,
}

/// What one event makes of the stream, with the item it yields: `Some(text)`
/// for text, `None` for the fatal item.
pub open spec fn stream_step(
    state: StreamState,
    event: StreamEvent,
) -> (StreamState, Option<Option<Seq<char>>>) {
    match state {
        StreamState::AwaitingStatus => match event {
            StreamEvent::Status(c) => if is_success(c) {
                (StreamState::Streaming, None)
            } else {
                (StreamState::Finished, Some(None))
            },
            _ => (StreamState::Finished, Some(None)),
        },
        StreamState::Streaming => match event {
            StreamEvent::Chunk(b) => if valid_utf8(b@) {
                (StreamState::Streaming, Some(Some(decode_utf8(b@))))
            } else {
                (StreamState::Finished, Some(None))
            },
            StreamEvent::Closed => (StreamState::Finished, None),
            _ => (StreamState::Finished, Some(None)),
        },
        StreamState::Finished => (StreamState::Finished, None),
    }
}

/// The items a stream yields for a series of events.
pub open spec fn stream_items(state: StreamState, events: Seq<StreamEvent>) -> Seq<
    Option<Seq<char>>,
>
    decreases events.len(),
{
    if events.len() == 0 {
        Seq::empty()
    } else {
        let (next, item) = stream_step(state, events[0]);
        let rest = stream_items(next, events.drop_first());
        match item {
            Some(i) => seq![i] + rest,
            None => rest,
        }
    }
}

/// The view of a yielded item.
pub open spec fn item_view(r: Result<String, AppError>) -> Option<Seq<char>> {
    match r {
        Ok(s) => Some(s@),
        Err(_) => None,
    }
}

/// Handles one transport event and gives the item to yield, if any: a
/// failed status, a chunk that is not UTF-8, a failed read or an event out
/// of order gives one fatal item and ends the stream.
pub fn on_event(state: StreamState, event: StreamEvent) -> (r: (
    StreamState,
    Option<Result<String, AppError>>,
))
    ensures
        r.0 == stream_step(state, event).0,
        match r.1 {
            Some(i) => stream_step(state, event).1 == Some(item_view(i)),
            None => stream_step(state, event).1 is None,
        },
        r.1 matches Some(Err(e)) ==> e is Fatal,
{
    match state {
        StreamState::AwaitingStatus => match event {
            StreamEvent::Status(c) => if 200 <= c && c < 300 {
                (StreamState::Streaming, None)
            } else {
                (
                    StreamState::Finished,
                    Some(Err(AppError::Fatal(String::from_str("request failed")))),
                )
            },
            _ => (
                StreamState::Finished,
                Some(Err(AppError::Fatal(String::from_str("no response status")))),
            ),
        },
        StreamState::Streaming => match event {
            StreamEvent::Chunk(b) => match decode_chunk(b) {
                Ok(s) => (StreamState::Streaming, Some(Ok(s))),
                Err(e) => (StreamState::Finished, Some(Err(e))),
            },
            StreamEvent::Closed => (StreamState::Finished, None),
            _ => (
                StreamState::Finished,
                Some(Err(AppError::Fatal(String::from_str("reading the response failed")))),
            ),
        },
        StreamState::Finished => (StreamState::Finished, None),
    }
}

proof fn lemma_finished_stays_silent(events: Seq<StreamEvent>)
    ensures
        stream_items(StreamState::Finished, events) == Seq::<Option<Seq<char>>>::empty(),
    decreases events.len(),
{
    if events.len() > 0 {
        lemma_finished_stays_silent(events.drop_first());
    }
}

/// A response whose status is not a success yields exactly one item, the
/// fatal one, and no text, whatever the transport delivers after it.
pub proof fn lemma_failed_status_single_fatal(status: u16, events: Seq<StreamEvent>)
    requires
        !is_success(status),
    ensures
        stream_items(StreamState::AwaitingStatus, seq![StreamEvent::Status(status)] + events)
            == seq![None::<Seq<char>>],
{
    let all = seq![StreamEvent::Status(status)] + events;
    assert(all[0] == StreamEvent::Status(status));
    assert(all.drop_first() =~= events);
    lemma_finished_stays_silent(events);
    assert(seq![None::<Seq<char>>] + Seq::<Option<Seq<char>>>::empty() =~= seq![None::<Seq<char>>]);
}

/// Whether an item of `items` is fatal.
pub open spec fn has_fatal(items: Seq<Result<String, AppError>>) -> bool {
    exists|i: int| 0 <= i < items.len() && #[trigger] items[i] is Err
}

/// The output of draining `items` in order: the text of every item up to the
/// first fatal one, concatenated.
pub open spec fn drained(items: Seq<Result<String, AppError>>) -> Seq<char>
    decreases items.len(),
{
    if items.len() == 0 {
        Seq::empty()
    } else if has_fatal(items.drop_last()) {
        drained(items.drop_last())
    } else {
        match items.last() {
            Ok(t) => drained(items.drop_last()) + t@,
            Err(_) => drained(items.drop_last()),
        }
    }
}

/// Output gathered from a stream, in arrival order.
pub struct Drain {
    /// Everything emitted so far.
    pub text: String,
    /// Whether a fatal item has arrived.
    pub failed: bool,
}

impl Drain {
    pub fn new() -> (r: Self)
        ensures
            r.text@ == Seq::<char>::empty(),
            !r.failed,
    {
        Drain { text: String::new(), failed: false }
    }

    /// Takes the next item and gives the text to emit now. Text is emitted
    /// verbatim until the first fatal item; nothing is emitted after it, and
    /// nothing already emitted is taken back.
    pub fn accept(&mut self, item: &Result<String, AppError>) -> (emit: Option<String>)
        ensures
            old(self).failed ==> final(self).failed && final(self).text@ == old(self).text@
                && emit is None,
            !old(self).failed ==> (item matches Ok(t) ==> !final(self).failed
                && final(self).text@ == old(self).text@ + t@ && (emit matches Some(x) && x@ == t@)),
            !old(self).failed ==> (item is Err ==> final(self).failed
                && final(self).text@ == old(self).text@ && emit is None),
    {
        if self.failed {
            return None;
        }
        match item {
            Ok(t) => {
                self.text.append(t.as_str());
                Some(String::from_str(t.as_str()))
            },
            Err(_) => {
                self.failed = true;
                None
            },
        }
    }
}

/// Drains `items` in order; the text is that of every item before the first
/// fatal one, with no reordering.
pub fn drain(items: &Vec<Result<String, AppError>>) -> (r: Drain)
    ensures
        r.text@ == drained(items@),
        r.failed == has_fatal(items@),
{
    let mut d = Drain::new();
    let mut k: usize = 0;
    while k < items.len()
        invariant
            k <= items@.len(),
            d.text@ == drained(items@.subrange(0, k as int)),
            d.failed == has_fatal(items@.subrange(0, k as int)),
        decreases items@.len() - k,
    {
        let ghost prev = items@.subrange(0, k as int);
        let ghost next = items@.subrange(0, k + 1);
        assert(next.drop_last() =~= prev);
        assert(next.last() == items@[k as int]);
        let _ = d.accept(&items[k]);
        assert(has_fatal(next) == (has_fatal(prev) || items@[k as int] is Err)) by {
            if has_fatal(prev) {
                let i = choose|i: int| 0 <= i < prev.len() && #[trigger] prev[i] is Err;
                assert(next[i] == prev[i]);
            }
            if items@[k as int] is Err {
                assert(next[k as int] is Err);
            }
            if has_fatal(next) {
                let i = choose|i: int| 0 <= i < next.len() && #[trigger] next[i] is Err;
                if i < k {
                    assert(prev[i] == next[i]);
                }
            }
        }
        k = k + 1;
    }
    assert(items@.subrange(0, k as int) =~= items@);
    d
}

} // verus!
