use vstd::prelude::*;
use crate::error::{AdapterError, ErrorKind};

verus! {

/// A record as the client library delivers it.
#[derive(Clone, Debug)]
pub struct RecordParts {
    pub offset: i64,
    pub partition: u32,
    pub key: Option<Vec<u8>>,
    pub value: Vec<u8>,
    pub timestamp: i64,
}

/// What one bounded wait on the stream produced.
#[derive(Clone, Debug)]
pub enum PullEvent {
    /// The deadline passed before a record arrived.
    Elapsed,
    /// A record arrived.
    Arrived(RecordParts),
    /// The stream reported an error.
    Failed(String),
    /// The stream has ended.
    Ended,
}

/// A record as the host receives it: the value decoded as text.
#[derive(Clone, Debug)]
pub struct RecordReply {
    pub offset: i64,
    pub partition: u32,
    pub key: Option<Vec<u8>>,
    pub value: String,
    pub timestamp: i64,
}

/// The successful outcomes of a pull.
#[derive(Clone, Debug)]
pub enum NextReply {
    Record(RecordReply),
    StopNext,
}

/// What invalid UTF-8 sequences become under replacement decoding.
pub uninterp spec fn utf8_lossy_of(b: Seq<u8>) -> Seq<char>;

pub open spec fn is_ascii_bytes(b: Seq<u8>) -> bool {
    forall|i: int| 0 <= i < b.len() ==> b[i] < 128
}

/// Whether the text `t` holds the same characters as the ASCII bytes `b`.
pub open spec fn same_ascii_text(t: Seq<char>, b: Seq<u8>) -> bool {
    t.len() == b.len() && forall|i: int| 0 <= i < b.len() ==> #[trigger] t[i] as u32 == b[i] as u32
}

/// Relies on String::from_utf8_lossy: the text depends on the bytes alone,
/// and valid UTF-8 (ASCII in particular) is kept as it is.
#[verifier::external_body]
fn decode_lossy(b: &[u8]) -> (r: String)
    ensures
        r@ == utf8_lossy_of(b@),
        is_ascii_bytes(b@) ==> same_ascii_text(r@, b@),
{
    String::from_utf8_lossy(b).into_owned()
}

/// Whether `r` presents the record `p` with its value decoded as `text`.
pub open spec fn presents(r: RecordReply, p: RecordParts, text: Seq<char>) -> bool {
    &&& r.offset == p.offset
    &&& r.partition == p.partition
    &&& r.key == p.key
    &&& r.value@ == text
    &&& r.timestamp == p.timestamp
}

/// Assembles the host's record from the delivered one and its decoded value.
pub fn record_reply(parts: RecordParts, text: String) -> (r: RecordReply)
    ensures
        presents(r, parts, text@),
{
    RecordReply {
        offset: parts.offset,
        partition: parts.partition,
        key: parts.key,
        value: text,
        timestamp: parts.timestamp,
    }
}

/// Presents a delivered record to the host.
pub fn decode_record(parts: RecordParts) -> (r: RecordReply)
    ensures
        presents(r, parts, utf8_lossy_of(parts.value@)),
        is_ascii_bytes(parts.value@) ==> same_ascii_text(r.value@, parts.value@),
{
    let text = decode_lossy(parts.value.as_slice());
    record_reply(parts, text)
}

/// The state of a consumer's stream as the adapter sees it.
pub struct ConsumerCursor {
    /// Set once the stream failed or ended.
    pub exhausted: bool,
    /// How many records have been handed to the host.
    pub position: Ghost<nat>,
}

/// The abstract state of a cursor: whether it is exhausted, and its position.
pub open spec fn state_of(c: ConsumerCursor) -> (bool, nat) {
    (c.exhausted, c.position@)
}

/// The state after one event.
pub open spec fn step(s: (bool, nat), e: PullEvent) -> (bool, nat) {
    if s.0 {
        s
    } else {
        match e {
            PullEvent::Elapsed => s,
            PullEvent::Arrived(_) => (false, s.1 + 1),
            PullEvent::Failed(_) => (true, s.1),
            PullEvent::Ended => (true, s.1),
        }
    }
}

/// Whether `r` is the answer to event `e` in state `s`.
pub open spec fn answers(s: (bool, nat), e: PullEvent, r: Result<NextReply, AdapterError>) -> bool {
    if s.0 {
        r matches Err(AdapterError::StreamEnded)
    } else {
        match e {
            PullEvent::Elapsed => r matches Ok(NextReply::StopNext),
            PullEvent::Arrived(p) => r matches Ok(NextReply::Record(rec)) && presents(
                rec,
                p,
                utf8_lossy_of(p.value@),
            ) && (is_ascii_bytes(p.value@) ==> same_ascii_text(rec.value@, p.value@)),
            PullEvent::Failed(m) => r matches Err(AdapterError::Client(k, t)) && k
                == ErrorKind::BrokerError && t@ == m@,
            PullEvent::Ended => r matches Err(AdapterError::StreamEnded),
        }
    }
}

impl ConsumerCursor {
    /// A cursor on a freshly opened stream.
    pub fn new() -> (r: ConsumerCursor)
        ensures
            state_of(r) == (false, 0nat),
    {
        ConsumerCursor { exhausted: false, position: Ghost(0) }
    }

    /// Decides the reply to one bounded wait on the stream and advances the
    /// cursor: a record moves it by one, a passed deadline leaves it as it
    /// was, and a failure or the end exhausts it.
    pub fn pull(&mut self, event: PullEvent) -> (r: Result<NextReply, AdapterError>)
        ensures
            state_of(*final(self)) == step(state_of(*old(self)), event),
            answers(state_of(*old(self)), event, r),
    {
        if self.exhausted {
            return Err(AdapterError::StreamEnded);
        }
        match event {
            PullEvent::Elapsed => Ok(NextReply::StopNext),
            PullEvent::Arrived(parts) => {
                self.position = Ghost(self.position@ + 1);
                Ok(NextReply::Record(decode_record(parts)))
            },
            PullEvent::Failed(msg) => {
                self.exhausted = true;
                Err(AdapterError::Client(ErrorKind::BrokerError, msg))
            },
            PullEvent::Ended => {
                self.exhausted = true;
                Err(AdapterError::StreamEnded)
            },
        }
    }
}

/// The state after a sequence of events.
pub open spec fn run(s: (bool, nat), es: Seq<PullEvent>) -> (bool, nat)
    decreases es.len(),
{
    if es.len() == 0 {
        s
    } else {
        run(step(s, es[0]), es.drop_first())
    }
}

/// The records handed to the host over a sequence of events.
pub open spec fn delivered(s: (bool, nat), es: Seq<PullEvent>) -> Seq<RecordParts>
    decreases es.len(),
{
    if es.len() == 0 {
        Seq::empty()
    } else {
        let head = if !s.0 && es[0] is Arrived {
            seq![es[0]->Arrived_0]
        } else {
            Seq::empty()
        };
        head + delivered(step(s, es[0]), es.drop_first())
    }
}

/// Whether every record that arrives while the cursor is open is the
/// stream's record at the cursor's position.
pub open spec fn follows(stream: Seq<RecordParts>, s: (bool, nat), es: Seq<PullEvent>) -> bool
    decreases es.len(),
{
    if es.len() == 0 {
        true
    } else {
        &&& (!s.0 && es[0] is Arrived) ==> s.1 < stream.len() && es[0]->Arrived_0 == stream[s.1 as int]
        &&& follows(stream, step(s, es[0]), es.drop_first())
    }
}

/// Pulls on one cursor hand out the stream's records in stream order, from
/// the cursor's position on, each once and with none skipped, whatever
/// deadlines pass in between.
pub proof fn lemma_pulls_follow_stream(stream: Seq<RecordParts>, s: (bool, nat), es: Seq<PullEvent>)
    requires
        s.1 <= stream.len(),
        follows(stream, s, es),
    ensures
        s.1 <= run(s, es).1 <= stream.len(),
        delivered(s, es) == stream.subrange(s.1 as int, run(s, es).1 as int),
    decreases es.len(),
{
    if es.len() == 0 {
        assert(stream.subrange(s.1 as int, s.1 as int) =~= Seq::<RecordParts>::empty());
    } else {
        let t = step(s, es[0]);
        lemma_pulls_follow_stream(stream, t, es.drop_first());
        if !s.0 && es[0] is Arrived {
            assert(stream.subrange(s.1 as int, run(s, es).1 as int) =~= seq![stream[s.1 as int]]
                + stream.subrange(t.1 as int, run(t, es.drop_first()).1 as int));
        } else {
            assert(delivered(s, es) =~= delivered(t, es.drop_first()));
        }
    }
}

/// A pull whose deadline passes leaves the cursor where it was: whatever
/// follows hands out the same records and reaches the same state as it
/// would have without it.
pub proof fn lemma_stop_next_keeps_position(s: (bool, nat), es: Seq<PullEvent>)
    ensures
        step(s, PullEvent::Elapsed) == s,
        run(s, seq![PullEvent::Elapsed] + es) == run(s, es),
        delivered(s, seq![PullEvent::Elapsed] + es) == delivered(s, es),
{
    let all = seq![PullEvent::Elapsed] + es;
    assert(all.drop_first() =~= es);
    assert(delivered(s, all) =~= delivered(s, es));
}

} // verus!
