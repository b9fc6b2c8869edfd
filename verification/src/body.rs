//! The payload value: a closed union of four backing representations behind
//! one read / reset / length interface.

use vstd::prelude::*;
use vstd::string::StringExecFns;
use vstd::utf8::decode_utf8;
use vstd::utf8::valid_utf8;
use crate::upstream::{
    bytes_as_slice, bytes_from_vec, bytes_model, json_err_from_io, json_from_slice,
    source_new, source_poll, source_read_blocking, source_read_to_end, string_from_utf8,
    u64_dec, SourceHandle,
};

verus! {

/// How many bytes one poll of a draining read asks for at most.
pub const READ_CHUNK: usize = 8192;

/// Why getting the body as text failed: either its bytes could not be read,
/// or they were read but are not valid UTF-8. The two are kept apart so a
/// caller can tell a transport failure from malformed content.
#[derive(Debug)]
pub enum TextError {
    Io(std::io::Error),
    Decode,
}

/// One step of the suspend/resume read contract: either up to the requested
/// number of bytes were produced (an empty vector means end of data), or the
/// source is not ready yet, or reading failed.
pub enum ReadStep {
    Filled(Vec<u8>),
    Pending,
    Failed(std::io::Error),
}

/// The abstract state of a payload value: which representation is active,
/// what bytes back it, and how far reading has advanced.
///
/// The stream representation carries only its declared length: the bytes an
/// asynchronous source will produce are not knowable up front.
pub enum Repr {
    Empty,
    Borrowed { data: Seq<u8>, pos: nat },
    Owned { data: Seq<u8>, pos: nat },
    Stream { hint: Option<u64> },
}

impl Repr {
    /// The in-memory bytes backing this representation (empty where none are
    /// held in memory).
    pub open spec fn data(self) -> Seq<u8> {
        match self {
            Repr::Empty => Seq::<u8>::empty(),
            Repr::Borrowed { data, .. } => data,
            Repr::Owned { data, .. } => data,
            Repr::Stream { .. } => Seq::<u8>::empty(),
        }
    }

    /// The current read position within the in-memory bytes.
    pub open spec fn pos(self) -> nat {
        match self {
            Repr::Borrowed { pos, .. } => pos,
            Repr::Owned { pos, .. } => pos,
            _ => 0,
        }
    }

    /// The same representation with the read position moved to `p`.
    pub open spec fn with_pos(self, p: nat) -> Repr {
        match self {
            Repr::Borrowed { data, .. } => Repr::Borrowed { data, pos: p },
            Repr::Owned { data, .. } => Repr::Owned { data, pos: p },
            _ => self,
        }
    }

    /// The in-memory bytes still ahead of the read position.
    pub open spec fn remaining(self) -> Seq<u8> {
        self.data().subrange(self.pos() as int, self.data().len() as int)
    }

    /// What `length` reports: exact for in-memory data, the declared hint (if
    /// any) for a stream.
    pub open spec fn length_hint(self) -> Option<u64> {
        match self {
            Repr::Empty => Some(0u64),
            Repr::Borrowed { data, .. } => Some(data.len() as u64),
            Repr::Owned { data, .. } => Some(data.len() as u64),
            Repr::Stream { hint } => hint,
        }
    }

    /// Whether the representation can rewind to its start. A consumed stream
    /// cannot be replayed.
    pub open spec fn rewindable(self) -> bool {
        !(self is Stream)
    }

    /// The representation after a rewind: position restored to the start;
    /// a stream is left as it was.
    pub open spec fn rewound(self) -> Repr {
        if self is Stream {
            self
        } else {
            self.with_pos(0)
        }
    }

    /// Where the read position stands after taking up to `limit` bytes.
    pub open spec fn take_end(self, limit: nat) -> nat {
        if self.pos() + limit <= self.data().len() {
            self.pos() + limit
        } else {
            self.data().len()
        }
    }

    /// The bytes a read of up to `limit` bytes yields from in-memory data.
    pub open spec fn taken(self, limit: nat) -> Seq<u8> {
        self.data().subrange(self.pos() as int, self.take_end(limit) as int)
    }

    /// Validity: the read position never passes the end of the data.
    pub open spec fn wf(self) -> bool {
        self.pos() <= self.data().len()
    }
}

/// All backing representations of a payload.
enum Inner<'b> {
    /// No bytes at all.
    Empty,
    /// A read cursor over a caller-owned byte region.
    Borrowed { data: &'b [u8], pos: usize },
    /// A read cursor over a shareable, immutable in-memory buffer.
    Owned { data: bytes::Bytes, pos: usize },
    /// An exclusively owned asynchronous byte source, with the length its
    /// producer declared, if any.
    Stream { source: SourceHandle, hint: Option<u64> },
}

/// Contains the body of an HTTP request or response.
///
/// The value holds exactly one of four representations — empty, a borrowed
/// byte region, an owned in-memory buffer, or an asynchronous byte source —
/// and every read, rewind and length operation dispatches to the active one.
pub struct Body<'b> {
    inner: Inner<'b>,
}

impl<'b> View for Body<'b> {
    type V = Repr;

    closed spec fn view(&self) -> Repr {
        match self.inner {
            Inner::Empty => Repr::Empty,
            Inner::Borrowed { data, pos } => Repr::Borrowed { data: data@, pos: pos as nat },
            Inner::Owned { data, pos } => Repr::Owned { data: bytes_model(data), pos: pos as nat },
            Inner::Stream { hint, .. } => Repr::Stream { hint },
        }
    }
}

impl Body<'static> {
    /// Create a new body from bytes stored in memory.
    ///
    /// The body has a known length equal to the number of bytes given.
    pub fn bytes(data: Vec<u8>) -> (b: Body<'static>)
        ensures
            b@ == (Repr::Owned { data: data@, pos: 0nat }),
            b@.wf(),
    {
        Body { inner: Inner::Owned { data: bytes_from_vec(data), pos: 0 } }
    }

    /// Create a streaming body that reads from the given source.
    ///
    /// The body has an unknown length.
    pub fn reader<R: futures_io::AsyncRead + Send + 'static>(source: R) -> (b: Body<'static>)
        ensures
            b@ == (Repr::Stream { hint: None }),
            b@.wf(),
    {
        Body { inner: Inner::Stream { source: source_new(source), hint: None } }
    }

    /// Create a streaming body with a declared length.
    ///
    /// The length is a promise by the caller, not checked against what the
    /// source actually produces; a mismatch surfaces only in whatever
    /// transport consumes the body.
    pub fn reader_sized<R: futures_io::AsyncRead + Send + 'static>(source: R, length: u64) -> (b:
        Body<'static>)
        ensures
            b@ == (Repr::Stream { hint: Some(length) }),
            b@.wf(),
    {
        Body { inner: Inner::Stream { source: source_new(source), hint: Some(length) } }
    }

    /// Create a body that shares an existing reference-counted buffer
    /// without copying it.
    pub fn from_shared(data: bytes::Bytes) -> (b: Body<'static>)
        ensures
            b@ == (Repr::Owned { data: bytes_model(data), pos: 0nat }),
            b@.wf(),
    {
        Body { inner: Inner::Owned { data, pos: 0 } }
    }

    /// Create a body from a string, copying its UTF-8 bytes into an owned
    /// buffer.
    pub fn from_text(s: &str) -> (b: Body<'static>)
        ensures
            b@ == (Repr::Owned { data: vstd::utf8::encode_utf8(s@), pos: 0nat }),
            b@.wf(),
    {
        Body::bytes(vstd::slice::slice_to_vec(s.as_bytes()))
    }

    /// Create a body from an owned string, turning it into an owned buffer of
    /// its UTF-8 bytes.
    pub fn from_string(s: String) -> (b: Body<'static>)
        ensures
            b@ == (Repr::Owned { data: vstd::utf8::encode_utf8(s@), pos: 0nat }),
            b@.wf(),
    {
        Body::from_text(s.as_str())
    }
}

impl<'b> Default for Body<'b> {
    /// Default construction yields the empty body.
    fn default() -> (b: Self)
        ensures
            b@ == Repr::Empty,
    {
        Body::empty()
    }
}

impl<'b> Body<'b> {
    /// Create a new empty body, with a known length of 0 bytes.
    pub fn empty() -> (b: Body<'b>)
        ensures
            b@ == Repr::Empty,
            b@.wf(),
    {
        Body { inner: Inner::Empty }
    }

    /// Create a body that reads the given region without copying it; the
    /// region must outlive the body.
    pub fn from_borrowed(data: &'b [u8]) -> (b: Body<'b>)
        ensures
            b@ == (Repr::Borrowed { data: data@, pos: 0nat }),
            b@.wf(),
    {
        Body { inner: Inner::Borrowed { data, pos: 0 } }
    }

    /// Create a body from an optional body: an absent value stands for "no
    /// body supplied" and yields the empty body.
    pub fn from_option(o: Option<Body<'b>>) -> (b: Body<'b>)
        ensures
            match o {
                Some(inner) => b@ == inner@,
                None => b@ == Repr::Empty,
            },
    {
        match o {
            Some(inner) => inner,
            None => Body::empty(),
        }
    }

    /// Get the size of the body: exact for in-memory data, the declared hint
    /// for a stream (`None` when nothing was declared). The hint is never
    /// recomputed from consumption.
    pub fn len(&self) -> (r: Option<u64>)
        requires
            self@.wf(),
        ensures
            r == self@.length_hint(),
    {
        match &self.inner {
            Inner::Empty => Some(0),
            Inner::Borrowed { data, .. } => Some(data.len() as u64),
            Inner::Owned { data, .. } => Some(bytes_as_slice(data).len() as u64),
            Inner::Stream { hint, .. } => *hint,
        }
    }

    /// Report if this body is empty: true exactly when the known length is 0.
    pub fn is_empty(&self) -> (r: bool)
        requires
            self@.wf(),
        ensures
            r == (self@.length_hint() == Some(0u64)),
    {
        match self.len() {
            Some(n) => n == 0,
            None => false,
        }
    }

    /// If this body is repeatable, move the read position back to the start
    /// of the content. Returns `false` if the body cannot rewind: an
    /// asynchronous source never can, however little of it was consumed.
    pub fn reset(&mut self) -> (r: bool)
        requires
            old(self)@.wf(),
        ensures
            r == old(self)@.rewindable(),
            final(self)@ == old(self)@.rewound(),
            final(self)@.wf(),
    {
        match &mut self.inner {
            Inner::Empty => true,
            Inner::Borrowed { pos, .. } => {
                *pos = 0;
                true
            },
            Inner::Owned { pos, .. } => {
                *pos = 0;
                true
            },
            Inner::Stream { .. } => false,
        }
    }

    /// Attempt to read up to `limit` bytes, without ever blocking.
    ///
    /// Empty bodies complete at once with no bytes; in-memory bodies complete
    /// at once with the next bytes of their data, advancing the read position;
    /// a stream forwards its source's answer — progress, suspension or failure
    /// — verbatim, and its declared length never changes.
    pub fn poll_read(&mut self, cx: &mut core::task::Context<'_>, limit: usize) -> (r: ReadStep)
        requires
            old(self)@.wf(),
        ensures
            final(self)@.wf(),
            match old(self)@ {
                Repr::Empty => final(self)@ == old(self)@ && (r matches ReadStep::Filled(v)
                    && v@ == Seq::<u8>::empty()),
                Repr::Borrowed { .. } | Repr::Owned { .. } => (r matches ReadStep::Filled(v)
                    && v@ == old(self)@.taken(limit as nat)) && final(self)@ == old(self)@.with_pos(
                    old(self)@.take_end(limit as nat),
                ),
                Repr::Stream { .. } => final(self)@ == old(self)@ && (r matches ReadStep::Filled(v)
                    ==> v@.len() <= limit),
            },
    {
        match &mut self.inner {
            Inner::Empty => ReadStep::Filled(Vec::new()),
            Inner::Borrowed { data, pos } => ReadStep::Filled(take_at(data, pos, limit)),
            Inner::Owned { data, pos } => {
                let s = bytes_as_slice(data);
                ReadStep::Filled(take_at(s, pos, limit))
            },
            Inner::Stream { source, .. } => source_poll(source, cx, limit),
        }
    }

    /// Read up to `limit` bytes, blocking the calling thread if the source is
    /// not ready. In-memory bodies never suspend, so for them this always
    /// succeeds at once; a stream is driven to completion by the
    /// synchronous-execution bridge.
    pub fn read(&mut self, limit: usize) -> (r: Result<Vec<u8>, std::io::Error>)
        requires
            old(self)@.wf(),
        ensures
            final(self)@.wf(),
            match old(self)@ {
                Repr::Empty => final(self)@ == old(self)@ && (r matches Ok(v) && v@
                    == Seq::<u8>::empty()),
                Repr::Borrowed { .. } | Repr::Owned { .. } => (r matches Ok(v) && v@ == old(
                    self,
                )@.taken(limit as nat)) && final(self)@ == old(self)@.with_pos(
                    old(self)@.take_end(limit as nat),
                ),
                Repr::Stream { .. } => final(self)@ == old(self)@ && (r matches Ok(v) ==> v@.len()
                    <= limit),
            },
    {
        match &mut self.inner {
            Inner::Empty => Ok(Vec::new()),
            Inner::Borrowed { data, pos } => Ok(take_at(data, pos, limit)),
            Inner::Owned { data, pos } => {
                let s = bytes_as_slice(data);
                Ok(take_at(s, pos, limit))
            },
            Inner::Stream { source, .. } => source_read_blocking(source, limit),
        }
    }

    /// Drain every byte still ahead of the read position. For in-memory data
    /// this is the rest of the buffer, taken at once; a stream is read to its
    /// end through the blocking bridge.
    fn drain_all(&mut self) -> (r: Result<Vec<u8>, std::io::Error>)
        requires
            old(self)@.wf(),
        ensures
            final(self)@.wf(),
            match old(self)@ {
                Repr::Stream { .. } => final(self)@ == old(self)@,
                _ => (r matches Ok(v) && v@ == old(self)@.remaining()) && final(self)@ == old(
                    self,
                )@.with_pos(old(self)@.data().len()),
            },
    {
        match &mut self.inner {
            Inner::Empty => Ok(Vec::new()),
            Inner::Borrowed { data, pos } => {
                let n = data.len();
                Ok(take_at(data, pos, n))
            },
            Inner::Owned { data, pos } => {
                let s = bytes_as_slice(data);
                let n = s.len();
                Ok(take_at(s, pos, n))
            },
            Inner::Stream { source, .. } => {
                let mut acc: Vec<u8> = Vec::new();
                match source_read_to_end(source, &mut acc) {
                    Ok(()) => Ok(acc),
                    Err(e) => Err(e),
                }
            },
        }
    }

    /// Get the body as a string, blocking until all remaining bytes are
    /// drained and decoding them as UTF-8.
    ///
    /// Draining moves the read position to the end, so a second call returns
    /// an empty string unless the body was `reset` in between.
    pub fn text(&mut self) -> (r: Result<String, TextError>)
        requires
            old(self)@.wf(),
        ensures
            final(self)@.wf(),
            match old(self)@ {
                Repr::Stream { .. } => final(self)@ == old(self)@,
                _ => {
                    &&& final(self)@ == old(self)@.with_pos(old(self)@.data().len())
                    &&& (if valid_utf8(old(self)@.remaining()) {
                        r matches Ok(s) && s@ == decode_utf8(old(self)@.remaining())
                    } else {
                        r matches Err(e) && e is Decode
                    })
                },
            },
    {
        let bytes = match self.drain_all() {
            Ok(b) => b,
            Err(e) => {
                return Err(TextError::Io(e));
            },
        };
        match string_from_utf8(bytes) {
            Some(s) => Ok(s),
            None => Err(TextError::Decode),
        }
    }

    /// Deserialize the remaining bytes of the body as JSON into `T`,
    /// blocking until they are drained. A failure to read and a failure to
    /// parse both surface as the deserialization error type.
    pub fn json<T: serde::de::DeserializeOwned>(&mut self) -> (r: Result<T, serde_json::Error>)
        requires
            old(self)@.wf(),
        ensures
            final(self)@.wf(),
            match old(self)@ {
                Repr::Stream { .. } => final(self)@ == old(self)@,
                _ => final(self)@ == old(self)@.with_pos(old(self)@.data().len()),
            },
    {
        let bytes = match self.drain_all() {
            Ok(b) => b,
            Err(e) => {
                return Err(json_err_from_io(e));
            },
        };
        json_from_slice(bytes.as_slice())
    }

    /// A diagnostic rendering: the known length in parentheses, or a question
    /// mark when the length is unknown. Never touches the body's content.
    pub fn describe(&self) -> (r: String)
        requires
            self@.wf(),
        ensures
            r@ == rendered(self@.length_hint()),
    {
        match self.len() {
            Some(n) => {
                let mut s = String::from_str("Body(");
                let num = u64_dec(n);
                s.append(num.as_str());
                s.append(")");
                s
            },
            None => String::from_str("Body(?)"),
        }
    }
}

/// The decimal digit character for a value below ten.
pub open spec fn dec_digit(d: nat) -> char {
    ((('0' as u8) + d) as u8) as char
}

/// The decimal digits of a number, most significant first.
pub open spec fn dec_str(n: nat) -> Seq<char>
    decreases n,
{
    if n < 10 {
        seq![dec_digit(n)]
    } else {
        dec_str(n / 10).push(dec_digit(n % 10))
    }
}

/// What the diagnostic rendering shows for a known or unknown length.
pub open spec fn rendered(hint: Option<u64>) -> Seq<char> {
    match hint {
        Some(n) => "Body("@ + dec_str(n as nat) + ")"@,
        None => "Body(?)"@,
    }
}

/// The answer of one collecting poll: the final text (or failure), or a call
/// for another poll after progress was made, or a suspension to be resumed by
/// the scheduler once the source is ready.
pub enum TextPoll {
    Ready(Result<String, TextError>),
    Again,
    Pending,
}

/// Collects a body's remaining bytes poll by poll, for getting its text
/// without blocking: a cooperative scheduler (or a future wrapped around
/// this) calls [`TextDrain::poll_collect`] until it answers `Ready`. Its view
/// is the bytes collected so far.
pub struct TextDrain {
    buf: Vec<u8>,
}

impl View for TextDrain {
    type V = Seq<u8>;

    closed spec fn view(&self) -> Seq<u8> {
        self.buf@
    }
}

impl TextDrain {
    /// A collector that has seen no bytes yet.
    pub fn new() -> (d: TextDrain)
        ensures
            d@ == Seq::<u8>::empty(),
    {
        TextDrain { buf: Vec::new() }
    }

    /// One step of draining `body` as text: poll for the next bytes; on end
    /// of data, decode everything collected as UTF-8. Suspension and failure
    /// of the source pass through. Never blocks.
    pub fn poll_collect(&mut self, body: &mut Body<'_>, cx: &mut core::task::Context<'_>) -> (r:
        TextPoll)
        requires
            old(body)@.wf(),
        ensures
            final(body)@.wf(),
            match old(body)@ {
                Repr::Stream { .. } => {
                    &&& final(body)@ == old(body)@
                    &&& (r is Again ==> final(self)@.len() > old(self)@.len()
                        && final(self)@.subrange(0, old(self)@.len() as int) == old(self)@)
                    &&& (r is Pending ==> final(self)@ == old(self)@)
                    &&& (r matches TextPoll::Ready(res) ==> final(self)@ == Seq::<u8>::empty() && (
                    res matches Ok(s) ==> valid_utf8(old(self)@) && s@ == decode_utf8(old(self)@)))
                },
                _ => {
                    if old(body)@.remaining().len() == 0 {
                        &&& final(body)@ == old(body)@
                        &&& final(self)@ == Seq::<u8>::empty()
                        &&& (r matches TextPoll::Ready(res) && (if valid_utf8(old(self)@) {
                            res matches Ok(s) && s@ == decode_utf8(old(self)@)
                        } else {
                            res matches Err(e) && e is Decode
                        }))
                    } else {
                        &&& r is Again
                        &&& final(body)@ == old(body)@.with_pos(
                            old(body)@.take_end(READ_CHUNK as nat),
                        )
                        &&& final(self)@ == old(self)@ + old(body)@.taken(READ_CHUNK as nat)
                    }
                },
            },
    {
        match body.poll_read(cx, READ_CHUNK) {
            ReadStep::Filled(mut v) => {
                if v.len() == 0 {
                    let mut taken: Vec<u8> = Vec::new();
                    core::mem::swap(&mut taken, &mut self.buf);
                    match string_from_utf8(taken) {
                        Some(s) => TextPoll::Ready(Ok(s)),
                        None => TextPoll::Ready(Err(TextError::Decode)),
                    }
                } else {
                    self.buf.append(&mut v);
                    TextPoll::Again
                }
            },
            ReadStep::Pending => TextPoll::Pending,
            ReadStep::Failed(e) => {
                self.buf.clear();
                TextPoll::Ready(Err(TextError::Io(e)))
            },
        }
    }
}

/// Copy up to `limit` bytes of `data` starting at `*pos`, advancing `*pos`
/// past what was copied.
fn take_at(data: &[u8], pos: &mut usize, limit: usize) -> (v: Vec<u8>)
    requires
        *old(pos) <= data@.len(),
    ensures
        *final(pos) <= data@.len(),
        *final(pos) == if *old(pos) + limit <= data@.len() {
            *old(pos) + limit
        } else {
            data@.len() as int
        },
        v@ == data@.subrange(*old(pos) as int, *final(pos) as int),
{
    let n = data.len();
    let start = *pos;
    let end = if limit <= n - start {
        start + limit
    } else {
        n
    };
    *pos = end;
    vstd::slice::slice_to_vec(&data[start..end])
}

/// Rewind law: rewinding a rewindable representation keeps its data and its
/// reported length, and puts the full data ahead of the read position again —
/// so reading to exhaustion and then resetting restores the ability to
/// re-read the identical byte sequence from the start.
pub proof fn lemma_rewind_restores_all(r: Repr)
    requires
        r.wf(),
        r.rewindable(),
    ensures
        r.rewound().wf(),
        r.rewound().data() == r.data(),
        r.rewound().length_hint() == r.length_hint(),
        r.rewound().remaining() == r.data(),
{
    assert(r.rewound().remaining() =~= r.data());
}

/// Text round-trip law: the UTF-8 bytes of any string are valid UTF-8 and
/// decode back to that same string — so draining the text of a body built
/// from a string returns exactly that string.
pub proof fn lemma_text_round_trip(s: Seq<char>)
    ensures
        valid_utf8(vstd::utf8::encode_utf8(s)),
        decode_utf8(vstd::utf8::encode_utf8(s)) == s,
{
    broadcast use vstd::utf8::encode_utf8_valid_utf8;
    broadcast use vstd::utf8::encode_utf8_decode_utf8;
}

/// Exhaustion law: once the read position stands at the end of the data,
/// nothing remains, and the empty byte sequence is valid UTF-8 decoding to
/// the empty string — so a second `text` call without a reset returns `""`.
pub proof fn lemma_drained_reads_empty(r: Repr)
    requires
        r.wf(),
    ensures
        r.with_pos(r.data().len()).remaining() == Seq::<u8>::empty(),
        valid_utf8(Seq::<u8>::empty()),
        decode_utf8(Seq::<u8>::empty()) == Seq::<char>::empty(),
{
    assert(r.with_pos(r.data().len()).remaining() =~= Seq::<u8>::empty());
    assert(decode_utf8(Seq::<u8>::empty()) =~= Seq::<char>::empty());
}

/// Exact-length law: every representation built from in-memory data reports
/// exactly its byte count, however far reading has advanced — the length is
/// never recomputed from consumption.
pub proof fn lemma_in_memory_exact_length(r: Repr, p: nat)
    requires
        !(r is Stream),
    ensures
        r.length_hint() == Some(r.data().len() as u64),
        r.with_pos(p).length_hint() == r.length_hint(),
{
}

/// Empty-representation law: the empty body always reports length 0, always
/// counts as empty, and can always rewind — a rewind leaves it unchanged.
pub proof fn lemma_empty_always_resettable()
    ensures
        Repr::Empty.length_hint() == Some(0u64),
        Repr::Empty.rewindable(),
        Repr::Empty.rewound() == Repr::Empty,
        Repr::Empty.remaining() == Seq::<u8>::empty(),
        Repr::Empty.wf(),
{
    assert(Repr::Empty.remaining() =~= Seq::<u8>::empty());
}

/// Sequential-read law: a read takes exactly the next bytes and moves the
/// position past them and never backwards, so two consecutive reads
/// concatenate to what one read of the combined size would have taken.
pub proof fn lemma_sequential_reads(r: Repr, a: nat, b: nat)
    requires
        r.wf(),
    ensures
        r.with_pos(r.take_end(a)).wf(),
        r.take_end(a) >= r.pos(),
        r.with_pos(r.take_end(a)).take_end(b) == r.take_end(a + b),
        r.taken(a) + r.with_pos(r.take_end(a)).taken(b) == r.taken(a + b),
{
    assert(r.taken(a) + r.with_pos(r.take_end(a)).taken(b) =~= r.taken(a + b));
}

/// Stream-hint law: a stream reports whatever length was declared at
/// construction, never rewinds, and keeps its hint whatever is read from it.
pub proof fn lemma_stream_hint_fixed(hint: Option<u64>, p: nat)
    ensures
        (Repr::Stream { hint }).length_hint() == hint,
        !(Repr::Stream { hint }).rewindable(),
        (Repr::Stream { hint }).with_pos(p) == (Repr::Stream { hint }),
{
}

} // verus!

