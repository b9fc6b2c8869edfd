//! Trusted bindings to the outside crates and to the few std items that vstd
//! leaves unspecified. Every contract here is believed, not proved: each doc
//! comment names the upstream function it rests on.

use vstd::prelude::*;

verus! {

// ---------------------------------------------------------------------------
// bytes::Bytes — the reference-counted immutable buffer behind the owned
// representation.
// ---------------------------------------------------------------------------

#[verifier::external_type_specification]
#[verifier::external_body]
pub struct ExBytes(bytes::Bytes);

/// The byte contents of a `bytes::Bytes` buffer, as an abstract sequence.
pub uninterp spec fn bytes_model(b: bytes::Bytes) -> Seq<u8>;

/// Relies on `<bytes::Bytes as From<Vec<u8>>>::from`: the buffer holds exactly
/// the bytes of the vector.
#[verifier::external_body]
pub(crate) fn bytes_from_vec(v: Vec<u8>) -> (b: bytes::Bytes)
    ensures
        bytes_model(b) == v@,
{
    bytes::Bytes::from(v)
}

/// Relies on `<bytes::Bytes as AsRef<[u8]>>::as_ref`: the slice is the whole
/// contents of the buffer.
#[verifier::external_body]
pub(crate) fn bytes_as_slice<'a>(b: &'a bytes::Bytes) -> (s: &'a [u8])
    ensures
        s@ == bytes_model(*b),
{
    b.as_ref()
}

// ---------------------------------------------------------------------------
// std types that vstd leaves unspecified.
// ---------------------------------------------------------------------------

#[verifier::external_type_specification]
#[verifier::external_body]
pub struct ExIoError(std::io::Error);

#[verifier::external_type_specification]
#[verifier::external_body]
pub struct ExContext<'a>(core::task::Context<'a>);

/// Relies on `String::from_utf8`: succeeds exactly on valid UTF-8, decoding
/// the bytes into the characters they encode.
#[verifier::external_body]
pub(crate) fn string_from_utf8(v: Vec<u8>) -> (r: Option<String>)
    ensures
        r matches Some(s) ==> vstd::utf8::valid_utf8(v@) && s@ == vstd::utf8::decode_utf8(v@),
        r is None ==> !vstd::utf8::valid_utf8(v@),
{
    String::from_utf8(v).ok()
}

/// Relies on `u64`'s `Display` implementation through `ToString::to_string`:
/// the plain decimal digits of the value, most significant first.
#[verifier::external_body]
pub(crate) fn u64_dec(n: u64) -> (s: String)
    ensures
        s@ == crate::body::dec_str(n as nat),
{
    n.to_string()
}

// ---------------------------------------------------------------------------
// serde_json — structured decoding of a drained byte buffer.
// ---------------------------------------------------------------------------

#[verifier::external_type_specification]
#[verifier::external_body]
pub struct ExSerdeJsonError(serde_json::Error);

/// Relies on `serde_json::from_slice`: deserializes the bytes into `T` or
/// reports why they do not parse as `T`. Nothing can be stated of an
/// arbitrary `T`, so this carries no contract.
#[verifier::external_body]
pub(crate) fn json_from_slice<T: serde::de::DeserializeOwned>(bytes: &[u8]) -> (r: Result<
    T,
    serde_json::Error,
>) {
    serde_json::from_slice(bytes)
}

/// Relies on `serde_json::Error::io`: wraps an I/O failure as a
/// deserialization error, as draining a source can fail before parsing.
#[verifier::external_body]
pub(crate) fn json_err_from_io(e: std::io::Error) -> (r: serde_json::Error) {
    serde_json::Error::io(e)
}

// ---------------------------------------------------------------------------
// The asynchronous byte source. Verus cannot declare the trait object type
// `Pin<Box<dyn futures_io::AsyncRead + Send>>`, so the source is held inside
// an opaque handle and reached only through the wrappers below.
// ---------------------------------------------------------------------------

/// An exclusively owned, suspend-capable byte source. Opaque: nothing is known
/// of the bytes it will produce, nor whether two polls of it agree.
#[verifier::external_body]
pub struct SourceHandle {
    reader: std::pin::Pin<Box<dyn futures_io::AsyncRead + Send>>,
}

/// Relies on `Box::pin`: takes exclusive ownership of the reader and pins it.
#[verifier::external_body]
pub(crate) fn source_new<R: futures_io::AsyncRead + Send + 'static>(reader: R) -> (h: SourceHandle) {
    SourceHandle { reader: Box::pin(reader) }
}

/// Relies on `futures_io::AsyncRead::poll_read`: on success it reports how
/// many bytes of the scratch buffer were filled, where a well-behaved source
/// stays within the buffer it was handed; suspension and failure are passed
/// on verbatim. The outcome may depend on I/O, so nothing relates one poll to
/// the next.
#[verifier::external_body]
pub(crate) fn source_poll(
    h: &mut SourceHandle,
    cx: &mut core::task::Context<'_>,
    limit: usize,
) -> (r: crate::body::ReadStep)
    ensures
        r matches crate::body::ReadStep::Filled(v) ==> v@.len() <= limit,
{
    let mut buf = vec![0u8; limit];
    match h.reader.as_mut().poll_read(cx, &mut buf) {
        core::task::Poll::Ready(Ok(n)) => {
            buf.truncate(n.min(limit));
            crate::body::ReadStep::Filled(buf)
        }
        core::task::Poll::Ready(Err(e)) => crate::body::ReadStep::Failed(e),
        core::task::Poll::Pending => crate::body::ReadStep::Pending,
    }
}

// ---------------------------------------------------------------------------
// The synchronous-execution bridge: blocks the caller by re-polling the
// source until it completes or fails. Driving a suspend/resume operation to
// completion on a blocking thread is an outside capability; it cannot be a
// verified loop, since nothing bounds how often a source suspends.
// ---------------------------------------------------------------------------

/// Relies on `futures_io::AsyncRead::poll_read` and
/// `futures_util::task::noop_waker`: re-polls the source until it yields up
/// to `limit` bytes or fails, whichever a well-behaved source does first.
#[verifier::external_body]
pub(crate) fn source_read_blocking(h: &mut SourceHandle, limit: usize) -> (r: Result<
    Vec<u8>,
    std::io::Error,
>)
    ensures
        r matches Ok(v) ==> v@.len() <= limit,
{
    let waker = futures_util::task::noop_waker();
    let mut cx = core::task::Context::from_waker(&waker);
    let mut buf = vec![0u8; limit];
    loop {
        match h.reader.as_mut().poll_read(&mut cx, &mut buf) {
            core::task::Poll::Ready(Ok(n)) => {
                buf.truncate(n.min(limit));
                return Ok(buf);
            }
            core::task::Poll::Ready(Err(e)) => return Err(e),
            core::task::Poll::Pending => {}
        }
    }
}

/// Relies on `futures_io::AsyncRead::poll_read` and
/// `futures_util::task::noop_waker`: re-polls the source, appending whatever
/// it produces to `acc`, until it signals end of data or fails. Whatever
/// happens, what was in `acc` stays in place and only new bytes follow it.
#[verifier::external_body]
pub(crate) fn source_read_to_end(h: &mut SourceHandle, acc: &mut Vec<u8>) -> (r: Result<
    (),
    std::io::Error,
>)
    ensures
        final(acc)@.len() >= old(acc)@.len(),
        final(acc)@.subrange(0, old(acc)@.len() as int) == old(acc)@,
{
    let waker = futures_util::task::noop_waker();
    let mut cx = core::task::Context::from_waker(&waker);
    let mut buf = [0u8; 8192];
    loop {
        match h.reader.as_mut().poll_read(&mut cx, &mut buf) {
            core::task::Poll::Ready(Ok(0)) => return Ok(()),
            core::task::Poll::Ready(Ok(n)) => acc.extend_from_slice(&buf[..n.min(8192)]),
            core::task::Poll::Ready(Err(e)) => return Err(e),
            core::task::Poll::Pending => {}
        }
    }
}

} // verus!
