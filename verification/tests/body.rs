use payload::Body;
use payload::ReadStep;
use payload::TextDrain;
use payload::TextError;
use payload::TextPoll;

fn is_send<T: Send>() {}

#[test]
fn traits() {
    is_send::<Body>();
}

struct FailReader;

impl futures_io::AsyncRead for FailReader {
    fn poll_read(
        self: std::pin::Pin<&mut Self>,
        _cx: &mut std::task::Context<'_>,
        _buf: &mut [u8],
    ) -> std::task::Poll<std::io::Result<usize>> {
        std::task::Poll::Ready(Err(std::io::Error::new(std::io::ErrorKind::Other, "boom")))
    }
}

struct PendingOnce {
    polled: bool,
    data: Vec<u8>,
    pos: usize,
}

impl PendingOnce {
    fn new(data: Vec<u8>) -> Self {
        PendingOnce { polled: false, data, pos: 0 }
    }
}

impl futures_io::AsyncRead for PendingOnce {
    fn poll_read(
        self: std::pin::Pin<&mut Self>,
        _cx: &mut std::task::Context<'_>,
        buf: &mut [u8],
    ) -> std::task::Poll<std::io::Result<usize>> {
        let this = self.get_mut();
        if !this.polled {
            this.polled = true;
            return std::task::Poll::Pending;
        }
        let n = (this.data.len() - this.pos).min(buf.len());
        buf[..n].copy_from_slice(&this.data[this.pos..this.pos + n]);
        this.pos += n;
        std::task::Poll::Ready(Ok(n))
    }
}

#[test]
fn bytes_scenario() {
    let mut b = Body::bytes(vec![0x41, 0x42, 0x43]);
    assert_eq!(b.len(), Some(3));
    assert_eq!(b.text().unwrap(), "ABC");
    assert_eq!(b.text().unwrap(), "");
    assert!(b.reset());
    assert_eq!(b.text().unwrap(), "ABC");
}

#[test]
fn empty_scenario() {
    let mut b = Body::empty();
    assert_eq!(b.len(), Some(0));
    assert!(b.is_empty());
    let chunk = b.read(1024).unwrap();
    assert_eq!(chunk.len(), 0);
    assert!(b.reset());
    assert!(b.is_empty());
}

#[test]
fn borrowed_scenario() {
    let data = [0x00u8, 0xFF];
    let mut b = Body::from_borrowed(&data);
    let first = b.read(1024).unwrap();
    assert_eq!(first, vec![0x00, 0xFF]);
    let second = b.read(1024).unwrap();
    assert_eq!(second.len(), 0);
    assert_eq!(b.len(), Some(2));
}

#[test]
fn in_memory_lengths_exact_and_stable() {
    let owned = Body::bytes(vec![1, 2, 3, 4]);
    assert_eq!(owned.len(), Some(4));
    assert_eq!(owned.len(), Some(4));
    let text = Body::from_text("héllo");
    assert_eq!(text.len(), Some("héllo".len() as u64));
    assert_eq!(text.len(), Some(6));
    let string = Body::from_string(String::from("xy"));
    assert_eq!(string.len(), Some(2));
    let region = [9u8; 5];
    let borrowed = Body::from_borrowed(&region);
    assert_eq!(borrowed.len(), Some(5));
    assert_eq!(borrowed.len(), Some(5));
    assert!(!borrowed.is_empty());
}

#[test]
fn empty_always_resets() {
    let mut b = Body::empty();
    assert!(b.reset());
    let _ = b.read(16).unwrap();
    assert!(b.reset());
    assert!(b.is_empty());
}

#[test]
fn reset_round_trip_owned() {
    let mut b = Body::bytes(vec![7, 8, 9]);
    let all = b.read(100).unwrap();
    assert_eq!(all, vec![7, 8, 9]);
    assert!(b.reset());
    let again = b.read(100).unwrap();
    assert_eq!(again, vec![7, 8, 9]);
}

#[test]
fn reset_round_trip_borrowed_mid_read() {
    let data = [1u8, 2, 3, 4];
    let mut b = Body::from_borrowed(&data);
    let head = b.read(1).unwrap();
    assert_eq!(head, vec![1]);
    assert!(b.reset());
    let all = b.read(10).unwrap();
    assert_eq!(all, vec![1, 2, 3, 4]);
}

#[test]
fn stream_never_resets() {
    let mut b = Body::reader(futures_util::io::Cursor::new(vec![1u8, 2, 3]));
    assert!(!b.reset());
    let _ = b.read(2).unwrap();
    assert!(!b.reset());
}

#[test]
fn owned_text_round_trip() {
    let mut b = Body::from_string(String::from("héllo wörld"));
    assert_eq!(b.text().unwrap(), "héllo wörld");
    assert_eq!(b.text().unwrap(), "");
}

#[test]
fn sized_stream_keeps_declared_length() {
    let mut b = Body::reader_sized(futures_util::io::Cursor::new(vec![0u8; 5]), 42);
    assert_eq!(b.len(), Some(42));
    assert!(!b.is_empty());
    let drained = b.read(100).unwrap();
    assert_eq!(drained.len(), 5);
    assert_eq!(b.len(), Some(42));
}

#[test]
fn unsized_stream_has_no_length() {
    let b = Body::reader(futures_util::io::Cursor::new(vec![1u8]));
    assert_eq!(b.len(), None);
    assert!(!b.is_empty());
}

#[test]
fn stream_blocking_reads_in_chunks() {
    let mut b = Body::reader(futures_util::io::Cursor::new(vec![1u8, 2, 3]));
    assert_eq!(b.read(2).unwrap(), vec![1, 2]);
    assert_eq!(b.read(2).unwrap(), vec![3]);
    assert_eq!(b.read(2).unwrap(), Vec::<u8>::new());
}

#[test]
fn stream_pending_is_driven_to_completion() {
    let mut b = Body::reader(PendingOnce::new(vec![5u8, 6]));
    assert_eq!(b.read(8).unwrap(), vec![5, 6]);
    let mut t = Body::reader(PendingOnce::new(vec![0x68, 0x69]));
    assert_eq!(t.text().unwrap(), "hi");
}

#[test]
fn invalid_utf8_is_a_decode_error() {
    let mut b = Body::bytes(vec![0xFF, 0xFE, 0xFD]);
    let r = b.text();
    assert!(matches!(r, Err(TextError::Decode)));
}

#[test]
fn failing_stream_reports_io_error() {
    let mut b = Body::reader(FailReader);
    assert!(b.read(4).is_err());
    let mut t = Body::reader(FailReader);
    assert!(matches!(t.text(), Err(TextError::Io(_))));
}

#[test]
fn json_parses_structured_content() {
    let mut b = Body::bytes(b"[1,2,3]".to_vec());
    let v: serde_json::Value = b.json().unwrap();
    let arr = v.as_array().unwrap();
    assert_eq!(arr.len(), 3);
    assert_eq!(arr[0].as_i64(), Some(1));
    assert_eq!(arr[2].as_i64(), Some(3));
}

#[test]
fn json_malformed_is_an_error() {
    let mut b = Body::bytes(b"{oops".to_vec());
    let r: Result<serde_json::Value, serde_json::Error> = b.json();
    assert!(r.is_err());
}

#[test]
fn json_read_failure_is_an_io_error() {
    let mut b = Body::reader(FailReader);
    let r: Result<serde_json::Value, serde_json::Error> = b.json();
    assert!(r.unwrap_err().is_io());
}

#[test]
fn describe_reports_length_or_placeholder() {
    assert_eq!(Body::bytes(vec![1, 2, 3]).describe(), "Body(3)");
    assert_eq!(Body::empty().describe(), "Body(0)");
    assert_eq!(Body::reader(FailReader).describe(), "Body(?)");
    assert_eq!(
        Body::reader_sized(futures_util::io::Cursor::new(vec![0u8]), 42).describe(),
        "Body(42)"
    );
    assert_eq!(
        Body::reader_sized(futures_util::io::Cursor::new(vec![0u8]), 1234567890).describe(),
        "Body(1234567890)"
    );
}

#[test]
fn option_and_default_yield_empty() {
    let b = Body::from_option(None);
    assert_eq!(b.len(), Some(0));
    let kept = Body::from_option(Some(Body::bytes(vec![1, 2])));
    assert_eq!(kept.len(), Some(2));
    let d = Body::default();
    assert!(d.is_empty());
}

#[test]
fn zero_limit_reads_nothing_and_keeps_position() {
    let mut b = Body::bytes(vec![1, 2, 3]);
    assert_eq!(b.read(0).unwrap(), Vec::<u8>::new());
    assert_eq!(b.read(10).unwrap(), vec![1, 2, 3]);
}

#[test]
fn shared_buffer_body_reads_its_bytes() {
    let shared = bytes::Bytes::from(vec![0x68, 0x69]);
    let mut a = Body::from_shared(shared.clone());
    let mut b = Body::from_shared(shared);
    assert_eq!(a.len(), Some(2));
    assert_eq!(a.text().unwrap(), "hi");
    assert_eq!(b.text().unwrap(), "hi");
}

#[test]
fn poll_read_respects_limit() {
    let waker = futures_util::task::noop_waker();
    let mut cx = std::task::Context::from_waker(&waker);
    let mut b = Body::bytes(vec![1, 2, 3, 4, 5]);
    match b.poll_read(&mut cx, 2) {
        ReadStep::Filled(v) => assert_eq!(v, vec![1, 2]),
        _ => panic!("in-memory bodies complete at once"),
    }
    match b.poll_read(&mut cx, 10) {
        ReadStep::Filled(v) => assert_eq!(v, vec![3, 4, 5]),
        _ => panic!("in-memory bodies complete at once"),
    }
    match b.poll_read(&mut cx, 10) {
        ReadStep::Filled(v) => assert!(v.is_empty()),
        _ => panic!("in-memory bodies complete at once"),
    }
}

#[test]
fn text_drain_collects_poll_by_poll() {
    let waker = futures_util::task::noop_waker();
    let mut cx = std::task::Context::from_waker(&waker);
    let mut b = Body::from_text("poll me");
    let mut d = TextDrain::new();
    let mut answer = None;
    for _ in 0..16 {
        match d.poll_collect(&mut b, &mut cx) {
            TextPoll::Ready(r) => {
                answer = Some(r);
                break;
            }
            TextPoll::Again => {}
            TextPoll::Pending => {}
        }
    }
    assert_eq!(answer.unwrap().unwrap(), "poll me");
}

#[test]
fn text_drain_collects_from_stream() {
    let waker = futures_util::task::noop_waker();
    let mut cx = std::task::Context::from_waker(&waker);
    let mut b = Body::reader(PendingOnce::new(vec![0x6F, 0x6B]));
    let mut d = TextDrain::new();
    let mut answer = None;
    for _ in 0..16 {
        match d.poll_collect(&mut b, &mut cx) {
            TextPoll::Ready(r) => {
                answer = Some(r);
                break;
            }
            TextPoll::Again => {}
            TextPoll::Pending => {}
        }
    }
    assert_eq!(answer.unwrap().unwrap(), "ok");
}
