use microbit_core::session::{echo_reply, overflow_notice_text, ReverseSession};

fn feed(s: &mut ReverseSession, input: &[u8]) -> (Vec<u8>, usize) {
    let mut out = Vec::new();
    let mut flushes = 0;
    for &b in input {
        let r = s.on_byte(b);
        out.extend_from_slice(&r.bytes);
        if r.flush {
            flushes += 1;
        }
    }
    (out, flushes)
}

#[test]
fn abc_line_comes_back_reversed() {
    let mut s = ReverseSession::new();
    let (out, flushes) = feed(&mut s, b"abc\r");
    assert_eq!(out, b"cba".to_vec());
    assert_eq!(flushes, 1);
    assert!(s.buffer().is_empty());
    assert!(!s.is_discarding());
}

#[test]
fn terminator_flushes_after_reversed_bytes() {
    let mut s = ReverseSession::new();
    assert!(s.on_byte(b'a').bytes.is_empty());
    assert!(!s.on_byte(b'b').flush);
    let r = s.on_byte(b'\r');
    assert_eq!(r.bytes, b"ba".to_vec());
    assert!(r.flush);
}

#[test]
fn forty_bytes_give_one_overflow_notice() {
    let mut s = ReverseSession::new();
    let input = vec![b'a'; 40];
    let mut notices = 0;
    for (i, &b) in input.iter().enumerate() {
        let r = s.on_byte(b);
        if !r.bytes.is_empty() {
            notices += 1;
            assert_eq!(i, 32);
            assert_eq!(r.bytes, overflow_notice_text().as_bytes().to_vec());
            assert!(r.flush);
        }
    }
    assert_eq!(notices, 1);
    assert_eq!(s.buffer().len(), 32);
    assert!(s.buffer().emit(microbit_core::line_buffer::Order::Forward).iter().all(|&b| b == b'a'));
    assert!(s.is_discarding());
    let r = s.on_byte(b'\r');
    assert_eq!(r.bytes, vec![b'a'; 32]);
    assert!(r.flush);
    assert!(s.buffer().is_empty());
    assert!(!s.is_discarding());
}

#[test]
fn next_line_after_overflow_starts_clean() {
    let mut s = ReverseSession::new();
    let mut input: Vec<u8> = (0u8..33).map(|i| b'0' + (i % 10)).collect();
    input.extend_from_slice(b"zz\rxy\r");
    let (out, flushes) = feed(&mut s, &input);
    let mut expected = b"Buffer full. Please try again.\r\n".to_vec();
    let mut kept: Vec<u8> = (0u8..32).map(|i| b'0' + (i % 10)).collect();
    kept.reverse();
    expected.extend_from_slice(&kept);
    expected.extend_from_slice(b"yx");
    assert_eq!(out, expected);
    assert_eq!(flushes, 3);
}

#[test]
fn empty_line_sends_nothing_but_flushes() {
    let mut s = ReverseSession::new();
    let r = s.on_byte(b'\r');
    assert!(r.bytes.is_empty());
    assert!(r.flush);
}

#[test]
fn overflow_notice_is_verbatim() {
    assert_eq!(overflow_notice_text(), "Buffer full. Please try again.\r\n");
}

#[test]
fn echo_returns_same_byte_then_flush() {
    let r = echo_reply(b'X');
    assert_eq!(r.bytes, vec![b'X']);
    assert!(r.flush);
}
