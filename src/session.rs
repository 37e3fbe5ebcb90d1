//! The decisions of the serial sessions: the main loop reads a byte, hands it
//! here, and writes (then flushes) what comes back.
use vstd::prelude::*;
use vstd::string::StringSliceAdditionalSpecFns;
use crate::line_buffer::{
    emitted, empty_line, push_accepts, pushed, LineBuffer, Order, TERMINATOR,
};
use crate::transport::text_bytes;

verus! {

/// What the main loop sends after a byte: `bytes` in order, then a flush
/// when `flush` is set.
pub struct Reply {
    pub bytes: Vec<u8>,
    pub flush: bool,
}

/// The notice sent when a line outgrows the buffer.
pub open spec fn overflow_notice() -> Seq<u8> {
    "Buffer full. Please try again.\r\n".spec_bytes()
}

/// The text of the overflow notice.
pub fn overflow_notice_text() -> (r: &'static str)
    ensures
        r.spec_bytes() == overflow_notice(),
{
    "Buffer full. Please try again.\r\n"
}

/// The echo session: each byte goes straight back, followed by a flush.
pub fn echo_reply(b: u8) -> (r: Reply)
    ensures
        r.bytes@ == seq![b],
        r.flush,
{
    let mut bytes: Vec<u8> = Vec::new();
    bytes.push(b);
    Reply { bytes, flush: true }
}

/// The state at the start of a line.
pub open spec fn line_start() -> (Seq<u8>, bool) {
    (empty_line(), false)
}

/// The state after byte `b`.
pub open spec fn next_state(s: (Seq<u8>, bool), b: u8) -> (Seq<u8>, bool) {
    if b == TERMINATOR {
        line_start()
    } else if s.1 {
        s
    } else if push_accepts(s.0) {
        (pushed(s.0, b), false)
    } else {
        (s.0, true)
    }
}

/// The bytes sent after byte `b`.
pub open spec fn reply_bytes(s: (Seq<u8>, bool), b: u8) -> Seq<u8> {
    if b == TERMINATOR {
        emitted(s.0, Order::Reverse)
    } else if s.1 || push_accepts(s.0) {
        Seq::empty()
    } else {
        overflow_notice()
    }
}

/// Whether a flush follows the bytes sent after byte `b`.
pub open spec fn reply_flush(s: (Seq<u8>, bool), b: u8) -> bool {
    b == TERMINATOR || (!s.1 && !push_accepts(s.0))
}

/// The line reversal session: bytes accumulate until a carriage return,
/// then the line goes back reversed. A line longer than the buffer gets the
/// overflow notice once; its remaining bytes are skipped up to the
/// carriage return, and the bytes that were kept go back reversed.
pub struct ReverseSession {
    buffer: LineBuffer,
    discarding: bool,
}

impl View for ReverseSession {
    /// The line so far, and whether the rest of an overlong line is being
    /// skipped.
    type V = (Seq<u8>, bool);

    closed spec fn view(&self) -> (Seq<u8>, bool) {
        (self.buffer@, self.discarding)
    }
}

impl ReverseSession {
    /// A session at the start of a line.
    pub fn new() -> (r: ReverseSession)
        ensures
            r@ == line_start(),
    {
        ReverseSession { buffer: LineBuffer::new(), discarding: false }
    }

    /// The line buffer as it stands.
    pub fn buffer(&self) -> (r: &LineBuffer)
        ensures
            r@ == self@.0,
    {
        &self.buffer
    }

    /// Whether the rest of an overlong line is being skipped.
    pub fn is_discarding(&self) -> (r: bool)
        ensures
            r == self@.1,
    {
        self.discarding
    }

    /// Handles one received byte and says what to send back.
    pub fn on_byte(&mut self, b: u8) -> (r: Reply)
        ensures
            final(self)@ == next_state(old(self)@, b),
            r.bytes@ == reply_bytes(old(self)@, b),
            r.flush == reply_flush(old(self)@, b),
    {
        if b == TERMINATOR {
            let bytes = self.buffer.emit(Order::Reverse);
            self.buffer.clear();
            self.discarding = false;
            Reply { bytes, flush: true }
        } else if self.discarding {
            Reply { bytes: Vec::new(), flush: false }
        } else {
            match self.buffer.push(b) {
                Ok(()) => Reply { bytes: Vec::new(), flush: false },
                Err(_) => {
                    self.discarding = true;
                    Reply { bytes: text_bytes(overflow_notice_text()), flush: true }
                },
            }
        }
    }
}

} // verus!
