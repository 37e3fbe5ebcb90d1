//! The blocking byte transport's decisions: how one poll of the serial
//! peripheral is read, the error it can end in, and the bytes of a text.
use vstd::prelude::*;
use vstd::string::StringSliceAdditionalSpecFns;

verus! {

#[verifier::external_type_specification]
#[verifier::reject_recursive_types(E)]
pub struct ExNbError<E>(nb::Error<E>);

/// The transport operation that was under way.
#[derive(Clone, Copy, Debug, PartialEq, Eq, Structural)]
pub enum TransportOp {
    Read,
    Write,
    Flush,
}

/// A hardware fault (parity, framing, overrun) reported during an operation.
#[derive(Clone, Copy, Debug, PartialEq, Eq, Structural)]
pub struct TransportError {
    pub op: TransportOp,
}

impl TransportError {
    /// The text reported before halting.
    pub fn message(&self) -> (r: &'static str)
        ensures
            self.op == TransportOp::Read ==> r@ == "Error reading from serial port"@,
            self.op == TransportOp::Write ==> r@ == "Error writing to serial port"@,
            self.op == TransportOp::Flush ==> r@ == "Error flushing serial port"@,
    {
        match self.op {
            TransportOp::Read => "Error reading from serial port",
            TransportOp::Write => "Error writing to serial port",
            TransportOp::Flush => "Error flushing serial port",
        }
    }
}

/// The outcome of one poll of a non-blocking operation.
#[derive(Clone, Copy, Debug, PartialEq, Eq)]
pub enum Poll<T> {
    /// The operation completed, or failed.
    Ready(T),
    /// The peripheral is not ready yet: poll again.
    NotReady,
}

/// Reads one poll of the peripheral: "would block" asks for another poll,
/// any other error ends the operation with a transport error.
pub fn classify<T, E>(polled: Result<T, nb::Error<E>>, op: TransportOp) -> (r: Poll<
    Result<T, TransportError>,
>)
    ensures
        polled is Ok ==> r == Poll::Ready(Ok::<T, TransportError>(polled->Ok_0)),
        polled matches Err(nb::Error::WouldBlock) ==> r == Poll::<Result<T, TransportError>>::NotReady,
        polled matches Err(nb::Error::Other(_)) ==> r == Poll::Ready(
            Err::<T, TransportError>(TransportError { op }),
        ),
{
    match polled {
        Ok(v) => Poll::Ready(Ok(v)),
        Err(nb::Error::WouldBlock) => Poll::NotReady,
        Err(nb::Error::Other(_)) => Poll::Ready(Err(TransportError { op })),
    }
}

/// The bytes of a text, in order, as they go on the wire.
pub fn text_bytes(s: &str) -> (r: Vec<u8>)
    ensures
        r@ == s.spec_bytes(),
{
    let bytes = s.as_bytes();
    let mut out: Vec<u8> = Vec::with_capacity(bytes.len());
    let mut i: usize = 0;
    while i < bytes.len()
        invariant
            bytes@ == s.spec_bytes(),
            i <= bytes@.len(),
            out@ == bytes@.take(i as int),
        decreases bytes@.len() - i,
    {
        out.push(bytes[i]);
        i = i + 1;
        assert(out@ =~= bytes@.take(i as int));
    }
    assert(bytes@.take(bytes@.len() as int) =~= bytes@);
    out
}

} // verus!
