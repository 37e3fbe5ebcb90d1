//! A fixed-capacity byte accumulator holding one line of input.
use vstd::prelude::*;

verus! {

/// Number of bytes one line may hold.
pub const LINE_CAPACITY: usize = 32;

/// The byte that ends a line on the wire (carriage return).
pub const TERMINATOR: u8 = 0x0D;

#[verifier::external_type_specification]
#[verifier::external_body]
#[verifier::reject_recursive_types(T)]
pub struct ExHeaplessVec<T, const N: usize>(heapless::Vec<T, N>);

/// The bytes held by a fixed-capacity vector of the line's size, in order.
pub uninterp spec fn stored_bytes(v: heapless::Vec<u8, 32>) -> Seq<u8>;

/// Relies on heapless::Vec::new: the new vector holds nothing.
#[verifier::external_body]
fn storage_new() -> (r: heapless::Vec<u8, 32>)
    ensures
        stored_bytes(r) == Seq::<u8>::empty(),
{
    heapless::Vec::new()
}

/// Relies on heapless::Vec::push: appends while the length is under the
/// capacity, otherwise hands the item back (here as `Some`) and leaves the
/// vector as it was.
#[verifier::external_body]
fn storage_push(v: &mut heapless::Vec<u8, 32>, b: u8) -> (rejected: Option<u8>)
    ensures
        stored_bytes(*old(v)).len() < 32 ==> rejected == None::<u8>,
        stored_bytes(*old(v)).len() < 32 ==> stored_bytes(*final(v)) == stored_bytes(*old(v)).push(b),
        stored_bytes(*old(v)).len() >= 32 ==> rejected == Some(b),
        stored_bytes(*old(v)).len() >= 32 ==> stored_bytes(*final(v)) == stored_bytes(*old(v)),
{
    v.push(b).err()
}

/// Relies on heapless::Vec::clear: removes every element.
#[verifier::external_body]
fn storage_clear(v: &mut heapless::Vec<u8, 32>)
    ensures
        stored_bytes(*final(v)) == Seq::<u8>::empty(),
{
    v.clear()
}

/// Relies on heapless::Vec::as_slice: the initialised elements, in order.
#[verifier::external_body]
fn storage_slice(v: &heapless::Vec<u8, 32>) -> (r: &[u8])
    ensures
        r@ == stored_bytes(*v),
        r@.len() <= 32,
{
    v.as_slice()
}

/// A push into a full buffer.
#[derive(Clone, Copy, Debug, PartialEq, Eq, Structural)]
pub struct OverflowError;

/// The direction in which a buffer's contents are traversed.
#[derive(Clone, Copy, Debug, PartialEq, Eq, Structural)]
pub enum Order {
    Forward,
    Reverse,
}

/// Contents of a buffer that has just been created or cleared.
pub open spec fn empty_line() -> Seq<u8> {
    Seq::empty()
}

/// Whether a buffer holding `s` takes one more byte.
pub open spec fn push_accepts(s: Seq<u8>) -> bool {
    s.len() < LINE_CAPACITY
}

/// Contents after one push of `b` into a buffer holding `s`.
pub open spec fn pushed(s: Seq<u8>, b: u8) -> Seq<u8> {
    if push_accepts(s) {
        s.push(b)
    } else {
        s
    }
}

/// Contents after pushing each byte of `bs` in turn, rejected ones dropped.
pub open spec fn pushed_all(s: Seq<u8>, bs: Seq<u8>) -> Seq<u8>
    decreases bs.len(),
{
    if bs.len() == 0 {
        s
    } else {
        pushed(pushed_all(s, bs.drop_last()), bs.last())
    }
}

/// What a traversal of `s` in the given order yields.
pub open spec fn emitted(s: Seq<u8>, order: Order) -> Seq<u8> {
    match order {
        Order::Forward => s,
        Order::Reverse => s.reverse(),
    }
}

/// One line of input, at most `LINE_CAPACITY` bytes long.
pub struct LineBuffer {
    data: heapless::Vec<u8, 32>,
}

impl View for LineBuffer {
    type V = Seq<u8>;

    closed spec fn view(&self) -> Seq<u8> {
        stored_bytes(self.data)
    }
}

impl LineBuffer {
    /// An empty buffer.
    pub fn new() -> (r: LineBuffer)
        ensures
            r@ == empty_line(),
    {
        LineBuffer { data: storage_new() }
    }

    /// Appends `b` when there is room; otherwise reports the overflow and
    /// leaves the contents as they were.
    pub fn push(&mut self, b: u8) -> (r: Result<(), OverflowError>)
        ensures
            final(self)@ == pushed(old(self)@, b),
            r is Ok <==> push_accepts(old(self)@),
            r is Err ==> r == Err::<(), OverflowError>(OverflowError),
    {
        let r = storage_push(&mut self.data, b);
        match r {
            None => Ok(()),
            Some(_) => Err(OverflowError),
        }
    }

    /// Discards the contents.
    pub fn clear(&mut self)
        ensures
            final(self)@ == empty_line(),
    {
        storage_clear(&mut self.data);
    }

    /// Number of bytes held.
    pub fn len(&self) -> (r: usize)
        ensures
            r == self@.len(),
            r <= LINE_CAPACITY,
    {
        storage_slice(&self.data).len()
    }

    /// Whether the buffer holds no byte.
    pub fn is_empty(&self) -> (r: bool)
        ensures
            r <==> self@.len() == 0,
    {
        self.len() == 0
    }

    /// Whether the next push would be rejected.
    pub fn is_full(&self) -> (r: bool)
        ensures
            r <==> !push_accepts(self@),
    {
        self.len() >= LINE_CAPACITY
    }

    /// The contents in the given order; the buffer is left as it is.
    pub fn emit(&self, order: Order) -> (r: Vec<u8>)
        ensures
            r@ == emitted(self@, order),
    {
        let bytes = storage_slice(&self.data);
        let n = bytes.len();
        let mut out: Vec<u8> = Vec::with_capacity(n);
        let mut i: usize = 0;
        while i < n
            invariant
                n == bytes@.len(),
                bytes@ == self@,
                i <= n,
                out@.len() == i,
                forall|k: int|
                    0 <= k < i ==> out@[k] == emitted(self@, order)[k],
            decreases n - i,
        {
            let b = match order {
                Order::Forward => bytes[i],
                Order::Reverse => bytes[n - 1 - i],
            };
            out.push(b);
            i = i + 1;
        }
        assert(out@ =~= emitted(self@, order));
        out
    }
}

/// Pushing up to a full line's worth of bytes into an empty buffer keeps
/// every one of them, in order.
proof fn lemma_fill_keeps_all(bs: Seq<u8>)
    requires
        bs.len() <= LINE_CAPACITY,
    ensures
        pushed_all(empty_line(), bs) == bs,
    decreases bs.len(),
{
    if bs.len() > 0 {
        lemma_fill_keeps_all(bs.drop_last());
        assert(bs.drop_last().push(bs.last()) =~= bs);
    }
}

/// A line of at most `LINE_CAPACITY` bytes without a terminator, pushed into
/// an empty buffer and traversed in reverse, comes out reversed.
pub proof fn lemma_reverse_line(bs: Seq<u8>)
    requires
        bs.len() <= LINE_CAPACITY,
        !bs.contains(TERMINATOR),
    ensures
        pushed_all(empty_line(), bs) == bs,
        emitted(pushed_all(empty_line(), bs), Order::Reverse) == bs.reverse(),
{
    lemma_fill_keeps_all(bs);
}

/// Of a longer run of bytes pushed into an empty buffer, the first
/// `LINE_CAPACITY` are accepted; the next one is rejected and the buffer keeps
/// exactly those first bytes.
pub proof fn lemma_overflow_keeps_prefix(bs: Seq<u8>)
    requires
        bs.len() > LINE_CAPACITY,
    ensures
        forall|i: int|
            0 <= i < LINE_CAPACITY ==> #[trigger] pushed_all(empty_line(), bs.take(i))
                == bs.take(i) && push_accepts(pushed_all(empty_line(), bs.take(i))),
        !push_accepts(pushed_all(empty_line(), bs.take(LINE_CAPACITY as int))),
        pushed_all(empty_line(), bs.take(LINE_CAPACITY as int + 1)) == bs.take(
            LINE_CAPACITY as int,
        ),
        pushed_all(empty_line(), bs.take(LINE_CAPACITY as int + 1)).len() == LINE_CAPACITY,
{
    assert forall|i: int| 0 <= i < LINE_CAPACITY implies #[trigger] pushed_all(
        empty_line(),
        bs.take(i),
    ) == bs.take(i) && push_accepts(pushed_all(empty_line(), bs.take(i))) by {
        lemma_fill_keeps_all(bs.take(i));
    }
    let full = bs.take(LINE_CAPACITY as int);
    let more = bs.take(LINE_CAPACITY as int + 1);
    lemma_fill_keeps_all(full);
    assert(more.drop_last() =~= full);
}

/// `clear` and `new` both leave the buffer holding `empty_line()`, so a push
/// after a clear behaves as on a new buffer: it is accepted and the buffer
/// then holds that one byte.
pub proof fn lemma_clear_then_push(x: u8)
    ensures
        push_accepts(empty_line()),
        pushed(empty_line(), x) == seq![x],
{
    assert(pushed(empty_line(), x) =~= seq![x]);
}

} // verus!
