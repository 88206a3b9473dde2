//! Framing of values read from a byte stream: bytes arrive in chunks of any
//! size, are kept in a buffer, and a value is taken off the front of the buffer
//! only once the decoder finds a whole one there.
use vstd::prelude::*;
use crate::codec::{outcome_of, Decoded, DecodeFailure};

verus! {

/// Bytes read from a stream and not yet consumed by a decoded value.
pub struct FrameBuffer {
    bytes: Vec<u8>,
}

impl View for FrameBuffer {
    type V = Seq<u8>;

    closed spec fn view(&self) -> Seq<u8> {
        self.bytes@
    }
}

/// What one decode attempt on the buffered bytes tells the reader to do.
pub enum RecvStep<T> {
    /// A whole value was decoded; its bytes have left the buffer.
    Ready(T),
    /// The buffer holds only the start of a value: read more from the stream.
    NeedData,
    /// The bytes cannot be decoded; the buffer is left as it was.
    Failed(DecodeFailure),
}

/// How the buffer and the step follow from the decoder's outcome on the
/// buffered bytes `before`: a complete value removes exactly its own bytes
/// from the front, anything else leaves the buffer as it was.
pub open spec fn settles_as<T>(named: Decoded, before: Seq<u8>, step: RecvStep<T>, after: Seq<u8>) -> bool {
    match named {
        Decoded::Complete(n) => step is Ready && after == before.skip(n as int),
        Decoded::Incomplete(_) => step is NeedData && after == before,
        _ => step matches RecvStep::Failed(f) && f.status() == named && after == before,
    }
}

impl FrameBuffer {
    /// An empty buffer.
    pub fn new() -> (res: Self)
        ensures
            res@ == Seq::<u8>::empty(),
    {
        FrameBuffer { bytes: Vec::new() }
    }

    /// The number of buffered bytes.
    pub fn len(&self) -> (res: usize)
        ensures
            res == self@.len(),
    {
        self.bytes.len()
    }

    /// The buffered bytes, oldest first.
    pub fn pending(&self) -> (res: &[u8])
        ensures
            res@ == self@,
    {
        self.bytes.as_slice()
    }

    /// Adds bytes read from the stream after those already buffered.
    pub fn append(&mut self, data: &[u8])
        ensures
            final(self)@ == old(self)@ + data@,
    {
        let mut i: usize = 0;
        while i < data.len()
            invariant
                i <= data@.len(),
                self@ == old(self)@ + data@.take(i as int),
            decreases data@.len() - i,
        {
            self.bytes.push(data[i]);
            assert(data@.take(i as int + 1) == data@.take(i as int).push(data@[i as int]));
            i = i + 1;
        }
        assert(data@.take(data@.len() as int) == data@);
    }

    /// Drops the first `n` buffered bytes.
    pub fn consume(&mut self, n: usize)
        requires
            n <= old(self)@.len(),
        ensures
            final(self)@ == old(self)@.skip(n as int),
    {
        let rest = self.bytes.split_off(n);
        self.bytes = rest;
    }

    /// Hands out every buffered byte, leaving the buffer empty.
    pub fn take_all(&mut self) -> (res: Vec<u8>)
        ensures
            res@ == old(self)@,
            final(self)@ == Seq::<u8>::empty(),
    {
        self.bytes.split_off(0)
    }

    /// Drops every buffered byte.
    pub fn clear(&mut self)
        ensures
            final(self)@ == Seq::<u8>::empty(),
    {
        self.bytes.clear();
    }

    /// Acts on the outcome of decoding the buffered bytes: on a whole value the
    /// bytes it took leave the buffer and the value is handed out; otherwise the
    /// buffer is kept for the next attempt.
    pub fn settle<T>(&mut self, outcome: Result<(T, usize), DecodeFailure>) -> (res: RecvStep<T>)
        requires
            outcome matches Ok((_, n)) ==> n <= old(self)@.len(),
        ensures
            settles_as(outcome_of(outcome), old(self)@, res, final(self)@),
            outcome matches Ok((v, _)) ==> res == RecvStep::Ready(v),
            outcome matches Ok((_, n)) ==> final(self)@ == old(self)@.skip(n as int),
            outcome is Err ==> final(self)@ == old(self)@,
            outcome matches Err(DecodeFailure::Incomplete(_)) ==> res is NeedData,
    {
        match outcome {
            Ok((value, consumed)) => {
                self.consume(consumed);
                RecvStep::Ready(value)
            },
            Err(DecodeFailure::Incomplete(_)) => RecvStep::NeedData,
            Err(failure) => RecvStep::Failed(failure),
        }
    }
}

/// Asking for more keeps every buffered byte: when the decoder finds only the
/// beginning of a value, however many bytes that is, the buffer stays exactly
/// as it was, and so does it when the bytes cannot be decoded.
pub proof fn lemma_waiting_keeps_the_buffer<T>(named: Decoded, before: Seq<u8>, step: RecvStep<T>, after: Seq<u8>)
    requires
        settles_as(named, before, step, after),
    ensures
        !(named is Complete) ==> after == before,
        named is Incomplete <==> step is NeedData,
        named is Complete <==> step is Ready,
        named matches Decoded::Complete(n) ==> after == before.skip(n as int),
        (named is UnknownType || named is Malformed) ==> (step matches RecvStep::Failed(f) && f.status()
            == named),
{
}

/// A value that arrives in two reads is received whole: when the first read
/// gives only the beginning of a value and the decoder asks for more, and
/// after the rest is appended the decoder finds a whole value of `n` bytes,
/// that value is taken from the front of everything read, and the buffer then
/// holds exactly what followed it.
pub proof fn lemma_rest_completes_the_value<T>(
    first: Seq<u8>,
    asked: usize,
    step1: RecvStep<T>,
    kept: Seq<u8>,
    rest: Seq<u8>,
    n: usize,
    step2: RecvStep<T>,
    after: Seq<u8>,
)
    requires
        settles_as(Decoded::Incomplete(asked), first, step1, kept),
        settles_as(Decoded::Complete(n), kept + rest, step2, after),
        n <= first.len() + rest.len(),
    ensures
        step1 is NeedData,
        kept == first,
        step2 is Ready,
        after == (first + rest).skip(n as int),
        (first + rest).take(n as int) + after == first + rest,
{
    assert((first + rest).take(n as int) + (first + rest).skip(n as int) =~= first + rest);
}

/// No byte is lost or repeated by framing: once a chunk read from the stream
/// has been appended, the bytes taken by a decoded value, followed by those
/// left in the buffer, are exactly the bytes that were buffered and read.
pub proof fn lemma_framing_preserves_bytes<T>(
    buffered: Seq<u8>,
    chunk: Seq<u8>,
    consumed: usize,
    step: RecvStep<T>,
    after: Seq<u8>,
)
    requires
        consumed <= buffered.len() + chunk.len(),
        settles_as(Decoded::Complete(consumed), buffered + chunk, step, after),
    ensures
        (buffered + chunk).take(consumed as int) + after == buffered + chunk,
{
    let all = buffered + chunk;
    assert(all.take(consumed as int) + all.skip(consumed as int) =~= all);
}

/// Consecutive values come from consecutive stretches of the stream: after two
/// values were taken, of `first_len` and `second_len` bytes, the buffer holds
/// what followed both, and the second value's bytes began right where the
/// first value's bytes ended.
pub proof fn lemma_consecutive_values<T>(
    before: Seq<u8>,
    first_len: usize,
    first: RecvStep<T>,
    middle: Seq<u8>,
    second_len: usize,
    second: RecvStep<T>,
    after: Seq<u8>,
)
    requires
        first_len <= before.len(),
        second_len <= before.len() - first_len,
        settles_as(Decoded::Complete(first_len), before, first, middle),
        settles_as(Decoded::Complete(second_len), middle, second, after),
    ensures
        after == before.skip(first_len + second_len),
        before == before.take(first_len as int) + middle,
{
    assert(before == before.take(first_len as int) + middle);
    assert(after =~= before.skip(first_len + second_len));
}

/// Whatever the chunks that a value's wire form `head`, followed by the bytes
/// `tail`, arrives in, the bytes received so far (the first `k`) are either
/// the beginning of `head` alone, shorter than it (a decoder that asks for more
/// on such bytes is asked again after the next chunk), or `head` whole followed
/// by the beginning of `tail` (the value is decoded, and the rest stays).
pub proof fn lemma_chunks_of_framed_value(head: Seq<u8>, tail: Seq<u8>, k: int)
    requires
        0 <= k <= head.len() + tail.len(),
    ensures
        k < head.len() ==> (head + tail).take(k).len() < head.len() && (head + tail).take(k).is_prefix_of(head),
        k >= head.len() ==> head.is_prefix_of((head + tail).take(k)) && (head + tail).take(k).skip(
            head.len() as int,
        ) == tail.take(k - head.len()),
{
    let got = (head + tail).take(k);
    if k >= head.len() {
        assert(got.skip(head.len() as int) =~= tail.take(k - head.len()));
    }
}

} // verus!
