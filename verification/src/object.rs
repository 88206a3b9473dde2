//! Objects travel on unidirectional streams of their own, each beginning with a
//! header. The sender encodes the header into a reusable buffer; the receiver
//! holds at most one accepted stream at a time and hands it out together with
//! its header once the header has been read whole.
use vstd::prelude::*;
use moq_transport::coding::EncodeError;
use crate::codec::{
    decode_stream_header, encode_stream_header, header_bytes, stream_header_decoding, Decoded,
    DecodeFailure, StreamHeader,
};
use crate::framing::{FrameBuffer, RecvStep};

verus! {

/// Opens object streams of a session and writes their headers.
/// `H` is the handle of the session that streams are opened on.
pub struct SendObjects<H> {
    session: H,
    buf: Vec<u8>,
}

impl<H> SendObjects<H> {
    /// The session that streams are opened on.
    pub closed spec fn spec_session(&self) -> H {
        self.session
    }

    /// The bytes of the last encoded header.
    pub closed spec fn spec_pending(&self) -> Seq<u8> {
        self.buf@
    }

    /// A sender on `session` with an empty buffer.
    pub fn new(session: H) -> (res: Self)
        ensures
            res.spec_session() == session,
            res.spec_pending() == Seq::<u8>::empty(),
    {
        SendObjects { session, buf: Vec::new() }
    }

    /// Encodes the header of a new object stream into the buffer, after
    /// dropping what the buffer held. It succeeds exactly when every field of
    /// the header fits a QUIC varint, and the buffer then holds the header's
    /// encoding alone.
    pub fn encode(&mut self, header: &StreamHeader) -> (res: Result<(), EncodeError>)
        ensures
            res is Ok <==> header.fits_varints(),
            res is Ok ==> final(self).spec_pending() == header_bytes(*header),
            final(self).spec_session() == old(self).spec_session(),
    {
        self.buf.clear();
        encode_stream_header(header, &mut self.buf)
    }

    /// The bytes to write at the start of the new stream.
    pub fn pending(&self) -> (res: &[u8])
        ensures
            res@ == self.spec_pending(),
    {
        self.buf.as_slice()
    }

    /// The session that streams are opened on.
    pub fn session(&self) -> (res: &H)
        ensures
            *res == self.spec_session(),
    {
        &self.session
    }
}

impl<H: Clone> Clone for SendObjects<H> {
    /// Another sender on the same session, with a buffer of its own.
    fn clone(&self) -> (res: Self)
        ensures
            cloned::<H>(self.spec_session(), res.spec_session()),
            res.spec_pending() == Seq::<u8>::empty(),
    {
        SendObjects { session: self.session.clone(), buf: Vec::new() }
    }
}

/// What one attempt to receive an object stream tells the receiver to do.
pub enum ObjectStep<S> {
    /// No stream is held: accept the next one.
    NeedStream,
    /// The header was read whole: here it is, with the stream it came on and
    /// the bytes of that stream that were read after the header (the start of
    /// the object's payload).
    Ready(StreamHeader, S, Vec<u8>),
    /// The held stream has not delivered the whole header yet: read more.
    NeedData,
    /// The held stream's header cannot be decoded.
    Failed(DecodeFailure),
}

/// Accepts object streams of a session and reads their headers.
/// `H` is the session handle, `S` the type of an accepted stream.
pub struct RecvObjects<H, S> {
    session: H,
    stream: Option<S>,
    buf: FrameBuffer,
}

impl<H, S> RecvObjects<H, S> {
    /// The session that streams are accepted on.
    pub closed spec fn spec_session(&self) -> H {
        self.session
    }

    /// The stream that has been accepted and whose header is not read yet.
    pub closed spec fn spec_stream(&self) -> Option<S> {
        self.stream
    }

    /// The bytes read and not yet decoded.
    pub closed spec fn spec_buffered(&self) -> Seq<u8> {
        self.buf@
    }

    /// A receiver on `session` that holds no stream and no bytes.
    pub fn new(session: H) -> (res: Self)
        ensures
            res.spec_session() == session,
            res.spec_stream() is None,
            res.spec_buffered() == Seq::<u8>::empty(),
    {
        RecvObjects { session, stream: None, buf: FrameBuffer::new() }
    }

    /// The session that streams are accepted on.
    pub fn session(&self) -> (res: &H)
        ensures
            *res == self.spec_session(),
    {
        &self.session
    }

    /// Whether a stream must be accepted before a header can be read.
    pub fn needs_stream(&self) -> (res: bool)
        ensures
            res == self.spec_stream() is None,
    {
        self.stream.is_none()
    }

    /// Keeps a newly accepted stream, to read its header from.
    pub fn attach(&mut self, stream: S)
        requires
            old(self).spec_stream() is None,
        ensures
            final(self).spec_stream() == Some(stream),
            final(self).spec_buffered() == old(self).spec_buffered(),
            final(self).spec_session() == old(self).spec_session(),
    {
        self.stream = Some(stream);
    }

    /// The held stream, to read more bytes from.
    pub fn stream_mut(&mut self) -> (res: &mut S)
        requires
            old(self).spec_stream() is Some,
        ensures
            *res == old(self).spec_stream()->0,
            final(self).spec_stream() == Some(*final(res)),
            final(self).spec_buffered() == old(self).spec_buffered(),
            final(self).spec_session() == old(self).spec_session(),
    {
        self.stream.as_mut().unwrap()
    }

    /// The bytes read and not yet decoded.
    pub fn buffered(&self) -> (res: &[u8])
        ensures
            res@ == self.spec_buffered(),
    {
        self.buf.pending()
    }

    /// Buffers bytes that were read from the held stream. A read of no bytes
    /// means that the stream has ended; the answer says whether it is still open.
    pub fn receive(&mut self, data: &[u8]) -> (open: bool)
        ensures
            open == (data@.len() > 0),
            final(self).spec_buffered() == old(self).spec_buffered() + data@,
            final(self).spec_stream() == old(self).spec_stream(),
            final(self).spec_session() == old(self).spec_session(),
    {
        self.buf.append(data);
        data.len() > 0
    }

    /// Tries to read the header of the held stream off the buffered bytes.
    /// Without a stream nothing changes and a stream is asked for. With a
    /// whole header, the header is handed out with the stream and with the
    /// bytes read after the header, so that afterwards no stream and no byte
    /// of it is held. Otherwise the stream and the buffer stay as they were.
    /// The bytes read after the header are the start of that stream's object
    /// payload, so they leave with the stream rather than staying for the next
    /// stream's header. Bytes that begin with a header's wire form give that
    /// header; bytes that are only the beginning of it ask for more, so a
    /// header is read whatever the chunks it arrives in (see
    /// `lemma_chunks_of_framed_value`).
    pub fn poll_header(&mut self) -> (res: ObjectStep<S>)
        ensures
            final(self).spec_session() == old(self).spec_session(),
            old(self).spec_stream() is None ==> res is NeedStream && *final(self) == *old(self),
            old(self).spec_stream() is Some ==> match stream_header_decoding(old(self).spec_buffered()).0 {
                Decoded::Complete(n) => {
                    &&& res matches ObjectStep::Ready(h, s, rest) && h == stream_header_decoding(
                        old(self).spec_buffered(),
                    ).1 && s == old(self).spec_stream()->0 && rest@ == old(self).spec_buffered().skip(n as int)
                    &&& final(self).spec_stream() is None
                    &&& final(self).spec_buffered() == Seq::<u8>::empty()
                },
                Decoded::Incomplete(_) => {
                    &&& res is NeedData
                    &&& final(self).spec_stream() == old(self).spec_stream()
                    &&& final(self).spec_buffered() == old(self).spec_buffered()
                },
                named => {
                    &&& res matches ObjectStep::Failed(f) && f.status() == named
                    &&& final(self).spec_stream() == old(self).spec_stream()
                    &&& final(self).spec_buffered() == old(self).spec_buffered()
                },
            },
            old(self).spec_stream() is Some ==> forall|h: StreamHeader|
                h.fits_varints() && #[trigger] header_bytes(h).is_prefix_of(old(self).spec_buffered())
                    ==> (res matches ObjectStep::Ready(got, _, rest) && got == h
                        && rest@ == old(self).spec_buffered().skip(header_bytes(h).len() as int)),
            old(self).spec_stream() is Some ==> forall|h: StreamHeader|
                h.fits_varints() && old(self).spec_buffered().len() < header_bytes(h).len()
                    && #[trigger] old(self).spec_buffered().is_prefix_of(header_bytes(h))
                    ==> (res is NeedData && final(self).spec_stream() == old(self).spec_stream()
                        && final(self).spec_buffered() == old(self).spec_buffered()),
    {
        if self.stream.is_none() {
            return ObjectStep::NeedStream;
        }
        let outcome = decode_stream_header(self.buf.pending());
        match self.buf.settle(outcome) {
            RecvStep::Ready(header) => {
                let stream = self.stream.take().unwrap();
                let rest = self.buf.take_all();
                ObjectStep::Ready(header, stream, rest)
            },
            RecvStep::NeedData => ObjectStep::NeedData,
            RecvStep::Failed(failure) => ObjectStep::Failed(failure),
        }
    }
}

/// Both directions of object streams of one session.
pub struct Objects<H, S> {
    send: SendObjects<H>,
    recv: RecvObjects<H, S>,
}

impl<H: Clone, S> Objects<H, S> {
    /// Senders and receivers of object streams on `session`, with empty buffers
    /// and no stream held.
    pub fn new(session: H) -> (res: Self)
        ensures
            cloned::<H>(session, res.spec_send().spec_session()),
            res.spec_send().spec_pending() == Seq::<u8>::empty(),
            res.spec_recv().spec_session() == session,
            res.spec_recv().spec_stream() is None,
            res.spec_recv().spec_buffered() == Seq::<u8>::empty(),
    {
        let send = SendObjects::new(session.clone());
        let recv = RecvObjects::new(session);
        Objects { send, recv }
    }
}

impl<H, S> Objects<H, S> {
    pub closed spec fn spec_send(&self) -> SendObjects<H> {
        self.send
    }

    pub closed spec fn spec_recv(&self) -> RecvObjects<H, S> {
        self.recv
    }

    /// Separates the directions so that they can be used by different tasks.
    pub fn split(self) -> (res: (SendObjects<H>, RecvObjects<H, S>))
        ensures
            res.0 == self.spec_send(),
            res.1 == self.spec_recv(),
    {
        (self.send, self.recv)
    }

    /// The sending direction.
    pub fn send_mut(&mut self) -> (res: &mut SendObjects<H>)
        ensures
            *res == old(self).spec_send(),
            final(self).spec_send() == *final(res),
            final(self).spec_recv() == old(self).spec_recv(),
    {
        &mut self.send
    }

    /// The receiving direction.
    pub fn recv_mut(&mut self) -> (res: &mut RecvObjects<H, S>)
        ensures
            *res == old(self).spec_recv(),
            final(self).spec_recv() == *final(res),
            final(self).spec_send() == old(self).spec_send(),
    {
        &mut self.recv
    }
}

} // verus!
