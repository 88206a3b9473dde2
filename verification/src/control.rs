//! The control stream of a session: a bidirectional stream that carries the
//! setup handshake and then control messages, each encoded with the crate's
//! codec. The halves are generic over the stream types that the transport
//! supplies; reading and writing them is the caller's part.
use vstd::prelude::*;
use moq_transport::coding::EncodeError;
use moq_transport::message::Message;
use moq_transport::setup;
use crate::codec::{
    client_setup_decoding, decode_client_setup, decode_message, decode_server_setup, encode_message,
    encode_server_setup, encoder_appends, encoder_writes, message_decoding, message_encodings,
    server_setup_decoding, server_setup_encodings, Decoded, DecodeFailure,
};
use crate::framing::{settles_as, FrameBuffer, RecvStep};

verus! {

/// The sending half: the stream and a buffer that is reused to encode messages.
pub struct ControlSend<W> {
    stream: W,
    buf: Vec<u8>,
}

impl<W> ControlSend<W> {
    /// The stream messages are written to.
    pub closed spec fn spec_stream(&self) -> W {
        self.stream
    }

    /// The bytes of the last encoded message.
    pub closed spec fn spec_pending(&self) -> Seq<u8> {
        self.buf@
    }

    /// A sender over `inner` with an empty buffer.
    pub fn new(inner: W) -> (res: Self)
        ensures
            res.spec_stream() == inner,
            res.spec_pending() == Seq::<u8>::empty(),
    {
        ControlSend { buf: Vec::new(), stream: inner }
    }

    /// Encodes `msg` into the buffer, after dropping what the buffer held, so
    /// that the buffer holds this message's bytes alone. It succeeds exactly
    /// when the message can be encoded, and the buffer then holds one of its
    /// encodings.
    pub fn encode(&mut self, msg: &Message) -> (res: Result<(), EncodeError>)
        ensures
            encoder_writes(res, message_encodings(*msg), final(self).spec_pending()),
            encoder_appends(res, Seq::<u8>::empty(), final(self).spec_pending()),
            final(self).spec_stream() == old(self).spec_stream(),
    {
        self.buf.clear();
        encode_message(msg, &mut self.buf)
    }

    /// Encodes the SERVER SETUP reply into the buffer, after dropping what the
    /// buffer held. It succeeds exactly when the reply can be encoded, and the
    /// buffer then holds one of its encodings.
    pub fn encode_setup_reply(&mut self, reply: &setup::Server) -> (res: Result<(), EncodeError>)
        ensures
            encoder_writes(res, server_setup_encodings(*reply), final(self).spec_pending()),
            encoder_appends(res, Seq::<u8>::empty(), final(self).spec_pending()),
            final(self).spec_stream() == old(self).spec_stream(),
    {
        self.buf.clear();
        encode_server_setup(reply, &mut self.buf)
    }

    /// The bytes to write to the stream.
    pub fn pending(&self) -> (res: &[u8])
        ensures
            res@ == self.spec_pending(),
    {
        self.buf.as_slice()
    }

    /// The stream, to write the pending bytes to.
    pub fn stream_mut(&mut self) -> (res: &mut W)
        ensures
            *res == old(self).spec_stream(),
            final(self).spec_stream() == *final(res),
            final(self).spec_pending() == old(self).spec_pending(),
    {
        &mut self.stream
    }

    /// Gives up the sender, keeping the stream.
    pub fn into_stream(self) -> (res: W)
        ensures
            res == self.spec_stream(),
    {
        self.stream
    }
}

/// The receiving half: the stream and the bytes read from it that have not
/// formed a whole message yet.
pub struct ControlRecv<R> {
    stream: R,
    buf: FrameBuffer,
}

/// Why the first message of the control stream did not give a session.
pub enum SetupError {
    /// The stream began with another message than CLIENT SETUP (its type code).
    ExpectedClientSetup(u64),
    /// The CLIENT SETUP could not be read.
    ReadFailed(DecodeFailure),
}

/// What one attempt to read the CLIENT SETUP off the buffered bytes tells the
/// server to do.
pub enum SetupStep {
    /// The CLIENT SETUP was read whole; its bytes have left the buffer.
    Received(setup::Client),
    /// The buffer holds only the start of a message: read more.
    NeedData,
    /// No session can come of this stream.
    Refused(SetupError),
}

/// How the step follows from the outcomes of decoding the buffered bytes as a
/// CLIENT SETUP (`client`), as a control message (`message`) and as a SERVER
/// SETUP (`server`): a CLIENT SETUP is received; any other whole first message
/// (a control message or a SERVER SETUP) is refused as not a CLIENT SETUP,
/// with the type code the setup decoder saw; a first message that is only
/// begun asks for more; anything else is a failure to read the setup.
pub open spec fn setup_step_follows(client: Decoded, message: Decoded, server: Decoded, step: SetupStep) -> bool {
    match client {
        Decoded::Complete(_) => step is Received,
        Decoded::Incomplete(_) => step is NeedData,
        Decoded::UnknownType(code) => match message {
            Decoded::Complete(_) => step matches SetupStep::Refused(SetupError::ExpectedClientSetup(c)) && c == code,
            Decoded::Incomplete(_) => step is NeedData,
            Decoded::UnknownType(_) => match server {
                Decoded::Complete(_) => step matches SetupStep::Refused(SetupError::ExpectedClientSetup(c)) && c == code,
                Decoded::Incomplete(_) => step is NeedData,
                _ => step matches SetupStep::Refused(SetupError::ReadFailed(f)) && f.status() == server,
            },
            Decoded::Malformed => step matches SetupStep::Refused(SetupError::ReadFailed(f)) && f.status() == message,
        },
        Decoded::Malformed => step matches SetupStep::Refused(SetupError::ReadFailed(f)) && f.status() == client,
    }
}

/// A CLIENT SETUP is always accepted and nothing else is: the step is
/// `Received` exactly when the bytes decode as a whole CLIENT SETUP, of
/// whatever length. A stream is refused as not a CLIENT SETUP only when it
/// begins with another type code and another whole first message (a control
/// message or a SERVER SETUP) is there; more is asked for only when the
/// decoder consulted last asked for more.
pub proof fn lemma_client_setup_is_received(client: Decoded, message: Decoded, server: Decoded, step: SetupStep)
    requires
        setup_step_follows(client, message, server, step),
    ensures
        step is Received <==> client is Complete,
        step matches SetupStep::Refused(SetupError::ExpectedClientSetup(code)) ==> {
            &&& client == Decoded::UnknownType(code)
            &&& (message is Complete || (message is UnknownType && server is Complete))
        },
        step is NeedData ==> (client is Incomplete || (client is UnknownType && (message is Incomplete || (
            message is UnknownType && server is Incomplete)))),
        step matches SetupStep::Refused(SetupError::ReadFailed(f)) ==> {
            &&& !(f.status() is Complete) && !(f.status() is Incomplete)
            &&& !(client is Complete) && !(client is Incomplete)
            &&& client is UnknownType ==> !(message is Complete) && !(message is Incomplete)
            &&& (client is UnknownType && message is UnknownType) ==> !(server is Complete) && !(
                server is Incomplete)
        },
{
}

impl<R> ControlRecv<R> {
    /// The stream messages are read from.
    pub closed spec fn spec_stream(&self) -> R {
        self.stream
    }

    /// The bytes read and not yet decoded.
    pub closed spec fn spec_buffered(&self) -> Seq<u8> {
        self.buf@
    }

    /// A receiver over `inner` with nothing buffered.
    pub fn new(inner: R) -> (res: Self)
        ensures
            res.spec_stream() == inner,
            res.spec_buffered() == Seq::<u8>::empty(),
    {
        ControlRecv { buf: FrameBuffer::new(), stream: inner }
    }

    /// The bytes read and not yet decoded.
    pub fn buffered(&self) -> (res: &[u8])
        ensures
            res@ == self.spec_buffered(),
    {
        self.buf.pending()
    }

    /// Buffers bytes that were read from the stream. A read of no bytes means
    /// that the stream has ended; the answer says whether it is still open.
    pub fn receive(&mut self, data: &[u8]) -> (open: bool)
        ensures
            open == (data@.len() > 0),
            final(self).spec_buffered() == old(self).spec_buffered() + data@,
            final(self).spec_stream() == old(self).spec_stream(),
    {
        self.buf.append(data);
        data.len() > 0
    }

    /// The stream, to read more bytes from.
    pub fn stream_mut(&mut self) -> (res: &mut R)
        ensures
            *res == old(self).spec_stream(),
            final(self).spec_stream() == *final(res),
            final(self).spec_buffered() == old(self).spec_buffered(),
    {
        &mut self.stream
    }

    /// Tries to take the next control message off the buffered bytes: a whole
    /// message leaves the buffer and is returned; too few bytes ask for more;
    /// undecodable bytes are an error and stay buffered. Messages are read
    /// whatever the chunks they arrive in: while the buffer holds only the
    /// beginning of a whole message more is asked for, and once it holds the
    /// whole message, bytes after it change nothing.
    pub fn poll_message(&mut self) -> (res: RecvStep<Message>)
        ensures
            settles_as(message_decoding(old(self).spec_buffered()).0, old(self).spec_buffered(), res,
                final(self).spec_buffered()),
            res matches RecvStep::Ready(m) ==> message_decoding(old(self).spec_buffered()).1.contains(m),
            message_decoding(old(self).spec_buffered()).0 is Complete <==> res is Ready,
            message_decoding(old(self).spec_buffered()).0 is Incomplete <==> res is NeedData,
            !(message_decoding(old(self).spec_buffered()).0 is Complete) ==> final(self).spec_buffered()
                == old(self).spec_buffered(),
            forall|more: Seq<u8>|
                match #[trigger] message_decoding(old(self).spec_buffered() + more).0 {
                    Decoded::Complete(n) => if old(self).spec_buffered().len() < n {
                        res is NeedData
                    } else {
                        message_decoding(old(self).spec_buffered()) == message_decoding(
                            old(self).spec_buffered() + more,
                        )
                    },
                    _ => true,
                },
            final(self).spec_stream() == old(self).spec_stream(),
    {
        let outcome = decode_message(self.buf.pending());
        self.buf.settle(outcome)
    }

    /// Tries to take the CLIENT SETUP off the buffered bytes. When the bytes
    /// begin with another type code, they are decoded as a control message and
    /// as a SERVER SETUP to tell a stream that opens with another message
    /// (refused as not a CLIENT SETUP) from bytes that are no message at all (a
    /// failure to read the setup) and from a message that has not arrived
    /// whole (read more). Only a received setup leaves the buffer.
    pub fn poll_client_setup(&mut self) -> (res: SetupStep)
        ensures
            setup_step_follows(client_setup_decoding(old(self).spec_buffered()).0,
                message_decoding(old(self).spec_buffered()).0,
                server_setup_decoding(old(self).spec_buffered()), res),
            res matches SetupStep::Received(c) ==> client_setup_decoding(old(self).spec_buffered()).1.contains(c),
            client_setup_decoding(old(self).spec_buffered()).0 is Complete <==> res is Received,
            client_setup_decoding(old(self).spec_buffered()).0 matches Decoded::Complete(n)
                ==> final(self).spec_buffered() == old(self).spec_buffered().skip(n as int),
            !(client_setup_decoding(old(self).spec_buffered()).0 is Complete)
                ==> final(self).spec_buffered() == old(self).spec_buffered(),
            forall|more: Seq<u8>|
                match #[trigger] client_setup_decoding(old(self).spec_buffered() + more).0 {
                    Decoded::Complete(n) => old(self).spec_buffered().len() < n ==> res is NeedData,
                    _ => true,
                },
            final(self).spec_stream() == old(self).spec_stream(),
    {
        let outcome = decode_client_setup(self.buf.pending());
        match outcome {
            Ok((client, consumed)) => {
                self.buf.consume(consumed);
                SetupStep::Received(client)
            },
            Err(DecodeFailure::Incomplete(_)) => SetupStep::NeedData,
            Err(DecodeFailure::UnknownType(code)) => {
                match decode_message(self.buf.pending()) {
                    Ok(_) => SetupStep::Refused(SetupError::ExpectedClientSetup(code)),
                    Err(DecodeFailure::Incomplete(_)) => SetupStep::NeedData,
                    Err(DecodeFailure::UnknownType(_)) => {
                        match decode_server_setup(self.buf.pending()) {
                            Ok(_) => SetupStep::Refused(SetupError::ExpectedClientSetup(code)),
                            Err(DecodeFailure::Incomplete(_)) => SetupStep::NeedData,
                            Err(failure) => SetupStep::Refused(SetupError::ReadFailed(failure)),
                        }
                    },
                    Err(failure) => SetupStep::Refused(SetupError::ReadFailed(failure)),
                }
            },
            Err(failure) => SetupStep::Refused(SetupError::ReadFailed(failure)),
        }
    }
}

/// Both halves of the control stream.
pub struct Control<W, R> {
    sender: ControlSend<W>,
    recver: ControlRecv<R>,
}

impl<W, R> Control<W, R> {
    pub closed spec fn spec_sender(&self) -> ControlSend<W> {
        self.sender
    }

    pub closed spec fn spec_recver(&self) -> ControlRecv<R> {
        self.recver
    }

    /// The control stream over the two halves of a bidirectional stream, with
    /// empty buffers.
    pub fn new(send: W, recv: R) -> (res: Self)
        ensures
            res.spec_sender().spec_stream() == send,
            res.spec_sender().spec_pending() == Seq::<u8>::empty(),
            res.spec_recver().spec_stream() == recv,
            res.spec_recver().spec_buffered() == Seq::<u8>::empty(),
    {
        let sender = ControlSend::new(send);
        let recver = ControlRecv::new(recv);
        Control { sender, recver }
    }

    /// Separates the halves so that they can be used by different tasks.
    pub fn split(self) -> (res: (ControlSend<W>, ControlRecv<R>))
        ensures
            res.0 == self.spec_sender(),
            res.1 == self.spec_recver(),
    {
        (self.sender, self.recver)
    }

    /// The sending half.
    pub fn sender_mut(&mut self) -> (res: &mut ControlSend<W>)
        ensures
            *res == old(self).spec_sender(),
            final(self).spec_sender() == *final(res),
            final(self).spec_recver() == old(self).spec_recver(),
    {
        &mut self.sender
    }

    /// The receiving half.
    pub fn recver_mut(&mut self) -> (res: &mut ControlRecv<R>)
        ensures
            *res == old(self).spec_recver(),
            final(self).spec_recver() == *final(res),
            final(self).spec_sender() == old(self).spec_sender(),
    {
        &mut self.recver
    }
}

} // verus!
