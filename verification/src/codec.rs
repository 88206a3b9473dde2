//! The wire codec of MoQ Transport, as the `moq-transport` crate implements it.
//!
//! Every item here that touches the crate is trusted: Verus believes its contract.
//! The decoders are pure functions of the bytes they are given, so each one's
//! outcome (and the values it may hand out) is named by an uninterpreted spec
//! function; so are the byte strings an encoder may write for a message. Stream headers hold
//! only integers: their wire form (QUIC varints) is stated here in full.
//! The library's own logic (framing, handshake) is proved over these.
use vstd::prelude::*;
use moq_transport::coding::{Decode, DecodeError, Encode, EncodeError};
use moq_transport::data::{GroupHeader, Header, ObjectHeader, TrackHeader};
use moq_transport::message::Message;
use moq_transport::setup;

verus! {

#[verifier::external_type_specification]
#[verifier::external_body]
pub struct ExMessage(Message);

#[verifier::external_type_specification]
#[verifier::external_body]
pub struct ExClientSetup(setup::Client);

#[verifier::external_type_specification]
#[verifier::external_body]
pub struct ExServerSetup(setup::Server);

#[verifier::external_type_specification]
#[verifier::external_body]
pub struct ExDecodeError(DecodeError);

#[verifier::external_type_specification]
#[verifier::external_body]
pub struct ExEncodeError(EncodeError);

/// What one attempt to decode a value from the front of a byte buffer came to.
#[derive(PartialEq, Eq, Structural, Clone, Copy, Debug)]
pub enum Decoded {
    /// A whole value was decoded from the first `usize` bytes.
    Complete(usize),
    /// The decoder asked for this many more bytes: the buffer ends too early,
    /// or (for CLIENT SETUP) a parameter inside it is too short.
    Incomplete(usize),
    /// The value starts with a type code that the decoder does not accept.
    UnknownType(u64),
    /// Any other malformation (bad string, bad parameter, varint out of range, ...).
    Malformed,
}

/// Why a decode attempt did not produce a value. `Malformed` keeps the
/// crate's own error so that it can be reported.
pub enum DecodeFailure {
    Incomplete(usize),
    UnknownType(u64),
    Malformed(DecodeError),
}

impl DecodeFailure {
    /// The outcome that this failure stands for.
    pub open spec fn status(self) -> Decoded {
        match self {
            DecodeFailure::Incomplete(n) => Decoded::Incomplete(n),
            DecodeFailure::UnknownType(t) => Decoded::UnknownType(t),
            DecodeFailure::Malformed(_) => Decoded::Malformed,
        }
    }
}

/// The outcome that a decoder's result stands for.
pub open spec fn outcome_of<T>(res: Result<(T, usize), DecodeFailure>) -> Decoded {
    match res {
        Ok((_, n)) => Decoded::Complete(n),
        Err(f) => f.status(),
    }
}

/// Facts that hold of every decoder of the crate: the result is the named
/// outcome for the input, and a complete decode consumed at least the one byte
/// of its leading varint and no more than the input holds.
pub open spec fn decoder_agrees<T>(
    res: Result<(T, usize), DecodeFailure>,
    input: Seq<u8>,
    named: Decoded,
) -> bool {
    &&& outcome_of(res) == named
    &&& (res matches Ok((_, n)) ==> 0 < n <= input.len())
}

/// What `Message::decode` (a control message) makes of these bytes: the
/// outcome, and the messages that a complete decode may hand out (a set: a
/// decoded message holds hash maps, so no single value is claimed).
pub uninterp spec fn message_decoding(bytes: Seq<u8>) -> (Decoded, Set<Message>);

/// What `setup::Client::decode` (the CLIENT SETUP) makes of these bytes, as
/// for `message_decoding`.
pub uninterp spec fn client_setup_decoding(bytes: Seq<u8>) -> (Decoded, Set<setup::Client>);

/// The outcome of `setup::Server::decode` (a SERVER SETUP) on these bytes.
pub uninterp spec fn server_setup_decoding(bytes: Seq<u8>) -> Decoded;

/// The outcome of `data::Header::decode` (a data stream header) on these
/// bytes, with the header's kind and fields; the header is meaningful only
/// when the outcome is `Complete`.
pub uninterp spec fn stream_header_decoding(bytes: Seq<u8>) -> (Decoded, StreamHeader);

/// `Message::decode` reads its input front to back and asks for more whenever
/// the rest is too short, so what it makes of bytes that can be extended to a
/// whole message depends on that message's bytes alone: for any extension
/// `bytes + more` that decodes whole from its first `n` bytes, `bytes` itself
/// asks for more when it is shorter than `n`, and is decoded just the same
/// otherwise.
pub open spec fn message_read_front_to_back(res: Result<(Message, usize), DecodeFailure>, bytes: Seq<u8>) -> bool {
    forall|more: Seq<u8>|
        match #[trigger] message_decoding(bytes + more).0 {
            Decoded::Complete(n) => if bytes.len() < n {
                res matches Err(DecodeFailure::Incomplete(_))
            } else {
                message_decoding(bytes) == message_decoding(bytes + more)
            },
            _ => true,
        }
}

/// `setup::Client::decode` reads its input front to back, as
/// `message_read_front_to_back` says of `Message::decode`.
pub open spec fn client_setup_read_front_to_back(
    res: Result<(setup::Client, usize), DecodeFailure>,
    bytes: Seq<u8>,
) -> bool {
    forall|more: Seq<u8>|
        match #[trigger] client_setup_decoding(bytes + more).0 {
            Decoded::Complete(n) => if bytes.len() < n {
                res matches Err(DecodeFailure::Incomplete(_))
            } else {
                client_setup_decoding(bytes) == client_setup_decoding(bytes + more)
            },
            _ => true,
        }
}

/// What a decoder that hands out opaque values says: the outcome is the
/// named one, and a value handed out is one that the name allows.
pub open spec fn decoder_agrees_with_values<T>(
    res: Result<(T, usize), DecodeFailure>,
    input: Seq<u8>,
    named: (Decoded, Set<T>),
) -> bool {
    &&& decoder_agrees(res, input, named.0)
    &&& (res matches Ok((v, _)) ==> named.1.contains(v))
}

/// Calls `<Message as Decode>::decode` on a cursor over `bytes`.
/// Claimed: the outcome (with the cursor's position when complete, the number of
/// missing bytes from `DecodeError::More`, the type code from
/// `DecodeError::InvalidMessage`) is that of `message_decoding(bytes)`, a
/// complete decode consumed between 1 and `bytes.len()` bytes, and the message
/// is one that `message_decoding(bytes)` allows. Also claimed, from the crate's
/// source (every read is guarded by `decode_remaining`): the decoder reads
/// front to back, as `message_read_front_to_back` says.
#[verifier::external_body]
pub(crate) fn decode_message(bytes: &[u8]) -> (res: Result<(Message, usize), DecodeFailure>)
    ensures
        decoder_agrees_with_values(res, bytes@, message_decoding(bytes@)),
        message_read_front_to_back(res, bytes@),
{
    let mut cursor = std::io::Cursor::new(bytes);
    match Message::decode(&mut cursor) {
        Ok(msg) => Ok((msg, cursor.position() as usize)),
        Err(DecodeError::More(needed)) => Err(DecodeFailure::Incomplete(needed)),
        Err(DecodeError::InvalidMessage(code)) => Err(DecodeFailure::UnknownType(code)),
        Err(err) => Err(DecodeFailure::Malformed(err)),
    }
}

/// Calls `<setup::Client as Decode>::decode` on a cursor over `bytes`.
/// Claimed as for `decode_message`, with `client_setup_decoding`. The crate
/// answers `DecodeError::InvalidMessage(code)` when the leading type code is not
/// that of CLIENT SETUP (0x40).
#[verifier::external_body]
pub(crate) fn decode_client_setup(bytes: &[u8]) -> (res: Result<(setup::Client, usize), DecodeFailure>)
    ensures
        decoder_agrees_with_values(res, bytes@, client_setup_decoding(bytes@)),
        client_setup_read_front_to_back(res, bytes@),
{
    let mut cursor = std::io::Cursor::new(bytes);
    match setup::Client::decode(&mut cursor) {
        Ok(client) => Ok((client, cursor.position() as usize)),
        Err(DecodeError::More(needed)) => Err(DecodeFailure::Incomplete(needed)),
        Err(DecodeError::InvalidMessage(code)) => Err(DecodeFailure::UnknownType(code)),
        Err(err) => Err(DecodeFailure::Malformed(err)),
    }
}

/// Calls `<setup::Server as Decode>::decode` on a cursor over `bytes`.
/// Claimed: the outcome is `server_setup_decoding(bytes)`, as for
/// `decode_message`; the crate answers `DecodeError::InvalidMessage(code)` when
/// the leading type code is not that of SERVER SETUP (0x41).
#[verifier::external_body]
pub(crate) fn decode_server_setup(bytes: &[u8]) -> (res: Result<(setup::Server, usize), DecodeFailure>)
    ensures
        decoder_agrees(res, bytes@, server_setup_decoding(bytes@)),
{
    let mut cursor = std::io::Cursor::new(bytes);
    match setup::Server::decode(&mut cursor) {
        Ok(reply) => Ok((reply, cursor.position() as usize)),
        Err(DecodeError::More(needed)) => Err(DecodeFailure::Incomplete(needed)),
        Err(DecodeError::InvalidMessage(code)) => Err(DecodeFailure::UnknownType(code)),
        Err(err) => Err(DecodeFailure::Malformed(err)),
    }
}

/// What the header decoder's result says: the outcome and the header are those
/// of `stream_header_decoding`, a whole header took between 1 and all of the
/// bytes, bytes that begin with the wire form of a header whose fields fit
/// give that header, taking exactly its wire form, and bytes that are only the
/// beginning of such a wire form ask for more.
pub open spec fn header_decoder_agrees(
    res: Result<(StreamHeader, usize), DecodeFailure>,
    bytes: Seq<u8>,
    named: (Decoded, StreamHeader),
) -> bool {
    &&& decoder_agrees(res, bytes, named.0)
    &&& (res matches Ok((h, _)) ==> h == named.1)
    &&& forall|h: StreamHeader|
        h.fits_varints() && #[trigger] header_bytes(h).is_prefix_of(bytes)
            ==> (res matches Ok((got, n)) && got == h && n == header_bytes(h).len())
    &&& forall|h: StreamHeader|
        h.fits_varints() && bytes.len() < header_bytes(h).len() && #[trigger] bytes.is_prefix_of(
            header_bytes(h),
        ) ==> (res matches Err(DecodeFailure::Incomplete(_)))
}

/// Calls `<data::Header as Decode>::decode` on a cursor over `bytes`, and
/// gives the decoded header's kind and fields as a `StreamHeader`.
/// Claimed as for `decode_message`, with the outcome and the header of
/// `stream_header_decoding`. Also claimed, from the crate's source (each field
/// is read back with `VarInt::decode`, which inverts `VarInt::encode`): bytes
/// that begin with the wire form of a header whose fields fit are decoded as
/// that header, taking exactly its wire form, and that a strict prefix of that
/// wire form is answered with `DecodeError::More` (every read is guarded by
/// `decode_remaining`).
#[verifier::external_body]
pub(crate) fn decode_stream_header(bytes: &[u8]) -> (res: Result<(StreamHeader, usize), DecodeFailure>)
    ensures
        header_decoder_agrees(res, bytes@, stream_header_decoding(bytes@)),
{
    let mut cursor = std::io::Cursor::new(bytes);
    let header = match Header::decode(&mut cursor) {
        Ok(Header::Object(ObjectHeader { subscribe_id, track_alias, group_id, object_id, send_order })) =>
            StreamHeader::Object { subscribe_id, track_alias, group_id, object_id, send_order },
        Ok(Header::Group(GroupHeader { subscribe_id, track_alias, group_id, send_order })) =>
            StreamHeader::Group { subscribe_id, track_alias, group_id, send_order },
        Ok(Header::Track(TrackHeader { subscribe_id, track_alias, send_order })) =>
            StreamHeader::Track { subscribe_id, track_alias, send_order },
        Err(DecodeError::More(needed)) => return Err(DecodeFailure::Incomplete(needed)),
        Err(DecodeError::InvalidMessage(code)) => return Err(DecodeFailure::UnknownType(code)),
        Err(err) => return Err(DecodeFailure::Malformed(err)),
    };
    Ok((header, cursor.position() as usize))
}

/// What every encoder of the crate does to a `Vec<u8>`: `BufMut` on a vector
/// only appends, so the old contents stay a prefix whether or not encoding
/// succeeds, and a successful encoding wrote at least its leading varint.
pub open spec fn encoder_appends(res: Result<(), EncodeError>, before: Seq<u8>, after: Seq<u8>) -> bool {
    &&& before.is_prefix_of(after)
    &&& (res is Ok ==> before.len() < after.len())
}

/// The byte strings that `<Message as Encode>::encode` may write for this
/// message (a set: parameters are written in the order of a hash map). It is
/// empty exactly when encoding fails, which is when one of the message's
/// integers (or a length) does not fit a QUIC varint.
pub uninterp spec fn message_encodings(msg: Message) -> Set<Seq<u8>>;

/// The byte strings that `<setup::Server as Encode>::encode` may write for
/// this reply, as for `message_encodings`: empty exactly when the version, a
/// parameter id or a parameter length does not fit a QUIC varint.
pub uninterp spec fn server_setup_encodings(reply: setup::Server) -> Set<Seq<u8>>;

/// What an encoder into an empty buffer says: it succeeds exactly when the
/// value has an encoding, and then the buffer holds one of its encodings.
pub open spec fn encoder_writes(res: Result<(), EncodeError>, encodings: Set<Seq<u8>>, after: Seq<u8>) -> bool {
    &&& (res is Ok <==> !encodings.is_empty())
    &&& (res is Ok ==> encodings.contains(after))
}

/// Calls `<Message as Encode>::encode` with the empty vector `out` as the
/// buffer. Claimed: it succeeds exactly when the message has an encoding (a
/// `Vec` that starts empty never runs out of room, so only `VarInt::try_from`
/// can fail), and `out` then holds one of `message_encodings(msg)`; in any case
/// it only appends to `out`, at least one byte on success.
#[verifier::external_body]
pub(crate) fn encode_message(msg: &Message, out: &mut Vec<u8>) -> (res: Result<(), EncodeError>)
    requires
        old(out)@.len() == 0,
    ensures
        encoder_writes(res, message_encodings(*msg), final(out)@),
        encoder_appends(res, old(out)@, final(out)@),
{
    msg.encode(out)
}

/// Calls `<setup::Server as Encode>::encode` with the empty vector `out` as
/// the buffer. Claimed as for `encode_message`, with `server_setup_encodings`.
#[verifier::external_body]
pub(crate) fn encode_server_setup(reply: &setup::Server, out: &mut Vec<u8>) -> (res: Result<(), EncodeError>)
    requires
        old(out)@.len() == 0,
    ensures
        encoder_writes(res, server_setup_encodings(*reply), final(out)@),
        encoder_appends(res, old(out)@, final(out)@),
{
    reply.encode(out)
}

/// The header at the start of a data stream, as plain values: which kind of
/// stream it opens (one object, one group, a whole track) and its fields.
#[derive(PartialEq, Eq, Structural, Clone, Copy, Debug)]
pub enum StreamHeader {
    Object { subscribe_id: u64, track_alias: u64, group_id: u64, object_id: u64, send_order: u64 },
    Group { subscribe_id: u64, track_alias: u64, group_id: u64, send_order: u64 },
    Track { subscribe_id: u64, track_alias: u64, send_order: u64 },
}

/// The largest value a QUIC varint can carry, 2^62 - 1.
pub open spec fn varint_max() -> u64 {
    0x3fff_ffff_ffff_ffff
}

impl StreamHeader {
    /// Every field can be written as a QUIC varint.
    pub open spec fn fits_varints(self) -> bool {
        match self {
            StreamHeader::Object { subscribe_id, track_alias, group_id, object_id, send_order } => {
                &&& subscribe_id <= varint_max()
                &&& track_alias <= varint_max()
                &&& group_id <= varint_max()
                &&& object_id <= varint_max()
                &&& send_order <= varint_max()
            },
            StreamHeader::Group { subscribe_id, track_alias, group_id, send_order } => {
                &&& subscribe_id <= varint_max()
                &&& track_alias <= varint_max()
                &&& group_id <= varint_max()
                &&& send_order <= varint_max()
            },
            StreamHeader::Track { subscribe_id, track_alias, send_order } => {
                &&& subscribe_id <= varint_max()
                &&& track_alias <= varint_max()
                &&& send_order <= varint_max()
            },
        }
    }
}

/// The `len` bytes of `x` in big-endian order (the low `8 * len` bits).
pub open spec fn be_bytes(x: nat, len: nat) -> Seq<u8>
    decreases len,
{
    if len == 0 {
        Seq::empty()
    } else {
        be_bytes(x / 256, (len - 1) as nat).push((x % 256) as u8)
    }
}

/// The QUIC variable-length encoding of `x` (RFC 9000, section 16): the two
/// high bits of the first byte give the length, 1, 2, 4 or 8 bytes, and the
/// rest hold `x` in big-endian order.
pub open spec fn varint_bytes(x: u64) -> Seq<u8> {
    if x < 0x40 {
        be_bytes(x as nat, 1)
    } else if x < 0x4000 {
        be_bytes((x + 0x4000) as nat, 2)
    } else if x < 0x4000_0000 {
        be_bytes((x + 0x8000_0000) as nat, 4)
    } else {
        be_bytes((x + 0xc000_0000_0000_0000) as nat, 8)
    }
}

/// The number that a big-endian byte string stands for.
pub open spec fn be_value(s: Seq<u8>) -> nat
    decreases s.len(),
{
    if s.len() == 0 {
        0
    } else {
        be_value(s.drop_last()) * 256 + s.last() as nat
    }
}

/// 256 to the power `n`: one more than the largest number `n` bytes hold.
pub open spec fn pow256(n: nat) -> nat
    decreases n,
{
    if n == 0 {
        1
    } else {
        256 * pow256((n - 1) as nat)
    }
}

/// `be_bytes` writes `len` bytes that stand for `x` modulo `256^len`, the
/// most significant first.
pub proof fn lemma_be_bytes_value(x: nat, len: nat)
    ensures
        be_bytes(x, len).len() == len,
        pow256(len) > 0,
        be_value(be_bytes(x, len)) == x % pow256(len),
        len > 0 ==> be_bytes(x, len)[0] == (x / pow256((len - 1) as nat)) % 256,
    decreases len,
{
    if len > 0 {
        let q = x / 256;
        lemma_be_bytes_value(q, (len - 1) as nat);
        let b = be_bytes(x, len);
        assert(b.drop_last() =~= be_bytes(q, (len - 1) as nat));
        assert(b.last() == x % 256);
        vstd::arithmetic::div_mod::lemma_mod_breakdown(x as int, 256, pow256((len - 1) as nat) as int);
        assert(be_value(b) == (q % pow256((len - 1) as nat)) * 256 + x % 256);
        assert((q % pow256((len - 1) as nat)) * 256 == 256 * (q % pow256((len - 1) as nat))) by (nonlinear_arith);
        if len > 1 {
            vstd::arithmetic::div_mod::lemma_div_denominator(x as int, 256, pow256((len - 2) as nat) as int);
            assert(pow256((len - 1) as nat) == 256 * pow256((len - 2) as nat));
            assert(b[0] == b.drop_last()[0]);
        } else {
            assert(pow256(0) == 1);
            assert(x / 1 == x);
        }
    }
}

/// The number of bytes of a varint whose first byte carries `tag` in its two
/// high bits: 1, 2, 4 or 8.
pub open spec fn varint_len_of_tag(tag: int) -> nat {
    if tag == 0 {
        1
    } else if tag == 1 {
        2
    } else if tag == 2 {
        4
    } else {
        8
    }
}

/// The QUIC varint form of every value up to 2^62 - 1 says what it holds: it
/// is the shortest of 1, 2, 4 or 8 bytes that can carry the value, its first
/// byte's two high bits tell that length, and the bits below them, read
/// big-endian, are the value itself.
pub proof fn lemma_varint_form(x: u64)
    requires
        x <= varint_max(),
    ensures
        varint_bytes(x).len() == (if x < 0x40 {
            1nat
        } else if x < 0x4000 {
            2nat
        } else if x < 0x4000_0000 {
            4nat
        } else {
            8nat
        }),
        varint_len_of_tag((varint_bytes(x)[0] / 64) as int) == varint_bytes(x).len(),
        be_value(varint_bytes(x)) % (pow256(varint_bytes(x).len()) / 4) == x,
{
    reveal_with_fuel(pow256, 9);
    assert(pow256(1) == 0x100);
    assert(pow256(2) == 0x1_0000);
    assert(pow256(3) == 0x100_0000);
    assert(pow256(4) == 0x1_0000_0000);
    assert(pow256(7) == 0x100_0000_0000_0000);
    assert(pow256(8) == 0x1_0000_0000_0000_0000);
    if x < 0x40 {
        lemma_be_bytes_value(x as nat, 1);
        vstd::arithmetic::div_mod::lemma_small_mod(x as nat, 0x100);
        vstd::arithmetic::div_mod::lemma_small_mod(x as nat, 0x40);
        assert(varint_bytes(x)[0] / 64 == 0);
    } else if x < 0x4000 {
        let v = (x + 0x4000) as nat;
        lemma_be_bytes_value(v, 2);
        vstd::arithmetic::div_mod::lemma_small_mod(v, 0x1_0000);
        assert(v % 0x4000 == x);
        assert(v / 0x100 < 0x80 && v / 0x100 >= 0x40);
        vstd::arithmetic::div_mod::lemma_small_mod(v / 0x100, 0x100);
        assert(varint_bytes(x)[0] / 64 == 1);
    } else if x < 0x4000_0000 {
        let v = (x + 0x8000_0000) as nat;
        lemma_be_bytes_value(v, 4);
        vstd::arithmetic::div_mod::lemma_small_mod(v, 0x1_0000_0000);
        assert(v % 0x4000_0000 == x);
        assert(v / 0x100_0000 < 0xc0 && v / 0x100_0000 >= 0x80);
        vstd::arithmetic::div_mod::lemma_small_mod(v / 0x100_0000, 0x100);
        assert(varint_bytes(x)[0] / 64 == 2);
    } else {
        let v = (x + 0xc000_0000_0000_0000) as nat;
        lemma_be_bytes_value(v, 8);
        vstd::arithmetic::div_mod::lemma_small_mod(v, 0x1_0000_0000_0000_0000);
        assert(v % 0x4000_0000_0000_0000 == x);
        assert(v / 0x100_0000_0000_0000 < 0x100 && v / 0x100_0000_0000_0000 >= 0xc0);
        vstd::arithmetic::div_mod::lemma_small_mod(v / 0x100_0000_0000_0000, 0x100);
        assert(varint_bytes(x)[0] / 64 == 3);
    }
}

/// The wire form of a header: its type code (0x0 object, 0x51 group, 0x50
/// track), then each field, all as varints.
pub open spec fn header_bytes(h: StreamHeader) -> Seq<u8> {
    match h {
        StreamHeader::Object { subscribe_id, track_alias, group_id, object_id, send_order } =>
            varint_bytes(0x0) + varint_bytes(subscribe_id) + varint_bytes(track_alias)
                + varint_bytes(group_id) + varint_bytes(object_id) + varint_bytes(send_order),
        StreamHeader::Group { subscribe_id, track_alias, group_id, send_order } =>
            varint_bytes(0x51) + varint_bytes(subscribe_id) + varint_bytes(track_alias)
                + varint_bytes(group_id) + varint_bytes(send_order),
        StreamHeader::Track { subscribe_id, track_alias, send_order } =>
            varint_bytes(0x50) + varint_bytes(subscribe_id) + varint_bytes(track_alias)
                + varint_bytes(send_order),
    }
}

/// Calls `<data::Header as Encode>::encode`, on the crate's header with the
/// same kind and fields, with `out` as the buffer.
/// Claimed, from the crate's source: each field goes through
/// `VarInt::try_from`, which fails exactly above 2^62 - 1, and a `Vec` never
/// runs out of room for the at most 42 bytes of a header while it is short of
/// `isize::MAX`; so encoding succeeds exactly when every field fits, and then
/// appends `header_bytes(header)`, since `VarInt::encode` writes the
/// 1, 2, 4 or 8 byte form with `put_u8`/`put_u16`/`put_u32`/`put_u64`, which
/// are big-endian. On failure the old contents stay a prefix (bytes written
/// before the failing field stay).
#[verifier::external_body]
pub(crate) fn encode_stream_header(header: &StreamHeader, out: &mut Vec<u8>) -> (res: Result<(), EncodeError>)
    requires
        old(out)@.len() + 64 <= isize::MAX,
    ensures
        res is Ok <==> header.fits_varints(),
        res is Ok ==> final(out)@ == old(out)@ + header_bytes(*header),
        old(out)@.is_prefix_of(final(out)@),
{
    let header = match *header {
        StreamHeader::Object { subscribe_id, track_alias, group_id, object_id, send_order } =>
            Header::Object(ObjectHeader { subscribe_id, track_alias, group_id, object_id, send_order }),
        StreamHeader::Group { subscribe_id, track_alias, group_id, send_order } =>
            Header::Group(GroupHeader { subscribe_id, track_alias, group_id, send_order }),
        StreamHeader::Track { subscribe_id, track_alias, send_order } =>
            Header::Track(TrackHeader { subscribe_id, track_alias, send_order }),
    };
    header.encode(out)
}

} // verus!
