//! The server side of a session's life: the table of QUIC connections that
//! the listener has seen, what each event polled from a connection asks the
//! listener to do, and the handshake from a received CLIENT SETUP to a session.
use vstd::prelude::*;
use moq_transport::coding::EncodeError;
use moq_transport::setup;
use crate::codec::server_setup_encodings;
use crate::control::Control;
use crate::object::Objects;

verus! {

/// Whether two byte strings are equal.
pub fn bytes_equal(a: &[u8], b: &[u8]) -> (res: bool)
    ensures
        res == (a@ == b@),
{
    if a.len() != b.len() {
        return false;
    }
    let mut i: usize = 0;
    while i < a.len()
        invariant
            a@.len() == b@.len(),
            i <= a@.len(),
            forall|j: int| 0 <= j < i ==> a@[j] == b@[j],
        decreases a@.len() - i,
    {
        if a[i] != b[i] {
            return false;
        }
        i = i + 1;
    }
    assert(a@ =~= b@);
    true
}

/// The connections the listener has seen, by connection id, each with the
/// state the listener keeps for it (the channel its new sessions go to).
pub struct ConnectionTable<S> {
    cids: Vec<Vec<u8>>,
    states: Vec<S>,
    model: Ghost<Map<Seq<u8>, S>>,
}

impl<S> View for ConnectionTable<S> {
    type V = Map<Seq<u8>, S>;

    closed spec fn view(&self) -> Map<Seq<u8>, S> {
        self.model@
    }
}

impl<S> ConnectionTable<S> {
    /// The entries are exactly the map's: one entry per connection id, no id
    /// twice, and each entry's state is the one the map gives for its id.
    pub closed spec fn wf(&self) -> bool {
        &&& self.cids@.len() == self.states@.len()
        &&& self.model@.dom().finite()
        &&& self.model@.dom().len() == self.cids@.len()
        &&& forall|i: int|
            #![trigger self.cids@[i]]
            0 <= i < self.cids@.len() ==> self.model@.dom().contains(self.cids@[i]@)
                && self.model@[self.cids@[i]@] == self.states@[i]
        &&& forall|k: Seq<u8>|
            #![trigger self.model@.dom().contains(k)]
            self.model@.dom().contains(k) ==> exists|i: int|
                0 <= i < self.cids@.len() && #[trigger] self.cids@[i]@ == k
        &&& forall|i: int, j: int|
            0 <= i < j < self.cids@.len() ==> #[trigger] self.cids@[i]@ != #[trigger] self.cids@[j]@
    }

    /// A table with no connection.
    pub fn new() -> (res: Self)
        ensures
            res.wf(),
            res@ == Map::<Seq<u8>, S>::empty(),
    {
        ConnectionTable { cids: Vec::new(), states: Vec::new(), model: Ghost(Map::empty()) }
    }

    /// The number of known connections.
    pub fn len(&self) -> (res: usize)
        requires
            self.wf(),
        ensures
            res == self@.len(),
    {
        self.cids.len()
    }

    /// Where `cid` stands among the entries, if it is known.
    fn position(&self, cid: &[u8]) -> (res: Option<usize>)
        requires
            self.wf(),
        ensures
            res matches Some(i) ==> i < self.cids@.len() && self.cids@[i as int]@ == cid@,
            res is None ==> !self@.dom().contains(cid@),
    {
        let mut i: usize = 0;
        while i < self.cids.len()
            invariant
                self.wf(),
                i <= self.cids@.len(),
                forall|j: int| 0 <= j < i ==> self.cids@[j]@ != cid@,
            decreases self.cids@.len() - i,
        {
            if bytes_equal(self.cids[i].as_slice(), cid) {
                return Some(i);
            }
            i = i + 1;
        }
        proof {
            if self@.dom().contains(cid@) {
                let j = choose|j: int| 0 <= j < self.cids@.len() && #[trigger] self.cids@[j]@ == cid@;
                assert(self.cids@[j]@ != cid@);
            }
        }
        None
    }

    /// Whether the connection `cid` is known.
    pub fn contains(&self, cid: &[u8]) -> (res: bool)
        requires
            self.wf(),
        ensures
            res == self@.dom().contains(cid@),
    {
        match self.position(cid) {
            Some(_) => true,
            None => false,
        }
    }

    /// The state kept for the connection `cid`, if it is known.
    pub fn get(&self, cid: &[u8]) -> (res: Option<&S>)
        requires
            self.wf(),
        ensures
            self@.dom().contains(cid@) ==> res == Some(&self@[cid@]),
            !self@.dom().contains(cid@) ==> res is None,
    {
        match self.position(cid) {
            Some(i) => Some(&self.states[i]),
            None => None,
        }
    }

    /// Records a connection that was not known, with its state.
    pub fn insert(&mut self, cid: Vec<u8>, state: S)
        requires
            old(self).wf(),
            !old(self)@.dom().contains(cid@),
        ensures
            final(self).wf(),
            final(self)@ == old(self)@.insert(cid@, state),
    {
        let ghost key = cid@;
        let ghost before = self.cids@;
        proof {
            assert forall|i: int| 0 <= i < before.len() implies before[i]@ != key by {
                assert(self.model@.dom().contains(before[i]@));
            }
        }
        self.cids.push(cid);
        self.states.push(state);
        self.model = Ghost(self.model@.insert(key, state));
        proof {
            assert(self.model@.dom() =~= old(self).model@.dom().insert(key));
            assert forall|k: Seq<u8>| #[trigger] self.model@.dom().contains(k) implies exists|i: int|
                0 <= i < self.cids@.len() && #[trigger] self.cids@[i]@ == k by {
                if k == key {
                    assert(self.cids@[before.len() as int]@ == k);
                } else {
                    assert(old(self).model@.dom().contains(k));
                    let i = choose|i: int| 0 <= i < before.len() && #[trigger] before[i]@ == k;
                    assert(self.cids@[i]@ == k);
                }
            }
        }
    }

    /// Looks up `cid`, recording it with `state` when it is new.
    /// Returns whether it was new, which is when the listener announces the
    /// connection; a known connection keeps the state it had.
    pub fn register(&mut self, cid: Vec<u8>, state: S) -> (res: bool)
        requires
            old(self).wf(),
        ensures
            final(self).wf(),
            res == !old(self)@.dom().contains(cid@),
            final(self)@ == registered(old(self)@, cid@, state),
            final(self)@.dom() == old(self)@.dom().insert(cid@),
            forall|k: Seq<u8>| #[trigger] old(self)@.dom().contains(k) ==> final(self)@[k] == old(self)@[k],
            res ==> final(self)@[cid@] == state,
    {
        if self.contains(cid.as_slice()) {
            false
        } else {
            self.insert(cid, state);
            true
        }
    }
}

/// The table after a datagram of connection `cid` was seen, with `state` made
/// ready for it in case it is new.
pub open spec fn registered<S>(table: Map<Seq<u8>, S>, cid: Seq<u8>, state: S) -> Map<Seq<u8>, S> {
    if table.dom().contains(cid) {
        table
    } else {
        table.insert(cid, state)
    }
}

/// A connection is announced once: after its first datagram it is known with
/// the state made for it then, and any later datagram of it finds it known and
/// changes nothing, whatever state was made ready for it.
pub proof fn lemma_connection_announced_once<S>(table: Map<Seq<u8>, S>, cid: Seq<u8>, first: S, later: S)
    ensures
        registered(table, cid, first).dom().contains(cid),
        !table.dom().contains(cid) ==> registered(table, cid, first)[cid] == first,
        registered(registered(table, cid, first), cid, later) == registered(table, cid, first),
{
}

/// Registering keeps every connection seen before: a connection id that was
/// not known is added with its new state and every other entry is kept as it
/// was; a known id changes nothing. So the table only grows, one id at a time.
pub proof fn lemma_registering_keeps_other_connections<S>(table: Map<Seq<u8>, S>, cid: Seq<u8>, state: S)
    ensures
        registered(table, cid, state).dom() == table.dom().insert(cid),
        forall|k: Seq<u8>| #[trigger] table.dom().contains(k) ==> registered(table, cid, state)[k] == table[k],
        !table.dom().contains(cid) ==> registered(table, cid, state) == table.insert(cid, state),
        table.dom().contains(cid) ==> registered(table, cid, state) == table,
        table.dom().finite() ==> registered(table, cid, state).dom().len() == table.dom().len() + if table.dom().contains(
            cid,
        ) {
            0int
        } else {
            1int
        },
{
    assert(registered(table, cid, state).dom() =~= table.dom().insert(cid));
    if table.dom().finite() && !table.dom().contains(cid) {
        vstd::set::axiom_set_insert_len(table.dom(), cid);
    }
}

/// Two connections registered one after the other are both known afterwards,
/// each with the state it was first registered with, whatever the order.
pub proof fn lemma_registrations_accumulate<S>(table: Map<Seq<u8>, S>, a: Seq<u8>, sa: S, b: Seq<u8>, sb: S)
    requires
        !table.dom().contains(a),
        !table.dom().contains(b),
        a != b,
    ensures
        registered(registered(table, a, sa), b, sb) == registered(registered(table, b, sb), a, sa),
        registered(registered(table, a, sa), b, sb)[a] == sa,
        registered(registered(table, a, sa), b, sb)[b] == sb,
        registered(registered(table, a, sa), b, sb).dom() == table.dom().insert(a).insert(b),
{
    assert(registered(registered(table, a, sa), b, sb) =~= registered(registered(table, b, sb), a, sa));
    assert(registered(registered(table, a, sa), b, sb).dom() =~= table.dom().insert(a).insert(b));
}

/// An event polled from a connection by the listener.
#[derive(PartialEq, Eq, Structural, Clone, Copy, Debug)]
pub enum ServerEvent {
    /// A WebTransport session was opened, with this session id.
    NewSession(u64),
    /// Data arrived on a stream (session id, stream id).
    StreamData(u64, u64),
    /// The connection has nothing more to report for now.
    Done,
    /// The peer is going away.
    GoAway,
    /// Polling the connection failed.
    Error,
}

/// What the listener does after polling an event.
#[derive(PartialEq, Eq, Structural, Clone, Copy, Debug)]
pub enum PollAction {
    /// Hand this session id to the connection's channel and poll again.
    AnnounceSession(u64),
    /// Poll again.
    Continue,
    /// Stop polling this connection and wait for the next datagram.
    Stop,
    /// Give up: the listener has no way to go on.
    Abort,
}

/// The listener's rule for each polled event.
pub open spec fn spec_next_action(event: ServerEvent) -> PollAction {
    match event {
        ServerEvent::NewSession(session_id) => PollAction::AnnounceSession(session_id),
        ServerEvent::StreamData(_, _) => PollAction::Continue,
        ServerEvent::Done => PollAction::Stop,
        ServerEvent::GoAway => PollAction::Stop,
        ServerEvent::Error => PollAction::Abort,
    }
}

/// Decides what the listener does after polling `event`: a new session is
/// handed on with its own id, stream data needs nothing, `Done` and `GoAway`
/// end the polling of the connection, an error ends the listener.
pub fn next_action(event: ServerEvent) -> (res: PollAction)
    ensures
        res == spec_next_action(event),
        event is StreamData ==> res == PollAction::Continue,
        res == PollAction::Abort <==> event == ServerEvent::Error,
{
    match event {
        ServerEvent::NewSession(session_id) => PollAction::AnnounceSession(session_id),
        ServerEvent::StreamData(_, _) => PollAction::Continue,
        ServerEvent::Done => PollAction::Stop,
        ServerEvent::GoAway => PollAction::Stop,
        ServerEvent::Error => PollAction::Abort,
    }
}

/// Polling a connection stops exactly on `Done` or `GoAway`, and every session
/// id that is handed on is the id of a `NewSession` event.
pub proof fn lemma_polling_stops_only_when_done(event: ServerEvent)
    ensures
        (spec_next_action(event) == PollAction::Stop) <==> (event == ServerEvent::Done || event
            == ServerEvent::GoAway),
        forall|id: u64|
            spec_next_action(event) == PollAction::AnnounceSession(id) <==> event
                == ServerEvent::NewSession(id),
{
}

/// Stream data never changes the course of polling: whatever the session and
/// stream ids, it is passed over and the connection is polled again.
pub proof fn lemma_stream_data_keeps_polling(session_id: u64, stream_id: u64)
    ensures
        spec_next_action(ServerEvent::StreamData(session_id, stream_id)) == PollAction::Continue,
{
}

/// Each action comes from exactly one kind of event: polling goes on
/// (`Continue`) exactly on stream data, and the listener gives up (`Abort`)
/// exactly on a polling error.
pub proof fn lemma_each_action_has_its_event(event: ServerEvent)
    ensures
        (spec_next_action(event) == PollAction::Continue) <==> (event is StreamData),
        (spec_next_action(event) == PollAction::Abort) <==> (event == ServerEvent::Error),
        (spec_next_action(event) is AnnounceSession) <==> (event is NewSession),
{
}

/// A connection whose first control message was a CLIENT SETUP, waiting for
/// the application to accept or reject it.
pub struct Setup<W, R, H, S> {
    setup: setup::Client,
    control: Control<W, R>,
    objects: Objects<H, S>,
}

/// An accepted session: its control stream and its object streams.
pub struct Session<W, R, H, S> {
    pub control: Control<W, R>,
    pub objects: Objects<H, S>,
}

impl<W, R, H, S> Setup<W, R, H, S> {
    pub closed spec fn spec_setup(&self) -> setup::Client {
        self.setup
    }

    pub closed spec fn spec_control(&self) -> Control<W, R> {
        self.control
    }

    pub closed spec fn spec_objects(&self) -> Objects<H, S> {
        self.objects
    }

    /// The pending session, with the client's setup message.
    pub fn new(setup: setup::Client, control: Control<W, R>, objects: Objects<H, S>) -> (res: Self)
        ensures
            res.spec_setup() == setup,
            res.spec_control() == control,
            res.spec_objects() == objects,
    {
        Setup { setup, control, objects }
    }

    /// The setup message that was received.
    pub fn setup(&self) -> (res: &setup::Client)
        ensures
            *res == self.spec_setup(),
    {
        &self.setup
    }

    /// Accepts the session with the server's own setup message: the reply is
    /// encoded into the control stream's send buffer, alone, and the session
    /// keeps exactly this connection's control and object streams. The reply
    /// still has to be written to the control stream. It succeeds exactly when
    /// the reply can be encoded, and the send buffer then holds one of the
    /// reply's encodings.
    pub fn accept(self, reply: &setup::Server) -> (res: Result<Session<W, R, H, S>, EncodeError>)
        ensures
            res is Ok <==> !server_setup_encodings(*reply).is_empty(),
            res matches Ok(session) ==> {
                &&& session.objects == self.spec_objects()
                &&& session.control.spec_recver() == self.spec_control().spec_recver()
                &&& session.control.spec_sender().spec_stream()
                    == self.spec_control().spec_sender().spec_stream()
                &&& server_setup_encodings(*reply).contains(session.control.spec_sender().spec_pending())
            },
    {
        let mut control = self.control;
        let encoded = control.sender_mut().encode_setup_reply(reply);
        match encoded {
            Ok(()) => Ok(Session { control, objects: self.objects }),
            Err(err) => Err(err),
        }
    }

    /// Rejects the session; nothing is kept of it.
    pub fn reject(self) {
    }
}

impl<W, R, H, S> Session<W, R, H, S> {
    /// Separates the control stream from the object streams.
    pub fn split(self) -> (res: (Control<W, R>, Objects<H, S>))
        ensures
            res.0 == self.control,
            res.1 == self.objects,
    {
        (self.control, self.objects)
    }
}

} // verus!
