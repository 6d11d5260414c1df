//! Decisions of one client session: the interest edit protocol, the tweet
//! filter, heartbeat validation and teardown.
//!
//! The connection task owns the socket, the bus receiver and the timers; it
//! feeds each event to a [`Session`] and carries out what comes back.
use crate::interest::{after_delta, lemma_latest_delta_wins};
use crate::sets::{copy_set, set_elements};
use std::collections::HashSet;
use vstd::prelude::*;

verus! {

broadcast use vstd::std_specs::hash::group_hash_axioms;

/// Interval between two heartbeat pings, in milliseconds.
pub const HEARTBEAT_MS: u64 = 30_000;

/// Silence on the socket, in milliseconds, after which the session ends.
pub const STALL_MS: u64 = 90_000;

/// Reason sent in the closing frame when the tweet bus has shut down.
pub fn bus_closed_reason() -> (r: &'static str)
    ensures
        r@ == "service was interrupted or encountered an error"@,
{
    "service was interrupted or encountered an error"
}

/// A command a client sends in a text frame.
#[derive(Debug)]
pub enum ClientMessage {
    /// Replace the client's interests.
    SetSubscriptions(HashSet<u64>),
    /// Add to the client's interests.
    InsertSubscriptions(HashSet<u64>),
    /// Remove from the client's interests.
    RemoveSubscriptions(HashSet<u64>),
    /// Ask the whole process to shut down.
    Exit,
}

/// A message the server sends in a text frame, besides tweets.
#[derive(Debug)]
pub enum ServerMessage {
    /// The client's interests as they now stand.
    AckSubscriptions(HashSet<u64>),
    /// A text frame could not be decoded; the description says why.
    ProtocolError(String),
}

/// A frame read from the client's socket; text frames arrive decoded.
#[derive(Debug)]
pub enum Frame {
    /// A text frame that decoded to a command.
    Command(ClientMessage),
    /// A text frame that did not decode, with the decoder's description.
    Malformed(String),
    /// A binary frame.
    Binary,
    /// A ping; the socket layer answers it.
    Ping,
    /// A pong carrying this payload.
    Pong(Vec<u8>),
    /// A close frame.
    Close,
}

/// Why a session ends with an error.
#[derive(Clone, Copy, Debug, PartialEq, Eq, Structural)]
pub enum SessionError {
    /// A pong did not carry the nonce of the last ping.
    InvalidPong,
    /// No frame arrived within the stall window.
    Stalled,
}

impl SessionError {
    /// A short description of the error.
    pub fn describe(&self) -> (r: &'static str)
        ensures
            *self == SessionError::InvalidPong ==> r@ == "invalid pong"@,
            *self == SessionError::Stalled ==> r@ == "ws connection stalled"@,
    {
        match self {
            SessionError::InvalidPong => "invalid pong",
            SessionError::Stalled => "ws connection stalled",
        }
    }
}

/// What the connection task does after a frame.
#[derive(Debug)]
pub enum Reaction {
    /// Nothing.
    Ignore,
    /// Send `delta` as this client's interests to the supervisor, then send
    /// `reply` to the client.
    Update { delta: HashSet<u64>, reply: ServerMessage },
    /// Send `reply` to the client and go on.
    Reply(ServerMessage),
    /// Notify the process-wide lifeline and send nothing.
    Lifeline,
    /// Answer with a close frame and end the session.
    CloseAndEnd,
    /// End the session with this error.
    Fail(SessionError),
}

/// The client's interests after `msg`.
pub open spec fn edited_follows(follows: Set<u64>, msg: ClientMessage) -> Set<u64> {
    match msg {
        ClientMessage::SetSubscriptions(s) => s@,
        ClientMessage::InsertSubscriptions(s) => follows.union(s@),
        ClientMessage::RemoveSubscriptions(s) => follows.difference(s@),
        ClientMessage::Exit => follows,
    }
}

/// Whether two byte strings are equal.
fn same_bytes(a: &Vec<u8>, b: &Vec<u8>) -> (r: bool)
    ensures
        r == (a@ == b@),
{
    if a.len() != b.len() {
        return false;
    }
    let mut i: usize = 0;
    while i < a.len()
        invariant
            a.len() == b.len(),
            i <= a.len(),
            forall|j: int| 0 <= j < i ==> a@[j] == b@[j],
        decreases a.len() - i,
    {
        if a[i] != b[i] {
            return false;
        }
        i = i + 1;
    }
    assert(a@ =~= b@);
    true
}

/// State of one client session.
pub struct Session {
    follows: HashSet<u64>,
    nonce: Vec<u8>,
    ended: bool,
    deltas: Ghost<Seq<Set<u64>>>,
}

impl Session {
    /// The client's current interests.
    pub closed spec fn follows(&self) -> Set<u64> {
        self.follows@
    }

    /// The payload of every heartbeat ping.
    pub closed spec fn nonce(&self) -> Seq<u8> {
        self.nonce@
    }

    /// Whether the session has been torn down.
    pub closed spec fn ended(&self) -> bool {
        self.ended
    }

    /// Every delta the session has handed to the supervisor, oldest first.
    pub closed spec fn emitted(&self) -> Seq<Set<u64>> {
        self.deltas@
    }

    /// The session's invariant: once torn down, its last delta is empty.
    pub open spec fn wf(&self) -> bool {
        self.ended() ==> self.emitted().len() > 0 && self.emitted().last() == Set::<u64>::empty()
    }

    /// A session that follows nothing and pings with `nonce`.
    pub fn new(nonce: Vec<u8>) -> (r: Session)
        ensures
            r.follows() == Set::<u64>::empty(),
            r.nonce() == nonce@,
            !r.ended(),
            r.emitted() == Seq::<Set<u64>>::empty(),
            r.wf(),
    {
        Session { follows: HashSet::new(), nonce, ended: false, deltas: Ghost(Seq::empty()) }
    }

    /// Whether a tweet by `author` goes to this client.
    pub fn wants(&self, author: u64) -> (r: bool)
        ensures
            r == self.follows().contains(author),
    {
        self.follows.contains(&author)
    }

    /// The payload of the next heartbeat ping.
    pub fn heartbeat(&self) -> (r: Vec<u8>)
        ensures
            r@ == self.nonce(),
    {
        let mut r: Vec<u8> = Vec::new();
        for i in 0..self.nonce.len()
            invariant
                r@ == self.nonce@.subrange(0, i as int),
        {
            r.push(self.nonce[i]);
            assert(r@ =~= self.nonce@.subrange(0, i + 1));
        }
        assert(r@ =~= self.nonce@);
        r
    }

    /// Applies an interest edit to the current interests.
    fn edit(&mut self, msg: ClientMessage)
        ensures
            final(self).follows() == edited_follows(old(self).follows(), msg),
            final(self).nonce() == old(self).nonce(),
            final(self).ended() == old(self).ended(),
            final(self).emitted() == old(self).emitted(),
    {
        match msg {
            ClientMessage::SetSubscriptions(s) => {
                self.follows = s;
            },
            ClientMessage::InsertSubscriptions(s) => {
                let items = set_elements(&s);
                let ghost start = self.follows@;
                for i in 0..items.len()
                    invariant
                        self.follows@ == start.union(items@.subrange(0, i as int).to_set()),
                        self.nonce@ == old(self).nonce@,
                        self.ended == old(self).ended,
                        self.deltas@ == old(self).deltas@,
                {
                    proof {
                        let v = items@;
                        assert(v.subrange(0, i + 1) =~= v.subrange(0, i as int) + seq![v[i as int]]);
                        Seq::lemma_to_set_insert_commutes(v.subrange(0, i as int), v[i as int]);
                    }
                    self.follows.insert(items[i]);
                    assert(self.follows@ =~= start.union(items@.subrange(0, i + 1).to_set()));
                }
                assert(items@.subrange(0, items@.len() as int) == items@);
            },
            ClientMessage::RemoveSubscriptions(s) => {
                let items = set_elements(&s);
                let ghost start = self.follows@;
                for i in 0..items.len()
                    invariant
                        self.follows@ == start.difference(items@.subrange(0, i as int).to_set()),
                        self.nonce@ == old(self).nonce@,
                        self.ended == old(self).ended,
                        self.deltas@ == old(self).deltas@,
                {
                    proof {
                        let v = items@;
                        assert(v.subrange(0, i + 1) =~= v.subrange(0, i as int) + seq![v[i as int]]);
                        Seq::lemma_to_set_insert_commutes(v.subrange(0, i as int), v[i as int]);
                    }
                    self.follows.remove(&items[i]);
                    assert(self.follows@ =~= start.difference(
                        items@.subrange(0, i + 1).to_set(),
                    ));
                }
                assert(items@.subrange(0, items@.len() as int) == items@);
            },
            ClientMessage::Exit => {},
        }
    }

    /// Handles a frame from the client.
    ///
    /// An interest command replaces, extends or trims the interests and
    /// answers with the full new set, which goes to the supervisor first.
    /// `exit` wakes the lifeline without an answer. An undecodable text frame
    /// is answered with a protocol error and the session goes on. A pong must
    /// carry the ping nonce. A close frame is answered with a close frame and
    /// ends the session. Binary frames and pings are ignored.
    pub fn handle_ws_message(&mut self, frame: Frame) -> (reaction: Reaction)
        requires
            !old(self).ended(),
        ensures
            !final(self).ended(),
            final(self).nonce() == old(self).nonce(),
            final(self).wf(),
            match frame {
                Frame::Command(ClientMessage::Exit) => {
                    &&& reaction is Lifeline
                    &&& final(self).follows() == old(self).follows()
                    &&& final(self).emitted() == old(self).emitted()
                },
                Frame::Command(msg) => {
                    let follows = edited_follows(old(self).follows(), msg);
                    &&& final(self).follows() == follows
                    &&& final(self).emitted() == old(self).emitted().push(follows)
                    &&& reaction matches Reaction::Update { delta, reply }
                    &&& delta@ == follows
                    &&& reply matches ServerMessage::AckSubscriptions(ack)
                    &&& ack@ == follows
                },
                _ => {
                    &&& final(self).follows() == old(self).follows()
                    &&& final(self).emitted() == old(self).emitted()
                    &&& match frame {
                        Frame::Malformed(d) => reaction == Reaction::Reply(
                            ServerMessage::ProtocolError(d),
                        ),
                        Frame::Pong(p) => if p@ == old(self).nonce() {
                            reaction is Ignore
                        } else {
                            reaction == Reaction::Fail(SessionError::InvalidPong)
                        },
                        Frame::Close => reaction is CloseAndEnd,
                        _ => reaction is Ignore,
                    }
                },
            },
    {
        match frame {
            Frame::Command(ClientMessage::Exit) => Reaction::Lifeline,
            Frame::Command(msg) => {
                self.edit(msg);
                let delta = copy_set(&self.follows);
                let ack = copy_set(&self.follows);
                proof {
                    self.deltas@ = self.deltas@.push(self.follows@);
                }
                Reaction::Update { delta, reply: ServerMessage::AckSubscriptions(ack) }
            },
            Frame::Malformed(description) => Reaction::Reply(
                ServerMessage::ProtocolError(description),
            ),
            Frame::Pong(payload) => {
                if same_bytes(&payload, &self.nonce) {
                    Reaction::Ignore
                } else {
                    Reaction::Fail(SessionError::InvalidPong)
                }
            },
            Frame::Close => Reaction::CloseAndEnd,
            Frame::Binary => Reaction::Ignore,
            Frame::Ping => Reaction::Ignore,
        }
    }

    /// Ends the session and returns its final delta: the empty set, which
    /// withdraws every interest of the client.
    pub fn teardown(&mut self) -> (delta: HashSet<u64>)
        requires
            !old(self).ended(),
        ensures
            delta@ == Set::<u64>::empty(),
            final(self).ended(),
            final(self).follows() == Set::<u64>::empty(),
            final(self).emitted() == old(self).emitted().push(Set::<u64>::empty()),
            final(self).wf(),
    {
        self.follows = HashSet::new();
        self.ended = true;
        proof {
            self.deltas@ = self.deltas@.push(Set::<u64>::empty());
        }
        HashSet::new()
    }
}

/// Setting the same interests twice leaves the client's interests, and the
/// interest map the two deltas lead to, as setting them once does.
pub proof fn lemma_set_twice(m: Map<u64, Set<u64>>, cid: u64, start: Set<u64>, s: HashSet<u64>)
    ensures
        ({
            let once = edited_follows(start, ClientMessage::SetSubscriptions(s));
            let twice = edited_follows(once, ClientMessage::SetSubscriptions(s));
            &&& twice == once
            &&& after_delta(after_delta(m, cid, once), cid, twice) == after_delta(m, cid, once)
        }),
{
    lemma_latest_delta_wins(m, cid, s@, s@);
}

/// Inserting `a` and then `b` gives the interests, and the interest map,
/// that setting the union of `a` and `b` gives, provided the interests held before are among
/// the union of `a` and `b` (otherwise the inserts keep them and the set drops them).
pub proof fn lemma_insert_insert_is_set_union(
    m: Map<u64, Set<u64>>,
    cid: u64,
    start: Set<u64>,
    a: HashSet<u64>,
    b: HashSet<u64>,
)
    requires
        start.subset_of(a@.union(b@)),
    ensures
        ({
            let first = edited_follows(start, ClientMessage::InsertSubscriptions(a));
            let second = edited_follows(first, ClientMessage::InsertSubscriptions(b));
            &&& second == a@.union(b@)
            &&& after_delta(after_delta(m, cid, first), cid, second) == after_delta(
                m,
                cid,
                a@.union(b@),
            )
        }),
{
    let first = start.union(a@);
    let second = first.union(b@);
    assert(second =~= a@.union(b@));
    lemma_latest_delta_wins(m, cid, first, second);
}

/// Inserting `s` and then removing `s` gives back the interests held before,
/// and the interest map that those interests give, provided none of `s` was
/// held before (otherwise the removal drops it too).
pub proof fn lemma_insert_remove_restores(
    m: Map<u64, Set<u64>>,
    cid: u64,
    start: Set<u64>,
    s: HashSet<u64>,
)
    requires
        start.disjoint(s@),
    ensures
        ({
            let inserted = edited_follows(start, ClientMessage::InsertSubscriptions(s));
            let removed = edited_follows(inserted, ClientMessage::RemoveSubscriptions(s));
            &&& removed == start
            &&& after_delta(after_delta(m, cid, inserted), cid, removed) == after_delta(
                m,
                cid,
                start,
            )
        }),
{
    let inserted = start.union(s@);
    assert(inserted.difference(s@) =~= start);
    lemma_latest_delta_wins(m, cid, inserted, start);
}

/// Once a session has ended, the last delta it emitted is the empty set.
pub proof fn lemma_last_delta_empty(s: &Session)
    requires
        s.wf(),
        s.ended(),
    ensures
        s.emitted().len() > 0,
        s.emitted().last() == Set::<u64>::empty(),
{
}

} // verus!
