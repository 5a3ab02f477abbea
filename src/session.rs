//! The per-connection handshake and relay state machine.
//!
//! A session first takes a display name, then the name of a peer (and, when
//! several sessions share that name, the id of one of them), and from then on
//! hands each text it receives to the chosen peer's relay channel.

use vstd::prelude::*;
use crate::registry::{ids_of, Registry};
use crate::text::prefixed;

verus! {

/// Where a session stands in the handshake.
#[derive(Debug, PartialEq, Eq)]
pub enum SessionState {
    AwaitingUsername,
    AwaitingRecipient,
    /// Several sessions use the name held here; the client must pick an id.
    AwaitingRecipientChoice(String),
    Ready,
}

/// One live connection: its id, the display name it chose, the session it
/// relays to, and its handshake state.
#[derive(Debug, PartialEq, Eq)]
pub struct Session {
    pub id: String,
    pub username: Option<String>,
    pub connected_to: Option<String>,
    pub state: SessionState,
}

/// A text handed to another session's relay channel.
#[derive(Debug, PartialEq, Eq)]
pub struct Relay {
    pub to: String,
    pub payload: String,
}

/// What a session sends back on its own connection.
#[derive(Debug, PartialEq, Eq)]
pub enum Reply {
    Text(String),
    Pong(Vec<u8>),
    Close,
    Nothing,
}

/// The result of handling one inbound frame.
#[derive(Debug, PartialEq, Eq)]
pub struct Outcome {
    pub reply: Reply,
    pub relayed: Option<Relay>,
}

/// An inbound frame, as the transport delivers it.
#[derive(Debug, PartialEq, Eq)]
pub enum Inbound {
    Text(String),
    Ping(Vec<u8>),
    Pong,
    Close,
    Other,
}

pub open spec fn prompt_text() -> Seq<char> {
    "Enter the username of the person you want to connect with:"@
}

pub open spec fn no_users_text() -> Seq<char> {
    "No users found with that name."@
}

pub open spec fn choose_header() -> Seq<char> {
    "Multiple users found. Please choose a UUID:\n"@
}

pub open spec fn invalid_id_text() -> Seq<char> {
    "Invalid UUID. Please try again."@
}

pub open spec fn unknown_target_text() -> Seq<char> {
    "User UUID not found"@
}

pub open spec fn offline_text() -> Seq<char> {
    "The recipient is no longer online."@
}

pub open spec fn unconnected_text() -> Seq<char> {
    "You are not connected to anyone yet."@
}

pub open spec fn connected_text(id: Seq<char>) -> Seq<char> {
    "Connected to "@ + id
}

pub open spec fn sent_text(id: Seq<char>) -> Seq<char> {
    "Message sent to "@ + id
}

/// One line of the list of candidates: `- <name> (UUID: <id>)`.
pub open spec fn choice_line(name: Seq<char>, id: Seq<char>) -> Seq<char> {
    "- "@ + name + " (UUID: "@ + id + ")"@
}

/// The lines of the list of candidates, joined by newlines.
pub open spec fn choice_lines(name: Seq<char>, ids: Seq<Seq<char>>) -> Seq<char>
    decreases ids.len(),
{
    if ids.len() == 0 {
        Seq::empty()
    } else if ids.len() == 1 {
        choice_line(name, ids[0])
    } else {
        choice_lines(name, ids.drop_last()) + "\n"@ + choice_line(name, ids.last())
    }
}

/// The reply listing the sessions that share a name.
pub open spec fn choice_text(name: Seq<char>, ids: Seq<Seq<char>>) -> Seq<char> {
    choose_header() + choice_lines(name, ids)
}

/// The payload relayed for a chat text: the sender's name (or `anon`), a
/// colon and a space, then the text.
pub open spec fn chat_payload(name: Option<String>, text: Seq<char>) -> Seq<char> {
    match name {
        Some(n) => n@ + ": "@ + text,
        None => "anon"@ + ": "@ + text,
    }
}

pub open spec fn opt_view(o: Option<String>) -> Option<Seq<char>> {
    match o {
        Some(s) => Some(s@),
        None => None,
    }
}

/// The reply is the text `s`.
pub open spec fn says(r: Outcome, s: Seq<char>) -> bool {
    match r.reply {
        Reply::Text(t) => t@ == s,
        _ => false,
    }
}

/// Nothing was handed to another session.
pub open spec fn relays_nothing(r: Outcome) -> bool {
    r.relayed is None
}

/// `payload` was handed to the relay channel of session `to`.
pub open spec fn relays(r: Outcome, to: Seq<char>, payload: Seq<char>) -> bool {
    match r.relayed {
        Some(m) => m.to@ == to && m.payload@ == payload,
        None => false,
    }
}

/// A move of one inbound frame: staying, taking the name, finding the peer
/// (directly, or by way of a choice among several), or choosing one of them.
pub open spec fn allowed_move(a: SessionState, b: SessionState) -> bool {
    ||| a == b
    ||| a is AwaitingUsername && b is AwaitingRecipient
    ||| a is AwaitingRecipient && (b is AwaitingRecipientChoice || b is Ready)
    ||| a is AwaitingRecipientChoice && b is Ready
}

/// No relay channel changed, nor the directory or the username index.
pub open spec fn unchanged(ra: Registry, rb: Registry) -> bool {
    &&& rb.live() == ra.live()
    &&& rb.index() == ra.index()
    &&& rb.sent() == ra.sent()
}

/// `msg` was handed to the channel of session `id`, behind what it held;
/// nothing else changed.
pub open spec fn pushed(ra: Registry, rb: Registry, id: Seq<char>, msg: Seq<char>) -> bool {
    &&& rb.live() == ra.live()
    &&& rb.index() == ra.index()
    &&& rb.sent() == ra.sent().insert(id, ra.log(id).push(msg))
}

/// What connecting to `target` does: the own id `me` goes to the target's
/// channel before the reply confirms, or, when the target is not live, the
/// reply says so and no channel changes.
pub open spec fn connect_result(r: Outcome, ra: Registry, rb: Registry, me: Seq<char>, target: Seq<char>) -> bool {
    if ra.live().contains(target) {
        relays(r, target, me) && says(r, connected_text(target)) && pushed(ra, rb, target, me)
    } else {
        relays_nothing(r) && says(r, unknown_target_text()) && unchanged(ra, rb)
    }
}

/// What relaying a chat text does: the payload goes to the target's channel
/// and the reply acknowledges it, or, when the target is not live or there is
/// none, the reply says so and no channel changes.
pub open spec fn chat_result(r: Outcome, s: Session, ra: Registry, rb: Registry, text: Seq<char>) -> bool {
    match s.connected_to {
        Some(t) => if ra.live().contains(t@) {
            &&& relays(r, t@, chat_payload(s.username, text))
            &&& says(r, sent_text(t@))
            &&& pushed(ra, rb, t@, chat_payload(s.username, text))
        } else {
            relays_nothing(r) && says(r, offline_text()) && unchanged(ra, rb)
        },
        None => relays_nothing(r) && says(r, unconnected_text()) && unchanged(ra, rb),
    }
}

/// The state holds a pending choice among the sessions named `name`.
pub open spec fn awaits_choice(st: SessionState, name: Seq<char>) -> bool {
    match st {
        SessionState::AwaitingRecipientChoice(p) => p@ == name,
        _ => false,
    }
}

/// `b` is `a` after it chose `target`: it is ready and connected to `target`.
pub open spec fn selected(a: Session, b: Session, target: Seq<char>) -> bool {
    &&& b.state is Ready
    &&& opt_view(b.connected_to) == Some(target)
    &&& b.id == a.id
    &&& b.username == a.username
}

/// What handling the text `text` does, from session `a` and registry `ra` to
/// session `b`, registry `rb` and outcome `r`.
pub open spec fn text_result(a: Session, b: Session, ra: Registry, rb: Registry, text: Seq<char>, r: Outcome) -> bool {
    match a.state {
        SessionState::AwaitingUsername => {
            &&& opt_view(b.username) == Some(text)
            &&& b.state is AwaitingRecipient
            &&& b.connected_to == a.connected_to
            &&& rb.index() == ra.index().insert(
                text,
                ra.members(text).insert(a.id@),
            )
            &&& rb.live() == ra.live()
            &&& rb.sent() == ra.sent()
            &&& says(r, prompt_text())
            &&& relays_nothing(r)
        },
        SessionState::AwaitingRecipient => {
            let ms = ra.members(text);
            &&& ms.finite()
            &&& ms.len() == 0 ==> {
                &&& b == a
                &&& unchanged(ra, rb)
                &&& says(r, no_users_text())
                &&& relays_nothing(r)
            }
            &&& ms.len() == 1 ==> exists|t: Seq<char>| {
                &&& #[trigger] ms.contains(t)
                &&& selected(a, b, t)
                &&& connect_result(r, ra, rb, a.id@, t)
            }
            &&& ms.len() >= 2 ==> {
                &&& awaits_choice(b.state, text)
                &&& b.username == a.username
                &&& b.connected_to == a.connected_to
                &&& unchanged(ra, rb)
                &&& relays_nothing(r)
                &&& exists|ids: Seq<Seq<char>>| {
                    &&& ids.no_duplicates()
                    &&& #[trigger] ids.to_set() == ms
                    &&& says(r, choice_text(text, ids))
                }
            }
        },
        SessionState::AwaitingRecipientChoice(_) => {
            if ra.live().contains(text) {
                &&& selected(a, b, text)
                &&& connect_result(r, ra, rb, a.id@, text)
            } else {
                &&& b == a
                &&& unchanged(ra, rb)
                &&& says(r, invalid_id_text())
                &&& relays_nothing(r)
            }
        },
        SessionState::Ready => {
            &&& b == a
            &&& chat_result(r, a, ra, rb, text)
        },
    }
}

fn text_reply(s: &str) -> (r: Outcome)
    ensures
        says(r, s@),
        relays_nothing(r),
{
    Outcome { reply: Reply::Text(String::from_str(s)), relayed: None }
}

/// Builds the list of candidates sharing `name`, one line per id.
pub fn choice_list(name: &str, ids: &Vec<String>) -> (r: String)
    ensures
        r@ == choice_text(name@, ids_of(ids@)),
{
    let mut out = String::from_str("Multiple users found. Please choose a UUID:\n");
    let mut i: usize = 0;
    while i < ids.len()
        invariant
            i <= ids.len(),
            out@ == choose_header() + choice_lines(name@, ids_of(ids@).take(i as int)),
        decreases ids.len() - i,
    {
        let ghost before = ids_of(ids@).take(i as int);
        if i > 0 {
            out.append("\n");
        }
        out.append("- ");
        out.append(name);
        out.append(" (UUID: ");
        out.append(ids[i].as_str());
        out.append(")");
        proof {
            let after = ids_of(ids@).take(i + 1);
            assert(after.drop_last() =~= before);
            assert(after.last() == ids[i as int]@);
            if i == 0 {
                assert(before.len() == 0);
            }
        }
        i = i + 1;
    }
    assert(ids_of(ids@).take(ids.len() as int) =~= ids_of(ids@));
    out
}

impl Session {
    /// A session has a display name exactly when it is past the first text,
    /// and a target exactly when it is ready.
    pub open spec fn wf(&self) -> bool {
        &&& (self.state is AwaitingUsername <==> self.username is None)
        &&& (self.state is Ready <==> self.connected_to is Some)
    }

    /// A new session with id `id`, awaiting its display name.
    pub fn new(id: String) -> (r: Session)
        ensures
            r.id == id,
            r.username is None,
            r.connected_to is None,
            r.state is AwaitingUsername,
            r.wf(),
    {
        Session { id, username: None, connected_to: None, state: SessionState::AwaitingUsername }
    }

    /// Makes this session reachable through a new, empty relay channel, and
    /// returns the channel's receiving side for the forwarder.
    pub fn start(&self, reg: &mut Registry) -> (rx: flume::Receiver<String>)
        ensures
            final(reg).live() == old(reg).live().insert(self.id@),
            final(reg).index() == old(reg).index(),
            final(reg).sent() == old(reg).sent().insert(self.id@, Seq::empty()),
    {
        reg.register(self.id.clone())
    }

    /// Makes this session unreachable; the names it registered stay in the index.
    pub fn stop(&self, reg: &mut Registry)
        ensures
            final(reg).live() == old(reg).live().remove(self.id@),
            final(reg).index() == old(reg).index(),
            final(reg).sent() == old(reg).sent(),
            !final(reg).live().contains(self.id@),
    {
        reg.remove(self.id.as_str());
    }

    /// Tells session `target` that this session connected to it, and confirms
    /// that to the client.
    pub fn send_message_to_uuid(&self, reg: &mut Registry, target: &str) -> (r: Outcome)
        ensures
            connect_result(r, *old(reg), *final(reg), self.id@, target@),
    {
        if reg.send_to(target, self.id.clone()) {
            Outcome {
                reply: Reply::Text(prefixed("Connected to ", target)),
                relayed: Some(Relay { to: String::from_str(target), payload: self.id.clone() }),
            }
        } else {
            text_reply("User UUID not found")
        }
    }

    /// Handles one inbound text according to the handshake state.
    pub fn handle_text(&mut self, reg: &mut Registry, text: &str) -> (r: Outcome)
        ensures
            allowed_move(old(self).state, final(self).state),
            old(self).wf() ==> final(self).wf(),
            final(self).id == old(self).id,
            text_result(*old(self), *final(self), *old(reg), *final(reg), text@, r),
    {
        match &self.state {
            SessionState::AwaitingUsername => {
                self.username = Some(String::from_str(text));
                reg.add_membership(text, self.id.as_str());
                self.state = SessionState::AwaitingRecipient;
                text_reply("Enter the username of the person you want to connect with:")
            },
            SessionState::AwaitingRecipient => {
                let matches = reg.lookup_members(text);
                let ghost ids = ids_of(matches@);
                proof {
                    ids.unique_seq_to_set();
                }
                if matches.len() == 0 {
                    text_reply("No users found with that name.")
                } else if matches.len() == 1 {
                    let target = matches[0].clone();
                    assert(ids.contains(ids[0]));
                    assert(ids[0] == target@);
                    self.state = SessionState::Ready;
                    self.connected_to = Some(target.clone());
                    let ghost reg0 = *reg;
                    let r = self.send_message_to_uuid(reg, target.as_str());
                    assert(reg0.members(text@).contains(target@));
                    r
                } else {
                    let list = choice_list(text, &matches);
                    self.state = SessionState::AwaitingRecipientChoice(String::from_str(text));
                    let r = Outcome { reply: Reply::Text(list), relayed: None };
                    assert(says(r, choice_text(text@, ids)));
                    r
                }
            },
            SessionState::AwaitingRecipientChoice(_) => {
                if reg.lookup(text).is_some() {
                    self.connected_to = Some(String::from_str(text));
                    self.state = SessionState::Ready;
                    self.send_message_to_uuid(reg, text)
                } else {
                    text_reply("Invalid UUID. Please try again.")
                }
            },
            SessionState::Ready => handle_chat_message(text, self, reg),
        }
    }
    /// Handles one inbound frame: texts drive the handshake, a ping is
    /// answered with a pong carrying the same bytes, a close makes the session
    /// unreachable and ends the connection, anything else is ignored.
    pub fn handle(&mut self, reg: &mut Registry, frame: Inbound) -> (r: Outcome)
        ensures
            allowed_move(old(self).state, final(self).state),
            old(self).wf() ==> final(self).wf(),
            final(self).id == old(self).id,
            match frame {
                Inbound::Text(t) => text_result(*old(self), *final(self), *old(reg), *final(reg), t@, r),
                Inbound::Ping(b) => {
                    &&& r.reply == Reply::Pong(b)
                    &&& relays_nothing(r)
                    &&& *final(self) == *old(self)
                    &&& *final(reg) == *old(reg)
                },
                Inbound::Close => {
                    &&& r.reply is Close
                    &&& relays_nothing(r)
                    &&& *final(self) == *old(self)
                    &&& final(reg).live() == old(reg).live().remove(old(self).id@)
                    &&& final(reg).index() == old(reg).index()
                    &&& final(reg).sent() == old(reg).sent()
                },
                _ => {
                    &&& r.reply is Nothing
                    &&& relays_nothing(r)
                    &&& *final(self) == *old(self)
                    &&& *final(reg) == *old(reg)
                },
            },
    {
        match frame {
            Inbound::Text(text) => self.handle_text(reg, text.as_str()),
            Inbound::Ping(bytes) => Outcome { reply: Reply::Pong(bytes), relayed: None },
            Inbound::Close => {
                self.stop(reg);
                Outcome { reply: Reply::Close, relayed: None }
            },
            _ => Outcome { reply: Reply::Nothing, relayed: None },
        }
    }
}

/// Relays `text` from `session` to the session it is connected to.
pub fn handle_chat_message(text: &str, session: &Session, reg: &mut Registry) -> (r: Outcome)
    ensures
        chat_result(r, *session, *old(reg), *final(reg), text@),
{
    match &session.connected_to {
        Some(target) => {
            let mut payload = match &session.username {
                Some(name) => name.clone(),
                None => String::from_str("anon"),
            };
            payload.append(": ");
            payload.append(text);
            if reg.send_to(target.as_str(), payload.clone()) {
                Outcome {
                    reply: Reply::Text(prefixed("Message sent to ", target.as_str())),
                    relayed: Some(Relay { to: target.clone(), payload }),
                }
            } else {
                text_reply("The recipient is no longer online.")
            }
        },
        None => text_reply("You are not connected to anyone yet."),
    }
}

/// Two texts handled back to back by a ready session whose target is live
/// reach that target's channel in the order they came, each as the sender's
/// name followed by the text; no other channel changes.
pub proof fn lemma_back_to_back(
    s0: Session,
    s1: Session,
    s2: Session,
    r0: Registry,
    r1: Registry,
    r2: Registry,
    p: Seq<char>,
    q: Seq<char>,
    o1: Outcome,
    o2: Outcome,
    target: Seq<char>,
)
    requires
        s0.state is Ready,
        opt_view(s0.connected_to) == Some(target),
        r0.live().contains(target),
        text_result(s0, s1, r0, r1, p, o1),
        text_result(s1, s2, r1, r2, q, o2),
    ensures
        relays(o1, target, chat_payload(s0.username, p)),
        relays(o2, target, chat_payload(s0.username, q)),
        s2 == s0,
        r2.live() == r0.live(),
        r2.index() == r0.index(),
        r2.log(target) == r0.log(target).push(chat_payload(s0.username, p)).push(chat_payload(s0.username, q)),
        forall|id: Seq<char>| id != target ==> #[trigger] r2.log(id) == r0.log(id),
{
}

} // verus!
