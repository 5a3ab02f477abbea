use yggdrasil::registry::Registry;
use yggdrasil::session::{handle_chat_message, Inbound, Outcome, Relay, Reply, Session, SessionState};

const PROMPT: &str = "Enter the username of the person you want to connect with:";

fn text(s: &str) -> Inbound {
    Inbound::Text(s.to_string())
}

fn reply_text(o: &Outcome) -> String {
    match &o.reply {
        Reply::Text(t) => t.clone(),
        other => panic!("expected a text reply, got {:?}", other),
    }
}

fn connect(reg: &mut Registry, id: &str) -> (Session, flume::Receiver<String>) {
    let s = Session::new(id.to_string());
    let rx = s.start(reg);
    (s, rx)
}

#[test]
fn end_to_end_alice_reaches_bob() {
    let mut reg = Registry::new();
    let (mut a, rx_a) = connect(&mut reg, "id-a");
    let o = a.handle(&mut reg, text("alice"));
    assert_eq!(reply_text(&o), PROMPT);
    let (mut b, rx_b) = connect(&mut reg, "id-b");
    let o = b.handle(&mut reg, text("bob"));
    assert_eq!(reply_text(&o), PROMPT);

    let o = a.handle(&mut reg, text("bob"));
    assert_eq!(reply_text(&o), "Connected to id-b");
    assert_eq!(o.relayed, Some(Relay { to: "id-b".to_string(), payload: "id-a".to_string() }));
    assert_eq!(a.state, SessionState::Ready);
    assert_eq!(a.connected_to, Some("id-b".to_string()));
    assert_eq!(rx_b.try_recv().unwrap(), "id-a");

    let o = a.handle(&mut reg, text("hello"));
    assert_eq!(reply_text(&o), "Message sent to id-b");
    assert_eq!(rx_b.try_recv().unwrap(), "alice: hello");
    assert!(rx_a.try_recv().is_err());
    assert!(rx_b.try_recv().is_err());
}

#[test]
fn unknown_name_keeps_awaiting_recipient() {
    let mut reg = Registry::new();
    let (mut a, _rx) = connect(&mut reg, "id-a");
    a.handle(&mut reg, text("alice"));
    let o = a.handle(&mut reg, text("nobody"));
    assert_eq!(reply_text(&o), "No users found with that name.");
    assert_eq!(o.relayed, None);
    assert_eq!(a.state, SessionState::AwaitingRecipient);
    assert_eq!(a.connected_to, None);
}

#[test]
fn shared_name_asks_for_a_choice() {
    let mut reg = Registry::new();
    let (mut a, _rx_a) = connect(&mut reg, "id-a");
    let (mut b1, rx_b1) = connect(&mut reg, "id-b1");
    let (mut b2, rx_b2) = connect(&mut reg, "id-b2");
    a.handle(&mut reg, text("alice"));
    b1.handle(&mut reg, text("bob"));
    b2.handle(&mut reg, text("bob"));

    let o = a.handle(&mut reg, text("bob"));
    let t = reply_text(&o);
    let first = "Multiple users found. Please choose a UUID:\n- bob (UUID: id-b1)\n- bob (UUID: id-b2)";
    let second = "Multiple users found. Please choose a UUID:\n- bob (UUID: id-b2)\n- bob (UUID: id-b1)";
    assert!(t == first || t == second, "{}", t);
    assert_eq!(o.relayed, None);
    assert_eq!(a.state, SessionState::AwaitingRecipientChoice("bob".to_string()));

    let o = a.handle(&mut reg, text("id-zz"));
    assert_eq!(reply_text(&o), "Invalid UUID. Please try again.");
    assert_eq!(a.state, SessionState::AwaitingRecipientChoice("bob".to_string()));

    let o = a.handle(&mut reg, text("id-b2"));
    assert_eq!(reply_text(&o), "Connected to id-b2");
    assert_eq!(a.state, SessionState::Ready);
    assert_eq!(rx_b2.try_recv().unwrap(), "id-a");
    assert!(rx_b1.try_recv().is_err());
}

#[test]
fn chat_payloads_keep_their_order() {
    let mut reg = Registry::new();
    let (mut a, _rx_a) = connect(&mut reg, "id-a");
    let (mut b, rx_b) = connect(&mut reg, "id-b");
    a.handle(&mut reg, text("alice"));
    b.handle(&mut reg, text("bob"));
    a.handle(&mut reg, text("bob"));
    assert_eq!(rx_b.try_recv().unwrap(), "id-a");
    a.handle(&mut reg, text("first"));
    a.handle(&mut reg, text("second"));
    assert_eq!(rx_b.try_recv().unwrap(), "alice: first");
    assert_eq!(rx_b.try_recv().unwrap(), "alice: second");
}

#[test]
fn offline_recipient_is_reported() {
    let mut reg = Registry::new();
    let (mut a, _rx_a) = connect(&mut reg, "id-a");
    let (mut b, _rx_b) = connect(&mut reg, "id-b");
    a.handle(&mut reg, text("alice"));
    b.handle(&mut reg, text("bob"));
    a.handle(&mut reg, text("bob"));
    let o = b.handle(&mut reg, Inbound::Close);
    assert_eq!(o.reply, Reply::Close);
    let o = a.handle(&mut reg, text("still there?"));
    assert_eq!(reply_text(&o), "The recipient is no longer online.");
    assert_eq!(o.relayed, None);
    assert_eq!(a.state, SessionState::Ready);
}

#[test]
fn stale_single_member_leaves_session_ready() {
    let mut reg = Registry::new();
    let (mut a, _rx_a) = connect(&mut reg, "id-a");
    let (mut b, _rx_b) = connect(&mut reg, "id-b");
    a.handle(&mut reg, text("alice"));
    b.handle(&mut reg, text("bob"));
    b.stop(&mut reg);
    let o = a.handle(&mut reg, text("bob"));
    assert_eq!(reply_text(&o), "User UUID not found");
    assert_eq!(o.relayed, None);
    assert_eq!(a.state, SessionState::Ready);
    assert_eq!(a.connected_to, Some("id-b".to_string()));
}

#[test]
fn disconnect_keeps_name_index_entry() {
    let mut reg = Registry::new();
    let (mut a, _rx_a) = connect(&mut reg, "id-a");
    a.handle(&mut reg, text("alice"));
    assert!(reg.lookup("id-a").is_some());
    a.stop(&mut reg);
    assert!(reg.lookup("id-a").is_none());
    assert_eq!(reg.lookup_members("alice"), vec!["id-a".to_string()]);
}

#[test]
fn ping_pong_and_other_frames() {
    let mut reg = Registry::new();
    let (mut a, _rx_a) = connect(&mut reg, "id-a");
    let o = a.handle(&mut reg, Inbound::Ping(vec![1, 2, 3]));
    assert_eq!(o.reply, Reply::Pong(vec![1, 2, 3]));
    let o = a.handle(&mut reg, Inbound::Pong);
    assert_eq!(o.reply, Reply::Nothing);
    let o = a.handle(&mut reg, Inbound::Other);
    assert_eq!(o.reply, Reply::Nothing);
    assert_eq!(a.state, SessionState::AwaitingUsername);
    let o = a.handle(&mut reg, Inbound::Close);
    assert_eq!(o.reply, Reply::Close);
    assert!(reg.lookup("id-a").is_none());
}

#[test]
fn chat_without_target_or_name() {
    let mut reg = Registry::new();
    let rx = reg.register("id-t".to_string());
    let mut s = Session::new("id-s".to_string());
    s.state = SessionState::Ready;
    let o = handle_chat_message("hi", &s, &mut reg);
    assert_eq!(reply_text(&o), "You are not connected to anyone yet.");
    assert!(rx.try_recv().is_err());
    s.connected_to = Some("id-t".to_string());
    let o = handle_chat_message("hi", &s, &mut reg);
    assert_eq!(reply_text(&o), "Message sent to id-t");
    assert_eq!(rx.try_recv().unwrap(), "anon: hi");
}

#[test]
fn handshake_frames_send_nothing() {
    let mut reg = Registry::new();
    let (mut a, rx_a) = connect(&mut reg, "id-a");
    let (mut b, rx_b) = connect(&mut reg, "id-b");
    a.handle(&mut reg, text("alice"));
    b.handle(&mut reg, text("alice"));
    let o = a.handle(&mut reg, text("alice"));
    assert!(matches!(a.state, SessionState::AwaitingRecipientChoice(_)));
    assert_eq!(o.relayed, None);
    a.handle(&mut reg, text("nope"));
    a.handle(&mut reg, Inbound::Ping(vec![9]));
    assert!(rx_a.try_recv().is_err());
    assert!(rx_b.try_recv().is_err());
    a.handle(&mut reg, text("id-a"));
    assert_eq!(a.state, SessionState::Ready);
    assert_eq!(rx_a.try_recv().unwrap(), "id-a");
    assert!(rx_b.try_recv().is_err());
}
