use chat_server::parser::Command;
use chat_server::session::deliver;
use chat_server::session::registration_reply;
use chat_server::session::Action;
use chat_server::session::ChatServer;
use chat_server::session::Reply;
use chat_server::session::Session;
use futures::channel::mpsc::unbounded;
use futures::channel::mpsc::UnboundedReceiver;
use futures::channel::mpsc::UnboundedSender;

fn register(name: &str, password: &str) -> Command {
    Command::Register { name: name.to_string(), password: password.to_string() }
}

fn login(name: &str, password: &str) -> Command {
    Command::Login { name: name.to_string(), password: password.to_string() }
}

fn text(name: &str, content: &str) -> Command {
    Command::Text { name: name.to_string(), content: content.to_string() }
}

fn reply_of(action: Action) -> Reply {
    match action {
        Action::Reply(r) => r,
        _ => panic!("expected a reply"),
    }
}

/// A server with `alice` and `bob` registered, plus a session and channel
/// pair for each, both logged in.
fn two_online_users() -> (
    ChatServer,
    Session,
    UnboundedSender<String>,
    UnboundedReceiver<String>,
    Session,
    UnboundedSender<String>,
    UnboundedReceiver<String>,
) {
    let mut server = ChatServer::new();
    let mut alice = server.new_session();
    let mut bob = server.new_session();
    let (alice_tx, alice_rx) = unbounded::<String>();
    let (bob_tx, bob_rx) = unbounded::<String>();
    assert!(matches!(
        server.step(&mut alice, register("alice", "pa"), &alice_tx),
        Action::Registered
    ));
    assert!(matches!(
        server.step(&mut bob, register("bob", "pb"), &bob_tx),
        Action::Registered
    ));
    assert_eq!(
        reply_of(server.step(&mut alice, login("alice", "pa"), &alice_tx)),
        Reply::LoginSuccessful
    );
    assert_eq!(
        reply_of(server.step(&mut bob, login("bob", "pb"), &bob_tx)),
        Reply::LoginSuccessful
    );
    (server, alice, alice_tx, alice_rx, bob, bob_tx, bob_rx)
}

#[test]
fn registration_replies() {
    let mut server = ChatServer::new();
    let mut s = server.new_session();
    let (tx, _rx) = unbounded::<String>();
    let first = server.step(&mut s, register("alice", "pw"), &tx);
    assert!(matches!(first, Action::Registered));
    assert_eq!(registration_reply(true), Reply::RegistrationSuccessful);
    assert_eq!(registration_reply(true).text(), "Registration successful");
    assert_eq!(registration_reply(false), Reply::RegistrationError);

    // Same name again: refused, directory unchanged.
    let second = reply_of(server.step(&mut s, register("alice", "other"), &tx));
    assert_eq!(second, Reply::RegistrationError);
    assert_eq!(second.text(), "Registration error");
    assert_eq!(server.user_count(), 1);
}

#[test]
fn login_error_replies() {
    let mut server = ChatServer::new();
    let mut s = server.new_session();
    let (tx, _rx) = unbounded::<String>();
    assert_eq!(reply_of(server.step(&mut s, login("alice", "pw"), &tx)), Reply::UserDoesNotExist);
    assert_eq!(reply_of(server.step(&mut s, login("alice", "pw"), &tx)).text(), "User does not exist");
    server.step(&mut s, register("alice", "pw"), &tx);
    assert_eq!(reply_of(server.step(&mut s, login("alice", "bad"), &tx)), Reply::WrongPassword);
    assert_eq!(reply_of(server.step(&mut s, login("alice", "bad"), &tx)).text(), "Wrong Password");
    assert_eq!(reply_of(server.step(&mut s, login("alice", "pw"), &tx)), Reply::LoginSuccessful);
    assert_eq!(reply_of(server.step(&mut s, login("alice", "pw"), &tx)).text(), "Login Successful");
}

#[test]
fn text_delivers_exact_message() {
    let (mut server, mut alice, alice_tx, mut alice_rx, _bob, _bob_tx, mut bob_rx) =
        two_online_users();
    let action = server.step(&mut alice, text("bob", "hello"), &alice_tx);
    match action {
        Action::Deliver { sink, message } => {
            assert_eq!(message, "From alice: hello");
            deliver(&sink, message);
        },
        _ => panic!("expected a delivery"),
    }
    assert_eq!(bob_rx.try_recv().unwrap(), "From alice: hello");
    // No reply and no echo on alice's own connection.
    assert!(alice_rx.try_recv().is_err());
}

#[test]
fn text_to_offline_user() {
    let (mut server, mut alice, alice_tx, _alice_rx, _bob, _bob_tx, mut bob_rx) =
        two_online_users();
    let action = server.step(&mut alice, text("carol", "hi"), &alice_tx);
    assert_eq!(reply_of(action), Reply::UserIsNotOnline);
    assert_eq!(Reply::UserIsNotOnline.text(), "User is not online");
    assert!(bob_rx.try_recv().is_err());
}

#[test]
fn anonymous_text_is_refused() {
    let (mut server, _alice, _alice_tx, _alice_rx, _bob, _bob_tx, mut bob_rx) =
        two_online_users();
    // A third session that never logged in.
    let mut anon = server.new_session();
    let (anon_tx, _anon_rx) = unbounded::<String>();
    let action = server.step(&mut anon, text("bob", "hi"), &anon_tx);
    assert_eq!(reply_of(action), Reply::LoginFirst);
    assert_eq!(Reply::LoginFirst.text(), "Login first");
    // Nothing was delivered although bob is online.
    assert!(bob_rx.try_recv().is_err());
}

#[test]
fn quit_removes_presence() {
    let (mut server, mut alice, alice_tx, _alice_rx, mut bob, bob_tx, _bob_rx) =
        two_online_users();
    let action = server.step(&mut bob, Command::Quit, &bob_tx);
    assert!(matches!(action, Action::Terminate));
    server.disconnect(&bob);
    let action = server.step(&mut alice, text("bob", "hi"), &alice_tx);
    assert_eq!(reply_of(action), Reply::UserIsNotOnline);
}

#[test]
fn relogin_supersedes_earlier_session() {
    let (mut server, mut alice, alice_tx, _alice_rx, mut bob, bob_tx, mut bob_rx) =
        two_online_users();
    // bob logs in again from a second connection.
    let mut bob2 = server.new_session();
    let (bob2_tx, mut bob2_rx) = unbounded::<String>();
    assert_eq!(
        reply_of(server.step(&mut bob2, login("bob", "pb"), &bob2_tx)),
        Reply::LoginSuccessful
    );
    // A text to bob reaches only the newer connection.
    match server.step(&mut alice, text("bob", "hi"), &alice_tx) {
        Action::Deliver { sink, message } => deliver(&sink, message),
        _ => panic!("expected a delivery"),
    }
    assert!(bob_rx.try_recv().is_err());
    assert_eq!(bob2_rx.try_recv().unwrap(), "From alice: hi");
    // The superseded session still functions for sending.
    match server.step(&mut bob, text("alice", "ping"), &bob_tx) {
        Action::Deliver { sink, message } => {
            assert_eq!(message, "From bob: ping");
            deliver(&sink, message);
        },
        _ => panic!("expected a delivery"),
    }
    // The old session's cleanup must not evict the newer entry.
    server.disconnect(&bob);
    match server.step(&mut alice, text("bob", "again"), &alice_tx) {
        Action::Deliver { sink, message } => deliver(&sink, message),
        _ => panic!("expected a delivery"),
    }
    assert_eq!(bob2_rx.try_recv().unwrap(), "From alice: again");
}

#[test]
fn unknown_command_reply() {
    let mut server = ChatServer::new();
    let mut s = server.new_session();
    let (tx, _rx) = unbounded::<String>();
    let action = server.handle_line(&mut s, "make me a sandwich", &tx);
    assert_eq!(reply_of(action), Reply::UnknownCommand);
    assert_eq!(Reply::UnknownCommand.text(), "Unknown command");
}

#[test]
fn handle_line_parses_and_steps() {
    let mut server = ChatServer::new();
    let mut s = server.new_session();
    let (tx, _rx) = unbounded::<String>();
    assert!(matches!(
        server.handle_line(&mut s, "reg -u alice -p pw", &tx),
        Action::Registered
    ));
    assert_eq!(
        reply_of(server.handle_line(&mut s, "login -u alice -p pw", &tx)),
        Reply::LoginSuccessful
    );
}

#[test]
fn restart_reproduces_directory_and_empty_presence() {
    let (server, _alice, _alice_tx, _alice_rx, _bob, _bob_tx, _bob_rx) = two_online_users();
    let snapshot = server.snapshot();
    assert_eq!(snapshot.len(), 2);

    // A new process: same directory, nobody online.
    let mut restarted = ChatServer::from_users(snapshot);
    assert_eq!(restarted.user_count(), 2);
    let mut s2 = restarted.new_session();
    let (tx2, _rx2) = unbounded::<String>();
    assert_eq!(
        reply_of(restarted.step(&mut s2, login("alice", "pa"), &tx2)),
        Reply::LoginSuccessful
    );
    // bob was online before the restart, but presence is not persisted.
    assert_eq!(
        reply_of(restarted.step(&mut s2, text("bob", "hi"), &tx2)),
        Reply::UserIsNotOnline
    );
}
