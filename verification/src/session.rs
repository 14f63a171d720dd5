//! The per-connection session state machine and the shared server state.
//!
//! A session starts anonymous, becomes authenticated on a successful login,
//! and ends with `quit` or when its connection closes.  Every command is one
//! `step` of the machine: it consults and mutates the shared directory and
//! presence registry and says what must happen next — a reply on the
//! session's own connection, a message handed to another session's sink, a
//! snapshot to persist, or termination.  The surrounding program owns the
//! connections and the durable store; every decision stands here.

use crate::directory::auth_spec;
use crate::directory::snapshot_matches;
use crate::directory::users_map;
use crate::directory::AuthResult;
use crate::directory::Directory;
use crate::directory::User;
use crate::parser::parseCommand;
use crate::parser::parse_spec;
use crate::parser::split_ws;
use crate::parser::Command;
use crate::parser::CommandView;
use crate::presence::OnlineEntry;
use crate::presence::Presence;
use crate::sink::sink_send;
use futures::channel::mpsc::UnboundedSender;
use vstd::prelude::*;
use vstd::string::StringExecFns;

verus! {

/// A reply written back on the commanding session's own connection.
#[derive(Clone, Copy, Debug, PartialEq, Eq, Structural)]
pub enum Reply {
    RegistrationSuccessful,
    RegistrationError,
    LoginSuccessful,
    WrongPassword,
    UserDoesNotExist,
    UserIsNotOnline,
    LoginFirst,
    UnknownCommand,
}

impl Reply {
    /// The exact text of this reply on the wire.
    pub open spec fn wire(self) -> Seq<char> {
        match self {
            Reply::RegistrationSuccessful => "Registration successful"@,
            Reply::RegistrationError => "Registration error"@,
            Reply::LoginSuccessful => "Login Successful"@,
            Reply::WrongPassword => "Wrong Password"@,
            Reply::UserDoesNotExist => "User does not exist"@,
            Reply::UserIsNotOnline => "User is not online"@,
            Reply::LoginFirst => "Login first"@,
            Reply::UnknownCommand => "Unknown command"@,
        }
    }

    /// The reply as an owned line of text.
    pub fn text(&self) -> (s: String)
        ensures
            s@ == self.wire(),
    {
        match self {
            Reply::RegistrationSuccessful => "Registration successful".to_owned(),
            Reply::RegistrationError => "Registration error".to_owned(),
            Reply::LoginSuccessful => "Login Successful".to_owned(),
            Reply::WrongPassword => "Wrong Password".to_owned(),
            Reply::UserDoesNotExist => "User does not exist".to_owned(),
            Reply::UserIsNotOnline => "User is not online".to_owned(),
            Reply::LoginFirst => "Login first".to_owned(),
            Reply::UnknownCommand => "Unknown command".to_owned(),
        }
    }
}

/// What a step of the session machine asks the surrounding program to do.
pub enum Action {
    /// Write this reply on the session's own connection.
    Reply(Reply),
    /// A user was inserted: persist a snapshot of the directory, then reply
    /// with `registration_reply` of the write's outcome.
    Registered,
    /// Hand `message` to `sink`, the recipient's relay queue.
    Deliver { sink: UnboundedSender<String>, message: String },
    /// End the session; `disconnect` then cleans its presence entry up.
    Terminate,
}

/// The relayed form of a text: `From <sender>: <content>`.
pub open spec fn relay_text(sender: Seq<char>, content: Seq<char>) -> Seq<char> {
    "From "@ + sender + ": "@ + content
}

/// Builds the relayed form of a text message.
pub fn compose_relay(sender: &String, content: &String) -> (m: String)
    ensures
        m@ == relay_text(sender@, content@),
{
    let mut m = "From ".to_owned();
    m.append(sender.as_str());
    m.append(": ");
    m.append(content.as_str());
    proof {
        assert(m@ =~= relay_text(sender@, content@));
    }
    m
}

/// The mathematical shape of the shared server state.
pub struct ServerView {
    pub users: Map<Seq<char>, Seq<char>>,
    pub online: Map<Seq<char>, OnlineEntry>,
    pub next_session: u64,
}

/// The mathematical shape of one session.
pub struct SessionView {
    pub id: u64,
    pub identity: Option<Seq<char>>,
}

/// One connection's state: its identifier and, once logged in, its name.
pub struct Session {
    id: u64,
    identity: Option<String>,
}

impl View for Session {
    type V = SessionView;

    closed spec fn view(&self) -> SessionView {
        SessionView {
            id: self.id,
            identity: match self.identity {
                Some(ref n) => Some(n@),
                None => None,
            },
        }
    }
}

/// The shared state every session works on: directory, presence, and the
/// counter that gives each session a fresh identifier.
pub struct ChatServer {
    directory: Directory,
    presence: Presence,
    next_session: u64,
}

impl View for ChatServer {
    type V = ServerView;

    closed spec fn view(&self) -> ServerView {
        ServerView {
            users: self.directory@,
            online: self.presence@,
            next_session: self.next_session,
        }
    }
}

/// What one step of the session machine does, for every state and command.
pub open spec fn step_spec(
    pre: ServerView,
    pre_session: SessionView,
    cmd: CommandView,
    own: UnboundedSender<String>,
    post: ServerView,
    post_session: SessionView,
    a: Action,
) -> bool {
    match cmd {
        CommandView::Register { name, password } => {
            &&& post_session == pre_session
            &&& if pre.users.contains_key(name) {
                &&& post == pre
                &&& a matches Action::Reply(r) && r == Reply::RegistrationError
            } else {
                &&& post == (ServerView {
                    users: pre.users.insert(name, password),
                    online: pre.online,
                    next_session: pre.next_session,
                })
                &&& a matches Action::Registered
            }
        },
        CommandView::Login { name, password } => {
            match auth_spec(pre.users, name, password) {
                AuthResult::NoSuchUser => {
                    &&& post == pre
                    &&& post_session == pre_session
                    &&& a matches Action::Reply(r) && r == Reply::UserDoesNotExist
                },
                AuthResult::WrongPassword => {
                    &&& post == pre
                    &&& post_session == pre_session
                    &&& a matches Action::Reply(r) && r == Reply::WrongPassword
                },
                AuthResult::Granted => {
                    &&& post == (ServerView {
                        users: pre.users,
                        online: pre.online.insert(
                            name,
                            OnlineEntry { session: pre_session.id, sink: own },
                        ),
                        next_session: pre.next_session,
                    })
                    &&& post_session == (SessionView { id: pre_session.id, identity: Some(name) })
                    &&& a matches Action::Reply(r) && r == Reply::LoginSuccessful
                },
            }
        },
        CommandView::Text { name, content } => {
            &&& post == pre
            &&& post_session == pre_session
            &&& match pre_session.identity {
                None => a matches Action::Reply(r) && r == Reply::LoginFirst,
                Some(me) => {
                    if pre.online.contains_key(name) {
                        a matches Action::Deliver { sink, message } && sink
                            == pre.online[name].sink && message@ == relay_text(me, content)
                    } else {
                        a matches Action::Reply(r) && r == Reply::UserIsNotOnline
                    }
                },
            }
        },
        CommandView::Quit => {
            &&& post == pre
            &&& post_session == pre_session
            &&& a matches Action::Terminate
        },
    }
}

impl ChatServer {
    /// A fresh server: nobody registered, nobody online.
    pub fn new() -> (s: Self)
        ensures
            s@ == (ServerView {
                users: Map::<Seq<char>, Seq<char>>::empty(),
                online: Map::<Seq<char>, OnlineEntry>::empty(),
                next_session: 0,
            }),
    {
        ChatServer { directory: Directory::new(), presence: Presence::new(), next_session: 0 }
    }

    /// The server state after a restart: the directory rebuilt from the
    /// stored records, the presence registry empty.
    pub fn from_users(users: Vec<User>) -> (s: Self)
        ensures
            s@ == (ServerView {
                users: users_map(users@),
                online: Map::<Seq<char>, OnlineEntry>::empty(),
                next_session: 0,
            }),
    {
        ChatServer {
            directory: Directory::from_users(users),
            presence: Presence::new(),
            next_session: 0,
        }
    }

    /// The full user set, one record per registered user, for the store.
    pub fn snapshot(&self) -> (r: Vec<User>)
        ensures
            snapshot_matches(r@, self@.users),
    {
        self.directory.snapshot()
    }

    /// How many users are registered.
    pub fn user_count(&self) -> (n: usize)
        ensures
            n == self@.users.dom().len(),
    {
        self.directory.len()
    }

    /// Whether another session identifier is still available.
    pub fn can_open_session(&self) -> (b: bool)
        ensures
            b == (self@.next_session < u64::MAX),
    {
        self.next_session < u64::MAX
    }

    /// Opens a session with a fresh identifier.
    pub fn new_session(&mut self) -> (s: Session)
        requires
            old(self)@.next_session < u64::MAX,
        ensures
            final(self)@ == (ServerView {
                users: old(self)@.users,
                online: old(self)@.online,
                next_session: (old(self)@.next_session + 1) as u64,
            }),
            s@ == (SessionView { id: old(self)@.next_session, identity: None }),
    {
        let id = self.next_session;
        self.next_session = self.next_session + 1;
        Session { id, identity: None }
    }

    /// Runs one parsed command of `session` against the shared state.
    pub fn step(&mut self, session: &mut Session, cmd: Command, own_sink: &UnboundedSender<
        String,
    >) -> (a: Action)
        ensures
            step_spec(
                old(self)@,
                old(session)@,
                cmd@,
                *own_sink,
                final(self)@,
                final(session)@,
                a,
            ),
    {
        match cmd {
            Command::Register { name, password } => {
                let user = User { name, password };
                match self.directory.add(&user) {
                    Ok(_) => Action::Registered,
                    Err(_) => Action::Reply(Reply::RegistrationError),
                }
            },
            Command::Login { name, password } => {
                match self.directory.authenticate(&name, &password) {
                    AuthResult::NoSuchUser => Action::Reply(Reply::UserDoesNotExist),
                    AuthResult::WrongPassword => Action::Reply(Reply::WrongPassword),
                    AuthResult::Granted => {
                        session.identity = Some(name.clone());
                        self.presence.set_online(
                            name,
                            OnlineEntry { session: session.id, sink: own_sink.clone() },
                        );
                        Action::Reply(Reply::LoginSuccessful)
                    },
                }
            },
            Command::Text { name, content } => {
                match &session.identity {
                    None => Action::Reply(Reply::LoginFirst),
                    Some(me) => {
                        match self.presence.lookup(&name) {
                            None => Action::Reply(Reply::UserIsNotOnline),
                            Some(entry) => {
                                let message = compose_relay(me, &content);
                                let sink = entry.sink.clone();
                                Action::Deliver { sink, message }
                            },
                        }
                    },
                }
            },
            Command::Quit => Action::Terminate,
        }
    }

    /// Reads one line of input: parses it and runs the resulting command;
    /// an unrecognized line is answered "Unknown command" and changes
    /// nothing.
    pub fn handle_line(&mut self, session: &mut Session, line: &str, own_sink: &UnboundedSender<
        String,
    >) -> (a: Action)
        ensures
            match parse_spec(split_ws(line@)) {
                Some(cv) => step_spec(
                    old(self)@,
                    old(session)@,
                    cv,
                    *own_sink,
                    final(self)@,
                    final(session)@,
                    a,
                ),
                None => {
                    &&& final(self)@ == old(self)@
                    &&& final(session)@ == old(session)@
                    &&& a matches Action::Reply(r) && r == Reply::UnknownCommand
                },
            },
    {
        match parseCommand(line) {
            Some(cmd) => self.step(session, cmd, own_sink),
            None => Action::Reply(Reply::UnknownCommand),
        }
    }

    /// Ends a session: removes its presence entry, but only while that entry
    /// still belongs to it — a newer login under the same name stays online.
    pub fn disconnect(&mut self, session: &Session)
        ensures
            final(self)@.users == old(self)@.users,
            final(self)@.next_session == old(self)@.next_session,
            match session@.identity {
                None => final(self)@.online == old(self)@.online,
                Some(name) => {
                    if old(self)@.online.contains_key(name) && old(self)@.online[name].session
                        == session@.id {
                        final(self)@.online == old(self)@.online.remove(name)
                    } else {
                        final(self)@.online == old(self)@.online
                    }
                },
            },
    {
        match &session.identity {
            None => {
            },
            Some(name) => {
                let owned = match self.presence.lookup(name) {
                    Some(e) => e.session == session.id,
                    None => false,
                };
                if owned {
                    self.presence.remove_online(name);
                }
            },
        }
    }
}

/// The reply owed for a registration that inserted its user: success only
/// when the durable write of the snapshot went through.
pub fn registration_reply(persisted: bool) -> (r: Reply)
    ensures
        r == (if persisted {
            Reply::RegistrationSuccessful
        } else {
            Reply::RegistrationError
        }),
{
    if persisted {
        Reply::RegistrationSuccessful
    } else {
        Reply::RegistrationError
    }
}

/// Hands a relayed message to a recipient's sink, fire and forget: no
/// acknowledgment and no delivery confirmation, as the protocol requires.
pub fn deliver(sink: &UnboundedSender<String>, message: String) {
    sink_send(sink, message);
}

/// A second login under a name supersedes the first: after both logins the
/// registry holds exactly the later entry for that name, so relayed texts
/// reach only the later session's sink.
pub proof fn lemma_relogin_supersedes(
    online: Map<Seq<char>, OnlineEntry>,
    name: Seq<char>,
    first: OnlineEntry,
    second: OnlineEntry,
)
    ensures
        online.insert(name, first).insert(name, second) == online.insert(name, second),
        online.insert(name, first).insert(name, second)[name] == second,
{
    assert(online.insert(name, first).insert(name, second) =~= online.insert(name, second));
}

/// Login with correct credentials authenticates the session, and a later
/// login by a different session under the same name relocates the online
/// entry: afterwards the registry delivers for that name to the second
/// session's sink.
pub proof fn lemma_relogin_relocates(
    s0: ServerView,
    a: SessionView,
    b: SessionView,
    own_a: UnboundedSender<String>,
    own_b: UnboundedSender<String>,
    name: Seq<char>,
    password: Seq<char>,
    s1: ServerView,
    a1: SessionView,
    act1: Action,
    s2: ServerView,
    b1: SessionView,
    act2: Action,
)
    requires
        s0.users.contains_key(name) && s0.users[name] == password,
        step_spec(s0, a, CommandView::Login { name, password }, own_a, s1, a1, act1),
        step_spec(s1, b, CommandView::Login { name, password }, own_b, s2, b1, act2),
    ensures
        a1.identity == Some(name),
        act1 matches Action::Reply(r) && r == Reply::LoginSuccessful,
        b1.identity == Some(name),
        s2.online[name] == (OnlineEntry { session: b.id, sink: own_b }),
        s2.users == s0.users,
{
}

/// Once a name's presence entry is gone, a Text addressed to it is answered
/// "User is not online" and nothing changes — in particular nothing is
/// delivered anywhere.
pub proof fn lemma_text_after_quit(
    pre: ServerView,
    sender: SessionView,
    own: UnboundedSender<String>,
    name: Seq<char>,
    content: Seq<char>,
    post: ServerView,
    post_sender: SessionView,
    a: Action,
)
    requires
        !pre.online.contains_key(name),
        sender.identity is Some,
        step_spec(pre, sender, CommandView::Text { name, content }, own, post, post_sender, a),
    ensures
        a matches Action::Reply(r) && r == Reply::UserIsNotOnline,
        post == pre,
        post_sender == sender,
{
}

} // verus!
