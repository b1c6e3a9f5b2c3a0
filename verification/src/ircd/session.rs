//! What a connection on its way to a remote account is made of: where it
//! stands, what can happen to it, and what can be asked of the caller.

use crate::ircd::proto::{IrcCommand, IrcCommandView, IrcMessage, IrcMessageView};
use vstd::prelude::*;
use vstd::string::*;

verus! {

/// What a local client must have sent to be registered.
#[derive(Debug, PartialEq, Eq)]
pub struct Credentials {
    pub nick: String,
    pub user: String,
    /// The local password. It is not what logs in to the remote account: a
    /// stored session is kept under it.
    pub pass: String,
}

/// [`Credentials`] as plain data.
pub struct CredentialsView {
    pub nick: Seq<char>,
    pub user: Seq<char>,
    pub pass: Seq<char>,
}

impl View for Credentials {
    type V = CredentialsView;

    open spec fn view(&self) -> CredentialsView {
        CredentialsView { nick: self.nick@, user: self.user@, pass: self.pass@ }
    }
}

/// What a client that is registering has sent so far.
#[derive(Debug, PartialEq, Eq)]
pub struct Registration {
    pub nick: Option<String>,
    pub pass: Option<String>,
}

/// A text that may be missing, as plain data.
pub open spec fn text_view(text: Option<String>) -> Option<Seq<char>> {
    match text {
        Some(text) => Some(text@),
        None => None,
    }
}

/// A [`Registration`] as plain data.
pub struct RegistrationView {
    pub nick: Option<Seq<char>>,
    pub pass: Option<Seq<char>>,
}

impl View for Registration {
    type V = RegistrationView;

    open spec fn view(&self) -> RegistrationView {
        RegistrationView { nick: text_view(self.nick), pass: text_view(self.pass) }
    }
}

/// Why a connection was given up.
#[derive(Clone, Copy, Debug, PartialEq, Eq, Structural)]
pub enum SessionError {
    /// Registration ended before nickname, user name and password were all
    /// there.
    IncompleteRegistration,
    /// The client went away while it was asked for remote credentials.
    StreamFinished,
    /// The remote server accepted the login but gave no session to keep.
    NoSession,
}

/// Where a connection stands. `H` is what the caller holds of a remote
/// account once it has one.
#[derive(Debug, PartialEq, Eq)]
pub enum Session<H> {
    /// The client is registering.
    AwaitingRegistration(Registration),
    /// The client is registered and welcomed, and the credential store has
    /// been asked for a session kept under its nickname.
    LookingUpSession(Credentials),
    /// A stored session is being restored.
    RestoringSession(Credentials),
    /// The user is to send remote credentials. `attempt` holds the server of
    /// a login that is under way, and nothing while the user's reply is
    /// awaited.
    AwaitingRemoteCredentials { credentials: Credentials, attempt: Option<String> },
    /// The connection is bound to the remote account behind `client`.
    Bound { credentials: Credentials, client: H },
    /// The connection was given up.
    Failed(SessionError),
}

/// A [`Session`] as plain data.
pub enum SessionView<H> {
    AwaitingRegistration(RegistrationView),
    LookingUpSession(CredentialsView),
    RestoringSession(CredentialsView),
    AwaitingRemoteCredentials { credentials: CredentialsView, attempt: Option<Seq<char>> },
    Bound { credentials: CredentialsView, client: H },
    Failed(SessionError),
}

impl<H> View for Session<H> {
    type V = SessionView<H>;

    open spec fn view(&self) -> SessionView<H> {
        match self {
            Session::AwaitingRegistration(registration) => SessionView::AwaitingRegistration(
                registration@,
            ),
            Session::LookingUpSession(credentials) => SessionView::LookingUpSession(credentials@),
            Session::RestoringSession(credentials) => SessionView::RestoringSession(credentials@),
            Session::AwaitingRemoteCredentials { credentials, attempt } =>
                SessionView::AwaitingRemoteCredentials {
                    credentials: credentials@,
                    attempt: text_view(*attempt),
                },
            Session::Bound { credentials, client } => SessionView::Bound {
                credentials: credentials@,
                client: *client,
            },
            Session::Failed(error) => SessionView::Failed(*error),
        }
    }
}

impl<H> Session<H> {
    /// Where a new connection stands: its client is registering and has sent
    /// nothing yet.
    pub fn new() -> (start: Self)
        ensures
            start@ == SessionView::<H>::AwaitingRegistration(
                RegistrationView { nick: None, pass: None },
            ),
    {
        Session::AwaitingRegistration(Registration { nick: None, pass: None })
    }
}

/// What happened on a connection.
#[derive(Debug, PartialEq, Eq)]
pub enum Event<H> {
    /// The client sent a command.
    Command(IrcCommand),
    /// The client's stream ended.
    Closed,
    /// The credential store answered: the server of the session it keeps
    /// under the nickname, or that it keeps none.
    SessionLookedUp(Option<String>),
    /// The stored session was restored; the account it belongs to.
    Restored(H),
    /// The stored session could not be restored; what the attempt reported.
    RestoreFailed(String),
    /// The remote server accepted the login; the account, and whether it has
    /// a session to keep.
    LoggedIn(H, bool),
    /// The remote server refused the login; what the attempt reported.
    LoginFailed(String),
}

/// An [`Event`] as plain data.
pub enum EventView<H> {
    Command(IrcCommandView),
    Closed,
    SessionLookedUp(Option<Seq<char>>),
    Restored(H),
    RestoreFailed(Seq<char>),
    LoggedIn(H, bool),
    LoginFailed(Seq<char>),
}

impl<H> View for Event<H> {
    type V = EventView<H>;

    open spec fn view(&self) -> EventView<H> {
        match self {
            Event::Command(command) => EventView::Command(command@),
            Event::Closed => EventView::Closed,
            Event::SessionLookedUp(server) => EventView::SessionLookedUp(text_view(*server)),
            Event::Restored(client) => EventView::Restored(*client),
            Event::RestoreFailed(report) => EventView::RestoreFailed(report@),
            Event::LoggedIn(client, session) => EventView::LoggedIn(*client, *session),
            Event::LoginFailed(report) => EventView::LoginFailed(report@),
        }
    }
}

/// What is to be done for a connection.
#[derive(Debug, PartialEq, Eq)]
pub enum Action {
    /// Send the client this line as it is.
    SendRaw(String),
    /// Send the client this message.
    SendPrivmsg(IrcMessage),
    /// Ask the credential store for the session kept under `nick`, and hand
    /// back [`Event::SessionLookedUp`].
    LookupSession { nick: String, pass: String },
    /// Restore the session that the store gave, at `homeserver`, and hand
    /// back [`Event::Restored`] or [`Event::RestoreFailed`].
    RestoreSession { homeserver: String, nick: String, pass: String },
    /// Log in to `homeserver` as `user` with `pass`, and hand back
    /// [`Event::LoggedIn`] or [`Event::LoginFailed`].
    Login { homeserver: String, user: String, pass: String, nick: String, irc_pass: String },
    /// Keep the session of the login that was accepted, with its server,
    /// under `nick` and `pass`.
    StoreSession { nick: String, pass: String, homeserver: String },
}

/// An [`Action`] as plain data.
pub enum ActionView {
    SendRaw(Seq<char>),
    SendPrivmsg(IrcMessageView),
    LookupSession { nick: Seq<char>, pass: Seq<char> },
    RestoreSession { homeserver: Seq<char>, nick: Seq<char>, pass: Seq<char> },
    Login {
        homeserver: Seq<char>,
        user: Seq<char>,
        pass: Seq<char>,
        nick: Seq<char>,
        irc_pass: Seq<char>,
    },
    StoreSession { nick: Seq<char>, pass: Seq<char>, homeserver: Seq<char> },
}

impl View for Action {
    type V = ActionView;

    open spec fn view(&self) -> ActionView {
        match self {
            Action::SendRaw(line) => ActionView::SendRaw(line@),
            Action::SendPrivmsg(message) => ActionView::SendPrivmsg(message@),
            Action::LookupSession { nick, pass } => ActionView::LookupSession {
                nick: nick@,
                pass: pass@,
            },
            Action::RestoreSession { homeserver, nick, pass } => ActionView::RestoreSession {
                homeserver: homeserver@,
                nick: nick@,
                pass: pass@,
            },
            Action::Login { homeserver, user, pass, nick, irc_pass } => ActionView::Login {
                homeserver: homeserver@,
                user: user@,
                pass: pass@,
                nick: nick@,
                irc_pass: irc_pass@,
            },
            Action::StoreSession { nick, pass, homeserver } => ActionView::StoreSession {
                nick: nick@,
                pass: pass@,
                homeserver: homeserver@,
            },
        }
    }
}

/// The actions of `actions` as plain data, in the same order.
pub open spec fn actions_view(actions: Seq<Action>) -> Seq<ActionView> {
    actions.map_values(|action: Action| action@)
}

impl SessionError {
    /// The error in words.
    pub open spec fn message_view(self) -> Seq<char> {
        match self {
            SessionError::IncompleteRegistration => "nick or pass wasn't set for client!"@,
            SessionError::StreamFinished => "Stream finished in matrix login loop?"@,
            SessionError::NoSession => "client has no session"@,
        }
    }

    /// The error in words.
    pub fn message(&self) -> (text: String)
        ensures
            text@ == self.message_view(),
    {
        match self {
            SessionError::IncompleteRegistration => String::from_str(
                "nick or pass wasn't set for client!",
            ),
            SessionError::StreamFinished => String::from_str(
                "Stream finished in matrix login loop?",
            ),
            SessionError::NoSession => String::from_str("client has no session"),
        }
    }
}

} // verus!
