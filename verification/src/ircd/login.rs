//! How a local connection becomes bound to a remote account.
//!
//! The connection is led through registration, then either the restoring of a
//! stored session or a login with credentials that the user sends. What is
//! decided here is what each event leads to: the next state, and what is to be
//! done. Doing it (writing to the client, asking the credential store, talking
//! to the remote server) is the caller's part, and so is handing back what came
//! of it as the next event.

pub use crate::ircd::session::{
    Action, ActionView, Credentials, CredentialsView, Event, EventView, Registration,
    RegistrationView, Session, SessionError, SessionView,
};

use crate::ircd::proto::{IrcCommand, IrcCommandView, IrcMessage, IrcMessageView};
use crate::ircd::reply::{credential_reply, parse_credential_reply};
use crate::ircd::session::{actions_view, text_view};
use vstd::prelude::*;
use vstd::string::*;

verus! {

/// The line that answers a client asking for the capabilities of protocol
/// version 302: an empty list. Some clients wait for it before they go on.
pub const CAPABILITY_LINE: &'static str = ":matrirc CAP * LS :";

/// How the user is asked for remote credentials.
pub const LOGIN_PROMPT: &'static str =
    "Welcome to matrirc. Please login to matrix by replying with: <homeserver> <user> <pass>";

/// The line that welcomes `nick` once it is registered.
pub open spec fn welcome_line(nick: Seq<char>) -> Seq<char> {
    ":matrirc 001 "@ + nick + " :Welcome to matrirc"@
}

/// What the user is told when a stored session is about to be restored.
pub open spec fn restoring_text(homeserver: Seq<char>) -> Seq<char> {
    "Welcome to matrirc. Restoring session to "@ + homeserver
}

/// What the user is told when the stored session could not be restored.
pub open spec fn restore_failed_text(report: Seq<char>) -> Seq<char> {
    "Restoring session failed: "@ + report
        + ". Login again as follow or try to reconnect later."@
}

/// What the user is told when a login begins.
pub open spec fn attempting_text(homeserver: Seq<char>, user: Seq<char>) -> Seq<char> {
    "Attempting to login to "@ + homeserver + " with "@ + user
}

/// What the user is told when the remote server refused the login.
pub open spec fn login_failed_text(report: Seq<char>) -> Seq<char> {
    "Login failed: "@ + report + ". Try again."@
}

/// The action that says `text` to `nick` in the bridge's own name.
pub open spec fn tell(nick: Seq<char>, text: Seq<char>) -> ActionView {
    ActionView::SendPrivmsg(IrcMessageView::from_bridge(nick, text))
}

/// Whether `command` asks for the capabilities of protocol version 302.
pub open spec fn asks_capabilities(command: IrcCommandView) -> bool {
    command == IrcCommandView::Cap(Some("302"@))
}

/// What an event leads to while the client registers.
///
/// Nickname and password are taken down as they come, a later one in place
/// of an earlier. The user name ends registration at once: with nickname and
/// password both there, the client is welcomed and the credential store is
/// asked for its session; else the connection is given up, and so it is if the
/// stream ends first. A client that asks for the capabilities of protocol
/// version 302 gets the empty list. Anything else is passed over.
pub open spec fn registration_step<H>(registration: RegistrationView, event: EventView<H>) -> (
    SessionView<H>,
    Seq<ActionView>,
) {
    match event {
        EventView::Command(IrcCommandView::Nick(nick)) => (
            SessionView::AwaitingRegistration(
                RegistrationView { nick: Some(nick), ..registration },
            ),
            seq![],
        ),
        EventView::Command(IrcCommandView::Pass(pass)) => (
            SessionView::AwaitingRegistration(
                RegistrationView { pass: Some(pass), ..registration },
            ),
            seq![],
        ),
        EventView::Command(IrcCommandView::User(user)) => match (
            registration.nick,
            registration.pass,
        ) {
            (Some(nick), Some(pass)) => (
                SessionView::LookingUpSession(CredentialsView { nick, user, pass }),
                seq![
                    ActionView::SendRaw(welcome_line(nick)),
                    ActionView::LookupSession { nick, pass },
                ],
            ),
            _ => (SessionView::Failed(SessionError::IncompleteRegistration), seq![]),
        },
        EventView::Command(command) => if asks_capabilities(command) {
            (
                SessionView::AwaitingRegistration(registration),
                seq![ActionView::SendRaw(CAPABILITY_LINE@)],
            )
        } else {
            (SessionView::AwaitingRegistration(registration), seq![])
        },
        EventView::Closed => (SessionView::Failed(SessionError::IncompleteRegistration), seq![]),
        _ => (SessionView::AwaitingRegistration(registration), seq![]),
    }
}

/// What an event leads to while the credential store is asked: a session
/// that it keeps is restored, and the user is told so; where it keeps none,
/// the user is asked for remote credentials. Anything but the store's answer
/// is passed over.
pub open spec fn lookup_step<H>(credentials: CredentialsView, event: EventView<H>) -> (
    SessionView<H>,
    Seq<ActionView>,
) {
    match event {
        EventView::SessionLookedUp(Some(homeserver)) => (
            SessionView::RestoringSession(credentials),
            seq![
                tell(credentials.nick, restoring_text(homeserver)),
                ActionView::RestoreSession {
                    homeserver,
                    nick: credentials.nick,
                    pass: credentials.pass,
                },
            ],
        ),
        EventView::SessionLookedUp(None) => (
            SessionView::AwaitingRemoteCredentials { credentials, attempt: None },
            seq![tell(credentials.nick, LOGIN_PROMPT@)],
        ),
        _ => (SessionView::LookingUpSession(credentials), seq![]),
    }
}

/// What an event leads to while a stored session is restored: success binds
/// the connection; after a failure the user is told of it and asked for remote
/// credentials. Anything else is passed over.
pub open spec fn restore_step<H>(credentials: CredentialsView, event: EventView<H>) -> (
    SessionView<H>,
    Seq<ActionView>,
) {
    match event {
        EventView::Restored(client) => (SessionView::Bound { credentials, client }, seq![]),
        EventView::RestoreFailed(report) => (
            SessionView::AwaitingRemoteCredentials { credentials, attempt: None },
            seq![
                tell(credentials.nick, restore_failed_text(report)),
                tell(credentials.nick, LOGIN_PROMPT@),
            ],
        ),
        _ => (SessionView::RestoringSession(credentials), seq![]),
    }
}

/// What an event leads to while the user's reply is awaited: a message that
/// names server, account and secret starts a login, and the user is told so;
/// the end of the stream gives the connection up. Anything else is passed
/// over, and so is a message that names fewer: the user is told nothing.
pub open spec fn reply_step<H>(credentials: CredentialsView, event: EventView<H>) -> (
    SessionView<H>,
    Seq<ActionView>,
) {
    let waiting = SessionView::AwaitingRemoteCredentials { credentials, attempt: None };
    match event {
        EventView::Command(IrcCommandView::Privmsg(body)) => match credential_reply(body) {
            Some((homeserver, user, pass)) => (
                SessionView::AwaitingRemoteCredentials { credentials, attempt: Some(homeserver) },
                seq![
                    tell(credentials.nick, attempting_text(homeserver, user)),
                    ActionView::Login {
                        homeserver,
                        user,
                        pass,
                        nick: credentials.nick,
                        irc_pass: credentials.pass,
                    },
                ],
            ),
            None => (waiting, seq![]),
        },
        EventView::Closed => (SessionView::Failed(SessionError::StreamFinished), seq![]),
        _ => (waiting, seq![]),
    }
}

/// What an event leads to while a login at `homeserver` is under way. A
/// login that was accepted binds the connection, and its session is to be
/// kept with its server under nickname and local password; without a session
/// to keep, the connection is given up. After a login that was refused the
/// user is told of it and a reply is awaited again, as often as it takes.
/// Anything else is passed over.
pub open spec fn attempt_step<H>(
    credentials: CredentialsView,
    homeserver: Seq<char>,
    event: EventView<H>,
) -> (SessionView<H>, Seq<ActionView>) {
    match event {
        EventView::LoggedIn(client, true) => (
            SessionView::Bound { credentials, client },
            seq![
                ActionView::StoreSession {
                    nick: credentials.nick,
                    pass: credentials.pass,
                    homeserver,
                },
            ],
        ),
        EventView::LoggedIn(_, false) => (SessionView::Failed(SessionError::NoSession), seq![]),
        EventView::LoginFailed(report) => (
            SessionView::AwaitingRemoteCredentials { credentials, attempt: None },
            seq![tell(credentials.nick, login_failed_text(report))],
        ),
        _ => (
            SessionView::AwaitingRemoteCredentials { credentials, attempt: Some(homeserver) },
            seq![],
        ),
    }
}

/// What an event leads to while remote credentials are awaited.
pub open spec fn login_step<H>(
    credentials: CredentialsView,
    attempt: Option<Seq<char>>,
    event: EventView<H>,
) -> (SessionView<H>, Seq<ActionView>) {
    match attempt {
        None => reply_step(credentials, event),
        Some(homeserver) => attempt_step(credentials, homeserver, event),
    }
}

/// What an event leads to: the next state, and what is to be done, in that
/// order. A connection that is bound or given up stays as it is.
pub open spec fn session_step<H>(state: SessionView<H>, event: EventView<H>) -> (
    SessionView<H>,
    Seq<ActionView>,
) {
    match state {
        SessionView::AwaitingRegistration(registration) => registration_step(registration, event),
        SessionView::LookingUpSession(credentials) => lookup_step(credentials, event),
        SessionView::RestoringSession(credentials) => restore_step(credentials, event),
        SessionView::AwaitingRemoteCredentials { credentials, attempt } => login_step(
            credentials,
            attempt,
            event,
        ),
        SessionView::Bound { .. } => (state, seq![]),
        SessionView::Failed(_) => (state, seq![]),
    }
}

/// `first`, `second` and `third` in a row.
fn joined(first: &str, second: &str, third: &str) -> (text: String)
    ensures
        text@ == first@ + second@ + third@,
{
    let mut text = String::from_str(first);
    text.append(second);
    text.append(third);
    text
}

/// The action that says `text` to `nick` in the bridge's own name.
fn tell_action(nick: &str, text: String) -> (action: Action)
    ensures
        action@ == tell(nick@, text@),
{
    Action::SendPrivmsg(IrcMessage::from_bridge(nick, text))
}

/// The action that asks the user for remote credentials.
fn prompt_action(nick: &str) -> (action: Action)
    ensures
        action@ == tell(nick@, LOGIN_PROMPT@),
{
    tell_action(nick, String::from_str(LOGIN_PROMPT))
}

/// The actions of a step, as plain data.
proof fn lemma_actions_view(actions: Seq<Action>)
    ensures
        actions.len() == 0 ==> actions_view(actions) == Seq::<ActionView>::empty(),
        actions.len() == 1 ==> actions_view(actions) == seq![actions[0]@],
        actions.len() == 2 ==> actions_view(actions) == seq![actions[0]@, actions[1]@],
{
    if actions.len() == 0 {
        assert(actions_view(actions) =~= Seq::<ActionView>::empty());
    }
    if actions.len() == 1 {
        assert(actions_view(actions) =~= seq![actions[0]@]);
    }
    if actions.len() == 2 {
        assert(actions_view(actions) =~= seq![actions[0]@, actions[1]@]);
    }
}

/// One step of a client's registration; see [`registration_step`].
pub fn register<H>(registration: Registration, event: Event<H>) -> (next: (
    Session<H>,
    Vec<Action>,
))
    ensures
        (next.0@, actions_view(next.1@)) == registration_step(registration@, event@),
{
    let mut actions: Vec<Action> = Vec::new();
    let state = match event {
        Event::Command(IrcCommand::Nick(nick)) => Session::AwaitingRegistration(
            Registration { nick: Some(nick), pass: registration.pass },
        ),
        Event::Command(IrcCommand::Pass(pass)) => Session::AwaitingRegistration(
            Registration { nick: registration.nick, pass: Some(pass) },
        ),
        Event::Command(IrcCommand::User(user)) => match (registration.nick, registration.pass) {
            (Some(nick), Some(pass)) => {
                actions.push(
                    Action::SendRaw(joined(":matrirc 001 ", nick.as_str(), " :Welcome to matrirc")),
                );
                actions.push(Action::LookupSession { nick: nick.clone(), pass: pass.clone() });
                Session::LookingUpSession(Credentials { nick, user, pass })
            },
            _ => Session::Failed(SessionError::IncompleteRegistration),
        },
        Event::Command(IrcCommand::Cap(Some(version))) => {
            if version == String::from_str("302") {
                actions.push(Action::SendRaw(String::from_str(CAPABILITY_LINE)));
            }
            Session::AwaitingRegistration(registration)
        },
        Event::Closed => Session::Failed(SessionError::IncompleteRegistration),
        _ => Session::AwaitingRegistration(registration),
    };
    proof {
        lemma_actions_view(actions@);
    }
    (state, actions)
}

/// One step of choosing between a stored session and a login; see
/// [`lookup_step`].
pub fn select_session<H>(credentials: Credentials, event: Event<H>) -> (next: (
    Session<H>,
    Vec<Action>,
))
    ensures
        (next.0@, actions_view(next.1@)) == lookup_step(credentials@, event@),
{
    let mut actions: Vec<Action> = Vec::new();
    let state = match event {
        Event::SessionLookedUp(Some(homeserver)) => {
            let mut text = String::from_str("Welcome to matrirc. Restoring session to ");
            text.append(homeserver.as_str());
            actions.push(tell_action(credentials.nick.as_str(), text));
            actions.push(
                Action::RestoreSession {
                    homeserver,
                    nick: credentials.nick.clone(),
                    pass: credentials.pass.clone(),
                },
            );
            Session::RestoringSession(credentials)
        },
        Event::SessionLookedUp(None) => {
            actions.push(prompt_action(credentials.nick.as_str()));
            Session::AwaitingRemoteCredentials { credentials, attempt: None }
        },
        _ => Session::LookingUpSession(credentials),
    };
    proof {
        lemma_actions_view(actions@);
    }
    (state, actions)
}

/// One step of restoring a stored session; see [`restore_step`].
pub fn matrix_restore_session<H>(credentials: Credentials, event: Event<H>) -> (next: (
    Session<H>,
    Vec<Action>,
))
    ensures
        (next.0@, actions_view(next.1@)) == restore_step(credentials@, event@),
{
    let mut actions: Vec<Action> = Vec::new();
    let state = match event {
        Event::Restored(client) => Session::Bound { credentials, client },
        Event::RestoreFailed(report) => {
            actions.push(
                tell_action(
                    credentials.nick.as_str(),
                    joined(
                        "Restoring session failed: ",
                        report.as_str(),
                        ". Login again as follow or try to reconnect later.",
                    ),
                ),
            );
            actions.push(prompt_action(credentials.nick.as_str()));
            Session::AwaitingRemoteCredentials { credentials, attempt: None }
        },
        _ => Session::RestoringSession(credentials),
    };
    proof {
        lemma_actions_view(actions@);
    }
    (state, actions)
}

/// One step of the login with credentials that the user sends; see
/// [`login_step`].
pub fn matrix_login_loop<H>(
    credentials: Credentials,
    attempt: Option<String>,
    event: Event<H>,
) -> (next: (Session<H>, Vec<Action>))
    ensures
        (next.0@, actions_view(next.1@)) == login_step(credentials@, text_view(attempt), event@),
{
    let mut actions: Vec<Action> = Vec::new();
    let state = match attempt {
        None => match event {
            Event::Command(IrcCommand::Privmsg(body)) => match parse_credential_reply(
                body.as_str(),
            ) {
                Some((homeserver, user, pass)) => {
                    let mut text = joined("Attempting to login to ", homeserver.as_str(), " with ");
                    text.append(user.as_str());
                    actions.push(tell_action(credentials.nick.as_str(), text));
                    actions.push(
                        Action::Login {
                            homeserver: homeserver.clone(),
                            user,
                            pass,
                            nick: credentials.nick.clone(),
                            irc_pass: credentials.pass.clone(),
                        },
                    );
                    Session::AwaitingRemoteCredentials { credentials, attempt: Some(homeserver) }
                },
                None => Session::AwaitingRemoteCredentials { credentials, attempt: None },
            },
            Event::Closed => Session::Failed(SessionError::StreamFinished),
            _ => Session::AwaitingRemoteCredentials { credentials, attempt: None },
        },
        Some(homeserver) => match event {
            Event::LoggedIn(client, true) => {
                actions.push(
                    Action::StoreSession {
                        nick: credentials.nick.clone(),
                        pass: credentials.pass.clone(),
                        homeserver,
                    },
                );
                Session::Bound { credentials, client }
            },
            Event::LoggedIn(_, false) => Session::Failed(SessionError::NoSession),
            Event::LoginFailed(report) => {
                actions.push(
                    tell_action(
                        credentials.nick.as_str(),
                        joined("Login failed: ", report.as_str(), ". Try again."),
                    ),
                );
                Session::AwaitingRemoteCredentials { credentials, attempt: None }
            },
            _ => Session::AwaitingRemoteCredentials { credentials, attempt: Some(homeserver) },
        },
    };
    proof {
        lemma_actions_view(actions@);
    }
    (state, actions)
}

/// Takes a connection one event further: gives the state that follows
/// `state` on `event`, and what the caller is to do before it hands over
/// the next event, in that order. A new connection starts from
/// [`Session::AwaitingRegistration`] with nothing taken down, and is done
/// once it is [`Session::Bound`] or [`Session::Failed`].
pub fn auth_loop<H>(state: Session<H>, event: Event<H>) -> (next: (Session<H>, Vec<Action>))
    ensures
        (next.0@, actions_view(next.1@)) == session_step(state@, event@),
{
    match state {
        Session::AwaitingRegistration(registration) => register(registration, event),
        Session::LookingUpSession(credentials) => select_session(credentials, event),
        Session::RestoringSession(credentials) => matrix_restore_session(credentials, event),
        Session::AwaitingRemoteCredentials { credentials, attempt } => matrix_login_loop(
            credentials,
            attempt,
            event,
        ),
        Session::Bound { credentials, client } => {
            let actions: Vec<Action> = Vec::new();
            proof {
                lemma_actions_view(actions@);
            }
            (Session::Bound { credentials, client }, actions)
        },
        Session::Failed(error) => {
            let actions: Vec<Action> = Vec::new();
            proof {
                lemma_actions_view(actions@);
            }
            (Session::Failed(error), actions)
        },
    }
}

} // verus!
