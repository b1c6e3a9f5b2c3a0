use matrirc::ircd::login::{
    auth_loop, matrix_login_loop, matrix_restore_session, register, select_session, Action,
    Credentials, Event, Registration, Session, SessionError,
};
use matrirc::ircd::proto::{IrcCommand, IrcMessage, IrcMessageType};
use matrirc::ircd::reply::{find_space, parse_credential_reply};

/// What stands for a remote account here.
type Account = &'static str;

fn fresh() -> Session<Account> {
    Session::AwaitingRegistration(Registration { nick: None, pass: None })
}

fn alice() -> Credentials {
    Credentials { nick: "alice".to_string(), user: "alice".to_string(), pass: "secret".to_string() }
}

fn told(nick: &str, text: &str) -> Action {
    Action::SendPrivmsg(IrcMessage {
        message_type: IrcMessageType::Privmsg,
        from: "matrirc".to_string(),
        target: nick.to_string(),
        message: text.to_string(),
    })
}

fn prompt(nick: &str) -> Action {
    told(
        nick,
        "Welcome to matrirc. Please login to matrix by replying with: <homeserver> <user> <pass>",
    )
}

fn run(
    mut state: Session<Account>,
    events: Vec<Event<Account>>,
) -> (Session<Account>, Vec<Action>) {
    let mut done = Vec::new();
    for event in events {
        let (next, actions) = auth_loop(state, event);
        state = next;
        done.extend(actions);
    }
    (state, done)
}

fn registered() -> Vec<Event<Account>> {
    vec![
        Event::Command(IrcCommand::Nick("alice".to_string())),
        Event::Command(IrcCommand::Pass("secret".to_string())),
        Event::Command(IrcCommand::User("alice".to_string())),
    ]
}

fn waiting() -> Session<Account> {
    Session::AwaitingRemoteCredentials { credentials: alice(), attempt: None }
}

#[test]
fn new_connection_has_nothing_taken_down() {
    assert_eq!(Session::<Account>::new(), fresh());
}

#[test]
fn registration_without_stored_session_ends_awaiting_credentials() {
    let mut events = registered();
    events.push(Event::SessionLookedUp(None));
    let (state, actions) = run(fresh(), events);
    assert_eq!(state, waiting());
    assert_eq!(
        actions,
        vec![
            Action::SendRaw(":matrirc 001 alice :Welcome to matrirc".to_string()),
            Action::LookupSession { nick: "alice".to_string(), pass: "secret".to_string() },
            prompt("alice"),
        ]
    );
}

#[test]
fn registration_with_stored_session_restores_before_any_prompt() {
    let mut events = registered();
    events.push(Event::SessionLookedUp(Some("example.org".to_string())));
    let (state, actions) = run(fresh(), events);
    assert_eq!(state, Session::RestoringSession(alice()));
    assert_eq!(
        actions,
        vec![
            Action::SendRaw(":matrirc 001 alice :Welcome to matrirc".to_string()),
            Action::LookupSession { nick: "alice".to_string(), pass: "secret".to_string() },
            told("alice", "Welcome to matrirc. Restoring session to example.org"),
            Action::RestoreSession {
                homeserver: "example.org".to_string(),
                nick: "alice".to_string(),
                pass: "secret".to_string(),
            },
        ]
    );
}

#[test]
fn registration_welcomes_as_soon_as_the_user_name_comes() {
    let (state, actions) = run(fresh(), registered());
    assert_eq!(state, Session::LookingUpSession(alice()));
    assert_eq!(actions[0], Action::SendRaw(":matrirc 001 alice :Welcome to matrirc".to_string()));
    assert_eq!(actions.len(), 2);
}

#[test]
fn registration_takes_nick_and_pass_in_any_order() {
    let events = vec![
        Event::Command(IrcCommand::Pass("secret".to_string())),
        Event::Command(IrcCommand::Nick("alice".to_string())),
        Event::Command(IrcCommand::User("alice".to_string())),
    ];
    let (state, _) = run(fresh(), events);
    assert_eq!(state, Session::LookingUpSession(alice()));
}

#[test]
fn registration_keeps_the_last_nick_and_pass() {
    let events = vec![
        Event::Command(IrcCommand::Nick("al".to_string())),
        Event::Command(IrcCommand::Pass("old".to_string())),
        Event::Command(IrcCommand::Nick("alice".to_string())),
        Event::Command(IrcCommand::Pass("secret".to_string())),
        Event::Command(IrcCommand::User("anna".to_string())),
    ];
    let (state, actions) = run(fresh(), events);
    assert_eq!(
        state,
        Session::LookingUpSession(Credentials {
            nick: "alice".to_string(),
            user: "anna".to_string(),
            pass: "secret".to_string(),
        })
    );
    assert_eq!(actions[0], Action::SendRaw(":matrirc 001 alice :Welcome to matrirc".to_string()));
}

#[test]
fn registration_ends_with_the_user_name_even_without_password() {
    let events = vec![
        Event::Command(IrcCommand::Nick("alice".to_string())),
        Event::Command(IrcCommand::User("alice".to_string())),
    ];
    let (state, actions) = run(fresh(), events);
    assert_eq!(state, Session::<Account>::Failed(SessionError::IncompleteRegistration));
    assert_eq!(actions, vec![]);
}

#[test]
fn registration_ends_with_the_user_name_even_without_nickname() {
    let events = vec![
        Event::Command(IrcCommand::Pass("secret".to_string())),
        Event::Command(IrcCommand::User("alice".to_string())),
        Event::Command(IrcCommand::Nick("alice".to_string())),
    ];
    let (state, actions) = run(fresh(), events);
    assert_eq!(state, Session::<Account>::Failed(SessionError::IncompleteRegistration));
    assert_eq!(actions, vec![]);
}

#[test]
fn registration_fails_when_the_stream_ends() {
    let events = vec![
        Event::Command(IrcCommand::Nick("alice".to_string())),
        Event::Command(IrcCommand::Pass("secret".to_string())),
        Event::Closed,
    ];
    let (state, actions) = run(fresh(), events);
    assert_eq!(state, Session::<Account>::Failed(SessionError::IncompleteRegistration));
    assert_eq!(actions, vec![]);
    assert_eq!(
        SessionError::IncompleteRegistration.message(),
        "nick or pass wasn't set for client!"
    );
}

#[test]
fn registration_answers_capability_version_302() {
    let (state, actions) =
        auth_loop(fresh(), Event::Command(IrcCommand::Cap(Some("302".to_string()))));
    assert_eq!(state, fresh());
    assert_eq!(actions, vec![Action::SendRaw(":matrirc CAP * LS :".to_string())]);
}

#[test]
fn registration_passes_over_other_capability_requests() {
    for version in [None, Some("301".to_string()), Some("3022".to_string()), Some("".to_string())] {
        let (state, actions) = auth_loop(fresh(), Event::Command(IrcCommand::Cap(version)));
        assert_eq!(state, fresh());
        assert_eq!(actions, vec![]);
    }
}

#[test]
fn registration_passes_over_everything_else() {
    let started = Session::AwaitingRegistration(Registration {
        nick: Some("alice".to_string()),
        pass: None,
    });
    for event in [
        Event::Command(IrcCommand::Other),
        Event::Command(IrcCommand::Privmsg("example.org alice pw".to_string())),
        Event::SessionLookedUp(None),
        Event::Restored("restored"),
        Event::RestoreFailed("x".to_string()),
        Event::LoggedIn("fresh", true),
        Event::LoginFailed("x".to_string()),
    ] {
        let state = Session::AwaitingRegistration(Registration {
            nick: Some("alice".to_string()),
            pass: None,
        });
        let (next, actions) = auth_loop(state, event);
        assert_eq!(next, started);
        assert_eq!(actions, vec![]);
    }
}

#[test]
fn register_is_the_step_of_a_registering_client() {
    let (state, actions) = register::<Account>(
        Registration { nick: Some("alice".to_string()), pass: Some("secret".to_string()) },
        Event::Command(IrcCommand::User("alice".to_string())),
    );
    assert_eq!(state, Session::LookingUpSession(alice()));
    assert_eq!(actions.len(), 2);
}

#[test]
fn lookup_passes_over_anything_but_the_answer() {
    for event in [
        Event::Command(IrcCommand::Privmsg("example.org alice pw".to_string())),
        Event::Closed,
        Event::Restored("restored"),
        Event::LoggedIn("fresh", true),
    ] {
        let (state, actions) = select_session(alice(), event);
        assert_eq!(state, Session::LookingUpSession(alice()));
        assert_eq!(actions, vec![]);
    }
}

#[test]
fn restored_session_binds() {
    let (state, actions) =
        auth_loop(Session::RestoringSession(alice()), Event::Restored("restored"));
    assert_eq!(state, Session::Bound { credentials: alice(), client: "restored" });
    assert_eq!(actions, vec![]);
}

#[test]
fn failed_restore_falls_back_to_asking() {
    let (state, actions) =
        matrix_restore_session(alice(), Event::RestoreFailed("token expired".to_string()));
    assert_eq!(state, waiting());
    assert_eq!(
        actions,
        vec![
            told(
                "alice",
                "Restoring session failed: token expired. Login again as follow or try to reconnect later."
            ),
            prompt("alice"),
        ]
    );
}

#[test]
fn restore_passes_over_anything_but_its_outcome() {
    for event in [
        Event::Command(IrcCommand::Privmsg("example.org alice pw".to_string())),
        Event::Closed,
        Event::SessionLookedUp(None),
        Event::LoggedIn("fresh", true),
        Event::LoginFailed("x".to_string()),
    ] {
        let (state, actions) = auth_loop(Session::RestoringSession(alice()), event);
        assert_eq!(state, Session::RestoringSession(alice()));
        assert_eq!(actions, vec![]);
    }
}

#[test]
fn well_formed_reply_starts_a_login() {
    let (state, actions) = auth_loop(
        waiting(),
        Event::Command(IrcCommand::Privmsg("example.org @alice:example.org hunter2".to_string())),
    );
    assert_eq!(
        state,
        Session::AwaitingRemoteCredentials {
            credentials: alice(),
            attempt: Some("example.org".to_string()),
        }
    );
    assert_eq!(
        actions,
        vec![
            told("alice", "Attempting to login to example.org with @alice:example.org"),
            Action::Login {
                homeserver: "example.org".to_string(),
                user: "@alice:example.org".to_string(),
                pass: "hunter2".to_string(),
                nick: "alice".to_string(),
                irc_pass: "secret".to_string(),
            },
        ]
    );
}

#[test]
fn secret_may_hold_spaces() {
    let (_, actions) = auth_loop(
        waiting(),
        Event::Command(IrcCommand::Privmsg(
            "example.org alice correct horse  battery ".to_string(),
        )),
    );
    assert_eq!(
        actions[1],
        Action::Login {
            homeserver: "example.org".to_string(),
            user: "alice".to_string(),
            pass: "correct horse  battery ".to_string(),
            nick: "alice".to_string(),
            irc_pass: "secret".to_string(),
        }
    );
}

#[test]
fn malformed_reply_changes_nothing_and_says_nothing() {
    for body in ["hello", "", "example.org alice", " ", "one\ttwo\tthree"] {
        let (state, actions) =
            auth_loop(waiting(), Event::Command(IrcCommand::Privmsg(body.to_string())));
        assert_eq!(state, waiting());
        assert_eq!(actions, vec![]);
    }
}

#[test]
fn refused_login_is_reported_and_asked_again() {
    let trying = Session::AwaitingRemoteCredentials {
        credentials: alice(),
        attempt: Some("example.org".to_string()),
    };
    let (state, actions) = auth_loop(trying, Event::LoginFailed("wrong password".to_string()));
    assert_eq!(state, waiting());
    assert_eq!(actions, vec![told("alice", "Login failed: wrong password. Try again.")]);
}

#[test]
fn login_is_tried_as_often_as_it_takes() {
    let mut state = waiting();
    let mut said = Vec::new();
    for round in 0..25 {
        let (next, actions) = auth_loop(
            state,
            Event::Command(IrcCommand::Privmsg(format!("example.org alice guess{round}"))),
        );
        assert_eq!(actions.len(), 2);
        let (next, actions) = auth_loop(next, Event::LoginFailed(format!("no {round}")));
        assert_eq!(next, waiting());
        said.extend(actions);
        let (next, actions) =
            auth_loop(next, Event::Command(IrcCommand::Privmsg("what?".to_string())));
        assert_eq!(next, waiting());
        assert_eq!(actions, vec![]);
        state = next;
    }
    assert_eq!(said.len(), 25);
    assert_eq!(said[24], told("alice", "Login failed: no 24. Try again."));
    let (state, _) = auth_loop(
        state,
        Event::Command(IrcCommand::Privmsg("example.org alice right".to_string())),
    );
    let (state, actions) = auth_loop(state, Event::LoggedIn("fresh", true));
    assert_eq!(state, Session::Bound { credentials: alice(), client: "fresh" });
    assert_eq!(
        actions,
        vec![Action::StoreSession {
            nick: "alice".to_string(),
            pass: "secret".to_string(),
            homeserver: "example.org".to_string(),
        }]
    );
}

#[test]
fn accepted_login_without_session_fails() {
    let (state, actions) =
        matrix_login_loop(alice(), Some("example.org".to_string()), Event::LoggedIn("fresh", false));
    assert_eq!(state, Session::<Account>::Failed(SessionError::NoSession));
    assert_eq!(actions, vec![]);
    assert_eq!(SessionError::NoSession.message(), "client has no session");
}

#[test]
fn stream_end_while_awaiting_the_reply_fails() {
    let (state, actions) = auth_loop(waiting(), Event::Closed);
    assert_eq!(state, Session::<Account>::Failed(SessionError::StreamFinished));
    assert_eq!(actions, vec![]);
    assert_eq!(SessionError::StreamFinished.message(), "Stream finished in matrix login loop?");
}

#[test]
fn login_under_way_passes_over_the_client() {
    for event in [
        Event::Command(IrcCommand::Privmsg("other.org bob pw".to_string())),
        Event::Command(IrcCommand::Nick("bob".to_string())),
        Event::Closed,
        Event::Restored("restored"),
        Event::SessionLookedUp(None),
    ] {
        let (state, actions) = matrix_login_loop(alice(), Some("example.org".to_string()), event);
        assert_eq!(
            state,
            Session::AwaitingRemoteCredentials {
                credentials: alice(),
                attempt: Some("example.org".to_string()),
            }
        );
        assert_eq!(actions, vec![]);
    }
}

#[test]
fn awaiting_the_reply_passes_over_what_is_no_message() {
    for event in [
        Event::Command(IrcCommand::Nick("bob".to_string())),
        Event::Command(IrcCommand::Other),
        Event::Command(IrcCommand::Cap(Some("302".to_string()))),
        Event::LoggedIn("fresh", true),
        Event::LoginFailed("late".to_string()),
        Event::Restored("restored"),
    ] {
        let (state, actions) = auth_loop(waiting(), event);
        assert_eq!(state, waiting());
        assert_eq!(actions, vec![]);
    }
}

#[test]
fn bound_and_failed_connections_stay_as_they_are() {
    for event in [Event::Closed, Event::LoggedIn("fresh", true), Event::Command(IrcCommand::Other)] {
        let bound = Session::Bound { credentials: alice(), client: "fresh" };
        let (state, actions) = auth_loop(bound, event);
        assert_eq!(state, Session::Bound { credentials: alice(), client: "fresh" });
        assert_eq!(actions, vec![]);
    }
    let (state, actions) =
        auth_loop(Session::Failed(SessionError::NoSession), Event::Restored("restored"));
    assert_eq!(state, Session::<Account>::Failed(SessionError::NoSession));
    assert_eq!(actions, vec![]);
}

#[test]
fn reply_is_split_at_its_first_two_spaces() {
    assert_eq!(
        parse_credential_reply("example.org alice hunter2"),
        Some(("example.org".to_string(), "alice".to_string(), "hunter2".to_string()))
    );
    assert_eq!(
        parse_credential_reply("a b c d e"),
        Some(("a".to_string(), "b".to_string(), "c d e".to_string()))
    );
    assert_eq!(
        parse_credential_reply("a  b"),
        Some(("a".to_string(), "".to_string(), "b".to_string()))
    );
    assert_eq!(
        parse_credential_reply("  "),
        Some(("".to_string(), "".to_string(), "".to_string()))
    );
    assert_eq!(
        parse_credential_reply("h\u{f4}te \u{fc}ser p\u{e4}ss w\u{f6}rd"),
        Some(("h\u{f4}te".to_string(), "\u{fc}ser".to_string(), "p\u{e4}ss w\u{f6}rd".to_string()))
    );
}

#[test]
fn reply_with_fewer_than_two_spaces_names_nothing() {
    for body in ["", "hello", "example.org alice", " ", "x ", " x", "tab\tis\tno\tspace"] {
        assert_eq!(parse_credential_reply(body), None);
    }
}

#[test]
fn reply_is_split_as_a_bounded_split_would() {
    for body in [
        "example.org alice hunter2",
        "a b c d e",
        "a  b",
        "  ",
        "",
        "one",
        "one two",
        " lead trail ",
        "h\u{f4}te \u{fc}ser p\u{e4}ss w\u{f6}rd",
    ] {
        let parts: Vec<&str> = body.splitn(3, ' ').collect();
        let expected = if let [server, account, secret] = parts[..] {
            Some((server.to_string(), account.to_string(), secret.to_string()))
        } else {
            None
        };
        assert_eq!(parse_credential_reply(body), expected);
    }
}

#[test]
fn find_space_gives_the_first_space_or_the_length() {
    assert_eq!(find_space("a b c", 0), 1);
    assert_eq!(find_space("a b c", 1), 1);
    assert_eq!(find_space("a b c", 2), 3);
    assert_eq!(find_space("a b c", 4), 5);
    assert_eq!(find_space("a b c", 9), 5);
    assert_eq!(find_space("", 0), 0);
    assert_eq!(find_space("\u{e9}\u{e9} x", 0), 2);
}
