//! What holds of a connection on its way to a remote account, whatever
//! events it meets.

use crate::ircd::login::{
    login_failed_text, restoring_text, session_step, tell, welcome_line, LOGIN_PROMPT,
};
use crate::ircd::session::{
    ActionView, CredentialsView, EventView, RegistrationView, SessionView,
};
use crate::ircd::proto::IrcCommandView;
use crate::ircd::reply::{credential_reply, is_word, lemma_too_few_spaces};
use vstd::prelude::*;

verus! {

/// The state a connection is in after `events`, first to last, met it in
/// `state`.
pub open spec fn session_run<H>(state: SessionView<H>, events: Seq<EventView<H>>) -> SessionView<
    H,
>
    decreases events.len(),
{
    if events.len() == 0 {
        state
    } else {
        session_step(session_run(state, events.drop_last()), events.last()).0
    }
}

/// A client that has sent nickname and password is welcomed as soon as it
/// sends its user name: the welcome is the first thing done, before the
/// credential store is asked and so before anything else is said.
pub proof fn lemma_welcome_comes_first<H>(nick: Seq<char>, pass: Seq<char>, user: Seq<char>)
    ensures
        ({
            let registration = RegistrationView { nick: Some(nick), pass: Some(pass) };
            let next = session_step::<H>(
                SessionView::AwaitingRegistration(registration),
                EventView::Command(IrcCommandView::User(user)),
            );
            &&& next.0 == SessionView::<H>::LookingUpSession(
                CredentialsView { nick, user, pass },
            )
            &&& next.1 == seq![
                ActionView::SendRaw(welcome_line(nick)),
                ActionView::LookupSession { nick, pass },
            ]
        }),
{
}

/// A session that the store keeps is restored before the user is asked for
/// anything: the user is told of the restoring, and no prompt is sent. Where
/// the store keeps none, the prompt is all that is sent.
pub proof fn lemma_stored_session_goes_first<H>(
    credentials: CredentialsView,
    stored: Option<Seq<char>>,
)
    ensures
        ({
            let next = session_step::<H>(
                SessionView::LookingUpSession(credentials),
                EventView::SessionLookedUp(stored),
            );
            match stored {
                Some(homeserver) => {
                    &&& next.0 == SessionView::<H>::RestoringSession(credentials)
                    &&& next.1.len() == 2
                    &&& next.1[0] == tell(credentials.nick, restoring_text(homeserver))
                    &&& next.1[1] == ActionView::RestoreSession {
                        homeserver,
                        nick: credentials.nick,
                        pass: credentials.pass,
                    }
                },
                None => {
                    &&& next.0 == SessionView::<H>::AwaitingRemoteCredentials {
                        credentials,
                        attempt: None,
                    }
                    &&& next.1 == seq![tell(credentials.nick, LOGIN_PROMPT@)]
                },
            }
        }),
{
}

/// A reply that does not name server, account and secret changes nothing and
/// has nothing said or done: the state is what it was, and no action follows.
pub proof fn lemma_malformed_reply_is_passed_over<H>(credentials: CredentialsView, body: Seq<char>)
    requires
        credential_reply(body) is None,
    ensures
        ({
            let waiting = SessionView::<H>::AwaitingRemoteCredentials {
                credentials,
                attempt: None,
            };
            let next = session_step(waiting, EventView::Command(IrcCommandView::Privmsg(body)));
            &&& next.0 == waiting
            &&& next.1 == Seq::<ActionView>::empty()
        }),
{
}

/// A reply of one word names nothing, so it is passed over.
pub proof fn lemma_single_word_is_passed_over<H>(credentials: CredentialsView, body: Seq<char>)
    requires
        is_word(body),
    ensures
        credential_reply(body) is None,
        ({
            let waiting = SessionView::<H>::AwaitingRemoteCredentials {
                credentials,
                attempt: None,
            };
            let next = session_step(waiting, EventView::Command(IrcCommandView::Privmsg(body)));
            &&& next.0 == waiting
            &&& next.1 == Seq::<ActionView>::empty()
        }),
{
    lemma_too_few_spaces(body, -1);
}

/// A login that the remote server refused is reported to the user, and the
/// connection awaits a reply again.
pub proof fn lemma_refused_login_is_reported<H>(
    credentials: CredentialsView,
    homeserver: Seq<char>,
    report: Seq<char>,
)
    ensures
        ({
            let trying = SessionView::<H>::AwaitingRemoteCredentials {
                credentials,
                attempt: Some(homeserver),
            };
            let next = session_step(trying, EventView::LoginFailed(report));
            &&& next.0 == SessionView::<H>::AwaitingRemoteCredentials {
                credentials,
                attempt: None,
            }
            &&& next.1 == seq![tell(credentials.nick, login_failed_text(report))]
        }),
{
}

/// A connection is bound to the account that the restoring of its session, or
/// its login, gave, and to no other, under the names the client registered
/// with. An accepted login has its session kept, with its server, under
/// nickname and local password; a restored session is kept already.
pub proof fn lemma_bound_to_what_was_given<H>(
    credentials: CredentialsView,
    homeserver: Seq<char>,
    client: H,
)
    ensures
        session_step(SessionView::RestoringSession(credentials), EventView::Restored(client)) == (
            SessionView::Bound { credentials, client },
            Seq::<ActionView>::empty(),
        ),
        session_step(
            SessionView::AwaitingRemoteCredentials { credentials, attempt: Some(homeserver) },
            EventView::LoggedIn(client, true),
        ) == (
            SessionView::Bound { credentials, client },
            seq![
                ActionView::StoreSession {
                    nick: credentials.nick,
                    pass: credentials.pass,
                    homeserver,
                },
            ],
        ),
{
}

/// Whether `state` awaits remote credentials for `credentials`.
pub open spec fn awaits_credentials<H>(state: SessionView<H>, credentials: CredentialsView) -> bool {
    state matches SessionView::AwaitingRemoteCredentials { credentials: held, .. } && held
        == credentials
}

/// A connection that awaits remote credentials goes on doing so, for the same
/// client, through any number of events, refused logins among them: only a
/// login that is accepted, or the end of the stream, takes it elsewhere.
pub proof fn lemma_credentials_awaited_until_login_or_close<H>(
    state: SessionView<H>,
    credentials: CredentialsView,
    events: Seq<EventView<H>>,
)
    requires
        awaits_credentials(state, credentials),
        forall|i: int|
            0 <= i < events.len() ==> !(#[trigger] events[i] is LoggedIn) && !(events[i]
                is Closed),
    ensures
        awaits_credentials(session_run(state, events), credentials),
    decreases events.len(),
{
    if events.len() > 0 {
        let before = events.drop_last();
        assert forall|i: int| 0 <= i < before.len() implies !(#[trigger] before[i] is LoggedIn)
            && !(before[i] is Closed) by {
            assert(before[i] == events[i]);
        }
        lemma_credentials_awaited_until_login_or_close(state, credentials, before);
        assert(!(events.last() is LoggedIn) && !(events.last() is Closed)) by {
            assert(events[events.len() - 1] == events.last());
        }
    }
}

/// A connection that is bound or given up stays so, and nothing more is to be
/// done for it.
pub proof fn lemma_done_is_done<H>(state: SessionView<H>, event: EventView<H>)
    requires
        state is Bound || state is Failed,
    ensures
        session_step(state, event) == (state, Seq::<ActionView>::empty()),
{
}

} // verus!
