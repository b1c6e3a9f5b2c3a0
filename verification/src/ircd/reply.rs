//! The reply in which a user sends remote credentials.

use vstd::prelude::*;
use vstd::string::*;

verus! {

/// Where the first space of `text` stands at or after `from`, or the length
/// of `text` where there is none.
pub open spec fn first_space(text: Seq<char>, from: int) -> int
    decreases text.len() - from,
{
    if from >= text.len() {
        text.len() as int
    } else if text[from] == ' ' {
        from
    } else {
        first_space(text, from + 1)
    }
}

/// Whether `text` holds no space.
pub open spec fn is_word(text: Seq<char>) -> bool {
    forall|i: int| 0 <= i < text.len() ==> #[trigger] text[i] != ' '
}

/// The server, the account and the secret that `body` names, if it names them.
/// They are told apart by the first two spaces of `body`: the server comes
/// before the first, the account between the two, and the secret is all that
/// follows the second, spaces and all. A body with fewer than two spaces names
/// nothing.
pub open spec fn credential_reply(body: Seq<char>) -> Option<(Seq<char>, Seq<char>, Seq<char>)> {
    let first = first_space(body, 0);
    let second = first_space(body, first + 1);
    if second < body.len() {
        Some(
            (
                body.subrange(0, first),
                body.subrange(first + 1, second),
                body.subrange(second + 1, body.len() as int),
            ),
        )
    } else {
        None
    }
}

/// What [`first_space`] finds is a space, if it is inside the text, and no
/// space comes before it.
pub proof fn lemma_first_space(text: Seq<char>, from: int)
    requires
        0 <= from,
    ensures
        from <= first_space(text, from) || first_space(text, from) == text.len(),
        first_space(text, from) <= text.len(),
        first_space(text, from) < text.len() ==> text[first_space(text, from)] == ' ',
        forall|i: int| from <= i < first_space(text, from) ==> #[trigger] text[i] != ' ',
    decreases text.len() - from,
{
    if from < text.len() && text[from] != ' ' {
        lemma_first_space(text, from + 1);
    }
}

/// A space at `at`, with none between `from` and it, is what [`first_space`]
/// finds from `from`.
pub proof fn lemma_first_space_is(text: Seq<char>, from: int, at: int)
    requires
        0 <= from <= at < text.len(),
        text[at] == ' ',
        forall|i: int| from <= i < at ==> #[trigger] text[i] != ' ',
    ensures
        first_space(text, from) == at,
    decreases at - from,
{
    if from < at {
        lemma_first_space_is(text, from + 1, at);
    }
}

/// A reply names its three parts exactly when it is a server without a space,
/// a space, an account without a space, a space, and a secret.
pub proof fn lemma_credential_reply_splits(
    body: Seq<char>,
    server: Seq<char>,
    account: Seq<char>,
    secret: Seq<char>,
)
    ensures
        credential_reply(body) == Some((server, account, secret)) <==> {
            &&& body == server + seq![' '] + account + seq![' '] + secret
            &&& is_word(server)
            &&& is_word(account)
        },
{
    let first = first_space(body, 0);
    let second = first_space(body, first + 1);
    lemma_first_space(body, 0);
    lemma_first_space(body, first + 1);
    let joined = server + seq![' '] + account + seq![' '] + secret;
    if credential_reply(body) == Some((server, account, secret)) {
        assert(body =~= joined);
    }
    if body == joined && is_word(server) && is_word(account) {
        let a = server.len() as int;
        let b = a + 1 + account.len();
        assert forall|i: int| 0 <= i < a implies #[trigger] body[i] != ' ' by {
            assert(body[i] == server[i]);
        }
        assert(body[a] == ' ');
        lemma_first_space_is(body, 0, a);
        assert forall|i: int| a + 1 <= i < b implies #[trigger] body[i] != ' ' by {
            assert(body[i] == account[i - a - 1]);
        }
        assert(body[b] == ' ');
        lemma_first_space_is(body, a + 1, b);
        assert(body.subrange(0, a) =~= server);
        assert(body.subrange(a + 1, b) =~= account);
        assert(body.subrange(b + 1, body.len() as int) =~= secret);
    }
}

/// A body with at most one space names nothing.
pub proof fn lemma_too_few_spaces(body: Seq<char>, at: int)
    requires
        forall|i: int| 0 <= i < body.len() && i != at ==> #[trigger] body[i] != ' ',
    ensures
        credential_reply(body) is None,
{
    let first = first_space(body, 0);
    lemma_first_space(body, 0);
    lemma_first_space(body, first + 1);
}

/// Finds the first space of `text` at or after `from`.
pub fn find_space(text: &str, from: usize) -> (at: usize)
    ensures
        at == first_space(text@, from as int),
{
    let len = text.unicode_len();
    let mut at = len;
    let mut found = false;
    let mut seen: usize = 0;
    for c in chars: text.chars()
        invariant
            chars.seq() == text@,
            len == text@.len(),
            seen == chars.index(),
            found ==> at == first_space(text@, from as int),
            !found ==> at == len && first_space(text@, from as int) == first_space(
                text@,
                if seen >= from {
                    seen as int
                } else {
                    from as int
                },
            ),
    {
        if !found && seen >= from && c == ' ' {
            found = true;
            at = seen;
        }
        seen = seen + 1;
    }
    at
}

/// The three parts of a reply, as plain data.
pub open spec fn parts_view(named: Option<(String, String, String)>) -> Option<
    (Seq<char>, Seq<char>, Seq<char>),
> {
    match named {
        Some(parts) => Some((parts.0@, parts.1@, parts.2@)),
        None => None,
    }
}

/// Reads the server, the account and the secret out of a user's reply.
pub fn parse_credential_reply(body: &str) -> (named: Option<(String, String, String)>)
    ensures
        parts_view(named) == credential_reply(body@),
{
    let len = body.unicode_len();
    let first = find_space(body, 0);
    proof {
        lemma_first_space(body@, 0);
    }
    if first >= len {
        return None;
    }
    let second = find_space(body, first + 1);
    proof {
        lemma_first_space(body@, first + 1);
    }
    if second >= len {
        return None;
    }
    Some(
        (
            String::from_str(body.substring_char(0, first)),
            String::from_str(body.substring_char(first + 1, second)),
            String::from_str(body.substring_char(second + 1, len)),
        ),
    )
}

} // verus!
