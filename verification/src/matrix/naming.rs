//! What a display name becomes when a channel or query is named after it.
//!
//! A name is sanitized by a pattern engine that nothing is proved of. So its
//! answer is not taken on trust: it is used where it is found to be the name
//! sanitized, as [`sanitized`] says what that is, and nowhere else.

use regex::Regex;
use vstd::prelude::*;
use vstd::std_specs::iter::IteratorSpec;
use vstd::string::*;

verus! {

broadcast use vstd::string::group_string_axioms;

/// Whether `c` may appear in the name of a channel or query: an ASCII letter,
/// an underscore or a hyphen.
pub open spec fn is_target_char(c: char) -> bool {
    ||| 'a' <= c <= 'z'
    ||| 'A' <= c <= 'Z'
    ||| c == '_'
    ||| c == '-'
}

/// Whether every character of `s` may appear in a target name.
pub open spec fn is_target_name(s: Seq<char>) -> bool {
    forall|i: int| 0 <= i < s.len() ==> is_target_char(#[trigger] s[i])
}

/// What is left of `s` once every character that is not a target character
/// has been taken out. The characters that stay keep their order.
pub open spec fn sanitized(s: Seq<char>) -> Seq<char> {
    s.filter(|c: char| is_target_char(c))
}

/// Sanitizing a string that ends in `c` sanitizes what comes before `c` and
/// then keeps or drops `c`.
pub proof fn lemma_sanitized_push(s: Seq<char>, c: char)
    ensures
        sanitized(s.push(c)) == if is_target_char(c) {
            sanitized(s).push(c)
        } else {
            sanitized(s)
        },
{
    reveal(Seq::filter);
    assert(s.push(c).drop_last() == s);
}

/// Sanitizing goes character by character: two strings in a row give their
/// two results in a row.
pub proof fn lemma_sanitized_concat(front: Seq<char>, back: Seq<char>)
    ensures
        sanitized(front + back) == sanitized(front) + sanitized(back),
{
    Seq::filter_distributes_over_add(front, back, |c: char| is_target_char(c));
}

/// Nothing but target characters is left in a sanitized string.
pub proof fn lemma_sanitized_is_target_name(s: Seq<char>)
    ensures
        is_target_name(sanitized(s)),
    decreases s.len(),
{
    reveal(Seq::filter);
    if s.len() > 0 {
        lemma_sanitized_is_target_name(s.drop_last());
    }
}

/// A string made of target characters only is left as it is.
pub proof fn lemma_sanitized_keeps_target_name(s: Seq<char>)
    requires
        is_target_name(s),
    ensures
        sanitized(s) == s,
    decreases s.len(),
{
    reveal(Seq::filter);
    if s.len() > 0 {
        lemma_sanitized_keeps_target_name(s.drop_last());
        assert(s.drop_last().push(s.last()) == s);
    }
}

/// Sanitizing twice gives what sanitizing once gives.
pub proof fn lemma_sanitized_idempotent(s: Seq<char>)
    ensures
        sanitized(sanitized(s)) == sanitized(s),
{
    lemma_sanitized_is_target_name(s);
    lemma_sanitized_keeps_target_name(sanitized(s));
}

/// Sanitizing never lengthens a string, and shortens it exactly when some
/// character had to go.
pub proof fn lemma_sanitized_len(s: Seq<char>)
    ensures
        sanitized(s).len() <= s.len(),
        sanitized(s).len() == s.len() <==> is_target_name(s),
    decreases s.len(),
{
    reveal(Seq::filter);
    if s.len() > 0 {
        let front = s.drop_last();
        lemma_sanitized_len(front);
        if is_target_name(s) {
            assert forall|i: int| 0 <= i < front.len() implies is_target_char(
                #[trigger] front[i],
            ) by {
                assert(front[i] == s[i]);
            }
        }
        if sanitized(s).len() == s.len() {
            assert(is_target_char(s.last()));
            assert forall|i: int| 0 <= i < s.len() implies is_target_char(#[trigger] s[i]) by {
                if i < front.len() {
                    assert(front[i] == s[i]);
                }
            }
        }
    }
}

/// Decides [`is_target_char`].
pub fn target_char(c: char) -> (keep: bool)
    ensures
        keep == is_target_char(c),
{
    ('a' <= c && c <= 'z') || ('A' <= c && c <= 'Z') || c == '_' || c == '-'
}

/// The pattern that matches every run of characters that a target name
/// cannot hold.
pub const OUTSIDE_TARGET_NAME: &'static str = "[^a-zA-Z_-]+";

/// What the pattern engine makes of `haystack` when every match of `pattern`
/// in it gives way to `replacement`, or nothing where the engine does not
/// take `pattern`.
pub uninterp spec fn regex_replace_all(
    pattern: Seq<char>,
    haystack: Seq<char>,
    replacement: Seq<char>,
) -> Option<Seq<char>>;

/// An answer of the engine as plain data.
pub open spec fn answer_view(answer: Option<String>) -> Option<Seq<char>> {
    match answer {
        Some(text) => Some(text@),
        None => None,
    }
}

/// Calls `regex::Regex::new` on `pattern` and, on the pattern that this gives,
/// `regex::Regex::replace_all` with `haystack` and `replacement`. Nothing is
/// said of the answer but that it is the engine's answer to these three
/// texts. What the answer holds is for the caller to find out.
#[verifier::external_body]
fn replace_all(pattern: &str, haystack: &str, replacement: &str) -> (answer: Option<String>)
    ensures
        answer_view(answer) == regex_replace_all(pattern@, haystack@, replacement@),
{
    match Regex::new(pattern) {
        Ok(matcher) => Some(matcher.replace_all(haystack, replacement).into_owned()),
        Err(_) => None,
    }
}

/// The name made of `name` and the engine's `answer` for it: the answer, where
/// it is `name` sanitized, and else `name` as it is.
pub open spec fn checked(name: Seq<char>, answer: Option<Seq<char>>) -> Seq<char> {
    if answer == Some(sanitized(name)) {
        sanitized(name)
    } else {
        name
    }
}

/// The name that a channel or query gets for the display name `name`.
pub open spec fn target_name(name: Seq<char>) -> Seq<char> {
    checked(name, regex_replace_all(OUTSIDE_TARGET_NAME@, name, ""@))
}

/// What checking gives is `name` sanitized or `name` itself: sanitized where
/// the answer is just that, and `name` itself for every other answer. A name
/// that holds target characters only comes out as it is, whatever the answer.
pub proof fn lemma_checked(name: Seq<char>, answer: Option<Seq<char>>)
    ensures
        checked(name, answer) == sanitized(name) || checked(name, answer) == name,
        answer == Some(sanitized(name)) ==> checked(name, answer) == sanitized(name),
        answer != Some(sanitized(name)) ==> checked(name, answer) == name,
        is_target_name(name) ==> checked(name, answer) == name,
        checked(name, answer).len() <= name.len(),
{
    lemma_sanitized_len(name);
    if is_target_name(name) {
        lemma_sanitized_keeps_target_name(name);
    }
}

/// A name is checked only once: checking the outcome again, against whatever
/// answer, changes nothing. So making a target name of a target name gives
/// the same name, whatever the engine does.
pub proof fn lemma_checked_once(
    name: Seq<char>,
    answer: Option<Seq<char>>,
    again: Option<Seq<char>>,
)
    requires
        checked(name, answer) != name || again == answer,
    ensures
        checked(checked(name, answer), again) == checked(name, answer),
{
    if checked(name, answer) != name {
        lemma_sanitized_idempotent(name);
    }
}

/// Making a target name twice gives what making it once gives.
pub proof fn lemma_target_name_idempotent(name: Seq<char>)
    ensures
        target_name(target_name(name)) == target_name(name),
{
    let made = target_name(name);
    lemma_checked_once(
        name,
        regex_replace_all(OUTSIDE_TARGET_NAME@, name, ""@),
        regex_replace_all(OUTSIDE_TARGET_NAME@, made, ""@),
    );
}

/// Whether `candidate` is `name` sanitized. The two are walked through side
/// by side: every character of `name` that stays must be the next one of
/// `candidate`, and `candidate` must end where `name` does.
pub fn is_sanitized(name: &str, candidate: &str) -> (yes: bool)
    ensures
        yes == (candidate@ == sanitized(name@)),
{
    let total = name.unicode_len();
    let mut rest = candidate.chars();
    let mut at: usize = 0;
    // How much of `candidate` has been found to be what is left of `name` so
    // far.
    let ghost mut matched: int = 0;
    proof {
        reveal(Seq::filter);
        assert(candidate@.subrange(0, 0) =~= sanitized(name@.subrange(0, 0)));
        assert(candidate@.subrange(0, candidate@.len() as int) == candidate@);
    }
    for c in chars: name.chars()
        invariant
            chars.seq() == name@,
            total == name@.len(),
            at == chars.index(),
            rest.obeys_prophetic_iter_laws(),
            0 <= matched <= candidate@.len(),
            rest.remaining() == candidate@.subrange(matched, candidate@.len() as int),
            candidate@.subrange(0, matched) == sanitized(name@.subrange(0, at as int)),
    {
        proof {
            let seen = name@.subrange(0, at as int);
            let ahead = name@.subrange(at + 1, name@.len() as int);
            lemma_sanitized_push(seen, c);
            assert(seen.push(c) == name@.subrange(0, at + 1));
            assert(name@ =~= seen.push(c) + ahead);
            lemma_sanitized_concat(seen.push(c), ahead);
        }
        if target_char(c) {
            // What is left of `name` goes on with `c` here.
            assert(sanitized(name@)[matched] == c) by {
                assert(sanitized(name@.subrange(0, at + 1))[matched] == c);
            }
            match rest.next() {
                Some(next) => {
                    if next != c {
                        return false;
                    }
                    proof {
                        assert(candidate@.subrange(0, matched + 1) =~= candidate@.subrange(
                            0,
                            matched,
                        ).push(c));
                        assert(candidate@.subrange(matched, candidate@.len() as int).drop_first()
                            =~= candidate@.subrange(matched + 1, candidate@.len() as int));
                        matched = matched + 1;
                    }
                },
                None => {
                    return false;
                },
            }
        }
        at = at + 1;
    }
    let left = rest.next();
    proof {
        assert(name@.subrange(0, at as int) == name@);
        if left is None {
            assert(candidate@.subrange(0, matched) =~= candidate@);
        }
    }
    left.is_none()
}

/// Makes the target name of `name` out of the engine's answer for it: the
/// answer is taken where it is `name` sanitized, and `name` is left as it is
/// where the answer is anything else, or missing.
pub fn checked_name(name: &str, answer: Option<String>) -> (out: String)
    ensures
        out@ == checked(name@, answer_view(answer)),
{
    match answer {
        Some(stripped) => {
            if is_sanitized(name, stripped.as_str()) {
                stripped
            } else {
                String::from_str(name)
            }
        },
        None => String::from_str(name),
    }
}

/// Turns a display name into the name that a channel or query carries. The
/// pattern engine takes out every character that is not an ASCII letter, an
/// underscore or a hyphen; its answer is used once it has been found to be
/// just that, and the name is left as it is if ever it is not. The result may
/// be empty, and two display names may give the same result.
pub fn sanitize(name: &str) -> (out: String)
    ensures
        out@ == target_name(name@),
        out@ == sanitized(name@) || out@ == name@,
{
    checked_name(name, replace_all(OUTSIDE_TARGET_NAME, name, ""))
}

} // verus!
