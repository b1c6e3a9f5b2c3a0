//! Names that are free: how a new target comes by a name that is not empty and
//! that no other target carries.

use crate::matrix::naming::is_target_name;
use vstd::prelude::*;

verus! {

/// `base` followed by `count` underscores.
pub open spec fn padded(base: Seq<char>, count: nat) -> Seq<char> {
    base + Seq::new(count, |i: int| '_')
}

/// Whether a new target can be called `name`: the name is not empty, and none
/// of the targets in `taken` carries it.
pub open spec fn is_free(name: Seq<char>, taken: Set<Seq<char>>) -> bool {
    name.len() > 0 && !taken.contains(name)
}

/// Whether `count` is the least number of underscores that makes `base` a
/// free name.
pub open spec fn is_first_free(base: Seq<char>, taken: Set<Seq<char>>, count: nat) -> bool {
    &&& is_free(padded(base, count), taken)
    &&& forall|fewer: nat| fewer < count ==> !is_free(#[trigger] padded(base, fewer), taken)
}

/// The name that a new target gets where it would like `base` and the names
/// in `taken` are in use: `base` itself if that is free, else `base` followed
/// by as few underscores as make it free.
pub open spec fn free_name(base: Seq<char>, taken: Set<Seq<char>>) -> Seq<char> {
    padded(base, choose|count: nat| is_first_free(base, taken, count))
}

/// One more underscore goes at the end.
pub proof fn lemma_padded_step(base: Seq<char>, count: nat)
    ensures
        padded(base, count + 1) == padded(base, count).push('_'),
        padded(base, count + 1) == padded(base, count) + "_"@,
        padded(base, 0) == base,
        padded(base, count).len() == base.len() + count,
{
    reveal_strlit("_");
    assert(padded(base, count + 1) =~= padded(base, count).push('_'));
    assert(padded(base, count + 1) =~= padded(base, count) + "_"@);
    assert(padded(base, 0) =~= base);
}

/// There is only one least number of underscores.
pub proof fn lemma_first_free_unique(
    base: Seq<char>,
    taken: Set<Seq<char>>,
    count: nat,
    other: nat,
)
    requires
        is_first_free(base, taken, count),
        is_first_free(base, taken, other),
    ensures
        count == other,
{
    if count < other {
        assert(!is_free(padded(base, count), taken));
    }
    if other < count {
        assert(!is_free(padded(base, other), taken));
    }
}

/// Searching upwards from `count` underscores ends: each name passed over is
/// either the empty one or one more of the finitely many names in use.
proof fn lemma_first_free_from(
    base: Seq<char>,
    taken: Set<Seq<char>>,
    count: nat,
    passed: Set<Seq<char>>,
) -> (found: nat)
    requires
        taken.finite(),
        passed.finite(),
        passed.subset_of(taken),
        passed.len() + 1 >= count,
        forall|name: Seq<char>| passed.contains(name) ==> name.len() < base.len() + count,
        forall|fewer: nat| fewer < count ==> !is_free(#[trigger] padded(base, fewer), taken),
    ensures
        is_first_free(base, taken, found),
    decreases taken.len() + 1 - count,
{
    let name = padded(base, count);
    lemma_padded_step(base, count);
    vstd::set_lib::lemma_len_subset(passed, taken);
    if is_free(name, taken) {
        count
    } else if taken.contains(name) {
        let more = passed.insert(name);
        vstd::set_lib::lemma_len_subset(more, taken);
        lemma_first_free_from(base, taken, count + 1, more)
    } else {
        // Only the empty name is refused without being in use.
        assert(count == 0);
        lemma_first_free_from(base, taken, count + 1, passed)
    }
}

/// Among finitely many names in use a free one is always found, and it is a
/// target name where `base` is one.
pub proof fn lemma_free_name_is_free(base: Seq<char>, taken: Set<Seq<char>>)
    requires
        taken.finite(),
    ensures
        exists|count: nat|
            is_first_free(base, taken, count) && free_name(base, taken) == padded(base, count),
        is_free(free_name(base, taken), taken),
        is_target_name(base) ==> is_target_name(free_name(base, taken)),
        is_free(base, taken) ==> free_name(base, taken) == base,
{
    let found = lemma_first_free_from(base, taken, 0, Set::empty());
    let chosen = choose|count: nat| is_first_free(base, taken, count);
    lemma_first_free_unique(base, taken, found, chosen);
    lemma_padded_step(base, 0);
    if is_free(base, taken) {
        assert(is_first_free(base, taken, 0));
        lemma_first_free_unique(base, taken, 0, chosen);
    }
}

} // verus!
