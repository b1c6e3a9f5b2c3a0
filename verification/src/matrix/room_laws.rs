//! What holds of targets and of the registry, whatever is done with them.

use crate::ircd::proto::IrcMessageView;
use crate::matrix::free_names::lemma_free_name_is_free;
use crate::matrix::naming::target_name;
use crate::matrix::room_mappings::{provisional_name, MappingsView, Resolved};
use crate::matrix::room_target::{
    target_of_room, ResolveErrorView, RoomTargetView, TargetError, TargetState,
};
use vstd::prelude::*;

verus! {

/// A new target is well formed.
pub proof fn lemma_fresh_target_wf(state: TargetState, name: Seq<char>)
    ensures
        RoomTargetView::fresh(state, name).wf(),
{
}

/// The transitions of a target keep it well formed, and none changes its name
/// or what it carries as an error.
pub proof fn lemma_target_steps_keep_wf(
    target: RoomTargetView,
    message: IrcMessageView,
    member_id: Seq<char>,
    nick: Seq<char>,
)
    requires
        target.wf(),
    ensures
        target.after_join().wf(),
        target.after_leave().wf(),
        target.queued(message).wf(),
        target.with_member(member_id, nick).wf(),
        target.after_join().name == target.name,
        target.after_leave().name == target.name,
        target.queued(message).name == target.name,
        target.with_member(member_id, nick).name == target.name,
        target.after_join().error == target.error,
        target.after_leave().error == target.error,
        target.queued(message).error == target.error,
        target.with_member(member_id, nick).error == target.error,
{
}

/// No two members of a well-formed target share a nickname.
pub proof fn lemma_nicknames_are_unique(target: RoomTargetView, one: Seq<char>, other: Seq<char>)
    requires
        target.wf(),
        target.members.contains_key(one),
        target.members.contains_key(other),
        target.members[one] == target.members[other],
    ensures
        one == other,
{
}

/// Messages submitted to a target that is being joined come back from the
/// join as they went in: behind those that were held already, in the order
/// of submission, each once. The join leaves nothing held back, and a second
/// join is refused, so the queue is handed out once and no more.
pub proof fn lemma_queue_comes_back_in_order(target: RoomTargetView, messages: Seq<IrcMessageView>)
    requires
        target.state == TargetState::JoiningChan,
    ensures
        target.queued_all(messages).state == TargetState::JoiningChan,
        target.queued_all(messages).join_result() == Ok::<Seq<IrcMessageView>, TargetError>(
            target.pending + messages,
        ),
        target.queued_all(messages).after_join().state == TargetState::Chan,
        target.queued_all(messages).after_join().pending.len() == 0,
        target.queued_all(messages).after_join().join_result() == Err::<
            Seq<IrcMessageView>,
            TargetError,
        >(TargetError::InvalidState),
    decreases messages.len(),
{
    if messages.len() == 0 {
        assert(target.pending + messages =~= target.pending);
    } else {
        lemma_queue_comes_back_in_order(target, messages.drop_last());
        assert(target.pending + messages =~= (target.pending + messages.drop_last()).push(
            messages.last(),
        ));
    }
}

/// A target that is not being joined takes no message.
pub proof fn lemma_only_joining_targets_queue(
    target: RoomTargetView,
    messages: Seq<IrcMessageView>,
)
    requires
        target.state != TargetState::JoiningChan,
    ensures
        target.queued_all(messages) == target,
    decreases messages.len(),
{
    if messages.len() > 0 {
        lemma_only_joining_targets_queue(target, messages.drop_last());
    }
}

/// Joining a query, or a channel that is joined, is refused and changes
/// nothing. Joining a channel that was left succeeds and hands back no message.
pub proof fn lemma_join_outcomes(target: RoomTargetView)
    requires
        target.wf(),
    ensures
        target.state == TargetState::Chan || target.state == TargetState::Query ==> {
            &&& target.join_result() == Err::<Seq<IrcMessageView>, TargetError>(
                TargetError::InvalidState,
            )
            &&& target.after_join() == target
        },
        target.state == TargetState::LeftChan ==> {
            &&& target.join_result() == Ok::<Seq<IrcMessageView>, TargetError>(Seq::empty())
            &&& target.after_join().state == TargetState::Chan
        },
{
    if target.state == TargetState::LeftChan {
        assert(target.pending =~= Seq::empty());
    }
}

/// What a room's members decide for a room that is new to the registry: none
/// gives no target and leaves the registry as it was, one or two give a
/// query, three or more a channel that is yet to be joined.
pub proof fn lemma_new_room_by_members(
    registry: MappingsView,
    room: Seq<char>,
    display_name: Option<Seq<char>>,
    count: nat,
)
    requires
        !registry.rooms.contains_key(room),
    ensures
        count == 0 ==> {
            &&& registry.resolved(room, display_name, Ok(count)) == Err::<
                Resolved,
                ResolveErrorView,
            >(ResolveErrorView::EmptyRoom(provisional_name(room, display_name)))
            &&& registry.after_resolve(room, display_name, Ok(count)) == registry
        },
        count >= 1 ==> {
            &&& registry.resolved(room, display_name, Ok(count)) == Ok::<
                Resolved,
                ResolveErrorView,
            >(Resolved::Created)
            &&& registry.after_resolve(room, display_name, Ok(count)).rooms.contains_key(room)
        },
        1 <= count <= 2 ==> registry.after_resolve(room, display_name, Ok(count)).rooms[room].state
            == TargetState::Query,
        count >= 3 ==> registry.after_resolve(room, display_name, Ok(count)).rooms[room].state
            == TargetState::JoiningChan,
{
}

/// Resolving keeps the registry well formed: rooms and names still pair off
/// one to one, the new name being free before it was given.
pub proof fn lemma_resolve_keeps_wf(
    registry: MappingsView,
    room: Seq<char>,
    display_name: Option<Seq<char>>,
    members: Result<nat, Seq<char>>,
)
    requires
        registry.wf(),
    ensures
        registry.after_resolve(room, display_name, members).wf(),
{
    let name = provisional_name(room, display_name);
    let after = registry.after_resolve(room, display_name, members);
    if !registry.rooms.contains_key(room) && target_of_room(name, members) is Ok {
        let made = registry.new_target(name, members)->Ok_0;
        lemma_free_name_is_free(target_name(name), registry.targets.dom());
        assert(after == registry.with_room(room, made));
        assert forall|r: Seq<char>| #[trigger] after.rooms.contains_key(r) implies {
            &&& after.rooms[r].wf()
            &&& after.rooms[r].error is None
            &&& after.targets.contains_key(after.rooms[r].name)
            &&& after.targets[after.rooms[r].name] == r
        } by {
            if r != room {
                assert(registry.rooms.contains_key(r));
                assert(registry.targets.contains_key(registry.rooms[r].name));
            }
        }
        assert forall|n: Seq<char>| #[trigger] after.targets.contains_key(n) implies {
            &&& n.len() > 0
            &&& after.rooms.contains_key(after.targets[n])
            &&& after.rooms[after.targets[n]].name == n
        } by {
            if n != made.name {
                assert(registry.targets.contains_key(n));
                assert(registry.rooms.contains_key(registry.targets[n]));
            }
        }
    }
}

/// In a well-formed registry no two rooms have targets of the same name.
pub proof fn lemma_names_are_unique(registry: MappingsView, one: Seq<char>, other: Seq<char>)
    requires
        registry.wf(),
        registry.rooms.contains_key(one),
        registry.rooms.contains_key(other),
        registry.rooms[one].name == registry.rooms[other].name,
    ensures
        one == other,
{
}

/// What is done to the target of one room keeps the registry well formed.
pub proof fn lemma_target_steps_keep_registry_wf(
    registry: MappingsView,
    room: Seq<char>,
    message: IrcMessageView,
    member_id: Seq<char>,
    nick: Seq<char>,
)
    requires
        registry.wf(),
    ensures
        registry.after_join(room).wf(),
        registry.after_leave(room).wf(),
        registry.queued(room, message).wf(),
        registry.with_member(room, member_id, nick).wf(),
{
    if registry.rooms.contains_key(room) {
        let target = registry.rooms[room];
        lemma_target_steps_keep_wf(target, message, member_id, nick);
        lemma_same_name_keeps_wf(registry, room, target.after_join());
        lemma_same_name_keeps_wf(registry, room, target.after_leave());
        lemma_same_name_keeps_wf(registry, room, target.queued(message));
        lemma_same_name_keeps_wf(registry, room, target.with_member(member_id, nick));
    }
}

/// A registry in which the target of a room gave way to a well-formed one
/// of the same name, without an error, is still well formed.
pub proof fn lemma_same_name_keeps_wf(
    registry: MappingsView,
    room: Seq<char>,
    target: RoomTargetView,
)
    requires
        registry.wf(),
        registry.rooms.contains_key(room),
        target.wf(),
        target.error is None,
        target.name == registry.rooms[room].name,
    ensures
        registry.with_target(room, target).wf(),
{
    let after = registry.with_target(room, target);
    assert forall|r: Seq<char>| #[trigger] after.rooms.contains_key(r) implies {
        &&& after.rooms[r].wf()
        &&& after.targets.contains_key(after.rooms[r].name)
        &&& after.targets[after.rooms[r].name] == r
    } by {
        assert(registry.rooms.contains_key(r));
    }
    assert forall|n: Seq<char>| #[trigger] after.targets.contains_key(n) implies {
        &&& n.len() > 0
        &&& after.rooms.contains_key(after.targets[n])
        &&& after.rooms[after.targets[n]].name == n
    } by {
        assert(registry.targets.contains_key(n));
        assert(registry.rooms.contains_key(registry.targets[n]));
    }
}

/// A room is given a target once. Once resolving a room has succeeded, the
/// room is registered, and whoever resolves it again, with whatever was
/// learnt of the room in the meantime, is told that its target exists and
/// finds the registry, and with it that target, as it was.
pub proof fn lemma_room_resolved_once(
    registry: MappingsView,
    room: Seq<char>,
    display_name: Option<Seq<char>>,
    members: Result<nat, Seq<char>>,
    later_name: Option<Seq<char>>,
    later_members: Result<nat, Seq<char>>,
)
    requires
        registry.resolved(room, display_name, members) is Ok,
    ensures
        ({
            let settled = registry.after_resolve(room, display_name, members);
            &&& settled.rooms.contains_key(room)
            &&& settled.resolved(room, later_name, later_members) == Ok::<
                Resolved,
                ResolveErrorView,
            >(Resolved::Existing)
            &&& settled.after_resolve(room, later_name, later_members) == settled
        }),
{
}

/// What was learnt of a room before one attempt to resolve it: its display
/// name, unless that could not be had, and the number of its active members,
/// or what the attempt to count them reported.
pub type Findings = (Option<Seq<char>>, Result<nat, Seq<char>>);

/// The registry after `room` was resolved once for each of `attempts`, first
/// to last.
pub open spec fn after_resolves(
    registry: MappingsView,
    room: Seq<char>,
    attempts: Seq<Findings>,
) -> MappingsView
    decreases attempts.len(),
{
    if attempts.len() == 0 {
        registry
    } else {
        after_resolves(registry, room, attempts.drop_last()).after_resolve(
            room,
            attempts.last().0,
            attempts.last().1,
        )
    }
}

/// How many of `attempts` to resolve `room`, made first to last, ended with a
/// target being made.
pub open spec fn creations(registry: MappingsView, room: Seq<char>, attempts: Seq<Findings>) -> nat
    decreases attempts.len(),
{
    if attempts.len() == 0 {
        0
    } else {
        let before = after_resolves(registry, room, attempts.drop_last());
        creations(registry, room, attempts.drop_last()) + if before.resolved(
            room,
            attempts.last().0,
            attempts.last().1,
        ) == Ok::<Resolved, ResolveErrorView>(Resolved::Created) {
            1nat
        } else {
            0nat
        }
    }
}

/// However many callers resolve one room, in whatever order the registry's
/// lock lets them in, at most one target is made for it, and a room that is
/// registered has had exactly one made. A room that was registered before
/// sees none made, and the registry stays as it was. Looking a room up
/// changes nothing, so lookups may fall anywhere between the attempts.
pub proof fn lemma_one_target_per_room(
    registry: MappingsView,
    room: Seq<char>,
    attempts: Seq<Findings>,
)
    ensures
        creations(registry, room, attempts) <= 1,
        registry.rooms.contains_key(room) ==> {
            &&& creations(registry, room, attempts) == 0
            &&& after_resolves(registry, room, attempts) == registry
        },
        !registry.rooms.contains_key(room) ==> (creations(registry, room, attempts) == 1
            <==> after_resolves(registry, room, attempts).rooms.contains_key(room)),
    decreases attempts.len(),
{
    if attempts.len() > 0 {
        lemma_one_target_per_room(registry, room, attempts.drop_last());
    }
}

} // verus!
