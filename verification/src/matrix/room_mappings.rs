//! The registry that gives every remote room its one local target, and finds
//! the room again from the target's name.

pub use crate::matrix::room_target::{
    ResolveError, ResolveErrorView, RoomTarget, RoomTargetView, TargetError, TargetState,
};

use crate::ircd::proto::{IrcMessage, IrcMessageView, BRIDGE_NAME};
use crate::matrix::free_names::{
    free_name, is_first_free, is_free, lemma_free_name_is_free, lemma_padded_step, padded,
};
use crate::matrix::naming::target_name;
use crate::matrix::room_target::{handed_view, members_view, target_of_room};
use vstd::hash_map::*;
use vstd::prelude::*;
use vstd::string::*;

verus! {

/// How a registry answered for a room that has a target.
#[derive(Clone, Copy, Debug, PartialEq, Eq, Structural)]
pub enum Resolved {
    /// The room had its target already.
    Existing,
    /// The room was new, and its target was made by this call.
    Created,
}

/// What resolving a room gave.
pub enum Resolution {
    /// The room had its target already; the registry holds it.
    Existing,
    /// The room was new and its target was made by this call; the registry
    /// holds it.
    Created,
    /// No target could be found or made. The target given here stands in for
    /// it: a query under the bridge's own name that carries the reason. The
    /// registry does not hold it.
    StandIn(RoomTarget),
}

/// A registry as plain data: its two tables.
pub struct MappingsView {
    /// The target of each room, by room identifier.
    pub rooms: Map<Seq<char>, RoomTargetView>,
    /// The room behind each target name.
    pub targets: Map<Seq<char>, Seq<char>>,
}

/// The name under which a room is first known: its display name where that
/// could be had, else its identifier.
pub open spec fn provisional_name(room: Seq<char>, display_name: Option<Seq<char>>) -> Seq<char> {
    match display_name {
        Some(name) => name,
        None => room,
    }
}

/// What is said of a room for which no target could be found or made.
pub open spec fn failure_text(error: ResolveErrorView) -> Seq<char> {
    "Could not find or create target: "@ + error.message()
}

/// The target that stands in for a room for which none could be found or made.
pub open spec fn stand_in(error: ResolveErrorView) -> RoomTargetView {
    RoomTargetView {
        error: Some(failure_text(error)),
        ..RoomTargetView::fresh(TargetState::Query, target_name(BRIDGE_NAME@))
    }
}

impl MappingsView {
    /// The two tables pair rooms and target names off one to one: every room
    /// is found again under the name of its target, and every name leads to a
    /// room whose target carries it. So no two rooms share a name, and no name
    /// is empty. Every target is well formed, and none carries
    /// an error: a target that stands in for a room is never entered.
    pub open spec fn wf(self) -> bool {
        &&& self.targets.dom().finite()
        &&& forall|room: Seq<char>| #[trigger]
            self.rooms.contains_key(room) ==> {
                &&& self.rooms[room].wf()
                &&& self.rooms[room].error is None
                &&& self.targets.contains_key(self.rooms[room].name)
                &&& self.targets[self.rooms[room].name] == room
            }
        &&& forall|name: Seq<char>| #[trigger]
            self.targets.contains_key(name) ==> {
                &&& name.len() > 0
                &&& self.rooms.contains_key(self.targets[name])
                &&& self.rooms[self.targets[name]].name == name
            }
    }

    /// A registry without rooms.
    pub open spec fn empty() -> Self {
        MappingsView { rooms: Map::empty(), targets: Map::empty() }
    }

    /// The registry with `target` in the place of the target of `room`.
    pub open spec fn with_target(self, room: Seq<char>, target: RoomTargetView) -> Self {
        MappingsView { rooms: self.rooms.insert(room, target), ..self }
    }

    /// The registry with `room` newly entered under `target`, and the name of
    /// `target` leading to it.
    pub open spec fn with_room(self, room: Seq<char>, target: RoomTargetView) -> Self {
        MappingsView {
            rooms: self.rooms.insert(room, target),
            targets: self.targets.insert(target.name, room),
        }
    }

    /// What ending the join of the target of `room` hands back.
    pub open spec fn join_result(self, room: Seq<char>) -> Result<
        Seq<IrcMessageView>,
        TargetError,
    > {
        if self.rooms.contains_key(room) {
            self.rooms[room].join_result()
        } else {
            Err(TargetError::NoSuchTarget)
        }
    }

    /// What leaving the target of `room` comes to.
    pub open spec fn leave_result(self, room: Seq<char>) -> Result<(), TargetError> {
        if self.rooms.contains_key(room) {
            self.rooms[room].leave_result()
        } else {
            Err(TargetError::NoSuchTarget)
        }
    }

    /// The registry after an attempt to end the join of the target of `room`.
    pub open spec fn after_join(self, room: Seq<char>) -> Self {
        if self.rooms.contains_key(room) {
            self.with_target(room, self.rooms[room].after_join())
        } else {
            self
        }
    }

    /// The registry after the local client has left the target of `room`, or
    /// tried to.
    pub open spec fn after_leave(self, room: Seq<char>) -> Self {
        if self.rooms.contains_key(room) {
            self.with_target(room, self.rooms[room].after_leave())
        } else {
            self
        }
    }

    /// The registry after `message` was submitted to the target of `room`.
    pub open spec fn queued(self, room: Seq<char>, message: IrcMessageView) -> Self {
        if self.rooms.contains_key(room) {
            self.with_target(room, self.rooms[room].queued(message))
        } else {
            self
        }
    }

    /// The registry after `member_id` was offered the nickname `nick` in the
    /// target of `room`.
    pub open spec fn with_member(
        self,
        room: Seq<char>,
        member_id: Seq<char>,
        nick: Seq<char>,
    ) -> Self {
        if self.rooms.contains_key(room) {
            self.with_target(room, self.rooms[room].with_member(member_id, nick))
        } else {
            self
        }
    }

    /// The target that a new room gets: the one its members call for, under
    /// a name that is free here.
    pub open spec fn new_target(self, name: Seq<char>, members: Result<nat, Seq<char>>) -> Result<
        RoomTargetView,
        ResolveErrorView,
    > {
        match target_of_room(name, members) {
            Ok(target) => Ok(
                RoomTargetView { name: free_name(target.name, self.targets.dom()), ..target },
            ),
            Err(error) => Err(error),
        }
    }

    /// How resolving `room` ends. A room that has a target keeps it, whatever
    /// was learnt of the room since. A new room gets the target its members
    /// call for, or none.
    pub open spec fn resolved(
        self,
        room: Seq<char>,
        display_name: Option<Seq<char>>,
        members: Result<nat, Seq<char>>,
    ) -> Result<Resolved, ResolveErrorView> {
        if self.rooms.contains_key(room) {
            Ok(Resolved::Existing)
        } else {
            match self.new_target(provisional_name(room, display_name), members) {
                Ok(_) => Ok(Resolved::Created),
                Err(error) => Err(error),
            }
        }
    }

    /// The registry after `room` was resolved: as before, but for a new room
    /// that got a target, which is entered.
    pub open spec fn after_resolve(
        self,
        room: Seq<char>,
        display_name: Option<Seq<char>>,
        members: Result<nat, Seq<char>>,
    ) -> Self {
        if self.rooms.contains_key(room) {
            self
        } else {
            match self.new_target(provisional_name(room, display_name), members) {
                Ok(target) => self.with_room(room, target),
                Err(_) => self,
            }
        }
    }
}

/// How resolving ended, as plain data.
pub open spec fn outcome_view(outcome: Result<Resolved, ResolveError>) -> Result<
    Resolved,
    ResolveErrorView,
> {
    match outcome {
        Ok(how) => Ok(how),
        Err(error) => Err(error@),
    }
}

/// A display name as plain data.
pub open spec fn display_view(display_name: Option<&str>) -> Option<Seq<char>> {
    match display_name {
        Some(name) => Some(name@),
        None => None,
    }
}

/// One room of a registry: its identifier and its target.
struct Slot {
    room: String,
    target: RoomTarget,
}

/// The tables of a registry.
struct MappingsInner {
    /// The rooms, in the order in which they were entered.
    slots: Vec<Slot>,
    /// Where in `slots` each room stands, by room identifier.
    rooms: StringHashMap<usize>,
    /// The room behind each target name. A name stays reserved while its room
    /// is registered, joined or not.
    targets: StringHashMap<String>,
}

impl View for MappingsInner {
    type V = MappingsView;

    closed spec fn view(&self) -> MappingsView {
        MappingsView {
            rooms: Map::new(
                |room: Seq<char>| self.rooms@.contains_key(room),
                |room: Seq<char>| self.slots@[self.rooms@[room] as int].target@,
            ),
            targets: self.targets@.map_values(|room: String| room@),
        }
    }
}

impl MappingsInner {
    /// Every room is found where the index says, every slot is indexed, and
    /// the tables pair off as [`MappingsView::wf`] says.
    spec fn wf(&self) -> bool {
        &&& forall|room: Seq<char>| #[trigger]
            self.rooms@.contains_key(room) ==> {
                &&& self.rooms@[room] < self.slots@.len()
                &&& self.slots@[self.rooms@[room] as int].room@ == room
            }
        &&& forall|at: int|
            0 <= at < self.slots@.len() ==> {
                &&& self.rooms@.contains_key(#[trigger] self.slots@[at].room@)
                &&& self.rooms@[self.slots@[at].room@] == at
            }
        &&& self@.wf()
    }

    /// A registry without rooms.
    fn new() -> (made: Self)
        ensures
            made.wf(),
            made@ == MappingsView::empty(),
    {
        let made = MappingsInner {
            slots: Vec::new(),
            rooms: StringHashMap::new(),
            targets: StringHashMap::new(),
        };
        assert(made@.rooms =~= Map::empty());
        assert(made@.targets =~= Map::empty());
        made
    }

    /// Where the room stands, if it is registered.
    fn slot_of(&self, room_id: &str) -> (at: Option<usize>)
        requires
            self.wf(),
        ensures
            at is Some == self@.rooms.contains_key(room_id@),
            at matches Some(i) ==> {
                &&& i < self.slots@.len()
                &&& self.slots@[i as int].room@ == room_id@
                &&& self.rooms@[room_id@] == i
                &&& self.slots@[i as int].target@ == self@.rooms[room_id@]
            },
    {
        match self.rooms.get(room_id) {
            Some(at) => Some(*at),
            None => None,
        }
    }

    /// The target of the room, if it has one.
    fn target(&self, room_id: &str) -> (found: Option<&RoomTarget>)
        requires
            self.wf(),
        ensures
            found is Some == self@.rooms.contains_key(room_id@),
            found matches Some(target) ==> target@ == self@.rooms[room_id@],
    {
        match self.slot_of(room_id) {
            Some(at) => Some(&self.slots[at].target),
            None => None,
        }
    }

    /// The room whose target is called `name`, if there is one.
    fn room_of_target(&self, name: &str) -> (found: Option<String>)
        requires
            self.wf(),
        ensures
            found is Some == self@.targets.contains_key(name@),
            found matches Some(room) ==> room@ == self@.targets[name@],
    {
        match self.targets.get(name) {
            Some(room) => Some(room.clone()),
            None => None,
        }
    }
}

/// A registry in which one target changed, but not its name, is still well
/// formed, and differs from what it was in that target alone.
proof fn lemma_slot_changed(before: MappingsInner, after: MappingsInner, at: int)
    requires
        before.wf(),
        0 <= at < before.slots@.len(),
        after.rooms == before.rooms,
        after.targets == before.targets,
        after.slots@.len() == before.slots@.len(),
        forall|other: int|
            0 <= other < before.slots@.len() && other != at ==> after.slots@[other]
                == before.slots@[other],
        after.slots@[at].room == before.slots@[at].room,
        after.slots@[at].target@.name == before.slots@[at].target@.name,
        after.slots@[at].target@.error == before.slots@[at].target@.error,
        after.slots@[at].target@.wf(),
    ensures
        after.wf(),
        after@ == before@.with_target(before.slots@[at].room@, after.slots@[at].target@),
{
    let room = before.slots@[at].room@;
    let changed = after.slots@[at].target@;
    assert(after@.rooms =~= before@.rooms.insert(room, changed)) by {
        assert forall|r: Seq<char>| #[trigger] after@.rooms.contains_key(r) implies after@.rooms[r]
            == before@.rooms.insert(room, changed)[r] by {
            if r != room {
                assert(before.rooms@.contains_key(r));
                assert(before.rooms@[r] != at);
            }
        }
    }
    assert(after@.targets == before@.targets);
    assert forall|r: Seq<char>| #[trigger] after@.rooms.contains_key(r) implies {
        &&& after@.rooms[r].wf()
        &&& after@.rooms[r].error is None
        &&& after@.targets.contains_key(after@.rooms[r].name)
        &&& after@.targets[after@.rooms[r].name] == r
    } by {
        assert(before@.rooms.contains_key(r));
    }
    assert forall|name: Seq<char>| #[trigger] after@.targets.contains_key(name) implies {
        &&& name.len() > 0
        &&& after@.rooms.contains_key(after@.targets[name])
        &&& after@.rooms[after@.targets[name]].name == name
    } by {
        assert(before@.targets.contains_key(name));
    }
}

impl MappingsInner {
    /// The name that a new target gets here where it would like `base`.
    fn free_name(&self, base: String) -> (name: String)
        requires
            self.wf(),
        ensures
            name@ == free_name(base@, self@.targets.dom()),
            is_free(name@, self@.targets.dom()),
    {
        let ghost taken = self@.targets.dom();
        proof {
            lemma_free_name_is_free(base@, taken);
            lemma_padded_step(base@, 0);
        }
        let ghost found = choose|count: nat| is_first_free(base@, taken, count);
        let ghost mut count: nat = 0;
        let mut name = base;
        while name.as_str().is_empty() || self.targets.contains_key(name.as_str())
            invariant
                taken == self@.targets.dom(),
                is_first_free(base@, taken, found),
                count <= found,
                name@ == padded(base@, count),
            decreases found - count,
        {
            proof {
                assert(!is_free(padded(base@, count), taken));
                lemma_padded_step(base@, count);
                count = count + 1;
            }
            name.append("_");
        }
        proof {
            assert(is_free(padded(base@, count), taken));
            if count < found {
                assert(!is_free(padded(base@, count), taken));
            }
        }
        name
    }

    /// Finds the room's target, or makes one and enters it.
    fn try_room_target(
        &mut self,
        room_id: &str,
        display_name: Option<&str>,
        members: Result<usize, String>,
    ) -> (outcome: Result<Resolved, ResolveError>)
        requires
            old(self).wf(),
        ensures
            final(self).wf(),
            final(self)@ == old(self)@.after_resolve(
                room_id@,
                display_view(display_name),
                members_view(members),
            ),
            outcome_view(outcome) == old(self)@.resolved(
                room_id@,
                display_view(display_name),
                members_view(members),
            ),
    {
        if self.rooms.contains_key(room_id) {
            return Ok(Resolved::Existing);
        }
        let name = match display_name {
            Some(name) => name,
            None => room_id,
        };
        let target = match RoomTarget::target_of_room(name, members) {
            Ok(target) => target,
            Err(error) => {
                return Err(error);
            },
        };
        let local = self.free_name(String::from_str(target.name()));
        let target = target.renamed(local.clone());
        let at = self.slots.len();
        proof {
            lemma_free_name_is_free(target_name(name@), self@.targets.dom());
        }
        self.slots.push(Slot { room: String::from_str(room_id), target });
        self.rooms.insert(String::from_str(room_id), at);
        self.targets.insert(local, String::from_str(room_id));
        proof {
            let before = old(self)@;
            let entered = self.slots@[at as int].target@;
            assert(self@.rooms =~= before.rooms.insert(room_id@, entered));
            assert(self@.targets =~= before.targets.insert(entered.name, room_id@));
            assert(self@ == before.with_room(room_id@, entered));
            assert forall|room: Seq<char>| #[trigger] self@.rooms.contains_key(room) implies {
                &&& self@.rooms[room].wf()
                &&& self@.rooms[room].error is None
                &&& self@.targets.contains_key(self@.rooms[room].name)
                &&& self@.targets[self@.rooms[room].name] == room
            } by {
                if room != room_id@ {
                    assert(before.rooms.contains_key(room));
                    assert(before.targets.contains_key(before.rooms[room].name));
                }
            }
            assert forall|n: Seq<char>| #[trigger] self@.targets.contains_key(n) implies {
                &&& n.len() > 0
                &&& self@.rooms.contains_key(self@.targets[n])
                &&& self@.rooms[self@.targets[n]].name == n
            } by {
                if n != entered.name {
                    assert(before.targets.contains_key(n));
                    assert(before.rooms.contains_key(before.targets[n]));
                }
            }
        }
        Ok(Resolved::Created)
    }
}

/// The registry that gives every remote room its one local target, and finds
/// the room again from the target's name.
///
/// A registry is always well formed, as [`MappingsView::wf`] says: nothing
/// that can be done with it breaks the pairing of rooms and names.
pub struct Mappings {
    inner: MappingsInner,
}

impl View for Mappings {
    type V = MappingsView;

    closed spec fn view(&self) -> MappingsView {
        self.inner@
    }
}

impl Default for Mappings {
    fn default() -> (made: Self)
        ensures
            made@ == MappingsView::empty(),
    {
        Mappings::new()
    }
}

impl Mappings {
    #[verifier::type_invariant]
    spec fn well_formed(&self) -> bool {
        self.inner.wf()
    }

    /// A registry without rooms.
    pub fn new() -> (made: Self)
        ensures
            made@ == MappingsView::empty(),
    {
        Mappings { inner: MappingsInner::new() }
    }

    /// Takes the tables out to work on them, and leaves empty ones in their
    /// place until [`Mappings::put`] brings them back.
    fn take(&mut self) -> (inner: MappingsInner)
        ensures
            inner == old(self).inner,
            inner.wf(),
    {
        proof {
            use_type_invariant(&*self);
        }
        let mut inner = MappingsInner::new();
        core::mem::swap(&mut inner, &mut self.inner);
        inner
    }

    /// Brings the tables back.
    fn put(&mut self, inner: MappingsInner)
        requires
            inner.wf(),
        ensures
            final(self).inner == inner,
    {
        self.inner = inner;
    }

    /// The target of the room, if it has one. This is all that resolving a
    /// room takes once the room is registered.
    pub fn target(&self, room_id: &str) -> (found: Option<&RoomTarget>)
        ensures
            self@.wf(),
            found is Some == self@.rooms.contains_key(room_id@),
            found matches Some(target) ==> target@ == self@.rooms[room_id@],
    {
        proof {
            use_type_invariant(self);
        }
        self.inner.target(room_id)
    }

    /// The room whose target is called `name`, if there is one.
    pub fn room_of_target(&self, name: &str) -> (found: Option<String>)
        ensures
            self@.wf(),
            found is Some == self@.targets.contains_key(name@),
            found matches Some(room) ==> room@ == self@.targets[name@],
    {
        proof {
            use_type_invariant(self);
        }
        self.inner.room_of_target(name)
    }

    /// Resolves a room under the registry's lock: finds its target, or makes
    /// one and enters it. `display_name` and `members` are what was learnt of
    /// the room before the lock was taken: its display name, unless that
    /// could not be had, and the number of its active members, or what the
    /// attempt to count them reported.
    ///
    /// The room is looked up first, so a room that was entered in the
    /// meantime keeps its target: a room never has two. A new room gets a
    /// query for one or two members and a channel to be joined for more; none
    /// for no member, or where the members are unknown. The target is named
    /// after the room's display name, or its identifier for want of one;
    /// where that name is empty or in use, the fewest underscores that make it
    /// free are added.
    pub fn try_room_target(
        &mut self,
        room_id: &str,
        display_name: Option<&str>,
        members: Result<usize, String>,
    ) -> (outcome: Result<Resolved, ResolveError>)
        ensures
            old(self)@.wf(),
            final(self)@.wf(),
            final(self)@ == old(self)@.after_resolve(
                room_id@,
                display_view(display_name),
                members_view(members),
            ),
            outcome_view(outcome) == old(self)@.resolved(
                room_id@,
                display_view(display_name),
                members_view(members),
            ),
    {
        let mut inner = self.take();
        let outcome = inner.try_room_target(room_id, display_name, members);
        self.put(inner);
        outcome
    }

    /// Resolves a room and never fails: where no target could be found or
    /// made, the caller gets one that stands in for it, a query under the
    /// bridge's own name that carries the reason, and the registry stays as it
    /// was. Else see [`Mappings::try_room_target`].
    pub fn room_target(
        &mut self,
        room_id: &str,
        display_name: Option<&str>,
        members: Result<usize, String>,
    ) -> (resolution: Resolution)
        ensures
            old(self)@.wf(),
            final(self)@.wf(),
            final(self)@ == old(self)@.after_resolve(
                room_id@,
                display_view(display_name),
                members_view(members),
            ),
            match old(self)@.resolved(room_id@, display_view(display_name), members_view(members)) {
                Ok(Resolved::Existing) => resolution is Existing,
                Ok(Resolved::Created) => resolution is Created,
                Err(error) => resolution matches Resolution::StandIn(target) && target@
                    == stand_in(error),
            },
    {
        match self.try_room_target(room_id, display_name, members) {
            Ok(Resolved::Existing) => Resolution::Existing,
            Ok(Resolved::Created) => Resolution::Created,
            Err(error) => {
                let mut reason = String::from_str("Could not find or create target: ");
                reason.append(error.message().as_str());
                Resolution::StandIn(RoomTarget::query(BRIDGE_NAME).set_error(reason))
            },
        }
    }

    /// Ends the join of the room's target, as [`RoomTarget::join_chan`] does.
    /// A room without a target is refused.
    pub fn join_chan(&mut self, room_id: &str) -> (handed: Result<Vec<IrcMessage>, TargetError>)
        ensures
            old(self)@.wf(),
            final(self)@.wf(),
            final(self)@ == old(self)@.after_join(room_id@),
            handed_view(handed) == old(self)@.join_result(room_id@),
    {
        let mut inner = self.take();
        let handed = match inner.slot_of(room_id) {
            None => Err(TargetError::NoSuchTarget),
            Some(at) => {
                let handed = inner.slots[at].target.join_chan();
                proof {
                    lemma_slot_changed(old(self).inner, inner, at as int);
                }
                handed
            },
        };
        self.put(inner);
        handed
    }

    /// Records that the local client has left the room's target, as
    /// [`RoomTarget::leave_chan`] does. A room without a target is refused.
    pub fn leave_chan(&mut self, room_id: &str) -> (done: Result<(), TargetError>)
        ensures
            old(self)@.wf(),
            final(self)@.wf(),
            final(self)@ == old(self)@.after_leave(room_id@),
            done == old(self)@.leave_result(room_id@),
    {
        let mut inner = self.take();
        let done = match inner.slot_of(room_id) {
            None => Err(TargetError::NoSuchTarget),
            Some(at) => {
                let done = inner.slots[at].target.leave_chan();
                proof {
                    lemma_slot_changed(old(self).inner, inner, at as int);
                }
                done
            },
        };
        self.put(inner);
        done
    }

    /// Submits `message` to the room's target, as [`RoomTarget::queue_message`]
    /// does. The message comes back where the room has no target, or one that
    /// is not being joined.
    pub fn queue_message(&mut self, room_id: &str, message: IrcMessage) -> (back: Option<
        IrcMessage,
    >)
        ensures
            old(self)@.wf(),
            final(self)@.wf(),
            final(self)@ == old(self)@.queued(room_id@, message@),
            back is None == (old(self)@.rooms.contains_key(room_id@)
                && old(self)@.rooms[room_id@].state == TargetState::JoiningChan),
            back matches Some(given) ==> given == message,
    {
        let mut inner = self.take();
        let back = match inner.slot_of(room_id) {
            None => Some(message),
            Some(at) => {
                let back = inner.slots[at].target.queue_message(message);
                proof {
                    lemma_slot_changed(old(self).inner, inner, at as int);
                }
                back
            },
        };
        self.put(inner);
        back
    }

    /// Gives `member_id` the nickname `nick` in the room's target, as
    /// [`RoomTarget::add_member`] does. Nothing changes where the room has no
    /// target.
    pub fn add_member(&mut self, room_id: &str, member_id: String, nick: String) -> (added: bool)
        ensures
            old(self)@.wf(),
            final(self)@.wf(),
            final(self)@ == old(self)@.with_member(room_id@, member_id@, nick@),
            added == (old(self)@.rooms.contains_key(room_id@)
                && old(self)@.rooms[room_id@].can_add_member(member_id@, nick@)),
    {
        let mut inner = self.take();
        let added = match inner.slot_of(room_id) {
            None => false,
            Some(at) => {
                let added = inner.slots[at].target.add_member(member_id, nick);
                proof {
                    lemma_slot_changed(old(self).inner, inner, at as int);
                }
                added
            },
        };
        self.put(inner);
        added
    }
}

} // verus!
