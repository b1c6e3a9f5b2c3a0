//! The local face of a remote room: what a target holds, and how its state
//! moves.

use crate::ircd::proto::{messages_view, IrcMessage, IrcMessageType, IrcMessageView};
use crate::matrix::naming::{sanitize, target_name};
use vstd::hash_map::*;
use vstd::prelude::*;
use vstd::string::*;

verus! {


/// Whether `backward` takes every value of `forward` back to its key, and
/// `forward` every value of `backward` back to its key. Two such maps pair
/// their keys off one to one.
pub open spec fn inverse_maps(
    forward: Map<Seq<char>, Seq<char>>,
    backward: Map<Seq<char>, Seq<char>>,
) -> bool {
    &&& forall|k: Seq<char>| #[trigger]
        forward.contains_key(k) ==> backward.contains_key(forward[k]) && backward[forward[k]] == k
    &&& forall|n: Seq<char>| #[trigger]
        backward.contains_key(n) ==> forward.contains_key(backward[n]) && forward[backward[n]] == n
}

/// The state of a target.
#[derive(Clone, Copy, Debug, PartialEq, Eq, Structural)]
pub enum TargetState {
    /// A private conversation: the room has at most two active members.
    Query,
    /// A channel whose join is under way; messages for it are queued.
    JoiningChan,
    /// A channel that the local client has joined.
    Chan,
    /// A channel that the local client is not in at present.
    LeftChan,
}

/// Why an operation on a target was refused.
#[derive(Clone, Copy, Debug, PartialEq, Eq, Structural)]
pub enum TargetError {
    /// The target is not in a state from which the operation can start.
    InvalidState,
    /// No target is registered for the room.
    NoSuchTarget,
}

impl TargetError {
    /// The error in words.
    pub open spec fn message_view(self) -> Seq<char> {
        match self {
            TargetError::InvalidState => "invalid room target"@,
            TargetError::NoSuchTarget => "no target for this room"@,
        }
    }

    /// The error in words.
    pub fn message(&self) -> (text: String)
        ensures
            text@ == self.message_view(),
    {
        match self {
            TargetError::InvalidState => String::from_str("invalid room target"),
            TargetError::NoSuchTarget => String::from_str("no target for this room"),
        }
    }
}

/// Why no target could be made for a room.
#[derive(Debug, PartialEq, Eq)]
pub enum ResolveError {
    /// The room, known under this name, has no active member.
    EmptyRoom(String),
    /// The members of the room could not be had; what the attempt reported.
    MembersUnavailable(String),
}

/// A [`ResolveError`] as plain data.
pub enum ResolveErrorView {
    EmptyRoom(Seq<char>),
    MembersUnavailable(Seq<char>),
}

impl View for ResolveError {
    type V = ResolveErrorView;

    open spec fn view(&self) -> ResolveErrorView {
        match self {
            ResolveError::EmptyRoom(name) => ResolveErrorView::EmptyRoom(name@),
            ResolveError::MembersUnavailable(report) => ResolveErrorView::MembersUnavailable(
                report@,
            ),
        }
    }
}

impl ResolveErrorView {
    /// The error in words.
    pub open spec fn message(self) -> Seq<char> {
        match self {
            ResolveErrorView::EmptyRoom(name) => "Message in empty room "@ + name + "?"@,
            ResolveErrorView::MembersUnavailable(report) => report,
        }
    }
}

impl ResolveError {
    /// The error in words.
    pub fn message(&self) -> (text: String)
        ensures
            text@ == self@.message(),
    {
        match self {
            ResolveError::EmptyRoom(name) => {
                let mut text = String::from_str("Message in empty room ");
                text.append(name.as_str());
                text.append("?");
                text
            },
            ResolveError::MembersUnavailable(report) => report.clone(),
        }
    }
}

/// What was learnt of a room's active members: how many there are, or what
/// the attempt to count them reported.
pub open spec fn members_view(members: Result<usize, String>) -> Result<nat, Seq<char>> {
    match members {
        Ok(count) => Ok(count as nat),
        Err(report) => Err(report@),
    }
}

/// The target that a room known as `name` gets: none while it has no active
/// member or its members are unknown, a query for one or two members, and
/// for more a channel that has yet to be joined.
pub open spec fn target_of_room(name: Seq<char>, members: Result<nat, Seq<char>>) -> Result<
    RoomTargetView,
    ResolveErrorView,
> {
    match members {
        Err(report) => Err(ResolveErrorView::MembersUnavailable(report)),
        Ok(count) => if count == 0 {
            Err(ResolveErrorView::EmptyRoom(name))
        } else if count <= 2 {
            Ok(RoomTargetView::fresh(TargetState::Query, target_name(name)))
        } else {
            Ok(RoomTargetView::fresh(TargetState::JoiningChan, target_name(name)))
        },
    }
}

/// A target as plain data.
pub struct RoomTargetView {
    pub state: TargetState,
    /// The name of the channel or query.
    pub name: Seq<char>,
    /// The nickname of each known member, by member identifier.
    pub members: Map<Seq<char>, Seq<char>>,
    /// The member behind each nickname in use.
    pub names: Map<Seq<char>, Seq<char>>,
    /// The messages waiting for the join to end, oldest first.
    pub pending: Seq<IrcMessageView>,
    /// Why the room could not be resolved, on a target that stands in for one.
    pub error: Option<Seq<char>>,
}

impl RoomTargetView {
    /// Nicknames and members pair off one to one, and only a target that is
    /// being joined holds messages back.
    pub open spec fn wf(self) -> bool {
        &&& inverse_maps(self.members, self.names)
        &&& self.state != TargetState::JoiningChan ==> self.pending.len() == 0
    }

    /// A target in `state` called `name` that knows no member, holds no message
    /// and carries no error.
    pub open spec fn fresh(state: TargetState, name: Seq<char>) -> Self {
        RoomTargetView {
            state,
            name,
            members: Map::empty(),
            names: Map::empty(),
            pending: Seq::empty(),
            error: None,
        }
    }

    /// Whether a join can start from this state.
    pub open spec fn can_join(self) -> bool {
        self.state == TargetState::JoiningChan || self.state == TargetState::LeftChan
    }

    /// The target once the join has ended: a channel with nothing held back.
    pub open spec fn joined(self) -> Self {
        RoomTargetView { state: TargetState::Chan, pending: Seq::empty(), ..self }
    }

    /// What ending the join hands back: the messages held back, oldest first,
    /// or a refusal where no join can start.
    pub open spec fn join_result(self) -> Result<Seq<IrcMessageView>, TargetError> {
        if self.can_join() {
            Ok(self.pending)
        } else {
            Err(TargetError::InvalidState)
        }
    }

    /// The target after an attempt to end the join.
    pub open spec fn after_join(self) -> Self {
        if self.can_join() {
            self.joined()
        } else {
            self
        }
    }

    /// What leaving the channel comes to: only a joined channel can be left.
    pub open spec fn leave_result(self) -> Result<(), TargetError> {
        if self.state == TargetState::Chan {
            Ok(())
        } else {
            Err(TargetError::InvalidState)
        }
    }

    /// The target after the local client has left the channel, or tried to.
    pub open spec fn after_leave(self) -> Self {
        if self.state == TargetState::Chan {
            RoomTargetView { state: TargetState::LeftChan, ..self }
        } else {
            self
        }
    }

    /// The target after `message` was submitted to it: a target that is being
    /// joined puts it behind the messages it holds, any other takes nothing.
    pub open spec fn queued(self, message: IrcMessageView) -> Self {
        if self.state == TargetState::JoiningChan {
            RoomTargetView { pending: self.pending.push(message), ..self }
        } else {
            self
        }
    }

    /// The target after each of `messages` was submitted to it, first to last.
    pub open spec fn queued_all(self, messages: Seq<IrcMessageView>) -> Self
        decreases messages.len(),
    {
        if messages.len() == 0 {
            self
        } else {
            self.queued_all(messages.drop_last()).queued(messages.last())
        }
    }

    /// Whether `member_id` can take the nickname `nick`: the member has none
    /// yet, and nobody else has this one.
    pub open spec fn can_add_member(self, member_id: Seq<char>, nick: Seq<char>) -> bool {
        !self.members.contains_key(member_id) && !self.names.contains_key(nick)
    }

    /// The target after `member_id` was offered the nickname `nick`.
    pub open spec fn with_member(self, member_id: Seq<char>, nick: Seq<char>) -> Self {
        if self.can_add_member(member_id, nick) {
            RoomTargetView {
                members: self.members.insert(member_id, nick),
                names: self.names.insert(nick, member_id),
                ..self
            }
        } else {
            self
        }
    }

    /// The label under which `sender_id` speaks here: the nickname, where one
    /// is known, else the identifier itself.
    pub open spec fn label(self, sender_id: Seq<char>) -> Seq<char> {
        if self.members.contains_key(sender_id) {
            self.members[sender_id]
        } else {
            sender_id
        }
    }

    /// The text shown for `text` said by `sender_id`.
    pub open spec fn rendered_text(self, sender_id: Seq<char>, text: Seq<char>) -> Seq<char> {
        "<"@ + self.label(sender_id) + "> "@ + text
    }

    /// The message that tells the client `nick` that `sender_id` said `text`.
    pub open spec fn rendered(
        self,
        nick: Seq<char>,
        message_type: IrcMessageType,
        sender_id: Seq<char>,
        text: Seq<char>,
    ) -> IrcMessageView {
        IrcMessageView {
            message_type,
            from: self.name,
            target: nick,
            message: self.rendered_text(sender_id, text),
        }
    }
}

/// What a join handed back, as plain data.
pub open spec fn handed_view(handed: Result<Vec<IrcMessage>, TargetError>) -> Result<
    Seq<IrcMessageView>,
    TargetError,
> {
    match handed {
        Ok(queue) => Ok(messages_view(queue@)),
        Err(refusal) => Err(refusal),
    }
}

/// What a channel or query holds.
struct Chan {
    /// Name of the channel or query.
    target: String,
    /// Nickname of each member, by member identifier. Display names belong to
    /// a room, so every target keeps its own.
    members: StringHashMap<String>,
    /// Member identifier behind each nickname, so that no nickname is given
    /// out twice.
    names: StringHashMap<String>,
}

impl Chan {
    spec fn members_view(&self) -> Map<Seq<char>, Seq<char>> {
        self.members@.map_values(|nick: String| nick@)
    }

    spec fn names_view(&self) -> Map<Seq<char>, Seq<char>> {
        self.names@.map_values(|id: String| id@)
    }

    fn new(target: String) -> (chan: Self)
        ensures
            chan.target@ == target@,
            chan.members_view() == Map::<Seq<char>, Seq<char>>::empty(),
            chan.names_view() == Map::<Seq<char>, Seq<char>>::empty(),
    {
        let chan = Chan { target, members: StringHashMap::new(), names: StringHashMap::new() };
        assert(chan.members_view() =~= Map::<Seq<char>, Seq<char>>::empty());
        assert(chan.names_view() =~= Map::<Seq<char>, Seq<char>>::empty());
        chan
    }

    fn get_member(&self, member_id: &str) -> (nick: Option<String>)
        ensures
            nick is Some == self.members_view().contains_key(member_id@),
            nick matches Some(n) ==> n@ == self.members_view()[member_id@],
    {
        match self.members.get(member_id) {
            Some(nick) => Some(nick.clone()),
            None => None,
        }
    }

    /// Gives `member_id` the nickname `nick`, unless the member has one or the
    /// nickname is taken.
    fn add_member(&mut self, member_id: String, nick: String) -> (added: bool)
        ensures
            added == (!old(self).members_view().contains_key(member_id@)
                && !old(self).names_view().contains_key(nick@)),
            final(self).target == old(self).target,
            added ==> final(self).members_view() == old(self).members_view().insert(
                member_id@,
                nick@,
            ),
            added ==> final(self).names_view() == old(self).names_view().insert(nick@, member_id@),
            !added ==> final(self).members_view() == old(self).members_view(),
            !added ==> final(self).names_view() == old(self).names_view(),
    {
        if self.members.contains_key(member_id.as_str()) || self.names.contains_key(nick.as_str()) {
            false
        } else {
            self.members.insert(member_id.clone(), nick.clone());
            self.names.insert(nick, member_id);
            assert(self.members_view() =~= old(self).members_view().insert(member_id@, nick@));
            assert(self.names_view() =~= old(self).names_view().insert(nick@, member_id@));
            true
        }
    }
}

/// A channel that is being joined.
struct JoiningChan {
    chan: Chan,
    /// Messages that arrived for the channel since the join began, oldest
    /// first. Whoever ends the join hands them on.
    pending_messages: Vec<IrcMessage>,
}

impl JoiningChan {
    fn new(target: String) -> (joining: Self)
        ensures
            joining.chan.target@ == target@,
            joining.chan.members_view() == Map::<Seq<char>, Seq<char>>::empty(),
            joining.chan.names_view() == Map::<Seq<char>, Seq<char>>::empty(),
            joining.pending_messages@ == Seq::<IrcMessage>::empty(),
    {
        JoiningChan { chan: Chan::new(target), pending_messages: Vec::new() }
    }
}

enum RoomTargetInner {
    /// The room is a query: one other member, or none.
    Query(Chan),
    /// The room is a channel that the local client has joined.
    Chan(Chan),
    /// The room is a channel that the local client is not in.
    LeftChan(Chan),
    /// The room is a channel that is being joined.
    JoiningChan(JoiningChan),
}

impl RoomTargetInner {
    spec fn state(&self) -> TargetState {
        match self {
            RoomTargetInner::Query(_) => TargetState::Query,
            RoomTargetInner::Chan(_) => TargetState::Chan,
            RoomTargetInner::LeftChan(_) => TargetState::LeftChan,
            RoomTargetInner::JoiningChan(_) => TargetState::JoiningChan,
        }
    }

    spec fn chan(&self) -> Chan {
        match self {
            RoomTargetInner::Query(chan) => *chan,
            RoomTargetInner::Chan(chan) => *chan,
            RoomTargetInner::LeftChan(chan) => *chan,
            RoomTargetInner::JoiningChan(joining) => joining.chan,
        }
    }

    spec fn pending(&self) -> Seq<IrcMessage> {
        match self {
            RoomTargetInner::JoiningChan(joining) => joining.pending_messages@,
            _ => Seq::empty(),
        }
    }

    fn chan_ref(&self) -> (chan: &Chan)
        ensures
            *chan == self.chan(),
    {
        match self {
            RoomTargetInner::Query(chan) => chan,
            RoomTargetInner::Chan(chan) => chan,
            RoomTargetInner::LeftChan(chan) => chan,
            RoomTargetInner::JoiningChan(joining) => &joining.chan,
        }
    }
}

/// The local face of one remote room.
///
/// A target is always well formed, as [`RoomTargetView::wf`] says: nothing
/// that can be done with it gives two members one nickname, or leaves messages
/// behind in a target that is not being joined.
pub struct RoomTarget {
    inner: RoomTargetInner,
    error: Option<String>,
}

impl View for RoomTarget {
    type V = RoomTargetView;

    closed spec fn view(&self) -> RoomTargetView {
        RoomTargetView {
            state: self.inner.state(),
            name: self.inner.chan().target@,
            members: self.inner.chan().members_view(),
            names: self.inner.chan().names_view(),
            pending: messages_view(self.inner.pending()),
            error: match self.error {
                Some(error) => Some(error@),
                None => None,
            },
        }
    }
}

/// What making a target gave, as plain data.
pub open spec fn made_view(made: Result<RoomTarget, ResolveError>) -> Result<
    RoomTargetView,
    ResolveErrorView,
> {
    match made {
        Ok(target) => Ok(target@),
        Err(error) => Err(error@),
    }
}

impl RoomTarget {
    #[verifier::type_invariant]
    spec fn well_formed(&self) -> bool {
        self@.wf()
    }

    /// Takes the state out to work on it, and leaves that of an empty query in
    /// its place until it is put back.
    fn take(&mut self) -> (inner: RoomTargetInner)
        ensures
            inner == old(self).inner,
            final(self).error == old(self).error,
            old(self)@.wf(),
    {
        proof {
            use_type_invariant(&*self);
        }
        let mut inner = RoomTargetInner::Query(Chan::new(String::new()));
        core::mem::swap(&mut inner, &mut self.inner);
        proof {
            assert(self@.pending =~= Seq::empty());
        }
        inner
    }

    /// A query under the target name of `target`.
    pub fn query(target: &str) -> (made: Self)
        ensures
            made@ == RoomTargetView::fresh(TargetState::Query, target_name(target@)),
            made@.wf(),
    {
        let made = RoomTarget {
            inner: RoomTargetInner::Query(Chan::new(sanitize(target))),
            error: None,
        };
        assert(made@.pending =~= Seq::empty());
        made
    }

    /// A channel under the target name of `chan_name`, whose join has yet to
    /// end.
    pub fn chan(chan_name: &str) -> (made: Self)
        ensures
            made@ == RoomTargetView::fresh(TargetState::JoiningChan, target_name(chan_name@)),
            made@.wf(),
    {
        let made = RoomTarget {
            inner: RoomTargetInner::JoiningChan(JoiningChan::new(sanitize(chan_name))),
            error: None,
        };
        assert(made@.pending =~= Seq::empty());
        made
    }

    /// Makes the target for a room known as `name`, from what was learnt of its
    /// active members.
    pub fn target_of_room(name: &str, members: Result<usize, String>) -> (made: Result<
        Self,
        ResolveError,
    >)
        ensures
            made_view(made) == target_of_room(name@, members_view(members)),
            made matches Ok(target) ==> target@.wf(),
    {
        match members {
            Err(report) => Err(ResolveError::MembersUnavailable(report)),
            Ok(count) => {
                if count == 0 {
                    Err(ResolveError::EmptyRoom(String::from_str(name)))
                } else if count <= 2 {
                    Ok(RoomTarget::query(name))
                } else {
                    Ok(RoomTarget::chan(name))
                }
            },
        }
    }

    /// Ends the join of a channel: the target becomes a joined channel, and the
    /// messages that were held back are handed to the caller, oldest first, to
    /// be passed on. A channel that the client had left is joined again and has
    /// held nothing back. A query, or a channel that is joined already, is left
    /// as it is and the call is refused.
    pub fn join_chan(&mut self) -> (handed: Result<Vec<IrcMessage>, TargetError>)
        ensures
            final(self)@ == old(self)@.after_join(),
            old(self)@.wf(),
            final(self)@.wf(),
            handed_view(handed) == old(self)@.join_result(),
    {
        match self.take() {
            RoomTargetInner::JoiningChan(JoiningChan { chan, pending_messages }) => {
                self.inner = RoomTargetInner::Chan(chan);
                assert(self@.pending =~= Seq::empty());
                Ok(pending_messages)
            },
            RoomTargetInner::LeftChan(chan) => {
                self.inner = RoomTargetInner::Chan(chan);
                let none: Vec<IrcMessage> = Vec::new();
                assert(messages_view(none@) =~= old(self)@.pending);
                assert(self@.pending =~= Seq::empty());
                Ok(none)
            },
            other => {
                self.inner = other;
                Err(TargetError::InvalidState)
            },
        }
    }

    /// Records that the local client has left the channel. Only a joined
    /// channel can be left; any other target stays as it is and the call is
    /// refused.
    pub fn leave_chan(&mut self) -> (done: Result<(), TargetError>)
        ensures
            final(self)@ == old(self)@.after_leave(),
            old(self)@.wf(),
            final(self)@.wf(),
            done == old(self)@.leave_result(),
    {
        match self.take() {
            RoomTargetInner::Chan(chan) => {
                self.inner = RoomTargetInner::LeftChan(chan);
                Ok(())
            },
            other => {
                self.inner = other;
                Err(TargetError::InvalidState)
            },
        }
    }

    /// Submits `message` to a channel that is being joined: it is put behind
    /// the messages already held back. Any other target takes nothing and
    /// gives the message back, for the caller to pass on at once.
    pub fn queue_message(&mut self, message: IrcMessage) -> (back: Option<IrcMessage>)
        ensures
            final(self)@ == old(self)@.queued(message@),
            old(self)@.wf(),
            final(self)@.wf(),
            back is None == (old(self)@.state == TargetState::JoiningChan),
            back matches Some(given) ==> given == message,
    {
        match self.take() {
            RoomTargetInner::JoiningChan(JoiningChan { chan, mut pending_messages }) => {
                pending_messages.push(message);
                self.inner = RoomTargetInner::JoiningChan(JoiningChan { chan, pending_messages });
                proof {
                    assert(self@.pending =~= old(self)@.pending.push(message@));
                }
                None
            },
            other => {
                self.inner = other;
                Some(message)
            },
        }
    }

    /// Gives `member_id` the nickname `nick` in this target. Nothing changes,
    /// and `false` comes back, where the member has a nickname already or the
    /// nickname is taken.
    pub fn add_member(&mut self, member_id: String, nick: String) -> (added: bool)
        ensures
            final(self)@ == old(self)@.with_member(member_id@, nick@),
            old(self)@.wf(),
            final(self)@.wf(),
            added == old(self)@.can_add_member(member_id@, nick@),
    {
        let mut inner = self.take();
        let added = match &mut inner {
            RoomTargetInner::Query(chan) => chan.add_member(member_id, nick),
            RoomTargetInner::Chan(chan) => chan.add_member(member_id, nick),
            RoomTargetInner::LeftChan(chan) => chan.add_member(member_id, nick),
            RoomTargetInner::JoiningChan(joining) => joining.chan.add_member(member_id, nick),
        };
        self.inner = inner;
        added
    }

    /// Marks the target as standing in for a room that could not be resolved,
    /// with the reason.
    pub fn set_error(self, error: String) -> (marked: Self)
        ensures
            marked@ == (RoomTargetView { error: Some(error@), ..self@ }),
            marked@.wf(),
    {
        proof {
            use_type_invariant(&self);
        }
        RoomTarget { inner: self.inner, error: Some(error) }
    }

    /// The state the target is in.
    pub fn state(&self) -> (state: TargetState)
        ensures
            state == self@.state,
    {
        match &self.inner {
            RoomTargetInner::Query(_) => TargetState::Query,
            RoomTargetInner::Chan(_) => TargetState::Chan,
            RoomTargetInner::LeftChan(_) => TargetState::LeftChan,
            RoomTargetInner::JoiningChan(_) => TargetState::JoiningChan,
        }
    }

    /// The name of the channel or query.
    pub fn name(&self) -> (name: &str)
        ensures
            name@ == self@.name,
    {
        self.inner.chan_ref().target.as_str()
    }

    /// Why the room could not be resolved, if this target stands in for one.
    pub fn error(&self) -> (error: Option<&str>)
        ensures
            error is Some == self@.error is Some,
            error matches Some(text) ==> Some(text@) == self@.error,
    {
        match &self.error {
            Some(error) => Some(error.as_str()),
            None => None,
        }
    }

    /// The nickname that `member_id` has in this target, if it has one.
    pub fn get_member(&self, member_id: &str) -> (nick: Option<String>)
        ensures
            nick is Some == self@.members.contains_key(member_id@),
            nick matches Some(n) ==> n@ == self@.members[member_id@],
    {
        self.inner.chan_ref().get_member(member_id)
    }

    /// How many messages the target holds back.
    pub fn pending_len(&self) -> (len: usize)
        ensures
            len == self@.pending.len(),
    {
        match &self.inner {
            RoomTargetInner::JoiningChan(joining) => joining.pending_messages.len(),
            _ => 0,
        }
    }

    /// The same target under the name `name`.
    pub(crate) fn renamed(self, name: String) -> (made: Self)
        ensures
            made@ == (RoomTargetView { name: name@, ..self@ }),
            made@.wf(),
    {
        proof {
            use_type_invariant(&self);
        }
        let RoomTarget { mut inner, error } = self;
        match &mut inner {
            RoomTargetInner::Query(chan) => chan.target = name,
            RoomTargetInner::Chan(chan) => chan.target = name,
            RoomTargetInner::LeftChan(chan) => chan.target = name,
            RoomTargetInner::JoiningChan(joining) => joining.chan.target = name,
        }
        RoomTarget { inner, error }
    }

    /// Renders what `sender_id` said in the room as a message for the local
    /// client `nick`. The sender appears under the nickname that this target
    /// knows, or under the identifier itself; the message comes from the
    /// target's name. The state of the target makes no difference.
    pub fn send_irc_message(
        &self,
        nick: &str,
        message_type: IrcMessageType,
        sender_id: &str,
        message: &str,
    ) -> (out: IrcMessage)
        ensures
            out@ == self@.rendered(nick@, message_type, sender_id@, message@),
    {
        let chan = self.inner.chan_ref();
        let mut text = String::from_str("<");
        match chan.get_member(sender_id) {
            Some(known) => text.append(known.as_str()),
            None => text.append(sender_id),
        }
        text.append("> ");
        text.append(message);
        IrcMessage {
            message_type,
            from: chan.target.clone(),
            target: String::from_str(nick),
            message: text,
        }
    }
}

} // verus!
