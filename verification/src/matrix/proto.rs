//! Messages handed to a remote room.

use vstd::prelude::*;
use vstd::string::*;

verus! {

/// The kinds of message that can be posted to a room.
#[derive(Clone, Copy, Debug, PartialEq, Eq, Structural)]
pub enum MatrixMessageType {
    Text,
    Emote,
    Notice,
}

/// A message that is to be posted to a room.
#[derive(Debug, PartialEq, Eq)]
pub struct RoomMessage {
    pub message_type: MatrixMessageType,
    pub body: String,
}

/// A [`RoomMessage`] as plain data.
pub struct RoomMessageView {
    pub message_type: MatrixMessageType,
    pub body: Seq<char>,
}

impl View for RoomMessage {
    type V = RoomMessageView;

    open spec fn view(&self) -> RoomMessageView {
        RoomMessageView { message_type: self.message_type, body: self.body@ }
    }
}

/// Why a message was not posted.
#[derive(Debug, PartialEq, Eq)]
pub enum PostError {
    /// The account is not a member of the room with this identifier.
    NotJoined(String),
}

/// A [`PostError`] as plain data.
pub enum PostErrorView {
    NotJoined(Seq<char>),
}

impl View for PostError {
    type V = PostErrorView;

    open spec fn view(&self) -> PostErrorView {
        match self {
            PostError::NotJoined(room) => PostErrorView::NotJoined(room@),
        }
    }
}

impl PostErrorView {
    /// The error in words.
    pub open spec fn message(self) -> Seq<char> {
        match self {
            PostErrorView::NotJoined(room) => "Room "@ + room + " was not joined"@,
        }
    }
}

impl PostError {
    /// The error in words.
    pub fn message(&self) -> (text: String)
        ensures
            text@ == self@.message(),
    {
        match self {
            PostError::NotJoined(room) => {
                let mut text = String::from_str("Room ");
                text.append(room.as_str());
                text.append(" was not joined");
                text
            },
        }
    }
}

/// What was decided of a message, as plain data.
pub open spec fn post_view(post: Result<RoomMessage, PostError>) -> Result<
    RoomMessageView,
    PostErrorView,
> {
    match post {
        Ok(content) => Ok(content@),
        Err(refusal) => Err(refusal@),
    }
}

/// What posting `message` to a room comes to: the message, of the kind asked
/// for, where the account has joined the room, and a refusal that names the
/// room where it has not.
pub open spec fn handled(
    joined: bool,
    room_id: Seq<char>,
    message_type: MatrixMessageType,
    message: Seq<char>,
) -> Result<RoomMessageView, PostErrorView> {
    if joined {
        Ok(RoomMessageView { message_type, body: message })
    } else {
        Err(PostErrorView::NotJoined(room_id))
    }
}

/// Decides what is posted to the room `room_id` for `message`; see [`handled`].
/// `joined` says whether the account has joined the room.
pub fn handle_message(
    joined: bool,
    room_id: &str,
    message_type: MatrixMessageType,
    message: String,
) -> (post: Result<RoomMessage, PostError>)
    ensures
        post_view(post) == handled(joined, room_id@, message_type, message@),
{
    if joined {
        Ok(RoomMessage { message_type, body: message })
    } else {
        Err(PostError::NotJoined(String::from_str(room_id)))
    }
}

} // verus!
