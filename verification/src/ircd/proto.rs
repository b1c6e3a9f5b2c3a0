//! Messages handed to a local client.

use vstd::prelude::*;
use vstd::string::*;

verus! {

/// The name under which the bridge itself speaks to a local client.
pub const BRIDGE_NAME: &'static str = "matrirc";

/// How a message is delivered to a local client.
#[derive(Clone, Copy, Debug, PartialEq, Eq, Structural)]
pub enum IrcMessageType {
    Privmsg,
    Notice,
}

/// A message for a local client: who it comes from, whom it is for, and what
/// it says.
#[derive(Debug, PartialEq, Eq)]
pub struct IrcMessage {
    pub message_type: IrcMessageType,
    pub from: String,
    pub target: String,
    pub message: String,
}

/// An [`IrcMessage`] as plain data.
pub struct IrcMessageView {
    pub message_type: IrcMessageType,
    pub from: Seq<char>,
    pub target: Seq<char>,
    pub message: Seq<char>,
}

impl View for IrcMessage {
    type V = IrcMessageView;

    open spec fn view(&self) -> IrcMessageView {
        IrcMessageView {
            message_type: self.message_type,
            from: self.from@,
            target: self.target@,
            message: self.message@,
        }
    }
}

impl Clone for IrcMessage {
    fn clone(&self) -> (copy: Self)
        ensures
            copy@ == self@,
    {
        IrcMessage {
            message_type: self.message_type,
            from: self.from.clone(),
            target: self.target.clone(),
            message: self.message.clone(),
        }
    }
}

/// The messages of `queue` as plain data, in the same order.
pub open spec fn messages_view(queue: Seq<IrcMessage>) -> Seq<IrcMessageView> {
    queue.map_values(|m: IrcMessage| m@)
}

impl IrcMessageView {
    /// The private message in which the bridge itself says `text` to `nick`.
    pub open spec fn from_bridge(nick: Seq<char>, text: Seq<char>) -> IrcMessageView {
        IrcMessageView {
            message_type: IrcMessageType::Privmsg,
            from: BRIDGE_NAME@,
            target: nick,
            message: text,
        }
    }
}

impl IrcMessage {
    /// The private message in which the bridge itself says `text` to `nick`.
    pub fn from_bridge(nick: &str, text: String) -> (message: IrcMessage)
        ensures
            message@ == IrcMessageView::from_bridge(nick@, text@),
    {
        IrcMessage {
            message_type: IrcMessageType::Privmsg,
            from: String::from_str(BRIDGE_NAME),
            target: String::from_str(nick),
            message: text,
        }
    }
}

/// What a local client sent, as far as the bridge reads it while the client
/// logs in.
#[derive(Debug, PartialEq, Eq)]
pub enum IrcCommand {
    /// The client chose a nickname.
    Nick(String),
    /// The client gave its password.
    Pass(String),
    /// The client gave its user name, which ends its registration.
    User(String),
    /// The client negotiates capabilities; the protocol version it asks for,
    /// if it names one.
    Cap(Option<String>),
    /// The client sent a private message; its text.
    Privmsg(String),
    /// Anything else.
    Other,
}

/// An [`IrcCommand`] as plain data.
pub enum IrcCommandView {
    Nick(Seq<char>),
    Pass(Seq<char>),
    User(Seq<char>),
    Cap(Option<Seq<char>>),
    Privmsg(Seq<char>),
    Other,
}

impl View for IrcCommand {
    type V = IrcCommandView;

    open spec fn view(&self) -> IrcCommandView {
        match self {
            IrcCommand::Nick(nick) => IrcCommandView::Nick(nick@),
            IrcCommand::Pass(pass) => IrcCommandView::Pass(pass@),
            IrcCommand::User(user) => IrcCommandView::User(user@),
            IrcCommand::Cap(Some(version)) => IrcCommandView::Cap(Some(version@)),
            IrcCommand::Cap(None) => IrcCommandView::Cap(None),
            IrcCommand::Privmsg(text) => IrcCommandView::Privmsg(text@),
            IrcCommand::Other => IrcCommandView::Other,
        }
    }
}

} // verus!
