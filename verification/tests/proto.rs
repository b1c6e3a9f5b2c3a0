use matrirc::ircd::proto::{IrcMessage, IrcMessageType, BRIDGE_NAME};
use matrirc::matrix::proto::{handle_message, MatrixMessageType, PostError, RoomMessage};

#[test]
fn message_for_a_joined_room_is_posted_as_asked() {
    for kind in [MatrixMessageType::Text, MatrixMessageType::Emote, MatrixMessageType::Notice] {
        assert_eq!(
            handle_message(true, "!a:example.org", kind, "waves".to_string()),
            Ok(RoomMessage { message_type: kind, body: "waves".to_string() })
        );
    }
}

#[test]
fn message_for_a_room_not_joined_is_refused() {
    let refused =
        handle_message(false, "!a:example.org", MatrixMessageType::Text, "hi".to_string());
    assert_eq!(refused, Err(PostError::NotJoined("!a:example.org".to_string())));
    assert_eq!(
        PostError::NotJoined("!a:example.org".to_string()).message(),
        "Room !a:example.org was not joined"
    );
}

#[test]
fn bridge_speaks_under_its_own_name() {
    assert_eq!(BRIDGE_NAME, "matrirc");
    assert_eq!(
        IrcMessage::from_bridge("alice", "hello".to_string()),
        IrcMessage {
            message_type: IrcMessageType::Privmsg,
            from: "matrirc".to_string(),
            target: "alice".to_string(),
            message: "hello".to_string(),
        }
    );
}

#[test]
fn message_copy_is_the_message() {
    let message = IrcMessage::from_bridge("alice", "hello".to_string());
    assert_eq!(message.clone(), message);
}
