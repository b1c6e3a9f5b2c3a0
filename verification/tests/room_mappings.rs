use matrirc::ircd::proto::{IrcMessage, IrcMessageType};
use matrirc::matrix::room_mappings::{
    Mappings, Resolution, ResolveError, Resolved, TargetError, TargetState,
};

fn note(text: &str) -> IrcMessage {
    IrcMessage {
        message_type: IrcMessageType::Privmsg,
        from: "someone".to_string(),
        target: "#room".to_string(),
        message: text.to_string(),
    }
}

#[test]
fn new_registry_knows_no_room() {
    let registry = Mappings::new();
    assert!(registry.target("!a:example.org").is_none());
    assert_eq!(registry.room_of_target("lobby"), None);
}

#[test]
fn room_is_given_its_target_once() {
    let mut registry = Mappings::new();
    let first = registry.room_target("!a:example.org", Some("Lobby"), Ok(3));
    assert!(matches!(first, Resolution::Created));
    let second = registry.room_target("!a:example.org", Some("Lobby"), Ok(3));
    assert!(matches!(second, Resolution::Existing));
    let target = registry.target("!a:example.org").unwrap_or_else(|| panic!());
    assert_eq!(target.state(), TargetState::JoiningChan);
    assert_eq!(target.name(), "Lobby");
    assert_eq!(registry.room_of_target("Lobby"), Some("!a:example.org".to_string()));
}

#[test]
fn room_keeps_its_target_whatever_is_learnt_later() {
    let mut registry = Mappings::new();
    assert!(matches!(
        registry.room_target("!a:example.org", Some("Lobby"), Ok(2)),
        Resolution::Created
    ));
    assert!(registry.add_member("!a:example.org", "@b:example.org".to_string(), "bob".to_string()));
    for (name, members) in [
        (Some("Renamed"), Ok(7)),
        (None, Ok(0)),
        (Some("Lobby"), Err("gone".to_string())),
    ] {
        assert!(matches!(
            registry.room_target("!a:example.org", name, members),
            Resolution::Existing
        ));
        let target = registry.target("!a:example.org").unwrap_or_else(|| panic!());
        assert_eq!(target.state(), TargetState::Query);
        assert_eq!(target.name(), "Lobby");
        assert_eq!(target.get_member("@b:example.org"), Some("bob".to_string()));
    }
    assert_eq!(registry.room_of_target("Renamed"), None);
}

#[test]
fn try_room_target_tells_new_from_known() {
    let mut registry = Mappings::new();
    assert_eq!(registry.try_room_target("!a:x", Some("one"), Ok(1)), Ok(Resolved::Created));
    assert_eq!(registry.try_room_target("!a:x", Some("one"), Ok(1)), Ok(Resolved::Existing));
    assert_eq!(registry.try_room_target("!b:x", Some("two"), Ok(5)), Ok(Resolved::Created));
    assert_eq!(
        registry.try_room_target("!c:x", Some("three"), Ok(0)),
        Err(ResolveError::EmptyRoom("three".to_string()))
    );
    assert_eq!(
        registry.try_room_target("!c:x", Some("three"), Err("offline".to_string())),
        Err(ResolveError::MembersUnavailable("offline".to_string()))
    );
    assert!(registry.target("!c:x").is_none());
    assert_eq!(registry.room_of_target("three"), None);
}

#[test]
fn members_decide_between_query_and_channel() {
    let mut registry = Mappings::new();
    for (room, count, state) in [
        ("!one:x", 1, TargetState::Query),
        ("!two:x", 2, TargetState::Query),
        ("!three:x", 3, TargetState::JoiningChan),
        ("!many:x", 250, TargetState::JoiningChan),
    ] {
        assert!(matches!(registry.room_target(room, Some(room), Ok(count)), Resolution::Created));
        assert_eq!(registry.target(room).unwrap_or_else(|| panic!()).state(), state);
    }
}

#[test]
fn empty_room_gets_a_stand_in() {
    let mut registry = Mappings::new();
    match registry.room_target("!a:example.org", Some("Lobby"), Ok(0)) {
        Resolution::StandIn(target) => {
            assert_eq!(target.state(), TargetState::Query);
            assert_eq!(target.name(), "matrirc");
            assert_eq!(
                target.error(),
                Some("Could not find or create target: Message in empty room Lobby?")
            );
        }
        _ => panic!("an empty room was resolved"),
    }
    assert!(registry.target("!a:example.org").is_none());
    assert_eq!(registry.room_of_target("Lobby"), None);
    assert_eq!(registry.room_of_target("matrirc"), None);
}

#[test]
fn unknown_members_give_a_stand_in() {
    let mut registry = Mappings::new();
    match registry.room_target("!a:example.org", None, Err("request timed out".to_string())) {
        Resolution::StandIn(target) => {
            assert_eq!(target.name(), "matrirc");
            assert_eq!(
                target.error(),
                Some("Could not find or create target: request timed out")
            );
        }
        _ => panic!("a room with unknown members was resolved"),
    }
    assert!(registry.target("!a:example.org").is_none());
}

#[test]
fn failed_room_can_be_resolved_later() {
    let mut registry = Mappings::new();
    assert!(matches!(registry.room_target("!a:x", Some("Lobby"), Ok(0)), Resolution::StandIn(_)));
    assert!(matches!(registry.room_target("!a:x", Some("Lobby"), Ok(1)), Resolution::Created));
    assert!(matches!(registry.room_target("!a:x", Some("Lobby"), Ok(0)), Resolution::Existing));
}

#[test]
fn room_without_display_name_goes_by_its_identifier() {
    let mut registry = Mappings::new();
    assert!(matches!(registry.room_target("!abc:example.org", None, Ok(2)), Resolution::Created));
    let target = registry.target("!abc:example.org").unwrap_or_else(|| panic!());
    assert_eq!(target.name(), "abcexampleorg");
    match registry.room_target("!def:example.org", None, Ok(0)) {
        Resolution::StandIn(target) => assert_eq!(
            target.error(),
            Some("Could not find or create target: Message in empty room !def:example.org?")
        ),
        _ => panic!("an empty room was resolved"),
    }
}

#[test]
fn rooms_of_one_name_get_names_of_their_own() {
    let mut registry = Mappings::new();
    assert!(matches!(registry.room_target("!a:x", Some("Team 1"), Ok(3)), Resolution::Created));
    assert!(matches!(registry.room_target("!b:x", Some("Team 2"), Ok(3)), Resolution::Created));
    assert!(matches!(registry.room_target("!c:x", Some("Team"), Ok(1)), Resolution::Created));
    assert!(matches!(registry.room_target("!d:x", Some("Team_"), Ok(1)), Resolution::Created));
    assert_eq!(registry.target("!a:x").unwrap_or_else(|| panic!()).name(), "Team");
    assert_eq!(registry.target("!b:x").unwrap_or_else(|| panic!()).name(), "Team_");
    assert_eq!(registry.target("!c:x").unwrap_or_else(|| panic!()).name(), "Team__");
    assert_eq!(registry.target("!d:x").unwrap_or_else(|| panic!()).name(), "Team___");
    assert_eq!(registry.room_of_target("Team"), Some("!a:x".to_string()));
    assert_eq!(registry.room_of_target("Team_"), Some("!b:x".to_string()));
    assert_eq!(registry.room_of_target("Team__"), Some("!c:x".to_string()));
    assert_eq!(registry.room_of_target("Team___"), Some("!d:x".to_string()));
    assert_eq!(registry.room_of_target("Team____"), None);
}

#[test]
fn room_whose_name_sanitizes_to_nothing_gets_underscores() {
    let mut registry = Mappings::new();
    assert!(matches!(registry.room_target("!a:x", Some("42"), Ok(2)), Resolution::Created));
    assert!(matches!(
        registry.room_target("!b:x", Some("\u{4e2d}\u{6587}"), Ok(2)),
        Resolution::Created
    ));
    assert_eq!(registry.target("!a:x").unwrap_or_else(|| panic!()).name(), "_");
    assert_eq!(registry.target("!b:x").unwrap_or_else(|| panic!()).name(), "__");
    assert_eq!(registry.room_of_target(""), None);
    assert_eq!(registry.room_of_target("_"), Some("!a:x".to_string()));
}

#[test]
fn registry_joins_the_target_of_a_room() {
    let mut registry = Mappings::new();
    assert!(matches!(registry.room_target("!a:x", Some("room"), Ok(4)), Resolution::Created));
    assert!(registry.queue_message("!a:x", note("one")).is_none());
    assert!(registry.queue_message("!a:x", note("two")).is_none());
    assert_eq!(registry.join_chan("!a:x"), Ok(vec![note("one"), note("two")]));
    assert_eq!(registry.target("!a:x").unwrap_or_else(|| panic!()).state(), TargetState::Chan);
    assert_eq!(registry.join_chan("!a:x"), Err(TargetError::InvalidState));
    assert_eq!(registry.leave_chan("!a:x"), Ok(()));
    assert_eq!(registry.target("!a:x").unwrap_or_else(|| panic!()).state(), TargetState::LeftChan);
    assert_eq!(registry.join_chan("!a:x"), Ok(vec![]));
    assert_eq!(registry.room_of_target("room"), Some("!a:x".to_string()));
}

#[test]
fn registry_refuses_rooms_it_does_not_know() {
    let mut registry = Mappings::new();
    assert_eq!(registry.join_chan("!a:x"), Err(TargetError::NoSuchTarget));
    assert_eq!(registry.leave_chan("!a:x"), Err(TargetError::NoSuchTarget));
    assert_eq!(registry.queue_message("!a:x", note("one")), Some(note("one")));
    assert!(!registry.add_member("!a:x", "@a:x".to_string(), "a".to_string()));
    assert!(registry.target("!a:x").is_none());
}

#[test]
fn registry_keeps_rooms_apart() {
    let mut registry = Mappings::new();
    assert!(matches!(registry.room_target("!a:x", Some("one"), Ok(3)), Resolution::Created));
    assert!(matches!(registry.room_target("!b:x", Some("two"), Ok(3)), Resolution::Created));
    assert!(registry.queue_message("!a:x", note("for one")).is_none());
    assert!(registry.add_member("!b:x", "@m:x".to_string(), "em".to_string()));
    assert_eq!(registry.join_chan("!b:x"), Ok(vec![]));
    let one = registry.target("!a:x").unwrap_or_else(|| panic!());
    assert_eq!(one.state(), TargetState::JoiningChan);
    assert_eq!(one.pending_len(), 1);
    assert_eq!(one.get_member("@m:x"), None);
    let two = registry.target("!b:x").unwrap_or_else(|| panic!());
    assert_eq!(two.state(), TargetState::Chan);
    assert_eq!(two.name(), "two");
    assert_eq!(two.get_member("@m:x"), Some("em".to_string()));
}

#[test]
fn registry_renders_through_the_target() {
    let mut registry = Mappings::new();
    assert!(matches!(
        registry.room_target("!a:x", Some("Caf\u{e9} talk"), Ok(2)),
        Resolution::Created
    ));
    assert!(registry.add_member("!a:x", "@b:x".to_string(), "bob".to_string()));
    let target = registry.target("!a:x").unwrap_or_else(|| panic!());
    let out = target.send_irc_message("me", IrcMessageType::Privmsg, "@b:x", "hello");
    assert_eq!(out.from, "Caftalk");
    assert_eq!(out.target, "me");
    assert_eq!(out.message, "<bob> hello");
}
