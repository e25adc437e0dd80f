use botcore::types::{Channel, Event, EventType, Message, MessageContent};

#[test]
fn category_of_connection_events() {
    assert_eq!(Event::Connected.get_type(), EventType::Connection);
    assert_eq!(
        Event::Disconnected("timeout".to_string()).get_type(),
        EventType::Connection
    );
}

#[test]
fn category_of_message_events() {
    assert_eq!(
        Event::DirectInput("hello".to_string()).get_type(),
        EventType::TextMessage
    );
    let msg = |content: MessageContent| {
        Event::ReceivedMessage(Message {
            author: "bob".to_string(),
            channel: Channel::Channel("general".to_string()),
            content,
        })
    };
    assert_eq!(
        msg(MessageContent::Text("hi".to_string())).get_type(),
        EventType::TextMessage
    );
    assert_eq!(
        msg(MessageContent::Me("waves".to_string())).get_type(),
        EventType::MeMessage
    );
    assert_eq!(msg(MessageContent::Image).get_type(), EventType::ImageMessage);
}

#[test]
fn category_of_user_status_events() {
    assert_eq!(
        Event::UserOnline("bob".to_string()).get_type(),
        EventType::UserStatus
    );
    assert_eq!(
        Event::UserOffline("bob".to_string(), Some("bye".to_string())).get_type(),
        EventType::UserStatus
    );
    assert_eq!(
        Event::UserTyping("bob".to_string()).get_type(),
        EventType::UserStatus
    );
    assert_eq!(
        Event::NickChange("bob".to_string(), "rob".to_string()).get_type(),
        EventType::UserStatus
    );
}

#[test]
fn category_of_remaining_events() {
    assert_eq!(Event::Timer("t1".to_string()).get_type(), EventType::Timer);
    assert_eq!(Event::Other("raw".to_string()).get_type(), EventType::Other);
}

#[test]
fn channel_labels() {
    assert_eq!(Channel::NoChannel.as_str(), "[none]");
    assert_eq!(Channel::Channel("general".to_string()).as_str(), "#general");
    assert_eq!(Channel::User("bob".to_string()).as_str(), "bob(priv)");
}

#[test]
fn group_label_is_sorted() {
    let group = Channel::Group(vec![
        "mallory".to_string(),
        "alice".to_string(),
        "bob".to_string(),
    ]);
    let expected = format!(
        "{:?}",
        vec!["alice".to_string(), "bob".to_string(), "mallory".to_string()]
    );
    assert_eq!(group.as_str(), expected);
    assert_eq!(group.as_str(), "[\"alice\", \"bob\", \"mallory\"]");
}

#[test]
fn empty_group_label() {
    assert_eq!(Channel::Group(vec![]).as_str(), "[]");
}

#[test]
fn display_with_nick_forms() {
    assert_eq!(
        MessageContent::Text("hi".to_string()).display_with_nick("bob"),
        "<bob> hi"
    );
    assert_eq!(
        MessageContent::Me("waves".to_string()).display_with_nick("bob"),
        "* bob waves"
    );
    assert_eq!(
        MessageContent::Image.display_with_nick("bob"),
        "<bob> [Image]"
    );
}
