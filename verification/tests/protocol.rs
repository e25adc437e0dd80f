use botcore::discord::{discord_send_plan, message_event, replace_mentions};
use botcore::irc::{irc_send_plan, message_to_events, IrcCommand, IrcMessage};
use botcore::sources::SourceError;
use botcore::types::{Channel, Event, MessageContent, SourceId};

fn chat() -> SourceId {
    SourceId("chat".to_string())
}

#[test]
fn privmsg_to_channel_event() {
    let events = message_to_events(IrcMessage {
        prefix: Some("bob!user@host".to_string()),
        command: IrcCommand::Privmsg("#general".to_string(), "hi all".to_string()),
    });
    assert_eq!(events.len(), 1);
    match &events[0] {
        Event::ReceivedMessage(m) => {
            assert_eq!(m.author, "bob");
            assert_eq!(m.channel, Channel::Channel("#general".to_string()));
            assert!(matches!(&m.content, MessageContent::Text(t) if t == "hi all"));
        }
        other => panic!("unexpected event {:?}", other),
    }
}

#[test]
fn privmsg_to_user_event() {
    let events = message_to_events(IrcMessage {
        prefix: Some("bob!user@host".to_string()),
        command: IrcCommand::Privmsg("botnick".to_string(), "psst".to_string()),
    });
    assert_eq!(events.len(), 1);
    match &events[0] {
        Event::ReceivedMessage(m) => {
            assert_eq!(m.channel, Channel::User("botnick".to_string()));
        }
        other => panic!("unexpected event {:?}", other),
    }
}

#[test]
fn pings_are_dropped() {
    let none = message_to_events(IrcMessage {
        prefix: None,
        command: IrcCommand::Ping,
    });
    assert!(none.is_empty());
    let none = message_to_events(IrcMessage {
        prefix: None,
        command: IrcCommand::Pong,
    });
    assert!(none.is_empty());
}

#[test]
fn presence_commands_map_to_user_status() {
    let joined = message_to_events(IrcMessage {
        prefix: Some("bob!b@h".to_string()),
        command: IrcCommand::Join,
    });
    assert!(matches!(&joined[..], [Event::UserOnline(u)] if u == "bob"));
    let parted = message_to_events(IrcMessage {
        prefix: Some("bob!b@h".to_string()),
        command: IrcCommand::Part(Some("bye".to_string())),
    });
    assert!(
        matches!(&parted[..], [Event::UserOffline(u, Some(c))] if u == "bob" && c == "bye")
    );
    let quit = message_to_events(IrcMessage {
        prefix: Some("bob!b@h".to_string()),
        command: IrcCommand::Quit(None),
    });
    assert!(matches!(&quit[..], [Event::UserOffline(u, None)] if u == "bob"));
    let renamed = message_to_events(IrcMessage {
        prefix: Some("bob!b@h".to_string()),
        command: IrcCommand::Nick("rob".to_string()),
    });
    assert!(matches!(&renamed[..], [Event::NickChange(a, b)] if a == "bob" && b == "rob"));
}

#[test]
fn names_reply_brings_everyone_online() {
    let events = message_to_events(IrcMessage {
        prefix: None,
        command: IrcCommand::NamReply(Some("alice bob  carol".to_string())),
    });
    let names: Vec<&str> = events
        .iter()
        .map(|e| match e {
            Event::UserOnline(u) => u.as_str(),
            other => panic!("unexpected event {:?}", other),
        })
        .collect();
    assert_eq!(names, vec!["alice", "bob", "carol"]);
    let empty = message_to_events(IrcMessage {
        prefix: None,
        command: IrcCommand::NamReply(None),
    });
    assert!(empty.is_empty());
}

#[test]
fn unknown_commands_become_other() {
    let events = message_to_events(IrcMessage {
        prefix: None,
        command: IrcCommand::Raw("MODE #general +o bob".to_string()),
    });
    assert!(matches!(&events[..], [Event::Other(t)] if t == "MODE #general +o bob"));
}

#[test]
fn irc_send_requires_a_connection() {
    let r = irc_send_plan(
        &chat(),
        false,
        Channel::Channel("#general".to_string()),
        MessageContent::Text("hi".to_string()),
    );
    assert!(matches!(r, Err(SourceError::Disconnected(id)) if id.0 == "chat"));
}

#[test]
fn irc_send_rejects_unaddressable_channels() {
    let r = irc_send_plan(
        &chat(),
        true,
        Channel::NoChannel,
        MessageContent::Text("hi".to_string()),
    );
    assert!(matches!(r, Err(SourceError::InvalidChannel(id, Channel::NoChannel)) if id.0 == "chat"));
}

#[test]
fn irc_send_rejects_images() {
    let r = irc_send_plan(
        &chat(),
        true,
        Channel::Channel("#general".to_string()),
        MessageContent::Image,
    );
    assert!(
        matches!(r, Err(SourceError::InvalidMessage(id, MessageContent::Image)) if id.0 == "chat")
    );
}

#[test]
fn irc_send_carries_text_and_me() {
    let r = irc_send_plan(
        &chat(),
        true,
        Channel::Channel("#general".to_string()),
        MessageContent::Text("hi".to_string()),
    );
    assert_eq!(r.unwrap(), ("#general".to_string(), "hi".to_string()));
    let r = irc_send_plan(
        &chat(),
        true,
        Channel::User("bob".to_string()),
        MessageContent::Me("waves".to_string()),
    );
    assert_eq!(r.unwrap(), ("bob".to_string(), "waves".to_string()));
}

#[test]
fn mentions_are_spelled_out() {
    let mentions = vec![(42u64, "bob".to_string()), (7u64, "alice".to_string())];
    let replaced = replace_mentions("<@42> meet <@!7>, <@42>".to_string(), &mentions);
    assert_eq!(replaced, "@bob meet @alice, @bob");
}

#[test]
fn own_messages_are_dropped() {
    let r = message_event(
        &"botnick".to_string(),
        "botnick".to_string(),
        Some("general".to_string()),
        "echo".to_string(),
        &vec![],
    );
    assert!(r.is_none());
}

#[test]
fn discord_message_becomes_event() {
    let mentions = vec![(42u64, "bob".to_string())];
    let r = message_event(
        &"botnick".to_string(),
        "alice".to_string(),
        None,
        "hey <@42>".to_string(),
        &mentions,
    );
    match r {
        Some(Event::ReceivedMessage(m)) => {
            assert_eq!(m.author, "alice");
            assert_eq!(m.channel, Channel::Channel("[no channel]".to_string()));
            assert!(matches!(&m.content, MessageContent::Text(t) if t == "hey @bob"));
        }
        other => panic!("unexpected {:?}", other),
    }
}

#[test]
fn discord_send_plans() {
    let channels = vec![("general".to_string(), 99u64)];
    let said = discord_send_plan(
        &chat(),
        &channels,
        Channel::Channel("general".to_string()),
        MessageContent::Text("hi".to_string()),
    );
    assert_eq!(said.unwrap(), Some((99, "hi".to_string())));
    let dropped = discord_send_plan(
        &chat(),
        &channels,
        Channel::User("bob".to_string()),
        MessageContent::Text("hi".to_string()),
    );
    assert_eq!(dropped.unwrap(), None);
    let unknown = discord_send_plan(
        &chat(),
        &channels,
        Channel::Channel("nowhere".to_string()),
        MessageContent::Text("hi".to_string()),
    );
    assert!(matches!(
        unknown,
        Err(SourceError::InvalidChannel(_, Channel::Channel(n))) if n == "nowhere"
    ));
    let image = discord_send_plan(
        &chat(),
        &channels,
        Channel::Channel("general".to_string()),
        MessageContent::Image,
    );
    assert!(matches!(
        image,
        Err(SourceError::InvalidMessage(_, MessageContent::Image))
    ));
}
