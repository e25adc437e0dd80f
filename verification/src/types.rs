//! The unified event model: channels, message content, events and their
//! categories, and the source-tagged event that travels on the event queue.

use vstd::prelude::*;
use vstd::string::StringExecFns;
use crate::fmt::{debug_list_of, render_string_list};
use crate::text::{lex_sorted, sort_strings};

verus! {

/// Identifier of a configured event source; unique within the source registry.
#[derive(Clone, Debug, Hash, PartialEq, Eq)]
pub struct SourceId(pub String);

impl View for SourceId {
    type V = Seq<char>;

    open spec fn view(&self) -> Seq<char> {
        self.0@
    }
}

/// Different kinds of communication channels
#[derive(Clone, Debug, PartialEq)]
pub enum Channel {
    NoChannel,
    Channel(String),
    User(String),
    Group(Vec<String>),
}

/// Mathematical image of a `Channel`.
pub enum ChannelV {
    NoChannel,
    Channel(Seq<char>),
    User(Seq<char>),
    Group(Seq<Seq<char>>),
}

impl View for Channel {
    type V = ChannelV;

    open spec fn view(&self) -> ChannelV {
        match self {
            Channel::NoChannel => ChannelV::NoChannel,
            Channel::Channel(s) => ChannelV::Channel(s@),
            Channel::User(u) => ChannelV::User(u@),
            Channel::Group(v) => ChannelV::Group(v.deep_view()),
        }
    }
}

impl ChannelV {
    /// The label under which activity on this channel is logged.
    pub open spec fn label(self) -> Seq<char> {
        match self {
            ChannelV::NoChannel => "[none]"@,
            ChannelV::Channel(s) => "#"@ + s,
            ChannelV::User(u) => u + "(priv)"@,
            ChannelV::Group(v) => debug_list_of(lex_sorted(v)),
        }
    }
}

impl Channel {
    /// Renders the channel for display: group members are shown sorted.
    pub fn as_str(&self) -> (r: String)
        ensures
            r@ == self@.label(),
    {
        match self {
            Channel::NoChannel => "[none]".to_owned(),
            Channel::Channel(s) => {
                let mut r = "#".to_owned();
                r.append(s.as_str());
                r
            },
            Channel::User(u) => {
                let mut r = u.clone();
                r.append("(priv)");
                r
            },
            Channel::Group(v) => {
                let sorted = sort_strings(v);
                render_string_list(&sorted)
            },
        }
    }
}

/// Content of a message
#[derive(Clone, Debug)]
pub enum MessageContent {
    /// Simple text message
    Text(String),
    /// An image
    Image,
    /// A /me type message
    Me(String),
}

/// Mathematical image of a `MessageContent`.
pub enum ContentV {
    Text(Seq<char>),
    Image,
    Me(Seq<char>),
}

impl View for MessageContent {
    type V = ContentV;

    open spec fn view(&self) -> ContentV {
        match self {
            MessageContent::Text(t) => ContentV::Text(t@),
            MessageContent::Image => ContentV::Image,
            MessageContent::Me(t) => ContentV::Me(t@),
        }
    }
}

impl ContentV {
    /// The line under which this content appears in a log or on a screen,
    /// given the name it is attributed to.
    pub open spec fn display(self, nick: Seq<char>) -> Seq<char> {
        match self {
            ContentV::Text(t) => "<"@ + nick + "> "@ + t,
            ContentV::Me(t) => "* "@ + nick + " "@ + t,
            ContentV::Image => "<"@ + nick + "> [Image]"@,
        }
    }
}

impl MessageContent {
    /// Renders the content attributed to `nick`.
    pub fn display_with_nick(&self, nick: &str) -> (r: String)
        ensures
            r@ == self@.display(nick@),
    {
        match self {
            MessageContent::Text(txt) => {
                let mut r = "<".to_owned();
                r.append(nick);
                r.append("> ");
                r.append(txt.as_str());
                r
            },
            MessageContent::Me(txt) => {
                let mut r = "* ".to_owned();
                r.append(nick);
                r.append(" ");
                r.append(txt.as_str());
                r
            },
            MessageContent::Image => {
                let mut r = "<".to_owned();
                r.append(nick);
                r.append("> [Image]");
                r
            },
        }
    }
}

/// Message content bundled with the author and the source channel
#[derive(Clone, Debug)]
pub struct Message {
    pub author: String,
    pub channel: Channel,
    pub content: MessageContent,
}

/// Mathematical image of a `Message`.
pub struct MessageV {
    pub author: Seq<char>,
    pub channel: ChannelV,
    pub content: ContentV,
}

impl View for Message {
    type V = MessageV;

    open spec fn view(&self) -> MessageV {
        MessageV { author: self.author@, channel: self.channel@, content: self.content@ }
    }
}

/// Type representing events that can be sent by the sources
#[derive(Clone, Debug)]
pub enum Event {
    Connected,
    Disconnected(String),
    DirectInput(String),
    ReceivedMessage(Message),
    UserOnline(String),
    UserOffline(String, Option<String>),
    UserTyping(String),
    NickChange(String, String),
    Timer(String),
    Other(String),
}

/// Mathematical image of an `Event`.
pub enum EventV {
    Connected,
    Disconnected(Seq<char>),
    DirectInput(Seq<char>),
    ReceivedMessage(MessageV),
    UserOnline(Seq<char>),
    UserOffline(Seq<char>, Option<Seq<char>>),
    UserTyping(Seq<char>),
    NickChange(Seq<char>, Seq<char>),
    Timer(Seq<char>),
    Other(Seq<char>),
}

impl View for Event {
    type V = EventV;

    open spec fn view(&self) -> EventV {
        match self {
            Event::Connected => EventV::Connected,
            Event::Disconnected(r) => EventV::Disconnected(r@),
            Event::DirectInput(t) => EventV::DirectInput(t@),
            Event::ReceivedMessage(m) => EventV::ReceivedMessage(m@),
            Event::UserOnline(u) => EventV::UserOnline(u@),
            Event::UserOffline(u, r) => EventV::UserOffline(u@, r.deep_view()),
            Event::UserTyping(u) => EventV::UserTyping(u@),
            Event::NickChange(a, b) => EventV::NickChange(a@, b@),
            Event::Timer(i) => EventV::Timer(i@),
            Event::Other(t) => EventV::Other(t@),
        }
    }
}

impl DeepView for Event {
    type V = EventV;

    open spec fn deep_view(&self) -> EventV {
        self.view()
    }
}

/// Enum representing types of events
#[derive(Clone, Copy, Debug, PartialEq, Eq, Hash, Structural)]
pub enum EventType {
    Connection,
    TextMessage,
    MeMessage,
    ImageMessage,
    UserStatus,
    Timer,
    Other,
}

impl EventV {
    /// The category an event is filed under for subscription matching:
    /// a total function of the event.
    pub open spec fn category(self) -> EventType {
        match self {
            EventV::Connected => EventType::Connection,
            EventV::Disconnected(_) => EventType::Connection,
            EventV::DirectInput(_) => EventType::TextMessage,
            EventV::ReceivedMessage(m) => match m.content {
                ContentV::Text(_) => EventType::TextMessage,
                ContentV::Me(_) => EventType::MeMessage,
                ContentV::Image => EventType::ImageMessage,
            },
            EventV::UserOnline(_) => EventType::UserStatus,
            EventV::UserOffline(_, _) => EventType::UserStatus,
            EventV::UserTyping(_) => EventType::UserStatus,
            EventV::NickChange(_, _) => EventType::UserStatus,
            EventV::Timer(_) => EventType::Timer,
            EventV::Other(_) => EventType::Other,
        }
    }
}

impl Event {
    pub fn get_type(&self) -> (t: EventType)
        ensures
            t == self@.category(),
    {
        match *self {
            Event::Connected | Event::Disconnected(_) => EventType::Connection,
            Event::DirectInput(_) => EventType::TextMessage,
            Event::ReceivedMessage(ref msg) => match msg.content {
                MessageContent::Text(_) => EventType::TextMessage,
                MessageContent::Me(_) => EventType::MeMessage,
                MessageContent::Image => EventType::ImageMessage,
            },
            Event::UserOnline(_)
            | Event::UserOffline(_, _)
            | Event::UserTyping(_)
            | Event::NickChange(_, _) => EventType::UserStatus,
            Event::Timer(_) => EventType::Timer,
            Event::Other(_) => EventType::Other,
        }
    }
}

/// The event bundled with the source ID
#[derive(Clone, Debug)]
pub struct SourceEvent {
    pub source: SourceId,
    pub event: Event,
}

/// Mathematical image of a `SourceEvent`.
pub struct SourceEventV {
    pub source: Seq<char>,
    pub event: EventV,
}

impl View for SourceEvent {
    type V = SourceEventV;

    open spec fn view(&self) -> SourceEventV {
        SourceEventV { source: self.source@, event: self.event@ }
    }
}

} // verus!
