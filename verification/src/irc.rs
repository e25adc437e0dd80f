//! The IRC normalization logic: what one protocol message, already read off
//! the wire, becomes in the unified event model, and what a `send` through
//! an IRC backend puts on the wire. The network client itself stays outside
//! the core.

use vstd::prelude::*;
use vstd::string::StringExecFns;
use crate::sources::{SourceError, SourceErrorV};
use crate::text::{split_whitespace_strings, split_ws, take_until_char, until_char};
use crate::types::{
    Channel, ChannelV, ContentV, Event, EventV, Message, MessageContent, MessageV, SourceId,
};

verus! {

/// One parsed IRC protocol message, reduced to what the normalization
/// reads: the sender prefix, and the command with the arguments the router
/// interprets. Anything else arrives as `Raw`, already rendered to text.
pub struct IrcMessage {
    pub prefix: Option<String>,
    pub command: IrcCommand,
}

pub enum IrcCommand {
    Ping,
    Pong,
    Privmsg(String, String),
    Nick(String),
    Join,
    Part(Option<String>),
    Quit(Option<String>),
    NamReply(Option<String>),
    Raw(String),
}

/// Mathematical image of an `IrcCommand`.
pub enum IrcCommandV {
    Ping,
    Pong,
    Privmsg(Seq<char>, Seq<char>),
    Nick(Seq<char>),
    Join,
    Part(Option<Seq<char>>),
    Quit(Option<Seq<char>>),
    NamReply(Option<Seq<char>>),
    Raw(Seq<char>),
}

impl View for IrcCommand {
    type V = IrcCommandV;

    open spec fn view(&self) -> IrcCommandV {
        match self {
            IrcCommand::Ping => IrcCommandV::Ping,
            IrcCommand::Pong => IrcCommandV::Pong,
            IrcCommand::Privmsg(f, t) => IrcCommandV::Privmsg(f@, t@),
            IrcCommand::Nick(n) => IrcCommandV::Nick(n@),
            IrcCommand::Join => IrcCommandV::Join,
            IrcCommand::Part(c) => IrcCommandV::Part(c.deep_view()),
            IrcCommand::Quit(c) => IrcCommandV::Quit(c.deep_view()),
            IrcCommand::NamReply(m) => IrcCommandV::NamReply(m.deep_view()),
            IrcCommand::Raw(s) => IrcCommandV::Raw(s@),
        }
    }
}

/// Mathematical image of an `IrcMessage`.
pub struct IrcMessageV {
    pub prefix: Option<Seq<char>>,
    pub command: IrcCommandV,
}

impl View for IrcMessage {
    type V = IrcMessageV;

    open spec fn view(&self) -> IrcMessageV {
        IrcMessageV { prefix: self.prefix.deep_view(), command: self.command@ }
    }
}

/// The sending user's nick: the message prefix up to the first `!`.
pub open spec fn sender_of(prefix: Option<Seq<char>>) -> Seq<char> {
    match prefix {
        Some(p) => until_char(p, '!'),
        None => Seq::empty(),
    }
}

/// The events one IRC message becomes: pings are dropped, chat and presence
/// commands map to their unified counterparts, a names reply brings one
/// `UserOnline` per listed name, and anything else arrives as `Other`.
pub open spec fn irc_events_of(m: IrcMessageV) -> Seq<EventV> {
    let sender = sender_of(m.prefix);
    match m.command {
        IrcCommandV::Ping => Seq::empty(),
        IrcCommandV::Pong => Seq::empty(),
        IrcCommandV::Privmsg(from, txt) => seq![
            EventV::ReceivedMessage(
                MessageV {
                    author: sender,
                    channel: if from.len() > 0 && from[0] == '#' {
                        ChannelV::Channel(from)
                    } else {
                        ChannelV::User(from)
                    },
                    content: ContentV::Text(txt),
                },
            ),
        ],
        IrcCommandV::Nick(n) => seq![EventV::NickChange(sender, n)],
        IrcCommandV::Join => seq![EventV::UserOnline(sender)],
        IrcCommandV::Part(c) => seq![EventV::UserOffline(sender, c)],
        IrcCommandV::Quit(c) => seq![EventV::UserOffline(sender, c)],
        IrcCommandV::NamReply(t) => match t {
            Some(names) => split_ws(names).map_values(|n: Seq<char>| EventV::UserOnline(n)),
            None => Seq::empty(),
        },
        IrcCommandV::Raw(s) => seq![EventV::Other(s)],
    }
}

/// Normalizes one IRC message into events for the dispatcher.
pub fn message_to_events(msg: IrcMessage) -> (r: Vec<Event>)
    ensures
        r.deep_view() == irc_events_of(msg@),
{
    let sender = match &msg.prefix {
        Some(p) => take_until_char(p.as_str(), '!'),
        None => String::new(),
    };
    match msg.command {
        IrcCommand::Ping => {
            let r: Vec<Event> = Vec::new();
            proof {
                assert(r.deep_view() =~= irc_events_of(msg@));
            }
            r
        },
        IrcCommand::Pong => {
            let r: Vec<Event> = Vec::new();
            proof {
                assert(r.deep_view() =~= irc_events_of(msg@));
            }
            r
        },
        IrcCommand::Privmsg(from, txt) => {
            let is_chan = from.as_str().unicode_len() > 0 && from.as_str().get_char(0) == '#';
            let channel = if is_chan {
                Channel::Channel(from)
            } else {
                Channel::User(from)
            };
            let ev = Event::ReceivedMessage(
                Message { author: sender, channel, content: MessageContent::Text(txt) },
            );
            let mut r: Vec<Event> = Vec::new();
            r.push(ev);
            proof {
                assert(r.deep_view() =~= irc_events_of(msg@));
            }
            r
        },
        IrcCommand::Nick(n) => {
            let mut r: Vec<Event> = Vec::new();
            r.push(Event::NickChange(sender, n));
            proof {
                assert(r.deep_view() =~= irc_events_of(msg@));
            }
            r
        },
        IrcCommand::Join => {
            let mut r: Vec<Event> = Vec::new();
            r.push(Event::UserOnline(sender));
            proof {
                assert(r.deep_view() =~= irc_events_of(msg@));
            }
            r
        },
        IrcCommand::Part(c) => {
            let mut r: Vec<Event> = Vec::new();
            r.push(Event::UserOffline(sender, c));
            proof {
                assert(r.deep_view() =~= irc_events_of(msg@));
            }
            r
        },
        IrcCommand::Quit(c) => {
            let mut r: Vec<Event> = Vec::new();
            r.push(Event::UserOffline(sender, c));
            proof {
                assert(r.deep_view() =~= irc_events_of(msg@));
            }
            r
        },
        IrcCommand::NamReply(m) => match m {
            Some(names) => {
                let toks = split_whitespace_strings(&names);
                let mut r: Vec<Event> = Vec::new();
                let mut i: usize = 0;
                while i < toks.len()
                    invariant
                        i <= toks@.len(),
                        toks.deep_view() == split_ws(names@),
                        r.deep_view().len() == i,
                        forall|k: int|
                            0 <= k < i ==> r.deep_view()[k] == EventV::UserOnline(
                                toks.deep_view()[k],
                            ),
                    decreases toks@.len() - i,
                {
                    let name = toks[i].clone();
                    let ghost pre = r.deep_view();
                    r.push(Event::UserOnline(name));
                    proof {
                        assert(r.deep_view() =~= pre.push(
                            EventV::UserOnline(toks.deep_view()[i as int]),
                        ));
                    }
                    i = i + 1;
                }
                proof {
                    let expect = split_ws(names@).map_values(
                        |n: Seq<char>| EventV::UserOnline(n),
                    );
                    assert(r.deep_view() =~= expect);
                    assert(r.deep_view() =~= irc_events_of(msg@));
                }
                r
            },
            None => {
                let r: Vec<Event> = Vec::new();
                proof {
                    assert(r.deep_view() =~= irc_events_of(msg@));
                }
                r
            },
        },
        IrcCommand::Raw(s) => {
            let mut r: Vec<Event> = Vec::new();
            r.push(Event::Other(s));
            proof {
                assert(r.deep_view() =~= irc_events_of(msg@));
            }
            r
        },
    }
}

/// What a `send` through an IRC backend does before the wire: a
/// disconnected source sends nothing, only named channels and users can be
/// addressed, only text and `/me` content can be carried; otherwise the
/// target name and text put on the wire.
pub open spec fn irc_send_spec(
    id: Seq<char>,
    connected: bool,
    dst: ChannelV,
    msg: ContentV,
) -> Result<(Seq<char>, Seq<char>), SourceErrorV> {
    if !connected {
        Err(SourceErrorV::Disconnected(id))
    } else {
        match dst {
            ChannelV::Channel(c) => match msg {
                ContentV::Text(t) => Ok((c, t)),
                ContentV::Me(t) => Ok((c, t)),
                ContentV::Image => Err(SourceErrorV::InvalidMessage(id, msg)),
            },
            ChannelV::User(u) => match msg {
                ContentV::Text(t) => Ok((u, t)),
                ContentV::Me(t) => Ok((u, t)),
                ContentV::Image => Err(SourceErrorV::InvalidMessage(id, msg)),
            },
            _ => Err(SourceErrorV::InvalidChannel(id, dst)),
        }
    }
}

/// Law: unsupported content is rejected, not forwarded. A `send` through
/// the IRC backend contract carrying image content, on a connected source
/// and addressed to a named channel or to a user, answers exactly
/// `InvalidMessage` with that content — nothing reaches the wire.
pub proof fn lemma_irc_send_rejects_images(id: Seq<char>, dst: ChannelV, msg: ContentV)
    requires
        msg is Image,
        dst is Channel || dst is User,
    ensures
        irc_send_spec(id, true, dst, msg) == Err::<
            (Seq<char>, Seq<char>),
            SourceErrorV,
        >(SourceErrorV::InvalidMessage(id, msg)),
{
}

/// Decides what an IRC `send` forwards: the message actually sent on
/// success, or exactly the error the backend contract prescribes.
pub fn irc_send_plan(id: &SourceId, connected: bool, dst: Channel, msg: MessageContent) -> (r:
    Result<(String, String), SourceError>)
    ensures
        match r {
            Ok(p) => irc_send_spec(id@, connected, dst@, msg@) == Ok::<
                (Seq<char>, Seq<char>),
                SourceErrorV,
            >((p.0@, p.1@)),
            Err(e) => irc_send_spec(id@, connected, dst@, msg@) == Err::<
                (Seq<char>, Seq<char>),
                SourceErrorV,
            >(e@),
        },
{
    if !connected {
        return Err(SourceError::Disconnected(SourceId(id.0.clone())));
    }
    let target = match dst {
        Channel::Channel(c) => c,
        Channel::User(u) => u,
        other => {
            return Err(SourceError::InvalidChannel(SourceId(id.0.clone()), other));
        },
    };
    let text = match msg {
        MessageContent::Text(t) => t,
        MessageContent::Me(t) => t,
        other => {
            return Err(SourceError::InvalidMessage(SourceId(id.0.clone()), other));
        },
    };
    Ok((target, text))
}

} // verus!
