//! The Discord normalization logic: how an incoming message, already
//! unpacked to plain values, becomes a unified event — mentions spelled out
//! as `@name` — and what a `send` through the Discord backend says, and
//! where. The gateway client itself stays outside the core.

use vstd::prelude::*;
use vstd::string::StringExecFns;
use crate::sources::{SourceError, SourceErrorV};
use crate::text::{dec_str, replace_str, replaced, u64_to_string};
use crate::types::{
    Channel, ChannelV, ContentV, Event, EventV, Message, MessageContent, MessageV, SourceId,
};

verus! {

/// The raw rendering of a mention of user `id`, `<@id>`.
pub open spec fn mention_text(id: nat) -> Seq<char> {
    "<@"@ + dec_str(id) + ">"@
}

/// The alternative raw rendering of a mention of user `id`, `<@!id>`.
pub open spec fn mention_text_bang(id: nat) -> Seq<char> {
    "<@!"@ + dec_str(id) + ">"@
}

/// The mentioned users as plain values: numeric id and display name.
pub open spec fn mentions_view(ms: Seq<(u64, String)>) -> Seq<(u64, Seq<char>)> {
    ms.map_values(|m: (u64, String)| (m.0, m.1@))
}

/// `s` with both raw renderings of each listed mention replaced by
/// `@name`, one mention after another, in order.
pub open spec fn replaced_mentions(s: Seq<char>, ms: Seq<(u64, Seq<char>)>) -> Seq<char>
    decreases ms.len(),
{
    if ms.len() == 0 {
        s
    } else {
        replaced_mentions(
            replaced(
                replaced(s, mention_text(ms[0].0 as nat), "@"@ + ms[0].1),
                mention_text_bang(ms[0].0 as nat),
                "@"@ + ms[0].1,
            ),
            ms.drop_first(),
        )
    }
}

/// Spells out every listed mention in `msg` as `@name`.
pub fn replace_mentions(msg: String, mentions: &Vec<(u64, String)>) -> (r: String)
    ensures
        r@ == replaced_mentions(msg@, mentions_view(mentions@)),
{
    let ghost orig = msg@;
    let mut result = msg;
    let mut i: usize = 0;
    proof {
        assert(mentions_view(mentions@).skip(0) =~= mentions_view(mentions@));
    }
    while i < mentions.len()
        invariant
            i <= mentions@.len(),
            replaced_mentions(orig, mentions_view(mentions@)) == replaced_mentions(
                result@,
                mentions_view(mentions@).skip(i as int),
            ),
        decreases mentions@.len() - i,
    {
        let m = &mentions[i];
        let idstr = u64_to_string(m.0);
        let mut p1 = "<@".to_owned();
        p1.append(idstr.as_str());
        p1.append(">");
        let mut p2 = "<@!".to_owned();
        p2.append(idstr.as_str());
        p2.append(">");
        let mut at_nick = "@".to_owned();
        at_nick.append(m.1.as_str());
        let ghost before = result@;
        let r1 = replace_str(&result, &p1, &at_nick);
        let r2 = replace_str(&r1, &p2, &at_nick);
        result = r2;
        proof {
            let mv = mentions_view(mentions@);
            let tail = mv.skip(i as int);
            assert(tail[0] == mv[i as int]);
            assert(tail.drop_first() =~= mv.skip(i + 1));
            assert(p1@ =~= mention_text(mv[i as int].0 as nat));
            assert(p2@ =~= mention_text_bang(mv[i as int].0 as nat));
            assert(at_nick@ =~= "@"@ + mv[i as int].1);
            assert(replaced_mentions(before, tail) == replaced_mentions(result@, mv.skip(i + 1)));
        }
        i = i + 1;
    }
    proof {
        assert(mentions_view(mentions@).skip(mentions@.len() as int).len() == 0);
    }
    result
}

/// The event one incoming Discord message becomes: the bot's own messages
/// become nothing; anyone else's text arrives with mentions spelled out and
/// the channel named where known, `[no channel]` otherwise.
pub open spec fn discord_event_of(
    self_nick: Seq<char>,
    author: Seq<char>,
    channel_name: Option<Seq<char>>,
    content: Seq<char>,
    ms: Seq<(u64, Seq<char>)>,
) -> Option<EventV> {
    if author == self_nick {
        None
    } else {
        Some(
            EventV::ReceivedMessage(
                MessageV {
                    author: author,
                    channel: ChannelV::Channel(
                        match channel_name {
                            Some(n) => n,
                            None => "[no channel]"@,
                        },
                    ),
                    content: ContentV::Text(replaced_mentions(content, ms)),
                },
            ),
        )
    }
}

/// Normalizes one incoming Discord message, or drops it when the bot is
/// hearing itself.
pub fn message_event(
    self_nick: &String,
    author: String,
    channel_name: Option<String>,
    content: String,
    mentions: &Vec<(u64, String)>,
) -> (r: Option<Event>)
    ensures
        match r {
            Some(e) => Some(e@) == discord_event_of(
                self_nick@,
                author@,
                channel_name.deep_view(),
                content@,
                mentions_view(mentions@),
            ),
            None => discord_event_of(
                self_nick@,
                author@,
                channel_name.deep_view(),
                content@,
                mentions_view(mentions@),
            ) is None,
        },
{
    if author == *self_nick {
        return None;
    }
    let replaced_content = replace_mentions(content, mentions);
    let chan = match channel_name {
        Some(n) => n,
        None => "[no channel]".to_owned(),
    };
    Some(
        Event::ReceivedMessage(
            Message {
                author,
                channel: Channel::Channel(chan),
                content: MessageContent::Text(replaced_content),
            },
        ),
    )
}

/// The known channels as plain values: name and numeric channel id.
pub open spec fn chans_view(chs: Seq<(String, u64)>) -> Seq<(Seq<char>, u64)> {
    chs.map_values(|c: (String, u64)| (c.0@, c.1))
}

/// The id the first channel of that name was registered under, if any.
pub open spec fn chan_lookup(chs: Seq<(Seq<char>, u64)>, name: Seq<char>) -> Option<u64>
    decreases chs.len(),
{
    if chs.len() == 0 {
        None
    } else if chs[0].0 == name {
        Some(chs[0].1)
    } else {
        chan_lookup(chs.drop_first(), name)
    }
}

fn lookup_channel(channels: &Vec<(String, u64)>, name: &String) -> (r: Option<u64>)
    ensures
        r == chan_lookup(chans_view(channels@), name@),
{
    let mut i: usize = 0;
    proof {
        assert(chans_view(channels@).skip(0) =~= chans_view(channels@));
    }
    while i < channels.len()
        invariant
            i <= channels@.len(),
            chan_lookup(chans_view(channels@), name@) == chan_lookup(
                chans_view(channels@).skip(i as int),
                name@,
            ),
        decreases channels@.len() - i,
    {
        let e = &channels[i];
        proof {
            let cv = chans_view(channels@);
            assert(cv.skip(i as int)[0] == cv[i as int]);
            assert(cv.skip(i as int).drop_first() =~= cv.skip(i + 1));
        }
        if e.0 == *name {
            return Some(e.1);
        }
        i = i + 1;
    }
    None
}

/// What a `send` through the Discord backend does: a direct user message is
/// quietly dropped (not carried yet), a named channel must be known and the
/// content textual; on success, the channel id and the text said there.
pub open spec fn discord_send_spec(
    id: Seq<char>,
    chans: Seq<(Seq<char>, u64)>,
    dst: ChannelV,
    msg: ContentV,
) -> Result<Option<(u64, Seq<char>)>, SourceErrorV> {
    match dst {
        ChannelV::Channel(name) => match chan_lookup(chans, name) {
            None => Err(SourceErrorV::InvalidChannel(id, ChannelV::Channel(name))),
            Some(cid) => match msg {
                ContentV::Text(t) => Ok(Some((cid, t))),
                ContentV::Me(t) => Ok(Some((cid, t))),
                ContentV::Image => Err(SourceErrorV::InvalidMessage(id, msg)),
            },
        },
        ChannelV::User(_) => Ok(None),
        _ => Err(SourceErrorV::InvalidChannel(id, dst)),
    }
}

/// Decides what a Discord `send` says: the channel id and text on success,
/// `None` for a quietly dropped direct message, or exactly the error the
/// backend contract prescribes.
pub fn discord_send_plan(
    id: &SourceId,
    channels: &Vec<(String, u64)>,
    dst: Channel,
    msg: MessageContent,
) -> (r: Result<Option<(u64, String)>, SourceError>)
    ensures
        match r {
            Ok(Some(p)) => discord_send_spec(id@, chans_view(channels@), dst@, msg@) == Ok::<
                Option<(u64, Seq<char>)>,
                SourceErrorV,
            >(Some((p.0, p.1@))),
            Ok(None) => discord_send_spec(id@, chans_view(channels@), dst@, msg@) == Ok::<
                Option<(u64, Seq<char>)>,
                SourceErrorV,
            >(None),
            Err(e) => discord_send_spec(id@, chans_view(channels@), dst@, msg@) == Err::<
                Option<(u64, Seq<char>)>,
                SourceErrorV,
            >(e@),
        },
{
    match dst {
        Channel::Channel(name) => match lookup_channel(channels, &name) {
            None => Err(SourceError::InvalidChannel(
                SourceId(id.0.clone()),
                Channel::Channel(name),
            )),
            Some(cid) => match msg {
                MessageContent::Text(t) => Ok(Some((cid, t))),
                MessageContent::Me(t) => Ok(Some((cid, t))),
                other => Err(SourceError::InvalidMessage(SourceId(id.0.clone()), other)),
            },
        },
        Channel::User(_) => Ok(None),
        other => Err(SourceError::InvalidChannel(SourceId(id.0.clone()), other)),
    }
}

} // verus!
