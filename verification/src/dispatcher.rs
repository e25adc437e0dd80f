//! The core of the bot: the mediator every module acts through, and the
//! dispatcher that routes each incoming event to its subscribers in priority
//! order.

use vstd::prelude::*;
use vstd::string::StringExecFns;
use std::sync::mpsc::{Receiver, Sender};
use crate::fmt::{debug_line_of, render_event, render_source_error};
use crate::logger::LogSink;
use crate::modules::{Module, ResumeEventHandling};
use crate::queue::recv_event;
use crate::sources::{EventSource, SourceError};
use crate::timers::{timer_pending, TimerBank};
use crate::types::{ContentV, Event, EventType, EventV, Message, MessageContent, SourceEvent, SourceId};

verus! {

/// A module's subscription set: which event categories it wants, per source.
pub struct Subscriptions(pub Vec<(SourceId, Vec<EventType>)>);

impl Subscriptions {
    /// Whether events of category `t` arriving from source `src` are wanted.
    pub open spec fn subscribed(self, src: Seq<char>, t: EventType) -> bool {
        exists|i: int|
            0 <= i < self.0@.len() && (#[trigger] self.0@[i]).0@ == src && self.0@[i].1@.contains(
                t,
            )
    }

    /// Whether the pair `(src, t)` appears in the set.
    pub fn contains(&self, src: &SourceId, t: EventType) -> (r: bool)
        ensures
            r == self.subscribed(src@, t),
    {
        let mut i: usize = 0;
        while i < self.0.len()
            invariant
                i <= self.0@.len(),
                forall|k: int|
                    0 <= k < i ==> !((#[trigger] self.0@[k]).0@ == src@ && self.0@[k].1@.contains(
                        t,
                    )),
            decreases self.0@.len() - i,
        {
            let entry = &self.0[i];
            if entry.0.0 == src.0 {
                let mut j: usize = 0;
                while j < entry.1.len()
                    invariant
                        j <= entry.1@.len(),
                        0 <= i < self.0@.len(),
                        entry.1@ == self.0@[i as int].1@,
                        self.0@[i as int].0@ == src@,
                        forall|k: int| 0 <= k < j ==> entry.1@[k] != t,
                    decreases entry.1@.len() - j,
                {
                    if entry.1[j] == t {
                        proof {
                            assert(self.0@[i as int].1@[j as int] == t);
                            assert(self.0@[i as int].1@.contains(t));
                            assert(self.subscribed(src@, t));
                        }
                        return true;
                    }
                    j = j + 1;
                }
                proof {
                    assert(forall|k: int|
                        0 <= k < entry.1@.len() ==> self.0@[i as int].1@[k] != t);
                    assert(!self.0@[i as int].1@.contains(t));
                }
            }
            i = i + 1;
        }
        false
    }
}

/// One registered module: the handler object, its priority, and its
/// subscriptions. Priority and subscriptions are fixed at registration.
pub struct ModuleEntry<M> {
    pub object: M,
    pub priority: u8,
    pub subscriptions: Subscriptions,
}

impl<M> ModuleEntry<M> {
    /// Whether this module wants events of category `t` from `src`.
    pub open spec fn wants(self, src: Seq<char>, t: EventType) -> bool {
        self.subscriptions.subscribed(src, t)
    }
}

/// Module `i` is dispatched before module `j`: the lower priority value goes
/// first, and registration order decides among equal priorities.
pub open spec fn dispatched_before<M>(mods: Seq<ModuleEntry<M>>, i: int, j: int) -> bool {
    ||| mods[i].priority < mods[j].priority
    ||| (mods[i].priority == mods[j].priority && i < j)
}

/// The selection the dispatcher makes for one event: exactly the indices of
/// the modules subscribed to `(src, t)`, each at most once, ordered by
/// ascending priority with ties in registration order.
pub open spec fn is_dispatch_order<M>(
    mods: Seq<ModuleEntry<M>>,
    src: Seq<char>,
    t: EventType,
    sel: Seq<usize>,
) -> bool {
    &&& forall|k: int|
        0 <= k < sel.len() ==> (#[trigger] sel[k]) < mods.len() && mods[sel[k] as int].wants(
            src,
            t,
        )
    &&& forall|i: int|
        0 <= i < mods.len() && (#[trigger] mods[i]).wants(src, t) ==> sel.contains(i as usize)
    &&& forall|k1: int, k2: int|
        #![trigger sel[k1], sel[k2]]
        0 <= k1 < k2 < sel.len() ==> dispatched_before(mods, sel[k1] as int, sel[k2] as int)
}

/// Computes the dispatch order for an event of category `event` arriving
/// from `source_id`: all subscribed modules, by priority, stably.
pub fn get_subscribers<M>(
    source_id: &SourceId,
    modules: &Vec<ModuleEntry<M>>,
    event: EventType,
) -> (sel: Vec<usize>)
    ensures
        is_dispatch_order(modules@, source_id@, event, sel@),
{
    let mut sel: Vec<usize> = Vec::new();
    let mut p: u32 = 0;
    while p < 256
        invariant
            p <= 256,
            forall|k: int|
                0 <= k < sel@.len() ==> (#[trigger] sel@[k]) < modules@.len()
                    && modules@[sel@[k] as int].wants(source_id@, event) && (modules@[sel@[
                    k] as int].priority as u32) < p,
            forall|i: int|
                0 <= i < modules@.len() && (#[trigger] modules@[i]).wants(source_id@, event) && (
                modules@[i].priority as u32) < p ==> sel@.contains(i as usize),
            forall|k1: int, k2: int|
                #![trigger sel@[k1], sel@[k2]]
                0 <= k1 < k2 < sel@.len() ==> dispatched_before(
                    modules@,
                    sel@[k1] as int,
                    sel@[k2] as int,
                ),
        decreases 256 - p,
    {
        let mut i: usize = 0;
        while i < modules.len()
            invariant
                i <= modules@.len(),
                p < 256,
                forall|k: int|
                    0 <= k < sel@.len() ==> (#[trigger] sel@[k]) < modules@.len()
                        && modules@[sel@[k] as int].wants(source_id@, event) && ((modules@[sel@[
                        k] as int].priority as u32) < p || ((modules@[sel@[k] as int].priority
                        as u32) == p && sel@[k] < i)),
                forall|j: int|
                    0 <= j < modules@.len() && (#[trigger] modules@[j]).wants(source_id@, event)
                        && ((modules@[j].priority as u32) < p || ((modules@[j].priority as u32) == p
                        && j < i)) ==> sel@.contains(j as usize),
                forall|k1: int, k2: int|
                    #![trigger sel@[k1], sel@[k2]]
                    0 <= k1 < k2 < sel@.len() ==> dispatched_before(
                        modules@,
                        sel@[k1] as int,
                        sel@[k2] as int,
                    ),
            decreases modules@.len() - i,
        {
            let m = &modules[i];
            if m.priority as u32 == p && m.subscriptions.contains(source_id, event) {
                let ghost pre = sel@;
                sel.push(i);
                proof {
                    assert(sel@[sel@.len() - 1] == i);
                    assert(sel@.contains(i as usize));
                    assert(forall|k: int| 0 <= k < pre.len() ==> sel@[k] == pre[k]);
                    assert forall|j: usize| pre.contains(j) implies sel@.contains(j) by {
                        let w = choose|w: int| 0 <= w < pre.len() && pre[w] == j;
                        assert(sel@[w] == j);
                    }
                }
            }
            i = i + 1;
        }
        p = p + 1;
    }
    sel
}

/// What one dispatch did: the selection, the prefix of it that was actually
/// invoked, each invoked module's answer, and whether the originating source
/// was asked to reconnect.
pub struct DispatchReport {
    pub selected: Vec<usize>,
    pub invoked: Vec<usize>,
    pub results: Vec<ResumeEventHandling>,
    pub reconnected: bool,
}

/// The mediator handed to every module invocation: nickname lookup, message
/// sending with logging, and one-shot timer scheduling. Owns the source
/// registry and the timer guards.
pub struct CoreAPI<S, L> {
    sources: Vec<(SourceId, S)>,
    logger: L,
    timers: TimerBank,
}

/// The identifiers of a source registry, in registration order.
pub open spec fn ids_of<S>(sources: Seq<(SourceId, S)>) -> Seq<Seq<char>> {
    sources.map_values(|p: (SourceId, S)| p.0@)
}

/// Source identifiers are unique within a registry.
pub open spec fn unique_ids<S>(sources: Seq<(SourceId, S)>) -> bool {
    forall|i: int, j: int|
        0 <= i < j < sources.len() ==> ids_of(sources)[i] != ids_of(sources)[j]
}

impl<S, L> CoreAPI<S, L> {
    /// The identifiers of the registered sources, in registration order.
    pub closed spec fn source_ids(&self) -> Seq<Seq<char>> {
        ids_of(self.sources@)
    }

    /// Whether `id` names a registered source.
    pub open spec fn has_source(&self, id: Seq<char>) -> bool {
        self.source_ids().contains(id)
    }

    /// The invariant of the mediator: source identifiers are unique.
    pub open spec fn wf(&self) -> bool {
        forall|i: int, j: int|
            0 <= i < j < self.source_ids().len() ==> self.source_ids()[i] != self.source_ids()[j]
    }

    /// The delays the pending timers were armed with, by timer identifier.
    pub closed spec fn pending_timers(&self) -> Map<Seq<char>, int> {
        timer_pending(self.timers)
    }
}

impl<S: EventSource, L: LogSink> CoreAPI<S, L> {
    /// Builds the mediator over an already-constructed source registry.
    /// `timer_tx` must feed the same queue the dispatcher consumes: timer
    /// events are injected through it.
    pub fn new(sources: Vec<(SourceId, S)>, logger: L, timer_tx: Sender<SourceEvent>) -> (api:
        CoreAPI<S, L>)
        requires
            unique_ids(sources@),
        ensures
            api.wf(),
            api.source_ids() == ids_of(sources@),
            api.pending_timers() == Map::<Seq<char>, int>::empty(),
    {
        let api = CoreAPI { sources, logger, timers: TimerBank::new(timer_tx) };
        api
    }

    /// The index of the source registered under `source_id`, if any.
    fn find_source(&self, source_id: &SourceId) -> (r: Option<usize>)
        ensures
            match r {
                Option::Some(i) => i < self.sources@.len() && self.sources@[i as int].0@
                    == source_id@,
                Option::None => !self.has_source(source_id@),
            },
    {
        let mut i: usize = 0;
        while i < self.sources.len()
            invariant
                i <= self.sources@.len(),
                forall|k: int| 0 <= k < i ==> (#[trigger] self.sources@[k]).0@ != source_id@,
            decreases self.sources@.len() - i,
        {
            let entry = &self.sources[i];
            if entry.0.0 == source_id.0 {
                return Some(i);
            }
            i = i + 1;
        }
        proof {
            assert forall|k: int| 0 <= k < self.source_ids().len() implies self.source_ids()[k]
                != source_id@ by {
                assert(self.source_ids()[k] == self.sources@[k].0@);
            }
        }
        None
    }

    /// Looks up the bot's nickname on the named source. An unregistered
    /// identifier yields the fallback `"no-nick"`; the lookup never fails.
    pub fn get_nick(&self, source_id: &SourceId) -> (r: String)
        ensures
            !self.has_source(source_id@) ==> r@ == "no-nick"@,
    {
        match self.find_source(source_id) {
            Some(i) => {
                proof {
                    assert(self.source_ids()[i as int] == self.sources@[i as int].0@);
                    assert(self.has_source(source_id@));
                }
                let entry = &self.sources[i];
                entry.1.get_nick()
            },
            None => "no-nick".to_owned(),
        }
    }

    /// Hands one line to the log sink; a sink failure is swallowed.
    fn log_raw(&mut self, source_id: &SourceId, channel: String, text: String)
        ensures
            final(self).sources == old(self).sources,
            final(self).timers == old(self).timers,
            final(self).source_ids() == old(self).source_ids(),
            final(self).pending_timers() == old(self).pending_timers(),
    {
        let _ = self.logger.log(source_id.0.as_str(), channel, text);
    }

    /// Arms a one-shot timer: `after_ms` milliseconds from now, the event
    /// `Timer(id)` from the pseudo-source `"core"` is injected onto the
    /// queue. Re-scheduling under the same identifier replaces the pending
    /// timer instead of stacking a second one. The delay must be
    /// non-negative and at most `MAX_TIMER_DELAY_MS`: outside those bounds
    /// the underlying timer's date arithmetic panics.
    pub fn schedule_timer(&mut self, id: String, after_ms: i64)
        requires
            0 <= after_ms <= crate::timers::MAX_TIMER_DELAY_MS,
        ensures
            final(self).source_ids() == old(self).source_ids(),
            final(self).pending_timers() == old(self).pending_timers().insert(
                id@,
                after_ms as int,
            ),
    {
        let ev = SourceEvent { source: SourceId("core".to_owned()), event: Event::Timer(id.clone()) };
        self.timers.schedule(&id, after_ms, ev);
    }

    /// Sends a message through the named source: the outgoing line is logged
    /// first, and a send failure is logged rather than surfaced, so that the
    /// dispatch loop keeps running.
    pub fn send(&mut self, source_id: &SourceId, msg: Message)
        requires
            old(self).has_source(source_id@),
        ensures
            final(self).source_ids() == old(self).source_ids(),
            final(self).pending_timers() == old(self).pending_timers(),
    {
        let idx = match self.find_source(source_id) {
            Some(i) => i,
            None => {
                return ;
            },
        };
        let nick = {
            let entry = &self.sources[idx];
            entry.1.get_nick()
        };
        let channel_label = msg.channel.as_str();
        let text = msg.content.display_with_nick(nick.as_str());
        self.log_raw(source_id, channel_label, text);
        let ghost pre = self.sources@;
        let mut entry = self.sources.remove(idx);
        let r = entry.1.send(msg.channel, msg.content);
        self.sources.insert(idx, entry);
        proof {
            assert(self.sources@ =~= pre.update(idx as int, self.sources@[idx as int]));
            assert(self.source_ids() =~= old(self).source_ids());
        }
        if let Err(e) = r {
            let err_text = render_source_error(&e);
            self.log_raw(source_id, "ERROR".to_owned(), err_text);
        }
    }

    /// Asks the named source to re-establish its session; a failed attempt
    /// is logged, never escalated. Returns whether the source was found.
    pub fn reconnect_source(&mut self, source_id: &SourceId) -> (found: bool)
        ensures
            final(self).source_ids() == old(self).source_ids(),
            final(self).pending_timers() == old(self).pending_timers(),
            found == old(self).has_source(source_id@),
    {
        match self.find_source(source_id) {
            Some(idx) => {
                proof {
                    assert(self.source_ids()[idx as int] == self.sources@[idx as int].0@);
                    assert(self.has_source(source_id@));
                }
                let ghost pre = self.sources@;
                let mut entry = self.sources.remove(idx);
                let r = entry.1.reconnect();
                self.sources.insert(idx, entry);
                proof {
                    assert(self.sources@ =~= pre.update(idx as int, self.sources@[idx as int]));
                    assert(self.source_ids() =~= old(self).source_ids());
                }
                if let Err(e) = r {
                    let err_text = render_source_error(&e);
                    self.log_raw(source_id, "ERROR".to_owned(), err_text);
                }
                true
            },
            None => false,
        }
    }

    /// Calls `connect` on every registered source, in registration order,
    /// stopping at the first failure, which is surfaced to the caller:
    /// an incompletely connected startup must be loud, not silent. Only a
    /// source's own `connect` can fail, so an empty registry always
    /// succeeds.
    pub(crate) fn connect_all(&mut self) -> (r: Result<(), SourceError>)
        ensures
            final(self).source_ids() == old(self).source_ids(),
            final(self).pending_timers() == old(self).pending_timers(),
            old(self).source_ids().len() == 0 ==> r is Ok,
    {
        let mut i: usize = 0;
        while i < self.sources.len()
            invariant
                i <= self.sources@.len(),
                self.source_ids() == old(self).source_ids(),
                self.pending_timers() == old(self).pending_timers(),
            decreases self.sources@.len() - i,
        {
            let ghost pre = self.sources@;
            let mut entry = self.sources.remove(i);
            let r = entry.1.connect();
            self.sources.insert(i, entry);
            proof {
                assert(self.sources@ =~= pre.update(i as int, self.sources@[i as int]));
                assert(ids_of(self.sources@) =~= ids_of(pre));
            }
            if let Err(e) = r {
                return Err(e);
            }
            i = i + 1;
        }
        Ok(())
    }
}

/// The label a log line is filed under for one event.
pub open spec fn log_channel_of(e: EventV) -> Seq<char> {
    match e {
        EventV::ReceivedMessage(m) => m.channel.label(),
        _ => "[notice]"@,
    }
}

/// The text of the log line for one event. `nick` is the bot's own nickname
/// on the originating source; it only appears for `/me`-style messages.
pub open spec fn log_text_of(e: EventV, nick: Seq<char>) -> Seq<char> {
    match e {
        EventV::ReceivedMessage(m) => match m.content {
            ContentV::Text(t) => "<"@ + m.author + "> "@ + t,
            ContentV::Me(t) => "* "@ + nick + " "@ + t,
            ContentV::Image => "[Image]"@,
        },
        EventV::Disconnected(r) => "Disconnected; reason: "@ + r,
        EventV::Other(t) => t,
        _ => debug_line_of(e),
    }
}

/// Renders the log line for one event: the channel label it is filed under
/// and the line's text.
pub fn log_line(event: &SourceEvent, nick: &str) -> (r: (String, String))
    ensures
        r.0@ == log_channel_of(event.event@),
        r.1@ == log_text_of(event.event@, nick@),
{
    match &event.event {
        Event::ReceivedMessage(msg) => {
            let channel = msg.channel.as_str();
            let text = match &msg.content {
                MessageContent::Text(txt) => {
                    let mut t = "<".to_owned();
                    t.append(msg.author.as_str());
                    t.append("> ");
                    t.append(txt.as_str());
                    t
                },
                MessageContent::Me(txt) => {
                    let mut t = "* ".to_owned();
                    t.append(nick);
                    t.append(" ");
                    t.append(txt.as_str());
                    t
                },
                MessageContent::Image => "[Image]".to_owned(),
            };
            (channel, text)
        },
        Event::Disconnected(txt) => {
            let mut t = "Disconnected; reason: ".to_owned();
            t.append(txt.as_str());
            ("[notice]".to_owned(), t)
        },
        Event::Other(txt) => ("[notice]".to_owned(), txt.clone()),
        _ => ("[notice]".to_owned(), render_event(&event.event)),
    }
}

/// The core of the bot: the single consumer of the event queue. Owns the
/// module registry and the mediator, decides dispatch order, and asks for
/// reconnection after a disconnect.
pub struct Core<S, L, M> {
    event_rx: Receiver<SourceEvent>,
    modules: Vec<ModuleEntry<M>>,
    api: CoreAPI<S, L>,
}

impl<S, L, M> Core<S, L, M> {
    /// The module registry, in registration order.
    pub closed spec fn modules_view(&self) -> Seq<ModuleEntry<M>> {
        self.modules@
    }

    /// The mediator state.
    pub closed spec fn api_view(&self) -> CoreAPI<S, L> {
        self.api
    }

    /// The identifiers of the registered sources, in registration order.
    pub open spec fn source_ids(&self) -> Seq<Seq<char>> {
        self.api_view().source_ids()
    }

    /// The invariant of the core: source identifiers are unique.
    pub open spec fn wf(&self) -> bool {
        self.api_view().wf()
    }
}

impl<S: EventSource, L: LogSink, M: Module<S, L>> Core<S, L, M> {
    /// Creates the core over an already-wired mediator and module registry,
    /// consuming events from `event_rx`.
    pub fn new(event_rx: Receiver<SourceEvent>, api: CoreAPI<S, L>, modules: Vec<ModuleEntry<M>>)
        -> (core: Core<S, L, M>)
        ensures
            core.api_view() == api,
            core.modules_view() == modules@,
    {
        Core { event_rx, modules, api }
    }

    /// Calls `connect` on every source; the first failure is surfaced. An
    /// error can only come from a source's own `connect`: with no sources
    /// registered the call succeeds.
    pub fn connect_all(&mut self) -> (r: Result<(), SourceError>)
        ensures
            final(self).source_ids() == old(self).source_ids(),
            old(self).source_ids().len() == 0 ==> r is Ok,
    {
        self.api.connect_all()
    }

    /// Logs one incoming event: a human-readable line, tagged with the
    /// originating source and a channel label.
    fn log_event(&mut self, event: &SourceEvent)
        ensures
            final(self).modules == old(self).modules,
            final(self).source_ids() == old(self).source_ids(),
    {
        let nick = self.api.get_nick(&event.source);
        let (channel, text) = log_line(event, nick.as_str());
        self.api.log_raw(&event.source, channel, text);
    }

    /// Dispatches one event: computes the selection, invokes each selected
    /// module in priority order until one answers `Stop`, and, for a
    /// disconnect event, asks the originating source to reconnect — exactly
    /// once, and independently of what the modules answered.
    pub fn handle_event(&mut self, event: SourceEvent) -> (report: DispatchReport)
        ensures
            final(self).modules_view().len() == old(self).modules_view().len(),
            forall|i: int|
                0 <= i < final(self).modules_view().len() ==> (#[trigger] final(self).modules_view()[i]).priority
                    == old(self).modules_view()[i].priority
                    && final(self).modules_view()[i].subscriptions
                    == old(self).modules_view()[i].subscriptions,
            final(self).source_ids() == old(self).source_ids(),
            is_dispatch_order(
                old(self).modules_view(),
                event.source@,
                event.event@.category(),
                report.selected@,
            ),
            report.invoked@.len() <= report.selected@.len(),
            report.invoked@ == report.selected@.subrange(0, report.invoked@.len() as int),
            report.results@.len() == report.invoked@.len(),
            forall|k: int|
                0 <= k < report.results@.len() - 1 ==> report.results@[k]
                    == ResumeEventHandling::Resume,
            report.invoked@.len() < report.selected@.len() ==> report.results@.len() > 0
                && report.results@[report.results@.len() - 1] == ResumeEventHandling::Stop,
            report.reconnected == (event.event@ is Disconnected && old(self).api_view().has_source(
                event.source@,
            )),
    {
        let ty = event.event.get_type();
        let selected = get_subscribers(&event.source, &self.modules, ty);
        let mut invoked: Vec<usize> = Vec::new();
        let mut results: Vec<ResumeEventHandling> = Vec::new();
        let mut n: usize = 0;
        let mut stopped = false;
        proof {
            assert(invoked@ =~= selected@.subrange(0, 0));
        }
        while n < selected.len() && !stopped
            invariant
                n <= selected@.len(),
                is_dispatch_order(old(self).modules@, event.source@, ty, selected@),
                ty == event.event@.category(),
                self.modules@.len() == old(self).modules@.len(),
                forall|i: int|
                    0 <= i < self.modules@.len() ==> (#[trigger] self.modules@[i]).priority
                        == old(self).modules@[i].priority && self.modules@[i].subscriptions
                        == old(self).modules@[i].subscriptions,
                self.api.source_ids() == old(self).api.source_ids(),
                invoked@ == selected@.subrange(0, n as int),
                results@.len() == n as int,
                !stopped ==> forall|k: int|
                    0 <= k < n ==> results@[k] == ResumeEventHandling::Resume,
                stopped ==> n > 0 && results@[n - 1] == ResumeEventHandling::Stop && (forall|k: int|
                    0 <= k < n - 1 ==> results@[k] == ResumeEventHandling::Resume),
            decreases selected@.len() - n,
        {
            let idx = selected[n];
            proof {
                assert(selected@[n as int] < old(self).modules@.len());
            }
            let ghost pre = self.modules@;
            let mut entry = self.modules.remove(idx);
            let r = entry.object.handle_event(&mut self.api, event.clone());
            self.modules.insert(idx, entry);
            proof {
                assert(self.modules@ =~= pre.update(idx as int, self.modules@[idx as int]));
                assert(self.modules@[idx as int].priority == pre[idx as int].priority);
                assert(self.modules@[idx as int].subscriptions == pre[idx as int].subscriptions);
            }
            invoked.push(idx);
            results.push(r);
            proof {
                assert(invoked@ =~= selected@.subrange(0, n + 1));
            }
            if r == ResumeEventHandling::Stop {
                stopped = true;
            }
            n = n + 1;
        }
        let mut reconnected = false;
        if let Event::Disconnected(_) = &event.event {
            let found = self.api.reconnect_source(&event.source);
            reconnected = found;
        }
        DispatchReport { selected, invoked, results, reconnected }
    }

    /// One turn of the event loop: blocks for the next event, logs it,
    /// dispatches it. Returns whether the queue is still open: once every
    /// producer is gone it returns `false`, and the loop around this is
    /// over — the bot can hear nothing further. The loop itself cannot
    /// live here: it has no termination measure, so the caller repeats
    /// `step` until it answers `false`.
    pub fn step(&mut self) -> (more: bool)
        ensures
            final(self).source_ids() == old(self).source_ids(),
            final(self).modules_view().len() == old(self).modules_view().len(),
            forall|i: int|
                0 <= i < final(self).modules_view().len() ==> (#[trigger] final(self).modules_view()[i]).priority
                    == old(self).modules_view()[i].priority
                    && final(self).modules_view()[i].subscriptions
                    == old(self).modules_view()[i].subscriptions,
    {
        match recv_event(&self.event_rx) {
            Ok(event) => {
                self.log_event(&event);
                let _ = self.handle_event(event);
                true
            },
            Err(_) => false,
        }
    }
}

} // verus!
