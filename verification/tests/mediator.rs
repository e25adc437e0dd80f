use std::sync::mpsc::channel;
use std::sync::{Arc, Mutex};
use std::time::Duration;

use botcore::dispatcher::{log_line, CoreAPI};
use botcore::logger::{LogError, LogSink};
use botcore::sources::{EventSource, SourceError, SourceResult};
use botcore::types::{Channel, Event, Message, MessageContent, SourceEvent, SourceId};

#[derive(Clone)]
struct TextOnlySource {
    nick: String,
    sent: Arc<Mutex<Vec<(Channel, MessageContent)>>>,
}

impl TextOnlySource {
    fn new(nick: &str) -> TextOnlySource {
        TextOnlySource {
            nick: nick.to_string(),
            sent: Arc::new(Mutex::new(Vec::new())),
        }
    }
}

impl EventSource for TextOnlySource {
    fn get_nick(&self) -> String {
        self.nick.clone()
    }
    fn connect(&mut self) -> SourceResult<()> {
        Ok(())
    }
    fn join(&mut self, _channel: &str) -> SourceResult<()> {
        Ok(())
    }
    fn send(&mut self, dst: Channel, msg: MessageContent) -> SourceResult<()> {
        match msg {
            MessageContent::Text(_) | MessageContent::Me(_) => {
                self.sent.lock().unwrap().push((dst, msg));
                Ok(())
            }
            MessageContent::Image => Err(SourceError::InvalidMessage(
                SourceId("chat".to_string()),
                msg,
            )),
        }
    }
    fn reconnect(&mut self) -> SourceResult<()> {
        Ok(())
    }
}

#[derive(Clone)]
struct RecLogger {
    lines: Arc<Mutex<Vec<(String, String, String)>>>,
}

impl RecLogger {
    fn new() -> RecLogger {
        RecLogger {
            lines: Arc::new(Mutex::new(Vec::new())),
        }
    }
}

impl LogSink for RecLogger {
    fn log(&mut self, source_id: &str, channel: String, text: String) -> Result<(), LogError> {
        self.lines
            .lock()
            .unwrap()
            .push((source_id.to_string(), channel, text));
        Ok(())
    }
}

fn api_with_chat() -> (
    CoreAPI<TextOnlySource, RecLogger>,
    Arc<Mutex<Vec<(Channel, MessageContent)>>>,
    Arc<Mutex<Vec<(String, String, String)>>>,
) {
    let (tx, _timer_rx) = channel();
    let source = TextOnlySource::new("botnick");
    let sent = source.sent.clone();
    let logger = RecLogger::new();
    let lines = logger.lines.clone();
    let api = CoreAPI::new(vec![(SourceId("chat".to_string()), source)], logger, tx);
    (api, sent, lines)
}

#[test]
fn get_nick_returns_the_source_nick() {
    let (api, _, _) = api_with_chat();
    assert_eq!(api.get_nick(&SourceId("chat".to_string())), "botnick");
}

#[test]
fn get_nick_falls_back_for_unknown_sources() {
    let (api, _, _) = api_with_chat();
    assert_eq!(api.get_nick(&SourceId("nowhere".to_string())), "no-nick");
}

#[test]
fn send_forwards_and_logs() {
    let (mut api, sent, lines) = api_with_chat();
    api.send(
        &SourceId("chat".to_string()),
        Message {
            author: "ignored".to_string(),
            channel: Channel::Channel("general".to_string()),
            content: MessageContent::Text("hello there".to_string()),
        },
    );
    let sent = sent.lock().unwrap();
    assert_eq!(sent.len(), 1);
    assert_eq!(sent[0].0, Channel::Channel("general".to_string()));
    assert!(matches!(&sent[0].1, MessageContent::Text(t) if t == "hello there"));
    let lines = lines.lock().unwrap();
    assert_eq!(lines.len(), 1);
    assert_eq!(
        lines[0],
        (
            "chat".to_string(),
            "#general".to_string(),
            "<botnick> hello there".to_string()
        )
    );
}

#[test]
fn unsupported_content_is_not_forwarded() {
    let (mut api, sent, lines) = api_with_chat();
    api.send(
        &SourceId("chat".to_string()),
        Message {
            author: "ignored".to_string(),
            channel: Channel::Channel("general".to_string()),
            content: MessageContent::Image,
        },
    );
    // the backend answered InvalidMessage: nothing was forwarded and the
    // failure went to the log under ERROR
    assert_eq!(sent.lock().unwrap().len(), 0);
    let lines = lines.lock().unwrap();
    assert_eq!(lines.len(), 2);
    assert_eq!(lines[1].1, "ERROR");
    assert!(lines[1].2.contains("InvalidMessage"));
}

#[test]
fn rescheduling_a_timer_replaces_it() {
    let (tx, rx) = channel();
    let api_logger = RecLogger::new();
    let mut api: CoreAPI<TextOnlySource, RecLogger> = CoreAPI::new(vec![], api_logger, tx);
    api.schedule_timer("t1".to_string(), 2_000);
    api.schedule_timer("t1".to_string(), 150);
    let first = rx
        .recv_timeout(Duration::from_millis(1_500))
        .expect("the rescheduled timer should fire");
    assert_eq!(first.source, SourceId("core".to_string()));
    assert!(matches!(&first.event, Event::Timer(id) if id == "t1"));
    // the first schedule was cancelled: nothing else fires
    assert!(rx.recv_timeout(Duration::from_millis(2_500)).is_err());
}

#[test]
fn independent_timers_both_fire() {
    let (tx, rx) = channel();
    let api_logger = RecLogger::new();
    let mut api: CoreAPI<TextOnlySource, RecLogger> = CoreAPI::new(vec![], api_logger, tx);
    api.schedule_timer("a".to_string(), 50);
    api.schedule_timer("b".to_string(), 120);
    let first = rx.recv_timeout(Duration::from_millis(1_000)).unwrap();
    let second = rx.recv_timeout(Duration::from_millis(1_000)).unwrap();
    assert!(matches!(&first.event, Event::Timer(id) if id == "a"));
    assert!(matches!(&second.event, Event::Timer(id) if id == "b"));
}

#[test]
fn log_lines_for_each_event_shape() {
    let ev = |event: Event| SourceEvent {
        source: SourceId("chat".to_string()),
        event,
    };
    assert_eq!(
        log_line(
            &ev(Event::ReceivedMessage(Message {
                author: "bob".to_string(),
                channel: Channel::Channel("general".to_string()),
                content: MessageContent::Text("hi".to_string()),
            })),
            "botnick"
        ),
        ("#general".to_string(), "<bob> hi".to_string())
    );
    assert_eq!(
        log_line(
            &ev(Event::ReceivedMessage(Message {
                author: "bob".to_string(),
                channel: Channel::User("bob".to_string()),
                content: MessageContent::Me("waves".to_string()),
            })),
            "botnick"
        ),
        ("bob(priv)".to_string(), "* botnick waves".to_string())
    );
    assert_eq!(
        log_line(&ev(Event::Disconnected("timeout".to_string())), "botnick"),
        (
            "[notice]".to_string(),
            "Disconnected; reason: timeout".to_string()
        )
    );
    assert_eq!(
        log_line(&ev(Event::Other("odd line".to_string())), "botnick"),
        ("[notice]".to_string(), "odd line".to_string())
    );
    // the remaining shapes are logged in their debug rendering
    assert_eq!(
        log_line(&ev(Event::UserOnline("bob".to_string())), "botnick"),
        ("[notice]".to_string(), "UserOnline(\"bob\")".to_string())
    );
    assert_eq!(
        log_line(&ev(Event::Connected), "botnick"),
        ("[notice]".to_string(), "Connected".to_string())
    );
}
