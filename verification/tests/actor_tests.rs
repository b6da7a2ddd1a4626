use serwave::actor::{Action, Actor, ActorState, Outcome, PinReadings, Reaction};
use serwave::serial_service::{Command, PinStates, SerialEvent};

fn is_closed_event(event: &SerialEvent) -> bool {
    matches!(event, SerialEvent::Closed)
}

fn levels(cts: bool, dsr: bool, dcd: bool, ri: bool) -> PinReadings {
    PinReadings { cts: Ok(cts), dsr: Ok(dsr), dcd: Ok(dcd), ri: Ok(ri) }
}

fn failed(reason: &str) -> Result<bool, String> {
    Err(reason.to_string())
}

fn opened(name: &str) -> Actor {
    let mut actor = Actor::new(name.to_string());
    let reaction = actor.step(Outcome::Opened(Ok(())));
    assert!(matches!(reaction.action, Action::Read));
    actor
}

fn draining(name: &str) -> Actor {
    let mut actor = opened(name);
    let reaction = actor.step(Outcome::Read(Vec::new()));
    assert!(reaction.events.is_empty());
    assert!(matches!(reaction.action, Action::NextCommand));
    actor
}

#[test]
fn a_new_actor_is_about_to_open() {
    let actor = Actor::new("COM9".to_string());
    assert_eq!(actor.state(), ActorState::Opening);
    assert!(!actor.is_closed());
}

#[test]
fn open_failure_reports_one_error_then_closed() {
    let mut actor = Actor::new("/dev/does-not-exist".to_string());
    let Reaction { events, action } = actor.step(Outcome::Opened(Err("No such file".to_string())));
    assert_eq!(events.len(), 2);
    assert!(matches!(&events[0], SerialEvent::Error(message) if message == "open failed: No such file"));
    assert!(matches!(events[1], SerialEvent::Closed));
    assert!(matches!(action, Action::Stop));
    assert!(actor.is_closed());
    assert_eq!(actor.state(), ActorState::Closed);
}

#[test]
fn a_closed_actor_reports_nothing_more() {
    let mut actor = Actor::new("x".to_string());
    actor.step(Outcome::Opened(Err("busy".to_string())));
    let later = vec![
        Outcome::Opened(Ok(())),
        Outcome::Read(b"late".to_vec()),
        Outcome::Queued(Some(Command::Close)),
        Outcome::Queued(None),
        Outcome::Written(Ok(3)),
        Outcome::LineSet(Err("e".to_string())),
        Outcome::Pins(levels(true, true, true, true)),
        Outcome::Slept,
    ];
    for outcome in later {
        let reaction = actor.step(outcome);
        assert!(reaction.events.is_empty());
        assert!(matches!(reaction.action, Action::Stop));
        assert!(actor.is_closed());
    }
}

#[test]
fn a_successful_open_reports_the_port_name_and_starts_polling() {
    let mut actor = Actor::new("ttyUSB0".to_string());
    let reaction = actor.step(Outcome::Opened(Ok(())));
    assert_eq!(reaction.events.len(), 1);
    assert!(matches!(&reaction.events[0], SerialEvent::Opened(name) if name == "ttyUSB0"));
    assert!(matches!(reaction.action, Action::Read));
    assert_eq!(actor.state(), ActorState::Reading);
}

#[test]
fn received_bytes_are_reported_unchanged() {
    let mut actor = opened("p");
    let data = vec![0x00, 0xFF, 0x0A, 0x0D, 0x80];
    let reaction = actor.step(Outcome::Read(data.clone()));
    assert_eq!(reaction.events.len(), 1);
    assert!(matches!(&reaction.events[0], SerialEvent::Rx(bytes) if *bytes == data));
    assert!(matches!(reaction.action, Action::NextCommand));
    assert_eq!(actor.state(), ActorState::Draining);
}

#[test]
fn a_read_without_bytes_reports_nothing() {
    let mut actor = opened("p");
    let reaction = actor.step(Outcome::Read(Vec::new()));
    assert!(reaction.events.is_empty());
    assert!(matches!(reaction.action, Action::NextCommand));
}

#[test]
fn an_empty_queue_leads_to_a_pause_and_the_next_read() {
    let mut actor = draining("p");
    let reaction = actor.step(Outcome::Queued(None));
    assert!(reaction.events.is_empty());
    assert!(matches!(reaction.action, Action::Sleep));
    assert_eq!(actor.state(), ActorState::Sleeping);
    let reaction = actor.step(Outcome::Slept);
    assert!(reaction.events.is_empty());
    assert!(matches!(reaction.action, Action::Read));
    assert_eq!(actor.state(), ActorState::Reading);
}

#[test]
fn a_send_command_is_written_and_its_count_reported() {
    let mut actor = draining("p");
    let reaction = actor.step(Outcome::Queued(Some(Command::Send(b"AT\r\n".to_vec()))));
    assert!(reaction.events.is_empty());
    assert!(matches!(&reaction.action, Action::Write(data) if data == b"AT\r\n"));
    assert_eq!(actor.state(), ActorState::Writing);
    let reaction = actor.step(Outcome::Written(Ok(4)));
    assert_eq!(reaction.events.len(), 1);
    assert!(matches!(reaction.events[0], SerialEvent::Tx(4)));
    assert!(matches!(reaction.action, Action::NextCommand));
    assert_eq!(actor.state(), ActorState::Draining);
}

#[test]
fn a_failed_write_is_reported_and_polling_goes_on() {
    let mut actor = draining("p");
    actor.step(Outcome::Queued(Some(Command::Send(vec![1]))));
    let reaction = actor.step(Outcome::Written(Err("broken pipe".to_string())));
    assert_eq!(reaction.events.len(), 1);
    assert!(matches!(&reaction.events[0], SerialEvent::Error(message) if message == "broken pipe"));
    assert!(matches!(reaction.action, Action::NextCommand));
    assert!(!actor.is_closed());
}

#[test]
fn line_changes_report_only_failures() {
    let mut actor = draining("p");
    let reaction = actor.step(Outcome::Queued(Some(Command::SetDtr(true))));
    assert!(reaction.events.is_empty());
    assert!(matches!(reaction.action, Action::SetDtr(true)));
    assert_eq!(actor.state(), ActorState::SettingLine);
    let reaction = actor.step(Outcome::LineSet(Ok(())));
    assert!(reaction.events.is_empty());
    assert!(matches!(reaction.action, Action::NextCommand));

    let reaction = actor.step(Outcome::Queued(Some(Command::SetRts(false))));
    assert!(matches!(reaction.action, Action::SetRts(false)));
    let reaction = actor.step(Outcome::LineSet(Err("not supported".to_string())));
    assert_eq!(reaction.events.len(), 1);
    assert!(matches!(&reaction.events[0], SerialEvent::Error(message) if message == "not supported"));
    assert!(matches!(reaction.action, Action::NextCommand));
    assert_eq!(actor.state(), ActorState::Draining);
}

#[test]
fn a_pin_query_reports_the_pin_states() {
    let mut actor = draining("p");
    let reaction = actor.step(Outcome::Queued(Some(Command::GetPinStates)));
    assert!(reaction.events.is_empty());
    assert!(matches!(reaction.action, Action::ReadPins));
    assert_eq!(actor.state(), ActorState::ReadingPins);
    let pins = PinStates { cts: true, dsr: false, dcd: true, ri: false };
    let reaction = actor.step(Outcome::Pins(levels(true, false, true, false)));
    assert_eq!(reaction.events.len(), 1);
    assert!(matches!(reaction.events[0], SerialEvent::PinStates(seen) if seen == pins));
    assert!(matches!(reaction.action, Action::NextCommand));
}

#[test]
fn a_failed_pin_query_is_reported_and_polling_goes_on() {
    let mut actor = draining("p");
    actor.step(Outcome::Queued(Some(Command::GetPinStates)));
    let readings = PinReadings { cts: Ok(true), dsr: failed("ioctl failed"), dcd: Ok(false), ri: Ok(true) };
    let reaction = actor.step(Outcome::Pins(readings));
    assert_eq!(reaction.events.len(), 1);
    assert!(matches!(&reaction.events[0], SerialEvent::Error(message) if message == "ioctl failed"));
    assert!(matches!(reaction.action, Action::NextCommand));
    assert_eq!(actor.state(), ActorState::Draining);
}

#[test]
fn the_first_failed_pin_is_the_one_reported() {
    let cases = vec![
        (PinReadings { cts: failed("cts"), dsr: failed("dsr"), dcd: failed("dcd"), ri: failed("ri") }, "cts"),
        (PinReadings { cts: Ok(true), dsr: failed("dsr"), dcd: failed("dcd"), ri: failed("ri") }, "dsr"),
        (PinReadings { cts: Ok(true), dsr: Ok(true), dcd: failed("dcd"), ri: failed("ri") }, "dcd"),
        (PinReadings { cts: Ok(true), dsr: Ok(true), dcd: Ok(true), ri: failed("ri") }, "ri"),
        (PinReadings { cts: failed("cts"), dsr: Ok(true), dcd: Ok(true), ri: Ok(false) }, "cts"),
    ];
    for (readings, expected) in cases {
        let mut actor = draining("p");
        actor.step(Outcome::Queued(Some(Command::GetPinStates)));
        let reaction = actor.step(Outcome::Pins(readings));
        assert_eq!(reaction.events.len(), 1);
        assert!(matches!(&reaction.events[0], SerialEvent::Error(message) if message == expected));
    }
}

#[test]
fn close_reports_closed_once_and_ends_the_actor() {
    let mut actor = draining("p");
    let reaction = actor.step(Outcome::Queued(Some(Command::Close)));
    assert_eq!(reaction.events.len(), 1);
    assert!(matches!(reaction.events[0], SerialEvent::Closed));
    assert!(matches!(reaction.action, Action::Stop));
    assert!(actor.is_closed());
    let reaction = actor.step(Outcome::Queued(Some(Command::Close)));
    assert!(reaction.events.is_empty());
}

#[test]
fn commands_queued_behind_close_are_not_acted_on() {
    let mut actor = draining("p");
    actor.step(Outcome::Queued(Some(Command::Close)));
    let reaction = actor.step(Outcome::Queued(Some(Command::Send(vec![1, 2, 3]))));
    assert!(reaction.events.is_empty());
    assert!(matches!(reaction.action, Action::Stop));
}

#[test]
fn an_outcome_that_is_not_awaited_is_passed_over() {
    let mut actor = Actor::new("p".to_string());
    let reaction = actor.step(Outcome::Read(b"early".to_vec()));
    assert!(reaction.events.is_empty());
    assert!(matches!(reaction.action, Action::Open));
    assert_eq!(actor.state(), ActorState::Opening);

    let mut actor = opened("p");
    let reaction = actor.step(Outcome::Slept);
    assert!(reaction.events.is_empty());
    assert!(matches!(reaction.action, Action::Read));

    let mut actor = draining("p");
    actor.step(Outcome::Queued(Some(Command::Send(vec![1]))));
    let reaction = actor.step(Outcome::Slept);
    assert!(reaction.events.is_empty());
    assert!(matches!(reaction.action, Action::NextCommand));
    assert_eq!(actor.state(), ActorState::Draining);
}

#[test]
fn a_whole_session_reports_closed_exactly_once_and_last() {
    let mut actor = Actor::new("p".to_string());
    let script = vec![
        Outcome::Opened(Ok(())),
        Outcome::Read(b"hi".to_vec()),
        Outcome::Queued(Some(Command::Send(b"x".to_vec()))),
        Outcome::Written(Ok(1)),
        Outcome::Queued(Some(Command::GetPinStates)),
        Outcome::Pins(levels(false, false, false, true)),
        Outcome::Queued(None),
        Outcome::Slept,
        Outcome::Read(Vec::new()),
        Outcome::Queued(Some(Command::Close)),
        Outcome::Queued(Some(Command::Send(b"y".to_vec()))),
        Outcome::Slept,
    ];
    let mut events: Vec<SerialEvent> = Vec::new();
    for outcome in script {
        events.extend(actor.step(outcome).events);
    }
    assert_eq!(events.len(), 5);
    assert!(matches!(&events[0], SerialEvent::Opened(name) if name == "p"));
    assert!(matches!(&events[1], SerialEvent::Rx(data) if data == b"hi"));
    assert!(matches!(events[2], SerialEvent::Tx(1)));
    assert!(matches!(events[3], SerialEvent::PinStates(pins) if pins.ri && !pins.cts));
    assert!(matches!(events[4], SerialEvent::Closed));
    assert_eq!(events.iter().filter(|event| is_closed_event(event)).count(), 1);
}

#[test]
fn a_port_that_does_not_exist_reports_error_then_closed() {
    let name = "/dev/serwave-no-such-port";
    let opened = serialport::new(name, 115_200).open();
    let outcome = Outcome::Opened(opened.map(|_| ()).map_err(|e| e.to_string()));
    assert!(matches!(&outcome, Outcome::Opened(Err(_))));
    let mut actor = Actor::new(name.to_string());
    let mut events: Vec<SerialEvent> = Vec::new();
    let mut reaction = actor.step(outcome);
    events.append(&mut reaction.events);
    assert!(matches!(reaction.action, Action::Stop));
    for _ in 0..3 {
        events.extend(actor.step(Outcome::Slept).events);
        events.extend(actor.step(Outcome::Read(b"x".to_vec())).events);
    }
    assert_eq!(events.len(), 2);
    assert!(matches!(&events[0], SerialEvent::Error(message) if message.starts_with("open failed: ")));
    assert!(matches!(events[1], SerialEvent::Closed));
    assert!(!events.iter().any(|event| matches!(event, SerialEvent::Opened(_) | SerialEvent::Rx(_))));
}
