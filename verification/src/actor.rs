//! The decisions of the port actor. The actor owns the device on a thread of
//! its own; which device operation comes next and which events are reported
//! is decided here, one step at a time. Whoever drives the actor performs the
//! action a step asks for and hands the outcome to the next step.

use crate::serial_service::{Command, CommandModel, EventModel, PinStates, SerialEvent};
use vstd::prelude::*;

verus! {

/// How long a read waits for bytes, in milliseconds.
pub const READ_TIMEOUT_MS: u64 = 50;

/// How long the actor pauses between two polls, in milliseconds.
pub const POLL_PAUSE_MS: u64 = 5;

/// The most bytes that one read takes.
pub const READ_BUFFER_LEN: usize = 4096;

/// What the actor is waiting for.
#[derive(Debug, Clone, Copy, PartialEq, Eq, Structural)]
pub enum ActorState {
    /// For the device to be opened.
    Opening,
    /// For a read to return or time out.
    Reading,
    /// For the next queued command.
    Draining,
    /// For a write to return.
    Writing,
    /// For DTR or RTS to be set.
    SettingLine,
    /// For the pin states to be read.
    ReadingPins,
    /// For the pause between two polls to pass.
    Sleeping,
    /// For nothing: the actor has ended.
    Closed,
}

/// The device operation the driver is to perform next.
#[derive(Debug, Clone)]
pub enum Action {
    Open,
    Read,
    NextCommand,
    Write(Vec<u8>),
    SetDtr(bool),
    SetRts(bool),
    ReadPins,
    Sleep,
    Stop,
}

/// What an action holds.
pub enum ActionModel {
    Open,
    Read,
    NextCommand,
    Write(Seq<u8>),
    SetDtr(bool),
    SetRts(bool),
    ReadPins,
    Sleep,
    Stop,
}

impl View for Action {
    type V = ActionModel;

    open spec fn view(&self) -> ActionModel {
        match *self {
            Action::Open => ActionModel::Open,
            Action::Read => ActionModel::Read,
            Action::NextCommand => ActionModel::NextCommand,
            Action::Write(data) => ActionModel::Write(data@),
            Action::SetDtr(state) => ActionModel::SetDtr(state),
            Action::SetRts(state) => ActionModel::SetRts(state),
            Action::ReadPins => ActionModel::ReadPins,
            Action::Sleep => ActionModel::Sleep,
            Action::Stop => ActionModel::Stop,
        }
    }
}

/// What reading each of the four modem-control input lines gave: the level
/// of the line, or the reason for which it could not be read.
#[derive(Debug)]
pub struct PinReadings {
    pub cts: Result<bool, String>,
    pub dsr: Result<bool, String>,
    pub dcd: Result<bool, String>,
    pub ri: Result<bool, String>,
}

/// What pin readings hold.
pub struct PinReadingsModel {
    pub cts: Result<bool, Seq<char>>,
    pub dsr: Result<bool, Seq<char>>,
    pub dcd: Result<bool, Seq<char>>,
    pub ri: Result<bool, Seq<char>>,
}

/// What one reading holds.
pub open spec fn reading_of(reading: Result<bool, String>) -> Result<bool, Seq<char>> {
    match reading {
        Ok(level) => Ok(level),
        Err(reason) => Err(reason@),
    }
}

impl View for PinReadings {
    type V = PinReadingsModel;

    open spec fn view(&self) -> PinReadingsModel {
        PinReadingsModel {
            cts: reading_of(self.cts),
            dsr: reading_of(self.dsr),
            dcd: reading_of(self.dcd),
            ri: reading_of(self.ri),
        }
    }
}

/// The event that reports a pin query: the four levels where all were read,
/// else the first failure, the pins taken in the order CTS, DSR, DCD, RI.
pub open spec fn pins_event(readings: PinReadingsModel) -> EventModel {
    match (readings.cts, readings.dsr, readings.dcd, readings.ri) {
        (Ok(cts), Ok(dsr), Ok(dcd), Ok(ri)) => EventModel::PinStates(
            PinStates { cts, dsr, dcd, ri },
        ),
        (Err(reason), _, _, _) => EventModel::Error(reason),
        (_, Err(reason), _, _) => EventModel::Error(reason),
        (_, _, Err(reason), _) => EventModel::Error(reason),
        (_, _, _, Err(reason)) => EventModel::Error(reason),
    }
}

/// The outcome of a device operation.
#[derive(Debug)]
pub enum Outcome {
    /// The device was opened, or could not be, for the reason given.
    Opened(Result<(), String>),
    /// A read returned these bytes; none on a timeout or a failure.
    Read(Vec<u8>),
    /// The next queued command, if there was one.
    Queued(Option<Command>),
    /// A write took this many bytes, or failed for the reason given.
    Written(Result<usize, String>),
    /// DTR or RTS was set, or could not be.
    LineSet(Result<(), String>),
    /// Each of the four pins was read, or could not be.
    Pins(PinReadings),
    /// The pause has passed.
    Slept,
}

/// What an outcome holds.
pub enum OutcomeModel {
    Opened(Result<(), Seq<char>>),
    Read(Seq<u8>),
    Queued(Option<CommandModel>),
    Written(Result<usize, Seq<char>>),
    LineSet(Result<(), Seq<char>>),
    Pins(PinReadingsModel),
    Slept,
}

impl View for Outcome {
    type V = OutcomeModel;

    open spec fn view(&self) -> OutcomeModel {
        match *self {
            Outcome::Opened(Ok(_)) => OutcomeModel::Opened(Ok(())),
            Outcome::Opened(Err(reason)) => OutcomeModel::Opened(Err(reason@)),
            Outcome::Read(data) => OutcomeModel::Read(data@),
            Outcome::Queued(Some(command)) => OutcomeModel::Queued(Some(command@)),
            Outcome::Queued(None) => OutcomeModel::Queued(None),
            Outcome::Written(Ok(count)) => OutcomeModel::Written(Ok(count)),
            Outcome::Written(Err(reason)) => OutcomeModel::Written(Err(reason@)),
            Outcome::LineSet(Ok(_)) => OutcomeModel::LineSet(Ok(())),
            Outcome::LineSet(Err(reason)) => OutcomeModel::LineSet(Err(reason@)),
            Outcome::Pins(readings) => OutcomeModel::Pins(readings@),
            Outcome::Slept => OutcomeModel::Slept,
        }
    }
}

/// What a step decides: the actor's new state, the events to report, in
/// order, and the operation to perform next.
pub struct StepModel {
    pub state: ActorState,
    pub events: Seq<EventModel>,
    pub action: ActionModel,
}

/// The operation whose outcome a state waits for.
pub open spec fn awaited(state: ActorState) -> ActionModel {
    match state {
        ActorState::Opening => ActionModel::Open,
        ActorState::Reading => ActionModel::Read,
        ActorState::Draining => ActionModel::NextCommand,
        ActorState::Sleeping => ActionModel::Sleep,
        ActorState::Closed => ActionModel::Stop,
        // The operand of these is gone; the queue is asked again.
        ActorState::Writing => ActionModel::NextCommand,
        ActorState::SettingLine => ActionModel::NextCommand,
        ActorState::ReadingPins => ActionModel::NextCommand,
    }
}

/// The state in which an operation's outcome is awaited.
pub open spec fn awaiting(action: ActionModel) -> ActorState {
    match action {
        ActionModel::Open => ActorState::Opening,
        ActionModel::Read => ActorState::Reading,
        ActionModel::NextCommand => ActorState::Draining,
        ActionModel::Write(_) => ActorState::Writing,
        ActionModel::SetDtr(_) => ActorState::SettingLine,
        ActionModel::SetRts(_) => ActorState::SettingLine,
        ActionModel::ReadPins => ActorState::ReadingPins,
        ActionModel::Sleep => ActorState::Sleeping,
        ActionModel::Stop => ActorState::Closed,
    }
}

/// The text of the error that reports a failed open.
pub open spec fn open_failure(reason: Seq<char>) -> Seq<char> {
    "open failed: "@ + reason
}

/// A step that reports `events` and goes on with `action`.
pub open spec fn go(events: Seq<EventModel>, action: ActionModel) -> StepModel {
    StepModel { state: awaiting(action), events, action }
}

/// The step taken in `state` on `outcome`, for the port called `port_name`.
///
/// After a successful open the actor polls: it reads, reports what came,
/// works off the queued commands one by one, pauses, and reads again. A
/// failed open is reported as an error and ends the actor, as does the
/// command to close; any other failure is reported and polling goes on. An
/// outcome that the state does not wait for is passed over without an
/// event, and an actor that has ended stays so.
pub open spec fn step_of(state: ActorState, port_name: Seq<char>, outcome: OutcomeModel)
    -> StepModel {
    match (state, outcome) {
        (ActorState::Opening, OutcomeModel::Opened(Ok(_))) => go(
            seq![EventModel::Opened(port_name)],
            ActionModel::Read,
        ),
        (ActorState::Opening, OutcomeModel::Opened(Err(reason))) => go(
            seq![EventModel::Error(open_failure(reason)), EventModel::Closed],
            ActionModel::Stop,
        ),
        (ActorState::Reading, OutcomeModel::Read(data)) => go(
            if data.len() > 0 {
                seq![EventModel::Rx(data)]
            } else {
                Seq::empty()
            },
            ActionModel::NextCommand,
        ),
        (ActorState::Draining, OutcomeModel::Queued(None)) => go(Seq::empty(), ActionModel::Sleep),
        (ActorState::Draining, OutcomeModel::Queued(Some(CommandModel::Send(data)))) => go(
            Seq::empty(),
            ActionModel::Write(data),
        ),
        (ActorState::Draining, OutcomeModel::Queued(Some(CommandModel::SetDtr(level)))) => go(
            Seq::empty(),
            ActionModel::SetDtr(level),
        ),
        (ActorState::Draining, OutcomeModel::Queued(Some(CommandModel::SetRts(level)))) => go(
            Seq::empty(),
            ActionModel::SetRts(level),
        ),
        (ActorState::Draining, OutcomeModel::Queued(Some(CommandModel::GetPinStates))) => go(
            Seq::empty(),
            ActionModel::ReadPins,
        ),
        (ActorState::Draining, OutcomeModel::Queued(Some(CommandModel::Close))) => go(
            seq![EventModel::Closed],
            ActionModel::Stop,
        ),
        (ActorState::Writing, OutcomeModel::Written(Ok(count))) => go(
            seq![EventModel::Tx(count)],
            ActionModel::NextCommand,
        ),
        (ActorState::Writing, OutcomeModel::Written(Err(reason))) => go(
            seq![EventModel::Error(reason)],
            ActionModel::NextCommand,
        ),
        (ActorState::SettingLine, OutcomeModel::LineSet(Ok(_))) => go(
            Seq::empty(),
            ActionModel::NextCommand,
        ),
        (ActorState::SettingLine, OutcomeModel::LineSet(Err(reason))) => go(
            seq![EventModel::Error(reason)],
            ActionModel::NextCommand,
        ),
        (ActorState::ReadingPins, OutcomeModel::Pins(readings)) => go(
            seq![pins_event(readings)],
            ActionModel::NextCommand,
        ),
        (ActorState::Sleeping, OutcomeModel::Slept) => go(Seq::empty(), ActionModel::Read),
        _ => go(Seq::empty(), awaited(state)),
    }
}

/// The state of an actor that started in `state` and has taken a step on
/// each of `outcomes`, in order.
pub open spec fn state_after(state: ActorState, port_name: Seq<char>, outcomes: Seq<OutcomeModel>)
    -> ActorState
    decreases outcomes.len(),
{
    if outcomes.len() == 0 {
        state
    } else {
        step_of(
            state_after(state, port_name, outcomes.drop_last()),
            port_name,
            outcomes.last(),
        ).state
    }
}

/// The events that an actor that started in `state` has reported over its
/// steps on `outcomes`, in order.
pub open spec fn reported(state: ActorState, port_name: Seq<char>, outcomes: Seq<OutcomeModel>)
    -> Seq<EventModel>
    decreases outcomes.len(),
{
    if outcomes.len() == 0 {
        Seq::empty()
    } else {
        reported(state, port_name, outcomes.drop_last()) + step_of(
            state_after(state, port_name, outcomes.drop_last()),
            port_name,
            outcomes.last(),
        ).events
    }
}

/// An actor that has ended stays ended and reports nothing more, whatever
/// it is handed.
pub proof fn lemma_closed_is_final(port_name: Seq<char>, outcomes: Seq<OutcomeModel>)
    ensures
        state_after(ActorState::Closed, port_name, outcomes) == ActorState::Closed,
        reported(ActorState::Closed, port_name, outcomes) == Seq::<EventModel>::empty(),
    decreases outcomes.len(),
{
    if outcomes.len() > 0 {
        lemma_closed_is_final(port_name, outcomes.drop_last());
    }
}

/// Over its whole life an actor reports `Closed` at most once, and nothing
/// after it: a `Closed` among the events is the last of them, and the actor
/// has then ended. An actor that was running and has ended did report it.
pub proof fn lemma_closed_once(state: ActorState, port_name: Seq<char>, outcomes: Seq<OutcomeModel>)
    requires
        state != ActorState::Closed,
    ensures
        forall|i: int|
            0 <= i < reported(state, port_name, outcomes).len() && #[trigger] reported(
                state,
                port_name,
                outcomes,
            )[i] == EventModel::Closed ==> i == reported(state, port_name, outcomes).len() - 1,
        state_after(state, port_name, outcomes) == ActorState::Closed <==> reported(
            state,
            port_name,
            outcomes,
        ).len() > 0 && reported(state, port_name, outcomes).last() == EventModel::Closed,
    decreases outcomes.len(),
{
    if outcomes.len() > 0 {
        let earlier = outcomes.drop_last();
        lemma_closed_once(state, port_name, earlier);
        let old_events = reported(state, port_name, earlier);
        if state_after(state, port_name, earlier) != ActorState::Closed {
            assert forall|i: int| 0 <= i < old_events.len() implies old_events[i]
                != EventModel::Closed by {}
        }
    }
}

/// A port that cannot be opened yields one error, then `Closed`, and nothing
/// else, neither before nor after: in particular neither `Opened` nor `Rx`.
pub proof fn lemma_open_failure(
    port_name: Seq<char>,
    reason: Seq<char>,
    outcomes: Seq<OutcomeModel>,
)
    requires
        outcomes.len() > 0,
        outcomes[0] == OutcomeModel::Opened(Err::<(), Seq<char>>(reason)),
    ensures
        reported(ActorState::Opening, port_name, outcomes) == seq![
            EventModel::Error(open_failure(reason)),
            EventModel::Closed,
        ],
        state_after(ActorState::Opening, port_name, outcomes) == ActorState::Closed,
    decreases outcomes.len(),
{
    let earlier = outcomes.drop_last();
    if earlier.len() == 0 {
        assert(reported(ActorState::Opening, port_name, earlier) =~= Seq::<EventModel>::empty());
    } else {
        lemma_open_failure(port_name, reason, earlier);
    }
}

/// What an actor holds: what it waits for, and the name of its port.
pub struct ActorModel {
    pub state: ActorState,
    pub port_name: Seq<char>,
}

/// The decisions of one port actor.
pub struct Actor {
    state: ActorState,
    port_name: String,
}

impl View for Actor {
    type V = ActorModel;

    closed spec fn view(&self) -> ActorModel {
        ActorModel { state: self.state, port_name: self.port_name@ }
    }
}

/// What the driver is to do after a step: report the events, in order, then
/// perform the action.
#[derive(Debug)]
pub struct Reaction {
    pub events: Vec<SerialEvent>,
    pub action: Action,
}

impl Actor {
    /// An actor for the port called `port_name`, about to open it.
    pub fn new(port_name: String) -> (actor: Actor)
        ensures
            actor@ == (ActorModel { state: ActorState::Opening, port_name: port_name@ }),
    {
        Actor { state: ActorState::Opening, port_name }
    }

    /// What the actor is waiting for.
    pub fn state(&self) -> (state: ActorState)
        ensures
            state == self@.state,
    {
        self.state
    }

    /// Whether the actor has ended.
    pub fn is_closed(&self) -> (closed: bool)
        ensures
            closed == (self@.state == ActorState::Closed),
    {
        match self.state {
            ActorState::Closed => true,
            _ => false,
        }
    }

    /// Takes the outcome of the operation that was asked for last and decides
    /// what is reported and what is done next.
    pub fn step(&mut self, outcome: Outcome) -> (reaction: Reaction)
        ensures
            final(self)@.port_name == old(self)@.port_name,
            final(self)@.state == step_of(old(self)@.state, old(self)@.port_name, outcome@).state,
            reaction.events.deep_view() == step_of(
                old(self)@.state,
                old(self)@.port_name,
                outcome@,
            ).events,
            reaction.action@ == step_of(old(self)@.state, old(self)@.port_name, outcome@).action,
    {
        let mut events: Vec<SerialEvent> = Vec::new();
        let action = match (self.state, outcome) {
            (ActorState::Opening, Outcome::Opened(Ok(_))) => {
                events.push(SerialEvent::Opened(self.port_name.clone()));
                Action::Read
            },
            (ActorState::Opening, Outcome::Opened(Err(reason))) => {
                let mut message = "open failed: ".to_owned();
                message.append(reason.as_str());
                events.push(SerialEvent::Error(message));
                events.push(SerialEvent::Closed);
                Action::Stop
            },
            (ActorState::Reading, Outcome::Read(data)) => {
                if data.len() > 0 {
                    events.push(SerialEvent::Rx(data));
                }
                Action::NextCommand
            },
            (ActorState::Draining, Outcome::Queued(None)) => Action::Sleep,
            (ActorState::Draining, Outcome::Queued(Some(Command::Send(data)))) => Action::Write(
                data,
            ),
            (ActorState::Draining, Outcome::Queued(Some(Command::SetDtr(level)))) => {
                Action::SetDtr(level)
            },
            (ActorState::Draining, Outcome::Queued(Some(Command::SetRts(level)))) => {
                Action::SetRts(level)
            },
            (ActorState::Draining, Outcome::Queued(Some(Command::GetPinStates))) => {
                Action::ReadPins
            },
            (ActorState::Draining, Outcome::Queued(Some(Command::Close))) => {
                events.push(SerialEvent::Closed);
                Action::Stop
            },
            (ActorState::Writing, Outcome::Written(Ok(count))) => {
                events.push(SerialEvent::Tx(count));
                Action::NextCommand
            },
            (ActorState::Writing, Outcome::Written(Err(reason))) => {
                events.push(SerialEvent::Error(reason));
                Action::NextCommand
            },
            (ActorState::SettingLine, Outcome::LineSet(Ok(_))) => Action::NextCommand,
            (ActorState::SettingLine, Outcome::LineSet(Err(reason))) => {
                events.push(SerialEvent::Error(reason));
                Action::NextCommand
            },
            (ActorState::ReadingPins, Outcome::Pins(readings)) => {
                let PinReadings { cts, dsr, dcd, ri } = readings;
                let event = match (cts, dsr, dcd, ri) {
                    (Ok(cts), Ok(dsr), Ok(dcd), Ok(ri)) => SerialEvent::PinStates(
                        PinStates { cts, dsr, dcd, ri },
                    ),
                    (Err(reason), _, _, _) => SerialEvent::Error(reason),
                    (_, Err(reason), _, _) => SerialEvent::Error(reason),
                    (_, _, Err(reason), _) => SerialEvent::Error(reason),
                    (_, _, _, Err(reason)) => SerialEvent::Error(reason),
                };
                events.push(event);
                Action::NextCommand
            },
            (ActorState::Sleeping, Outcome::Slept) => Action::Read,
            (state, _) => match state {
                ActorState::Opening => Action::Open,
                ActorState::Reading => Action::Read,
                ActorState::Sleeping => Action::Sleep,
                ActorState::Closed => Action::Stop,
                _ => Action::NextCommand,
            },
        };
        self.state = match &action {
            Action::Open => ActorState::Opening,
            Action::Read => ActorState::Reading,
            Action::NextCommand => ActorState::Draining,
            Action::Write(_) => ActorState::Writing,
            Action::SetDtr(_) => ActorState::SettingLine,
            Action::SetRts(_) => ActorState::SettingLine,
            Action::ReadPins => ActorState::ReadingPins,
            Action::Sleep => ActorState::Sleeping,
            Action::Stop => ActorState::Closed,
        };
        Reaction { events, action }
    }
}

} // verus!
