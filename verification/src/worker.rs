//! The bridge between the frame loop and the network task.
//!
//! The network task owns the socket. It takes commands from the frame loop
//! over one bounded channel and reports events over another. What the task
//! does on each thing that can happen to it is decided here; the waiting and
//! the socket are the caller's.

use vstd::prelude::*;
use tokio::sync::mpsc::{Receiver, Sender};
use tokio::sync::mpsc::error::TrySendError;
use crate::glue::PeerUUID;
use crate::peers::PeerStatus;

verus! {

/// How many commands the channel to the network task holds.
pub const MAIN_TO_WORKER_BUFFER_SIZE: usize = 100;

/// How many events the channel to the frame loop holds.
pub const WORKER_TO_MAIN_BUFFER_SIZE: usize = 1000;

/// The time between two polls of the socket, in milliseconds.
pub const SOCKET_UPDATE_INTERVAL_MS: u64 = 50;

/// How often the transport tries to connect again before it gives up.
pub const RECONNECT_ATTEMPTS: u16 = 3;

/// What the frame loop tells the network task.
#[derive(Debug, Clone, PartialEq, Eq)]
pub enum MainToWorkerMsg {
    /// A frame has ended: look at the socket.
    Tick,
    /// The session ends.
    Shutdown,
    /// Send the bytes to the peer.
    SendMessage(PeerUUID, Vec<u8>),
}

/// What the network task tells the frame loop.
#[derive(Debug, Clone, PartialEq, Eq)]
pub enum WorkerToMainMsg {
    PeerConnected(PeerUUID),
    PeerDisconnected(PeerUUID),
    MessageReceived(PeerUUID, Vec<u8>),
    /// The connection could not be made. Nothing follows.
    ConnectionFailed,
    /// The connection was lost. Nothing follows.
    Disconnected,
}

/// The sending half of a bounded channel.
#[verifier::external_type_specification]
#[verifier::external_body]
#[verifier::reject_recursive_types(T)]
pub struct ExSender<T>(tokio::sync::mpsc::Sender<T>);

/// The receiving half of a bounded channel.
#[verifier::external_type_specification]
#[verifier::external_body]
#[verifier::reject_recursive_types(T)]
pub struct ExReceiver<T>(tokio::sync::mpsc::Receiver<T>);

/// What became of a message that was offered to a channel without waiting.
#[derive(Debug, Clone, Copy, PartialEq, Eq, Structural)]
pub enum Offer {
    /// The channel took it.
    Taken,
    /// The channel is full. The message is gone.
    Full,
    /// The other end of the channel is gone, and so is the message.
    Closed,
}

/// `tokio::sync::mpsc::channel`: the two halves of a new channel that holds
/// up to `capacity` messages. The call panics for a capacity of zero and for
/// one above `usize::MAX >> 3`, so both are left out. Nothing is said of the
/// halves.
#[verifier::external_body]
fn bounded_channel<T>(capacity: usize) -> (halves: (Sender<T>, Receiver<T>))
    requires
        0 < capacity <= usize::MAX / 8,
{
    tokio::sync::mpsc::channel(capacity)
}

/// `Sender::try_send`: offers the message without waiting. Which of the
/// three outcomes it is depends on the channel, so nothing is said of it.
#[verifier::external_body]
fn offer<T>(sender: &Sender<T>, message: T) -> (outcome: Offer) {
    match sender.try_send(message) {
        Ok(()) => Offer::Taken,
        Err(TrySendError::Full(_)) => Offer::Full,
        Err(TrySendError::Closed(_)) => Offer::Closed,
    }
}

/// `Receiver::try_recv`: the next message, if one is waiting. Whether one is
/// depends on the channel, so nothing is said of it.
#[verifier::external_body]
fn poll<T>(receiver: &mut Receiver<T>) -> (message: Option<T>) {
    receiver.try_recv().ok()
}

/// What became of a command of the frame loop.
#[derive(Debug, Clone, Copy, PartialEq, Eq, Structural)]
pub enum SendOutcome {
    /// The network task will see it.
    Sent,
    /// There is no network task: the command was dropped in silence.
    NotInitialized,
    /// The network task is gone.
    WorkerGone,
    /// The channel to the network task is full.
    QueueFull,
}

impl SendOutcome {
    /// What an offer to the channel means to the frame loop.
    pub open spec fn of_offer(offer: Offer) -> SendOutcome {
        match offer {
            Offer::Taken => SendOutcome::Sent,
            Offer::Full => SendOutcome::QueueFull,
            Offer::Closed => SendOutcome::WorkerGone,
        }
    }

    /// What an offer to the channel means to the frame loop.
    pub fn from_offer(offer: Offer) -> (outcome: SendOutcome)
        ensures
            outcome == SendOutcome::of_offer(offer),
    {
        match offer {
            Offer::Taken => SendOutcome::Sent,
            Offer::Full => SendOutcome::QueueFull,
            Offer::Closed => SendOutcome::WorkerGone,
        }
    }

    /// The line to log for the outcome. The frame loop goes on in each case:
    /// a command that could not be sent never stops it.
    pub open spec fn spec_complaint(self) -> Option<Seq<char>> {
        match self {
            SendOutcome::Sent => None,
            SendOutcome::NotInitialized => None,
            SendOutcome::WorkerGone => Some("Worker thread has disconnected"@),
            SendOutcome::QueueFull => Some(
                "Ran out of space consider increasing MAIN_TO_WORKER_BUFFER_SIZE if required."@,
            ),
        }
    }

    /// The line to log for the outcome, if there is one.
    pub fn complaint(self) -> (line: Option<&'static str>)
        ensures
            line is Some <==> self.spec_complaint() is Some,
            line is Some ==> line.unwrap()@ == self.spec_complaint().unwrap(),
    {
        match self {
            SendOutcome::Sent => None,
            SendOutcome::NotInitialized => None,
            SendOutcome::WorkerGone => Some("Worker thread has disconnected"),
            SendOutcome::QueueFull => Some(
                "Ran out of space consider increasing MAIN_TO_WORKER_BUFFER_SIZE if required.",
            ),
        }
    }
}

/// The ends of the two channels that the frame loop holds, if there is a
/// network task.
pub struct MainEndpoint {
    commands: Option<Sender<MainToWorkerMsg>>,
    events: Option<Receiver<WorkerToMainMsg>>,
}

/// The ends of the two channels that the network task holds.
pub struct WorkerEndpoint {
    pub commands: Receiver<MainToWorkerMsg>,
    pub events: Sender<WorkerToMainMsg>,
}

/// What it takes to start the network task.
pub struct Bridge {
    pub main: MainEndpoint,
    pub worker: WorkerEndpoint,
    /// The room to join.
    pub room_url: String,
}

impl MainEndpoint {
    /// There is a network task to talk to.
    pub closed spec fn connected(&self) -> bool {
        self.commands is Some && self.events is Some
    }

    /// The frame loop of a session without a network task.
    pub fn detached() -> (endpoint: MainEndpoint)
        ensures
            !endpoint.connected(),
    {
        MainEndpoint { commands: None, events: None }
    }

    /// Whether there is a network task to talk to.
    pub fn is_connected(&self) -> (b: bool)
        ensures
            b == self.connected(),
    {
        self.commands.is_some() && self.events.is_some()
    }

    /// Offers a command to the network task without waiting. Without a
    /// network task the command is dropped.
    pub fn send_message(&self, msg: MainToWorkerMsg) -> (outcome: SendOutcome)
        ensures
            outcome == SendOutcome::NotInitialized <==> !self.connected(),
    {
        if !self.is_connected() {
            return SendOutcome::NotInitialized;
        }
        match &self.commands {
            Some(sender) => SendOutcome::from_offer(offer(sender, msg)),
            None => SendOutcome::NotInitialized,
        }
    }

    /// The events that wait for the frame loop, in the order in which they
    /// were sent, up to `limit` of them. The call does not wait.
    pub fn get_messages(&mut self, limit: usize) -> (messages: Vec<WorkerToMainMsg>)
        ensures
            messages@.len() <= limit,
            !old(self).connected() ==> messages@.len() == 0,
            final(self).connected() == old(self).connected(),
    {
        let mut messages: Vec<WorkerToMainMsg> = Vec::new();
        if !self.is_connected() {
            return messages;
        }
        match &mut self.events {
            Some(receiver) => {
                while messages.len() < limit
                    invariant
                        messages@.len() <= limit,
                    decreases limit - messages@.len(),
                {
                    // A look that finds nothing ends the gathering.
                    let polled = poll(receiver);
                    let more = gather(&mut messages, polled);
                    if !more {
                        break ;
                    }
                }
            },
            None => {},
        }
        messages
    }

    /// Ends the talk with the network task: offers it the command to shut
    /// down and lets go of both channels. A task that the command did not
    /// reach, because the channel was full, finds the channel closed behind
    /// the commands that wait in it, and stops on that.
    pub fn shut_down(&mut self) -> (outcome: SendOutcome)
        ensures
            !final(self).connected(),
            outcome == SendOutcome::NotInitialized <==> !old(self).connected(),
    {
        let outcome = self.send_message(MainToWorkerMsg::Shutdown);
        self.commands = None;
        self.events = None;
        outcome
    }
}

/// Makes the two channels of a session that joins the room `room_url`. A
/// session without a room has no network task.
pub fn init(room_url: Option<String>) -> (bridge: Option<Bridge>)
    ensures
        bridge is Some <==> room_url is Some,
        bridge is Some ==> bridge.unwrap().room_url == room_url.unwrap()
            && bridge.unwrap().main.connected(),
{
    match room_url {
        Some(room_url) => {
            let (commands_in, commands_out) = bounded_channel::<MainToWorkerMsg>(
                MAIN_TO_WORKER_BUFFER_SIZE,
            );
            let (events_in, events_out) = bounded_channel::<WorkerToMainMsg>(
                WORKER_TO_MAIN_BUFFER_SIZE,
            );
            Some(
                Bridge {
                    main: MainEndpoint { commands: Some(commands_in), events: Some(events_out) },
                    worker: WorkerEndpoint { commands: commands_out, events: events_in },
                    room_url,
                },
            )
        },
        None => None,
    }
}

/// How the connection of the transport came to its end.
#[derive(Debug, Clone, Copy, PartialEq, Eq, Structural)]
pub enum TransportEnd {
    /// It was closed in good order.
    Clean,
    /// It could not be made.
    ConnectionFailed,
    /// It was lost.
    Disconnected,
}

/// What can happen to the network task while it waits.
#[derive(Debug, Clone, PartialEq, Eq)]
pub enum WorkerEvent {
    /// The channel of commands gave a command, or, with none, was found
    /// closed and empty.
    Command(Option<MainToWorkerMsg>),
    /// The timer of the socket fired.
    TimerTick,
    /// The connection of the transport ended.
    TransportEnded(TransportEnd),
}

/// What the network task does next.
#[derive(Debug, Clone, PartialEq, Eq)]
pub enum WorkerAction {
    /// Hand the bytes to the socket for the peer. Nothing confirms that they
    /// arrive.
    SendToPeer(PeerUUID, Vec<u8>),
    /// Ask the socket for changed peers and for packets, and report them.
    PollSocket,
    /// Leave the loop, after reporting the event given, if one is.
    Stop(Option<WorkerToMainMsg>),
}

/// Whether the network task is still in its loop.
#[derive(Debug, Clone, Copy, PartialEq, Eq, Structural)]
pub enum WorkerState {
    Running,
    Stopped,
}

/// What the network task does on an event. The end of the transport is
/// reported before the task leaves, whether the transport was closed in good
/// order or not.
pub open spec fn step(event: WorkerEvent) -> WorkerAction {
    match event {
        WorkerEvent::Command(Some(MainToWorkerMsg::SendMessage(peer, bytes))) => {
            WorkerAction::SendToPeer(peer, bytes)
        },
        WorkerEvent::Command(Some(MainToWorkerMsg::Tick)) => WorkerAction::PollSocket,
        WorkerEvent::Command(Some(MainToWorkerMsg::Shutdown)) => WorkerAction::Stop(None),
        WorkerEvent::Command(None) => WorkerAction::Stop(None),
        WorkerEvent::TimerTick => WorkerAction::PollSocket,
        WorkerEvent::TransportEnded(TransportEnd::Clean) => WorkerAction::Stop(
            Some(WorkerToMainMsg::Disconnected),
        ),
        WorkerEvent::TransportEnded(TransportEnd::ConnectionFailed) => WorkerAction::Stop(
            Some(WorkerToMainMsg::ConnectionFailed),
        ),
        WorkerEvent::TransportEnded(TransportEnd::Disconnected) => WorkerAction::Stop(
            Some(WorkerToMainMsg::Disconnected),
        ),
    }
}

/// The state after an event, and what is done on it: a task that has
/// stopped does nothing and stays stopped.
pub open spec fn advance(state: WorkerState, event: WorkerEvent) -> (WorkerState, Option<
    WorkerAction,
>) {
    match state {
        WorkerState::Stopped => (WorkerState::Stopped, None),
        WorkerState::Running => {
            let action = step(event);
            if action is Stop {
                (WorkerState::Stopped, Some(action))
            } else {
                (WorkerState::Running, Some(action))
            }
        },
    }
}

/// The state after a run of events.
pub open spec fn state_after(state: WorkerState, events: Seq<WorkerEvent>) -> WorkerState
    decreases events.len(),
{
    if events.len() == 0 {
        state
    } else {
        advance(state_after(state, events.drop_last()), events.last()).0
    }
}

/// What is done on each event of a run, in order.
pub open spec fn actions_of(state: WorkerState, events: Seq<WorkerEvent>) -> Seq<
    Option<WorkerAction>,
>
    decreases events.len(),
{
    if events.len() == 0 {
        Seq::empty()
    } else {
        actions_of(state, events.drop_last()).push(
            advance(state_after(state, events.drop_last()), events.last()).1,
        )
    }
}

/// What the network task does on an event.
pub fn worker_step(event: WorkerEvent) -> (action: WorkerAction)
    ensures
        action == step(event),
{
    match event {
        WorkerEvent::Command(Some(MainToWorkerMsg::SendMessage(peer, bytes))) => {
            WorkerAction::SendToPeer(peer, bytes)
        },
        WorkerEvent::Command(Some(MainToWorkerMsg::Tick)) => WorkerAction::PollSocket,
        WorkerEvent::Command(Some(MainToWorkerMsg::Shutdown)) => WorkerAction::Stop(None),
        WorkerEvent::Command(None) => WorkerAction::Stop(None),
        WorkerEvent::TimerTick => WorkerAction::PollSocket,
        WorkerEvent::TransportEnded(TransportEnd::Clean) => WorkerAction::Stop(
            Some(WorkerToMainMsg::Disconnected),
        ),
        WorkerEvent::TransportEnded(TransportEnd::ConnectionFailed) => WorkerAction::Stop(
            Some(WorkerToMainMsg::ConnectionFailed),
        ),
        WorkerEvent::TransportEnded(TransportEnd::Disconnected) => WorkerAction::Stop(
            Some(WorkerToMainMsg::Disconnected),
        ),
    }
}

/// Takes one event: moves the state on and returns what is to be done, which
/// is nothing once the task has stopped.
pub fn worker_advance(state: &mut WorkerState, event: WorkerEvent) -> (action: Option<
    WorkerAction,
>)
    ensures
        (*final(state), action) == advance(*old(state), event),
{
    match *state {
        WorkerState::Stopped => None,
        WorkerState::Running => {
            let action = worker_step(event);
            match &action {
                WorkerAction::Stop(_) => {
                    *state = WorkerState::Stopped;
                },
                _ => {},
            }
            Some(action)
        },
    }
}

/// What is ready when the network task looks at what it waits for.
#[derive(Debug, Clone, PartialEq, Eq)]
pub struct PollCycle {
    /// What the channel of commands gives, if it gives anything yet.
    pub command: Option<Option<MainToWorkerMsg>>,
    /// How the transport ended, if it has.
    pub transport: Option<TransportEnd>,
    /// Whether the timer has fired.
    pub timer: bool,
}

/// The event that the task takes from what is ready: a command before the
/// end of the transport, and that before the timer. With nothing ready
/// there is none, and the task waits.
pub open spec fn first_ready(cycle: PollCycle) -> Option<WorkerEvent> {
    match cycle.command {
        Some(command) => Some(WorkerEvent::Command(command)),
        None => match cycle.transport {
            Some(end) => Some(WorkerEvent::TransportEnded(end)),
            None => if cycle.timer {
                Some(WorkerEvent::TimerTick)
            } else {
                None
            },
        },
    }
}

/// The event that the task takes from what is ready.
pub fn select(cycle: PollCycle) -> (event: Option<WorkerEvent>)
    ensures
        event == first_ready(cycle),
{
    match cycle.command {
        Some(command) => Some(WorkerEvent::Command(command)),
        None => match cycle.transport {
            Some(end) => Some(WorkerEvent::TransportEnded(end)),
            None => if cycle.timer {
                Some(WorkerEvent::TimerTick)
            } else {
                None
            },
        },
    }
}

/// What is still ready once the event that the task takes is gone.
pub open spec fn left_ready(cycle: PollCycle) -> PollCycle {
    match cycle.command {
        Some(_) => PollCycle { command: None, ..cycle },
        None => match cycle.transport {
            Some(_) => PollCycle { transport: None, ..cycle },
            None => PollCycle { timer: false, ..cycle },
        },
    }
}

/// Takes the event that goes first out of what is ready, and leaves the rest
/// for the cycles that follow.
pub fn take_ready(cycle: &mut PollCycle) -> (event: Option<WorkerEvent>)
    ensures
        event == first_ready(*old(cycle)),
        *final(cycle) == left_ready(*old(cycle)),
{
    match cycle.command.take() {
        Some(command) => Some(WorkerEvent::Command(command)),
        None => match cycle.transport.take() {
            Some(end) => Some(WorkerEvent::TransportEnded(end)),
            None => {
                let fired = cycle.timer;
                cycle.timer = false;
                if fired {
                    Some(WorkerEvent::TimerTick)
                } else {
                    None
                }
            },
        },
    }
}

/// The end of the transport is always told: whichever way the transport
/// ended, the task stops and the frame loop gets one last event, that the
/// connection failed where it could not be made, and that it is gone where
/// it was closed or lost.
pub proof fn lemma_transport_end_is_reported(end: TransportEnd)
    ensures
        step(WorkerEvent::TransportEnded(end)) == WorkerAction::Stop(
            Some(
                if end == TransportEnd::ConnectionFailed {
                    WorkerToMainMsg::ConnectionFailed
                } else {
                    WorkerToMainMsg::Disconnected
                },
            ),
        ),
        advance(WorkerState::Running, WorkerEvent::TransportEnded(end)).0 == WorkerState::Stopped,
{
}

/// Shutdown wins the race: where the command to shut down is ready, the task
/// stops in that cycle, whatever else is ready with it, and it reports
/// nothing more.
pub proof fn lemma_shutdown_wins(cycle: PollCycle)
    requires
        cycle.command == Some(Some(MainToWorkerMsg::Shutdown)),
    ensures
        first_ready(cycle) is Some,
        step(first_ready(cycle).unwrap()) == WorkerAction::Stop(None),
        advance(WorkerState::Running, first_ready(cycle).unwrap()).0 == WorkerState::Stopped,
{
}

/// Stopping is final: a task that has stopped stays stopped and acts on no
/// event that follows.
pub proof fn lemma_stopped_is_terminal(events: Seq<WorkerEvent>)
    ensures
        state_after(WorkerState::Stopped, events) == WorkerState::Stopped,
        forall|i: int|
            0 <= i < events.len() ==> (#[trigger] actions_of(WorkerState::Stopped, events)[i])
                is None,
        actions_of(WorkerState::Stopped, events).len() == events.len(),
    decreases events.len(),
{
    if events.len() > 0 {
        lemma_stopped_is_terminal(events.drop_last());
    }
}

/// The state and the actions of a run, one event further.
proof fn lemma_run_lengths(state: WorkerState, events: Seq<WorkerEvent>)
    ensures
        actions_of(state, events).len() == events.len(),
    decreases events.len(),
{
    if events.len() > 0 {
        lemma_run_lengths(state, events.drop_last());
    }
}

/// Nothing is processed after a shutdown: in a run of events, once one of
/// them stops the task, no later timer tick polls the socket and no later
/// command sends anything.
pub proof fn lemma_nothing_after_stop(events: Seq<WorkerEvent>, stop: int, later: int)
    requires
        0 <= stop < later < events.len(),
        step(events[stop]) is Stop,
    ensures
        state_after(WorkerState::Running, events) == WorkerState::Stopped,
        actions_of(WorkerState::Running, events).len() == events.len(),
        actions_of(WorkerState::Running, events)[later] is None,
    decreases events.len(),
{
    lemma_run_lengths(WorkerState::Running, events);
    let front = events.drop_last();
    lemma_run_lengths(WorkerState::Running, front);
    lemma_stopped_after(front, stop);
    if later < events.len() - 1 {
        lemma_nothing_after_stop(front, stop, later);
    }
}

/// A run that holds an event that stops the task ends stopped.
proof fn lemma_stopped_after(events: Seq<WorkerEvent>, stop: int)
    requires
        0 <= stop < events.len(),
        step(events[stop]) is Stop,
    ensures
        state_after(WorkerState::Running, events) == WorkerState::Stopped,
    decreases events.len(),
{
    if stop < events.len() - 1 {
        lemma_stopped_after(events.drop_last(), stop);
    }
}

/// The report on one change of a peer.
pub open spec fn peer_report(change: (PeerUUID, PeerStatus)) -> WorkerToMainMsg {
    match change.1 {
        PeerStatus::Connected => WorkerToMainMsg::PeerConnected(change.0),
        PeerStatus::Disconnected => WorkerToMainMsg::PeerDisconnected(change.0),
    }
}

/// The report on one packet.
pub open spec fn packet_report(packet: (PeerUUID, Vec<u8>)) -> WorkerToMainMsg {
    WorkerToMainMsg::MessageReceived(packet.0, packet.1)
}

/// The reports on what one poll of the socket found: first each change of a
/// peer, in the order in which the socket gave them, then each packet, in
/// the order of arrival.
pub open spec fn reports(
    changes: Seq<(PeerUUID, PeerStatus)>,
    packets: Seq<(PeerUUID, Vec<u8>)>,
) -> Seq<WorkerToMainMsg> {
    changes.map_values(|change: (PeerUUID, PeerStatus)| peer_report(change))
        + packets.map_values(|packet: (PeerUUID, Vec<u8>)| packet_report(packet))
}

/// The reports on what one poll of the socket found.
pub fn plan_updates(changes: Vec<(PeerUUID, PeerStatus)>, packets: Vec<(PeerUUID, Vec<u8>)>) -> (msgs:
    Vec<WorkerToMainMsg>)
    ensures
        msgs@ == reports(changes@, packets@),
{
    let mut msgs: Vec<WorkerToMainMsg> = Vec::new();
    let mut i: usize = 0;
    while i < changes.len()
        invariant
            i <= changes@.len(),
            msgs@ == changes@.take(i as int).map_values(
                |change: (PeerUUID, PeerStatus)| peer_report(change),
            ),
        decreases changes@.len() - i,
    {
        let (id, status) = changes[i];
        let msg = match status {
            PeerStatus::Connected => WorkerToMainMsg::PeerConnected(id),
            PeerStatus::Disconnected => WorkerToMainMsg::PeerDisconnected(id),
        };
        msgs.push(msg);
        i = i + 1;
        proof {
            assert(msgs@ =~= changes@.take(i as int).map_values(
                |change: (PeerUUID, PeerStatus)| peer_report(change),
            ));
        }
    }
    proof {
        assert(changes@.take(i as int) =~= changes@);
    }
    let ghost head = msgs@;
    let ghost all = packets@;
    for packet in it: packets
        invariant
            it.seq() == all,
            msgs@ == head + all.take(it.index() as int).map_values(
                |packet: (PeerUUID, Vec<u8>)| packet_report(packet),
            ),
    {
        let (id, bytes) = packet;
        msgs.push(WorkerToMainMsg::MessageReceived(id, bytes));
        proof {
            assert(msgs@ =~= head + all.take(it.index() + 1).map_values(
                |packet: (PeerUUID, Vec<u8>)| packet_report(packet),
            ));
        }
    }
    proof {
        assert(all.take(all.len() as int) =~= all);
    }
    msgs
}

/// What became of the reports of one poll.
#[derive(Debug, Clone, Copy, PartialEq, Eq, Structural)]
pub enum Delivery {
    /// The channel took them all.
    Delivered,
    /// The channel was full: this many reports were dropped, the first that
    /// it did not take and all behind it.
    Dropped(usize),
    /// The frame loop is gone.
    Closed,
}

impl Delivery {
    /// What a delivery means for the task: it goes on unless the frame loop
    /// is gone. A full channel stops nothing.
    pub open spec fn spec_state(self) -> WorkerState {
        match self {
            Delivery::Closed => WorkerState::Stopped,
            _ => WorkerState::Running,
        }
    }

    /// Whether the task goes on after the delivery.
    pub fn state(self) -> (state: WorkerState)
        ensures
            state == self.spec_state(),
    {
        match self {
            Delivery::Closed => WorkerState::Stopped,
            _ => WorkerState::Running,
        }
    }

    /// The line to log for the delivery.
    pub open spec fn spec_complaint(self) -> Option<Seq<char>> {
        match self {
            Delivery::Delivered => None,
            Delivery::Dropped(_) => Some(
                "Ran out of space consider increasing WORKER_TO_MAIN_BUFFER_SIZE if required."@,
            ),
            Delivery::Closed => Some("Main thread has disconnected"@),
        }
    }

    /// The line to log for the delivery, if there is one.
    pub fn complaint(self) -> (line: Option<&'static str>)
        ensures
            line is Some <==> self.spec_complaint() is Some,
            line is Some ==> line.unwrap()@ == self.spec_complaint().unwrap(),
    {
        match self {
            Delivery::Delivered => None,
            Delivery::Dropped(_) => Some(
                "Ran out of space consider increasing WORKER_TO_MAIN_BUFFER_SIZE if required.",
            ),
            Delivery::Closed => Some("Main thread has disconnected"),
        }
    }
}

/// What one offer decides for the delivery: after a report that the channel
/// took, the next one is offered. A full channel ends the delivery with the
/// `left` reports dropped that it had not taken yet, and so does a channel
/// whose other end is gone.
pub open spec fn spec_settle(offer: Offer, left: usize) -> Option<Delivery> {
    match offer {
        Offer::Taken => None,
        Offer::Full => Some(Delivery::Dropped(left)),
        Offer::Closed => Some(Delivery::Closed),
    }
}

/// What one offer decides for the delivery, with `left` reports that the
/// channel had not taken before it: how the delivery ends, or nothing where
/// it goes on.
pub fn settle(offer: Offer, left: usize) -> (end: Option<Delivery>)
    ensures
        end == spec_settle(offer, left),
{
    match offer {
        Offer::Taken => None,
        Offer::Full => Some(Delivery::Dropped(left)),
        Offer::Closed => Some(Delivery::Closed),
    }
}

/// Offers the reports to the frame loop, in order and without waiting, up to
/// the first that the channel does not take.
pub fn deliver(sender: &Sender<WorkerToMainMsg>, msgs: Vec<WorkerToMainMsg>) -> (delivery: Delivery)
    ensures
        msgs@.len() == 0 ==> delivery == Delivery::Delivered,
        delivery matches Delivery::Dropped(n) ==> 0 < n <= msgs@.len(),
{
    let total = msgs.len();
    let ghost all = msgs@;
    let mut taken: usize = 0;
    for msg in it: msgs
        invariant
            it.seq() == all,
            all.len() == total,
            taken == it.index(),
    {
        match settle(offer(sender, msg), total - taken) {
            None => {
                taken = taken + 1;
            },
            Some(end) => {
                return end;
            },
        }
    }
    Delivery::Delivered
}

/// Why the socket could not be polled.
#[derive(Debug, Clone, Copy, PartialEq, Eq, Structural)]
pub enum PollFailure {
    Closed,
    NotFound,
    Taken,
}

impl PollFailure {
    /// The line to log for the failure.
    pub open spec fn spec_message(self) -> Seq<char> {
        match self {
            PollFailure::Closed => "WebRTC channel closed, maybe the room url was invalid"@,
            PollFailure::NotFound => "WebRTC channel not found"@,
            PollFailure::Taken => "WebRTC channel taken, it is no longer on the socket"@,
        }
    }

    /// The line to log for the failure.
    pub fn message(self) -> (line: &'static str)
        ensures
            line@ == self.spec_message(),
    {
        match self {
            PollFailure::Closed => "WebRTC channel closed, maybe the room url was invalid",
            PollFailure::NotFound => "WebRTC channel not found",
            PollFailure::Taken => "WebRTC channel taken, it is no longer on the socket",
        }
    }
}

/// The reports on one poll of the socket: on what it found, or, where the
/// socket could not be polled, the one report that the connection is gone.
pub open spec fn poll_reports(
    changes: Result<Vec<(PeerUUID, PeerStatus)>, PollFailure>,
    packets: Seq<(PeerUUID, Vec<u8>)>,
) -> Seq<WorkerToMainMsg> {
    match changes {
        Ok(changes) => reports(changes@, packets),
        Err(_) => seq![WorkerToMainMsg::Disconnected],
    }
}

/// The reports on one poll of the socket.
pub fn plan_poll(
    changes: Result<Vec<(PeerUUID, PeerStatus)>, PollFailure>,
    packets: Vec<(PeerUUID, Vec<u8>)>,
) -> (msgs: Vec<WorkerToMainMsg>)
    ensures
        msgs@ == poll_reports(changes, packets@),
{
    match changes {
        Ok(changes) => plan_updates(changes, packets),
        Err(_) => {
            let mut last: Vec<WorkerToMainMsg> = Vec::new();
            last.push(WorkerToMainMsg::Disconnected);
            proof {
                assert(last@ =~= seq![WorkerToMainMsg::Disconnected]);
            }
            last
        },
    }
}

/// Reports what one poll of the socket found to the frame loop, and says
/// whether the task goes on. A socket that could not be polled ends the
/// task, which reports the connection as lost; so does a frame loop that is
/// gone. A full channel drops reports and ends nothing.
pub fn process_webrtc_updates(
    sender: &Sender<WorkerToMainMsg>,
    changes: Result<Vec<(PeerUUID, PeerStatus)>, PollFailure>,
    packets: Vec<(PeerUUID, Vec<u8>)>,
) -> (outcome: (WorkerState, Delivery))
    ensures
        outcome.0 == if changes is Err {
            WorkerState::Stopped
        } else {
            outcome.1.spec_state()
        },
        changes is Ok && changes.unwrap()@.len() + packets@.len() == 0 ==> outcome == (
            WorkerState::Running,
            Delivery::Delivered,
        ),
{
    let failed = changes.is_err();
    let delivery = deliver(sender, plan_poll(changes, packets));
    if failed {
        (WorkerState::Stopped, delivery)
    } else {
        (delivery.state(), delivery)
    }
}

/// What one look at the channel makes of the events gathered so far: an
/// event that waited goes behind them, and another may wait behind it. Where
/// none waited they stay as they are, and there is nothing more to gather.
pub open spec fn gathered(so_far: Seq<WorkerToMainMsg>, polled: Option<WorkerToMainMsg>) -> (
    Seq<WorkerToMainMsg>,
    bool,
) {
    match polled {
        Some(event) => (so_far.push(event), true),
        None => (so_far, false),
    }
}

/// Takes in what one look at the channel gave, and says whether to look
/// again.
pub fn gather(events: &mut Vec<WorkerToMainMsg>, polled: Option<WorkerToMainMsg>) -> (more: bool)
    ensures
        (final(events)@, more) == gathered(old(events)@, polled),
{
    match polled {
        Some(event) => {
            events.push(event);
            true
        },
        None => false,
    }
}

} // verus!
