//! The frame loop: what each frame takes in, what it hands to the managed
//! runtime, and what it keeps of the answer.
//!
//! The calls into the managed runtime and into the native library are the
//! caller's. Between them stand the decisions of this module: the events of
//! the network task fold into the table of peers and the messages of the
//! frame, the timestamps move on, and an error of the managed runtime or of
//! the transport becomes the fatal condition that the next frames show.

use vstd::prelude::*;
use vstd::string::*;
use crate::config::{Config, ExitErrCode};
use crate::glue::{PeerMessage, PeerUUID, PlatformState, PlatformTime, RocColor};
use crate::peers::{
    distinct, ids_with, lemma_list_holds_the_peers_of_a_status, lemma_lists_part_the_peers,
    lemma_record_status, record, status_in, PeerEntry, PeerStatus, PeerTable,
};
use crate::worker::{packet_report, peer_report, reports, WorkerToMainMsg};

verus! {

/// The value that stands for the state of the managed application. It is
/// handed to the managed runtime with each frame and replaced by what comes
/// back; after an error there is none.
#[derive(Debug, Clone, Copy, PartialEq, Eq, Structural)]
pub enum FrameModel {
    /// The address that the managed runtime gave.
    Valid(usize),
    /// The managed runtime failed. Nothing is to be handed to it again.
    Invalid,
}

/// How the transport failed.
#[derive(Debug, Clone, Copy, PartialEq, Eq, Structural)]
pub enum TransportFailure {
    ConnectionFailed,
    Disconnected,
}

/// What the events of a frame come to.
pub struct Folded {
    pub peers: Seq<PeerEntry>,
    /// The messages of the peers, in the order of arrival.
    pub messages: Seq<PeerMessage>,
    /// The failure of the transport that was reported last, if one was.
    pub failure: Option<TransportFailure>,
}

/// What one more event makes of what the events before it came to.
pub open spec fn fold_event(so_far: Folded, event: WorkerToMainMsg) -> Folded {
    match event {
        WorkerToMainMsg::PeerConnected(id) => Folded {
            peers: record(so_far.peers, id, PeerStatus::Connected),
            ..so_far
        },
        WorkerToMainMsg::PeerDisconnected(id) => Folded {
            peers: record(so_far.peers, id, PeerStatus::Disconnected),
            ..so_far
        },
        WorkerToMainMsg::MessageReceived(id, bytes) => Folded {
            messages: so_far.messages.push(PeerMessage { bytes, id }),
            ..so_far
        },
        WorkerToMainMsg::ConnectionFailed => Folded {
            failure: Some(TransportFailure::ConnectionFailed),
            ..so_far
        },
        WorkerToMainMsg::Disconnected => Folded {
            failure: Some(TransportFailure::Disconnected),
            ..so_far
        },
    }
}

/// What the events come to, taken in the order in which they were received.
pub open spec fn fold_events(start: Folded, events: Seq<WorkerToMainMsg>) -> Folded
    decreases events.len(),
{
    if events.len() == 0 {
        start
    } else {
        fold_event(fold_events(start, events.drop_last()), events.last())
    }
}

/// What a frame starts from: the peers known so far, no message, no failure.
pub open spec fn frame_start(peers: Seq<PeerEntry>) -> Folded {
    Folded { peers, messages: Seq::empty(), failure: None }
}

/// The events of a frame keep the table of peers distinct, and each message
/// of the frame comes from one event.
pub proof fn lemma_fold_keeps_peers_distinct(start: Folded, events: Seq<WorkerToMainMsg>)
    requires
        distinct(start.peers),
    ensures
        distinct(fold_events(start, events).peers),
        fold_events(start, events).messages.len() <= start.messages.len() + events.len(),
        fold_events(start, events).peers.len() <= start.peers.len() + events.len(),
    decreases events.len(),
{
    if events.len() > 0 {
        let before = fold_events(start, events.drop_last());
        lemma_fold_keeps_peers_distinct(start, events.drop_last());
        match events.last() {
            WorkerToMainMsg::PeerConnected(id) => {
                crate::peers::lemma_record(before.peers, id, PeerStatus::Connected);
            },
            WorkerToMainMsg::PeerDisconnected(id) => {
                crate::peers::lemma_record(before.peers, id, PeerStatus::Disconnected);
            },
            _ => {},
        }
    }
}

/// Folding is done event by event: the events of two batches, one after the
/// other, come to what the second batch makes of what the first came to.
pub proof fn lemma_fold_in_batches(
    start: Folded,
    first: Seq<WorkerToMainMsg>,
    second: Seq<WorkerToMainMsg>,
)
    ensures
        fold_events(start, first + second) == fold_events(fold_events(start, first), second),
    decreases second.len(),
{
    if second.len() == 0 {
        assert(first + second =~= first);
    } else {
        lemma_fold_in_batches(start, first, second.drop_last());
        assert((first + second).drop_last() =~= first + second.drop_last());
    }
}

/// The peers after the changes were recorded one after the other.
pub open spec fn record_all(entries: Seq<PeerEntry>, changes: Seq<(PeerUUID, PeerStatus)>) -> Seq<
    PeerEntry,
>
    decreases changes.len(),
{
    if changes.len() == 0 {
        entries
    } else {
        record(record_all(entries, changes.drop_last()), changes.last().0, changes.last().1)
    }
}

/// The message that a packet becomes.
pub open spec fn message_of(packet: (PeerUUID, Vec<u8>)) -> PeerMessage {
    PeerMessage { bytes: packet.1, id: packet.0 }
}

/// The reports on changed peers fold into the peers and into nothing else.
proof fn lemma_fold_peer_reports(start: Folded, changes: Seq<(PeerUUID, PeerStatus)>)
    ensures
        fold_events(
            start,
            changes.map_values(|change: (PeerUUID, PeerStatus)| peer_report(change)),
        ) == (Folded { peers: record_all(start.peers, changes), ..start }),
    decreases changes.len(),
{
    let events = changes.map_values(|change: (PeerUUID, PeerStatus)| peer_report(change));
    if changes.len() > 0 {
        lemma_fold_peer_reports(start, changes.drop_last());
        assert(events.drop_last() =~= changes.drop_last().map_values(
            |change: (PeerUUID, PeerStatus)| peer_report(change),
        ));
        assert(events.last() == peer_report(changes.last()));
    }
}

/// The reports on packets fold into the messages and into nothing else.
proof fn lemma_fold_packet_reports(start: Folded, packets: Seq<(PeerUUID, Vec<u8>)>)
    ensures
        fold_events(
            start,
            packets.map_values(|packet: (PeerUUID, Vec<u8>)| packet_report(packet)),
        ) == (Folded {
            messages: start.messages + packets.map_values(
                |packet: (PeerUUID, Vec<u8>)| message_of(packet),
            ),
            ..start
        }),
    decreases packets.len(),
{
    let events = packets.map_values(|packet: (PeerUUID, Vec<u8>)| packet_report(packet));
    let messages = packets.map_values(|packet: (PeerUUID, Vec<u8>)| message_of(packet));
    if packets.len() > 0 {
        lemma_fold_packet_reports(start, packets.drop_last());
        assert(events.drop_last() =~= packets.drop_last().map_values(
            |packet: (PeerUUID, Vec<u8>)| packet_report(packet),
        ));
        assert(events.last() == packet_report(packets.last()));
        assert(start.messages + messages =~= (start.messages + packets.drop_last().map_values(
            |packet: (PeerUUID, Vec<u8>)| message_of(packet),
        )).push(message_of(packets.last())));
    } else {
        assert(start.messages + messages =~= start.messages);
    }
}

/// What the network task reports of one poll arrives in order and parts
/// into peers and messages: the changes are recorded one after the other,
/// each packet becomes a message behind those that were there, in the order
/// of the packets, and no failure is made of them.
pub proof fn lemma_reports_part_into_peers_and_messages(
    start: Folded,
    changes: Seq<(PeerUUID, PeerStatus)>,
    packets: Seq<(PeerUUID, Vec<u8>)>,
)
    ensures
        fold_events(start, reports(changes, packets)) == (Folded {
            peers: record_all(start.peers, changes),
            messages: start.messages + packets.map_values(
                |packet: (PeerUUID, Vec<u8>)| message_of(packet),
            ),
            failure: start.failure,
        }),
{
    let first = changes.map_values(|change: (PeerUUID, PeerStatus)| peer_report(change));
    let second = packets.map_values(|packet: (PeerUUID, Vec<u8>)| packet_report(packet));
    lemma_fold_in_batches(start, first, second);
    lemma_fold_peer_reports(start, changes);
    lemma_fold_packet_reports(fold_events(start, first), packets);
}

/// The messages that the events carry, in the order of the events.
pub open spec fn payloads(events: Seq<WorkerToMainMsg>) -> Seq<PeerMessage>
    decreases events.len(),
{
    if events.len() == 0 {
        Seq::empty()
    } else {
        match events.last() {
            WorkerToMainMsg::MessageReceived(id, bytes) => payloads(events.drop_last()).push(
                PeerMessage { bytes, id },
            ),
            _ => payloads(events.drop_last()),
        }
    }
}

/// What an event says of the peer `id`, if it speaks of that peer.
pub open spec fn report_on(event: WorkerToMainMsg, id: PeerUUID) -> Option<PeerStatus> {
    match event {
        WorkerToMainMsg::PeerConnected(peer) => if peer == id {
            Some(PeerStatus::Connected)
        } else {
            None
        },
        WorkerToMainMsg::PeerDisconnected(peer) => if peer == id {
            Some(PeerStatus::Disconnected)
        } else {
            None
        },
        _ => None,
    }
}

/// What the events say last of the peer `id`, if they speak of it at all.
pub open spec fn last_report(events: Seq<WorkerToMainMsg>, id: PeerUUID) -> Option<PeerStatus>
    decreases events.len(),
{
    if events.len() == 0 {
        None
    } else {
        match report_on(events.last(), id) {
            Some(status) => Some(status),
            None => last_report(events.drop_last(), id),
        }
    }
}

/// The failure of the transport that the events report last, if they report
/// one.
pub open spec fn last_failure(events: Seq<WorkerToMainMsg>) -> Option<TransportFailure>
    decreases events.len(),
{
    if events.len() == 0 {
        None
    } else {
        match events.last() {
            WorkerToMainMsg::ConnectionFailed => Some(TransportFailure::ConnectionFailed),
            WorkerToMainMsg::Disconnected => Some(TransportFailure::Disconnected),
            _ => last_failure(events.drop_last()),
        }
    }
}

/// What the events of a frame come to, said of the events themselves: the
/// messages are the payloads of the events that carry one, in their order,
/// behind those that were there. Of each peer the table holds what the
/// events say of it last, and what it held before where they do not speak
/// of the peer. The failure is the one reported last.
pub proof fn lemma_fold_is_what_the_events_say(
    start: Folded,
    events: Seq<WorkerToMainMsg>,
    id: PeerUUID,
)
    ensures
        fold_events(start, events).messages == start.messages + payloads(events),
        status_in(fold_events(start, events).peers, id) == match last_report(events, id) {
            Some(status) => Some(status),
            None => status_in(start.peers, id),
        },
        fold_events(start, events).failure == match last_failure(events) {
            Some(failure) => Some(failure),
            None => start.failure,
        },
    decreases events.len(),
{
    if events.len() == 0 {
        assert(start.messages + payloads(events) =~= start.messages);
    } else {
        let before = fold_events(start, events.drop_last());
        lemma_fold_is_what_the_events_say(start, events.drop_last(), id);
        match events.last() {
            WorkerToMainMsg::PeerConnected(peer) => {
                lemma_record_status(before.peers, peer, PeerStatus::Connected, id);
            },
            WorkerToMainMsg::PeerDisconnected(peer) => {
                lemma_record_status(before.peers, peer, PeerStatus::Disconnected, id);
            },
            WorkerToMainMsg::MessageReceived(from, bytes) => {
                assert(start.messages + payloads(events) =~= (start.messages + payloads(
                    events.drop_last(),
                )).push(PeerMessage { bytes, id: from }));
            },
            _ => {},
        }
    }
}

/// Folds the events of the network task into the table of peers, and
/// returns the messages of the peers and the failure of the transport that
/// was reported last, if one was.
pub fn fold_worker_events(peers: &mut PeerTable, events: Vec<WorkerToMainMsg>) -> (frame: (
    Vec<PeerMessage>,
    Option<TransportFailure>,
))
    requires
        old(peers).wf(),
    ensures
        final(peers).wf(),
        final(peers)@ == fold_events(frame_start(old(peers)@), events@).peers,
        frame.0@ == fold_events(frame_start(old(peers)@), events@).messages,
        frame.1 == fold_events(frame_start(old(peers)@), events@).failure,
        frame.0@ == payloads(events@),
        frame.1 == last_failure(events@),
        forall|id: PeerUUID| #[trigger]
            status_in(final(peers)@, id) == match last_report(events@, id) {
                Some(status) => Some(status),
                None => status_in(old(peers)@, id),
            },
{
    let mut messages: Vec<PeerMessage> = Vec::new();
    let mut failure: Option<TransportFailure> = None;
    let ghost start = frame_start(peers@);
    let ghost all = events@;
    for event in it: events
        invariant
            it.seq() == all,
            peers.wf(),
            peers@ == fold_events(start, all.take(it.index() as int)).peers,
            messages@ == fold_events(start, all.take(it.index() as int)).messages,
            failure == fold_events(start, all.take(it.index() as int)).failure,
    {
        proof {
            assert(all.take(it.index() + 1).drop_last() =~= all.take(it.index() as int));
        }
        match event {
            WorkerToMainMsg::PeerConnected(id) => {
                peers.record(id, PeerStatus::Connected);
            },
            WorkerToMainMsg::PeerDisconnected(id) => {
                peers.record(id, PeerStatus::Disconnected);
            },
            WorkerToMainMsg::MessageReceived(id, bytes) => {
                messages.push(PeerMessage { bytes, id });
            },
            WorkerToMainMsg::ConnectionFailed => {
                failure = Some(TransportFailure::ConnectionFailed);
            },
            WorkerToMainMsg::Disconnected => {
                failure = Some(TransportFailure::Disconnected);
            },
        }
    }
    proof {
        assert(all.take(all.len() as int) =~= all);
        assert forall|id: PeerUUID| #[trigger]
            status_in(peers@, id) == match last_report(all, id) {
                Some(status) => Some(status),
                None => status_in(start.peers, id),
            } by {
            lemma_fold_is_what_the_events_say(start, all, id);
        }
        lemma_fold_is_what_the_events_say(start, all, PeerUUID::of_pair((0, 0)));
        assert(start.messages + payloads(all) =~= payloads(all));
    }
    (messages, failure)
}

/// The text that `{:?}` gives for an optional text.
pub uninterp spec fn option_text_debug(text: Option<Seq<char>>) -> Seq<char>;

/// The view of an optional text.
pub open spec fn option_text_view(text: Option<String>) -> Option<Seq<char>> {
    match text {
        Some(text) => Some(text@),
        None => None,
    }
}

/// `Debug` for `Option<String>`, through `format!`: the text that `{:?}`
/// gives for `text`. It depends on `text` alone.
#[verifier::external_body]
fn format_option_text(text: &Option<String>) -> (shown: String)
    ensures
        shown@ == option_text_debug(option_text_view(*text)),
{
    format!("{:?}", text)
}

impl TransportFailure {
    /// The exit code of the failure.
    pub open spec fn spec_code(self) -> ExitErrCode {
        match self {
            TransportFailure::ConnectionFailed => ExitErrCode::WebRTCConnectionError,
            TransportFailure::Disconnected => ExitErrCode::WebRTCConnectionDisconnected,
        }
    }

    /// The message of the failure, for a signaling server that is shown as
    /// `server`.
    pub open spec fn spec_message(self, server: Seq<char>) -> Seq<char> {
        match self {
            TransportFailure::ConnectionFailed => "Unable to connect to signaling server at "@
                + server + ". Exiting..."@,
            TransportFailure::Disconnected => "Disconnected from signaling server at "@ + server
                + ". Exiting..."@,
        }
    }

    /// The exit code of the failure.
    pub fn code(self) -> (code: ExitErrCode)
        ensures
            code == self.spec_code(),
    {
        match self {
            TransportFailure::ConnectionFailed => ExitErrCode::WebRTCConnectionError,
            TransportFailure::Disconnected => ExitErrCode::WebRTCConnectionDisconnected,
        }
    }

    /// The message of the failure, for a signaling server that is shown as
    /// `server`.
    pub fn message(self, server: &str) -> (msg: String)
        ensures
            msg@ == self.spec_message(server@),
    {
        let mut msg = match self {
            TransportFailure::ConnectionFailed => String::from_str(
                "Unable to connect to signaling server at ",
            ),
            TransportFailure::Disconnected => String::from_str(
                "Disconnected from signaling server at ",
            ),
        };
        msg.append(server);
        msg.append(". Exiting...");
        msg
    }
}

/// The settings after the transport failed, if it did: the failure is the
/// fatal condition and the session is asked to end.
pub open spec fn after_failure(config: Config, failure: Option<TransportFailure>, fatal: Option<
    (String, ExitErrCode),
>) -> bool {
    match failure {
        None => fatal == config.should_exit_msg_code,
        Some(failure) => fatal is Some && fatal.unwrap().1 == failure.spec_code()
            && fatal.unwrap().0@ == failure.spec_message(
            option_text_debug(option_text_view(config.network_web_rtc_url)),
        ),
    }
}

/// Records a failure of the transport as the fatal condition and asks for
/// the session to end. Without a failure nothing changes.
pub fn record_transport_failure(config: &mut Config, failure: Option<TransportFailure>)
    ensures
        old(config).same_settings(final(config)),
        after_failure(*old(config), failure, final(config).should_exit_msg_code),
        final(config).should_exit == (old(config).should_exit || failure is Some),
{
    match failure {
        None => {},
        Some(failure) => {
            let server = format_option_text(&config.network_web_rtc_url);
            let msg = failure.message(server.as_str());
            config.set_fatal(msg, failure.code());
            config.request_exit();
        },
    }
}

/// What the frame loop takes in at the start of a frame.
pub struct FrameInput {
    /// The time, in milliseconds since the epoch.
    pub now: u64,
    /// The events of the network task that were waiting.
    pub events: Vec<WorkerToMainMsg>,
    pub keys: Vec<u8>,
    pub mouse_buttons: Vec<u8>,
    pub mouse_pos_x: i32,
    pub mouse_pos_y: i32,
}

/// What is to be done with a frame that was prepared.
#[derive(Debug, Clone, Copy, PartialEq, Eq, Structural)]
pub struct RenderCall {
    /// The value to hand to the managed runtime.
    pub model: FrameModel,
    /// The target frame rate to set before the call, if it was changed.
    pub target_fps: Option<i32>,
}

/// What the frame loop does next.
#[derive(Debug, Clone, Copy, PartialEq, Eq, Structural)]
pub enum FrameAction {
    /// Leave the loop: tell the network task to shut down, wait for it, and
    /// only then close the native window.
    Exit,
    /// Draw the diagnostic screen of the fatal condition.
    ShowFatal,
    /// Run a frame of the managed application.
    Render,
}

/// What the frame loop does next: it leaves when the window is closing. A
/// fatal condition is shown instead of a frame, for as long as the window
/// stays open. Without one, the loop leaves when an effect asked for it.
pub open spec fn next_action(config: Config, window_closing: bool) -> FrameAction {
    if window_closing {
        FrameAction::Exit
    } else if config.should_exit_msg_code is Some {
        FrameAction::ShowFatal
    } else if config.should_exit {
        FrameAction::Exit
    } else {
        FrameAction::Render
    }
}

/// What the frame loop does next.
pub fn frame_action(config: &Config, window_closing: bool) -> (action: FrameAction)
    ensures
        action == next_action(*config, window_closing),
{
    if window_closing {
        FrameAction::Exit
    } else if config.should_exit_msg_code.is_some() {
        FrameAction::ShowFatal
    } else if config.should_exit {
        FrameAction::Exit
    } else {
        FrameAction::Render
    }
}

/// The session of the managed application: its model, the state it is shown,
/// and the peers known so far.
pub struct App {
    model: FrameModel,
    state: PlatformState,
    peers: PeerTable,
}

impl App {
    /// The value that stands for the state of the managed application.
    pub closed spec fn spec_model(&self) -> FrameModel {
        self.model
    }

    /// What the managed runtime is shown.
    pub closed spec fn spec_state(&self) -> PlatformState {
        self.state
    }

    /// The peers known so far.
    pub closed spec fn spec_peers(&self) -> Seq<PeerEntry> {
        self.peers@
    }

    /// No peer is known twice.
    pub open spec fn wf(&self) -> bool {
        distinct(self.spec_peers())
    }

    /// The session after the managed runtime was initialised, between the
    /// times `started` and `ended`. An error of the managed runtime leaves
    /// the session without a model and becomes the fatal condition.
    pub fn init(outcome: Result<usize, String>, started: u64, ended: u64, config: &mut Config) -> (app:
        App)
        ensures
            app.wf(),
            app.spec_peers().len() == 0,
            app.spec_state().frame_count == 0,
            app.spec_state().keys@.len() == 0,
            app.spec_state().mouse_buttons@.len() == 0,
            app.spec_state().messages@.len() == 0,
            app.spec_state().peers.connected@.len() == 0,
            app.spec_state().peers.disconnected@.len() == 0,
            app.spec_state().mouse_pos_x == 0,
            app.spec_state().mouse_pos_y == 0,
            app.spec_state().timestamps == (PlatformTime {
                init_start: started,
                init_end: ended,
                last_render_end: 0,
                last_render_start: 0,
                render_start: 0,
            }),
            old(config).same_settings(final(config)),
            final(config).should_exit == old(config).should_exit,
            match outcome {
                Ok(model) => app.spec_model() == FrameModel::Valid(model)
                    && final(config).should_exit_msg_code == old(config).should_exit_msg_code,
                Err(msg) => app.spec_model() == FrameModel::Invalid
                    && final(config).should_exit_msg_code == Some(
                    (msg, ExitErrCode::ErrFromRocInit),
                ),
            },
    {
        let mut state = PlatformState::new();
        state.timestamps.init_start = started;
        state.timestamps.init_end = ended;
        let model = match outcome {
            Ok(model) => FrameModel::Valid(model),
            Err(msg) => {
                config.set_fatal(msg, ExitErrCode::ErrFromRocInit);
                FrameModel::Invalid
            },
        };
        App { model, state, peers: PeerTable::new() }
    }

    /// The value that stands for the state of the managed application.
    pub fn model(&self) -> (model: FrameModel)
        ensures
            model == self.spec_model(),
    {
        self.model
    }

    /// What the managed runtime is shown.
    pub fn state(&self) -> (state: &PlatformState)
        ensures
            *state == self.spec_state(),
    {
        &self.state
    }

    /// The peers known so far.
    pub fn peers(&self) -> (peers: &PeerTable)
        ensures
            peers@ == self.spec_peers(),
    {
        &self.peers
    }

    /// Prepares a frame: counts it, moves the timestamps on, takes in the
    /// input and folds the events of the network task into the peers and
    /// the messages that the managed runtime is shown. A failure of the
    /// transport becomes the fatal condition. Returns what to hand to the
    /// managed runtime, and the target frame rate to set first if it was
    /// changed.
    pub fn render(&mut self, config: &mut Config, frame: FrameInput) -> (call: RenderCall)
        requires
            old(self).wf(),
            old(self).spec_state().frame_count < u64::MAX,
        ensures
            final(self).wf(),
            final(self).spec_model() == old(self).spec_model(),
            call.model == old(self).spec_model(),
            call.target_fps == if old(config).fps_target_dirty {
                Some(old(config).fps_target)
            } else {
                None
            },
            ({
                let folded = fold_events(frame_start(old(self).spec_peers()), frame.events@);
                let state = final(self).spec_state();
                &&& final(self).spec_peers() == folded.peers
                &&& state.frame_count == old(self).spec_state().frame_count + 1
                &&& state.keys == frame.keys
                &&& state.mouse_buttons == frame.mouse_buttons
                &&& state.mouse_pos_x == frame.mouse_pos_x
                &&& state.mouse_pos_y == frame.mouse_pos_y
                &&& state.messages@ == folded.messages
                &&& state.messages@ == payloads(frame.events@)
                &&& state.peers.connected@ == ids_with(folded.peers, PeerStatus::Connected)
                &&& state.peers.disconnected@ == ids_with(folded.peers, PeerStatus::Disconnected)
                &&& state.peers.connected@.len() + state.peers.disconnected@.len()
                    == folded.peers.len()
                &&& forall|id: PeerUUID| #[trigger]
                    status_in(folded.peers, id) == match last_report(frame.events@, id) {
                        Some(status) => Some(status),
                        None => status_in(old(self).spec_peers(), id),
                    }
                &&& forall|id: PeerUUID| #[trigger]
                    state.peers.connected@.contains(id) <==> status_in(folded.peers, id) == Some(
                        PeerStatus::Connected,
                    )
                &&& forall|id: PeerUUID| #[trigger]
                    state.peers.disconnected@.contains(id) <==> status_in(folded.peers, id)
                        == Some(PeerStatus::Disconnected)
                &&& state.timestamps == (PlatformTime {
                    last_render_start: old(self).spec_state().timestamps.render_start,
                    render_start: frame.now,
                    ..old(self).spec_state().timestamps
                })
                &&& after_failure(*old(config), folded.failure, final(config).should_exit_msg_code)
                &&& final(config).should_exit == (old(config).should_exit || folded.failure
                    is Some)
            }),
            final(config).title == old(config).title,
            final(config).width == old(config).width,
            final(config).height == old(config).height,
            final(config).fps_show == old(config).fps_show,
            final(config).fps_target == old(config).fps_target,
            !final(config).fps_target_dirty,
            final(config).fps_position == old(config).fps_position,
            final(config).trace_log_level == old(config).trace_log_level,
            final(config).network_web_rtc_url == old(config).network_web_rtc_url,
    {
        self.state.frame_count = self.state.frame_count + 1;
        self.state.timestamps.last_render_start = self.state.timestamps.render_start;
        self.state.timestamps.render_start = frame.now;
        self.state.mouse_buttons = frame.mouse_buttons;
        self.state.keys = frame.keys;

        let (messages, failure) = fold_worker_events(&mut self.peers, frame.events);
        record_transport_failure(config, failure);
        let target_fps = config.take_target_fps();

        self.state.peers = self.peers.snapshot();
        proof {
            let entries = self.peers@;
            lemma_lists_part_the_peers(entries, PeerUUID::of_pair((0, 0)));
            assert forall|id: PeerUUID| #[trigger]
                ids_with(entries, PeerStatus::Connected).contains(id) <==> status_in(entries, id)
                    == Some(PeerStatus::Connected) by {
                lemma_list_holds_the_peers_of_a_status(entries, PeerStatus::Connected, id);
            }
            assert forall|id: PeerUUID| #[trigger]
                ids_with(entries, PeerStatus::Disconnected).contains(id) <==> status_in(
                    entries,
                    id,
                ) == Some(PeerStatus::Disconnected) by {
                lemma_list_holds_the_peers_of_a_status(entries, PeerStatus::Disconnected, id);
            }
        }
        self.state.messages = messages;
        self.state.mouse_pos_x = frame.mouse_pos_x;
        self.state.mouse_pos_y = frame.mouse_pos_y;
        RenderCall { model: self.model, target_fps }
    }

    /// Takes in what the managed runtime made of the frame, at the time
    /// `now`: the new model takes the place of the old one, which is
    /// never used again. An error leaves the session without a model and
    /// becomes the fatal condition.
    pub fn rendered(&mut self, config: &mut Config, outcome: Result<usize, String>, now: u64)
        requires
            old(self).wf(),
        ensures
            final(self).wf(),
            final(self).spec_peers() == old(self).spec_peers(),
            final(self).spec_state() == (PlatformState {
                timestamps: PlatformTime {
                    last_render_end: now,
                    ..old(self).spec_state().timestamps
                },
                ..old(self).spec_state()
            }),
            old(config).same_settings(final(config)),
            final(config).should_exit == old(config).should_exit,
            match outcome {
                Ok(model) => final(self).spec_model() == FrameModel::Valid(model)
                    && final(config).should_exit_msg_code == old(config).should_exit_msg_code,
                Err(msg) => final(self).spec_model() == FrameModel::Invalid
                    && final(config).should_exit_msg_code == Some(
                    (msg, ExitErrCode::ErrFromRocRender),
                ),
            },
    {
        self.model = match outcome {
            Ok(model) => FrameModel::Valid(model),
            Err(msg) => {
                config.set_fatal(msg, ExitErrCode::ErrFromRocRender);
                FrameModel::Invalid
            },
        };
        self.state.timestamps.last_render_end = now;
    }
}

/// One text of the diagnostic screen.
#[derive(Clone, PartialEq, Eq)]
pub struct ScreenText {
    pub text: String,
    pub x: i32,
    pub y: i32,
    pub size: i32,
    pub color: RocColor,
}

/// What the diagnostic screen of a fatal condition shows.
#[derive(Clone, PartialEq, Eq)]
pub struct FatalScreen {
    pub background: RocColor,
    /// The color of the dot that follows the mouse.
    pub cursor: RocColor,
    /// The radius of the dot that follows the mouse.
    pub cursor_radius: i32,
    /// The name of the reason, to the right of the heading.
    pub code: ScreenText,
    /// The message, below the heading.
    pub message: ScreenText,
}

/// The heading of the diagnostic screen. It is drawn at (10, 10) in size 20;
/// what its width comes to decides where the name of the reason goes.
pub fn fatal_heading() -> (heading: ScreenText)
    ensures
        heading.text@ == "FATAL ERROR:"@,
        heading.x == 10,
        heading.y == 10,
        heading.size == 20,
        heading.color.0 == RocColor::pack(255, 0, 0, 255),
{
    ScreenText {
        text: String::from_str("FATAL ERROR:"),
        x: 10,
        y: 10,
        size: 20,
        color: RocColor::from_rgba(255, 0, 0, 255),
    }
}

/// The diagnostic screen of a fatal condition, for a heading that is
/// `heading_width` wide: the name of the reason stands 20 to the right of the
/// heading, the message below it.
pub fn draw_fatal_error(msg: String, code: ExitErrCode, heading_width: i32) -> (screen: FatalScreen)
    requires
        heading_width <= i32::MAX - 20,
    ensures
        screen.background.0 == RocColor::pack(255, 210, 210, 255),
        screen.cursor.0 == RocColor::pack(50, 50, 50, 255),
        screen.cursor_radius == 5,
        screen.code.text@ == code.spec_name(),
        screen.code.x == heading_width + 20,
        screen.code.y == 10,
        screen.code.size == 20,
        screen.code.color.0 == RocColor::pack(0, 0, 0, 255),
        screen.message.text == msg,
        screen.message.x == 10,
        screen.message.y == 40,
        screen.message.size == 10,
        screen.message.color.0 == RocColor::pack(0, 0, 0, 255),
{
    FatalScreen {
        background: RocColor::from_rgba(255, 210, 210, 255),
        cursor: RocColor::from_rgba(50, 50, 50, 255),
        cursor_radius: 5,
        code: ScreenText {
            text: String::from_str(code.name()),
            x: heading_width + 20,
            y: 10,
            size: 20,
            color: RocColor::from_rgba(0, 0, 0, 255),
        },
        message: ScreenText { text: msg, x: 10, y: 40, size: 10, color: RocColor::from_rgba(0, 0, 0, 255) },
    }
}

} // verus!
