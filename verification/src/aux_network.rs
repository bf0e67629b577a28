//! The websocket task of a voice connection, as decisions on plain values: what
//! it does with each thing that happens, and when it gives up.
use crate::frames::{
    client_frame, encode_client_binary_packet, parse_binary_gateway_packet, parsed_frame,
    DaveBinaryOpcode,
};
use crate::json::json_of;
use crate::octets::{octets, octets_as_slice};
use crate::ssrc::{SsrcTracker, TrackerModel};
use crate::voice::{
    event_of, heartbeat_event, microphone_flag, no_speaking_flags, read_event,
    set_microphone_flag, speaking_event, speaking_flags, SpeakingFlags, SpeakingUpdate, VoiceEvent,
};
use crate::ws::{is_not_final, ws_error_is_not_final, Error};
use crate::ws_dave::{
    binary_packet_step, execute_transition_step, invalid_commit_welcome_step, prepare_epoch_step,
    prepare_transition_step, DaveExecuteTransition, DaveInvalidCommitWelcome, DaveModel,
    DaveOutboundMessage, DavePrepareEpoch, DavePrepareTransition, DaveState, OutboundModel,
};
use bytes::Bytes;
use rand::distr::Uniform;
use rand::Rng;
use serde_json::Value;
use serenity_voice_model::{Event, SpeakingState};
use vstd::prelude::*;

verus! {

/// The largest integer that a JavaScript peer holds exactly; heartbeat nonces
/// stay below it.
pub const JS_MAX_INT: u64 = 9007199254740991;

/// Calls `rand`'s thread-local generator with a uniform distribution over
/// `0..bound`: some number below the bound.
#[verifier::external_body]
fn random_below(bound: u64) -> (number: u64)
    requires
        bound > 0,
    ensures
        number < bound,
{
    let range = Uniform::new(0, bound).expect("uniform range is finite and nonempty");
    rand::rng().sample(range)
}

/// Who a connection is for, and where.
#[derive(Clone, Copy, Debug)]
pub struct ConnectionIds {
    pub guild_id: u64,
    pub channel_id: Option<u64>,
    pub user_id: u64,
}

impl ConnectionIds {
    /// The id of the MLS group: the channel, or the guild where the channel is
    /// not known.
    pub open spec fn group_id(self) -> u64 {
        match self.channel_id {
            Some(channel_id) => channel_id,
            None => self.guild_id,
        }
    }
}

/// The websocket task of a connection. Times are nanoseconds on a clock of the
/// caller's.
#[derive(Debug)]
pub struct AuxNetwork {
    pub dont_send: bool,
    pub ssrc: u32,
    pub heartbeat_interval: u64,
    pub next_heartbeat: u64,
    pub speaking: SpeakingState,
    pub last_heartbeat_nonce: Option<u64>,
    pub attempt_idx: usize,
    pub info: ConnectionIds,
    pub dave_state: DaveState,
}

/// The websocket task as its contracts speak of it.
pub struct AuxModel {
    pub dont_send: bool,
    pub ssrc: u32,
    pub heartbeat_interval: u64,
    pub next_heartbeat: u64,
    pub speaking: SpeakingFlags,
    pub last_heartbeat_nonce: Option<u64>,
    pub attempt_idx: usize,
    pub info: ConnectionIds,
    pub dave: DaveModel,
}

impl View for AuxNetwork {
    type V = AuxModel;

    open spec fn view(&self) -> AuxModel {
        AuxModel {
            dont_send: self.dont_send,
            ssrc: self.ssrc,
            heartbeat_interval: self.heartbeat_interval,
            next_heartbeat: self.next_heartbeat,
            speaking: speaking_flags(self.speaking),
            last_heartbeat_nonce: self.last_heartbeat_nonce,
            attempt_idx: self.attempt_idx,
            info: self.info,
            dave: self.dave_state@,
        }
    }
}

/// A message of DAVE's control plane.
#[derive(Clone, Copy, Debug)]
pub enum ControlMessage {
    PrepareTransition(DavePrepareTransition),
    ExecuteTransition(DaveExecuteTransition),
    PrepareEpoch(DavePrepareEpoch),
    InvalidCommitWelcome(DaveInvalidCommitWelcome),
}

/// The kinds of control message, by which their data is read.
#[derive(Clone, Copy, Debug, PartialEq, Eq, Structural)]
pub enum ControlKind {
    PrepareTransition,
    ExecuteTransition,
    PrepareEpoch,
    InvalidCommitWelcome,
}

impl ControlMessage {
    /// The kind of a control message.
    pub open spec fn kind(self) -> ControlKind {
        match self {
            ControlMessage::PrepareTransition(_) => ControlKind::PrepareTransition,
            ControlMessage::ExecuteTransition(_) => ControlKind::ExecuteTransition,
            ControlMessage::PrepareEpoch(_) => ControlKind::PrepareEpoch,
            ControlMessage::InvalidCommitWelcome(_) => ControlKind::InvalidCommitWelcome,
        }
    }
}

/// The kind of control message that comes under an opcode.
pub open spec fn control_kind_of(op: u8) -> Option<ControlKind> {
    if op == 21 {
        Some(ControlKind::PrepareTransition)
    } else if op == 22 {
        Some(ControlKind::ExecuteTransition)
    } else if op == 24 {
        Some(ControlKind::PrepareEpoch)
    } else if op == 31 {
        Some(ControlKind::InvalidCommitWelcome)
    } else {
        None
    }
}

/// The kind of control message that comes under an opcode.
pub fn control_kind(op: u8) -> (kind: Option<ControlKind>)
    ensures
        kind == control_kind_of(op),
{
    match op {
        21 => Some(ControlKind::PrepareTransition),
        22 => Some(ControlKind::ExecuteTransition),
        24 => Some(ControlKind::PrepareEpoch),
        31 => Some(ControlKind::InvalidCommitWelcome),
        _ => None,
    }
}

/// What became of a JSON message outside the event model.
#[derive(Clone, Copy, Debug, PartialEq, Eq, Structural)]
pub enum ControlOutcome {
    Processed,
    Malformed,
    Unknown,
}

/// What became of a binary frame.
#[derive(Clone, Copy, Debug, PartialEq, Eq, Structural)]
pub enum BinaryOutcome {
    Dave(DaveBinaryOpcode),
    NonDave(u8),
    Malformed,
}

/// What is to be done about an event.
#[derive(Clone, Copy, Debug, PartialEq, Eq, Structural)]
pub enum EventAction {
    /// Tell the event handlers that a user's speaking state changed.
    FireSpeakingUpdate,
    /// Tell the event handlers that a user has left.
    FireClientDisconnect,
    /// A heartbeat was acknowledged with the nonce that was sent.
    AckMatched,
    /// A heartbeat was acknowledged with another nonce.
    AckMismatched { expected: u64, seen: u64 },
    /// An acknowledgement came while none was awaited.
    AckUnexpected,
    /// A message that the gateway no longer sends.
    Discontinued,
    /// Nothing.
    Ignored,
}

/// A frame that is to be sent to the gateway.
#[derive(Debug)]
pub enum OutboundFrame {
    Json { op: u8, data: Value },
    Binary { sequence: u16, frame: Bytes },
}

/// What the websocket task does next, once something has gone wrong.
#[derive(Clone, Copy, Debug, PartialEq, Eq, Structural)]
pub enum LoopControl {
    /// Ask for a new websocket, and go on waiting.
    Reconnect,
    /// Report that this attempt is closed, and stop.
    SignalClosure { attempt_idx: usize },
}

/// What a control message does to the DAVE state of a connection.
pub open spec fn control_step(
    m: DaveModel,
    info: ConnectionIds,
    message: ControlMessage,
    f: DaveModel,
) -> bool {
    match message {
        ControlMessage::PrepareTransition(msg) => prepare_transition_step(m, msg, f),
        ControlMessage::ExecuteTransition(msg) => execute_transition_step(m, msg, f),
        ControlMessage::PrepareEpoch(msg) => prepare_epoch_step(
            m,
            msg,
            info.user_id,
            info.group_id(),
            f,
        ),
        ControlMessage::InvalidCommitWelcome(msg) => invalid_commit_welcome_step(m, msg, f),
    }
}

/// What an event does to what is known of the users.
pub open spec fn event_tracked(t: TrackerModel, event: VoiceEvent) -> TrackerModel {
    match event {
        VoiceEvent::Speaking(update) => match update.user_id {
            Some(user_id) => TrackerModel { ssrcs: t.ssrcs.insert(user_id, update.ssrc), ..t },
            None => t,
        },
        VoiceEvent::ClientDisconnect { user_id } => TrackerModel {
            disconnected: t.disconnected.insert(user_id),
            ..t
        },
        _ => t,
    }
}

/// What is to be done about an event, while an acknowledgement of the nonce
/// `awaited` is awaited.
pub open spec fn event_action(event: VoiceEvent, awaited: Option<u64>) -> EventAction {
    match event {
        VoiceEvent::Speaking(_) => EventAction::FireSpeakingUpdate,
        VoiceEvent::ClientDisconnect { .. } => EventAction::FireClientDisconnect,
        VoiceEvent::ClientConnect => EventAction::Discontinued,
        VoiceEvent::HeartbeatAck { nonce } => match awaited {
            Some(expected) => if nonce == expected {
                EventAction::AckMatched
            } else {
                EventAction::AckMismatched { expected, seen: nonce }
            },
            None => EventAction::AckUnexpected,
        },
        _ => EventAction::Ignored,
    }
}

/// What an event does to the websocket task: an acknowledgement ends the wait
/// for one.
pub open spec fn event_processed(m: AuxModel, event: VoiceEvent) -> AuxModel {
    match event {
        VoiceEvent::HeartbeatAck { .. } => AuxModel { last_heartbeat_nonce: None, ..m },
        _ => m,
    }
}

/// The sequence number of the next binary frame to be sent.
pub open spec fn next_sequence(m: DaveModel) -> u16 {
    match m.last_binary_sequence {
        Some(last) => if last == u16::MAX {
            0
        } else {
            (last + 1) as u16
        },
        None => 1,
    }
}

/// The frame that an owed message is sent in.
pub open spec fn frame_of(m: DaveModel, message: OutboundModel, frame: OutboundFrame) -> bool {
    match (message, frame) {
        (OutboundModel::Json { op, data }, OutboundFrame::Json { op: frame_op, data: frame_data })
            => frame_op == op && json_of(frame_data) == data,
        (
            OutboundModel::Binary { opcode, payload },
            OutboundFrame::Binary { sequence, frame: bytes },
        ) => sequence == next_sequence(m) && octets(bytes) == client_frame(
            sequence,
            opcode,
            payload,
        ),
        _ => false,
    }
}

/// All that waits to be sent, in the order in which it is sent: a key package
/// first, then the messages that are owed.
pub open spec fn outbound_queue(m: DaveModel) -> Seq<OutboundModel> {
    match m.pending_key_package {
        Some(payload) => seq![
            OutboundModel::Binary { opcode: DaveBinaryOpcode::MlsKeyPackage.code(), payload },
        ] + m.pending_outbound,
        None => m.pending_outbound,
    }
}

/// The state once the first of what waits has been taken to be sent.
pub open spec fn outbound_taken(m: DaveModel) -> DaveModel {
    match m.pending_key_package {
        Some(_) => DaveModel { pending_key_package: None, ..m },
        None => DaveModel { pending_outbound: m.pending_outbound.drop_first(), ..m },
    }
}

impl AuxNetwork {
    /// A task that is about to start on a new connection attempt.
    pub fn new(
        ssrc: u32,
        heartbeat_interval: u64,
        attempt_idx: usize,
        info: ConnectionIds,
        now: u64,
    ) -> (aux: Self)
        requires
            now + heartbeat_interval <= u64::MAX,
        ensures
            aux@ == (AuxModel {
                dont_send: false,
                ssrc,
                heartbeat_interval,
                next_heartbeat: (now + heartbeat_interval) as u64,
                speaking: SpeakingFlags { microphone: false, soundshare: false, priority: false },
                last_heartbeat_nonce: None,
                attempt_idx,
                info,
                dave: DaveModel::initial(),
            }),
    {
        AuxNetwork {
            dont_send: false,
            ssrc,
            heartbeat_interval,
            next_heartbeat: now + heartbeat_interval,
            speaking: no_speaking_flags(),
            last_heartbeat_nonce: None,
            attempt_idx,
            info,
            dave_state: DaveState::default(),
        }
    }

    /// Plans the next heartbeat one interval from now.
    pub fn schedule_heartbeat(&mut self, now: u64)
        requires
            now + old(self).heartbeat_interval <= u64::MAX,
        ensures
            final(self)@ == (AuxModel {
                next_heartbeat: (now + old(self).heartbeat_interval) as u64,
                ..old(self)@
            }),
    {
        self.next_heartbeat = now + self.heartbeat_interval;
    }

    /// Whether the websocket is to be listened to: not after it has failed.
    pub fn listens(&self) -> (listens: bool)
        ensures
            listens == !self@.dont_send,
    {
        !self.dont_send
    }

    /// Prepares a heartbeat with the given nonce, which is then awaited. It is
    /// not sent where the websocket has failed.
    pub fn heartbeat_with(&mut self, nonce: u64) -> (event: Option<Event>)
        ensures
            final(self)@ == (AuxModel { last_heartbeat_nonce: Some(nonce), ..old(self)@ }),
            event is Some == !old(self)@.dont_send,
            event matches Some(e) ==> event_of(e) == (VoiceEvent::Heartbeat { nonce }),
    {
        self.last_heartbeat_nonce = Some(nonce);
        if !self.dont_send {
            Some(heartbeat_event(nonce))
        } else {
            None
        }
    }

    /// Prepares a heartbeat with a random nonce.
    pub fn send_heartbeat(&mut self) -> (event: Option<Event>)
        ensures
            final(self)@.last_heartbeat_nonce matches Some(nonce) && nonce < JS_MAX_INT,
            final(self)@ == (AuxModel {
                last_heartbeat_nonce: final(self)@.last_heartbeat_nonce,
                ..old(self)@
            }),
            event is Some == !old(self)@.dont_send,
            event matches Some(e) ==> event_of(e) == (VoiceEvent::Heartbeat {
                nonce: final(self)@.last_heartbeat_nonce->0,
            }),
    {
        let nonce = random_below(JS_MAX_INT);
        self.heartbeat_with(nonce)
    }

    /// The websocket was replaced by a new one.
    pub fn stream_replaced(&mut self, now: u64)
        requires
            now + old(self).heartbeat_interval <= u64::MAX,
        ensures
            final(self)@ == (AuxModel {
                dont_send: false,
                next_heartbeat: (now + old(self).heartbeat_interval) as u64,
                ..old(self)@
            }),
    {
        self.schedule_heartbeat(now);
        self.dont_send = false;
    }

    /// The gateway asked for another interval between heartbeats.
    pub fn set_keepalive(&mut self, heartbeat_interval: u64, now: u64)
        requires
            now + heartbeat_interval <= u64::MAX,
        ensures
            final(self)@ == (AuxModel {
                heartbeat_interval,
                next_heartbeat: (now + heartbeat_interval) as u64,
                ..old(self)@
            }),
    {
        self.heartbeat_interval = heartbeat_interval;
        self.schedule_heartbeat(now);
    }

    /// The local user starts or stops to speak. The gateway is told where that
    /// is a change and the websocket has not failed.
    pub fn set_speaking(&mut self, is_speaking: bool) -> (event: Option<Event>)
        ensures
            ({
                let changes = old(self)@.speaking.microphone != is_speaking
                    && !old(self)@.dont_send;
                &&& final(self)@ == (if changes {
                    AuxModel {
                        speaking: SpeakingFlags {
                            microphone: is_speaking,
                            ..old(self)@.speaking
                        },
                        ..old(self)@
                    }
                } else {
                    old(self)@
                })
                &&& event is Some == changes
            }),
            event matches Some(e) ==> event_of(e) == VoiceEvent::Speaking(
                SpeakingUpdate {
                    delay: Some(0),
                    speaking: final(self).speaking,
                    ssrc: old(self)@.ssrc,
                    user_id: None,
                },
            ),
    {
        if microphone_flag(&self.speaking) != is_speaking && !self.dont_send {
            set_microphone_flag(&mut self.speaking, is_speaking);
            Some(
                speaking_event(
                    SpeakingUpdate {
                        delay: Some(0),
                        speaking: self.speaking,
                        ssrc: self.ssrc,
                        user_id: None,
                    },
                ),
            )
        } else {
            None
        }
    }

    /// Processes an event of the gateway.
    pub fn process_ws(&mut self, tracker: &mut SsrcTracker, event: &Event) -> (action: EventAction)
        ensures
            action == event_action(event_of(*event), old(self)@.last_heartbeat_nonce),
            final(self)@ == event_processed(old(self)@, event_of(*event)),
            final(tracker)@ == event_tracked(old(tracker)@, event_of(*event)),
    {
        match read_event(event) {
            VoiceEvent::Speaking(update) => {
                if let Some(user_id) = update.user_id {
                    tracker.announce(user_id, update.ssrc);
                }
                EventAction::FireSpeakingUpdate
            },
            VoiceEvent::ClientConnect => EventAction::Discontinued,
            VoiceEvent::ClientDisconnect { user_id } => {
                tracker.disconnect(user_id);
                EventAction::FireClientDisconnect
            },
            VoiceEvent::HeartbeatAck { nonce } => {
                match self.last_heartbeat_nonce.take() {
                    Some(expected) => if nonce == expected {
                        EventAction::AckMatched
                    } else {
                        EventAction::AckMismatched { expected, seen: nonce }
                    },
                    None => EventAction::AckUnexpected,
                }
            },
            _ => EventAction::Ignored,
        }
    }

    /// Processes a binary frame of the gateway; one that cannot be parsed
    /// changes nothing.
    pub fn process_ws_binary(&mut self, payload: &Bytes) -> (outcome: BinaryOutcome)
        ensures
            match parsed_frame(octets(*payload)) {
                Some(packet) => {
                    &&& binary_packet_step(old(self)@.dave, packet, final(self)@.dave)
                    &&& final(self)@ == AuxModel { dave: final(self)@.dave, ..old(self)@ }
                    &&& match outcome {
                        BinaryOutcome::Dave(opcode) => opcode.code() == packet.opcode,
                        BinaryOutcome::NonDave(opcode) => opcode == packet.opcode
                            && !crate::frames::is_dave_code(opcode),
                        BinaryOutcome::Malformed => false,
                    }
                },
                None => outcome is Malformed && final(self)@ == old(self)@,
            },
    {
        match parse_binary_gateway_packet(octets_as_slice(payload)) {
            Some(packet) => {
                self.dave_state.on_binary_packet(&packet);
                match DaveBinaryOpcode::from_u8(packet.opcode) {
                    Some(opcode) => BinaryOutcome::Dave(opcode),
                    None => BinaryOutcome::NonDave(packet.opcode),
                }
            },
            None => BinaryOutcome::Malformed,
        }
    }

    /// Processes a JSON message outside the event model, whose data was read as
    /// the kind of control message that its opcode asks for. Data that could
    /// not be read so, and opcodes of no control message, change nothing.
    pub fn process_ws_unknown_json(&mut self, op: u8, data: Option<ControlMessage>) -> (outcome:
        ControlOutcome)
        ensures
            match control_kind_of(op) {
                None => outcome is Unknown && final(self)@ == old(self)@,
                Some(kind) => if data is Some && data->0.kind() == kind {
                    &&& outcome is Processed
                    &&& control_step(old(self)@.dave, old(self)@.info, data->0, final(self)@.dave)
                    &&& final(self)@ == AuxModel { dave: final(self)@.dave, ..old(self)@ }
                } else {
                    outcome is Malformed && final(self)@ == old(self)@
                },
            },
    {
        match (control_kind(op), data) {
            (None, _) => ControlOutcome::Unknown,
            (
                Some(ControlKind::PrepareTransition),
                Some(ControlMessage::PrepareTransition(msg)),
            ) => {
                self.dave_state.on_prepare_transition(msg);
                ControlOutcome::Processed
            },
            (
                Some(ControlKind::ExecuteTransition),
                Some(ControlMessage::ExecuteTransition(msg)),
            ) => {
                self.dave_state.on_execute_transition(msg);
                ControlOutcome::Processed
            },
            (Some(ControlKind::PrepareEpoch), Some(ControlMessage::PrepareEpoch(msg))) => {
                let channel_id = match self.info.channel_id {
                    Some(channel_id) => channel_id,
                    None => self.info.guild_id,
                };
                self.dave_state.on_prepare_epoch(msg, self.info.user_id, channel_id);
                ControlOutcome::Processed
            },
            (
                Some(ControlKind::InvalidCommitWelcome),
                Some(ControlMessage::InvalidCommitWelcome(msg)),
            ) => {
                self.dave_state.on_invalid_commit_welcome(msg);
                ControlOutcome::Processed
            },
            _ => ControlOutcome::Malformed,
        }
    }

    /// Numbers and encodes a binary frame for the gateway.
    fn binary_frame(&self, opcode: u8, payload: &Bytes) -> (frame: OutboundFrame)
        ensures
            frame_of(
                self@.dave,
                OutboundModel::Binary { opcode, payload: octets(*payload) },
                frame,
            ),
    {
        let sequence = self.dave_state.last_binary_sequence.unwrap_or(0).wrapping_add(1);
        let frame = encode_client_binary_packet(sequence, opcode, octets_as_slice(payload));
        OutboundFrame::Binary { sequence, frame }
    }

    /// Takes the next frame that is to be sent to the gateway, if any: the key
    /// package first, then what is owed, oldest first.
    pub fn flush_dave_outbound(&mut self) -> (frame: Option<OutboundFrame>)
        ensures
            match frame {
                Some(f) => {
                    &&& outbound_queue(old(self)@.dave).len() > 0
                    &&& frame_of(old(self)@.dave, outbound_queue(old(self)@.dave).first(), f)
                    &&& final(self)@ == AuxModel {
                        dave: outbound_taken(old(self)@.dave),
                        ..old(self)@
                    }
                },
                None => outbound_queue(old(self)@.dave).len() == 0 && final(self)@ == old(self)@,
            },
    {
        if let Some(payload) = self.dave_state.take_pending_key_package() {
            return Some(self.binary_frame(26, &payload));
        }
        match self.dave_state.take_pending_outbound() {
            Some(DaveOutboundMessage::Json { op, data }) => Some(OutboundFrame::Json { op, data }),
            Some(DaveOutboundMessage::Binary { opcode, payload }) => Some(
                self.binary_frame(opcode, &payload),
            ),
            None => None,
        }
    }

    /// A frame that was taken to be sent has been sent.
    pub fn outbound_sent(&mut self, frame: &OutboundFrame)
        ensures
            final(self)@ == (match *frame {
                OutboundFrame::Binary { sequence, .. } => AuxModel {
                    dave: DaveModel { last_binary_sequence: Some(sequence), ..old(self)@.dave },
                    ..old(self)@
                },
                OutboundFrame::Json { .. } => old(self)@,
            }),
    {
        if let OutboundFrame::Binary { sequence, .. } = frame {
            self.dave_state.last_binary_sequence = Some(*sequence);
        }
    }

    /// The websocket failed: no event is sent on it any more. Unless the error is
    /// final, another one is asked for.
    pub fn on_ws_error(&mut self, err: &Error) -> (next: LoopControl)
        ensures
            final(self)@ == (AuxModel { dont_send: true, ..old(self)@ }),
            next == (if is_not_final(*err) {
                LoopControl::Reconnect
            } else {
                LoopControl::SignalClosure { attempt_idx: old(self)@.attempt_idx }
            }),
    {
        self.dont_send = true;
        if ws_error_is_not_final(err) {
            LoopControl::Reconnect
        } else {
            LoopControl::SignalClosure { attempt_idx: self.attempt_idx }
        }
    }
}

/// A message to the websocket task from the rest of the connection. What the
/// task itself does not read (the new websocket, the new interconnect) stays
/// with the caller; an interval is in nanoseconds.
#[derive(Debug)]
pub enum WsMessage {
    Ws,
    ReplaceInterconnect,
    SetKeepalive(u64),
    Speaking(bool),
    Deliver(Event),
    DeliverBinary(Bytes),
    DeliverUnknownJson { op: u8, data: Option<ControlMessage> },
}

/// Something that happens to the websocket task.
#[derive(Debug)]
pub enum AuxInput {
    /// The task starts to run.
    Started,
    /// A heartbeat is due.
    HeartbeatDue,
    /// Sending a heartbeat has ended, or there was none to be sent.
    HeartbeatEnded,
    /// The websocket delivered a frame that says nothing.
    ReceivedNothing,
    /// The rest of the connection, or the websocket, delivered a message.
    Message(WsMessage),
    /// Sending or receiving failed.
    Failed(Error),
    /// The rest of the connection is gone.
    Disconnected,
}

/// What the websocket task is to do.
#[derive(Debug)]
pub enum AuxAction {
    /// Wait for the next thing to happen.
    Wait,
    /// Send an event.
    Send(Event),
    /// Send a heartbeat, unless the websocket has failed, and say when that has
    /// ended.
    SendHeartbeat(Option<Event>),
    /// Act on an event, then send what the gateway is owed.
    Delivered(EventAction),
    /// Send what the gateway is owed, after a binary frame.
    Binary(BinaryOutcome),
    /// Send what the gateway is owed, after a JSON message.
    Control(ControlOutcome),
    /// Ask for a new websocket, and go on waiting.
    Reconnect,
    /// Report that this attempt is closed, and stop.
    SignalClosure { attempt_idx: usize },
    /// Stop.
    Stop,
}

/// Whether the next heartbeat can be planned: the clock does not run out before
/// it.
pub open spec fn can_plan(m: AuxModel, input: AuxInput, now: u64) -> bool {
    match input {
        AuxInput::Started | AuxInput::HeartbeatEnded | AuxInput::Message(WsMessage::Ws) => now
            + m.heartbeat_interval <= u64::MAX,
        AuxInput::Message(WsMessage::SetKeepalive(interval)) => now + interval <= u64::MAX,
        _ => true,
    }
}

/// The task with its next heartbeat planned one interval from now.
pub open spec fn heartbeat_planned(m: AuxModel, now: u64) -> AuxModel {
    AuxModel { next_heartbeat: (now + m.heartbeat_interval) as u64, ..m }
}

/// What a heartbeat with a given nonce does: the nonce is awaited, and sent
/// unless the websocket has failed.
pub open spec fn heartbeat_step(m: AuxModel, nonce: u64, f: AuxModel, action: AuxAction) -> bool {
    &&& f == AuxModel { last_heartbeat_nonce: Some(nonce), ..m }
    &&& action matches AuxAction::SendHeartbeat(event)
    &&& event is Some == !m.dont_send
    &&& event matches Some(e) ==> event_of(e) == (VoiceEvent::Heartbeat { nonce })
}

/// What the local user's starting or stopping to speak does: a change is noted
/// and sent, unless the websocket has failed.
pub open spec fn speaking_step(
    m: AuxModel,
    is_speaking: bool,
    f: AuxModel,
    action: AuxAction,
) -> bool {
    if m.speaking.microphone != is_speaking && !m.dont_send {
        &&& f == AuxModel {
            speaking: SpeakingFlags { microphone: is_speaking, ..m.speaking },
            ..m
        }
        &&& action matches AuxAction::Send(event)
        &&& event_of(event) matches VoiceEvent::Speaking(update)
        &&& update.delay == Some(0u32)
        &&& speaking_flags(update.speaking) == f.speaking
        &&& update.ssrc == m.ssrc
        &&& update.user_id is None
    } else {
        f == m && action is Wait
    }
}

/// What a binary frame does.
pub open spec fn binary_step(
    m: AuxModel,
    payload: Seq<u8>,
    f: AuxModel,
    action: AuxAction,
) -> bool {
    match parsed_frame(payload) {
        Some(packet) => {
            &&& binary_packet_step(m.dave, packet, f.dave)
            &&& f == AuxModel { dave: f.dave, ..m }
            &&& match action {
                AuxAction::Binary(BinaryOutcome::Dave(opcode)) => opcode.code() == packet.opcode,
                AuxAction::Binary(BinaryOutcome::NonDave(opcode)) => opcode == packet.opcode
                    && !crate::frames::is_dave_code(opcode),
                _ => false,
            }
        },
        None => f == m && action == AuxAction::Binary(BinaryOutcome::Malformed),
    }
}

/// What a JSON message outside the event model does.
pub open spec fn unknown_json_step(
    m: AuxModel,
    op: u8,
    data: Option<ControlMessage>,
    f: AuxModel,
    action: AuxAction,
) -> bool {
    match control_kind_of(op) {
        None => f == m && action == AuxAction::Control(ControlOutcome::Unknown),
        Some(kind) => if data is Some && data->0.kind() == kind {
            &&& action == AuxAction::Control(ControlOutcome::Processed)
            &&& control_step(m.dave, m.info, data->0, f.dave)
            &&& f == AuxModel { dave: f.dave, ..m }
        } else {
            f == m && action == AuxAction::Control(ControlOutcome::Malformed)
        },
    }
}

/// What anything that happens to the websocket task does: to the task, to what
/// is known of the users, and what is to be done about it.
pub open spec fn aux_step(
    m: AuxModel,
    t: TrackerModel,
    input: AuxInput,
    now: u64,
    f: AuxModel,
    u: TrackerModel,
    action: AuxAction,
) -> bool {
    match input {
        AuxInput::Started | AuxInput::HeartbeatEnded => u == t && f == heartbeat_planned(m, now)
            && action is Wait,
        AuxInput::HeartbeatDue => {
            &&& u == t
            &&& f.last_heartbeat_nonce matches Some(nonce)
            &&& nonce < JS_MAX_INT
            &&& heartbeat_step(m, nonce, f, action)
        },
        AuxInput::ReceivedNothing => f == m && u == t && action is Wait,
        AuxInput::Message(WsMessage::Ws) => {
            &&& u == t
            &&& f == AuxModel {
                dont_send: false,
                next_heartbeat: (now + m.heartbeat_interval) as u64,
                ..m
            }
            &&& action is Wait
        },
        AuxInput::Message(WsMessage::ReplaceInterconnect) => f == m && u == t && action is Wait,
        AuxInput::Message(WsMessage::SetKeepalive(interval)) => {
            &&& u == t
            &&& f == AuxModel {
                heartbeat_interval: interval,
                next_heartbeat: (now + interval) as u64,
                ..m
            }
            &&& action is Wait
        },
        AuxInput::Message(WsMessage::Speaking(is_speaking)) => u == t && speaking_step(
            m,
            is_speaking,
            f,
            action,
        ),
        AuxInput::Message(WsMessage::Deliver(event)) => {
            &&& f == event_processed(m, event_of(event))
            &&& u == event_tracked(t, event_of(event))
            &&& action == AuxAction::Delivered(
                event_action(event_of(event), m.last_heartbeat_nonce),
            )
        },
        AuxInput::Message(WsMessage::DeliverBinary(payload)) => u == t && binary_step(
            m,
            octets(payload),
            f,
            action,
        ),
        AuxInput::Message(WsMessage::DeliverUnknownJson { op, data }) => u == t
            && unknown_json_step(m, op, data, f, action),
        AuxInput::Failed(err) => {
            &&& u == t
            &&& f == AuxModel { dont_send: true, ..m }
            &&& action == if is_not_final(err) {
                AuxAction::Reconnect
            } else {
                AuxAction::SignalClosure { attempt_idx: m.attempt_idx }
            }
        },
        AuxInput::Disconnected => f == m && u == t && action is Stop,
    }
}

impl AuxNetwork {
    /// Decides what to do about something that happened. What is sent, asked
    /// for or reported is up to the caller, who hands back any failure.
    pub fn run_step(&mut self, tracker: &mut SsrcTracker, input: AuxInput, now: u64) -> (action:
        AuxAction)
        requires
            can_plan(old(self)@, input, now),
        ensures
            aux_step(
                old(self)@,
                old(tracker)@,
                input,
                now,
                final(self)@,
                final(tracker)@,
                action,
            ),
    {
        match input {
            AuxInput::Started | AuxInput::HeartbeatEnded => {
                self.schedule_heartbeat(now);
                AuxAction::Wait
            },
            AuxInput::HeartbeatDue => AuxAction::SendHeartbeat(self.send_heartbeat()),
            AuxInput::ReceivedNothing => AuxAction::Wait,
            AuxInput::Message(message) => self.on_message(tracker, message, now),
            AuxInput::Failed(err) => match self.on_ws_error(&err) {
                LoopControl::Reconnect => AuxAction::Reconnect,
                LoopControl::SignalClosure { attempt_idx } => AuxAction::SignalClosure {
                    attempt_idx,
                },
            },
            AuxInput::Disconnected => AuxAction::Stop,
        }
    }

    /// Decides what to do about a message.
    fn on_message(&mut self, tracker: &mut SsrcTracker, message: WsMessage, now: u64) -> (action:
        AuxAction)
        requires
            can_plan(old(self)@, AuxInput::Message(message), now),
        ensures
            aux_step(
                old(self)@,
                old(tracker)@,
                AuxInput::Message(message),
                now,
                final(self)@,
                final(tracker)@,
                action,
            ),
    {
        match message {
            WsMessage::Ws => {
                self.stream_replaced(now);
                AuxAction::Wait
            },
            WsMessage::ReplaceInterconnect => AuxAction::Wait,
            WsMessage::SetKeepalive(interval) => {
                self.set_keepalive(interval, now);
                AuxAction::Wait
            },
            WsMessage::Speaking(is_speaking) => match self.set_speaking(is_speaking) {
                Some(event) => AuxAction::Send(event),
                None => AuxAction::Wait,
            },
            WsMessage::Deliver(event) => AuxAction::Delivered(self.process_ws(tracker, &event)),
            WsMessage::DeliverBinary(payload) => AuxAction::Binary(
                self.process_ws_binary(&payload),
            ),
            WsMessage::DeliverUnknownJson { op, data } => AuxAction::Control(
                self.process_ws_unknown_json(op, data),
            ),
        }
    }
}

} // verus!
