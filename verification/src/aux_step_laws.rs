//! What the websocket task does with each thing that happens to it: what is sent,
//! who is told, what is noted, and what stays as it was.
use crate::aux_network::{
    aux_step, can_plan, control_kind_of, frame_of, next_sequence, outbound_queue, outbound_taken,
    AuxAction, AuxInput, AuxModel, AuxNetwork, BinaryOutcome, ControlKind, ControlMessage,
    ControlOutcome, EventAction, OutboundFrame, WsMessage, JS_MAX_INT,
};
use crate::frames::{
    law_bare_frame_parsed, law_client_frame_bytes, law_sequenced_frame_parsed, DaveBinaryOpcode,
    FrameModel,
};
use crate::json::json_of;
use crate::octets::octets;
use crate::ssrc::TrackerModel;
use crate::voice::{event_of, speaking_flags, VoiceEvent};
use crate::ws::Error;
use crate::ws_dave::{
    binary_packet_step, execute_transition_step, invalid_commit_welcome_step, prepare_epoch_step,
    prepare_transition_step, DaveModel, OutboundModel,
};
use bytes::Bytes;
use serenity_voice_model::Event;
use vstd::prelude::*;

verus! {

/// Starting to run, and having sent a heartbeat, plans the next heartbeat one
/// interval from now, and does nothing else.
pub proof fn law_next_heartbeat_planned(
    m: AuxModel,
    t: TrackerModel,
    input: AuxInput,
    now: u64,
    f: AuxModel,
    u: TrackerModel,
    action: AuxAction,
)
    requires
        input is Started || input is HeartbeatEnded,
        now + m.heartbeat_interval <= u64::MAX,
        aux_step(m, t, input, now, f, u, action),
    ensures
        can_plan(m, input, now),
        f.next_heartbeat == now + m.heartbeat_interval,
        f == (AuxModel { next_heartbeat: f.next_heartbeat, ..m }),
        u == t,
        action is Wait,
{
}

/// A heartbeat that is due has a nonce that a peer holds exactly, which is awaited
/// then. It is sent with that nonce, unless the websocket has failed. When the next
/// one is due is left open until this one has been sent.
pub proof fn law_due_heartbeat_sent(
    m: AuxModel,
    t: TrackerModel,
    now: u64,
    f: AuxModel,
    u: TrackerModel,
    action: AuxAction,
)
    requires
        aux_step(m, t, AuxInput::HeartbeatDue, now, f, u, action),
    ensures
        f.last_heartbeat_nonce is Some,
        f.last_heartbeat_nonce->0 < 9007199254740991,
        f == (AuxModel { last_heartbeat_nonce: f.last_heartbeat_nonce, ..m }),
        u == t,
        m.dont_send ==> action == AuxAction::SendHeartbeat(None),
        !m.dont_send ==> action is SendHeartbeat && action->SendHeartbeat_0 is Some && event_of(
            action->SendHeartbeat_0->0,
        ) == (VoiceEvent::Heartbeat { nonce: f.last_heartbeat_nonce->0 }),
{
}

/// A new websocket is sent on again, whether or not the last one had failed, with
/// the next heartbeat one interval from now.
pub proof fn law_new_websocket_used(
    m: AuxModel,
    t: TrackerModel,
    now: u64,
    f: AuxModel,
    u: TrackerModel,
    action: AuxAction,
)
    requires
        now + m.heartbeat_interval <= u64::MAX,
        aux_step(m, t, AuxInput::Message(WsMessage::Ws), now, f, u, action),
    ensures
        can_plan(m, AuxInput::Message(WsMessage::Ws), now),
        !f.dont_send,
        f.next_heartbeat == now + m.heartbeat_interval,
        f == (AuxModel { dont_send: f.dont_send, next_heartbeat: f.next_heartbeat, ..m }),
        u == t,
        action is Wait,
{
}

/// Another interval between heartbeats counts from now on.
pub proof fn law_new_interval_kept(
    m: AuxModel,
    t: TrackerModel,
    interval: u64,
    now: u64,
    f: AuxModel,
    u: TrackerModel,
    action: AuxAction,
)
    requires
        now + interval <= u64::MAX,
        aux_step(m, t, AuxInput::Message(WsMessage::SetKeepalive(interval)), now, f, u, action),
    ensures
        can_plan(m, AuxInput::Message(WsMessage::SetKeepalive(interval)), now),
        f.heartbeat_interval == interval,
        f.next_heartbeat == now + interval,
        f == (AuxModel {
            heartbeat_interval: f.heartbeat_interval,
            next_heartbeat: f.next_heartbeat,
            ..m
        }),
        u == t,
        action is Wait,
{
}

/// A heartbeat is always planned but where the clock would run out before it is
/// due; nothing else depends on the clock.
pub proof fn law_planned_while_clock_runs(m: AuxModel, input: AuxInput, now: u64)
    ensures
        now + m.heartbeat_interval <= u64::MAX && !(input matches AuxInput::Message(
            WsMessage::SetKeepalive(_),
        )) ==> can_plan(m, input, now),
        input is HeartbeatDue || input is ReceivedNothing || input is Failed
            || input is Disconnected ==> can_plan(m, input, now),
        input matches AuxInput::Message(message) && (message is ReplaceInterconnect
            || message is Speaking || message is Deliver || message is DeliverBinary
            || message is DeliverUnknownJson) ==> can_plan(m, input, now),
{
}

/// A change of the local user's speaking is noted and told, with the connection's
/// SSRC and without a delay, on a websocket that has not failed. The other speaking
/// flags stay, and are told too.
pub proof fn law_speaking_change_told(
    m: AuxModel,
    t: TrackerModel,
    is_speaking: bool,
    now: u64,
    f: AuxModel,
    u: TrackerModel,
    action: AuxAction,
)
    requires
        m.speaking.microphone != is_speaking,
        !m.dont_send,
        aux_step(m, t, AuxInput::Message(WsMessage::Speaking(is_speaking)), now, f, u, action),
    ensures
        f.speaking.microphone == is_speaking,
        f.speaking.soundshare == m.speaking.soundshare,
        f.speaking.priority == m.speaking.priority,
        f == (AuxModel { speaking: f.speaking, ..m }),
        u == t,
        action is Send,
        event_of(action->Send_0) is Speaking,
        event_of(action->Send_0)->Speaking_0.delay == Some(0u32),
        event_of(action->Send_0)->Speaking_0.ssrc == m.ssrc,
        event_of(action->Send_0)->Speaking_0.user_id is None,
        speaking_flags(event_of(action->Send_0)->Speaking_0.speaking) == f.speaking,
{
}

/// Nothing is told, and nothing noted, of a speaking state that is no change, nor on
/// a websocket that has failed.
pub proof fn law_speaking_without_change_untold(
    m: AuxModel,
    t: TrackerModel,
    is_speaking: bool,
    now: u64,
    f: AuxModel,
    u: TrackerModel,
    action: AuxAction,
)
    requires
        m.speaking.microphone == is_speaking || m.dont_send,
        aux_step(m, t, AuxInput::Message(WsMessage::Speaking(is_speaking)), now, f, u, action),
    ensures
        f == m,
        u == t,
        action is Wait,
{
}

/// A frame that says nothing and a new interconnect only let the task wait on; the
/// end of the rest of the connection ends it.
pub proof fn law_nothing_to_be_done(
    m: AuxModel,
    t: TrackerModel,
    input: AuxInput,
    now: u64,
    f: AuxModel,
    u: TrackerModel,
    action: AuxAction,
)
    requires
        input is ReceivedNothing || input is Disconnected || input == AuxInput::Message(
            WsMessage::ReplaceInterconnect,
        ),
        aux_step(m, t, input, now, f, u, action),
    ensures
        f == m,
        u == t,
        input is Disconnected ==> action is Stop,
        !(input is Disconnected) ==> action is Wait,
{
}

/// Whoever is said to speak is known by that SSRC from then on, in place of any
/// earlier one, and everyone else as before. The handlers are told, also where the
/// message names no user.
pub proof fn law_speaker_known(
    m: AuxModel,
    t: TrackerModel,
    event: Event,
    now: u64,
    f: AuxModel,
    u: TrackerModel,
    action: AuxAction,
)
    requires
        event_of(event) is Speaking,
        aux_step(m, t, AuxInput::Message(WsMessage::Deliver(event)), now, f, u, action),
    ensures
        action == AuxAction::Delivered(EventAction::FireSpeakingUpdate),
        f == m,
        u.disconnected == t.disconnected,
        event_of(event)->Speaking_0.user_id is None ==> u.ssrcs == t.ssrcs,
        event_of(event)->Speaking_0.user_id matches Some(user_id) ==> {
            &&& u.ssrcs.contains_key(user_id)
            &&& u.ssrcs[user_id] == event_of(event)->Speaking_0.ssrc
            &&& u.ssrcs.remove(user_id) == t.ssrcs.remove(user_id)
        },
{
    if event_of(event)->Speaking_0.user_id is Some {
        let user_id = event_of(event)->Speaking_0.user_id->0;
        assert(u.ssrcs.remove(user_id) =~= t.ssrcs.remove(user_id));
    }
}

/// Whoever leaves is noted as gone, beside those noted before, and keeps the SSRC
/// for now. The handlers are told.
pub proof fn law_leaver_noted(
    m: AuxModel,
    t: TrackerModel,
    event: Event,
    user_id: u64,
    now: u64,
    f: AuxModel,
    u: TrackerModel,
    action: AuxAction,
)
    requires
        event_of(event) == (VoiceEvent::ClientDisconnect { user_id }),
        aux_step(m, t, AuxInput::Message(WsMessage::Deliver(event)), now, f, u, action),
    ensures
        action == AuxAction::Delivered(EventAction::FireClientDisconnect),
        f == m,
        u.ssrcs == t.ssrcs,
        forall|other: u64| #[trigger]
            u.disconnected.contains(other) <==> t.disconnected.contains(other) || other == user_id,
{
}

/// An acknowledgement ends the wait for one, whatever its nonce: it matches only the
/// nonce that was awaited, and none where nothing was awaited.
pub proof fn law_acknowledgement_told(
    m: AuxModel,
    t: TrackerModel,
    event: Event,
    nonce: u64,
    now: u64,
    f: AuxModel,
    u: TrackerModel,
    action: AuxAction,
)
    requires
        event_of(event) == (VoiceEvent::HeartbeatAck { nonce }),
        aux_step(m, t, AuxInput::Message(WsMessage::Deliver(event)), now, f, u, action),
    ensures
        f.last_heartbeat_nonce is None,
        f == (AuxModel { last_heartbeat_nonce: f.last_heartbeat_nonce, ..m }),
        u == t,
        m.last_heartbeat_nonce == Some(nonce) ==> action == AuxAction::Delivered(
            EventAction::AckMatched,
        ),
        m.last_heartbeat_nonce is None ==> action == AuxAction::Delivered(
            EventAction::AckUnexpected,
        ),
        m.last_heartbeat_nonce is Some && m.last_heartbeat_nonce != Some(nonce) ==> action
            == AuxAction::Delivered(
            EventAction::AckMismatched { expected: m.last_heartbeat_nonce->0, seen: nonce },
        ),
{
}

/// Every other event changes nothing: a client's connecting, which the gateway no
/// longer tells, is reported as such, and the rest is ignored.
pub proof fn law_other_events_ignored(
    m: AuxModel,
    t: TrackerModel,
    event: Event,
    now: u64,
    f: AuxModel,
    u: TrackerModel,
    action: AuxAction,
)
    requires
        event_of(event) is ClientConnect || event_of(event) is Heartbeat || event_of(
            event,
        ) is Other,
        aux_step(m, t, AuxInput::Message(WsMessage::Deliver(event)), now, f, u, action),
    ensures
        f == m,
        u == t,
        event_of(event) is ClientConnect ==> action == AuxAction::Delivered(
            EventAction::Discontinued,
        ),
        !(event_of(event) is ClientConnect) ==> action == AuxAction::Delivered(
            EventAction::Ignored,
        ),
{
}

/// A binary frame that begins with one of the six DAVE opcodes acts on the DAVE
/// state with that opcode, without a sequence number and with all that follows, and
/// is reported under that opcode. Nothing else changes.
pub proof fn law_bare_binary_delivered(
    m: AuxModel,
    t: TrackerModel,
    bytes: Bytes,
    now: u64,
    f: AuxModel,
    u: TrackerModel,
    action: AuxAction,
)
    requires
        octets(bytes).len() > 0,
        25 <= octets(bytes)[0] <= 30,
        aux_step(m, t, AuxInput::Message(WsMessage::DeliverBinary(bytes)), now, f, u, action),
    ensures
        binary_packet_step(
            m.dave,
            FrameModel {
                sequence: None,
                opcode: octets(bytes)[0],
                payload: octets(bytes).skip(1),
            },
            f.dave,
        ),
        f == (AuxModel { dave: f.dave, ..m }),
        u == t,
        octets(bytes)[0] == 25 ==> action == AuxAction::Binary(
            BinaryOutcome::Dave(DaveBinaryOpcode::MlsExternalSender),
        ),
        octets(bytes)[0] == 26 ==> action == AuxAction::Binary(
            BinaryOutcome::Dave(DaveBinaryOpcode::MlsKeyPackage),
        ),
        octets(bytes)[0] == 27 ==> action == AuxAction::Binary(
            BinaryOutcome::Dave(DaveBinaryOpcode::MlsProposals),
        ),
        octets(bytes)[0] == 28 ==> action == AuxAction::Binary(
            BinaryOutcome::Dave(DaveBinaryOpcode::MlsCommitWelcome),
        ),
        octets(bytes)[0] == 29 ==> action == AuxAction::Binary(
            BinaryOutcome::Dave(DaveBinaryOpcode::MlsAnnounceCommitTransition),
        ),
        octets(bytes)[0] == 30 ==> action == AuxAction::Binary(
            BinaryOutcome::Dave(DaveBinaryOpcode::MlsWelcome),
        ),
{
    let b = octets(bytes);
    assert(b =~= seq![b[0]] + b.skip(1));
    law_bare_frame_parsed(b[0], b.skip(1));
}

/// Any other binary frame of three bytes or more acts on the DAVE state with the
/// sequence number of its first two bytes, the opcode of its third and all that
/// follows. It is reported under its opcode, as one of DAVE or as none.
pub proof fn law_sequenced_binary_delivered(
    m: AuxModel,
    t: TrackerModel,
    bytes: Bytes,
    sequence: u16,
    now: u64,
    f: AuxModel,
    u: TrackerModel,
    action: AuxAction,
)
    requires
        octets(bytes).len() >= 3,
        octets(bytes)[0] < 25 || octets(bytes)[0] > 30,
        sequence == octets(bytes)[0] * 256 + octets(bytes)[1],
        aux_step(m, t, AuxInput::Message(WsMessage::DeliverBinary(bytes)), now, f, u, action),
    ensures
        binary_packet_step(
            m.dave,
            FrameModel {
                sequence: Some(sequence),
                opcode: octets(bytes)[2],
                payload: octets(bytes).skip(3),
            },
            f.dave,
        ),
        f == (AuxModel { dave: f.dave, ..m }),
        u == t,
        octets(bytes)[2] < 25 || octets(bytes)[2] > 30 ==> action == AuxAction::Binary(
            BinaryOutcome::NonDave(octets(bytes)[2]),
        ),
        25 <= octets(bytes)[2] <= 30 ==> (action matches AuxAction::Binary(
            BinaryOutcome::Dave(opcode),
        ) && opcode.code() == octets(bytes)[2]),
{
    let b = octets(bytes);
    assert(b =~= seq![b[0], b[1], b[2]] + b.skip(3));
    law_sequenced_frame_parsed(b[0], b[1], b[2], b.skip(3));
}

/// A binary frame that is empty, or too short for a sequence number and an opcode
/// where it begins with no DAVE opcode, is malformed and changes nothing.
pub proof fn law_short_binary_malformed(
    m: AuxModel,
    t: TrackerModel,
    bytes: Bytes,
    now: u64,
    f: AuxModel,
    u: TrackerModel,
    action: AuxAction,
)
    requires
        octets(bytes).len() < 3,
        octets(bytes).len() > 0 ==> octets(bytes)[0] < 25 || octets(bytes)[0] > 30,
        aux_step(m, t, AuxInput::Message(WsMessage::DeliverBinary(bytes)), now, f, u, action),
    ensures
        f == m,
        u == t,
        action == AuxAction::Binary(BinaryOutcome::Malformed),
{
}

/// The four opcodes of control messages, each with the kind that its data is read
/// as. No other opcode is one.
pub proof fn law_control_opcodes(op: u8)
    ensures
        op == 21 ==> control_kind_of(op) == Some(ControlKind::PrepareTransition),
        op == 22 ==> control_kind_of(op) == Some(ControlKind::ExecuteTransition),
        op == 24 ==> control_kind_of(op) == Some(ControlKind::PrepareEpoch),
        op == 31 ==> control_kind_of(op) == Some(ControlKind::InvalidCommitWelcome),
        op != 21 && op != 22 && op != 24 && op != 31 ==> control_kind_of(op) is None,
{
}

/// A control message that comes under its opcode acts on the DAVE state and on
/// nothing else. An epoch is announced for the connection's user, in the channel,
/// or in the guild where the channel is not known.
pub proof fn law_control_message_delivered(
    m: AuxModel,
    t: TrackerModel,
    op: u8,
    message: ControlMessage,
    now: u64,
    f: AuxModel,
    u: TrackerModel,
    action: AuxAction,
)
    requires
        ({
            ||| op == 21 && message is PrepareTransition
            ||| op == 22 && message is ExecuteTransition
            ||| op == 24 && message is PrepareEpoch
            ||| op == 31 && message is InvalidCommitWelcome
        }),
        aux_step(
            m,
            t,
            AuxInput::Message(WsMessage::DeliverUnknownJson { op, data: Some(message) }),
            now,
            f,
            u,
            action,
        ),
    ensures
        action == AuxAction::Control(ControlOutcome::Processed),
        f == (AuxModel { dave: f.dave, ..m }),
        u == t,
        message matches ControlMessage::PrepareTransition(msg) ==> prepare_transition_step(
            m.dave,
            msg,
            f.dave,
        ),
        message matches ControlMessage::ExecuteTransition(msg) ==> execute_transition_step(
            m.dave,
            msg,
            f.dave,
        ),
        message matches ControlMessage::InvalidCommitWelcome(msg) ==> invalid_commit_welcome_step(
            m.dave,
            msg,
            f.dave,
        ),
        message matches ControlMessage::PrepareEpoch(msg) ==> prepare_epoch_step(
            m.dave,
            msg,
            m.info.user_id,
            if m.info.channel_id is Some {
                m.info.channel_id->0
            } else {
                m.info.guild_id
            },
            f.dave,
        ),
{
}

/// A control message whose data could not be read, or was read as another kind, is
/// malformed, and any other opcode is unknown. Both change nothing.
pub proof fn law_other_json_changes_nothing(
    m: AuxModel,
    t: TrackerModel,
    op: u8,
    data: Option<ControlMessage>,
    now: u64,
    f: AuxModel,
    u: TrackerModel,
    action: AuxAction,
)
    requires
        !(op == 21 && data is Some && data->0 is PrepareTransition),
        !(op == 22 && data is Some && data->0 is ExecuteTransition),
        !(op == 24 && data is Some && data->0 is PrepareEpoch),
        !(op == 31 && data is Some && data->0 is InvalidCommitWelcome),
        aux_step(
            m,
            t,
            AuxInput::Message(WsMessage::DeliverUnknownJson { op, data }),
            now,
            f,
            u,
            action,
        ),
    ensures
        f == m,
        u == t,
        op == 21 || op == 22 || op == 24 || op == 31 ==> action == AuxAction::Control(
            ControlOutcome::Malformed,
        ),
        op != 21 && op != 22 && op != 24 && op != 31 ==> action == AuxAction::Control(
            ControlOutcome::Unknown,
        ),
{
}

/// A failure silences the websocket. A close with one of the gateway's final codes
/// ends this attempt, and every other failure asks for a new websocket.
pub proof fn law_failure_answered(
    m: AuxModel,
    t: TrackerModel,
    err: Error,
    now: u64,
    f: AuxModel,
    u: TrackerModel,
    action: AuxAction,
)
    requires
        aux_step(m, t, AuxInput::Failed(err), now, f, u, action),
    ensures
        f.dont_send,
        f == (AuxModel { dont_send: f.dont_send, ..m }),
        u == t,
        action == (AuxAction::SignalClosure { attempt_idx: m.attempt_idx }) || action
            == AuxAction::Reconnect,
        action is SignalClosure <==> {
            &&& err matches Error::WsClosed(Some(frame))
            &&& {
                ||| 4001 <= frame.code <= 4006
                ||| frame.code == 4011
                ||| frame.code == 4012
                ||| frame.code == 4014
                ||| frame.code == 4016
                ||| frame.code == 4017
                ||| 4020 <= frame.code <= 4022
            }
        },
{
}

/// The next binary frame has the number after the last one's, sent or received: 1
/// where there was none, and 0 once the numbers have run out.
pub proof fn law_next_sequence_number(m: DaveModel)
    ensures
        m.last_binary_sequence is None ==> next_sequence(m) == 1,
        m.last_binary_sequence matches Some(last) ==> next_sequence(m) == (last + 1) % 65536,
{
}

/// A key package is sent before anything that is owed, as a frame of opcode 26, and
/// taking it leaves what is owed in place.
pub proof fn law_key_package_first(m: DaveModel)
    requires
        m.pending_key_package is Some,
    ensures
        outbound_queue(m).len() == 1 + m.pending_outbound.len(),
        outbound_queue(m)[0] == (OutboundModel::Binary {
            opcode: 26,
            payload: m.pending_key_package->0,
        }),
        forall|i: int|
            0 <= i < m.pending_outbound.len() ==> outbound_queue(m)[i + 1]
                == #[trigger] m.pending_outbound[i],
        outbound_taken(m) == (DaveModel { pending_key_package: None, ..m }),
{
}

/// Without a key package to be sent, what is owed is sent, oldest first, and taking
/// one message leaves the others in their order.
pub proof fn law_oldest_owed_first(m: DaveModel)
    requires
        m.pending_key_package is None,
    ensures
        outbound_queue(m) == m.pending_outbound,
        m.pending_outbound.len() > 0 ==> outbound_taken(m).pending_outbound
            == m.pending_outbound.skip(1),
        outbound_taken(m) == (DaveModel {
            pending_outbound: outbound_taken(m).pending_outbound,
            ..m
        }),
{
}

/// The frame of an owed message: JSON with its opcode and data, and anything binary
/// under the next sequence number, which the bytes hold but for a key package and a
/// commit with its welcome.
pub proof fn law_frame_of_owed_message(m: DaveModel, message: OutboundModel, frame: OutboundFrame)
    requires
        frame_of(m, message, frame),
    ensures
        message matches OutboundModel::Json { op, data } ==> {
            &&& frame is Json
            &&& frame->op == op
            &&& json_of(frame->data) == data
        },
        message matches OutboundModel::Binary { opcode, payload } ==> {
            &&& frame is Binary
            &&& m.last_binary_sequence is None ==> frame->sequence == 1
            &&& m.last_binary_sequence matches Some(last) ==> frame->sequence == (last + 1) % 65536
            &&& opcode == 26 || opcode == 28 ==> octets(frame->frame) == seq![opcode] + payload
            &&& opcode != 26 && opcode != 28 ==> {
                &&& octets(frame->frame).len() == 3 + payload.len()
                &&& octets(frame->frame)[0] * 256 + octets(frame->frame)[1] == frame->sequence
                &&& octets(frame->frame)[2] == opcode
                &&& octets(frame->frame).skip(3) == payload
            }
        },
{
    if let OutboundModel::Binary { opcode, payload } = message {
        law_client_frame_bytes(frame->sequence, opcode, payload);
        let bytes = octets(frame->frame);
        if opcode == 26 || opcode == 28 {
            assert(bytes =~= seq![bytes[0]] + bytes.skip(1));
        }
    }
}

/// What the model of the task shows: every field of the task as it is, with its
/// speaking flags and its DAVE state by what they say.
pub proof fn law_task_shown(aux: AuxNetwork)
    ensures
        aux@.dont_send == aux.dont_send,
        aux@.ssrc == aux.ssrc,
        aux@.heartbeat_interval == aux.heartbeat_interval,
        aux@.next_heartbeat == aux.next_heartbeat,
        aux@.speaking == speaking_flags(aux.speaking),
        aux@.last_heartbeat_nonce == aux.last_heartbeat_nonce,
        aux@.attempt_idx == aux.attempt_idx,
        aux@.info == aux.info,
        aux@.dave == aux.dave_state@,
{
}

/// Nonces are drawn from all the integers that a JavaScript peer holds exactly.
pub proof fn law_nonces_held_exactly()
    ensures
        JS_MAX_INT == 9007199254740991,
{
}

} // verus!
