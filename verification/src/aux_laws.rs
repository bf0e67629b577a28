//! What holds of the websocket task as a whole.
use crate::aux_network::{
    aux_step, can_plan, event_action, event_processed, frame_of, heartbeat_step, next_sequence,
    outbound_queue, outbound_taken, speaking_step, AuxAction, AuxInput, AuxModel, ConnectionIds,
    ControlMessage, EventAction, OutboundFrame, WsMessage,
};
use crate::dave_laws::{law_owed_messages_kept, DaveInput};
use crate::frames::{
    law_client_frame_without_sequence, parsed_frame, sent_without_sequence, FrameModel,
};
use crate::json::{envelope, number_object, raw_text_key, Json, JsonNumber, MAX_JSON_DEPTH};
use crate::octets::octets;
use crate::ssrc::TrackerModel;
use crate::voice::VoiceEvent;
use crate::ws::{is_not_final, law_envelope_routed, text_message, GatewayModel};
use crate::ws_dave::{
    invalid_message, ready_message, DaveModel, OutboundModel, INVALID_COMMIT_WELCOME_OP,
    TRANSITION_READY_OP,
};
use serenity_voice_model::Event;
use vstd::prelude::*;

verus! {

/// Whether an input replaces the websocket.
pub open spec fn replaces_websocket(input: AuxInput) -> bool {
    input matches AuxInput::Message(message) && message is Ws
}

/// Whether an input is a frame or message of the gateway about DAVE.
pub open spec fn concerns_dave(input: AuxInput) -> bool {
    input matches AuxInput::Message(message) && (message is DeliverBinary
        || message is DeliverUnknownJson)
}

/// Whether an input is an event of the gateway.
pub open spec fn is_event(input: AuxInput) -> bool {
    input matches AuxInput::Message(message) && message is Deliver
}

/// Only what the gateway says about DAVE changes the DAVE state, and only its
/// events change what is known of the users.
pub proof fn law_concerns_kept_apart(
    m: AuxModel,
    t: TrackerModel,
    input: AuxInput,
    now: u64,
    f: AuxModel,
    u: TrackerModel,
    action: AuxAction,
)
    requires
        aux_step(m, t, input, now, f, u, action),
    ensures
        !concerns_dave(input) ==> f.dave == m.dave,
        !is_event(input) ==> u == t,
        concerns_dave(input) ==> f == (AuxModel { dave: f.dave, ..m }),
{
}

/// Nothing that is owed to the gateway is lost, whatever happens: what waits
/// stays in place and in order, with at most one message more behind it.
pub proof fn law_nothing_owed_is_lost(
    m: AuxModel,
    t: TrackerModel,
    input: AuxInput,
    now: u64,
    f: AuxModel,
    u: TrackerModel,
    action: AuxAction,
)
    requires
        aux_step(m, t, input, now, f, u, action),
    ensures
        f.dave.pending_outbound == m.dave.pending_outbound || (f.dave.pending_outbound.len()
            == m.dave.pending_outbound.len() + 1 && f.dave.pending_outbound.drop_last()
            == m.dave.pending_outbound),
{
    match input {
        AuxInput::Message(WsMessage::DeliverBinary(payload)) => {
            if let Some(packet) = parsed_frame(octets(payload)) {
                law_owed_messages_kept(m.dave, DaveInput::Binary(packet), f.dave);
            }
        },
        AuxInput::Message(WsMessage::DeliverUnknownJson { data: Some(message), .. }) => {
            if f.dave != m.dave {
                law_owed_messages_kept(m.dave, control_input(message, m.info), f.dave);
            }
        },
        _ => {},
    }
}

/// What a control message is to the DAVE state of a connection.
pub open spec fn control_input(message: ControlMessage, info: ConnectionIds) -> DaveInput {
    match message {
        ControlMessage::PrepareTransition(msg) => DaveInput::PrepareTransition(msg),
        ControlMessage::ExecuteTransition(msg) => DaveInput::ExecuteTransition(msg),
        ControlMessage::PrepareEpoch(msg) => DaveInput::PrepareEpoch {
            msg,
            user_id: info.user_id,
            channel_id: info.group_id(),
        },
        ControlMessage::InvalidCommitWelcome(msg) => DaveInput::InvalidCommitWelcome(msg),
    }
}

/// Once the websocket has failed, no event is sent until it is replaced.
pub proof fn law_silent_after_failure(
    m: AuxModel,
    t: TrackerModel,
    input: AuxInput,
    now: u64,
    f: AuxModel,
    u: TrackerModel,
    action: AuxAction,
)
    requires
        m.dont_send,
        !replaces_websocket(input),
        aux_step(m, t, input, now, f, u, action),
    ensures
        f.dont_send,
        !(action is Send),
        action matches AuxAction::SendHeartbeat(event) ==> event is None,
{
}

/// Nothing but a failure silences the task, and replacing the websocket ends
/// the silence.
pub proof fn law_silenced_by_failure_only(
    m: AuxModel,
    t: TrackerModel,
    input: AuxInput,
    now: u64,
    f: AuxModel,
    u: TrackerModel,
    action: AuxAction,
)
    requires
        aux_step(m, t, input, now, f, u, action),
    ensures
        !m.dont_send && f.dont_send ==> input is Failed,
        replaces_websocket(input) ==> !f.dont_send,
        input is Failed ==> f.dont_send,
{
}

/// The task stops for two reasons only: the rest of the connection is gone, or
/// the websocket failed for good; any other failure asks for a new websocket.
pub proof fn law_stops_for_final_errors_only(
    m: AuxModel,
    t: TrackerModel,
    input: AuxInput,
    now: u64,
    f: AuxModel,
    u: TrackerModel,
    action: AuxAction,
)
    requires
        aux_step(m, t, input, now, f, u, action),
    ensures
        action is Stop <==> input is Disconnected,
        action is SignalClosure <==> (input matches AuxInput::Failed(err) && !is_not_final(err)),
        action is Reconnect <==> (input matches AuxInput::Failed(err) && is_not_final(err)),
{
}

/// A heartbeat is sent when one is due and at no other time. When sending it has
/// ended, well or not, the next one is planned one interval on; so it is with a
/// new websocket, and with a new interval.
pub proof fn law_heartbeats_go_on(
    m: AuxModel,
    t: TrackerModel,
    input: AuxInput,
    now: u64,
    f: AuxModel,
    u: TrackerModel,
    action: AuxAction,
)
    requires
        can_plan(m, input, now),
        aux_step(m, t, input, now, f, u, action),
    ensures
        input is Started || input is HeartbeatEnded || replaces_websocket(input)
            ==> f.next_heartbeat == now + f.heartbeat_interval,
        action is SendHeartbeat <==> input is HeartbeatDue,
        input matches AuxInput::Message(WsMessage::SetKeepalive(interval))
            ==> f.heartbeat_interval == interval && f.next_heartbeat == now + interval,
        f.next_heartbeat != m.next_heartbeat ==> f.next_heartbeat == now + f.heartbeat_interval,
{
}

/// A heartbeat is acknowledged once: the acknowledgement with its nonce
/// matches, and ends the wait; one with another nonce is a mismatch, and ends
/// it too; after that, no acknowledgement is awaited.
pub proof fn law_heartbeat_acknowledged_once(
    m: AuxModel,
    nonce: u64,
    f: AuxModel,
    action: AuxAction,
    other: u64,
)
    requires
        heartbeat_step(m, nonce, f, action),
    ensures
        event_action(VoiceEvent::HeartbeatAck { nonce }, f.last_heartbeat_nonce)
            == EventAction::AckMatched,
        other != nonce ==> event_action(
            VoiceEvent::HeartbeatAck { nonce: other },
            f.last_heartbeat_nonce,
        ) == (EventAction::AckMismatched { expected: nonce, seen: other }),
        event_processed(f, VoiceEvent::HeartbeatAck { nonce: other }).last_heartbeat_nonce is None,
        event_action(
            VoiceEvent::HeartbeatAck { nonce },
            event_processed(f, VoiceEvent::HeartbeatAck { nonce: other }).last_heartbeat_nonce,
        ) == EventAction::AckUnexpected,
{
}

/// Saying twice that the local user speaks, or does not, tells the gateway at
/// most once.
pub proof fn law_speaking_told_once(
    m: AuxModel,
    is_speaking: bool,
    f: AuxModel,
    first: AuxAction,
    g: AuxModel,
    second: AuxAction,
)
    requires
        speaking_step(m, is_speaking, f, first),
        speaking_step(f, is_speaking, g, second),
    ensures
        g == f,
        second is Wait,
{
}

/// Taking a frame to be sent takes the first of what waits and leaves the rest
/// in order.
pub proof fn law_flush_in_order(m: DaveModel)
    requires
        outbound_queue(m).len() > 0,
    ensures
        outbound_queue(outbound_taken(m)) == outbound_queue(m).drop_first(),
{
    assert(outbound_queue(outbound_taken(m)) =~= outbound_queue(m).drop_first());
}

/// Key packages and commits with their welcomes go out without a sequence
/// number: the peer reads the opcode and the payload that were waiting.
pub proof fn law_flushed_frames_read_back(
    m: DaveModel,
    message: OutboundModel,
    frame: OutboundFrame,
)
    requires
        message matches OutboundModel::Binary { opcode, .. }
            && sent_without_sequence(opcode),
        frame_of(m, message, frame),
    ensures
        frame is Binary,
        parsed_frame(octets(frame->frame)) == Some(
            FrameModel {
                sequence: None,
                opcode: message->Binary_opcode,
                payload: message->Binary_payload,
            },
        ),
{
    law_client_frame_without_sequence(
        frame->sequence,
        message->Binary_opcode,
        message->Binary_payload,
    );
}

/// Binary frames that are sent one after the other are numbered one after the
/// other; after the last number comes 0.
pub proof fn law_sequence_numbers_count_up(m: DaveModel)
    ensures
        ({
            let sent = DaveModel { last_binary_sequence: Some(next_sequence(m)), ..m };
            next_sequence(sent) == (next_sequence(m) + 1) % 65536
        }),
{
}

/// The reports of a transition can be read back once they are sent: their data
/// is shallow enough, and comes back under the opcode it was sent with. A report
/// of an invalid commit or welcome does whatever else it could be read as.
pub proof fn law_reports_read_back(transition_id: u32, event: Option<Event>)
    ensures
        ({
            let data = number_object("transition_id"@, transition_id as u64);
            &&& ready_message(transition_id) == (OutboundModel::Json {
                op: TRANSITION_READY_OP,
                data,
            })
            &&& invalid_message(transition_id) == (OutboundModel::Json {
                op: INVALID_COMMIT_WELCOME_OP,
                data,
            })
            &&& data.reads_back((MAX_JSON_DEPTH - 1) as nat)
            &&& text_message(envelope(TRANSITION_READY_OP, data), None) == Some(
                GatewayModel::UnknownJson { op: TRANSITION_READY_OP, data },
            )
            &&& text_message(envelope(INVALID_COMMIT_WELCOME_OP, data), event) == Some(
                GatewayModel::UnknownJson { op: INVALID_COMMIT_WELCOME_OP, data },
            )
        }),
{
    let data = number_object("transition_id"@, transition_id as u64);
    reveal_strlit("transition_id");
    reveal_strlit("$serde_json::private::RawValue");
    assert(raw_text_key().len() != "transition_id"@.len());
    assert(Json::Number(JsonNumber::Unsigned(transition_id as u64)).reads_back(
        (MAX_JSON_DEPTH - 2) as nat,
    ));
    law_envelope_routed(TRANSITION_READY_OP, data);
    law_envelope_routed(INVALID_COMMIT_WELCOME_OP, data);
}

} // verus!
