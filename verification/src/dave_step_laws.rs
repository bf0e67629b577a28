//! What each message and frame does to the DAVE state, field by field: which
//! values it takes from the message, what the session is asked, what the gateway
//! is owed, and what stays as it was.
use crate::frames::FrameModel;
use crate::json::{json_of, Json, JsonNumber};
use crate::octets::octets;
use crate::session::{
    commit_reply, creation_reply, external_sender_reply, key_package_reply, opened_frame,
    passthrough_set, proposals_reply, session_of, welcome_reply, ProposalsModel,
};
use crate::ws_dave::{
    adopt_step, after_proposals, after_transition, binary_packet_step, execute_transition_step,
    handshake_phase, invalid_commit_welcome_step, opus_opened, prepare_epoch_step,
    prepare_transition_step, transition_mismatch, DaveExecuteTransition, DaveInvalidCommitWelcome,
    DaveModel, DaveOutboundMessage, DavePrepareEpoch, DavePrepareTransition, DaveState,
    OutboundModel,
};
use davey::DaveSession;
use vstd::prelude::*;

verus! {

/// An announced transition that is not older than the one at hand becomes the one
/// at hand: its id and version are taken over and its execution is awaited. The
/// session, if there is one, opens its passthrough, and then lets every member's
/// unencrypted frames through. Nothing else changes.
pub proof fn law_announced_transition_taken_over(
    m: DaveModel,
    msg: DavePrepareTransition,
    f: DaveModel,
)
    requires
        m.transition_id matches Some(current) ==> current <= msg.transition_id,
        prepare_transition_step(m, msg, f),
    ensures
        f.transition_id == Some(msg.transition_id),
        f.protocol_version == Some(msg.protocol_version),
        f.awaiting_transition_execute,
        f.seen_prepare_transition,
        m.session is None ==> f.session is None,
        m.session is Some ==> f.session is Some && passthrough_set(
            m.session->0,
            true,
            10,
            f.session->0,
        ),
        m.session is Some ==> forall|user_id: u64| #[trigger]
            session_of(f.session->0).passthrough.contains_key(user_id) ==> session_of(
                f.session->0,
            ).passthrough[user_id] is Open,
        m.session is Some ==> session_of(f.session->0).passthrough.dom() == session_of(
            m.session->0,
        ).passthrough.dom(),
        m.session is Some ==> session_of(f.session->0).ready == session_of(m.session->0).ready,
        f == (DaveModel {
            transition_id: f.transition_id,
            protocol_version: f.protocol_version,
            awaiting_transition_execute: f.awaiting_transition_execute,
            seen_prepare_transition: f.seen_prepare_transition,
            session: f.session,
            ..m
        }),
{
}

/// An announced transition that is older than the one at hand leaves no trace but
/// that an announcement has been seen.
pub proof fn law_older_transition_only_seen(
    m: DaveModel,
    msg: DavePrepareTransition,
    f: DaveModel,
)
    requires
        m.transition_id matches Some(current) && msg.transition_id < current,
        prepare_transition_step(m, msg, f),
    ensures
        f.seen_prepare_transition,
        f == (DaveModel { seen_prepare_transition: true, ..m }),
{
}

/// Executing the transition at hand ends the wait, whether or not its execution
/// was awaited, and ends the session's passthrough: ten seconds later at most, no
/// member's unencrypted frames are let through. Nothing else changes.
pub proof fn law_transition_at_hand_executed(
    m: DaveModel,
    msg: DaveExecuteTransition,
    f: DaveModel,
)
    requires
        m.transition_id == Some(msg.transition_id),
        execute_transition_step(m, msg, f),
    ensures
        !f.awaiting_transition_execute,
        m.session is None ==> f.session is None,
        m.session is Some ==> f.session is Some && passthrough_set(
            m.session->0,
            false,
            10,
            f.session->0,
        ),
        m.session is Some ==> forall|user_id: u64| #[trigger]
            session_of(f.session->0).passthrough.contains_key(user_id) ==> session_of(
                f.session->0,
            ).passthrough[user_id] is Closed,
        m.session is Some ==> session_of(f.session->0).passthrough.dom() == session_of(
            m.session->0,
        ).passthrough.dom(),
        m.session is Some ==> session_of(f.session->0).ready == session_of(m.session->0).ready,
        f == (DaveModel { awaiting_transition_execute: false, session: f.session, ..m }),
{
}

/// Executing any other transition, or one where none is at hand, changes nothing.
pub proof fn law_other_transition_not_executed(
    m: DaveModel,
    msg: DaveExecuteTransition,
    f: DaveModel,
)
    requires
        m.transition_id != Some(msg.transition_id),
        execute_transition_step(m, msg, f),
    ensures
        f == m,
{
}

/// Where the commit or welcome of the transition at hand was invalid, its
/// execution is no longer awaited, and every member's unencrypted frames are let
/// through. Nothing else changes.
pub proof fn law_transition_at_hand_invalid(
    m: DaveModel,
    msg: DaveInvalidCommitWelcome,
    f: DaveModel,
)
    requires
        m.transition_id == Some(msg.transition_id),
        invalid_commit_welcome_step(m, msg, f),
    ensures
        !f.awaiting_transition_execute,
        m.session is None ==> f.session is None,
        m.session is Some ==> f.session is Some && passthrough_set(
            m.session->0,
            true,
            10,
            f.session->0,
        ),
        m.session is Some ==> forall|user_id: u64| #[trigger]
            session_of(f.session->0).passthrough.contains_key(user_id) ==> session_of(
                f.session->0,
            ).passthrough[user_id] is Open,
        m.session is Some ==> session_of(f.session->0).passthrough.dom() == session_of(
            m.session->0,
        ).passthrough.dom(),
        m.session is Some ==> session_of(f.session->0).ready == session_of(m.session->0).ready,
        f == (DaveModel { awaiting_transition_execute: false, session: f.session, ..m }),
{
}

/// An invalid commit or welcome of any other transition, or one where none is at
/// hand, changes nothing.
pub proof fn law_other_transition_invalid(
    m: DaveModel,
    msg: DaveInvalidCommitWelcome,
    f: DaveModel,
)
    requires
        m.transition_id != Some(msg.transition_id),
        invalid_commit_welcome_step(m, msg, f),
    ensures
        f == m,
{
}

/// An announced epoch that is not older than the transition at hand is taken over:
/// its transition id, its version and its number. Whether a transition's execution
/// is awaited, what else has been seen, the local ids and the last sequence number
/// stay as they were.
pub proof fn law_announced_epoch_taken_over(
    m: DaveModel,
    msg: DavePrepareEpoch,
    user_id: u64,
    channel_id: u64,
    f: DaveModel,
)
    requires
        m.transition_id matches Some(current) ==> current <= msg.transition_id,
        prepare_epoch_step(m, msg, user_id, channel_id, f),
    ensures
        f.transition_id == Some(msg.transition_id),
        f.protocol_version == Some(msg.protocol_version),
        f.epoch == Some(msg.epoch),
        f.seen_prepare_epoch,
        f.awaiting_transition_execute == m.awaiting_transition_execute,
        f.last_binary_sequence == m.last_binary_sequence,
        f.local_user_id == m.local_user_id,
        f.local_channel_id == m.local_channel_id,
        f.seen_prepare_transition == m.seen_prepare_transition,
        f.seen_external_sender == m.seen_external_sender,
{
}

/// An announced epoch of a transition that is older than the one at hand leaves no
/// trace but that an announcement has been seen.
pub proof fn law_older_epoch_only_seen(
    m: DaveModel,
    msg: DavePrepareEpoch,
    user_id: u64,
    channel_id: u64,
    f: DaveModel,
)
    requires
        m.transition_id matches Some(current) && msg.transition_id < current,
        prepare_epoch_step(m, msg, user_id, channel_id, f),
    ensures
        f.seen_prepare_epoch,
        f == (DaveModel { seen_prepare_epoch: true, ..m }),
{
}

/// An announced epoch of protocol version 0 ends the session, takes back the key
/// package that was to be sent, and owes the gateway nothing.
pub proof fn law_epoch_without_encryption(
    m: DaveModel,
    msg: DavePrepareEpoch,
    user_id: u64,
    channel_id: u64,
    f: DaveModel,
)
    requires
        m.transition_id matches Some(current) ==> current <= msg.transition_id,
        msg.protocol_version == 0,
        prepare_epoch_step(m, msg, user_id, channel_id, f),
    ensures
        f.session is None,
        f.pending_key_package is None,
        f.pending_outbound == m.pending_outbound,
{
}

/// The first epoch, and any epoch where there is no session, asks for a session of
/// the announced version, and of version 1 where that is refused. A session that
/// was created opens its passthrough and is asked for a key package, which is to
/// be sent if it was made; what is kept has no members, no group and no external
/// sender, and is not ready. Where both were refused there is no session.
pub proof fn law_epoch_asks_for_session(
    m: DaveModel,
    msg: DavePrepareEpoch,
    user_id: u64,
    channel_id: u64,
    f: DaveModel,
)
    requires
        m.transition_id matches Some(current) ==> current <= msg.transition_id,
        msg.protocol_version != 0,
        msg.epoch == 1 || m.session is None,
        prepare_epoch_step(m, msg, user_id, channel_id, f),
    ensures
        f.session is None ==> {
            &&& creation_reply(msg.protocol_version, user_id, channel_id, None)
            &&& creation_reply(1, user_id, channel_id, None)
            &&& f.pending_key_package == m.pending_key_package
        },
        f.session is Some ==> exists|
            version: u16,
            created: DaveSession,
            asked: DaveSession,
            package: Option<Seq<u8>>,
        |
            #![trigger
                creation_reply(version, user_id, channel_id, Some(created)),
                passthrough_set(created, true, 10, asked),
                key_package_reply(asked, package, f.session->0)
            ]
            {
                &&& version == msg.protocol_version || (version == 1 && creation_reply(
                    msg.protocol_version,
                    user_id,
                    channel_id,
                    None,
                ))
                &&& creation_reply(version, user_id, channel_id, Some(created))
                &&& passthrough_set(created, true, 10, asked)
                &&& key_package_reply(asked, package, f.session->0)
                &&& package is Some ==> f.pending_key_package == package
                &&& package is None ==> f.pending_key_package == m.pending_key_package
            },
        f.session is Some ==> {
            let kept = session_of(f.session->0);
            &&& kept.version == 1
            &&& kept.user_id == user_id
            &&& kept.channel_id == channel_id
            &&& kept.status is Inactive
            &&& !kept.external_sender
            &&& !kept.has_group
            &&& !kept.ready
            &&& forall|member: u64| !#[trigger] kept.passthrough.contains_key(member)
        },
{
}

/// A later epoch keeps the session that there is, with every member's unencrypted
/// frames let through, and keeps the key package that is to be sent.
pub proof fn law_later_epoch_keeps_session(
    m: DaveModel,
    msg: DavePrepareEpoch,
    user_id: u64,
    channel_id: u64,
    f: DaveModel,
)
    requires
        m.transition_id matches Some(current) ==> current <= msg.transition_id,
        msg.protocol_version != 0,
        msg.epoch != 1,
        m.session is Some,
        prepare_epoch_step(m, msg, user_id, channel_id, f),
    ensures
        f.session is Some,
        passthrough_set(m.session->0, true, 10, f.session->0),
        forall|member: u64| #[trigger]
            session_of(f.session->0).passthrough.contains_key(member) ==> session_of(
                f.session->0,
            ).passthrough[member] is Open,
        session_of(f.session->0).passthrough.dom() == session_of(m.session->0).passthrough.dom(),
        session_of(f.session->0).ready == session_of(m.session->0).ready,
        f.pending_key_package == m.pending_key_package,
{
}

/// Where the announced epoch is the one that the connection is in, and encryption
/// is on, the gateway is owed one message more: that the connection is ready for
/// the announced transition. Any other epoch owes it nothing.
pub proof fn law_epoch_report_owed(
    m: DaveModel,
    msg: DavePrepareEpoch,
    user_id: u64,
    channel_id: u64,
    f: DaveModel,
)
    requires
        m.transition_id matches Some(current) ==> current <= msg.transition_id,
        msg.protocol_version != 0,
        prepare_epoch_step(m, msg, user_id, channel_id, f),
    ensures
        m.epoch != Some(msg.epoch) ==> f.pending_outbound == m.pending_outbound,
        m.epoch == Some(msg.epoch) ==> f.pending_outbound == m.pending_outbound.push(
            OutboundModel::Json {
                op: 23,
                data: Json::Object(
                    map!["transition_id"@ => Json::Number(
                        JsonNumber::Unsigned(msg.transition_id as u64),
                    )],
                ),
            },
        ),
{
}

/// Any frame with a sequence number has it noted, one without leaves the last one
/// in place, and no frame changes the version, the epoch, the wait for a
/// transition's execution, the local ids or which announcements have been seen.
pub proof fn law_frame_sequence_noted(m: DaveModel, packet: FrameModel, f: DaveModel)
    requires
        binary_packet_step(m, packet, f),
    ensures
        packet.sequence is Some ==> f.last_binary_sequence == packet.sequence,
        packet.sequence is None ==> f.last_binary_sequence == m.last_binary_sequence,
        f.protocol_version == m.protocol_version,
        f.epoch == m.epoch,
        f.awaiting_transition_execute == m.awaiting_transition_execute,
        f.local_user_id == m.local_user_id,
        f.local_channel_id == m.local_channel_id,
        f.seen_prepare_transition == m.seen_prepare_transition,
        f.seen_prepare_epoch == m.seen_prepare_epoch,
{
}

/// Proposals whose first byte is 0 are handed to the session to be appended, and
/// all others to be revoked, without that byte. A commit that the session answers
/// is owed to the gateway as a frame of opcode 28, its welcome behind it; a refusal
/// is owed to it for the transition at hand, if there is one; and nothing is owed
/// where there is nothing to commit.
pub proof fn law_proposals_handed_over(
    m: DaveModel,
    packet: FrameModel,
    revoke: bool,
    f: DaveModel,
)
    requires
        packet.opcode == 27,
        m.session is Some,
        packet.payload.len() > 0,
        revoke <==> packet.payload[0] != 0,
        binary_packet_step(m, packet, f),
    ensures
        f.session is Some,
        exists|reply: ProposalsModel|
            {
                &&& #[trigger] proposals_reply(
                    m.session->0,
                    revoke,
                    packet.payload.skip(1),
                    reply,
                    f.session->0,
                )
                &&& reply matches ProposalsModel::Commit { commit, welcome }
                    ==> f.pending_outbound == m.pending_outbound.push(
                    OutboundModel::Binary {
                        opcode: 28,
                        payload: if welcome is Some {
                            commit + welcome->0
                        } else {
                            commit
                        },
                    },
                )
                &&& reply is NothingToCommit ==> f.pending_outbound == m.pending_outbound
                &&& reply is Refused && m.transition_id is None ==> f.pending_outbound
                    == m.pending_outbound
                &&& reply is Refused && m.transition_id is Some ==> f.pending_outbound
                    == m.pending_outbound.push(
                    OutboundModel::Json {
                        op: 31,
                        data: Json::Object(
                            map!["transition_id"@ => Json::Number(
                                JsonNumber::Unsigned(m.transition_id->0 as u64),
                            )],
                        ),
                    },
                )
            },
        f.transition_id == m.transition_id,
        f.pending_key_package == m.pending_key_package,
        f.seen_external_sender == m.seen_external_sender,
{
    assert forall|commit: Seq<u8>| commit + Seq::<u8>::empty() == commit by {
        assert(commit + Seq::<u8>::empty() =~= commit);
    }
}

/// A commit announced for the transition at hand, or where none is at hand, is
/// handed to the session without the two bytes of its transition id. That
/// transition is at hand then, and the gateway is owed a report: of readiness where
/// the session accepted the commit, of an invalid commit where it refused it.
pub proof fn law_commit_handed_over(m: DaveModel, packet: FrameModel, id: u32, f: DaveModel)
    requires
        packet.opcode == 29,
        m.session is Some,
        packet.payload.len() >= 2,
        id == packet.payload[0] * 256 + packet.payload[1],
        m.transition_id is None || m.transition_id == Some(id),
        binary_packet_step(m, packet, f),
    ensures
        f.session is Some,
        f.transition_id == Some(id),
        exists|accepted: bool|
            {
                &&& #[trigger] commit_reply(
                    m.session->0,
                    packet.payload.skip(2),
                    accepted,
                    f.session->0,
                )
                &&& f.pending_outbound == m.pending_outbound.push(
                    OutboundModel::Json {
                        op: if accepted {
                            23
                        } else {
                            31
                        },
                        data: Json::Object(
                            map!["transition_id"@ => Json::Number(
                                JsonNumber::Unsigned(id as u64),
                            )],
                        ),
                    },
                )
            },
        f.pending_key_package == m.pending_key_package,
        f.seen_external_sender == m.seen_external_sender,
{
}

/// A welcome for the transition at hand, or where none is at hand, is handed to the
/// session without the two bytes of its transition id. That transition is at hand
/// then, and the gateway is owed a report: of readiness where the session accepted
/// the welcome, of an invalid welcome where it refused it.
pub proof fn law_welcome_handed_over(m: DaveModel, packet: FrameModel, id: u32, f: DaveModel)
    requires
        packet.opcode == 30,
        m.session is Some,
        packet.payload.len() >= 2,
        id == packet.payload[0] * 256 + packet.payload[1],
        m.transition_id is None || m.transition_id == Some(id),
        binary_packet_step(m, packet, f),
    ensures
        f.session is Some,
        f.transition_id == Some(id),
        exists|accepted: bool|
            {
                &&& #[trigger] welcome_reply(
                    m.session->0,
                    packet.payload.skip(2),
                    accepted,
                    f.session->0,
                )
                &&& f.pending_outbound == m.pending_outbound.push(
                    OutboundModel::Json {
                        op: if accepted {
                            23
                        } else {
                            31
                        },
                        data: Json::Object(
                            map!["transition_id"@ => Json::Number(
                                JsonNumber::Unsigned(id as u64),
                            )],
                        ),
                    },
                )
            },
        f.pending_key_package == m.pending_key_package,
        f.seen_external_sender == m.seen_external_sender,
{
}

/// A commit or welcome for another transition than the one at hand never reaches
/// the session. The gateway is owed a report that it was invalid, and nothing else
/// changes but the sequence number.
pub proof fn law_commit_of_other_transition(m: DaveModel, packet: FrameModel, id: u32, f: DaveModel)
    requires
        packet.opcode == 29 || packet.opcode == 30,
        m.session is Some,
        packet.payload.len() >= 2,
        id == packet.payload[0] * 256 + packet.payload[1],
        m.transition_id is Some,
        m.transition_id != Some(id),
        binary_packet_step(m, packet, f),
    ensures
        f.pending_outbound == m.pending_outbound.push(
            OutboundModel::Json {
                op: 31,
                data: Json::Object(
                    map!["transition_id"@ => Json::Number(JsonNumber::Unsigned(id as u64))],
                ),
            },
        ),
        f == (DaveModel {
            last_binary_sequence: f.last_binary_sequence,
            pending_outbound: f.pending_outbound,
            ..m
        }),
{
}

/// Nothing but the sequence number changes with a frame that is cut short
/// (proposals without an operation type, a commit or welcome without a whole
/// transition id), with a frame of an opcode that the gateway does not send, and,
/// where there is no session, with any frame but an external sender package.
pub proof fn law_other_frames_ignored(m: DaveModel, packet: FrameModel, f: DaveModel)
    requires
        ({
            ||| packet.opcode == 27 && packet.payload.len() == 0
            ||| packet.opcode == 29 && packet.payload.len() < 2
            ||| packet.opcode == 30 && packet.payload.len() < 2
            ||| packet.opcode < 25
            ||| packet.opcode == 26
            ||| packet.opcode == 28
            ||| packet.opcode > 30
            ||| packet.opcode != 25 && m.session is None
        }),
        binary_packet_step(m, packet, f),
    ensures
        f == (DaveModel { last_binary_sequence: f.last_binary_sequence, ..m }),
{
}

/// An external sender package is handed to the session that there is, whole, and
/// the session is asked for a key package then, whether it accepted the external
/// sender or not. The key package is to be sent if it was made; otherwise the one
/// that was to be sent before still is. Nothing is owed.
pub proof fn law_external_sender_handed_over(m: DaveModel, packet: FrameModel, f: DaveModel)
    requires
        packet.opcode == 25,
        m.session is Some,
        binary_packet_step(m, packet, f),
    ensures
        f.session is Some,
        f.seen_external_sender,
        exists|accepted: bool, given: DaveSession, package: Option<Seq<u8>>|
            #![trigger
                external_sender_reply(m.session->0, packet.payload, accepted, given),
                key_package_reply(given, package, f.session->0)
            ]
            {
                &&& external_sender_reply(m.session->0, packet.payload, accepted, given)
                &&& key_package_reply(given, package, f.session->0)
                &&& package is Some ==> f.pending_key_package == package
                &&& package is None ==> f.pending_key_package == m.pending_key_package
                &&& accepted ==> session_of(f.session->0).external_sender && session_of(
                    f.session->0,
                ).status is Pending
            },
        f.transition_id == m.transition_id,
        f.pending_outbound == m.pending_outbound,
{
}

/// An external sender package that arrives before there is a session, with the
/// local ids known, first asks for a session of the local user in the local
/// channel: of the announced version, or of version 1 where none was announced or
/// version 0 was. A session that was created is given the package and asked for a
/// key package; where creating one failed, nothing changes but the sequence number.
pub proof fn law_external_sender_asks_for_session(
    m: DaveModel,
    packet: FrameModel,
    version: u16,
    f: DaveModel,
)
    requires
        packet.opcode == 25,
        m.session is None,
        m.local_user_id is Some,
        m.local_channel_id is Some,
        m.protocol_version is None || m.protocol_version == Some(0u16) ==> version == 1,
        m.protocol_version is Some && m.protocol_version != Some(0u16) ==> m.protocol_version
            == Some(version),
        binary_packet_step(m, packet, f),
    ensures
        f.session is None ==> {
            &&& creation_reply(version, m.local_user_id->0, m.local_channel_id->0, None)
            &&& f == DaveModel { last_binary_sequence: f.last_binary_sequence, ..m }
        },
        f.session is Some ==> exists|
            created: DaveSession,
            accepted: bool,
            given: DaveSession,
            package: Option<Seq<u8>>,
        |
            #![trigger
                creation_reply(version, m.local_user_id->0, m.local_channel_id->0, Some(created)),
                external_sender_reply(created, packet.payload, accepted, given),
                key_package_reply(given, package, f.session->0)
            ]
            {
                &&& creation_reply(
                    version,
                    m.local_user_id->0,
                    m.local_channel_id->0,
                    Some(created),
                )
                &&& external_sender_reply(created, packet.payload, accepted, given)
                &&& key_package_reply(given, package, f.session->0)
                &&& package is Some ==> f.pending_key_package == package
                &&& package is None ==> f.pending_key_package == m.pending_key_package
            },
        f.session is Some ==> f.seen_external_sender,
        f.session is Some ==> session_of(f.session->0).user_id == m.local_user_id->0 && session_of(
            f.session->0,
        ).channel_id == m.local_channel_id->0,
        f.transition_id == m.transition_id,
        f.pending_outbound == m.pending_outbound,
{
}

/// An external sender package that arrives before there is a session changes
/// nothing but the sequence number as long as a local id is not known.
pub proof fn law_external_sender_of_no_one(m: DaveModel, packet: FrameModel, f: DaveModel)
    requires
        packet.opcode == 25,
        m.session is None,
        m.local_user_id is None || m.local_channel_id is None,
        binary_packet_step(m, packet, f),
    ensures
        f == (DaveModel { last_binary_sequence: f.last_binary_sequence, ..m }),
{
}

/// Where there is a session that is ready, every frame is handed to it, in any
/// phase of the handshake, and what it makes of the frame is the result. Opening
/// frames changes nothing but what the session itself keeps count of.
pub proof fn law_frame_opened_by_session(
    m: DaveModel,
    user_id: u64,
    frame: Seq<u8>,
    plain: Option<Seq<u8>>,
    f: DaveModel,
)
    requires
        m.session is Some,
        session_of(m.session->0).ready,
        opus_opened(m, user_id, frame, plain, f),
    ensures
        f.session is Some,
        opened_frame(m.session->0, user_id, frame, plain, f.session->0),
        session_of(f.session->0) == session_of(m.session->0),
        plain is Some ==> session_of(m.session->0).passthrough.contains_key(user_id),
        f == (DaveModel { session: f.session, ..m }),
{
}

/// Without a session that is ready no frame is opened, and nothing changes.
pub proof fn law_frame_unopened_before_ready(
    m: DaveModel,
    user_id: u64,
    frame: Seq<u8>,
    plain: Option<Seq<u8>>,
    f: DaveModel,
)
    requires
        m.session is None || !session_of(m.session->0).ready,
        opus_opened(m, user_id, frame, plain, f),
    ensures
        plain is None,
        f == m,
{
}

/// A connection is ready exactly where there is a session that is ready, and has as
/// its members exactly those whose frames that session can decrypt.
pub proof fn law_ready_with_ready_session(m: DaveModel, user_id: u64)
    ensures
        m.session is None ==> !m.ready() && !m.has_member(user_id),
        m.session is Some ==> m.ready() == session_of(m.session->0).ready,
        m.session is Some && session_of(m.session->0).ready ==> m.has_member(user_id)
            == session_of(m.session->0).passthrough.contains_key(user_id),
        m.has_member(user_id) ==> m.ready(),
{
}

/// The phase that a handshake reports: an awaited execution comes before anything
/// else, then a transition at hand.
pub proof fn law_handshake_phase_named(m: DaveModel)
    ensures
        m.awaiting_transition_execute ==> handshake_phase(m) == "awaiting_execute"@,
        !m.awaiting_transition_execute && m.transition_id is Some ==> handshake_phase(m)
            == "transitioning"@,
        !m.awaiting_transition_execute && m.transition_id is None ==> handshake_phase(m)
            == "idle"@,
{
}

/// A connection begins with nothing announced, nothing seen, no session and nothing
/// to be sent.
pub proof fn law_begins_with_nothing()
    ensures
        ({
            let m = DaveModel::initial();
            &&& m.protocol_version is None
            &&& m.epoch is None
            &&& m.transition_id is None
            &&& !m.awaiting_transition_execute
            &&& m.last_binary_sequence is None
            &&& m.local_user_id is None
            &&& m.local_channel_id is None
            &&& !m.seen_prepare_transition
            &&& !m.seen_prepare_epoch
            &&& !m.seen_external_sender
            &&& m.session is None
            &&& m.pending_key_package is None
            &&& m.pending_outbound.len() == 0
        }),
{
}

/// What the model of the state shows: every field of the state as it is, with its
/// buffers as bytes, and the owed messages in their order.
pub proof fn law_state_shown(state: DaveState)
    ensures
        state@.protocol_version == state.protocol_version,
        state@.epoch == state.epoch,
        state@.transition_id == state.transition_id,
        state@.awaiting_transition_execute == state.awaiting_transition_execute,
        state@.last_binary_sequence == state.last_binary_sequence,
        state@.local_user_id == state.local_user_id,
        state@.local_channel_id == state.local_channel_id,
        state@.seen_prepare_transition == state.seen_prepare_transition,
        state@.seen_prepare_epoch == state.seen_prepare_epoch,
        state@.seen_external_sender == state.seen_external_sender,
        state@.session == state.session,
        state.pending_key_package is None <==> state@.pending_key_package is None,
        state.pending_key_package matches Some(package) ==> state@.pending_key_package == Some(
            octets(package),
        ),
        state@.pending_outbound.len() == state.pending_outbound@.len(),
        forall|i: int|
            0 <= i < state.pending_outbound@.len() ==> match #[trigger] state.pending_outbound@[i] {
                DaveOutboundMessage::Json { op, data } => state@.pending_outbound[i] == (
                OutboundModel::Json { op, data: json_of(data) }),
                DaveOutboundMessage::Binary { opcode, payload } => state@.pending_outbound[i] == (
                OutboundModel::Binary { opcode, payload: octets(payload) }),
            },
{
}

/// What the answer to a set of proposals adds to what the gateway is owed, whatever
/// the state: nothing but a commit with its welcome, or a report of the transition
/// at hand, and nothing else changes.
pub proof fn law_proposals_answer_owed(m: DaveModel, reply: ProposalsModel)
    ensures
        ({
            let f = after_proposals(m, reply);
            &&& f == DaveModel { pending_outbound: f.pending_outbound, ..m }
            &&& reply is NothingToCommit ==> f.pending_outbound == m.pending_outbound
            &&& reply is Refused && m.transition_id is None ==> f.pending_outbound
                == m.pending_outbound
            &&& reply is Refused && m.transition_id is Some ==> f.pending_outbound
                == m.pending_outbound.push(
                OutboundModel::Json {
                    op: 31,
                    data: Json::Object(
                        map!["transition_id"@ => Json::Number(
                            JsonNumber::Unsigned(m.transition_id->0 as u64),
                        )],
                    ),
                },
            )
            &&& reply matches ProposalsModel::Commit { commit, welcome } ==> f.pending_outbound
                == m.pending_outbound.push(
                OutboundModel::Binary {
                    opcode: 28,
                    payload: if welcome is Some {
                        commit + welcome->0
                    } else {
                        commit
                    },
                },
            )
        }),
{
    if let ProposalsModel::Commit { commit, .. } = reply {
        assert(commit + Seq::<u8>::empty() =~= commit);
    }
}

/// What the answer to a commit or welcome adds to what the gateway is owed, whatever
/// the state: one report of that transition, and nothing else changes.
pub proof fn law_transition_answer_owed(m: DaveModel, transition_id: u32, accepted: bool)
    ensures
        ({
            let f = after_transition(m, transition_id, accepted);
            &&& f == DaveModel { pending_outbound: f.pending_outbound, ..m }
            &&& f.pending_outbound == m.pending_outbound.push(
                OutboundModel::Json {
                    op: if accepted {
                        23
                    } else {
                        31
                    },
                    data: Json::Object(
                        map!["transition_id"@ => Json::Number(
                            JsonNumber::Unsigned(transition_id as u64),
                        )],
                    ),
                },
            )
        }),
{
}

/// A transition is another one than the one at hand only where one is at hand and
/// the ids differ.
pub proof fn law_transition_told_apart(m: DaveModel, transition_id: u32)
    ensures
        transition_mismatch(m, transition_id) <==> m.transition_id is Some && m.transition_id
            != Some(transition_id),
{
}

/// A session that was created is adopted by opening its passthrough and asking it
/// for a key package, which is to be sent if it was made. Where none was created,
/// the connection is left without a session. Nothing else changes.
pub proof fn law_created_session_adopted(m: DaveModel, created: Option<DaveSession>, f: DaveModel)
    requires
        adopt_step(m, created, f),
    ensures
        created is None ==> f.session is None && f.pending_key_package == m.pending_key_package,
        created is Some ==> f.session is Some,
        created is Some ==> exists|asked: DaveSession, package: Option<Seq<u8>>|
            #![trigger
                passthrough_set(created->0, true, 10, asked),
                key_package_reply(asked, package, f.session->0)
            ]
            {
                &&& passthrough_set(created->0, true, 10, asked)
                &&& key_package_reply(asked, package, f.session->0)
                &&& package is Some ==> f.pending_key_package == package
                &&& package is None ==> f.pending_key_package == m.pending_key_package
            },
        f == (DaveModel {
            session: f.session,
            pending_key_package: f.pending_key_package,
            ..m
        }),
{
}

} // verus!
