//! What holds of the DAVE state over whole exchanges: laws over the steps that
//! the messages of the gateway make it take.
use crate::frames::{parsed_transition, DaveBinaryOpcode, FrameModel};
use crate::session::{
    creation_reply, ends_sealed, external_sender_reply, law_fresh_passthrough, opus_silence,
    passthrough_set, session_of, SessionModel,
};
use crate::ws_dave::{
    binary_packet_step, creation_answered, execute_transition_step, handshake_phase,
    invalid_commit_welcome_step, invalid_message, key_package_step, opus_opened, prepare_epoch_step,
    prepare_transition_step, ready_message, requested_version, transition_mismatch,
    DaveExecuteTransition, DaveInvalidCommitWelcome, DaveModel, DavePrepareEpoch,
    DavePrepareTransition, OutboundModel,
};
use davey::DaveSession;
use vstd::prelude::*;

verus! {

/// Anything that can happen to the DAVE state of a connection.
pub enum DaveInput {
    LocalIds { user_id: u64, channel_id: u64 },
    PrepareTransition(DavePrepareTransition),
    ExecuteTransition(DaveExecuteTransition),
    PrepareEpoch { msg: DavePrepareEpoch, user_id: u64, channel_id: u64 },
    InvalidCommitWelcome(DaveInvalidCommitWelcome),
    Binary(FrameModel),
}

/// Whether an input may lead from one state to another.
pub open spec fn dave_step(m: DaveModel, input: DaveInput, f: DaveModel) -> bool {
    match input {
        DaveInput::LocalIds { user_id, channel_id } => f == DaveModel {
            local_user_id: Some(user_id),
            local_channel_id: Some(channel_id),
            ..m
        },
        DaveInput::PrepareTransition(msg) => prepare_transition_step(m, msg, f),
        DaveInput::ExecuteTransition(msg) => execute_transition_step(m, msg, f),
        DaveInput::PrepareEpoch { msg, user_id, channel_id } => prepare_epoch_step(
            m,
            msg,
            user_id,
            channel_id,
            f,
        ),
        DaveInput::InvalidCommitWelcome(msg) => invalid_commit_welcome_step(m, msg, f),
        DaveInput::Binary(packet) => binary_packet_step(m, packet, f),
    }
}

/// Whether a message is one that the DAVE exchange owes the gateway: readiness
/// for a transition, an invalid commit or welcome, or a commit with its
/// welcome.
pub open spec fn is_owed_message(message: OutboundModel) -> bool {
    ||| exists|transition_id: u32| message == #[trigger] ready_message(transition_id)
    ||| exists|transition_id: u32| message == #[trigger] invalid_message(transition_id)
    ||| message matches OutboundModel::Binary { opcode, .. } && opcode
        == DaveBinaryOpcode::MlsCommitWelcome.code()
}

/// Whether every message that waits is one that the DAVE exchange owes.
pub open spec fn only_owed_messages(m: DaveModel) -> bool {
    forall|i: int|
        0 <= i < m.pending_outbound.len() ==> is_owed_message(#[trigger] m.pending_outbound[i])
}

/// Whether a frame announces a commit or carries a welcome.
pub open spec fn is_transition_frame(packet: FrameModel) -> bool {
    packet.opcode == DaveBinaryOpcode::MlsAnnounceCommitTransition.code() || packet.opcode
        == DaveBinaryOpcode::MlsWelcome.code()
}

/// The transition that a commit or welcome frame is about; `None` where the
/// frame is too short to say.
pub open spec fn announced_transition(packet: FrameModel) -> Option<u32> {
    match parsed_transition(packet.payload) {
        Some((transition_id, _)) => Some(transition_id as u32),
        None => None,
    }
}

/// Every step leaves the messages that wait in place and in order, and adds at
/// most one behind them.
pub proof fn law_owed_messages_kept(m: DaveModel, input: DaveInput, f: DaveModel)
    requires
        dave_step(m, input, f),
    ensures
        f.pending_outbound == m.pending_outbound || (f.pending_outbound.len()
            == m.pending_outbound.len() + 1 && f.pending_outbound.drop_last()
            == m.pending_outbound),
{
    if f.pending_outbound != m.pending_outbound {
        assert(f.pending_outbound.drop_last() =~= m.pending_outbound);
    }
}

/// No step owes the gateway anything but a readiness report, a report of an
/// invalid commit or welcome, or a commit with its welcome; at first nothing is
/// owed.
pub proof fn law_only_owed_messages(m: DaveModel, input: DaveInput, f: DaveModel)
    requires
        only_owed_messages(m),
        dave_step(m, input, f),
    ensures
        only_owed_messages(f),
        only_owed_messages(DaveModel::initial()),
{
    law_owed_messages_kept(m, input, f);
    if f.pending_outbound != m.pending_outbound {
        assert forall|i: int| 0 <= i < f.pending_outbound.len() implies is_owed_message(
            #[trigger] f.pending_outbound[i],
        ) by {
            if i < m.pending_outbound.len() {
                assert(f.pending_outbound[i] == f.pending_outbound.drop_last()[i]);
                assert(is_owed_message(m.pending_outbound[i]));
            } else {
                assert(i == f.pending_outbound.len() - 1);
            }
        }
    }
}

/// The transition at hand never goes back to an older one, and is never lost.
pub proof fn law_transition_never_goes_back(m: DaveModel, input: DaveInput, f: DaveModel)
    requires
        dave_step(m, input, f),
    ensures
        m.transition_id matches Some(before) ==> f.transition_id matches Some(after) && before
            <= after,
{
}

/// What has been seen of the handshake stays seen.
pub proof fn law_seen_stays_seen(m: DaveModel, input: DaveInput, f: DaveModel)
    requires
        dave_step(m, input, f),
    ensures
        m.seen_prepare_transition ==> f.seen_prepare_transition,
        m.seen_prepare_epoch ==> f.seen_prepare_epoch,
        m.seen_external_sender ==> f.seen_external_sender,
{
}

/// Once a session is ready it stays ready, until an epoch is announced.
pub proof fn law_ready_until_next_epoch(m: DaveModel, input: DaveInput, f: DaveModel)
    requires
        m.ready(),
        dave_step(m, input, f),
        !(input is PrepareEpoch),
    ensures
        f.ready(),
{
}

/// A connection becomes ready by nothing but a commit or a welcome that its
/// session accepts, and reports readiness for that transition when it does.
pub proof fn law_ready_by_commit_or_welcome(m: DaveModel, input: DaveInput, f: DaveModel)
    requires
        !m.ready(),
        f.ready(),
        dave_step(m, input, f),
    ensures
        input is Binary,
        is_transition_frame(input->Binary_0),
        announced_transition(input->Binary_0) is Some,
        f.transition_id == announced_transition(input->Binary_0),
        f.pending_outbound == m.pending_outbound.push(
            ready_message(announced_transition(input->Binary_0)->0),
        ),
{
}

/// A transition that is announced and then executed: in between its execution
/// is awaited and passthrough is open for every member; afterwards it is not
/// awaited any more, and passthrough has been ended, with ten seconds for what
/// is still under way.
pub proof fn law_prepare_then_execute(
    m: DaveModel,
    prepare: DavePrepareTransition,
    prepared: DaveModel,
    execute: DaveExecuteTransition,
    executed: DaveModel,
)
    requires
        !m.is_stale(prepare.transition_id),
        prepare_transition_step(m, prepare, prepared),
        execute.transition_id == prepare.transition_id,
        execute_transition_step(prepared, execute, executed),
    ensures
        handshake_phase(prepared) == "awaiting_execute"@,
        handshake_phase(executed) == "transitioning"@,
        executed.transition_id == Some(prepare.transition_id),
        executed.protocol_version == Some(prepare.protocol_version),
        prepared.session matches Some(s) ==> forall|user_id: u64| #[trigger]
            session_of(s).passthrough.contains_key(user_id) ==> session_of(s).passthrough[user_id]
                is Open,
        executed.session matches Some(s) ==> forall|user_id: u64| #[trigger]
            session_of(s).passthrough.contains_key(user_id) ==> session_of(s).passthrough[user_id]
                is Closed,
        prepared.session matches Some(s) ==> executed.session matches Some(t) && passthrough_set(
            s,
            false,
            10,
            t,
        ),
        m.session is Some ==> executed.session is Some && session_of(
            executed.session->0,
        ).passthrough.dom() == session_of(m.session->0).passthrough.dom(),
{
    if m.session is Some {
        assert(session_of(executed.session->0).passthrough.dom()
            =~= session_of(m.session->0).passthrough.dom());
    }
}

/// A transition whose commit or welcome is found invalid is not awaited any
/// more, and passthrough is open for every member.
pub proof fn law_invalid_commit_reopens(
    m: DaveModel,
    msg: DaveInvalidCommitWelcome,
    f: DaveModel,
)
    requires
        m.transition_id == Some(msg.transition_id),
        invalid_commit_welcome_step(m, msg, f),
    ensures
        handshake_phase(f) == "transitioning"@,
        f.session is Some == m.session is Some,
        f.session matches Some(s) ==> forall|user_id: u64| #[trigger]
            session_of(s).passthrough.contains_key(user_id) ==> session_of(s).passthrough[user_id]
                is Open,
        f.ready() == m.ready(),
{
}

/// From the announcement of a transition to its execution, and after an invalid
/// commit or welcome, a listener gets the frames of every member that arrive
/// unencrypted as they are.
pub proof fn law_unencrypted_frames_let_through(
    m: DaveModel,
    input: DaveInput,
    open: DaveModel,
    user_id: u64,
    frame: Seq<u8>,
    plain: Option<Seq<u8>>,
    f: DaveModel,
)
    requires
        match input {
            DaveInput::PrepareTransition(msg) => !m.is_stale(msg.transition_id),
            DaveInput::InvalidCommitWelcome(msg) => m.transition_id == Some(msg.transition_id),
            _ => false,
        },
        dave_step(m, input, open),
        m.has_member(user_id),
        !ends_sealed(frame),
        opus_opened(open, user_id, frame, plain, f),
    ensures
        open.has_member(user_id),
        plain == Some(frame),
{
}

/// A listener gets a member's silence as it is, whether passthrough is open or
/// not, and nothing of anyone who is no member.
pub proof fn law_silence_of_members_heard(
    m: DaveModel,
    user_id: u64,
    frame: Seq<u8>,
    plain: Option<Seq<u8>>,
    f: DaveModel,
)
    requires
        opus_opened(m, user_id, frame, plain, f),
    ensures
        m.has_member(user_id) && frame == opus_silence() ==> plain == Some(frame),
        !m.has_member(user_id) ==> plain is None,
{
}

/// An announcement that is older than the transition at hand changes nothing
/// but that it was seen.
pub proof fn law_stale_announcements_ignored(
    m: DaveModel,
    transition: DavePrepareTransition,
    epoch: DavePrepareEpoch,
    user_id: u64,
    channel_id: u64,
    after_transition: DaveModel,
    after_epoch: DaveModel,
)
    requires
        m.is_stale(transition.transition_id),
        prepare_transition_step(m, transition, after_transition),
        m.is_stale(epoch.transition_id),
        prepare_epoch_step(m, epoch, user_id, channel_id, after_epoch),
    ensures
        after_transition == (DaveModel { seen_prepare_transition: true, ..m }),
        after_epoch == (DaveModel { seen_prepare_epoch: true, ..m }),
{
}

/// A commit or welcome that reaches a session is answered with exactly one
/// message about its transition: readiness, and then the session is ready, or
/// an invalid commit or welcome.
pub proof fn law_transition_answered(m: DaveModel, packet: FrameModel, f: DaveModel)
    requires
        m.session is Some,
        is_transition_frame(packet),
        announced_transition(packet) is Some,
        binary_packet_step(m, packet, f),
    ensures
        ({
            let transition_id = announced_transition(packet)->0;
            ||| f.pending_outbound == m.pending_outbound.push(ready_message(transition_id))
                && f.ready() && f.transition_id == Some(transition_id)
            ||| f.pending_outbound == m.pending_outbound.push(invalid_message(transition_id))
        }),
{
}

/// A commit or welcome of another transition than the one at hand is reported
/// as invalid, and the session never sees it.
pub proof fn law_mismatched_transition_reported(m: DaveModel, packet: FrameModel, f: DaveModel)
    requires
        m.session is Some,
        is_transition_frame(packet),
        announced_transition(packet) is Some,
        transition_mismatch(m, announced_transition(packet)->0),
        binary_packet_step(m, packet, f),
    ensures
        f.pending_outbound == m.pending_outbound.push(
            invalid_message(announced_transition(packet)->0),
        ),
        f.session == m.session,
        f.transition_id == m.transition_id,
{
}

/// A session that has not joined a group accepts no commit: one that arrives is
/// reported as invalid.
pub proof fn law_no_commit_before_group(m: DaveModel, packet: FrameModel, f: DaveModel)
    requires
        m.session matches Some(s) && (!session_of(s).has_group || session_of(s).status is Pending),
        packet.opcode == DaveBinaryOpcode::MlsAnnounceCommitTransition.code(),
        announced_transition(packet) is Some,
        binary_packet_step(m, packet, f),
    ensures
        f.pending_outbound == m.pending_outbound.push(
            invalid_message(announced_transition(packet)->0),
        ),
        f.ready() == m.ready(),
{
}

/// Before the external sender is known no welcome is accepted: one that arrives
/// is reported as invalid.
pub proof fn law_no_welcome_before_external_sender(m: DaveModel, packet: FrameModel, f: DaveModel)
    requires
        m.session matches Some(s) && !session_of(s).external_sender,
        packet.opcode == DaveBinaryOpcode::MlsWelcome.code(),
        announced_transition(packet) is Some,
        binary_packet_step(m, packet, f),
    ensures
        f.pending_outbound == m.pending_outbound.push(
            invalid_message(announced_transition(packet)->0),
        ),
        f.ready() == m.ready(),
{
}

/// Protocol version 0 means transport encryption only: no session, no key
/// package to send, and nothing is encrypted or decrypted.
pub proof fn law_transport_only(
    m: DaveModel,
    msg: DavePrepareEpoch,
    user_id: u64,
    channel_id: u64,
    f: DaveModel,
)
    requires
        !m.is_stale(msg.transition_id),
        msg.protocol_version == 0,
        prepare_epoch_step(m, msg, user_id, channel_id, f),
    ensures
        f.session is None,
        f.pending_key_package is None,
        !f.ready(),
        f.pending_outbound == m.pending_outbound,
{
}

/// The first epoch starts over: whatever session there was is replaced by a
/// new one of the local user, which is not ready, or by none where making one
/// failed.
pub proof fn law_first_epoch_starts_over(
    m: DaveModel,
    msg: DavePrepareEpoch,
    user_id: u64,
    channel_id: u64,
    f: DaveModel,
)
    requires
        !m.is_stale(msg.transition_id),
        msg.epoch == 1,
        prepare_epoch_step(m, msg, user_id, channel_id, f),
    ensures
        !f.ready(),
        f.session matches Some(s) ==> session_of(s) == SessionModel::fresh(user_id, channel_id),
{
    law_fresh_passthrough(user_id, channel_id, true);
}

/// The key package that a new epoch announces is one that the session which is
/// kept has made itself, so that it can open a welcome for it; where it made
/// none, the key package that was waiting still waits.
pub proof fn law_new_session_announces_itself(
    m: DaveModel,
    msg: DavePrepareEpoch,
    user_id: u64,
    channel_id: u64,
    f: DaveModel,
)
    requires
        !m.is_stale(msg.transition_id),
        msg.protocol_version != 0,
        msg.epoch == 1 || m.session is None,
        prepare_epoch_step(m, msg, user_id, channel_id, f),
    ensures
        f.session matches Some(kept) ==> exists|created: DaveSession, asked: DaveSession|
            {
                &&& creation_answered(msg.protocol_version, user_id, channel_id, Some(created))
                &&& #[trigger] passthrough_set(created, true, 10, asked)
                &&& key_package_step(m.pending_key_package, asked, f.pending_key_package, kept)
            },
        f.session is None ==> f.pending_key_package == m.pending_key_package && creation_answered(
            msg.protocol_version,
            user_id,
            channel_id,
            None,
        ),
{
}

/// The session that is kept after an external sender package is the one that
/// got the package, and the key package that is announced is its own; where it
/// made none, the key package that was waiting still waits.
pub proof fn law_external_sender_announces_itself(
    m: DaveModel,
    s: DaveSession,
    packet: FrameModel,
    f: DaveModel,
)
    requires
        m.session == Some(s),
        packet.opcode == DaveBinaryOpcode::MlsExternalSender.code(),
        binary_packet_step(m, packet, f),
    ensures
        f.session is Some,
        f.seen_external_sender,
        exists|accepted: bool, given: DaveSession|
            {
                &&& #[trigger] external_sender_reply(s, packet.payload, accepted, given)
                &&& key_package_step(
                    m.pending_key_package,
                    given,
                    f.pending_key_package,
                    f.session->0,
                )
            },
        f.pending_outbound == m.pending_outbound,
        f.transition_id == m.transition_id,
{
}

/// Without a session, an external sender package either leaves the connection
/// without one, or the session that was created for the local user got the
/// package, made the key package that is announced, and is kept.
pub proof fn law_external_sender_creates(
    m: DaveModel,
    user_id: u64,
    channel_id: u64,
    packet: FrameModel,
    f: DaveModel,
)
    requires
        m.session is None,
        m.local_user_id == Some(user_id),
        m.local_channel_id == Some(channel_id),
        packet.opcode == DaveBinaryOpcode::MlsExternalSender.code(),
        binary_packet_step(m, packet, f),
    ensures
        ({
            let version = requested_version(m.protocol_version);
            &&& f.session is None ==> creation_reply(version, user_id, channel_id, None)
                && f.pending_key_package == m.pending_key_package && f.seen_external_sender
                == m.seen_external_sender
            &&& f.session matches Some(kept) ==> f.seen_external_sender && exists|
                created: DaveSession,
                accepted: bool,
                given: DaveSession,
            |
                {
                    &&& creation_reply(version, user_id, channel_id, Some(created))
                    &&& #[trigger] external_sender_reply(created, packet.payload, accepted, given)
                    &&& key_package_step(m.pending_key_package, given, f.pending_key_package, kept)
                }
        }),
{
}

/// An epoch that is announced again needs no commit or welcome: readiness is
/// reported at once. A new epoch reports nothing yet.
pub proof fn law_same_epoch_reports_ready(
    m: DaveModel,
    msg: DavePrepareEpoch,
    user_id: u64,
    channel_id: u64,
    f: DaveModel,
)
    requires
        !m.is_stale(msg.transition_id),
        msg.protocol_version != 0,
        prepare_epoch_step(m, msg, user_id, channel_id, f),
    ensures
        f.pending_outbound == (if m.epoch == Some(msg.epoch) {
            m.pending_outbound.push(ready_message(msg.transition_id))
        } else {
            m.pending_outbound
        }),
{
}

} // verus!
