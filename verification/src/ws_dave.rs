//! The DAVE state of a voice connection: what the gateway announced, the MLS
//! session, and what is waiting to be sent.
use crate::frames::{
    decode_proposals_payload, decode_transition_payload, parsed_proposals, parsed_transition,
    BinaryGatewayPacket, DaveBinaryOpcode, FrameModel,
};
use crate::json::{json_of, number_object, object_with_number, Json};
use crate::octets::{octets, octets_as_slice, octets_from_vec};
use crate::session::{
    bytes_of, commit_effect, commit_reply, creation_reply, dave_protocol_version, decrypt_audio,
    encrypt_opus, external_sender_effect, external_sender_reply, has_overlong_number,
    key_package_reply, new_session, ok, opened_frame, opus_silence, passes_unopened,
    passthrough_set, process_proposals, proposals_effect, proposals_model, proposals_reply,
    sealed_frame, sealing_reply, session_of, welcome_effect, welcome_reply, CommitWelcome,
    ProposalsModel, SessionModel,
};
use bytes::Bytes;
use davey::DaveSession;
use serde_json::Value;
use std::collections::VecDeque;
use vstd::prelude::*;

verus! {

/// Opcode of the message that reports readiness for a transition.
pub const TRANSITION_READY_OP: u8 = 23;

/// Opcode of the message that reports an invalid commit or welcome.
pub const INVALID_COMMIT_WELCOME_OP: u8 = 31;

/// How long, in seconds, unencrypted frames are still let through once a
/// transition has been executed.
pub const TRANSITION_EXPIRY_SECONDS: u32 = 10;

/// A message that the connection owes the gateway.
#[derive(Clone, Debug)]
pub enum DaveOutboundMessage {
    Json { op: u8, data: Value },
    Binary { opcode: u8, payload: Bytes },
}

/// What an owed message says.
pub enum OutboundModel {
    Json { op: u8, data: Json },
    Binary { opcode: u8, payload: Seq<u8> },
}

impl View for DaveOutboundMessage {
    type V = OutboundModel;

    open spec fn view(&self) -> OutboundModel {
        match *self {
            DaveOutboundMessage::Json { op, data } => OutboundModel::Json {
                op,
                data: json_of(data),
            },
            DaveOutboundMessage::Binary { opcode, payload } => OutboundModel::Binary {
                opcode,
                payload: octets(payload),
            },
        }
    }
}

/// The gateway announces a transition to a protocol version.
#[derive(Clone, Copy, Debug)]
pub struct DavePrepareTransition {
    pub transition_id: u32,
    pub protocol_version: u16,
}

/// The gateway executes an announced transition.
#[derive(Clone, Copy, Debug)]
pub struct DaveExecuteTransition {
    pub transition_id: u32,
}

/// The gateway announces an epoch of the MLS group.
#[derive(Clone, Copy, Debug)]
pub struct DavePrepareEpoch {
    pub transition_id: u32,
    pub protocol_version: u16,
    pub epoch: u64,
}

/// A commit or welcome of a transition was found invalid.
#[derive(Clone, Copy, Debug)]
pub struct DaveInvalidCommitWelcome {
    pub transition_id: u32,
}

/// The DAVE state of one connection.
#[derive(Debug)]
pub struct DaveState {
    pub protocol_version: Option<u16>,
    pub epoch: Option<u64>,
    pub transition_id: Option<u32>,
    pub awaiting_transition_execute: bool,
    pub last_binary_sequence: Option<u16>,
    pub local_user_id: Option<u64>,
    pub local_channel_id: Option<u64>,
    pub seen_prepare_transition: bool,
    pub seen_prepare_epoch: bool,
    pub seen_external_sender: bool,
    pub session: Option<DaveSession>,
    pub pending_key_package: Option<Bytes>,
    pub pending_outbound: VecDeque<DaveOutboundMessage>,
}

/// The DAVE state as its contracts speak of it.
pub struct DaveModel {
    pub protocol_version: Option<u16>,
    pub epoch: Option<u64>,
    pub transition_id: Option<u32>,
    pub awaiting_transition_execute: bool,
    pub last_binary_sequence: Option<u16>,
    pub local_user_id: Option<u64>,
    pub local_channel_id: Option<u64>,
    pub seen_prepare_transition: bool,
    pub seen_prepare_epoch: bool,
    pub seen_external_sender: bool,
    pub session: Option<DaveSession>,
    pub pending_key_package: Option<Seq<u8>>,
    pub pending_outbound: Seq<OutboundModel>,
}

impl View for DaveState {
    type V = DaveModel;

    open spec fn view(&self) -> DaveModel {
        DaveModel {
            protocol_version: self.protocol_version,
            epoch: self.epoch,
            transition_id: self.transition_id,
            awaiting_transition_execute: self.awaiting_transition_execute,
            last_binary_sequence: self.last_binary_sequence,
            local_user_id: self.local_user_id,
            local_channel_id: self.local_channel_id,
            seen_prepare_transition: self.seen_prepare_transition,
            seen_prepare_epoch: self.seen_prepare_epoch,
            seen_external_sender: self.seen_external_sender,
            session: self.session,
            pending_key_package: match self.pending_key_package {
                Some(package) => Some(octets(package)),
                None => None,
            },
            pending_outbound: self.pending_outbound@.map_values(|m: DaveOutboundMessage| m@),
        }
    }
}

impl DaveModel {
    /// The state of a connection on which nothing has happened yet.
    pub open spec fn initial() -> DaveModel {
        DaveModel {
            protocol_version: None,
            epoch: None,
            transition_id: None,
            awaiting_transition_execute: false,
            last_binary_sequence: None,
            local_user_id: None,
            local_channel_id: None,
            seen_prepare_transition: false,
            seen_prepare_epoch: false,
            seen_external_sender: false,
            session: None,
            pending_key_package: None,
            pending_outbound: Seq::empty(),
        }
    }

    /// The state with one more message owed, behind the others.
    pub open spec fn owing(self, message: OutboundModel) -> DaveModel {
        DaveModel { pending_outbound: self.pending_outbound.push(message), ..self }
    }

    /// Whether an announcement with this transition id is older than the
    /// transition at hand.
    pub open spec fn is_stale(self, transition_id: u32) -> bool {
        self.transition_id matches Some(current) && transition_id < current
    }

    /// Whether a user is a member of the group of a session that is ready, whose
    /// frames are read.
    pub open spec fn has_member(self, user_id: u64) -> bool {
        self.ready() && session_of(self.session->0).passthrough.contains_key(user_id)
    }

    /// Whether the session can encrypt and decrypt frames.
    pub open spec fn ready(self) -> bool {
        self.session matches Some(session) && session_of(session).ready
    }
}

/// The message that reports readiness for a transition.
pub open spec fn ready_message(transition_id: u32) -> OutboundModel {
    OutboundModel::Json {
        op: TRANSITION_READY_OP,
        data: number_object("transition_id"@, transition_id as u64),
    }
}

/// The message that reports that a transition's commit or welcome was invalid.
pub open spec fn invalid_message(transition_id: u32) -> OutboundModel {
    OutboundModel::Json {
        op: INVALID_COMMIT_WELCOME_OP,
        data: number_object("transition_id"@, transition_id as u64),
    }
}

/// A session, if there is one, has its passthrough opened or ended.
pub open spec fn passthrough_step(
    before: Option<DaveSession>,
    open: bool,
    after: Option<DaveSession>,
) -> bool {
    match before {
        Some(b) => {
            &&& after matches Some(a)
            &&& passthrough_set(b, open, TRANSITION_EXPIRY_SECONDS, a)
            &&& session_of(a) == session_of(b).with_passthrough(open)
        },
        None => after is None,
    }
}

impl Default for DaveState {
    fn default() -> (state: Self)
        ensures
            state@ == DaveModel::initial(),
    {
        let state = DaveState {
            protocol_version: None,
            epoch: None,
            transition_id: None,
            awaiting_transition_execute: false,
            last_binary_sequence: None,
            local_user_id: None,
            local_channel_id: None,
            seen_prepare_transition: false,
            seen_prepare_epoch: false,
            seen_external_sender: false,
            session: None,
            pending_key_package: None,
            pending_outbound: VecDeque::new(),
        };
        assert(state@.pending_outbound =~= Seq::empty());
        state
    }
}

/// What announcing a transition does to the state: an older announcement is
/// only noted, any other becomes the transition at hand, whose execution is
/// awaited, with passthrough open.
pub open spec fn prepare_transition_step(
    m: DaveModel,
    msg: DavePrepareTransition,
    f: DaveModel,
) -> bool {
    let m = DaveModel { seen_prepare_transition: true, ..m };
    if m.is_stale(msg.transition_id) {
        f == m
    } else {
        &&& passthrough_step(m.session, true, f.session)
        &&& f == DaveModel {
            transition_id: Some(msg.transition_id),
            protocol_version: Some(msg.protocol_version),
            awaiting_transition_execute: true,
            session: f.session,
            ..m
        }
    }
}

/// What executing a transition does to the state: for the transition at hand
/// the wait is over and passthrough ends; any other is ignored.
pub open spec fn execute_transition_step(
    m: DaveModel,
    msg: DaveExecuteTransition,
    f: DaveModel,
) -> bool {
    if m.transition_id == Some(msg.transition_id) {
        &&& passthrough_step(m.session, false, f.session)
        &&& f == DaveModel { awaiting_transition_execute: false, session: f.session, ..m }
    } else {
        f == m
    }
}

/// What an invalid commit or welcome does to the state: for the transition at
/// hand the wait is over and passthrough is open; any other is ignored.
pub open spec fn invalid_commit_welcome_step(
    m: DaveModel,
    msg: DaveInvalidCommitWelcome,
    f: DaveModel,
) -> bool {
    if m.transition_id == Some(msg.transition_id) {
        &&& passthrough_step(m.session, true, f.session)
        &&& f == DaveModel { awaiting_transition_execute: false, session: f.session, ..m }
    } else {
        f == m
    }
}

/// What decrypting an audio frame of a user may give, and do to the session.
/// Without a session that is ready there is nothing to decrypt with, and only
/// members of the group have their frames decrypted, or let through.
pub open spec fn opus_opened(
    m: DaveModel,
    user_id: u64,
    frame: Seq<u8>,
    plain: Option<Seq<u8>>,
    f: DaveModel,
) -> bool {
    if m.ready() {
        &&& f.session is Some
        &&& opened_frame(m.session->0, user_id, frame, plain, f.session->0)
        &&& plain is Some ==> session_of(m.session->0).passthrough.contains_key(user_id)
        &&& passes_unopened(session_of(m.session->0), user_id, frame) ==> plain == Some(frame)
        &&& session_of(f.session->0) == session_of(m.session->0)
        &&& f == DaveModel { session: f.session, ..m }
    } else {
        plain is None && f == m
    }
}

impl DaveState {
    /// Notes who and where the local client is.
    pub fn set_local_ids(&mut self, user_id: u64, channel_id: u64)
        ensures
            final(self)@ == (DaveModel {
                local_user_id: Some(user_id),
                local_channel_id: Some(channel_id),
                ..old(self)@
            }),
    {
        self.local_user_id = Some(user_id);
        self.local_channel_id = Some(channel_id);
    }

    /// Opens or ends the passthrough of the session, if there is one.
    fn set_passthrough(&mut self, open: bool)
        ensures
            passthrough_step(old(self)@.session, open, final(self)@.session),
            final(self)@ == (DaveModel { session: final(self)@.session, ..old(self)@ }),
    {
        if let Some(session) = self.session.as_mut() {
            session.set_passthrough_mode(open, Some(TRANSITION_EXPIRY_SECONDS));
        }
    }

    /// The gateway announced a transition.
    pub fn on_prepare_transition(&mut self, msg: DavePrepareTransition)
        ensures
            prepare_transition_step(old(self)@, msg, final(self)@),
    {
        self.seen_prepare_transition = true;
        if let Some(current) = self.transition_id {
            if msg.transition_id < current {
                return;
            }
        }
        self.transition_id = Some(msg.transition_id);
        self.protocol_version = Some(msg.protocol_version);
        self.awaiting_transition_execute = true;
        self.set_passthrough(true);
    }

    /// The gateway executed a transition.
    pub fn on_execute_transition(&mut self, msg: DaveExecuteTransition)
        ensures
            execute_transition_step(old(self)@, msg, final(self)@),
    {
        if self.transition_id == Some(msg.transition_id) {
            self.awaiting_transition_execute = false;
            self.set_passthrough(false);
        }
    }

    /// A commit or welcome of a transition was found invalid.
    pub fn on_invalid_commit_welcome(&mut self, msg: DaveInvalidCommitWelcome)
        ensures
            invalid_commit_welcome_step(old(self)@, msg, final(self)@),
    {
        if self.transition_id == Some(msg.transition_id) {
            self.awaiting_transition_execute = false;
            self.set_passthrough(true);
        }
    }
}

/// The protocol version that a session is asked for: an announced version, or
/// the one that is supported where none was announced or version 0 was.
pub open spec fn requested_version(announced: Option<u16>) -> u16 {
    match announced {
        Some(version) => if version == 0 {
            1
        } else {
            version
        },
        None => 1,
    }
}

/// The key package to be sent is the one that `asked` made when it was asked
/// for one, which made it `kept`, or, where it made none, the one that was
/// there before.
pub open spec fn key_package_step(
    before: Option<Seq<u8>>,
    asked: DaveSession,
    after: Option<Seq<u8>>,
    kept: DaveSession,
) -> bool {
    exists|package: Option<Seq<u8>>|
        {
            &&& #[trigger] key_package_reply(asked, package, kept)
            &&& after == if package is Some {
                package
            } else {
                before
            }
        }
}

/// The session `s` has its passthrough opened and makes a key package, and is
/// `kept` after that.
pub open spec fn adopted(
    before: Option<Seq<u8>>,
    s: DaveSession,
    after: Option<Seq<u8>>,
    kept: DaveSession,
) -> bool {
    &&& session_of(kept) == session_of(s).with_passthrough(true)
    &&& exists|asked: DaveSession|
        {
            &&& #[trigger] passthrough_set(s, true, TRANSITION_EXPIRY_SECONDS, asked)
            &&& session_of(asked) == session_of(s).with_passthrough(true)
            &&& key_package_step(before, asked, after, kept)
        }
}

/// What adopting a session that was just created does to the state. Where
/// creating one failed the connection is left without.
pub open spec fn adopt_step(m: DaveModel, created: Option<DaveSession>, f: DaveModel) -> bool {
    &&& match created {
        Some(s) => f.session matches Some(kept) && adopted(
            m.pending_key_package,
            s,
            f.pending_key_package,
            kept,
        ),
        None => f.session is None && f.pending_key_package == m.pending_key_package,
    }
    &&& f == DaveModel {
        session: f.session,
        pending_key_package: f.pending_key_package,
        ..m
    }
}

/// Whether asking for a session of an announced protocol version, and for one
/// of the supported version where that fails, may give `created`, or fail.
pub open spec fn creation_answered(
    version: u16,
    user_id: u64,
    channel_id: u64,
    created: Option<DaveSession>,
) -> bool {
    &&& created matches Some(s) ==> session_of(s) == SessionModel::fresh(user_id, channel_id)
    &&& {
        ||| created is Some && creation_reply(version, user_id, channel_id, created)
        ||| creation_reply(version, user_id, channel_id, None) && creation_reply(
            1,
            user_id,
            channel_id,
            created,
        )
    }
}

/// What asking for a session, and adopting it, does to the state.
pub open spec fn new_session_step(
    m: DaveModel,
    version: u16,
    user_id: u64,
    channel_id: u64,
    f: DaveModel,
) -> bool {
    exists|created: Option<DaveSession>|
        {
            &&& #[trigger] creation_answered(version, user_id, channel_id, created)
            &&& adopt_step(m, created, f)
        }
}

/// The state that an announced epoch leads to, but for the session and what is
/// owed.
pub open spec fn epoch_noted(m: DaveModel, msg: DavePrepareEpoch) -> DaveModel {
    DaveModel {
        seen_prepare_epoch: true,
        transition_id: Some(msg.transition_id),
        protocol_version: Some(msg.protocol_version),
        epoch: Some(msg.epoch),
        ..m
    }
}

/// Readiness is reported at once where the epoch stays the same: there will be
/// no commit or welcome to wait for.
pub open spec fn epoch_answered(
    m: DaveModel,
    msg: DavePrepareEpoch,
    prepared: DaveModel,
) -> DaveModel {
    if m.epoch == Some(msg.epoch) {
        prepared.owing(ready_message(msg.transition_id))
    } else {
        prepared
    }
}

/// What announcing an epoch does to the state.
///
/// * An older announcement is only noted.
/// * Protocol version 0 means transport encryption only: the session goes.
/// * The first epoch, and any epoch without a session, asks for a new session
///   of the local user in the channel; making one may fail.
/// * Any other epoch keeps the session, with passthrough open.
pub open spec fn prepare_epoch_step(
    m: DaveModel,
    msg: DavePrepareEpoch,
    user_id: u64,
    channel_id: u64,
    f: DaveModel,
) -> bool {
    let noted = epoch_noted(m, msg);
    if m.is_stale(msg.transition_id) {
        f == DaveModel { seen_prepare_epoch: true, ..m }
    } else if msg.protocol_version == 0 {
        f == DaveModel { session: None, pending_key_package: None, ..noted }
    } else if msg.epoch == 1 || m.session is None {
        let prepared = DaveModel {
            session: f.session,
            pending_key_package: f.pending_key_package,
            ..noted
        };
        &&& new_session_step(noted, msg.protocol_version, user_id, channel_id, prepared)
        &&& f == epoch_answered(m, msg, prepared)
    } else {
        &&& passthrough_step(m.session, true, f.session)
        &&& f == epoch_answered(m, msg, DaveModel { session: f.session, ..noted })
    }
}

/// What the answer to a set of proposals does to the state: a commit is owed to
/// the gateway together with its welcome, a refusal is reported for the
/// transition at hand.
pub open spec fn after_proposals(m: DaveModel, reply: ProposalsModel) -> DaveModel {
    match reply {
        ProposalsModel::Commit { commit, welcome } => m.owing(
            OutboundModel::Binary {
                opcode: DaveBinaryOpcode::MlsCommitWelcome.code(),
                payload: commit + match welcome {
                    Some(w) => w,
                    None => Seq::empty(),
                },
            },
        ),
        ProposalsModel::NothingToCommit => m,
        ProposalsModel::Refused => match m.transition_id {
            Some(transition_id) => m.owing(invalid_message(transition_id)),
            None => m,
        },
    }
}

/// What the answer to a commit or welcome does to the state: readiness is
/// reported where it was accepted, an invalid commit or welcome where not.
pub open spec fn after_transition(m: DaveModel, transition_id: u32, accepted: bool) -> DaveModel {
    if accepted {
        m.owing(ready_message(transition_id))
    } else {
        m.owing(invalid_message(transition_id))
    }
}

/// Whether a commit or welcome for `transition_id` belongs to another
/// transition than the one at hand.
pub open spec fn transition_mismatch(m: DaveModel, transition_id: u32) -> bool {
    m.transition_id matches Some(current) && current != transition_id
}

/// What an external sender package does to a state with the session `s`: the
/// session is given the package, and a key package is made.
pub open spec fn external_sender_on(
    m: DaveModel,
    s: DaveSession,
    data: Seq<u8>,
    f: DaveModel,
) -> bool {
    &&& f.session is Some
    &&& exists|accepted: bool, given: DaveSession|
        {
            &&& #[trigger] external_sender_reply(s, data, accepted, given)
            &&& external_sender_effect(session_of(s), accepted, session_of(given))
            &&& session_of(f.session->0) == session_of(given)
            &&& key_package_step(
                m.pending_key_package,
                given,
                f.pending_key_package,
                f.session->0,
            )
        }
    &&& f == DaveModel {
        seen_external_sender: true,
        session: f.session,
        pending_key_package: f.pending_key_package,
        ..m
    }
}

/// What an external sender package does to a state without a session, where one
/// could be created for it.
pub open spec fn external_sender_on_new(
    m: DaveModel,
    version: u16,
    user_id: u64,
    channel_id: u64,
    data: Seq<u8>,
    f: DaveModel,
) -> bool {
    exists|s: DaveSession|
        {
            &&& creation_reply(version, user_id, channel_id, Some(s))
            &&& session_of(s) == SessionModel::fresh(user_id, channel_id)
            &&& #[trigger] external_sender_on(m, s, data, f)
        }
}

/// What an external sender package does to the state. Without a session, one is
/// created first where the local ids are known; creating it may fail, and
/// does for a protocol version that is not supported.
pub open spec fn external_sender_step(m: DaveModel, data: Seq<u8>, f: DaveModel) -> bool {
    match (m.session, m.local_user_id, m.local_channel_id) {
        (Some(s), _, _) => external_sender_on(m, s, data, f),
        (None, Some(user_id), Some(channel_id)) => {
            let version = requested_version(m.protocol_version);
            ||| creation_reply(version, user_id, channel_id, None) && f == m
            ||| version == 1 && external_sender_on_new(m, version, user_id, channel_id, data, f)
        },
        _ => f == m,
    }
}

/// Whether an operation type asks to revoke proposals; type 0 appends them.
pub open spec fn is_revocation(operation_type: u8) -> bool {
    operation_type != 0
}

/// What a set of proposals does to a state with the session `s`: the session
/// answers them, and the answer is acted on.
pub open spec fn proposals_answered(
    m: DaveModel,
    s: DaveSession,
    revoke: bool,
    proposals: Seq<u8>,
    f: DaveModel,
) -> bool {
    &&& f.session is Some
    &&& exists|reply: ProposalsModel|
        {
            &&& #[trigger] proposals_reply(s, revoke, proposals, reply, f.session->0)
            &&& proposals_effect(session_of(s), reply, session_of(f.session->0))
            &&& f == after_proposals(DaveModel { session: f.session, ..m }, reply)
        }
}

/// What a proposals frame does to a state with the session `s`; one without an
/// operation type is ignored.
pub open spec fn proposals_step(
    m: DaveModel,
    s: DaveSession,
    payload: Seq<u8>,
    f: DaveModel,
) -> bool {
    match parsed_proposals(payload) {
        Some((operation_type, proposals)) => proposals_answered(
            m,
            s,
            is_revocation(operation_type),
            proposals,
            f,
        ),
        None => f == m,
    }
}

/// What a commit of the transition at hand does to a state with the session
/// `s`: the session accepts or refuses it, and that is reported.
pub open spec fn commit_answered(
    m: DaveModel,
    s: DaveSession,
    transition_id: u32,
    commit: Seq<u8>,
    f: DaveModel,
) -> bool {
    let entered = DaveModel { transition_id: Some(transition_id), session: f.session, ..m };
    &&& f.session is Some
    &&& exists|accepted: bool|
        {
            &&& #[trigger] commit_reply(s, commit, accepted, f.session->0)
            &&& commit_effect(session_of(s), accepted, session_of(f.session->0))
            &&& f == after_transition(entered, transition_id, accepted)
        }
}

/// What an announced commit does to a state with the session `s`: one of
/// another transition than the one at hand is reported as invalid, and one
/// without a transition id is ignored.
pub open spec fn commit_step(
    m: DaveModel,
    s: DaveSession,
    payload: Seq<u8>,
    f: DaveModel,
) -> bool {
    match parsed_transition(payload) {
        Some((transition_id, commit)) => if transition_mismatch(m, transition_id as u32) {
            f == m.owing(invalid_message(transition_id as u32))
        } else {
            commit_answered(m, s, transition_id as u32, commit, f)
        },
        None => f == m,
    }
}

/// What a welcome of the transition at hand does to a state with the session
/// `s`: the session accepts or refuses it, and that is reported.
pub open spec fn welcome_answered(
    m: DaveModel,
    s: DaveSession,
    transition_id: u32,
    welcome: Seq<u8>,
    f: DaveModel,
) -> bool {
    let entered = DaveModel { transition_id: Some(transition_id), session: f.session, ..m };
    &&& f.session is Some
    &&& exists|accepted: bool|
        {
            &&& #[trigger] welcome_reply(s, welcome, accepted, f.session->0)
            &&& welcome_effect(session_of(s), accepted, session_of(f.session->0))
            &&& f == after_transition(entered, transition_id, accepted)
        }
}

/// What a welcome frame does to a state with the session `s`: one of another
/// transition than the one at hand is reported as invalid, and one without a
/// transition id is ignored.
pub open spec fn welcome_step(
    m: DaveModel,
    s: DaveSession,
    payload: Seq<u8>,
    f: DaveModel,
) -> bool {
    match parsed_transition(payload) {
        Some((transition_id, welcome)) => if transition_mismatch(m, transition_id as u32) {
            f == m.owing(invalid_message(transition_id as u32))
        } else {
            welcome_answered(m, s, transition_id as u32, welcome, f)
        },
        None => f == m,
    }
}

/// The state once a frame's sequence number, if it has one, has been noted.
pub open spec fn sequence_noted(m: DaveModel, packet: FrameModel) -> DaveModel {
    match packet.sequence {
        Some(sequence) => DaveModel { last_binary_sequence: Some(sequence), ..m },
        None => m,
    }
}

/// What a binary frame of the gateway does to the state. Frames that only a
/// client sends, frames of other opcodes, and, but for an external sender
/// package, all frames without a session change nothing but the sequence
/// number.
pub open spec fn binary_packet_step(m: DaveModel, packet: FrameModel, f: DaveModel) -> bool {
    let noted = sequence_noted(m, packet);
    if packet.opcode == DaveBinaryOpcode::MlsExternalSender.code() {
        external_sender_step(noted, packet.payload, f)
    } else {
        match noted.session {
            Some(s) => if packet.opcode == DaveBinaryOpcode::MlsProposals.code() {
                proposals_step(noted, s, packet.payload, f)
            } else if packet.opcode == DaveBinaryOpcode::MlsAnnounceCommitTransition.code() {
                commit_step(noted, s, packet.payload, f)
            } else if packet.opcode == DaveBinaryOpcode::MlsWelcome.code() {
                welcome_step(noted, s, packet.payload, f)
            } else {
                f == noted
            },
            None => f == noted,
        }
    }
}

/// Creates a session for an announced protocol version, falling back to the
/// supported version where that one is not supported.
fn open_session(version: u16, user_id: u64, channel_id: u64) -> (created: Option<DaveSession>)
    requires
        version != 0,
    ensures
        creation_answered(version, user_id, channel_id, created),
{
    match new_session(version, user_id, channel_id) {
        Ok(session) => Some(session),
        Err(_) => new_session(dave_protocol_version(), user_id, channel_id).ok(),
    }
}

impl DaveState {
    /// Owes the gateway a message, behind those that it is owed already.
    fn owe(&mut self, message: DaveOutboundMessage)
        ensures
            final(self)@ == old(self)@.owing(message@),
    {
        self.pending_outbound.push_back(message);
        assert(self@.pending_outbound =~= old(self)@.pending_outbound.push(message@));
    }

    /// Reports readiness for a transition.
    fn owe_ready(&mut self, transition_id: u32)
        ensures
            final(self)@ == old(self)@.owing(ready_message(transition_id)),
    {
        let data = object_with_number("transition_id", transition_id as u64);
        self.owe(DaveOutboundMessage::Json { op: TRANSITION_READY_OP, data });
    }

    /// Reports that a transition's commit or welcome was invalid.
    fn owe_invalid(&mut self, transition_id: u32)
        ensures
            final(self)@ == old(self)@.owing(invalid_message(transition_id)),
    {
        let data = object_with_number("transition_id", transition_id as u64);
        self.owe(DaveOutboundMessage::Json { op: INVALID_COMMIT_WELCOME_OP, data });
    }

    /// The session made a key package, or failed to make one: a new one is to be
    /// sent in place of any other.
    pub fn finish_key_package<E>(&mut self, result: Result<Vec<u8>, E>)
        ensures
            final(self)@ == (DaveModel {
                pending_key_package: match result {
                    Ok(package) => Some(package@),
                    Err(_) => old(self)@.pending_key_package,
                },
                ..old(self)@
            }),
    {
        if let Ok(key_package) = result {
            self.pending_key_package = Some(octets_from_vec(key_package));
        }
    }

    /// Takes over a session that was just created, if creating it succeeded:
    /// opens its passthrough and makes its key package.
    pub fn adopt_session(&mut self, created: Option<DaveSession>)
        ensures
            adopt_step(old(self)@, created, final(self)@),
    {
        match created {
            Some(session) => {
                let mut session = session;
                session.set_passthrough_mode(true, Some(TRANSITION_EXPIRY_SECONDS));
                let ghost asked = session;
                assert(passthrough_set(created->0, true, TRANSITION_EXPIRY_SECONDS, asked));
                let result = session.create_key_package();
                assert(key_package_reply(asked, bytes_of(ok(result)), session));
                self.finish_key_package(result);
                self.session = Some(session);
                assert(key_package_step(
                    old(self)@.pending_key_package,
                    asked,
                    self@.pending_key_package,
                    session,
                ));
            },
            None => {
                self.session = None;
            },
        }
    }

    /// The gateway announced an epoch.
    pub fn on_prepare_epoch(&mut self, msg: DavePrepareEpoch, user_id: u64, channel_id: u64)
        ensures
            prepare_epoch_step(old(self)@, msg, user_id, channel_id, final(self)@),
    {
        self.seen_prepare_epoch = true;
        if let Some(current) = self.transition_id {
            if msg.transition_id < current {
                return;
            }
        }
        let previous_epoch = self.epoch;
        self.transition_id = Some(msg.transition_id);
        self.protocol_version = Some(msg.protocol_version);
        self.epoch = Some(msg.epoch);

        // Protocol version 0 means transport-only mode; no DAVE session needed.
        if msg.protocol_version == 0 {
            self.session = None;
            self.pending_key_package = None;
            return;
        }
        if msg.epoch == 1 || self.session.is_none() {
            let created = open_session(msg.protocol_version, user_id, channel_id);
            self.adopt_session(created);
        } else {
            self.set_passthrough(true);
        }
        if previous_epoch == Some(msg.epoch) {
            self.owe_ready(msg.transition_id);
        }
    }

    /// The session answered a set of proposals.
    pub fn finish_proposals<E>(&mut self, result: Result<Option<CommitWelcome>, E>)
        ensures
            final(self)@ == after_proposals(old(self)@, proposals_model(result)),
    {
        match result {
            Ok(Some(commit_welcome)) => {
                let mut out: Vec<u8> = commit_welcome.commit;
                if let Some(welcome) = commit_welcome.welcome {
                    out.extend_from_slice(welcome.as_slice());
                }
                assert(out@ =~= commit_welcome.commit@ + match bytes_of(commit_welcome.welcome) {
                    Some(w) => w,
                    None => Seq::empty(),
                });
                self.owe(
                    DaveOutboundMessage::Binary { opcode: 28, payload: octets_from_vec(out) },
                );
            },
            Ok(None) => {},
            Err(_) => {
                if let Some(transition_id) = self.transition_id {
                    self.owe_invalid(transition_id);
                }
            },
        }
    }

    /// The session accepted or refused a transition's commit or welcome.
    pub fn finish_transition(&mut self, transition_id: u32, accepted: bool)
        ensures
            final(self)@ == after_transition(old(self)@, transition_id, accepted),
    {
        if accepted {
            self.owe_ready(transition_id);
        } else {
            self.owe_invalid(transition_id);
        }
    }

    /// Checks that a commit or welcome belongs to the transition at hand, which
    /// it becomes where there is none. One of another transition is reported.
    pub fn enter_transition(&mut self, transition_id: u32) -> (entered: bool)
        ensures
            entered == !transition_mismatch(old(self)@, transition_id),
            final(self)@ == (if entered {
                DaveModel { transition_id: Some(transition_id), ..old(self)@ }
            } else {
                old(self)@.owing(invalid_message(transition_id))
            }),
    {
        if let Some(current) = self.transition_id {
            if current != transition_id {
                self.owe_invalid(transition_id);
                return false;
            }
        } else {
            self.transition_id = Some(transition_id);
        }
        true
    }

    /// A binary frame of the gateway arrived.
    pub fn on_binary_packet(&mut self, packet: &BinaryGatewayPacket)
        ensures
            binary_packet_step(old(self)@, packet@, final(self)@),
    {
        if let Some(sequence) = packet.sequence {
            self.last_binary_sequence = Some(sequence);
        }
        let op = match DaveBinaryOpcode::from_u8(packet.opcode) {
            Some(op) => op,
            None => {
                return;
            },
        };
        let payload = octets_as_slice(&packet.payload);
        match op {
            DaveBinaryOpcode::MlsExternalSender => {
                self.on_external_sender(payload);
            },
            DaveBinaryOpcode::MlsProposals => {
                self.on_proposals(payload);
            },
            DaveBinaryOpcode::MlsAnnounceCommitTransition => {
                self.on_announce_commit(payload);
            },
            DaveBinaryOpcode::MlsWelcome => {
                self.on_welcome(payload);
            },
            DaveBinaryOpcode::MlsCommitWelcome | DaveBinaryOpcode::MlsKeyPackage => {
                // Outbound-only from client for normal flow.
            },
        }
    }

    /// Gives the session the gateway's external sender package, creating the
    /// session first where there is none, and makes a key package.
    fn on_external_sender(&mut self, payload: &[u8])
        ensures
            external_sender_step(old(self)@, payload@, final(self)@),
    {
        if self.session.is_none() {
            if let (Some(user_id), Some(channel_id)) = (self.local_user_id, self.local_channel_id) {
                let supported = dave_protocol_version();
                let version = match self.protocol_version {
                    Some(version) => if version == 0 {
                        supported
                    } else {
                        version
                    },
                    None => supported,
                };
                self.session = new_session(version, user_id, channel_id).ok();
            }
        }
        let ghost before = self.session;
        if let Some(session) = self.session.as_mut() {
            self.seen_external_sender = true;
            let set = session.set_external_sender(payload);
            let ghost given = *session;
            assert(external_sender_reply(before->0, payload@, set is Ok, given));
            let result = session.create_key_package();
            let ghost kept = *session;
            assert(key_package_reply(given, bytes_of(ok(result)), kept));
            self.finish_key_package(result);
            assert(key_package_step(
                old(self)@.pending_key_package,
                given,
                self@.pending_key_package,
                kept,
            ));
        }
        proof {
            if before is Some {
                assert(external_sender_on(old(self)@, before->0, payload@, self@));
                if old(self)@.session is None {
                    assert(session_of(before->0) == SessionModel::fresh(
                        self.local_user_id->0,
                        self.local_channel_id->0,
                    ));
                }
            }
        }
    }

    /// Hands proposals to the session, if there is one.
    fn on_proposals(&mut self, payload: &[u8])
        ensures
            match old(self)@.session {
                Some(s) => proposals_step(old(self)@, s, payload@, final(self)@),
                None => final(self)@ == old(self)@,
            },
    {
        if let Some((operation_type, proposals)) = decode_proposals_payload(payload) {
            let ghost before = self.session;
            if let Some(session) = self.session.as_mut() {
                let result = process_proposals(session, operation_type != 0, proposals);
                assert(proposals_reply(
                    before->0,
                    is_revocation(operation_type),
                    proposals@,
                    proposals_model(result),
                    self.session->0,
                ));
                assert(self@ == (DaveModel { session: self@.session, ..old(self)@ }));
                self.finish_proposals(result);
            }
        }
    }

    /// Hands an announced commit to the session, if there is one.
    fn on_announce_commit(&mut self, payload: &[u8])
        ensures
            match old(self)@.session {
                Some(s) => commit_step(old(self)@, s, payload@, final(self)@),
                None => final(self)@ == old(self)@,
            },
    {
        if self.session.is_none() {
            return;
        }
        if let Some((transition_id, commit)) = decode_transition_payload(payload) {
            let transition_id = transition_id as u32;
            if !self.enter_transition(transition_id) {
                return;
            }
            let ghost before = self.session;
            if let Some(session) = self.session.as_mut() {
                let accepted = session.process_commit(commit).is_ok();
                assert(commit_reply(before->0, commit@, accepted, self.session->0));
                assert(self@ == (DaveModel {
                    transition_id: Some(transition_id),
                    session: self@.session,
                    ..old(self)@
                }));
                self.finish_transition(transition_id, accepted);
            }
        }
    }

    /// Hands a welcome to the session, if there is one.
    fn on_welcome(&mut self, payload: &[u8])
        ensures
            match old(self)@.session {
                Some(s) => welcome_step(old(self)@, s, payload@, final(self)@),
                None => final(self)@ == old(self)@,
            },
    {
        if self.session.is_none() {
            return;
        }
        if let Some((transition_id, welcome)) = decode_transition_payload(payload) {
            let transition_id = transition_id as u32;
            if !self.enter_transition(transition_id) {
                return;
            }
            let ghost before = self.session;
            if let Some(session) = self.session.as_mut() {
                let accepted = session.process_welcome(welcome).is_ok();
                assert(welcome_reply(before->0, welcome@, accepted, self.session->0));
                assert(self@ == (DaveModel {
                    transition_id: Some(transition_id),
                    session: self@.session,
                    ..old(self)@
                }));
                self.finish_transition(transition_id, accepted);
            }
        }
    }
}

/// The phase of a connection's handshake.
pub open spec fn handshake_phase(m: DaveModel) -> Seq<char> {
    if m.awaiting_transition_execute {
        "awaiting_execute"@
    } else if m.transition_id is Some {
        "transitioning"@
    } else {
        "idle"@
    }
}

impl DaveState {
    /// Takes the key package that is waiting to be sent, if any.
    pub fn take_pending_key_package(&mut self) -> (package: Option<Bytes>)
        ensures
            match package {
                Some(p) => old(self)@.pending_key_package == Some(octets(p)),
                None => old(self)@.pending_key_package is None,
            },
            final(self)@ == (DaveModel { pending_key_package: None, ..old(self)@ }),
    {
        self.pending_key_package.take()
    }

    /// Whether frames can be encrypted and decrypted.
    pub fn dave_ready(&self) -> (ready: bool)
        ensures
            ready == self@.ready(),
    {
        match &self.session {
            Some(session) => session.is_ready(),
            None => false,
        }
    }

    /// Decrypts an audio frame of a user. Without a session that is ready there
    /// is nothing to decrypt with. The session cannot read a member's frame with
    /// a number that runs over ten bytes: [`crate::session::frame_is_overlong`]
    /// tells such frames.
    pub fn decrypt_opus_for_user(&mut self, user_id: u64, packet: &[u8]) -> (plain: Option<Vec<u8>>)
        requires
            old(self)@.has_member(user_id) ==> !has_overlong_number(packet@),
        ensures
            opus_opened(old(self)@, user_id, packet@, bytes_of(plain), final(self)@),
    {
        if !self.dave_ready() {
            return None;
        }
        if let Some(session) = self.session.as_mut() {
            decrypt_audio(session, user_id, packet).ok()
        } else {
            None
        }
    }

    /// Encrypts an Opus frame of the local user. Without a session that is
    /// ready there is nothing to encrypt with.
    pub fn encrypt_opus_for_self(&mut self, packet: &[u8]) -> (sealed: Option<Vec<u8>>)
        ensures
            !old(self)@.ready() ==> sealed is None && final(self)@ == old(self)@,
            old(self)@.ready() ==> bytes_of(sealed) == sealed_frame(
                old(self)@.session->0,
                packet@,
            ),
            old(self)@.ready() && packet@ == opus_silence() ==> bytes_of(sealed) == Some(packet@),
            old(self)@.ready() ==> final(self)@.session is Some && session_of(
                final(self)@.session->0,
            ) == session_of(old(self)@.session->0),
            old(self)@.ready() ==> sealing_reply(
                old(self)@.session->0,
                packet@,
                bytes_of(sealed),
                final(self)@.session->0,
            ),
            final(self)@ == (DaveModel { session: final(self)@.session, ..old(self)@ }),
    {
        if !self.dave_ready() {
            return None;
        }
        if let Some(session) = self.session.as_mut() {
            encrypt_opus(session, packet).ok()
        } else {
            None
        }
    }

    /// Takes the oldest message that the gateway is owed, if any.
    pub fn take_pending_outbound(&mut self) -> (message: Option<DaveOutboundMessage>)
        ensures
            match message {
                Some(m) => {
                    &&& old(self)@.pending_outbound.len() > 0
                    &&& m@ == old(self)@.pending_outbound.first()
                    &&& final(self)@ == DaveModel {
                        pending_outbound: old(self)@.pending_outbound.drop_first(),
                        ..old(self)@
                    }
                },
                None => old(self)@.pending_outbound.len() == 0 && final(self)@ == old(self)@,
            },
    {
        let message = self.pending_outbound.pop_front();
        assert(message is Some ==> self@.pending_outbound
            =~= old(self)@.pending_outbound.drop_first());
        assert(message is None ==> self@.pending_outbound =~= old(self)@.pending_outbound);
        message
    }

    /// The phase of the handshake, and which announcements have been seen.
    pub fn handshake_status(&self) -> (status: (&'static str, bool, bool, bool))
        ensures
            status.0@ == handshake_phase(self@),
            status.1 == self@.seen_prepare_transition,
            status.2 == self@.seen_prepare_epoch,
            status.3 == self@.seen_external_sender,
    {
        let phase = if self.awaiting_transition_execute {
            "awaiting_execute"
        } else if self.transition_id.is_some() {
            "transitioning"
        } else {
            "idle"
        };
        (
            phase,
            self.seen_prepare_transition,
            self.seen_prepare_epoch,
            self.seen_external_sender,
        )
    }
}

} // verus!
