//! The MLS session behind a DAVE connection (`davey::DaveSession`).
//!
//! A session draws random keys and looks at the clock, so most of its answers
//! are no function of what it is given. For those calls a relation says which
//! answers a call on a given session with given bytes may have, and an
//! `*_effect` predicate says what the call does to the session's state.
use core::num::NonZeroU16;
use davey::errors::{
    CreateKeyPackageError, DecryptError, EncryptError, InitError, ProcessCommitError,
    ProcessProposalsError, ProcessWelcomeError, SetExternalSenderError,
};
use davey::{DaveSession, MediaType, ProposalsOperationType};
use vstd::prelude::*;

verus! {

#[verifier::external_type_specification]
#[verifier::external_body]
pub struct ExDaveSession(davey::DaveSession);

#[verifier::external_type_specification]
#[verifier::external_body]
pub struct ExInitError(davey::errors::InitError);

#[verifier::external_type_specification]
#[verifier::external_body]
pub struct ExSetExternalSenderError(davey::errors::SetExternalSenderError);

#[verifier::external_type_specification]
#[verifier::external_body]
pub struct ExCreateKeyPackageError(davey::errors::CreateKeyPackageError);

#[verifier::external_type_specification]
#[verifier::external_body]
pub struct ExProcessProposalsError(davey::errors::ProcessProposalsError);

#[verifier::external_type_specification]
#[verifier::external_body]
pub struct ExProcessCommitError(davey::errors::ProcessCommitError);

#[verifier::external_type_specification]
#[verifier::external_body]
pub struct ExProcessWelcomeError(davey::errors::ProcessWelcomeError);

#[verifier::external_type_specification]
#[verifier::external_body]
pub struct ExDecryptError(davey::errors::DecryptError);

#[verifier::external_type_specification]
#[verifier::external_body]
pub struct ExEncryptError(davey::errors::EncryptError);

/// Where a session stands in the MLS exchange.
pub enum Status {
    Inactive,
    Pending,
    AwaitingResponse,
    Active,
}

/// Whether frames of a member that arrive unencrypted are let through: without
/// limit, or until some point in time at most.
pub enum Passthrough {
    Open,
    Closed,
}

/// The state of a session that its callers can tell apart.
pub struct SessionModel {
    /// The protocol version that the session speaks.
    pub version: u16,
    pub user_id: u64,
    pub channel_id: u64,
    pub status: Status,
    /// Whether the gateway's external sender package is known.
    pub external_sender: bool,
    /// Whether the session has a group, pending or joined.
    pub has_group: bool,
    /// Whether frames can be encrypted and decrypted.
    pub ready: bool,
    /// The members whose frames can be decrypted, each with its passthrough.
    pub passthrough: Map<u64, Passthrough>,
}

impl SessionModel {
    /// A session that has just been created for a user in a channel.
    pub open spec fn fresh(user_id: u64, channel_id: u64) -> SessionModel {
        SessionModel {
            version: 1,
            user_id,
            channel_id,
            status: Status::Inactive,
            external_sender: false,
            has_group: false,
            ready: false,
            passthrough: Map::empty(),
        }
    }

    /// The session after passthrough has been opened, or ended, for all members.
    pub open spec fn with_passthrough(self, open: bool) -> SessionModel {
        SessionModel {
            passthrough: self.passthrough.map_values(
                |p: Passthrough|
                    if open {
                        Passthrough::Open
                    } else {
                        Passthrough::Closed
                    },
            ),
            ..self
        }
    }
}

/// A session without members has no passthrough to open or to end.
pub proof fn law_fresh_passthrough(user_id: u64, channel_id: u64, open: bool)
    ensures
        SessionModel::fresh(user_id, channel_id).with_passthrough(open) == SessionModel::fresh(
            user_id,
            channel_id,
        ),
{
    assert(SessionModel::fresh(user_id, channel_id).with_passthrough(open).passthrough
        =~= Map::empty());
}

/// The state that a session is in.
pub uninterp spec fn session_of(session: DaveSession) -> SessionModel;

/// Whether `after` is what `before` may become when passthrough is opened, or
/// ended with a given number of seconds to expire.
pub uninterp spec fn passthrough_set(
    before: DaveSession,
    open: bool,
    expiry: u32,
    after: DaveSession,
) -> bool;

/// Whether asking for a session of a protocol version, of a user in a channel,
/// may give `created`, or fail.
pub uninterp spec fn creation_reply(
    version: u16,
    user_id: u64,
    channel_id: u64,
    created: Option<DaveSession>,
) -> bool;

/// Whether setting the external sender package `data` on `before` may be
/// answered with acceptance, or with refusal, and leave `after`.
pub uninterp spec fn external_sender_reply(
    before: DaveSession,
    data: Seq<u8>,
    accepted: bool,
    after: DaveSession,
) -> bool;

/// Whether `before` may answer a request for a key package with `package`, or
/// fail to make one, and become `after`, which holds the package's private
/// keys.
pub uninterp spec fn key_package_reply(
    before: DaveSession,
    package: Option<Seq<u8>>,
    after: DaveSession,
) -> bool;

/// Whether `before` may answer proposals to append (or to revoke) with `reply`
/// and become `after`.
pub uninterp spec fn proposals_reply(
    before: DaveSession,
    revoke: bool,
    proposals: Seq<u8>,
    reply: ProposalsModel,
    after: DaveSession,
) -> bool;

/// Whether `before` may accept or refuse `commit` and become `after`.
pub uninterp spec fn commit_reply(
    before: DaveSession,
    commit: Seq<u8>,
    accepted: bool,
    after: DaveSession,
) -> bool;

/// Whether `before` may accept or refuse `welcome` and become `after`.
pub uninterp spec fn welcome_reply(
    before: DaveSession,
    welcome: Seq<u8>,
    accepted: bool,
    after: DaveSession,
) -> bool;

/// Whether `before` may open an audio frame of `user_id` as `plain`, or fail to
/// open it, and become `after`.
pub uninterp spec fn opened_frame(
    before: DaveSession,
    user_id: u64,
    frame: Seq<u8>,
    plain: Option<Seq<u8>>,
    after: DaveSession,
) -> bool;

/// What `session` encrypts an Opus frame to; `None` where it fails.
pub uninterp spec fn sealed_frame(session: DaveSession, frame: Seq<u8>) -> Option<Seq<u8>>;

/// Whether `before`, asked to encrypt an Opus frame, may answer with `sealed`,
/// or fail, and become `after`, which counts the frame.
pub uninterp spec fn sealing_reply(
    before: DaveSession,
    frame: Seq<u8>,
    sealed: Option<Seq<u8>>,
    after: DaveSession,
) -> bool;

/// The commit, and the welcome for members that it adds, that answer a set of
/// proposals.
#[derive(Debug)]
pub struct CommitWelcome {
    pub commit: Vec<u8>,
    pub welcome: Option<Vec<u8>>,
}

/// How a session answered a set of proposals.
pub enum ProposalsModel {
    Refused,
    NothingToCommit,
    Commit { commit: Seq<u8>, welcome: Option<Seq<u8>> },
}

/// The bytes of an optional vector.
pub open spec fn bytes_of(bytes: Option<Vec<u8>>) -> Option<Seq<u8>> {
    match bytes {
        Some(b) => Some(b@),
        None => None,
    }
}

/// What the result of processing proposals says.
pub open spec fn proposals_model<E>(result: Result<Option<CommitWelcome>, E>) -> ProposalsModel {
    match result {
        Err(_) => ProposalsModel::Refused,
        Ok(None) => ProposalsModel::NothingToCommit,
        Ok(Some(cw)) => ProposalsModel::Commit {
            commit: cw.commit@,
            welcome: bytes_of(cw.welcome),
        },
    }
}

/// What setting an external sender does: it is refused within a group, and
/// otherwise replaces any pending group by a new one.
pub open spec fn external_sender_effect(
    before: SessionModel,
    accepted: bool,
    after: SessionModel,
) -> bool {
    if before.status is AwaitingResponse || before.status is Active {
        !accepted && after == before
    } else if accepted {
        after == SessionModel {
            status: Status::Pending,
            external_sender: true,
            has_group: true,
            ..before
        }
    } else {
        &&& after == SessionModel {
            external_sender: after.external_sender,
            has_group: false,
            ..before
        }
        &&& before.external_sender ==> after.external_sender
    }
}

/// What processing proposals does: without a group they are refused, a commit
/// leaves the session waiting for the group's answer, and proposals that cancel
/// out end that wait.
pub open spec fn proposals_effect(
    before: SessionModel,
    reply: ProposalsModel,
    after: SessionModel,
) -> bool {
    &&& !before.has_group ==> reply is Refused
    &&& after == match reply {
        ProposalsModel::Refused => before,
        ProposalsModel::NothingToCommit => SessionModel {
            status: if before.status is AwaitingResponse {
                if before.ready {
                    Status::Active
                } else {
                    Status::Pending
                }
            } else {
                before.status
            },
            ..before
        },
        ProposalsModel::Commit { .. } => SessionModel {
            status: Status::AwaitingResponse,
            ..before
        },
    }
}

/// Members that stay keep their passthrough; members that join start without.
pub open spec fn members_kept(before: Map<u64, Passthrough>, after: Map<u64, Passthrough>) -> bool {
    forall|user_id: u64| #[trigger]
        after.contains_key(user_id) ==> after[user_id] == (if before.contains_key(user_id) {
            before[user_id]
        } else {
            Passthrough::Closed
        })
}

/// What processing a commit does: without a joined group it is refused, and
/// accepting it makes the session ready.
pub open spec fn commit_effect(before: SessionModel, accepted: bool, after: SessionModel) -> bool {
    if !before.has_group || before.status is Pending {
        !accepted && after == before
    } else {
        &&& members_kept(before.passthrough, after.passthrough)
        &&& after == SessionModel {
            status: after.status,
            ready: accepted || before.ready,
            passthrough: after.passthrough,
            ..before
        }
        &&& accepted ==> after.status is Active
    }
}

/// What processing a welcome does: in an active group, or before the external
/// sender is known, it is refused, and accepting it makes the session ready.
pub open spec fn welcome_effect(before: SessionModel, accepted: bool, after: SessionModel) -> bool {
    if (before.has_group && before.status is Active) || !before.external_sender {
        !accepted && after == before
    } else {
        &&& members_kept(before.passthrough, after.passthrough)
        &&& after == SessionModel {
            status: after.status,
            has_group: after.has_group,
            ready: accepted || before.ready,
            passthrough: after.passthrough,
            ..before
        }
        &&& accepted ==> after.status is Active && after.has_group
    }
}

/// Reads `davey::DAVE_PROTOCOL_VERSION`.
#[verifier::external_body]
pub(crate) fn dave_protocol_version() -> (version: u16)
    ensures
        version == 1,
{
    davey::DAVE_PROTOCOL_VERSION
}

/// Calls `DaveSession::new` with keys of its own making. Version 1 is the only
/// one that is supported; with it, making the keys may still fail.
#[verifier::external_body]
pub(crate) fn new_session(version: u16, user_id: u64, channel_id: u64) -> (session: Result<
    DaveSession,
    InitError,
>)
    requires
        version != 0,
    ensures
        creation_reply(version, user_id, channel_id, ok(session)),
        session is Ok ==> version == 1,
        session matches Ok(s) ==> session_of(s) == SessionModel::fresh(user_id, channel_id),
{
    let version = NonZeroU16::new(version).expect("version is not zero");
    DaveSession::new(version, user_id, channel_id, None)
}

/// `DaveSession::is_ready`: reads the state.
pub assume_specification[ DaveSession::is_ready ](session: &DaveSession) -> (ready: bool)
    ensures
        ready == session_of(*session).ready,
;

/// `DaveSession::set_passthrough_mode`: sets the passthrough of every member
/// with a decryptor. Where it is ended, unencrypted frames are let through for
/// the given number of seconds at most, by the clock; without a number it is
/// ten.
pub assume_specification[ DaveSession::set_passthrough_mode ](
    session: &mut DaveSession,
    passthrough_mode: bool,
    transition_expiry: Option<u32>,
)
    ensures
        passthrough_set(
            *old(session),
            passthrough_mode,
            match transition_expiry {
                Some(seconds) => seconds,
                None => 10,
            },
            *final(session),
        ),
        session_of(*final(session)) == session_of(*old(session)).with_passthrough(passthrough_mode),
;

/// `DaveSession::set_external_sender`.
pub assume_specification[ DaveSession::set_external_sender ](
    session: &mut DaveSession,
    external_sender_data: &[u8],
) -> (result: Result<(), SetExternalSenderError>)
    ensures
        external_sender_reply(
            *old(session),
            external_sender_data@,
            result is Ok,
            *final(session),
        ),
        external_sender_effect(
            session_of(*old(session)),
            result is Ok,
            session_of(*final(session)),
        ),
;

/// `DaveSession::create_key_package`: a key package with new random keys; the
/// session's state stays. Its `unwrap` on the protocol version cannot fail, as
/// no session of another version than 1 can be made.
pub assume_specification[ DaveSession::create_key_package ](session: &mut DaveSession) -> (result:
    Result<Vec<u8>, CreateKeyPackageError>)
    ensures
        key_package_reply(*old(session), bytes_of(ok(result)), *final(session)),
        session_of(*final(session)) == session_of(*old(session)),
;

/// Calls `DaveSession::process_proposals` without a list of expected users.
/// It panics where its MLS library commits to a new member and returns no
/// welcome for it; that library returns one with every such commit.
#[verifier::external_body]
pub(crate) fn process_proposals(
    session: &mut DaveSession,
    revoke: bool,
    proposals: &[u8],
) -> (result: Result<Option<CommitWelcome>, ProcessProposalsError>)
    ensures
        proposals_reply(
            *old(session),
            revoke,
            proposals@,
            proposals_model(result),
            *final(session),
        ),
        proposals_effect(
            session_of(*old(session)),
            proposals_model(result),
            session_of(*final(session)),
        ),
{
    let operation = match revoke {
        true => ProposalsOperationType::REVOKE,
        false => ProposalsOperationType::APPEND,
    };
    match session.process_proposals(operation, proposals, None) {
        Ok(Some(cw)) => Ok(Some(CommitWelcome { commit: cw.commit, welcome: cw.welcome })),
        Ok(None) => Ok(None),
        Err(e) => Err(e),
    }
}

/// `DaveSession::process_commit`.
pub assume_specification[ DaveSession::process_commit ](
    session: &mut DaveSession,
    commit: &[u8],
) -> (result: Result<(), ProcessCommitError>)
    ensures
        commit_reply(*old(session), commit@, result is Ok, *final(session)),
        commit_effect(session_of(*old(session)), result is Ok, session_of(*final(session))),
;

/// `DaveSession::process_welcome`.
pub assume_specification[ DaveSession::process_welcome ](
    session: &mut DaveSession,
    welcome: &[u8],
) -> (result: Result<(), ProcessWelcomeError>)
    ensures
        welcome_reply(*old(session), welcome@, result is Ok, *final(session)),
        welcome_effect(session_of(*old(session)), result is Ok, session_of(*final(session))),
;

/// Whether a frame ends as sealed frames do: with a marker, and before it a byte
/// that says how long the end of the frame is.
pub open spec fn ends_sealed(frame: Seq<u8>) -> bool {
    let len = frame.len() as int;
    len >= 11 && frame[len - 1] == 0xFA && frame[len - 2] == 0xFA && 11 <= frame[len - 3] <= len
}

/// The numbers at the end of a sealed frame: they lie between the tag of eight
/// bytes and the byte that says how long the end of the frame is. A frame that
/// does not end as sealed frames do has none.
pub open spec fn sealed_numbers(frame: Seq<u8>) -> Seq<u8> {
    let len = frame.len() as int;
    if ends_sealed(frame) {
        frame.subrange(len - frame[len - 3] + 8, len - 3)
    } else {
        Seq::empty()
    }
}

/// Whether the ten bytes from an index on all announce another byte of the same
/// number, and another byte is there.
pub open spec fn overlong_at(numbers: Seq<u8>, i: int) -> bool {
    0 <= i && i + 10 < numbers.len() && forall|j: int|
        i <= j < i + 10 ==> #[trigger] numbers[j] >= 0x80
}

/// Whether one of the numbers at the end of a sealed frame runs over ten bytes,
/// more than any 64-bit number takes.
pub open spec fn has_overlong_number(frame: Seq<u8>) -> bool {
    exists|i: int| #[trigger] overlong_at(sealed_numbers(frame), i)
}

/// Finds out whether one of the numbers at the end of a sealed frame runs over
/// ten bytes.
pub fn frame_is_overlong(frame: &[u8]) -> (overlong: bool)
    ensures
        overlong == has_overlong_number(frame@),
{
    let len = frame.len();
    if len < 11 || frame[len - 1] != 0xFA || frame[len - 2] != 0xFA {
        return false;
    }
    let size = frame[len - 3] as usize;
    if size < 11 || size > len {
        return false;
    }
    let from = len - size + 8;
    let to = len - 3;
    let ghost numbers = sealed_numbers(frame@);
    let mut run: usize = 0;
    for i in from..to
        invariant
            from <= to <= frame@.len(),
            numbers == sealed_numbers(frame@),
            numbers == frame@.subrange(from as int, to as int),
            run <= 10,
            run <= i - from,
            forall|j: int| i - from - run <= j < i - from ==> #[trigger] numbers[j] >= 0x80,
            run < 10 && run < i - from ==> numbers[i - from - run - 1] < 0x80,
            forall|k: int| k + 10 < i - from ==> !#[trigger] overlong_at(numbers, k),
    {
        if run == 10 {
            assert(overlong_at(numbers, i - from - 10));
            return true;
        }
        assert forall|k: int| k + 10 < i + 1 - from implies !#[trigger] overlong_at(
            numbers,
            k,
        ) by {
            if k + 10 == i - from && overlong_at(numbers, k) {
                assert(numbers[i - from - run - 1] >= 0x80);
            }
        }
        if frame[i] >= 0x80 {
            run = run + 1;
        } else {
            run = 0;
        }
    }
    false
}

/// Whether a frame of a member is let through as it is: silence is, and while
/// passthrough is open, so is any frame that does not end as sealed ones do.
pub open spec fn passes_unopened(session: SessionModel, user_id: u64, frame: Seq<u8>) -> bool {
    session.passthrough.contains_key(user_id) && (frame == opus_silence() || (
    session.passthrough[user_id] is Open && !ends_sealed(frame)))
}

/// Calls `DaveSession::decrypt` for audio. Whether a sealed frame opens depends
/// on the clock too, as keys expire, and so does whether another frame is let
/// through where passthrough is not open. Nobody but a member, who has a
/// decryptor, has a frame opened. A member's number that runs over ten bytes is
/// left out: reading it shifts by more than 63 bits, which panics where overflow
/// is checked. The 32-bit statistics that a session keeps of its frames are
/// taken not to be full.
#[verifier::external_body]
pub(crate) fn decrypt_audio(session: &mut DaveSession, user_id: u64, frame: &[u8]) -> (plain:
    Result<Vec<u8>, DecryptError>)
    requires
        session_of(*old(session)).passthrough.contains_key(user_id) ==> !has_overlong_number(
            frame@,
        ),
    ensures
        opened_frame(*old(session), user_id, frame@, bytes_of(ok(plain)), *final(session)),
        plain is Ok ==> session_of(*old(session)).passthrough.contains_key(user_id),
        passes_unopened(session_of(*old(session)), user_id, frame@) ==> bytes_of(ok(plain)) == Some(
            frame@,
        ),
        session_of(*final(session)) == session_of(*old(session)),
{
    session.decrypt(user_id, MediaType::AUDIO, frame)
}

/// The Opus frame that stands for silence.
pub open spec fn opus_silence() -> Seq<u8> {
    seq![0xF8u8, 0xFF, 0xFE]
}

/// Calls `DaveSession::encrypt_opus`, which fails on a session that is not
/// ready. Silence is handed back as it is; what any other frame encrypts to
/// depends on the session and the frame. The 32-bit statistics and the frame
/// counter that a session keeps are taken not to be full.
#[verifier::external_body]
pub(crate) fn encrypt_opus(session: &mut DaveSession, frame: &[u8]) -> (sealed: Result<
    Vec<u8>,
    EncryptError,
>)
    ensures
        bytes_of(ok(sealed)) == sealed_frame(*old(session), frame@),
        sealing_reply(*old(session), frame@, bytes_of(ok(sealed)), *final(session)),
        sealed is Ok ==> session_of(*old(session)).ready,
        session_of(*old(session)).ready && frame@ == opus_silence() ==> bytes_of(ok(sealed))
            == Some(frame@),
        session_of(*final(session)) == session_of(*old(session)),
{
    match session.encrypt_opus(frame) {
        Ok(sealed) => Ok(sealed.into_owned()),
        Err(e) => Err(e),
    }
}

/// The value of a successful result.
pub open spec fn ok<T, E>(result: Result<T, E>) -> Option<T> {
    match result {
        Ok(value) => Some(value),
        Err(_) => None,
    }
}

/// Opening or ending passthrough does so for every member, adds and removes none,
/// and changes nothing else of a session.
pub proof fn law_passthrough_of_every_member(session: SessionModel, open: bool, user_id: u64)
    ensures
        ({
            let after = session.with_passthrough(open);
            &&& after.passthrough.contains_key(user_id) == session.passthrough.contains_key(user_id)
            &&& open && after.passthrough.contains_key(user_id)
                ==> after.passthrough[user_id] is Open
            &&& !open && after.passthrough.contains_key(user_id)
                ==> after.passthrough[user_id] is Closed
            &&& after.version == session.version
            &&& after.user_id == session.user_id
            &&& after.channel_id == session.channel_id
            &&& after.status == session.status
            &&& after.external_sender == session.external_sender
            &&& after.has_group == session.has_group
            &&& after.ready == session.ready
        }),
{
}

/// A frame is overlong exactly where it ends in the marker, a byte before it says
/// how long the end of the frame is, and between the tag of eight bytes and that
/// byte ten bytes in a row have their highest bit set, with another byte behind.
pub proof fn law_overlong_frames(frame: Seq<u8>)
    ensures
        has_overlong_number(frame) <==> {
            let len = frame.len() as int;
            &&& len >= 11
            &&& frame[len - 1] == 250
            &&& frame[len - 2] == 250
            &&& 11 <= frame[len - 3] <= len
            &&& exists|i: int|
                {
                    &&& len - frame[len - 3] + 8 <= i
                    &&& i + 10 < len - 3
                    &&& #[trigger] frame[i] >= 128
                    &&& forall|j: int| i <= j < i + 10 ==> #[trigger] frame[j] >= 128
                }
        },
{
    let len = frame.len() as int;
    let numbers = sealed_numbers(frame);
    if ends_sealed(frame) {
        let from = len - frame[len - 3] + 8;
        if has_overlong_number(frame) {
            let i = choose|i: int| #[trigger] overlong_at(numbers, i);
            assert forall|j: int| from + i <= j < from + i + 10 implies #[trigger] frame[j]
                >= 128 by {
                assert(frame[j] == numbers[j - from]);
            }
            assert(frame[from + i] >= 128);
        }
        assert forall|i: int|
            from <= i && i + 10 < len - 3 && #[trigger] frame[i] >= 128 && (forall|j: int|
                i <= j < i + 10 ==> #[trigger] frame[j] >= 128) implies overlong_at(
            numbers,
            i - from,
        ) by {
            assert forall|j: int| i - from <= j < i - from + 10 implies #[trigger] numbers[j]
                >= 0x80 by {
                assert(numbers[j] == frame[from + j]);
            }
        }
    } else {
        assert(numbers.len() == 0);
    }
}

/// A member's frame of silence is let through as it is, and while passthrough is
/// open for the member, so is every frame that does not end in the marker behind a
/// byte that may say how long the end of the frame is. Nothing of anyone else is.
pub proof fn law_let_through_unopened(session: SessionModel, user_id: u64, frame: Seq<u8>)
    ensures
        passes_unopened(session, user_id, frame) <==> {
            &&& session.passthrough.contains_key(user_id)
            &&& {
                ||| frame == seq![248u8, 255u8, 254u8]
                ||| {
                    &&& session.passthrough[user_id] is Open
                    &&& {
                        ||| frame.len() < 11
                        ||| frame[frame.len() - 1] != 250
                        ||| frame[frame.len() - 2] != 250
                        ||| frame[frame.len() - 3] < 11
                        ||| frame[frame.len() - 3] > frame.len()
                    }
                }
            }
        },
{
}

/// How the answer to a set of proposals reads: an error is a refusal, no commit
/// means that there is nothing to commit, and a commit comes with its own bytes and
/// those of its welcome, if it has one.
pub proof fn law_proposals_answer_read<E>(error: E, commit: Vec<u8>, welcome: Vec<u8>)
    ensures
        proposals_model(Err::<Option<CommitWelcome>, E>(error)) is Refused,
        proposals_model(Ok::<Option<CommitWelcome>, E>(None)) is NothingToCommit,
        proposals_model(
            Ok::<Option<CommitWelcome>, E>(Some(CommitWelcome { commit, welcome: None })),
        ) == (ProposalsModel::Commit { commit: commit@, welcome: None }),
        proposals_model(
            Ok::<Option<CommitWelcome>, E>(Some(CommitWelcome { commit, welcome: Some(welcome) })),
        ) == (ProposalsModel::Commit { commit: commit@, welcome: Some(welcome@) }),
{
}

/// An optional vector of bytes shows those bytes, or that there are none.
pub proof fn law_bytes_shown(bytes: Option<Vec<u8>>)
    ensures
        bytes is None <==> bytes_of(bytes) is None,
        bytes matches Some(b) ==> bytes_of(bytes) == Some(b@),
{
}

} // verus!
