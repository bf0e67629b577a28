//! The voice gateway's message model (`serenity_voice_model`): events, close
//! codes and speaking flags.
use serde_json::Error as JsonError;
use serenity_voice_model::id::UserId;
use serenity_voice_model::payload::{Heartbeat, Speaking};
use serenity_voice_model::{CloseCode, Event, FromPrimitive, SpeakingState};
use vstd::prelude::*;

verus! {

#[verifier::external_type_specification]
#[verifier::external_body]
pub struct ExEvent(serenity_voice_model::Event);

#[verifier::external_type_specification]
#[verifier::external_body]
pub struct ExSpeakingState(serenity_voice_model::SpeakingState);

/// The flags of a speaking state.
pub struct SpeakingFlags {
    pub microphone: bool,
    pub soundshare: bool,
    pub priority: bool,
}

/// The flags that a speaking state has set.
pub uninterp spec fn speaking_flags(state: SpeakingState) -> SpeakingFlags;

/// Calls `SpeakingState::empty`: no flag is set.
#[verifier::external_body]
pub(crate) fn no_speaking_flags() -> (state: SpeakingState)
    ensures
        speaking_flags(state) == (SpeakingFlags {
            microphone: false,
            soundshare: false,
            priority: false,
        }),
{
    SpeakingState::empty()
}

/// Calls `SpeakingState::contains` with the microphone flag.
#[verifier::external_body]
pub(crate) fn microphone_flag(state: &SpeakingState) -> (on: bool)
    ensures
        on == speaking_flags(*state).microphone,
{
    state.contains(SpeakingState::MICROPHONE)
}

/// Calls `SpeakingState::set` with the microphone flag: that flag takes the
/// given value, the others stay.
#[verifier::external_body]
pub(crate) fn set_microphone_flag(state: &mut SpeakingState, on: bool)
    ensures
        speaking_flags(*final(state)) == (SpeakingFlags {
            microphone: on,
            ..speaking_flags(*old(state))
        }),
{
    state.set(SpeakingState::MICROPHONE, on);
}

/// What a speaking message says.
pub struct SpeakingUpdate {
    pub delay: Option<u32>,
    pub speaking: SpeakingState,
    pub ssrc: u32,
    pub user_id: Option<u64>,
}

/// What the connection reads of a gateway event.
pub enum VoiceEvent {
    Speaking(SpeakingUpdate),
    Heartbeat { nonce: u64 },
    HeartbeatAck { nonce: u64 },
    ClientConnect,
    ClientDisconnect { user_id: u64 },
    Other,
}

/// What an event says, as far as the connection reads it.
pub uninterp spec fn event_of(event: Event) -> VoiceEvent;

/// What `serde_json::from_str` reads a text as, when it is asked for an event;
/// `None` where it reports an error.
pub uninterp spec fn parsed_event(text: Seq<char>) -> Option<Event>;

/// What `serde_json::to_string` writes for an event, or the error that it
/// reports.
pub uninterp spec fn event_text(event: Event) -> Result<Seq<char>, JsonError>;

/// `Event::clone`: the copy says the same.
pub assume_specification[ <Event as Clone>::clone ](event: &Event) -> (copy: Event)
    ensures
        copy == *event,
;

/// Tells the variants of an `Event` apart and moves out the fields that the
/// connection reads.
#[verifier::external_body]
pub(crate) fn read_event(event: &Event) -> (read: VoiceEvent)
    ensures
        read == event_of(*event),
{
    match event {
        Event::Speaking(ev) => VoiceEvent::Speaking(SpeakingUpdate {
            delay: ev.delay,
            speaking: ev.speaking,
            ssrc: ev.ssrc,
            user_id: ev.user_id.map(|id| id.0),
        }),
        Event::Heartbeat(ev) => VoiceEvent::Heartbeat { nonce: ev.nonce },
        Event::HeartbeatAck(ev) => VoiceEvent::HeartbeatAck { nonce: ev.nonce },
        Event::ClientConnect(_) => VoiceEvent::ClientConnect,
        Event::ClientDisconnect(ev) => VoiceEvent::ClientDisconnect { user_id: ev.user_id.0 },
        _ => VoiceEvent::Other,
    }
}

/// Calls `Event::from(Heartbeat)`: a heartbeat with the given nonce.
#[verifier::external_body]
pub(crate) fn heartbeat_event(nonce: u64) -> (event: Event)
    ensures
        event_of(event) == (VoiceEvent::Heartbeat { nonce }),
{
    Event::from(Heartbeat { nonce })
}

/// Calls `Event::from(Speaking)`: a speaking message with the given fields.
#[verifier::external_body]
pub(crate) fn speaking_event(update: SpeakingUpdate) -> (event: Event)
    ensures
        event_of(event) == VoiceEvent::Speaking(update),
{
    Event::from(Speaking {
        delay: update.delay,
        speaking: update.speaking,
        ssrc: update.ssrc,
        user_id: update.user_id.map(UserId),
    })
}

/// Calls `serde_json::from_str::<Event>`: what it reads depends on the text
/// alone.
#[verifier::external_body]
pub(crate) fn parse_event(text: &str) -> (parsed: Result<Event, JsonError>)
    ensures
        match parsed {
            Ok(event) => parsed_event(text@) == Some(event),
            Err(_) => parsed_event(text@) is None,
        },
{
    serde_json::from_str::<Event>(text)
}

/// Calls `serde_json::to_string` on an event: what it writes depends on the
/// event alone.
#[verifier::external_body]
pub(crate) fn write_event(event: &Event) -> (text: Result<String, JsonError>)
    ensures
        match text {
            Ok(s) => event_text(*event) is Ok && event_text(*event)->Ok_0 == s@,
            Err(e) => event_text(*event) is Err && event_text(*event)->Err_0 == e,
        },
{
    serde_json::to_string(event)
}

/// The close codes that the voice gateway defines.
pub open spec fn is_voice_close_code(code: u16) -> bool {
    ||| 4001 <= code <= 4006
    ||| code == 4009
    ||| code == 4011
    ||| code == 4012
    ||| 4014 <= code <= 4017
    ||| 4020 <= code <= 4022
}

/// The close codes after which a session may be resumed: a session timeout and
/// a crash of the voice server.
pub open spec fn is_resumable_close_code(code: u16) -> bool {
    code == 4009 || code == 4015
}

/// Calls `CloseCode::from_u16` and, on a code that the gateway defines,
/// `CloseCode::should_resume`.
#[verifier::external_body]
pub(crate) fn close_code_should_resume(code: u16) -> (resume: Option<bool>)
    ensures
        resume == (if is_voice_close_code(code) {
            Some(is_resumable_close_code(code))
        } else {
            None
        }),
{
    match CloseCode::from_u16(code) {
        Some(code) => Some(code.should_resume()),
        None => None,
    }
}

} // verus!
