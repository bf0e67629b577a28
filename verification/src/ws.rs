//! Messages of the voice gateway's websocket: what a received frame says, and
//! the text of what is sent.
use crate::json::{
    envelope, json_as_u64, json_member, json_null, json_of, json_text, law_envelope_members,
    law_envelope_reads_back, message_envelope,
    parse_json, parsed_json, reads_as, write_json, Json, JsonNumber,
    MAX_JSON_DEPTH,
};
use crate::octets::octets;
use crate::voice::{
    close_code_should_resume, event_text, is_resumable_close_code, is_voice_close_code,
    parse_event, parsed_event, write_event,
};
use bytes::Bytes;
use serde_json::Error as JsonError;
use serde_json::Value;
use serenity_voice_model::Event;
use tokio_tungstenite::tungstenite::Error as TungsteniteError;
use tokio_websockets::Error as TwsError;
use vstd::prelude::*;
use vstd::std_specs::convert::FromSpec;

verus! {

#[verifier::external_type_specification]
#[verifier::external_body]
pub struct ExTungsteniteError(TungsteniteError);

#[verifier::external_type_specification]
#[verifier::external_body]
pub struct ExTwsError(TwsError);

/// Why a peer closed the websocket.
#[derive(Debug)]
pub struct CloseFrame {
    pub code: u16,
    pub reason: String,
}

/// A frame as the websocket delivers it. Pings, pongs and partial frames are
/// dealt with below this level and say nothing here.
#[derive(Debug)]
pub enum WsFrame {
    Text(String),
    Binary(Bytes),
    Close(Option<CloseFrame>),
    Other,
}

/// A message of the voice gateway.
#[derive(Clone, Debug)]
pub enum GatewayMessage {
    Json(Event),
    UnknownJson { op: u8, data: Value },
    Binary(Bytes),
}

/// What a gateway message says.
pub enum GatewayModel {
    Json(Event),
    UnknownJson { op: u8, data: Json },
    Binary(Seq<u8>),
}

impl View for GatewayMessage {
    type V = GatewayModel;

    open spec fn view(&self) -> GatewayModel {
        match *self {
            GatewayMessage::Json(event) => GatewayModel::Json(event),
            GatewayMessage::UnknownJson { op, data } => GatewayModel::UnknownJson {
                op,
                data: json_of(data),
            },
            GatewayMessage::Binary(bytes) => GatewayModel::Binary(octets(bytes)),
        }
    }
}

/// What an optional gateway message says.
pub open spec fn message_model(message: Option<GatewayMessage>) -> Option<GatewayModel> {
    match message {
        Some(m) => Some(m@),
        None => None,
    }
}

/// What can go wrong on the websocket, which is one of `tungstenite` or of
/// `tokio_websockets`.
#[derive(Debug)]
pub enum Error {
    Json(JsonError),
    Ws(TungsteniteError),
    Tws(TwsError),
    WsClosed(Option<CloseFrame>),
}

impl From<JsonError> for Error {
    fn from(e: JsonError) -> (error: Error) {
        Error::Json(e)
    }
}

impl vstd::std_specs::convert::FromSpecImpl<JsonError> for Error {
    open spec fn obeys_from_spec() -> bool {
        true
    }

    open spec fn from_spec(e: JsonError) -> Error {
        Error::Json(e)
    }
}

impl From<TungsteniteError> for Error {
    fn from(e: TungsteniteError) -> (error: Error) {
        Error::Ws(e)
    }
}

impl vstd::std_specs::convert::FromSpecImpl<TungsteniteError> for Error {
    open spec fn obeys_from_spec() -> bool {
        true
    }

    open spec fn from_spec(e: TungsteniteError) -> Error {
        Error::Ws(e)
    }
}

impl From<TwsError> for Error {
    fn from(e: TwsError) -> (error: Error) {
        Error::Tws(e)
    }
}

impl vstd::std_specs::convert::FromSpecImpl<TwsError> for Error {
    open spec fn obeys_from_spec() -> bool {
        true
    }

    open spec fn from_spec(e: TwsError) -> Error {
        Error::Tws(e)
    }
}

/// The opcode of a JSON message: its member `op`, if that is a number that fits
/// in a byte.
pub open spec fn opcode_of(message: Json) -> Option<u8> {
    match message.member("op"@) {
        Some(op) => match op.as_u64() {
            Some(n) => if n < 256 {
                Some(n as u8)
            } else {
                None
            },
            None => None,
        },
        None => None,
    }
}

/// The data of a JSON message: its member `d`, or null without one.
pub open spec fn data_of(message: Json) -> Json {
    match message.member("d"@) {
        Some(data) => data,
        None => Json::Null,
    }
}

/// The opcodes whose messages are passed on as they are, even where they could
/// be read as events: the session description and DAVE's control plane.
pub open spec fn is_raw_opcode(op: u8) -> bool {
    op == 4 || op == 18 || op == 20 || op == 21 || op == 22 || op == 24 || op == 31
}

/// What a JSON message says, given what it reads as when read as an event.
/// Raw opcodes come first, then events, then any other opcode; a message with
/// neither opcode nor event says nothing.
pub open spec fn text_message(message: Json, event: Option<Event>) -> Option<GatewayModel> {
    match (opcode_of(message), event) {
        (Some(op), None) => Some(GatewayModel::UnknownJson { op, data: data_of(message) }),
        (Some(op), Some(event)) => if is_raw_opcode(op) {
            Some(GatewayModel::UnknownJson { op, data: data_of(message) })
        } else {
            Some(GatewayModel::Json(event))
        },
        (None, Some(event)) => Some(GatewayModel::Json(event)),
        (None, None) => None,
    }
}

/// Reads the opcode of a JSON message.
pub fn message_opcode(message: &Value) -> (op: Option<u8>)
    ensures
        op == opcode_of(json_of(*message)),
{
    match json_member(message, "op") {
        Some(op) => match json_as_u64(op) {
            Some(n) => if n < 256 {
                Some(n as u8)
            } else {
                None
            },
            None => None,
        },
        None => None,
    }
}

/// Whether messages of an opcode are passed on as they are.
pub fn is_raw(op: u8) -> (raw: bool)
    ensures
        raw == is_raw_opcode(op),
{
    matches!(op, 4 | 18 | 20 | 21 | 22 | 24 | 31)
}

/// Copies out the data of a JSON message.
fn message_data(message: &Value) -> (data: Value)
    ensures
        json_of(data) == data_of(json_of(*message)),
{
    match json_member(message, "d") {
        Some(data) => data.clone(),
        None => json_null(),
    }
}

/// Decides what a JSON message says, given what it reads as when read as an
/// event.
pub fn route_text(message: &Value, event: Option<Event>) -> (routed: Option<GatewayMessage>)
    ensures
        message_model(routed) == text_message(json_of(*message), event),
{
    let op = match message_opcode(message) {
        Some(op) => op,
        None => {
            return match event {
                Some(event) => Some(GatewayMessage::Json(event)),
                None => None,
            };
        },
    };
    if !is_raw(op) {
        if let Some(event) = event {
            return Some(GatewayMessage::Json(event));
        }
    }
    Some(GatewayMessage::UnknownJson { op, data: message_data(message) })
}

/// Whether `converted` is what a received frame says. A text that is not JSON
/// and a close with a reason are errors; frames that say nothing give `None`.
pub open spec fn frame_converted(
    message: Option<WsFrame>,
    converted: Result<Option<GatewayMessage>, Error>,
) -> bool {
    match message {
        Some(WsFrame::Text(text)) => match parsed_json(text@) {
            Ok(json) => converted is Ok && message_model(converted->Ok_0) == text_message(
                json,
                parsed_event(text@),
            ),
            Err(e) => converted is Err && converted->Err_0 == Error::Json(e),
        },
        Some(WsFrame::Binary(bytes)) => converted is Ok && message_model(converted->Ok_0) == Some(
            GatewayModel::Binary(octets(bytes)),
        ),
        Some(WsFrame::Close(Some(frame))) => converted is Err && converted->Err_0
            == Error::WsClosed(Some(frame)),
        _ => converted is Ok && converted->Ok_0 is None,
    }
}

/// Decides what a frame says that a websocket of `tungstenite` received.
pub fn convert_ws_message(message: Option<WsFrame>) -> (converted: Result<
    Option<GatewayMessage>,
    Error,
>)
    ensures
        frame_converted(message, converted),
{
    let text = match message {
        Some(WsFrame::Text(text)) => text,
        Some(WsFrame::Binary(bytes)) => {
            return Ok(Some(GatewayMessage::Binary(bytes)));
        },
        Some(WsFrame::Close(Some(frame))) => {
            return Err(Error::WsClosed(Some(frame)));
        },
        _ => {
            return Ok(None);
        },
    };
    let value = match parse_json(text.as_str()) {
        Ok(value) => value,
        Err(e) => {
            return Err(Error::from(e));
        },
    };
    // Raw opcodes are not read as events at all.
    let raw = match message_opcode(&value) {
        Some(op) => is_raw(op),
        None => false,
    };
    let event = if raw {
        None
    } else {
        parse_event(text.as_str()).ok()
    };
    Ok(route_text(&value, event))
}

/// Decides what a frame says that a websocket of `tokio_websockets` received:
/// with it, a close without a reason is an error too.
pub fn convert_tws_message(message: Option<WsFrame>) -> (converted: Result<
    Option<GatewayMessage>,
    Error,
>)
    ensures
        match message {
            Some(WsFrame::Close(close)) => converted is Err && converted->Err_0
                == Error::WsClosed(close),
            _ => frame_converted(message, converted),
        },
{
    match message {
        Some(WsFrame::Close(close)) => Err(Error::WsClosed(close)),
        other => convert_ws_message(other),
    }
}

/// The text of the websocket message that carries an event.
pub fn event_message(event: &Event) -> (text: Result<String, Error>)
    ensures
        match event_text(*event) {
            Ok(written) => text is Ok && text->Ok_0@ == written,
            Err(e) => text is Err && text->Err_0 == Error::Json(e),
        },
{
    match write_event(event) {
        Ok(text) => Ok(text),
        Err(e) => Err(Error::from(e)),
    }
}

/// The text of the websocket message that carries data under an opcode.
pub fn opcode_message(op: u8, data: &Value) -> (text: Result<String, Error>)
    ensures
        text is Ok,
        exists|body: Value|
            json_of(body) == envelope(op, json_of(*data)) && text->Ok_0@ == #[trigger] json_text(
                body,
            ),
        json_of(*data).reads_back((MAX_JSON_DEPTH - 1) as nat) ==> reads_as(
            text->Ok_0@,
            envelope(op, json_of(*data)),
        ),
{
    let body = message_envelope(op, data);
    proof {
        if json_of(*data).reads_back((MAX_JSON_DEPTH - 1) as nat) {
            law_envelope_reads_back(op, json_of(*data), (MAX_JSON_DEPTH - 1) as nat);
        }
    }
    match write_json(&body) {
        Ok(text) => Ok(text),
        Err(e) => Err(Error::from(e)),
    }
}

/// Whether a connection is worth another attempt after an error: always, but
/// for a close with a code that the voice gateway defines as final.
pub open spec fn is_not_final(err: Error) -> bool {
    match err {
        Error::WsClosed(Some(frame)) => is_voice_close_code(frame.code) ==> is_resumable_close_code(
            frame.code,
        ),
        _ => true,
    }
}

/// Whether a connection is worth another attempt after an error.
pub fn ws_error_is_not_final(err: &Error) -> (not_final: bool)
    ensures
        not_final == is_not_final(*err),
{
    match err {
        Error::WsClosed(Some(frame)) => {
            if 4000 <= frame.code && frame.code <= 4999 {
                match close_code_should_resume(frame.code) {
                    Some(resume) => resume,
                    None => true,
                }
            } else {
                true
            }
        },
        _ => true,
    }
}

/// A message of DAVE's control plane reaches the control plane, whatever else
/// it could be read as.
pub proof fn law_raw_opcodes_pass_unread(message: Json, event: Option<Event>)
    requires
        opcode_of(message) matches Some(op) && is_raw_opcode(op),
    ensures
        text_message(message, event) == Some(
            GatewayModel::UnknownJson { op: opcode_of(message)->0, data: data_of(message) },
        ),
{
}

/// A message that was put into an envelope is routed with the opcode and the
/// data that went in, as long as it is not an event.
pub proof fn law_envelope_routed(op: u8, data: Json)
    ensures
        opcode_of(envelope(op, data)) == Some(op),
        data_of(envelope(op, data)) == data,
        text_message(envelope(op, data), None) == Some(GatewayModel::UnknownJson { op, data }),
{
    law_envelope_members(op, data);
}

/// The opcode of a message is the number under `op` of an object, where that is an
/// unsigned integer below 256; no other message has one.
pub proof fn law_opcode_read(message: Json, op: u8)
    ensures
        opcode_of(message) == Some(op) <==> {
            &&& message is Object
            &&& message->Object_0.contains_key("op"@)
            &&& message->Object_0["op"@] == Json::Number(JsonNumber::Unsigned(op as u64))
        },
{
}

/// The data of a message is whatever stands under `d` of an object, and null where
/// nothing does.
pub proof fn law_data_read(message: Json)
    ensures
        message is Object && message->Object_0.contains_key("d"@) ==> data_of(message)
            == message->Object_0["d"@],
        !(message is Object) || !message->Object_0.contains_key("d"@) ==> data_of(message) is Null,
{
}

/// How a message is routed, by its opcode and what it reads as: the opcodes 4, 18,
/// 20, 21, 22, 24 and 31 are passed on with their data, whether or not they read as
/// events; of any other message the event counts, if there is one, and then the
/// opcode, if there is one.
pub proof fn law_message_routed(message: Json, event: Option<Event>)
    ensures
        opcode_of(message) matches Some(op) ==> text_message(message, event) == if (op == 4 || op
            == 18 || op == 20 || op == 21 || op == 22 || op == 24 || op == 31 || event is None) {
            Some(GatewayModel::UnknownJson { op, data: data_of(message) })
        } else {
            Some(GatewayModel::Json(event->0))
        },
        opcode_of(message) is None && event is Some ==> text_message(message, event) == Some(
            GatewayModel::Json(event->0),
        ),
        opcode_of(message) is None && event is None ==> text_message(message, event) is None,
{
}

/// What a received frame gives: a text that is JSON what its value is routed as, and
/// a text that is not the parser's error; a binary frame its bytes; a close with a
/// reason that reason, as an error; and everything else nothing.
pub proof fn law_frame_read(
    frame: Option<WsFrame>,
    converted: Result<Option<GatewayMessage>, Error>,
)
    requires
        frame_converted(frame, converted),
    ensures
        frame matches Some(WsFrame::Text(text)) ==> match parsed_json(text@) {
            Ok(json) => converted is Ok && message_model(converted->Ok_0) == text_message(
                json,
                parsed_event(text@),
            ),
            Err(e) => converted is Err && converted->Err_0 == Error::Json(e),
        },
        frame matches Some(WsFrame::Binary(bytes)) ==> {
            &&& converted is Ok
            &&& converted->Ok_0 is Some
            &&& converted->Ok_0->0 is Binary
            &&& octets(converted->Ok_0->0->Binary_0) == octets(bytes)
        },
        frame matches Some(WsFrame::Close(Some(close))) ==> converted is Err
            && converted->Err_0 == Error::WsClosed(Some(close)),
        frame is None || frame->0 is Other || frame == Some(WsFrame::Close(None)) ==> converted
            is Ok && converted->Ok_0 is None,
{
}

/// A connection is given up for a close with one of the gateway's final codes, and
/// for nothing else: not for a session timeout (4009), a crash of the voice server
/// (4015), a code that the gateway does not define, or any other error.
pub proof fn law_final_close_codes(err: Error)
    ensures
        !is_not_final(err) <==> {
            &&& err matches Error::WsClosed(Some(frame))
            &&& {
                ||| 4001 <= frame.code <= 4006
                ||| frame.code == 4011
                ||| frame.code == 4012
                ||| frame.code == 4014
                ||| frame.code == 4016
                ||| frame.code == 4017
                ||| 4020 <= frame.code <= 4022
            }
        },
{
}

/// What a gateway message shows: an event as it is, other JSON with its opcode and
/// its value, and a binary message's bytes.
pub proof fn law_message_shown(message: GatewayMessage)
    ensures
        message_model(None) is None,
        message_model(Some(message)) is Some,
        message matches GatewayMessage::Json(event) ==> message_model(Some(message)) == Some(
            GatewayModel::Json(event),
        ),
        message matches GatewayMessage::UnknownJson { op, data } ==> message_model(Some(message))
            == Some(GatewayModel::UnknownJson { op, data: json_of(data) }),
        message matches GatewayMessage::Binary(bytes) ==> message_model(Some(message)) == Some(
            GatewayModel::Binary(octets(bytes)),
        ),
{
}

/// An error of a JSON parser or of a websocket is kept as what it is, so that the
/// connection is worth another attempt after it.
pub proof fn law_errors_kept(json: JsonError, ws: TungsteniteError, tws: TwsError)
    ensures
        Error::from_spec(json) == Error::Json(json),
        Error::from_spec(ws) == Error::Ws(ws),
        Error::from_spec(tws) == Error::Tws(tws),
        is_not_final(Error::from_spec(json)),
        is_not_final(Error::from_spec(ws)),
        is_not_final(Error::from_spec(tws)),
{
}

} // verus!
