//! Control plane and receive path of a Discord voice connection with DAVE
//! end-to-end encryption.
//!
//! The control plane:
//!
//! * [`frames`]: binary frames of the voice gateway and their payloads;
//! * [`ws`]: what a websocket frame says, and the text of what is sent;
//! * [`ws_dave`]: the DAVE state of a connection, with [`dave_step_laws`] on what
//!   each message does to it and [`dave_laws`] on what holds of it over whole
//!   exchanges;
//! * [`aux_network`]: the decisions of the websocket task, with [`aux_step_laws`]
//!   and [`aux_laws`].
//!
//! The receive path:
//!
//! * [`rtp`]: RTP and RTCP packets, told apart;
//! * [`ssrc`]: who sends under which SSRC;
//! * [`udp_rx`]: the decisions of the receive task, with [`rx_step_laws`] and
//!   [`rx_laws`].
//!
//! Boundaries to other crates:
//!
//! * [`session`]: MLS sessions (`davey`);
//! * [`voice`]: events and close codes of the gateway (`serenity_voice_model`);
//! * [`json`]: JSON values (`serde_json`);
//! * [`octets`]: shared byte buffers (`bytes`).
//!
//! Nothing here does I/O or looks at a clock: callers hand in what happened and
//! when, and carry out what was decided.
use vstd::prelude::*;

pub mod aux_laws;
pub mod aux_network;
pub mod aux_step_laws;
pub mod dave_laws;
pub mod dave_step_laws;
pub mod frames;
pub mod json;
pub mod octets;
pub mod rtp;
pub mod rx_laws;
pub mod rx_step_laws;
pub mod session;
pub mod ssrc;
pub mod udp_rx;
pub mod voice;
pub mod ws;
pub mod ws_dave;

verus! {

} // verus!
