# dave_gateway

The control plane and the receive path of a Discord voice connection that uses
DAVE end-to-end encryption, written and proved in Verus.

- `src/` is the verified library: the gateway's binary framing, the routing of
  its messages, the DAVE state machine around an MLS session, and the decisions
  of the websocket task and of the UDP receive task. Its contracts speak of
  plain models (`DaveModel`, `AuxModel`, `UdpRxModel`, `TrackerModel`), and the
  modules ending in `_laws` state what holds of them over whole exchanges.
- `tests/` runs the library together with the crates that it calls; the MLS
  exchange is played through by two members and a gateway.
- `app/` holds the tasks themselves: the websocket, the UDP socket, channels and
  timers, and the reading of control messages from JSON.

What the library takes on trust of other crates stands in small functions marked
`external_body`, and in `assume_specification` items, each with a comment that
names the outside function: `src/session.rs` (davey), `src/voice.rs`
(serenity-voice-model), `src/json.rs` (serde_json), `src/octets.rs` (bytes),
`src/rtp.rs` (discortp) and `random_below` in `src/aux_network.rs` (rand). The
websocket may be one of tokio-tungstenite or of tokio-websockets; the library
knows their error types only.
