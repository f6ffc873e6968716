# phonex

Signalling and handshake logic for a small WebRTC peer-to-peer system,
verified with Verus.

- `src/` is the verified library:
  - `signal` — the signalling server: wire messages and their JSON text
    (`message`), the routing of descriptions and candidates between
    registered clients (`match_server`), the registration queue
    (`matching`), and the handling of one websocket connection (`handler`);
  - `exchange` — the state machine a peer follows to handle a handshake
    message of the other peer;
  - `peer` — the ICE candidates that wait for the remote description, and
    when a connection state ends the session;
  - `client`, `phonex` — the handshake messages of the answering and the
    offering peer;
  - `server`, `handshake` — the HTTP exchange between two peers;
  - `json`, `utf8` — the calls into serde_json and std that the logic rests on.
- `app/` holds the programs: the websocket and HTTP servers, the peer
  connections, and the JSON decoding of received messages.
- `tests/` runs the library on concrete messages and handshakes.
