# videocall

A peer-to-peer video calling demo: a signaling server relays WebRTC offers,
answers and ICE candidates between signed-in users, and a desktop client
signs in, lists the other users and runs calls.

- `src/` is the verified library (Verus):
  - `framing` – two-byte little-endian length framing of signaling messages;
  - `protocol` – the messages between clients and server;
  - `clients` – the server's registry of clients and their labels;
  - `server` – how requests become broadcast updates and updates become responses;
  - `demo`, `signin`, `lobby`, `call` – the client's state machines (screens, sign-in form, lobby, one call);
  - `peer` – decisions driven by a WebRTC connection's state: its one-shot signals and the ICE-candidate stream;
  - `media` – decoding pipeline steps, the media event source and stream, and the 4:2:0 frame layout.
- `app/` runs the programs (`server` as first argument for the signaling
  server, otherwise the desktop client): networking, async plumbing, the GUI,
  GPU rendering and the camera/codec pipelines, each calling the library for
  its decisions.
- `tests/` exercise the library on concrete values.
