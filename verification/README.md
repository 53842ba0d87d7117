# dc_mods

Game-side logic for Data Center mods, verified with Verus.

- `src/` — the verified library:
  - `events` — event identifiers (the base set and the extended set with
    mod-system events), their categories, names and display forms, and the
    fixed-layout event payloads.
  - `world` — object handles, object types and the stable-ID registry that
    maps persistent string identifiers to game objects and back.
  - `multiplayer` — the session state machine (handshake, join states,
    disconnects), save-file transfer in chunks with hash comparison, the roster
    of remote players, carry detection, avatar decisions, the queue of
    world actions awaiting the host's verdict, and the game calls that apply
    another player's world action or undo a refused one.
  - `relay_proto` — the relay packets, their length-prefixed framing and room
    code generation.
  - `netwatch` — the SysAdmin employee's dispatch planning.
  - `text`, `assoc` — decimal rendering and association lists used by the
    rest, with their lemmas.
- `app/` — what runs around the library: the game's function table, event
  decoding from raw pointers, bincode encodings, the WebSocket connection and
  the mods' entry points.
- `tests/` — tests run against the compiled library.
