# photos

The verified core of a small photo-sharing server, written in Verus.

The server keeps its state as an event log: every change (a session opened,
logged in or out, a user created or changed, a photo announced, its file
uploaded) is an event, and the store of users, sessions, files and photos is
what the events build when applied in turn. The library states and proves,
among other things, that replaying the log rebuilds the store, what each
command answers and which events it writes, and that refused commands change
nothing.

Layout:

- `src/common/`: identifiers and their base 58 text, file types, dates,
  header parsing (bearer tokens, content types), authentication, paths.
- `src/app_state/`: events, the store and its parts, the in-memory log and
  blob store, the server state that logs and applies events.
- `src/permission/`: who may do what.
- `src/routes/`: the command endpoint's commands and the upload decisions.
- `src/server.rs`: the administrator account made at start-up.
- `app/`: the HTTP server (tide), the log file, blob files, configuration
  and the JSON forms of events, commands and answers.

Maps keyed by identifiers (`common::id_map::IdMap`) and the index of user
handles are kept in vectors rather than in `std::collections::HashMap`:
vstd's specification of `HashMap` holds only for key types that obey its
key model, which vstd grants to primitive types alone and otherwise leaves
to an `assume`. Identifiers (20 bytes) and handles (strings) are neither,
so a `HashMap` keyed by them would carry no usable contract.
