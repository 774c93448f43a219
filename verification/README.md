# lurk

A verified library for the LURK text-adventure protocol and the programs
built on it.

- `src/` is the library, checked by Verus:
  - `protocol`: type codes, error codes, character flags, message values;
  - `codec`: the wire bytes of each message the server sends, and the
    reading of a client's `Character` header (with the proof that the two
    agree);
  - `game`: characters, rooms and the game state (names unique);
  - `session`: what the server answers each request of one client;
  - `client`: the terminal client's screens and keys;
  - `layout`: the client's pop-up and list areas (split by ratatui);
  - `sheep`, `basic`: the framing of two small companion servers;
  - `text`: raw bytes to text and fixed-width name fields.
- `app/` holds the programs: sockets, threads, the terminal, logging and the
  floating-point arithmetic of the sheep-price service.
- `tests/` runs the library on concrete values.

## Why the characters are not in a `HashMap<String, Character>`

The game keeps its characters in a vector with unique names (`game::GameState`),
not in a hash map keyed by name:

- A `std::collections::HashMap<String, _>` field is accepted by Verus, but
  vstd's contracts for `HashMap` hold only under `obeys_key_model::<Key>()`,
  which vstd establishes for integer and `bool` keys and not for `String`.
  A trial that inserted one entry into such a map and asserted that its
  length is then 1 failed to verify; nothing about the map's contents
  follows, and the fact can be had only by assuming it.
- Hiding the map in an `external_body` struct with trusted wrappers would
  restate `HashMap`'s behaviour without proof for a std type that vstd
  already declares; the crate keeps such trusted wrappers to outside crates'
  collections.

The vector is searched by name, and its contracts present it as a map from
name to character, with the same insert-or-replace behaviour.
