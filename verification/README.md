# targeted_vector

The core of Targeted Vector, a 2D shooter, written in Verus. The functions
under `src/` are proved against their contracts, except a few small trusted
wrappers (marked `#[verifier::external_body]`) around the calls into the
`json` and `chrono` crates and into std (`Path::exists`, `format!`): Verus
takes their contracts on trust, and each one's doc comment says what it
claims. Where the answer comes from the outside world (the disk, the clock),
the contract claims nothing of it beyond what the crate's source shows (for
the clock: whether a format can be written at all).

- `json`, `codec`, `table`: the JSON document model, the calls into the
  `json` crate that parse and print it (with the inputs on which that crate
  would stop left out), and key tables.
- `config`, `unlock`, `game_text`, `user`: the records the game reads from and
  writes to its JSON files, with their round-trip laws.
- `resource`, `value`, `store`, `engine`, `widgets`, `switch`: the engine's
  resources, its variable store, its clock and pages, problem reports, and
  the switch (button) state machine; `launch` the switches set up at launch,
  `boxes` the message boxes.
- `account`, `splash`, `campaign`, `armory`, `enemy`, `clock`: the game's
  rules: logging in and registering, the launch screen, choosing maps and
  levels, guns, enemies and fades, and the date line.
- `files`: whether a file is on disk.
- `laws`: properties that relate several operations.

`app/` is the program around the library: file I/O, the system clock, and the
records that hold floating-point values.
