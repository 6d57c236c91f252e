# cs2_sdk

Verified data handling for Counter-Strike 2 game-memory records, written in Verus:

- `driver`: the memory-device handle and the zero-padded task-name buffer.
- `sdk::cutl`: the game's fixed 512-char C strings (`CUtlString`): building one from a
  text, testing termination, reading it back, with the round-trip law; and `CUtlVector`.
- `sdk::icon`: the weapon-icon glyph table and its lookup.
- `sdk::nametag`: the label text shown for a player name (trimmed, shortened).
- `sdk::world`: sorting world-entity class names into weapons and projectiles.
- `sdk::player`, `sdk::entity`: plain address records.

Targeting, visibility and crosshair tests, input automation (hotkeys, automatic clicks),
memory scanning and overlay drawing are deliberately not part of this crate, their integer
and boolean decisions included.
