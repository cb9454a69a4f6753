# bw-replay

Readers for StarCraft: Brood War replays and game data files, written in
Verus: each parser states in its contract exactly what it returns for every
input, and Verus proves it.

- `src/` — the verified library: replay sections and command streams
  (`section`, `command`, `replay`), build orders, action counts and game
  phases (`analysis`, `phases`, `skill`), and the game data formats (`mpq`,
  `grp`, `tbl`, `tileset`, `dat`, `selection`, `gamedata`). Calls into zlib,
  PKWare DCL and EUC-KR decoders sit behind small trusted wrappers in
  `decompress` and `text`.
- `app/` — what stays outside the proofs: floating-point rates (APM, seconds,
  skill scores), serializable copies of the library's types, error messages,
  and the WebAssembly entry point.
- `tests/` — tests that run the library against the real outside crates.
