# copyit

CopyIt keeps scripts and AI prompts as copyable cards: search, a category
filter, themes, add / edit / delete / drag-to-reorder, and password-protected
cards whose bodies are stored only as XChaCha20-Poly1305 ciphertext under an
Argon2id-derived vault key.

The library in `src/` holds every decision the application makes, each with a
contract proved by Verus:

- `text`, `order`, `preview` — chars, trimming, word splitting, string order,
  sorting, and the one-line card preview.
- `model`, `storage`, `records`, `seed` — snippets, category normalization and
  the config, reading a data file, the SQLite row mapping, the seeded library.
- `crypto`, `vault` — the calls into `argon2`, `chacha20poly1305`, `base64`,
  `rand` and `zeroize`, and the vault built on them: key derivation, body
  encryption, the hint rule, creating and unlocking a vault.
- `ids`, `library`, `edits`, `session`, `startup`, `store` — the application
  state: id assignment and de-duplication, the search cache, saves and the
  warning banner, the editor, reordering, the vault prompt and its background
  work, the protected clipboard copy, startup from whatever is on disk, and
  the legacy-file migration plan.
- `theme`, `editor`, `clipboard` — theme names, the editor's decisions, and
  the simulated clipboard.

`app/` is the desktop program around it: the egui window, the card grid
geometry, theme colors, the disk, SQLite, threads and the Win32 clipboard.

`tests/` exercises the library from outside, with the real outside crates.
