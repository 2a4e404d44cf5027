# steam_box

The logic of the Steam Box desktop client, with proved contracts.

- `src/` — the library. Each public function carries a contract.
  - `crypto`: AES-256-GCM encryption under a key derived from the machine
    identifier (`nonce || ciphertext+tag`), and decryption.
  - `cipher`: contracts for the `sha2` and `aes-gcm` primitives.
  - `machine`: the machine identifier (SHA-256, hex, grouped by eight).
  - `steam`: choosing the Steam directory from what the file system shows,
    the Lua plugin directory, Lua file names and the games they encode.
  - `session`: where the session is stored, sealing and opening it, and its expiry.
  - `redeem`: the answers of the service and the decisions of activation and unlocking.
  - `maintenance`: repair, wipe, session and status answers.
  - `paths`, `text`: path joining, trimming, decimal numerals, UTF-8 conversion.
- `app/` — the I/O around the library: HTTP calls, files, environment.
- `tests/` — tests that run the library with the real outside crates.
