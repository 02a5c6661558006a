# rusty_key

A password vault behind a Telegram bot. Entries are sealed with
ChaCha20-Poly1305 under a key that Argon2id derives from the user's master
password; the master password itself is kept as an Argon2id PHC string.

The library (`src/`) is verified with Verus:

- `text` — white space, trimming, splitting into words, reading numbers and
  booleans, writing integers, joining.
- `errors`, `domain` — the error type, the entry types, validation of an entry
  and generation of passwords.
- `crypto` — the `CryptoPort` contract and `CryptoManager`, which meets it with
  `argon2` and `chacha20poly1305`.
- `service` — `VaultService`: every operation (set or change the master
  password, add, open, list, delete an entry) is a state machine that asks the
  caller for one store request at a time and decides on each answer.
- `bot` — the chat dialog: what a message does to the waiting dialog and how
  it is answered.
- `config` — the settings.
- `laws` — properties that span operations: what is read back is what was
  added, a change of master password keeps every entry, and the dialog laws.

`app/` is the program: it reads the environment, keeps the SQLite store with
`sqlx`, runs the bot with `teloxide`, and performs the requests that the
library asks for.

In the chat, `/set_master` passes no current password to the vault, so the
bot can set a first master password but cannot change one: a change needs
the current password, which only the library's `set_master` takes.
