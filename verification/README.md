# anonssh

A single-process SSH client whose connection runs through an embedded Tor
client. This crate holds the client's decisions as a Verus-verified library;
`app/` is the program around it (command line, Tor bootstrap, SSH transport,
terminal I/O).

Library modules (`src/`):

- `destination` — `user@host` parsing (split at the last `@`), the
  exit-country rule for onion services, and the command-line destination check.
- `fingerprint` — normalisation of SHA-256 host-key fingerprints and the
  host-key acceptance decision.
- `methods` — SSH authentication methods and their rendering.
- `auth` — the authentication exchange as a state machine: public key, then
  password, then keyboard-interactive.
- `key` — choosing the client key: ephemeral Ed25519 or a key file, with a
  passphrase only for encrypted files.
- `session` — forwarding between the local terminal and the SSH channel, and
  the exit status.
- `profile` — the stable algorithm profile and its HASSH source.
- `kexinit` — reading the HASSH source back from a KEXINIT packet.
- `transport` — pluggable-transport protocols for bridges and the choice of the
  transport binary.
- `error`, `text` — error messages and character-sequence helpers.

`tests/wire.rs` runs the SSH implementation against an in-memory peer and checks
that the KEXINIT it sends has the documented HASSH source.
