# veil

Veil is a censorship-resistant VPN and proxy that disguises its traffic as
ordinary HTTPS/HTTP3. This crate holds its protocol, authentication, relay
and client logic as a Verus-verified library, and the programs around it.

## Layout

- `src/` — the verified library (`veil`):
  - `protocol/` — the wire frame (encode/decode with round-trip proofs),
    UDP relay datagrams, sessions, handshake messages, version negotiation;
  - `crypto/` — hex, SHA-256, HMAC-SHA256, AES-256-GCM and URL-safe base64
    tokens (through `ring`, `base64` and `sha2`), access and invite tokens;
  - `server/` — configuration and its validation, the session registry,
    token authentication with tarpit, the exit policy (IPv4 CIDR blocks and
    hostnames), the relay's decisions, obfuscation, admin access control;
  - `client/` — SOCKS5 and HTTP CONNECT parsing, tunnel packet routing,
    the installation (configuration, keys, commands), admin API requests,
    `resolv.conf` reading and restoring, the setup wizard's text;
  - `desktop/` — the desktop application's state and its commands;
  - `text.rs`, `wire.rs`, `time.rs`, `error.rs` — strings, big-endian
    integers, timestamps and the error type.
- `tests/` — tests of the library on concrete values.
- `app/` — the programs: `veil-server` (QUIC and TLS/TCP listeners, admin
  HTTP API) and `veil` (connect, proxy and VPN modes, SSH deployment, server
  management, setup wizard). They do the I/O and call the library for every
  decision.

Contracts speak of mathematical models (`Seq`, `Map`, spec functions);
public proof functions state the library's laws, such as that decoding an
encoded frame gives the frame back, that an invite the server creates
verifies until it expires, that the relay answers each ping of a session with
one pong and nothing else, and that an installed server accepts the signing
key the installer wrote (hex, as the server reads it) and the token it
printed.
