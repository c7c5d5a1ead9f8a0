# port_forward

The verified core of a small port-forwarding tunnel: a client connects to a server,
authenticates with a challenge-response over HMAC-SHA256, and carries TCP channels
inside checksummed frames; local ports speak SOCKS5.

Layout:

- `src/` — the library, verified with Verus:
  - `protocol/` — the frame format (`frame.rs`: encoding, decoding, CRC-32 check) and the
    streaming decoder (`codec.rs`), with the round-trip laws;
  - `crypto/` — AES-256-GCM framing of encrypted data and the HMAC challenge-response;
  - `forward/socks5.rs` — the server side of a SOCKS5 connection as a state machine;
  - `cli.rs` — the SOCKS5 handshake of forward ports, the parsing of forward-port lists,
    the dispatch of tunnel frames and the start/stop decisions of the command line;
  - `tunnel/` — heartbeat bookkeeping, connection states, client and server decisions;
  - `stats/`, `commands/` — traffic counters, the sample history and snapshots;
  - `config/` — configuration records, their defaults and the server list;
  - `clock.rs`, `text.rs` — time stamps and the text formats used above.
- `app/` — the command-line program: sockets, tasks, files, serialization, and the
  floating-point speed division, around the library.
- `tests/` — tests of the library.
