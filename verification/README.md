# altbase_epic

The decision core of the Altbase wallet bridge for Epic Cash, written in Rust
and verified with Verus.

- `src/` holds the verified library: requests and replies (`request`, `json`),
  opening a wallet (`wallet`), scanning the chain (`scan`), outputs, block times,
  transaction history and reports (`outputs`, `block_times`, `history`,
  `snapshot`), sending (`sending`, `transport`), the epicbox adapter (`epicbox`)
  and the proof-of-work verifier (`pow`).
- `app/` holds the C interface, the wallet and node calls and the sockets.
- `tests/` runs the library.

Work that has to happen outside the library (files, sockets, the wallet
database) is described by state machines: the library says what is to be done,
`app/` does it and hands back what happened.

Calls into `serde_json`, `chrono`, `byteorder`, `rand` and `tungstenite` are
made from the library through small functions with trusted contracts; each says
what it takes for granted.
