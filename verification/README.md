# sam3

A client core for the SAM v3 bridge of I2P routers, and the helpers of a
transfer test bed that compares i2pd streams with GNUnet, written in Verus.

`src/` is the verified library. Every function there carries a contract that
Verus proves:

- `proto/` — the command lines a client writes (`command`), how reply lines
  are split into fields (`fields`) and read (`response`), and the order a
  conversation with the bridge may take (`state`), with its laws;
- `error` — the bridge's result codes and their messages;
- `session`, `options`, `direct` — destinations, keys and key files, session
  options, and the line-by-line conversation of a direct stream session;
- `datagram` — framing of datagram and raw packets;
- `payload`, `digest`, `reseed`, `topology`, `harness`, `messages`,
  `compat` — the deterministic transfer payload and its framing, router-info
  naming for reseed archives, the namespace network layout, the test bed's
  own SAM client and node controls, and the tool roles.

Calls into `sha2`, `base64` and std that Verus cannot read stand behind a few
small wrappers whose contracts are stated in their doc comments.

`app/` holds what talks to the world: sockets, files, child processes, JSON
and command lines. It asks the library for every protocol decision.
`tests/` runs the library with the real outside crates linked.
