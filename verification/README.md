# kakuremino

Anonymous transports (Tor, SOCKS5, I2P, Nym, Shadowsocks, direct TCP and a
mock) behind one async interface, with the transports' decisions verified
in Verus.

- `src/` is the verified library. `error` classifies and renders errors;
  `text` renders decimals and tests suffixes and substrings; `transport`
  holds capabilities, isolation tokens, address checks, the mock, direct and
  SOCKS5 transports, and for Tor, Nym, Shadowsocks and I2P what those
  backends decide. `transport::i2p` runs the SAMv3 dialogue with an I2P
  router as a state machine whose every step is specified, with proofs that
  each dialogue ends and that a cooperative router leads it to its outcome.
- `app/` owns the sockets and the async runtime: the `AnonTransport` trait,
  the stream type, the backends that hold socket addresses or a Tor client,
  and the serde and `Display` forms of the library's types. It performs the
  I/O that the library asks for.
- `tests/` exercises the library on concrete values.
