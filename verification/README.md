# rs_pfcp

Encoding and decoding of PFCP messages (3GPP TS 29.244), the protocol between
the control plane and the user plane of 5G core networks, written in Verus:
every function of the library carries a contract, and the verifier proves
that the code meets it.

## Layout

- `src/bytes.rs`: big-endian integers as byte sequences.
- `src/error.rs`: `PfcpError`, its kind and its message text.
- `src/ie/`: Information Elements. `Ie` is a type and a payload; the typed
  IEs (Node ID, Cause, F-SEID, F-TEID, Recovery Time Stamp, Created PDR, the
  PFD IEs, ...) each have an encoder, a decoder, and a lemma that decoding
  an encoded value gives it back.
- `src/message/`: the header, one module per message type, `Generic` for
  the types without a module of their own, `parse` that dispatches on the
  header, and the calendar arithmetic used to show recovery time stamps.
  Each message module proves that its wire form reads back as the message.
- `tests/`: the test suite.
- `app/`: YAML and JSON rendering of messages (serde_json, serde_yaml_ng),
  which stays outside the verified library.
