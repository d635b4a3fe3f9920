# emv-3ds

EMV 3-D Secure 2.x for the 3DS Server role, verified with Verus.

- `src/` is the library: the protocol messages (AReq, ARes, CReq, CRes, Erro,
  PReq, PRes, RReq, RRes), the coded values with their wire codes, amounts and
  currencies, the dispatch of a JSON message by its `messageType`, and the
  transaction state machine. Every function carries a contract that Verus proves;
  the laws of the state machine (terminal states are final, every step advances
  the lifecycle, the transaction ID is kept, the outcome follows `transStatus`)
  and of the wire codes (each code reads back as its value) are proof functions.
- `app/` holds the JSON wire format: serde twins of the messages, converted to
  and from the library types, `message_from_json` / `message_to_json`, and the
  error type with `Display` through `thiserror`.
- `tests/` exercises the library on concrete values.
