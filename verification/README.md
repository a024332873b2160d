# consumer — verified name resolution

The resolution logic of the consumer as a Verus library.

- `src/hash.rs` — Keccak-256 (through `alloy`) and the namehash of a name,
  with the laws that relate a name's hash to its parent's.
- `src/text.rs` — character-level string operations (suffix test, ASCII
  lowercase, `"0x"` trimming, character removal, UTF-8 decoding).
- `src/address.rs` — addresses as 20 bytes; printing and parsing through
  `alloy`.
- `src/tns.rs` — `Tns`: `.trust` names, reverse names, nodes.
- `src/tns_lookup.rs` — the TNS primary-name lookup as steps from call reply
  to next call.
- `src/resolver.rs` — resolver messages and the steps of processing one.
- `src/records.rs`, `src/error.rs` — the records and errors these use.
- `app/` — the async drivers that perform the calls the steps ask for, and
  serialisable copies of the message types.
- `tests/` — the tests.
