# hyperswitch_card_vault

The verified core of a card vault service: card-number validation, the routing rules of
its KV (write-through Redis with a PostgreSQL drainer) storage layer, Redis key
derivation, runtime-configuration rules, health reports and the storage row models.
Verus checks every function in `src/` against its `requires`/`ensures` contract, which
states what the function returns; only the clock readings (`now`) promise nothing of
their value. The
laws of the library (KV state transitions, the insert and update routing decisions, the
conditional-insert retry protocol, the Redis hash tag of data keys, base64 round trips,
vault updates) are public proof functions next to the code they speak of.

Layout:

- `src/validations.rs`: card-number sanitising, length bounds and the Luhn check.
- `src/storage/kv/`: KV state machine (`scheme`), routing decisions of each operation
  (`resource`), the conditional insert protocol (`wrapper`), partition, shard and data
  keys (`partition_key`), per-table keys (`impls`), drainer entries.
- `src/runtime_config.rs`, `src/storage.rs`: runtime-config checks, replica routing,
  database settings.
- `src/routes/`: request and response models and the decisions of the HTTP handlers.
- `app/`: the serde wire models, JSON encoding of stored KV values, timestamps and the
  per-request id; it performs no decision of its own.
- `tests/`: tests of the library on concrete values.
