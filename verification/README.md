# tonbridge

Verified core of the TON bridge CosmWasm contracts.

- `src/` — the library, proved with Verus:
  - `query.rs`: paginated listing of `u64`-keyed entries (order byte, page
    size, exclusive lower bound) with laws on page size, bounds, sorting and
    the continuation of ascending pages;
  - `hash.rs`: decoding of 32-byte hashes and ids;
  - `msg.rs`, `execute.rs`: messages of the validator contract and the step
    each one asks for, with its `action` attribute;
  - `state.rs`: the bridge's stored state types and the denomination index key;
  - `lookup.rs`: the validator contract's queries and the lookup each asks for;
  - `error.rs`: the contract error type.
- `app/` — CosmWasm storage and serde types around the library: the bridge's
  stored maps and denomination index, the owner check, message conversion,
  paged reads of stored maps, and the configuration query. The validator
  that runs the steps is not part of this crate.
- `tests/` — tests of the library.
