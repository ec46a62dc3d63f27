# automation_types

The data types and scheduling rules of the time- and price-triggered
automation pallets, written in Verus and verified against their contracts.

- `src/` is the verified library (see the module list in `src/lib.rs`).
- `tests/` runs the library on concrete values.
- `app/` holds SCALE-encodable copies of the library's types, as the pallets
  store them, with conversions both ways.

The pallet's configuration (slot size, limits, weights) and the block time
are passed to the functions as plain values; the weight of a decoded runtime
call, which only the runtime can compute, is passed in where it is needed.
