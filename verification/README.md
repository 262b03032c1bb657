# holo_rea

Verified record logic of the Holo-REA zomes.

- `src/` is the verified library: agreement entries and their updates
  (`agreement`, `maybe_undefined`), measurement unit responses and queries
  (`unit`), the commitment and fulfillment request handlers as step-by-step
  state machines (`commitment`, `fulfillment`), the proposal entry type
  definitions (`proposal`), and what the handlers share (`zome`).
- `app/` performs the DHT calls and the serialisation around the library.
- `tests/` runs the library on concrete values.
