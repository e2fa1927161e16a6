# astroport-maker

The fee collector of an AMM, with its decisions formally proved.

- `src/` is the verified library: assets (`asset`), settings (`state`), messages (`msg`),
  errors (`error`), the split of ASTRO between staking and governance (`distribution`),
  the deduplication of the factory's pair assets (`factory`), the collection of fees as a
  state machine that asks for one fact at a time (`collect`), and instantiation, changes of
  settings and queries (`contract`).
- `app/` is the CosmWasm contract around it: entry points, storage, queries to the factory,
  the pairs and the tokens, and the wire forms of messages. It answers the collector's
  queries in a loop until the collector hands over the messages to send.
- `tests/` runs the library on concrete values.
