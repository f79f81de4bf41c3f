# story_factory

A CosmWasm contract that lets authors publish stories, sell NFT collections
for them, and reward contributors through tasks, written as a Verus library
with proved contracts.

- `src/` is the verified library. `contract.rs` holds the entry points
  (`instantiate`, the queries, `execute` and its ten requests, `reply`), each
  with a contract that says exactly how the factory state changes and which
  sub-messages are answered. `msg.rs` holds the messages, the records and the
  factory state with its consistency invariant (`FactoryView::wf`), which
  every request keeps. `response.rs` holds the sub-messages handed to the
  chain, `text.rs` the decimal rendering and comma splitting, `keys.rs` the
  text keys of tasks and submissions, `laws.rs` the properties that span
  requests, and `external.rs` the calls into `cosmwasm-std`, `cw721-base` and
  `cw-utils` with the contracts they are trusted to meet.
- `app/` is the contract crate around the library: the entry points with
  CosmWasm's types, the storage item, and the serde and thiserror copies of
  the library's types.
- `tests/` runs the library on concrete requests.
