# pallet_template

Two Substrate-style pallets as a verified Rust library (Verus).

- `src/pallet.rs`: the price pallet's storage (`Prices`), events and the
  `submit_price_signed` call.
- `src/offchain.rs`: when the off-chain worker runs, the requests it sends,
  how it reads a reply.
- `src/response.rs`: the fields of the services' JSON replies that the
  worker reads.
- `src/worker.rs`: one fetch-and-submit run as a step function from stage and
  event to next stage and action, with its laws.
- `src/poe.rs`: the proof-of-existence pallet (create, revoke, transfer).
- `app/lib.rs`: the host side: serde decoding of the replies, and the loop
  that performs the worker's actions against an off-chain environment.
