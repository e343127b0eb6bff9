# lumi_prtl

A verified model of an escrow-and-shipment program for Solana. A buyer locks a token
payment in an escrow vault, the seller creates a shipment, a logistics provider updates it,
the buyer may dispute it, and the seller withdraws the vault once the shipment has arrived.

- `src/` is the library, verified with Verus. Each instruction (`src/lumi_prtl.rs`) goes from
  the plain values of its accounts to the accounts it leaves and the token calls it makes, with
  the framework's address checks, the handler's own checks and the space check at its end
  stated in its contract. `src/laws.rs` states properties that span instructions.
  Program-derived addresses are computed by `anchor-lang` behind two trusted functions in
  `src/pubkey.rs`.
- `app/` is the on-chain program around the library: the framework's account structures,
  the serialized account types and error enums, and the token calls themselves.
- `tests/` runs the library on concrete values, with real derived addresses.
