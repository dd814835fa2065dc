# pallet_service_provider

Two runtime modules, verified with Verus:

- `user_identity`: each account registers a user name and a social handle
  (at most 15 bytes each), may replace them later (which clears the
  verified mark), and can be marked verified.
- `service_provider`: accounts register as providers, other accounts vote
  for them once each, a provider with two votes becomes verified, and a
  signed call marks a registered, unverified identity as verified.

Layout:

- `src/limited_vec.rs`: the bounded byte string used for names.
- `src/dispatch.rs`: origins, `ensure_signed`, dispatch errors.
- `src/user_identity.rs`, `src/service_provider.rs`: for each module, the
  abstract state, one spec function per call giving its effect, the laws
  proved over them, the per-call decisions (`decide_*`) and a storage
  model (`Pallet`) whose calls are proved to follow the spec functions.
- `app/`: the same modules as FRAME pallets; storage, origins and events
  go through FRAME, every decision through the library.
- `tests/`: the scenarios of the modules and further cases.
