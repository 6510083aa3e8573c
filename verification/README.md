# contracts_runtime

The logic of a Cumulus contracts parachain runtime, verified with Verus.

- `src/location.rs`: the XCM (version 0) locations, networks and origin kinds.
- `src/encoding.rs`: their SCALE encoding, framed around the codec library's
  compact integers and byte strings.
- `src/parachain.rs`: sibling parachain sovereign accounts and system
  parachains, through the Polkadot parachain primitives.
- `src/punner.rs`: `LocalPunner`, locations to accounts and back, with the
  round-trip laws.
- `src/origin.rs`: `LocalOriginConverter`, XCM origins to dispatch origins.
- `src/runtime.rs`: version, time units, block limits, fees, XCM settings
  and the contract-call report.
- `app/lib.rs`: the Substrate account type and the SCALE form of
  `XCMPMessage` around the library.
