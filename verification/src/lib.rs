//! Logic of the contracts parachain runtime: how XCM locations are punned
//! into local accounts and back, how XCM origins become local dispatch
//! origins, and the runtime's configuration values.

pub mod decoding;
pub mod encoding;
pub mod location;
pub mod origin;
pub mod parachain;
pub mod punner;
pub mod runtime;
