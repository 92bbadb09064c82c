//! Factory and relay bridging fungible-token balances between a host ledger
//! (20-byte addresses) and a destination ledger (textual account identities).
//!
//! The verified core: the bidirectional codec between token addresses and
//! destination account identities, the fixed-layout withdrawal message
//! encoder, the token registry, and the deploy-or-route decision protocol.

pub mod codec;
pub mod contract;
pub mod encoding;
pub mod errors;
pub mod registry;
