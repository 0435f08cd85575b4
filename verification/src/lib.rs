//! Core state machine of a single-authority, single-asset token bridge.
//!
//! The bridge mints a wrapped asset on the destination ledger against
//! deposits proved on a source ledger, and burns it on withdrawal. This
//! crate holds the controller itself: the authority and pause model, the
//! mint/burn accounting, and the replay protection that keeps any single
//! source-chain deposit from being credited twice. The token ledger that
//! tracks balances and the signature layer that authenticates callers are
//! external collaborators; the controller receives authenticated
//! identities and plain values and enforces its own invariants.

pub mod errors;
pub mod events;
pub mod ids;
pub mod laws;
pub mod model;
pub mod state;

pub use errors::BridgeError;
pub use events::{BridgePaused, BridgeUnpaused, MarsBurned, MarsMinted};
pub use ids::{Pubkey, TxId};
pub use model::{BridgeView, MAX_PROCESSED_TXS};
pub use state::{burn_mars, initialize, mint_mars, pause_bridge, unpause_bridge, BridgeState};
