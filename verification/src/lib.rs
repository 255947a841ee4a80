//! A marketplace protocol for selling limited or unlimited exemplars of a
//! digital asset, with escrowed payments, a buyer-protection refund window,
//! delayed withdrawal with an optional platform fee split, free sharing, and
//! consumption tracking.
//!
//! The protocol state lives in plain data records (`App`, `Asset`, `Payment`)
//! and every instruction handler is a verified function from those records and
//! the supplied account graph to the next state plus the exact list of token
//! operations the host chain must perform. Account addresses are derived
//! deterministically from seed byte sequences through the host's
//! program-derived-address scheme.

pub mod errors;
pub mod instructions;
pub mod laws;
pub mod ops;
pub mod pda;
pub mod state;
pub mod utils;

pub use errors::ErrorCode;
pub use ops::{Settlement, TokenOp};
pub use state::{App, Asset, Payment, Pubkey, TokenAccount};
