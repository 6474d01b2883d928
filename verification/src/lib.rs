//! Client core for the pay-as-you-go metering program, and the program's
//! own metering rules.
//!
//! - [`metering`]: the program's instructions as transitions on its
//!   accounts, and the invariant they keep.
//! - [`preflight`]: what a site can know before it spends a fee, held to
//!   [`metering`] by the laws in that module.
//! - [`program`], [`pda`], [`ix`], [`tx`]: the deployment handle, address
//!   derivation, instruction builders, and the pairs the program requires
//!   in order.
//! - [`state`], [`units`], [`slug`]: account decoding, amounts at a mint's
//!   scale, and URL slugs.
//! - [`error`], [`ids`]: naming failures across the two programs involved,
//!   and the well-known program addresses.

pub mod ids;
mod text;
pub mod slug;
pub mod units;
pub mod state;
pub mod error;
pub mod metering;
pub mod preflight;
pub mod program;
pub mod pda;
pub mod ix;
pub mod tx;
