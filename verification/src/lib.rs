//! Verified core of a custodial bridge settlement engine.
//!
//! The crate decodes tagged instruction buffers, maintains the fixed-layout
//! persisted records (quorum configuration and replay counter), and decides
//! deposits, withdrawals and bootstrap: every check, the canonical signed
//! message, and the exact effects to apply are computed and proved here,
//! while the host runtime performs the resulting account writes and
//! transfers.

pub mod error;
pub mod util;
pub mod state;
pub mod instruction;
pub mod canonical;
pub mod chain;
pub mod processor;
