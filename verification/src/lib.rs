//! A minting-authority engine: derives program-owned addresses from seeds,
//! plans the account allocation and the fixed sequence of cross-program calls
//! that turn an empty address into a uniquely numbered non-fungible token, and
//! keeps the per-owner counter and optional collection binding that make each
//! token unique.

pub mod addr;
pub mod allocator;
pub mod calls;
pub mod laws;
pub mod orchestrator;
pub mod state;
pub mod token;
pub mod token_metadata;
