//! A two-asset exchange program: the instruction codec, the persisted pool
//! record codec, authority derivation and the swap state machine.
pub mod error;
pub mod instruction;
pub mod processor;
pub mod pubkey;
pub mod state;
pub mod utils;
