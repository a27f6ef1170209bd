//! A verified model of a governed token wrapper: a PSP22 token that is minted
//! when users wrap native funds or listed PSP22 tokens and burnt when they
//! unwrap, with a list of wrappable tokens that proposals update under a
//! nonce, and a wrapping fee.

pub mod account;
pub mod table;
pub mod psp22;
pub mod wrapper;
pub mod laws;
