//! Client-side rules for working with an ERC20-style token contract: the
//! account book, the parsing of addresses and keys, and the choice of what
//! each batch operation asks of the contract.

pub mod hex;
pub mod keys;
pub mod text;
pub mod token;
pub mod network;
