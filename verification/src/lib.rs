//! Escrow logic of a gig marketplace: a buyer locks a payment and a dispute
//! stake in a contract account, employers pay listing fees, and a release
//! splits the escrowed balance between seller, buyer and platform.
//!
//! Every instruction is a step from the accounts it reads to the accounts it
//! writes and the token transfers it asks the token program to make.

pub mod constants;
pub mod errors;
pub mod instructions;
pub mod key;
pub mod laws;
pub mod state;
pub mod transfer;
