use vstd::prelude::*;

use crate::key::Pubkey;

verus! {

/// A token transfer an instruction asks the token program to make.
#[derive(Clone, Copy, Debug, PartialEq, Eq)]
pub struct TokenTransfer {
    /// Token account debited.
    pub from: Pubkey,
    /// Token account credited.
    pub to: Pubkey,
    /// Owner of `from` who authorises the transfer.
    pub authority: Pubkey,
    /// Amount in the token's smallest unit.
    pub amount: u64,
    /// Whether the contract account signs for itself (its address is derived
    /// from the program and the contract id) rather than a wallet.
    pub contract_signs: bool,
}

} // verus!
