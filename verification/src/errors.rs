use vstd::prelude::*;

verus! {

/// Why an instruction refuses to run.
#[derive(Clone, Copy, Debug, PartialEq, Eq, Structural)]
pub enum GigContractError {
    /// The signer is not the employer recorded on the contract.
    InvalidActivator,
    /// The contract is neither active nor pending, so funds cannot be released.
    CantRelease,
    /// The signer is not the buyer recorded on the contract.
    InvalidBuyer,
    /// The requested featured period is not one that is offered.
    InvalidFeaturedDay,
    /// The payment token's mint is not the one the program accepts.
    PayTokenMintError,
    /// The dispute stake is not the fixed amount the program asks for.
    InvalidDisputeAmount,
}

} // verus!
