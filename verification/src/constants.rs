use vstd::prelude::*;

verus! {

/// Token amounts are in the smallest unit of a six-decimal token.
pub const TOKEN_UNIT: u64 = 1_000_000;

/// Fee for a job featured for 24 hours.
pub const FEATURED_FEE_ONE_DAY: u64 = 21_000_000;

/// Fee for a job featured for 3 days.
pub const FEATURED_FEE_THREE_DAYS: u64 = 36_000_000;

/// Fee for a job featured for 7 days.
pub const FEATURED_FEE_SEVEN_DAYS: u64 = 71_000_000;

/// Fee for a job featured for 14 days.
pub const FEATURED_FEE_FOURTEEN_DAYS: u64 = 100_000_000;

/// Fee for a job featured for 30 days.
pub const FEATURED_FEE_THIRTY_DAYS: u64 = 150_000_000;

/// Fee an employer pays to list an hourly job.
pub const LISTING_FEE: u64 = 1_000_000;

/// Optional dispute fee an employer pays with a listing.
pub const LISTING_DISPUTE_FEE: u64 = 1_000_000;

/// The dispute stake a buyer locks when starting a contract on the buyer side
/// (half a token unit).
pub const BUYER_DISPUTE_STAKE: u64 = 500_000;

/// Percentage of the released price that goes to the seller.
pub const SELLER_SHARE_PERCENT: u64 = 95;

/// Percentage of the released price that goes to the platform.
pub const PLATFORM_SHARE_PERCENT: u64 = 5;

} // verus!
