pub mod job_listing_with_feature_employer;
pub mod job_listing_with_one_fee_employer;
pub mod release_funds;
pub mod start_contract;
pub mod start_contract_on_buyer;
