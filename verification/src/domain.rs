pub mod crowdfunding;
pub mod errors;
