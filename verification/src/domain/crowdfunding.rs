//! The crowdfunding domain: its records and the repository interface.

use vstd::prelude::*;
use crate::domain::errors::BusinessLogicError;

verus! {

/// A stored crowdfunding record.
#[derive(Debug)]
pub struct Crowdfunding {
    pub id: u64,
    pub name: String,
}

/// A crowdfunding record as handed in for creation.
#[derive(Debug)]
pub struct NewCrowdfunding {
    pub name: String,
    pub description: String,
    pub user_id: u64,
}

/// Storage for crowdfunding records. The business layer reaches storage
/// only through this interface and tags its failures with the associated
/// error type.
pub trait CrowdfundingRepository: Sized {
    type ResponseError: BusinessLogicError;

    fn get_crowdfunding(&self, id: &u64) -> Result<Crowdfunding, Self::ResponseError>;

    fn create_crowdfunding(&self, crowdfunding: &NewCrowdfunding) -> Result<(), Self::ResponseError>;
}

} // verus!
