//! The use-case layer over the crowdfunding repository. In this mock it
//! consults the repository, discards the answer, and reports the matching
//! business error.

use vstd::prelude::*;

pub use crate::domain::crowdfunding::{Crowdfunding, CrowdfundingRepository, NewCrowdfunding};
pub use crate::domain::errors::BusinessLogicError;

verus! {

/// Looks a crowdfunding record up; in this mock the lookup's answer is
/// discarded and a not-found error is reported for the requested id.
pub fn get_crowdfunding<E: BusinessLogicError, R: CrowdfundingRepository<ResponseError = E>>(
    repo: &R,
    id: &u64,
) -> (r: Result<Crowdfunding, E>)
    ensures
        r matches Err(e) && e.spec_is_not_found(),
{
    let _result = repo.get_crowdfunding(id);
    let err = E::not_found(id);
    Err(err)
}

/// Creates a crowdfunding record; in this mock the creation's answer is
/// discarded and an already-exists error is reported for the record.
pub fn create_crowdfunding<E: BusinessLogicError, R: CrowdfundingRepository<ResponseError = E>>(
    repo: &R,
    crowdfunding: &NewCrowdfunding,
) -> (r: Result<(), E>)
    ensures
        r matches Err(e) && e.spec_is_already_exists(),
{
    let _result = repo.create_crowdfunding(crowdfunding);
    let err = E::already_exist(crowdfunding);
    Err(err)
}

} // verus!
