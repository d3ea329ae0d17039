//! The transport-facing entry points of the crowdfunding service.

use vstd::prelude::*;
use crate::infra::repository::{CrowdfundingRepositoryError, CrowdfundingRepositoryImpl};
use crate::usecase::crowdfunding::{create_crowdfunding, get_crowdfunding, Crowdfunding, NewCrowdfunding};

verus! {

/// Serves a lookup of the fixed sample record; the mock use case always
/// reports it as not found.
pub fn grpc_get_crowdfunding() -> (r: Result<Crowdfunding, CrowdfundingRepositoryError>)
    ensures
        r matches Err(e) && e is NotFound,
{
    let id: u64 = 1;
    let repo = CrowdfundingRepositoryImpl;

    let result = match get_crowdfunding(&repo, &id) {
        Ok(c) => c,
        Err(e) => {
            return Err(e);
        },
    };

    Ok(result)
}

/// Serves a creation of the fixed sample record; the mock use case always
/// reports it as already existing.
pub fn grpc_create_crowdfunding() -> (r: Result<(), CrowdfundingRepositoryError>)
    ensures
        r matches Err(e) && e is AlreadyExist,
{
    let name = "foobar".to_owned();
    let description = "".to_owned();
    let user_id: u64 = 1;
    let new_crowdfunding = NewCrowdfunding { name, description, user_id };
    let repo = CrowdfundingRepositoryImpl;

    match create_crowdfunding(&repo, &new_crowdfunding) {
        Ok(_) => Ok(()),
        Err(e) => Err(e),
    }
}

} // verus!
