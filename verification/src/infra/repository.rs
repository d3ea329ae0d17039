//! The in-memory repository and its error type.

use vstd::prelude::*;
use crate::usecase::crowdfunding::{
    BusinessLogicError, Crowdfunding, CrowdfundingRepository, NewCrowdfunding,
};

verus! {

/// The repository's error, one variant per application-level failure,
/// each carrying a description of the resource concerned.
#[derive(Debug, Clone, PartialEq, Eq)]
pub enum CrowdfundingRepositoryError {
    NotFound(String),
    AlreadyExist(String),
    InvalidArgument(String),
    PermissionDenied(String),
    InternalError(String),
}

/// Relies on the `format!` macro of std: renders a value through its
/// `Debug` implementation.
#[verifier::external_body]
fn debug_string<R: core::fmt::Debug>(value: &R) -> String {
    format!("{:?}", value)
}

impl CrowdfundingRepositoryError {
    pub fn is_not_found(&self) -> (r: bool)
        ensures
            r == (self is NotFound),
    {
        matches!(self, CrowdfundingRepositoryError::NotFound(_))
    }

    pub fn is_already_exist(&self) -> (r: bool)
        ensures
            r == (self is AlreadyExist),
    {
        matches!(self, CrowdfundingRepositoryError::AlreadyExist(_))
    }

    pub fn is_invalid_argument(&self) -> (r: bool)
        ensures
            r == (self is InvalidArgument),
    {
        matches!(self, CrowdfundingRepositoryError::InvalidArgument(_))
    }

    pub fn is_permission_denied_error(&self) -> (r: bool)
        ensures
            r == (self is PermissionDenied),
    {
        matches!(self, CrowdfundingRepositoryError::PermissionDenied(_))
    }

    pub fn is_internal_error(&self) -> (r: bool)
        ensures
            r == (self is InternalError),
    {
        matches!(self, CrowdfundingRepositoryError::InternalError(_))
    }
}

impl Default for CrowdfundingRepositoryError {
    /// An internal error with an empty description.
    fn default() -> (e: Self)
        ensures
            e is InternalError,
            e->InternalError_0@.len() == 0,
    {
        let text = "".to_owned();
        proof {
            reveal_strlit("");
        }
        CrowdfundingRepositoryError::InternalError(text)
    }
}

impl BusinessLogicError for CrowdfundingRepositoryError {
    open spec fn spec_is_not_found(&self) -> bool {
        self is NotFound
    }

    open spec fn spec_is_already_exists(&self) -> bool {
        self is AlreadyExist
    }

    open spec fn spec_is_permission_denied(&self) -> bool {
        self is PermissionDenied
    }

    fn not_found<R: core::fmt::Debug>(resource: &R) -> Self {
        CrowdfundingRepositoryError::NotFound(debug_string(resource))
    }

    fn already_exist<R: core::fmt::Debug>(resource: &R) -> Self {
        CrowdfundingRepositoryError::AlreadyExist(debug_string(resource))
    }

    fn permission_denied<R: core::fmt::Debug>(resource: &R) -> Self {
        CrowdfundingRepositoryError::PermissionDenied(debug_string(resource))
    }

    fn is_not_found(&self) -> bool {
        matches!(self, CrowdfundingRepositoryError::NotFound(_))
    }

    fn is_already_exists(&self) -> bool {
        matches!(self, CrowdfundingRepositoryError::AlreadyExist(_))
    }

    fn is_permission_denied(&self) -> bool {
        matches!(self, CrowdfundingRepositoryError::PermissionDenied(_))
    }
}

/// The in-memory repository: canned answers, no storage behind it.
pub struct CrowdfundingRepositoryImpl;

impl CrowdfundingRepository for CrowdfundingRepositoryImpl {
    type ResponseError = CrowdfundingRepositoryError;

    fn get_crowdfunding(&self, id: &u64) -> (r: Result<Crowdfunding, CrowdfundingRepositoryError>)
        ensures
            r matches Ok(c) && c.id == *id && c.name@ == "foobar"@,
    {
        Ok(Crowdfunding { id: *id, name: "foobar".to_owned() })
    }

    fn create_crowdfunding(&self, _crowdfunding: &NewCrowdfunding) -> (r: Result<(), CrowdfundingRepositoryError>)
        ensures
            r is Ok,
    {
        Ok(())
    }
}

} // verus!
