//! The application-level error taxonomy: an error kind becomes an
//! enumerated tag, and each tag a boolean predicate.

use vstd::prelude::*;

verus! {

/// An error type of the business layer: constructors that tag an error
/// with the resource it concerns, and predicates that recover the tag.
/// Each constructor yields a value that answers to its own predicate and
/// to no other of the three.
pub trait BusinessLogicError: Sized {
    /// Whether this value carries the not-found tag.
    spec fn spec_is_not_found(&self) -> bool;

    /// Whether this value carries the already-exists tag.
    spec fn spec_is_already_exists(&self) -> bool;

    /// Whether this value carries the permission-denied tag.
    spec fn spec_is_permission_denied(&self) -> bool;

    fn not_found<R: core::fmt::Debug>(resource: &R) -> (e: Self)
        ensures
            e.spec_is_not_found(),
            !e.spec_is_already_exists(),
            !e.spec_is_permission_denied(),
    ;

    fn already_exist<R: core::fmt::Debug>(resource: &R) -> (e: Self)
        ensures
            !e.spec_is_not_found(),
            e.spec_is_already_exists(),
            !e.spec_is_permission_denied(),
    ;

    fn permission_denied<R: core::fmt::Debug>(resource: &R) -> (e: Self)
        ensures
            !e.spec_is_not_found(),
            !e.spec_is_already_exists(),
            e.spec_is_permission_denied(),
    ;

    fn is_not_found(&self) -> (r: bool)
        ensures
            r == self.spec_is_not_found(),
    ;

    fn is_already_exists(&self) -> (r: bool)
        ensures
            r == self.spec_is_already_exists(),
    ;

    fn is_permission_denied(&self) -> (r: bool)
        ensures
            r == self.spec_is_permission_denied(),
    ;
}

} // verus!
