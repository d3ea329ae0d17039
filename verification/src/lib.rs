//! A retry middleware core: classification of HTTP attempt outcomes,
//! a bounded retry policy, and the executor's decision logic, together
//! with the small crowdfunding domain that sits on top of it.

pub mod domain;
pub mod infra;
pub mod usecase;
