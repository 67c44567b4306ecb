//! The error a transform can end with.

use vstd::prelude::*;

verus! {

/// A transform that completed but could not inject one or more configured
/// instrumentations reports them here, by query name, in configuration
/// order. The rewritten program is withheld.
#[derive(Debug)]
pub enum OrchestrionError {
    InjectionMatchFailure(Vec<String>),
}

impl OrchestrionError {
    /// The names of the queries that did not inject.
    pub fn failed_queries(&self) -> (r: &Vec<String>)
        ensures
            *self matches OrchestrionError::InjectionMatchFailure(v) && r == v,
    {
        match self {
            OrchestrionError::InjectionMatchFailure(v) => v,
        }
    }
}

} // verus!
