//! Reasons for which the relay turns a call away.

use vstd::prelude::*;

verus! {

/// Why a batch was refused before any sub-call was scheduled.
#[derive(Debug, Clone, Copy, PartialEq, Eq, Structural)]
pub enum AdmissionError {
    /// The caller is not the permitted caller.
    Unauthorized,
    /// The prepaid gas is below what the batch needs.
    InsufficientGas,
    /// The batch holds no request, so there is nothing to join.
    EmptyBatch,
    /// The request at this position carries a payload that is too long.
    InvalidPayload(usize),
}

impl AdmissionError {
    /// The text the host aborts with.
    pub fn message(&self) -> (text: &'static str)
        ensures
            text@ == self.spec_message(),
    {
        match self {
            AdmissionError::Unauthorized => "Only the permitted caller can call this contract",
            AdmissionError::InsufficientGas => "Insufficient gas",
            AdmissionError::EmptyBatch => "Must have at least one promise",
            AdmissionError::InvalidPayload(_) => "Invalid payload size",
        }
    }

    /// The text of each refusal.
    pub open spec fn spec_message(&self) -> Seq<char> {
        match self {
            AdmissionError::Unauthorized => "Only the permitted caller can call this contract"@,
            AdmissionError::InsufficientGas => "Insufficient gas"@,
            AdmissionError::EmptyBatch => "Must have at least one promise"@,
            AdmissionError::InvalidPayload(_) => "Invalid payload size"@,
        }
    }
}

/// Why a change of the relay's configuration was refused.
#[derive(Debug, Clone, Copy, PartialEq, Eq, Structural)]
pub enum OwnerError {
    /// The caller is not the owner.
    NotOwner,
}

impl OwnerError {
    /// The text the host aborts with.
    pub fn message(&self) -> (text: &'static str)
        ensures
            text@ == "Only the owner can call this contract"@,
    {
        "Only the owner can call this contract"
    }
}

/// Why the reconciliation of a batch was refused.
#[derive(Debug, Clone, Copy, PartialEq, Eq, Structural)]
pub enum ResolveError {
    /// The caller is not the relay itself.
    Private,
    /// There is not one outcome for each request.
    OutcomeCount,
}

impl ResolveError {
    /// The text the host aborts with.
    pub fn message(&self) -> (text: &'static str)
        ensures
            text@ == self.spec_message(),
    {
        match self {
            ResolveError::Private => "Method resolve_signatures is private",
            ResolveError::OutcomeCount => "Expected one promise result for each request",
        }
    }

    /// The text of each refusal.
    pub open spec fn spec_message(&self) -> Seq<char> {
        match self {
            ResolveError::Private => "Method resolve_signatures is private"@,
            ResolveError::OutcomeCount => "Expected one promise result for each request"@,
        }
    }
}

/// Why the replacement of the relay's code was refused.
#[derive(Debug, Clone, Copy, PartialEq, Eq, Structural)]
pub enum UpgradeError {
    /// The caller is not the owner.
    NotOwner,
    /// No code came with the call.
    NoInput,
}

impl UpgradeError {
    /// The text the host aborts with.
    pub fn message(&self) -> (text: &'static str)
        ensures
            text@ == self.spec_message(),
    {
        match self {
            UpgradeError::NotOwner => "Only the owner can update the code",
            UpgradeError::NoInput => "Error: No input",
        }
    }

    /// The text of each refusal.
    pub open spec fn spec_message(&self) -> Seq<char> {
        match self {
            UpgradeError::NotOwner => "Only the owner can update the code"@,
            UpgradeError::NoInput => "Error: No input"@,
        }
    }
}

} // verus!
