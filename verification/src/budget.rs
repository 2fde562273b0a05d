//! How much gas a batch of a given size needs.
//!
//! All quantities are plain gas units held in a `u64`. Sums and products
//! saturate at `u64::MAX`: a batch that is too large to price needs the
//! largest budget there is, and never wraps round to a small one.

use near_sdk::Gas;
use vstd::prelude::*;

use crate::error::AdmissionError;

verus! {

/// Gas units in one teragas.
pub const ONE_TERA_GAS: u64 = 1_000_000_000_000;

/// Gas given to each call of the signing service.
pub const SIGNATURE_GAS: u64 = 15_000_000_000_000;

/// Fixed part of the gas that admitting and scheduling a batch takes.
pub const INITIAL_GAS_CONSTANT: u64 = 8_000_000_000_000;

/// Fixed part of the gas that the continuation takes.
pub const CALLBACK_GAS_CONSTANT: u64 = 8_000_000_000_000;

/// Gas that admitting and scheduling takes for each request.
pub const INITIAL_GAS_MULTIPLIER: u64 = 2_000_000_000_000;

/// Gas that the continuation takes for each request.
pub const CALLBACK_GAS_MULTIPLIER: u64 = 2_000_000_000_000;

/// A non-negative quantity cut off at the largest `u64`.
pub open spec fn saturated(x: int) -> int {
    if x > u64::MAX as int {
        u64::MAX as int
    } else {
        x
    }
}

/// Gas for the `n` calls of the signing service together.
pub open spec fn spec_signature_gas(n: int) -> int {
    saturated(SIGNATURE_GAS * n)
}

/// Gas for admitting and scheduling a batch of `n` requests.
pub open spec fn spec_initial_gas(n: int) -> int {
    saturated(INITIAL_GAS_CONSTANT + INITIAL_GAS_MULTIPLIER * n)
}

/// Gas for the continuation of a batch of `n` requests.
pub open spec fn spec_callback_gas(n: int) -> int {
    saturated(CALLBACK_GAS_CONSTANT + CALLBACK_GAS_MULTIPLIER * n)
}

/// Gas that must be prepaid for a batch of `n` requests.
pub open spec fn spec_required_gas(n: int) -> int {
    saturated(SIGNATURE_GAS * n + spec_initial_gas(n) + spec_callback_gas(n))
}

/// The gas a batch needs, part by part.
#[derive(Debug, Clone, Copy, PartialEq, Eq, Structural)]
pub struct GasBreakdown {
    /// For the calls of the signing service.
    pub signatures: u64,
    /// For admitting and scheduling.
    pub initial: u64,
    /// For the continuation.
    pub callback: u64,
    /// All of it: what must be prepaid.
    pub required: u64,
}

/// The breakdown of a batch of `n` requests.
pub open spec fn spec_breakdown(n: int) -> GasBreakdown {
    GasBreakdown {
        signatures: spec_signature_gas(n) as u64,
        initial: spec_initial_gas(n) as u64,
        callback: spec_callback_gas(n) as u64,
        required: spec_required_gas(n) as u64,
    }
}

/// Calls `near_sdk::Gas::saturating_add` on two quantities given in gas
/// units. Trusted: the sum, or `u64::MAX` where the sum does not fit.
#[verifier::external_body]
fn gas_saturating_add(a: u64, b: u64) -> (sum: u64)
    ensures
        sum == saturated(a + b),
{
    Gas::from_gas(a).saturating_add(Gas::from_gas(b)).as_gas()
}

/// Calls `near_sdk::Gas::saturating_mul` on a quantity given in gas units
/// and a factor. Trusted: the product, or `u64::MAX` where it does not fit.
#[verifier::external_body]
fn gas_saturating_mul(a: u64, factor: u64) -> (product: u64)
    ensures
        product == saturated(a * factor),
{
    Gas::from_gas(a).saturating_mul(factor).as_gas()
}

/// Gas for the continuation of a batch of `number_of_requests` requests.
pub fn callback_gas(number_of_requests: u64) -> (gas: u64)
    ensures
        gas == spec_callback_gas(number_of_requests as int),
{
    gas_saturating_add(
        CALLBACK_GAS_CONSTANT,
        gas_saturating_mul(CALLBACK_GAS_MULTIPLIER, number_of_requests),
    )
}

/// Gas for admitting and scheduling a batch of `number_of_requests` requests.
pub fn initial_gas(number_of_requests: u64) -> (gas: u64)
    ensures
        gas == spec_initial_gas(number_of_requests as int),
{
    gas_saturating_add(
        INITIAL_GAS_CONSTANT,
        gas_saturating_mul(INITIAL_GAS_MULTIPLIER, number_of_requests),
    )
}

/// What a batch of `number_of_requests` requests needs, part by part.
pub fn required_gas(number_of_requests: u64) -> (breakdown: GasBreakdown)
    ensures
        breakdown == spec_breakdown(number_of_requests as int),
{
    let signatures = gas_saturating_mul(SIGNATURE_GAS, number_of_requests);
    let initial = initial_gas(number_of_requests);
    let callback = callback_gas(number_of_requests);
    let required = gas_saturating_add(gas_saturating_add(signatures, initial), callback);
    GasBreakdown { signatures, initial, callback, required }
}

/// Admits a batch only if the prepaid gas covers it.
///
/// A shortfall of a single unit is a refusal.
pub fn require_enough_gas(prepaid_gas: u64, number_of_requests: u64) -> (admitted: Result<
    GasBreakdown,
    AdmissionError,
>)
    ensures
        prepaid_gas >= spec_required_gas(number_of_requests as int) ==> admitted == Ok::<
            GasBreakdown,
            AdmissionError,
        >(spec_breakdown(number_of_requests as int)),
        prepaid_gas < spec_required_gas(number_of_requests as int) ==> admitted == Err::<
            GasBreakdown,
            AdmissionError,
        >(AdmissionError::InsufficientGas),
{
    let breakdown = required_gas(number_of_requests);
    if prepaid_gas >= breakdown.required {
        Ok(breakdown)
    } else {
        Err(AdmissionError::InsufficientGas)
    }
}

/// A larger batch never needs less of anything, and no part ever exceeds
/// the largest `u64`.
pub proof fn lemma_gas_monotonic(m: nat, n: nat)
    requires
        m <= n,
    ensures
        0 <= spec_signature_gas(m as int) <= spec_signature_gas(n as int) <= u64::MAX,
        0 <= spec_initial_gas(m as int) <= spec_initial_gas(n as int) <= u64::MAX,
        0 <= spec_callback_gas(m as int) <= spec_callback_gas(n as int) <= u64::MAX,
        0 <= spec_required_gas(m as int) <= spec_required_gas(n as int) <= u64::MAX,
{
}

} // verus!
