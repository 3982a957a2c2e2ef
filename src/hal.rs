//! Types of the capability contracts that the trampolines read.

use vstd::prelude::*;


verus! {

/// `embedded_hal::digital::PinState`: a pin is `Low` or `High`.
#[verifier::external_type_specification]
pub struct ExPinState(embedded_hal::digital::PinState);

/// `wasm_embedded_spec::Error`: the failure a capability operation reports.
#[verifier::external_type_specification]
pub struct ExError(wasm_embedded_spec::Error);

} // verus!
