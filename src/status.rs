//! Status codes that cross the guest-host call boundary.
//!
//! Zero or positive means success (positive only as a handle from an
//! `init`-class operation), negative means failure. The detail of a
//! capability failure is not encoded: every failure becomes `FAILED`.

use vstd::prelude::*;

use wasm_embedded_spec::Error;

verus! {

/// The single code every capability failure collapses to.
pub const FAILED: i32 = -1;

/// What the guest sees for the outcome of an `init`-class operation.
pub open spec fn handle_code(r: Result<i32, Error>) -> i32 {
    match r {
        Ok(h) => h,
        Err(_) => FAILED,
    }
}

/// What the guest sees for the outcome of any other capability operation.
pub open spec fn unit_code(r: Result<(), Error>) -> i32 {
    match r {
        Ok(_) => 0,
        Err(_) => FAILED,
    }
}

/// Encodes the outcome of an `init`-class operation: the handle, or `FAILED`.
pub fn handle_status(r: Result<i32, Error>) -> (s: i32)
    ensures
        s == handle_code(r),
{
    match r {
        Ok(h) => h,
        Err(_) => FAILED,
    }
}

/// Encodes the outcome of a capability operation that returns no value.
pub fn unit_status(r: Result<(), Error>) -> (s: i32)
    ensures
        s == unit_code(r),
{
    match r {
        Ok(_) => 0,
        Err(_) => FAILED,
    }
}

/// A successful operation reads as success to the guest (`0`, or the
/// handle for `init` when the handle is non-negative), and a failed one
/// reads as failure.
pub proof fn lemma_status_matches_outcome(u: Result<(), Error>, h: Result<i32, Error>)
    requires
        h matches Ok(v) ==> v >= 0,
    ensures
        u is Ok <==> unit_code(u) == 0,
        u is Err <==> unit_code(u) < 0,
        h is Ok <==> handle_code(h) >= 0,
        h is Err <==> handle_code(h) < 0,
        h matches Ok(v) ==> handle_code(h) == v,
{
}

} // verus!
