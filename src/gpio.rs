//! GPIO trampolines: typed adapters from the guest's primitive arguments to
//! one call of a `Gpio` capability.

use vstd::prelude::*;

use embedded_hal::digital::PinState;
use wasm_embedded_spec::gpio::Gpio;
use wasm_embedded_spec::Error;

use crate::status::{handle_status, unit_status, FAILED};

verus! {

/// The pin state a guest's raw value stands for: zero is low, anything else high.
pub open spec fn state_of(value: u32) -> PinState {
    if value == 0 {
        PinState::Low
    } else {
        PinState::High
    }
}

/// The raw value a guest reads for a pin state.
pub open spec fn value_of(state: PinState) -> u32 {
    match state {
        PinState::Low => 0,
        PinState::High => 1,
    }
}

/// What a guest sees of a `get`: the status, and the value written through
/// its output pointer, if any.
pub open spec fn get_reply_of(r: Result<PinState, Error>) -> (i32, Option<u32>) {
    match r {
        Ok(s) => (0, Some(value_of(s))),
        Err(_) => (FAILED, None),
    }
}

/// A `get` reads as success exactly when the capability succeeded, and only
/// then is a value (`0` or `1`) handed to the guest.
pub proof fn lemma_get_reply_matches_outcome(r: Result<PinState, Error>)
    ensures
        r is Ok <==> get_reply_of(r).0 == 0,
        r is Err <==> get_reply_of(r).0 < 0,
        r is Ok <==> get_reply_of(r).1 is Some,
        get_reply_of(r).1 matches Some(v) ==> v == 0 || v == 1,
{
}

/// The pin mode a guest's raw `output` argument stands for: non-zero
/// selects output.
pub fn output_mode(output: u32) -> (o: bool)
    ensures
        o == (output != 0),
{
    output != 0
}

/// The pin state a guest's raw value stands for.
pub fn pin_state(value: u32) -> (s: PinState)
    ensures
        s == state_of(value),
{
    if value == 0 {
        PinState::Low
    } else {
        PinState::High
    }
}

/// The raw value a guest reads for a pin state.
pub fn pin_value(state: PinState) -> (v: u32)
    ensures
        v == value_of(state),
{
    match state {
        PinState::Low => 0,
        PinState::High => 1,
    }
}

/// Encodes the outcome of a `get`: on success the status is `0` and the pin
/// value is to be written out; on failure the status is `FAILED` and nothing
/// is written.
pub fn get_reply(r: Result<PinState, Error>) -> (out: (i32, Option<u32>))
    ensures
        out == get_reply_of(r),
{
    match r {
        Ok(s) => (0, Some(pin_value(s))),
        Err(_) => (FAILED, None),
    }
}

/// Writes the value of a `get` reply through `value`: the carried value if
/// there is one, else `value` stays as it was.
pub fn store_reply(reply: Option<u32>, value: &mut u32)
    ensures
        *final(value) == (match reply {
            Some(v) => v,
            None => *old(value),
        }),
{
    match reply {
        Some(v) => {
            *value = v;
        },
        None => {},
    }
}

/// Relies on `Gpio::init` of the bound implementation; its outcome is the
/// implementation's own.
#[verifier::external_body]
fn call_init<T: Gpio>(dev: &mut T, port: i32, pin: i32, output: bool) -> (r: Result<i32, Error>) {
    Gpio::init(dev, port, pin, output)
}

/// Relies on `Gpio::deinit` of the bound implementation.
#[verifier::external_body]
fn call_deinit<T: Gpio>(dev: &mut T, handle: i32) -> (r: Result<(), Error>) {
    Gpio::deinit(dev, handle)
}

/// Relies on `Gpio::set` of the bound implementation.
#[verifier::external_body]
fn call_set<T: Gpio>(dev: &mut T, handle: i32, state: PinState) -> (r: Result<(), Error>) {
    Gpio::set(dev, handle, state)
}

/// Relies on `Gpio::get` of the bound implementation.
#[verifier::external_body]
fn call_get<T: Gpio>(dev: &mut T, handle: i32) -> (r: Result<PinState, Error>) {
    Gpio::get(dev, handle)
}

/// Initialises a pin; a non-zero `output` selects output mode. Returns the
/// handle the capability gave, or `FAILED`.
pub fn gpio_init<T: Gpio>(dev: &mut T, port: i32, pin: i32, output: u32) -> i32 {
    handle_status(call_init(dev, port, pin, output_mode(output)))
}

/// Releases a pin handle: `0` on success, `FAILED` otherwise.
pub fn gpio_deinit<T: Gpio>(dev: &mut T, handle: i32) -> (r: i32)
    ensures
        r == 0 || r == FAILED,
{
    unit_status(call_deinit(dev, handle))
}

/// Drives a pin: zero is low, anything else high. `0` on success, `FAILED`
/// otherwise.
pub fn gpio_set<T: Gpio>(dev: &mut T, handle: i32, value: u32) -> (r: i32)
    ensures
        r == 0 || r == FAILED,
{
    unit_status(call_set(dev, handle, pin_state(value)))
}

/// Reads a pin. On success returns `0` and stores `0` (low) or `1` (high)
/// in `value`; on failure returns `FAILED` and leaves `value` as it was.
pub fn gpio_get<T: Gpio>(dev: &mut T, handle: i32, value: &mut u32) -> (r: i32)
    ensures
        r == 0 || r == FAILED,
        r == FAILED ==> *final(value) == *old(value),
        r == 0 ==> *final(value) == 0 || *final(value) == 1,
{
    let (s, v) = get_reply(call_get(dev, handle));
    store_reply(v, value);
    s
}

} // verus!
