//! I2C trampolines: typed adapters from the guest's primitive arguments to
//! one call of an `I2c` capability.

use vstd::prelude::*;

use wasm_embedded_spec::i2c::I2c;
use wasm_embedded_spec::Error;

use crate::status::{handle_status, unit_status, FAILED};

verus! {

/// Relies on `I2c::init` of the bound implementation.
#[verifier::external_body]
fn call_init<T: I2c>(dev: &mut T, port: u32, baud: u32, sda: i32, scl: i32) -> (r: Result<
    i32,
    Error,
>) {
    I2c::init(dev, port, baud, sda, scl)
}

/// Relies on `I2c::deinit` of the bound implementation.
#[verifier::external_body]
fn call_deinit<T: I2c>(dev: &mut T, handle: i32) -> (r: Result<(), Error>) {
    I2c::deinit(dev, handle)
}

/// Relies on `I2c::read` of the bound implementation; a slice keeps its length.
#[verifier::external_body]
fn call_read<T: I2c>(dev: &mut T, handle: i32, address: u16, buff: &mut [u8]) -> (r: Result<
    (),
    Error,
>)
    ensures
        final(buff)@.len() == old(buff)@.len(),
{
    I2c::read(dev, handle, address, buff)
}

/// Relies on `I2c::write` of the bound implementation.
#[verifier::external_body]
fn call_write<T: I2c>(dev: &mut T, handle: i32, address: u16, data: &[u8]) -> (r: Result<
    (),
    Error,
>) {
    I2c::write(dev, handle, address, data)
}

/// Relies on `I2c::write_read` of the bound implementation; a slice keeps
/// its length.
#[verifier::external_body]
fn call_write_read<T: I2c>(
    dev: &mut T,
    handle: i32,
    address: u16,
    data: &[u8],
    buff: &mut [u8],
) -> (r: Result<(), Error>)
    ensures
        final(buff)@.len() == old(buff)@.len(),
{
    I2c::write_read(dev, handle, address, data, buff)
}

/// Opens an I2C device; returns the handle the capability gave, or `FAILED`.
pub fn i2c_init<T: I2c>(dev: &mut T, port: u32, baud: u32, sda: i32, scl: i32) -> i32 {
    handle_status(call_init(dev, port, baud, sda, scl))
}

/// Releases an I2C handle: `0` on success, `FAILED` otherwise.
pub fn i2c_deinit<T: I2c>(dev: &mut T, handle: i32) -> (r: i32)
    ensures
        r == 0 || r == FAILED,
{
    unit_status(call_deinit(dev, handle))
}

/// Reads from `address` into exactly the bytes of `buff`: `0` on success,
/// `FAILED` otherwise.
pub fn i2c_read<T: I2c>(dev: &mut T, handle: i32, address: u16, buff: &mut [u8]) -> (r: i32)
    ensures
        r == 0 || r == FAILED,
        final(buff)@.len() == old(buff)@.len(),
{
    unit_status(call_read(dev, handle, address, buff))
}

/// Writes exactly the bytes of `data` to `address`: `0` on success,
/// `FAILED` otherwise.
pub fn i2c_write<T: I2c>(dev: &mut T, handle: i32, address: u16, data: &[u8]) -> (r: i32)
    ensures
        r == 0 || r == FAILED,
{
    unit_status(call_write(dev, handle, address, data))
}

/// Writes `data` to `address`, then reads into `buff`: `0` on success,
/// `FAILED` otherwise.
pub fn i2c_write_read<T: I2c>(
    dev: &mut T,
    handle: i32,
    address: u16,
    data: &[u8],
    buff: &mut [u8],
) -> (r: i32)
    ensures
        r == 0 || r == FAILED,
        final(buff)@.len() == old(buff)@.len(),
{
    unit_status(call_write_read(dev, handle, address, data, buff))
}

} // verus!
