//! UART trampolines: typed adapters from the guest's primitive arguments to
//! one call of a `Uart` capability.

use vstd::prelude::*;

use wasm_embedded_spec::uart::Uart;
use wasm_embedded_spec::Error;

use crate::status::{handle_status, unit_status, FAILED};

verus! {

/// Relies on `Uart::init` of the bound implementation.
#[verifier::external_body]
fn call_init<T: Uart>(dev: &mut T, port: u32, baud: u32, tx: i32, rx: i32) -> (r: Result<
    i32,
    Error,
>) {
    Uart::init(dev, port, baud, tx, rx)
}

/// Relies on `Uart::deinit` of the bound implementation.
#[verifier::external_body]
fn call_deinit<T: Uart>(dev: &mut T, handle: i32) -> (r: Result<(), Error>) {
    Uart::deinit(dev, handle)
}

/// Relies on `Uart::read` of the bound implementation; a slice keeps its length.
#[verifier::external_body]
fn call_read<T: Uart>(dev: &mut T, handle: i32, flags: u32, buff: &mut [u8]) -> (r: Result<
    (),
    Error,
>)
    ensures
        final(buff)@.len() == old(buff)@.len(),
{
    Uart::read(dev, handle, flags, buff)
}

/// Relies on `Uart::write` of the bound implementation.
#[verifier::external_body]
fn call_write<T: Uart>(dev: &mut T, handle: i32, flags: u32, data: &[u8]) -> (r: Result<
    (),
    Error,
>) {
    Uart::write(dev, handle, flags, data)
}

/// Opens a UART; returns the handle the capability gave, or `FAILED`.
pub fn uart_init<T: Uart>(dev: &mut T, port: u32, baud: u32, tx: i32, rx: i32) -> i32 {
    handle_status(call_init(dev, port, baud, tx, rx))
}

/// Releases a UART handle: `0` on success, `FAILED` otherwise.
pub fn uart_deinit<T: Uart>(dev: &mut T, handle: i32) -> (r: i32)
    ensures
        r == 0 || r == FAILED,
{
    unit_status(call_deinit(dev, handle))
}

/// Reads into exactly the bytes of `buff`: `0` on success, `FAILED` otherwise.
pub fn uart_read<T: Uart>(dev: &mut T, handle: i32, flags: u32, buff: &mut [u8]) -> (r: i32)
    ensures
        r == 0 || r == FAILED,
        final(buff)@.len() == old(buff)@.len(),
{
    unit_status(call_read(dev, handle, flags, buff))
}

/// Writes exactly the bytes of `data`: `0` on success, `FAILED` otherwise.
pub fn uart_write<T: Uart>(dev: &mut T, handle: i32, flags: u32, data: &[u8]) -> (r: i32)
    ensures
        r == 0 || r == FAILED,
{
    unit_status(call_write(dev, handle, flags, data))
}

} // verus!
