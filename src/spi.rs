//! SPI trampolines: typed adapters from the guest's primitive arguments to
//! one call of a `Spi` capability.

use vstd::prelude::*;

use wasm_embedded_spec::spi::Spi;
use wasm_embedded_spec::Error;

use crate::status::{handle_status, unit_status, FAILED};

verus! {

/// Relies on `Spi::init` of the bound implementation.
#[verifier::external_body]
fn call_init<T: Spi>(
    dev: &mut T,
    port: u32,
    baud: u32,
    mosi: i32,
    miso: i32,
    sck: i32,
    cs: i32,
) -> (r: Result<i32, Error>) {
    Spi::init(dev, port, baud, mosi, miso, sck, cs)
}

/// Relies on `Spi::deinit` of the bound implementation.
#[verifier::external_body]
fn call_deinit<T: Spi>(dev: &mut T, handle: i32) -> (r: Result<(), Error>) {
    Spi::deinit(dev, handle)
}

/// Relies on `Spi::read` of the bound implementation; a slice keeps its length.
#[verifier::external_body]
fn call_read<T: Spi>(dev: &mut T, handle: i32, data: &mut [u8]) -> (r: Result<(), Error>)
    ensures
        final(data)@.len() == old(data)@.len(),
{
    Spi::read(dev, handle, data)
}

/// Relies on `Spi::write` of the bound implementation.
#[verifier::external_body]
fn call_write<T: Spi>(dev: &mut T, handle: i32, data: &[u8]) -> (r: Result<(), Error>) {
    Spi::write(dev, handle, data)
}

/// Relies on `Spi::transfer` of the bound implementation; a slice keeps its
/// length.
#[verifier::external_body]
fn call_transfer<T: Spi>(dev: &mut T, handle: i32, read: &mut [u8], write: &[u8]) -> (r: Result<
    (),
    Error,
>)
    ensures
        final(read)@.len() == old(read)@.len(),
{
    Spi::transfer(dev, handle, read, write)
}

/// Relies on `Spi::transfer_inplace` of the bound implementation; a slice
/// keeps its length.
#[verifier::external_body]
fn call_transfer_inplace<T: Spi>(dev: &mut T, handle: i32, data: &mut [u8]) -> (r: Result<
    (),
    Error,
>)
    ensures
        final(data)@.len() == old(data)@.len(),
{
    Spi::transfer_inplace(dev, handle, data)
}

/// Opens a SPI device; returns the handle the capability gave, or `FAILED`.
pub fn spi_init<T: Spi>(
    dev: &mut T,
    port: u32,
    baud: u32,
    mosi: i32,
    miso: i32,
    sck: i32,
    cs: i32,
) -> i32 {
    handle_status(call_init(dev, port, baud, mosi, miso, sck, cs))
}

/// Releases a SPI handle: `0` on success, `FAILED` otherwise.
pub fn spi_deinit<T: Spi>(dev: &mut T, handle: i32) -> (r: i32)
    ensures
        r == 0 || r == FAILED,
{
    unit_status(call_deinit(dev, handle))
}

/// Reads into exactly the bytes of `data`: `0` on success, `FAILED` otherwise.
pub fn spi_read<T: Spi>(dev: &mut T, handle: i32, data: &mut [u8]) -> (r: i32)
    ensures
        r == 0 || r == FAILED,
        final(data)@.len() == old(data)@.len(),
{
    unit_status(call_read(dev, handle, data))
}

/// Writes exactly the bytes of `data`: `0` on success, `FAILED` otherwise.
pub fn spi_write<T: Spi>(dev: &mut T, handle: i32, data: &[u8]) -> (r: i32)
    ensures
        r == 0 || r == FAILED,
{
    unit_status(call_write(dev, handle, data))
}

/// Clocks out `write` while clocking into `read`: `0` on success, `FAILED`
/// otherwise.
pub fn spi_transfer<T: Spi>(dev: &mut T, handle: i32, read: &mut [u8], write: &[u8]) -> (r: i32)
    ensures
        r == 0 || r == FAILED,
        final(read)@.len() == old(read)@.len(),
{
    unit_status(call_transfer(dev, handle, read, write))
}

/// Clocks out `data` and replaces it with what was clocked in: `0` on
/// success, `FAILED` otherwise.
pub fn spi_transfer_inplace<T: Spi>(dev: &mut T, handle: i32, data: &mut [u8]) -> (r: i32)
    ensures
        r == 0 || r == FAILED,
        final(data)@.len() == old(data)@.len(),
{
    unit_status(call_transfer_inplace(dev, handle, data))
}

} // verus!
