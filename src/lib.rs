//! Driver binding layer for running embedded WASM guests on the wasm3
//! interpreter.
//!
//! The library holds the parts of the binding layer that decide something:
//! - `status`: how a capability outcome becomes the status code a guest sees;
//! - `gpio`, `i2c`, `spi`, `uart`: one typed trampoline per capability
//!   operation, each making exactly one capability call;
//! - `runtime`: the lifecycle of one interpreter context and the registry of
//!   the driver bindings it holds.
//!
//! The raw C-callable shells (context pointer and buffer reconstitution) and
//! the interpreter calls themselves live with the embedding application.

use vstd::prelude::*;

pub mod gpio;
pub mod hal;
pub mod i2c;
pub mod runtime;
pub mod spi;
pub mod status;
pub mod uart;

pub use runtime::{Binding, Peripheral, Wasm3Err, Wasm3Runtime};
