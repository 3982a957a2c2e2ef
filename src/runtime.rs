//! Lifecycle of one interpreter context and the registry of the driver
//! bindings it holds.
//!
//! The interpreter itself is driven by the embedding application: it creates
//! the context, makes the registration and entry calls, and destroys the
//! context. This module decides, from what those calls reported, what the
//! runtime's state becomes and what its caller is told.

use vstd::prelude::*;

verus! {

/// Size in bytes of the memory arena each interpreter context is created with.
pub const ARENA_SIZE: u32 = 10 * 1024;

/// Errors reported to the embedding application.
#[derive(Debug, Clone, PartialEq, Eq, Structural)]
pub enum Wasm3Err {
    /// The interpreter could not create a context.
    Ctx,
    /// An I2C initialisation failed with this code.
    I2c(i32),
    /// A SPI initialisation failed with this code.
    Spi(i32),
    /// A GPIO initialisation failed with this code.
    Gpio(i32),
    /// The guest entry point failed with this code.
    Exec(i32),
    /// Registering a driver failed with this code.
    Bind(i32),
}

/// The peripheral kinds a runtime can hold a binding for.
#[derive(Debug, Clone, Copy, PartialEq, Eq, Structural)]
pub enum Peripheral {
    Gpio,
    Spi,
    I2c,
    Uart,
}

/// One registered driver: the address of its function table and the address
/// of the host object it is bound to. The binding does not own the object.
#[derive(Debug, Clone, Copy, PartialEq, Eq, Structural)]
pub struct Binding {
    pub table: usize,
    pub context: usize,
}

/// The abstract state of a runtime: whether its context is still held, and
/// the binding registered for each kind.
pub struct RuntimeState {
    pub task_len: nat,
    pub live: bool,
    pub bindings: Map<Peripheral, Binding>,
}

/// The state after a registration call for `kind` that reported `code`:
/// on success the new binding replaces any earlier one of that kind; on
/// failure nothing changes.
pub open spec fn after_bind(s: RuntimeState, kind: Peripheral, b: Binding, code: i32) -> RuntimeState {
    if code < 0 {
        s
    } else {
        RuntimeState { bindings: s.bindings.insert(kind, b), ..s }
    }
}

/// The state after teardown: the context and every binding are gone.
pub open spec fn after_release(s: RuntimeState) -> RuntimeState {
    RuntimeState { live: false, bindings: Map::empty(), ..s }
}

/// The state after a sequence of registration calls, each with the code it
/// reported.
pub open spec fn after_binds(s: RuntimeState, steps: Seq<(Peripheral, Binding, i32)>) -> RuntimeState
    decreases steps.len(),
{
    if steps.len() == 0 {
        s
    } else {
        let (k, b, c) = steps.last();
        after_bind(after_binds(s, steps.drop_last()), k, b, c)
    }
}

/// The result a registration call's code gives.
pub open spec fn bind_result(code: i32) -> Result<(), Wasm3Err> {
    if code < 0 {
        Err(Wasm3Err::Bind(code))
    } else {
        Ok(())
    }
}

/// The result an entry call's code gives.
pub open spec fn run_result(code: i32) -> Result<(), Wasm3Err> {
    if code < 0 {
        Err(Wasm3Err::Exec(code))
    } else {
        Ok(())
    }
}

/// Binding a kind a second time replaces the first binding rather than
/// adding to it: after two successful registrations for one kind, only the
/// second is held for that kind and every other kind is as before.
pub proof fn lemma_rebind_overwrites(
    s: RuntimeState,
    kind: Peripheral,
    first: Binding,
    second: Binding,
    first_code: i32,
    second_code: i32,
)
    requires
        second_code >= 0,
    ensures
        after_bind(after_bind(s, kind, first, first_code), kind, second, second_code).bindings
            == s.bindings.insert(kind, second),
{
    assert(s.bindings.insert(kind, first).insert(kind, second) =~= s.bindings.insert(kind, second));
}

/// Registration calls never give up the context, whatever they report.
pub proof fn lemma_binds_keep_context(s: RuntimeState, steps: Seq<(Peripheral, Binding, i32)>)
    ensures
        after_binds(s, steps).live == s.live,
        after_binds(s, steps).task_len == s.task_len,
    decreases steps.len(),
{
    if steps.len() > 0 {
        lemma_binds_keep_context(s, steps.drop_last());
    }
}

/// A created context is released exactly once, however the registrations
/// went, a failed one included: the first teardown reports the context as
/// held, and any later teardown reports nothing left to destroy.
pub proof fn lemma_release_once(s: RuntimeState, steps: Seq<(Peripheral, Binding, i32)>)
    requires
        s.live,
    ensures
        after_binds(s, steps).live,
        !after_release(after_binds(s, steps)).live,
        !after_release(after_release(after_binds(s, steps))).live,
        after_release(after_binds(s, steps)).bindings.is_empty(),
{
    lemma_binds_keep_context(s, steps);
}

/// The kinds to bind, in binding order, for the peripherals an embedding
/// application offers: GPIO, then SPI, then I2C, then UART, each only if
/// offered.
pub open spec fn offered_order(gpio: bool, spi: bool, i2c: bool, uart: bool) -> Seq<Peripheral> {
    (if gpio { seq![Peripheral::Gpio] } else { Seq::empty() })
        + (if spi { seq![Peripheral::Spi] } else { Seq::empty() })
        + (if i2c { seq![Peripheral::I2c] } else { Seq::empty() })
        + (if uart { seq![Peripheral::Uart] } else { Seq::empty() })
}

/// The kinds to bind at construction, in order, given which peripherals are
/// offered. Construction binds them one by one and stops at the first
/// failure.
pub fn binding_order(gpio: bool, spi: bool, i2c: bool, uart: bool) -> (r: Vec<Peripheral>)
    ensures
        r@ == offered_order(gpio, spi, i2c, uart),
{
    let mut r: Vec<Peripheral> = Vec::new();
    if gpio {
        r.push(Peripheral::Gpio);
    }
    if spi {
        r.push(Peripheral::Spi);
    }
    if i2c {
        r.push(Peripheral::I2c);
    }
    if uart {
        r.push(Peripheral::Uart);
    }
    assert(r@ =~= offered_order(gpio, spi, i2c, uart));
    r
}

/// One runtime: the task it was created for, whether its interpreter
/// context is held, and at most one binding per peripheral kind.
pub struct Wasm3Runtime {
    task_len: u32,
    live: bool,
    gpio: Option<Binding>,
    spi: Option<Binding>,
    i2c: Option<Binding>,
    uart: Option<Binding>,
}

pub open spec fn slot(kind: Peripheral, b: Option<Binding>, m: Map<Peripheral, Binding>) -> Map<Peripheral, Binding> {
    match b {
        Some(x) => m.insert(kind, x),
        None => m,
    }
}

impl View for Wasm3Runtime {
    type V = RuntimeState;

    closed spec fn view(&self) -> RuntimeState {
        RuntimeState {
            task_len: self.task_len as nat,
            live: self.live,
            bindings: slot(
                Peripheral::Gpio,
                self.gpio,
                slot(
                    Peripheral::Spi,
                    self.spi,
                    slot(Peripheral::I2c, self.i2c, slot(Peripheral::Uart, self.uart, Map::empty())),
                ),
            ),
        }
    }
}

impl Wasm3Runtime {
    /// Takes the outcome of creating an interpreter context for a task of
    /// `task_len` bytes. Without a context there is no runtime: `Ctx`.
    /// Otherwise the runtime holds the context and no binding.
    pub fn new(task_len: u32, context_created: bool) -> (r: Result<Self, Wasm3Err>)
        ensures
            context_created <==> r is Ok,
            !context_created ==> r == Err::<Self, Wasm3Err>(Wasm3Err::Ctx),
            r matches Ok(rt) ==> rt@.live && rt@.task_len == task_len && rt@.bindings
                =~= Map::<Peripheral, Binding>::empty(),
    {
        if !context_created {
            return Err(Wasm3Err::Ctx);
        }
        Ok(Wasm3Runtime { task_len, live: true, gpio: None, spi: None, i2c: None, uart: None })
    }

    /// Records the outcome of registering `binding` for `kind`. A negative
    /// code is a binding failure carrying that code, and nothing changes;
    /// otherwise the binding replaces whatever was registered for `kind`.
    pub fn bind(&mut self, kind: Peripheral, binding: Binding, code: i32) -> (r: Result<(), Wasm3Err>)
        requires
            old(self)@.live,
        ensures
            r == bind_result(code),
            final(self)@ == after_bind(old(self)@, kind, binding, code),
    {
        if code < 0 {
            return Err(Wasm3Err::Bind(code));
        }
        match kind {
            Peripheral::Gpio => self.gpio = Some(binding),
            Peripheral::Spi => self.spi = Some(binding),
            Peripheral::I2c => self.i2c = Some(binding),
            Peripheral::Uart => self.uart = Some(binding),
        }
        proof {
            assert(self@.bindings =~= old(self)@.bindings.insert(kind, binding));
        }
        Ok(())
    }

    /// Takes the code the guest entry point returned: negative is an
    /// execution failure carrying that code. The runtime is unchanged and
    /// may run again.
    pub fn run(&self, code: i32) -> (r: Result<(), Wasm3Err>)
        requires
            self@.live,
        ensures
            r == run_result(code),
    {
        if code < 0 {
            Err(Wasm3Err::Exec(code))
        } else {
            Ok(())
        }
    }

    /// Gives up the context: returns whether it was still held, and so must
    /// be destroyed now by the caller. Every binding goes with it.
    pub fn release(&mut self) -> (r: bool)
        ensures
            r == old(self)@.live,
            final(self)@ == after_release(old(self)@),
    {
        let was_live = self.live;
        self.live = false;
        self.gpio = None;
        self.spi = None;
        self.i2c = None;
        self.uart = None;
        proof {
            assert(self@.bindings =~= Map::<Peripheral, Binding>::empty());
        }
        was_live
    }

    /// Whether the runtime still holds its context.
    pub fn is_live(&self) -> (r: bool)
        ensures
            r == self@.live,
    {
        self.live
    }

    /// The binding registered for `kind`, if any.
    pub fn binding(&self, kind: Peripheral) -> (r: Option<Binding>)
        ensures
            r == (if self@.bindings.contains_key(kind) {
                Some(self@.bindings[kind])
            } else {
                None::<Binding>
            }),
    {
        match kind {
            Peripheral::Gpio => self.gpio,
            Peripheral::Spi => self.spi,
            Peripheral::I2c => self.i2c,
            Peripheral::Uart => self.uart,
        }
    }

    /// Length in bytes of the task the runtime was created for.
    pub fn task_len(&self) -> (r: u32)
        ensures
            r == self@.task_len,
    {
        self.task_len
    }
}

} // verus!
