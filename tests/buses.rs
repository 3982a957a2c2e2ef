use wasm_embedded_rt_wasm3::i2c::{i2c_deinit, i2c_init, i2c_read, i2c_write, i2c_write_read};
use wasm_embedded_rt_wasm3::spi::{spi_deinit, spi_init, spi_read, spi_transfer, spi_transfer_inplace, spi_write};
use wasm_embedded_rt_wasm3::uart::{uart_deinit, uart_init, uart_read, uart_write};
use wasm_embedded_spec::i2c::I2c;
use wasm_embedded_spec::spi::Spi;
use wasm_embedded_spec::uart::Uart;
use wasm_embedded_spec::Error;

/// A capability stand-in that records every call and the exact buffer
/// lengths it was handed, and fills read buffers with 0xAB.
struct Recorder {
    fail: bool,
    calls: Vec<String>,
    lens: Vec<usize>,
    written: Vec<u8>,
}

impl Recorder {
    fn new(fail: bool) -> Self {
        Recorder { fail, calls: Vec::new(), lens: Vec::new(), written: Vec::new() }
    }

    fn done(&mut self, name: &str) -> Result<(), Error> {
        self.calls.push(name.to_string());
        if self.fail { Err(Error::Failed) } else { Ok(()) }
    }

    fn fill(&mut self, buff: &mut [u8]) {
        self.lens.push(buff.len());
        for b in buff.iter_mut() {
            *b = 0xAB;
        }
    }

    fn take(&mut self, data: &[u8]) {
        self.lens.push(data.len());
        self.written.extend_from_slice(data);
    }
}

impl I2c for Recorder {
    fn init(&mut self, dev: u32, baud: u32, sda: i32, sck: i32) -> Result<i32, Error> {
        self.calls.push(format!("init {} {} {} {}", dev, baud, sda, sck));
        if self.fail { Err(Error::NoDevice) } else { Ok(5) }
    }
    fn deinit(&mut self, handle: i32) -> Result<(), Error> {
        self.done(&format!("deinit {}", handle))
    }
    fn write(&mut self, handle: i32, addr: u16, data: &[u8]) -> Result<(), Error> {
        self.take(data);
        self.done(&format!("write {} {}", handle, addr))
    }
    fn read(&mut self, handle: i32, addr: u16, buff: &mut [u8]) -> Result<(), Error> {
        self.fill(buff);
        self.done(&format!("read {} {}", handle, addr))
    }
    fn write_read(&mut self, handle: i32, addr: u16, data: &[u8], buff: &mut [u8]) -> Result<(), Error> {
        self.take(data);
        self.fill(buff);
        self.done(&format!("write_read {} {}", handle, addr))
    }
}

impl Spi for Recorder {
    fn init(&mut self, dev: u32, baud: u32, mosi: i32, miso: i32, sck: i32, cs: i32) -> Result<i32, Error> {
        self.calls.push(format!("init {} {} {} {} {} {}", dev, baud, mosi, miso, sck, cs));
        if self.fail { Err(Error::NoDevice) } else { Ok(6) }
    }
    fn deinit(&mut self, handle: i32) -> Result<(), Error> {
        self.done(&format!("deinit {}", handle))
    }
    fn read<'a>(&mut self, handle: i32, data: &mut [u8]) -> Result<(), Error> {
        self.fill(data);
        self.done(&format!("read {}", handle))
    }
    fn write<'a>(&mut self, handle: i32, data: &[u8]) -> Result<(), Error> {
        self.take(data);
        self.done(&format!("write {}", handle))
    }
    fn transfer<'a>(&mut self, handle: i32, read: &mut [u8], write: &[u8]) -> Result<(), Error> {
        self.take(write);
        self.fill(read);
        self.done(&format!("transfer {}", handle))
    }
    fn transfer_inplace<'a>(&mut self, handle: i32, data: &mut [u8]) -> Result<(), Error> {
        self.take(data);
        self.fill(data);
        self.done(&format!("transfer_inplace {}", handle))
    }
}

impl Uart for Recorder {
    fn init(&mut self, dev: u32, baud: u32, tx: i32, rx: i32) -> Result<i32, Error> {
        self.calls.push(format!("init {} {} {} {}", dev, baud, tx, rx));
        if self.fail { Err(Error::NoDevice) } else { Ok(7) }
    }
    fn deinit(&mut self, handle: i32) -> Result<(), Error> {
        self.done(&format!("deinit {}", handle))
    }
    fn write(&mut self, handle: i32, flags: u32, data: &[u8]) -> Result<(), Error> {
        self.take(data);
        self.done(&format!("write {} {}", handle, flags))
    }
    fn read(&mut self, handle: i32, flags: u32, buff: &mut [u8]) -> Result<(), Error> {
        self.fill(buff);
        self.done(&format!("read {} {}", handle, flags))
    }
}

#[test]
fn i2c_trampolines_succeed() {
    let mut dev = Recorder::new(false);
    assert_eq!(i2c_init(&mut dev, 1, 100_000, 4, 5), 5);
    let mut mem = [0u8; 8];
    assert_eq!(i2c_read(&mut dev, 5, 0x40, &mut mem[2..5]), 0);
    assert_eq!(mem, [0, 0, 0xAB, 0xAB, 0xAB, 0, 0, 0]);
    assert_eq!(i2c_write(&mut dev, 5, 0x41, &[1, 2]), 0);
    let mut buff = [0u8; 4];
    assert_eq!(i2c_write_read(&mut dev, 5, 0x42, &[9], &mut buff), 0);
    assert_eq!(buff, [0xAB; 4]);
    assert_eq!(i2c_deinit(&mut dev, 5), 0);
    assert_eq!(dev.lens, vec![3, 2, 1, 4]);
    assert_eq!(dev.written, vec![1, 2, 9]);
    assert_eq!(
        dev.calls,
        vec!["init 1 100000 4 5", "read 5 64", "write 5 65", "write_read 5 66", "deinit 5"]
    );
}

#[test]
fn i2c_trampolines_fail() {
    let mut dev = Recorder::new(true);
    let mut buff = [0u8; 2];
    assert_eq!(I2c::init(&mut Recorder::new(true), 0, 0, 0, 0), Err(Error::NoDevice));
    assert_eq!(i2c_init(&mut dev, 1, 100_000, 4, 5), -1);
    assert_eq!(i2c_read(&mut dev, 5, 0x40, &mut buff), -1);
    assert_eq!(i2c_write(&mut dev, 5, 0x40, &buff), -1);
    assert_eq!(i2c_write_read(&mut dev, 5, 0x40, &[1], &mut buff), -1);
    assert_eq!(i2c_deinit(&mut dev, 5), -1);
    assert_eq!(dev.calls.len(), 5);
}

#[test]
fn spi_trampolines_succeed() {
    let mut dev = Recorder::new(false);
    assert_eq!(spi_init(&mut dev, 0, 1_000_000, 1, 2, 3, 4), 6);
    let mut mem = [0u8; 6];
    assert_eq!(spi_read(&mut dev, 6, &mut mem[1..3]), 0);
    assert_eq!(mem, [0, 0xAB, 0xAB, 0, 0, 0]);
    assert_eq!(spi_write(&mut dev, 6, &[7, 8, 9]), 0);
    let mut rd = [0u8; 2];
    assert_eq!(spi_transfer(&mut dev, 6, &mut rd, &[5, 6]), 0);
    assert_eq!(rd, [0xAB, 0xAB]);
    let mut io = [1u8, 2, 3, 4];
    assert_eq!(spi_transfer_inplace(&mut dev, 6, &mut io), 0);
    assert_eq!(io, [0xAB; 4]);
    assert_eq!(spi_deinit(&mut dev, 6), 0);
    assert_eq!(dev.lens, vec![2, 3, 2, 2, 4, 4]);
    assert_eq!(dev.written, vec![7, 8, 9, 5, 6, 1, 2, 3, 4]);
    assert_eq!(dev.calls.len(), 6);
}

#[test]
fn spi_trampolines_fail() {
    let mut dev = Recorder::new(true);
    let mut buff = [0u8; 2];
    assert_eq!(spi_init(&mut dev, 0, 1_000_000, 1, 2, 3, 4), -1);
    assert_eq!(spi_read(&mut dev, 6, &mut buff), -1);
    assert_eq!(spi_write(&mut dev, 6, &[1]), -1);
    assert_eq!(spi_transfer(&mut dev, 6, &mut buff, &[1, 2]), -1);
    assert_eq!(spi_transfer_inplace(&mut dev, 6, &mut buff), -1);
    assert_eq!(spi_deinit(&mut dev, 6), -1);
    assert_eq!(dev.calls.len(), 6);
}

#[test]
fn uart_trampolines_succeed() {
    let mut dev = Recorder::new(false);
    assert_eq!(uart_init(&mut dev, 2, 115_200, 10, 11), 7);
    let mut mem = [0u8; 5];
    assert_eq!(uart_read(&mut dev, 7, 1, &mut mem[..4]), 0);
    assert_eq!(mem, [0xAB, 0xAB, 0xAB, 0xAB, 0]);
    assert_eq!(uart_write(&mut dev, 7, 0, b"hi"), 0);
    assert_eq!(uart_deinit(&mut dev, 7), 0);
    assert_eq!(dev.lens, vec![4, 2]);
    assert_eq!(dev.written, b"hi".to_vec());
    assert_eq!(dev.calls, vec!["init 2 115200 10 11", "read 7 1", "write 7 0", "deinit 7"]);
}

#[test]
fn uart_trampolines_fail() {
    let mut dev = Recorder::new(true);
    let mut buff = [0u8; 3];
    assert_eq!(uart_init(&mut dev, 2, 115_200, 10, 11), -1);
    assert_eq!(uart_read(&mut dev, 7, 0, &mut buff), -1);
    assert_eq!(buff, [0xAB; 3]);
    assert_eq!(uart_write(&mut dev, 7, 0, &buff), -1);
    assert_eq!(uart_deinit(&mut dev, 7), -1);
    assert_eq!(dev.calls.len(), 4);
}

#[test]
fn empty_buffers_pass_through() {
    let mut dev = Recorder::new(false);
    let mut empty: [u8; 0] = [];
    assert_eq!(i2c_read(&mut dev, 1, 0, &mut empty), 0);
    assert_eq!(spi_write(&mut dev, 1, &[]), 0);
    assert_eq!(uart_read(&mut dev, 1, 0, &mut empty), 0);
    assert_eq!(dev.lens, vec![0, 0, 0]);
}
