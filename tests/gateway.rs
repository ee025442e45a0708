use embedded_hal::digital::PinState;
use wasmtime_embedded::{
    Access, Backend, BufferDescriptor, Context, ErrorCode, Families, Family, GatewayError, Gpio,
    I2c, Mode, Region, Spi, Uart, Value, is_output, resolve, resolve_pair, translate,
};

/// A board stub: hands out handles from a counter, records every call it
/// gets, and answers in a way each test can predict.
struct Stub {
    families: Families,
    calls: Vec<String>,
    next: i32,
    pins: Vec<(i32, bool, PinState)>,
    open: Vec<i32>,
    forced_handle: Option<i32>,
}

impl Stub {
    fn new(families: Families) -> Stub {
        Stub { families, calls: Vec::new(), next: 0, pins: Vec::new(), open: Vec::new(), forced_handle: None }
    }

    fn all() -> Stub {
        Stub::new(Families { gpio: true, spi: true, i2c: true, uart: true })
    }

    fn gpio_only() -> Stub {
        Stub::new(Families { gpio: true, spi: false, i2c: false, uart: false })
    }

    fn hand_out(&mut self) -> i32 {
        if let Some(h) = self.forced_handle {
            return h;
        }
        let h = self.next;
        self.next += 1;
        self.open.push(h);
        h
    }

    fn close(&mut self, handle: i32) -> Result<(), ErrorCode> {
        match self.open.iter().position(|&h| h == handle) {
            Some(i) => {
                self.open.remove(i);
                Ok(())
            }
            None => Err(ErrorCode::InvalidArgument),
        }
    }
}

impl Gpio for Stub {
    fn init(&mut self, port: i32, pin: i32, output: bool) -> Result<i32, ErrorCode> {
        self.calls.push(format!("gpio.init {} {} {}", port, pin, output));
        let h = self.hand_out();
        self.pins.push((h, output, PinState::Low));
        Ok(h)
    }

    fn deinit(&mut self, handle: i32) -> Result<(), ErrorCode> {
        self.calls.push(format!("gpio.deinit {}", handle));
        self.close(handle)
    }

    fn set(&mut self, handle: i32, state: PinState) -> Result<(), ErrorCode> {
        self.calls.push(format!("gpio.set {} {:?}", handle, state));
        let pin = self.pins.iter_mut().find(|p| p.0 == handle).ok_or(ErrorCode::NoDevice)?;
        if !pin.1 {
            return Err(ErrorCode::Unsupported);
        }
        pin.2 = state;
        Ok(())
    }

    fn get(&mut self, handle: i32) -> Result<PinState, ErrorCode> {
        self.calls.push(format!("gpio.get {}", handle));
        let pin = self.pins.iter().find(|p| p.0 == handle).ok_or(ErrorCode::NoDevice)?;
        if pin.1 {
            return Err(ErrorCode::Unsupported);
        }
        Ok(pin.2)
    }
}

impl Spi for Stub {
    fn init(&mut self, dev: u32, baud: u32, mosi: i32, miso: i32, sck: i32, cs: i32) -> Result<i32, ErrorCode> {
        self.calls.push(format!("spi.init {} {} {} {} {} {}", dev, baud, mosi, miso, sck, cs));
        Ok(self.hand_out())
    }

    fn deinit(&mut self, handle: i32) -> Result<(), ErrorCode> {
        self.calls.push(format!("spi.deinit {}", handle));
        self.close(handle)
    }

    fn read(&mut self, handle: i32, data: &mut [u8]) -> Result<(), ErrorCode> {
        self.calls.push(format!("spi.read {} {}", handle, data.len()));
        for (i, b) in data.iter_mut().enumerate() {
            *b = 0xa0 + i as u8;
        }
        Ok(())
    }

    fn write(&mut self, handle: i32, data: &[u8]) -> Result<(), ErrorCode> {
        self.calls.push(format!("spi.write {} {:?}", handle, data));
        Ok(())
    }

    fn transfer(&mut self, handle: i32, read: &mut [u8], write: &[u8]) -> Result<(), ErrorCode> {
        self.calls.push(format!("spi.transfer {} {:?}", handle, write));
        for (r, w) in read.iter_mut().zip(write.iter()) {
            *r = !*w;
        }
        Ok(())
    }

    fn transfer_inplace(&mut self, handle: i32, data: &mut [u8]) -> Result<(), ErrorCode> {
        // An echo: every byte clocked out comes back in.
        self.calls.push(format!("spi.transfer_inplace {} {:?}", handle, data));
        Ok(())
    }
}

impl I2c for Stub {
    fn init(&mut self, dev: u32, baud: u32, sda: i32, scl: i32) -> Result<i32, ErrorCode> {
        self.calls.push(format!("i2c.init {} {} {} {}", dev, baud, sda, scl));
        Ok(self.hand_out())
    }

    fn deinit(&mut self, handle: i32) -> Result<(), ErrorCode> {
        self.calls.push(format!("i2c.deinit {}", handle));
        self.close(handle)
    }

    fn write(&mut self, handle: i32, addr: u16, data: &[u8]) -> Result<(), ErrorCode> {
        self.calls.push(format!("i2c.write {} {:#x} {:?}", handle, addr, data));
        Ok(())
    }

    fn read(&mut self, handle: i32, addr: u16, buff: &mut [u8]) -> Result<(), ErrorCode> {
        self.calls.push(format!("i2c.read {} {:#x} {}", handle, addr, buff.len()));
        if addr > 0x7f {
            return Err(ErrorCode::NoDevice);
        }
        buff.fill(0x5a);
        Ok(())
    }

    fn write_read(&mut self, handle: i32, addr: u16, data: &[u8], buff: &mut [u8]) -> Result<(), ErrorCode> {
        // Echoes the bytes written, then pads with zeros.
        self.calls.push(format!("i2c.write {} {:#x} {:?}", handle, addr, data));
        self.calls.push(format!("i2c.read {} {:#x} {}", handle, addr, buff.len()));
        for (i, b) in buff.iter_mut().enumerate() {
            *b = if i < data.len() { data[i] } else { 0 };
        }
        Ok(())
    }
}

impl Uart for Stub {
    fn init(&mut self, dev: u32, baud: u32, tx: i32, rx: i32) -> Result<i32, ErrorCode> {
        self.calls.push(format!("uart.init {} {} {} {}", dev, baud, tx, rx));
        Ok(self.hand_out())
    }

    fn deinit(&mut self, handle: i32) -> Result<(), ErrorCode> {
        self.calls.push(format!("uart.deinit {}", handle));
        self.close(handle)
    }

    fn write(&mut self, handle: i32, flags: u32, data: &[u8]) -> Result<(), ErrorCode> {
        self.calls.push(format!("uart.write {} {} {:?}", handle, flags, data));
        Ok(())
    }

    fn read(&mut self, handle: i32, flags: u32, buff: &mut [u8]) -> Result<(), ErrorCode> {
        self.calls.push(format!("uart.read {} {} {}", handle, flags, buff.len()));
        buff.fill(b'u');
        Ok(())
    }
}

impl Backend for Stub {
    fn families(&self) -> Families {
        self.families
    }
}

fn ro(ptr: u32, len: u32) -> BufferDescriptor {
    BufferDescriptor { ptr, len, access: Access::Read }
}

fn wo(ptr: u32, len: u32) -> BufferDescriptor {
    BufferDescriptor { ptr, len, access: Access::Write }
}

fn rw(ptr: u32, len: u32) -> BufferDescriptor {
    BufferDescriptor { ptr, len, access: Access::ReadWrite }
}

#[test]
fn gpio_output_scenario() {
    let mut ctx = Context::new(Stub::all());
    let h = ctx.gpio_init(0, 5, Mode::Output).unwrap();
    assert!(h >= 0);
    assert!(ctx.is_open(Family::Gpio, h));
    assert_eq!(ctx.gpio_set(h, Value::High), Ok(()));
    assert_eq!(ctx.backend().pins[0], (h, true, PinState::High));
    assert_eq!(ctx.gpio_get(h), Err(ErrorCode::Unsupported));
    assert_eq!(ctx.gpio_deinit(h), Ok(()));
    assert!(!ctx.is_open(Family::Gpio, h));
    let before = ctx.backend().calls.len();
    assert_eq!(ctx.gpio_set(h, Value::High), Err(ErrorCode::InvalidArgument));
    assert_eq!(ctx.backend().calls.len(), before);
    assert_eq!(
        ctx.backend().calls,
        vec!["gpio.init 0 5 true", "gpio.set 0 High", "gpio.get 0", "gpio.deinit 0"]
    );
}

#[test]
fn gpio_input_reads_level() {
    let mut ctx = Context::new(Stub::all());
    let h = ctx.gpio_init(1, 2, Mode::Input).unwrap();
    assert_eq!(ctx.gpio_get(h), Ok(Value::Low));
    assert_eq!(ctx.backend().calls[0], "gpio.init 1 2 false");
    assert_eq!(ctx.gpio_set(h, Value::Low), Err(ErrorCode::Unsupported));
}

#[test]
fn i2c_write_read_echo_padding() {
    let mut ctx = Context::new(Stub::all());
    let h = ctx.i2c_init(0, 100_000, -1, -1).unwrap();
    let mut mem = vec![0xffu8; 16];
    mem[0] = 0x01;
    assert_eq!(ctx.i2c_write_read(&mut mem, h, 0x50, ro(0, 1), wo(8, 4)), Ok(()));
    assert_eq!(&mem[8..12], &[0x01, 0x00, 0x00, 0x00]);
    assert_eq!(&mem[12..], &[0xff; 4]);
    assert_eq!(&mem[1..8], &[0xff; 7]);
}

#[test]
fn write_read_is_one_call_write_first() {
    let mut ctx = Context::new(Stub::all());
    let h = ctx.i2c_init(0, 400_000, 4, 5).unwrap();
    let mut mem = vec![7u8, 8, 0, 0, 0];
    assert_eq!(ctx.i2c_write_read(&mut mem, h, 0x20, ro(0, 2), wo(2, 3)), Ok(()));
    assert_eq!(
        ctx.backend().calls[1..],
        ["i2c.write 0 0x20 [7, 8]", "i2c.read 0 0x20 3"]
    );
    assert_eq!(mem, vec![7, 8, 7, 8, 0]);
}

#[test]
fn spi_on_gpio_only_backend_is_unsupported() {
    let mut ctx = Context::new(Stub::gpio_only());
    let mut mem = vec![0u8; 8];
    assert_eq!(ctx.spi_read(&mut mem, 0, wo(0, 4)), Err(ErrorCode::Unsupported));
    assert_eq!(ctx.spi_init(0, 1_000_000, -1, -1, -1, -1), Err(ErrorCode::Unsupported));
    assert_eq!(ctx.i2c_write(&mem, 0, 0x50, ro(0, 1)), Err(ErrorCode::Unsupported));
    assert_eq!(ctx.uart_init(0, 9600, -1, -1), Err(ErrorCode::Unsupported));
    assert!(ctx.backend().calls.is_empty());
    assert_eq!(mem, vec![0u8; 8]);
    assert_eq!(ctx.families(), Families { gpio: true, spi: false, i2c: false, uart: false });
}

#[test]
fn spi_transfer_inplace_echo_round_trip() {
    let mut ctx = Context::new(Stub::all());
    let h = ctx.spi_init(1, 8_000_000, 10, 11, 12, -1).unwrap();
    let mut mem: Vec<u8> = (0..32).collect();
    let original = mem.clone();
    assert_eq!(ctx.spi_transfer_inplace(&mut mem, h, rw(4, 16)), Ok(()));
    assert_eq!(mem, original);
    assert_eq!(ctx.backend().calls[1], format!("spi.transfer_inplace 0 {:?}", &original[4..20]));
}

#[test]
fn spi_transfer_inplace_needs_read_write() {
    let mut ctx = Context::new(Stub::all());
    let h = ctx.spi_init(1, 8_000_000, -1, -1, -1, -1).unwrap();
    let mut mem = vec![0u8; 8];
    assert_eq!(ctx.spi_transfer_inplace(&mut mem, h, ro(0, 4)), Err(ErrorCode::InvalidArgument));
    assert_eq!(ctx.spi_transfer_inplace(&mut mem, h, wo(0, 4)), Err(ErrorCode::InvalidArgument));
    assert_eq!(ctx.backend().calls.len(), 1);
}

#[test]
fn spi_read_fills_only_its_region() {
    let mut ctx = Context::new(Stub::all());
    let h = ctx.spi_init(0, 1, -1, -1, -1, -1).unwrap();
    let mut mem = vec![1u8; 8];
    assert_eq!(ctx.spi_read(&mut mem, h, wo(2, 3)), Ok(()));
    assert_eq!(mem, vec![1, 1, 0xa0, 0xa1, 0xa2, 1, 1, 1]);
}

#[test]
fn spi_write_passes_region_bytes() {
    let mut ctx = Context::new(Stub::all());
    let h = ctx.spi_init(0, 1, -1, -1, -1, -1).unwrap();
    let mem = vec![9u8, 8, 7, 6];
    assert_eq!(ctx.spi_write(&mem, h, ro(1, 2)), Ok(()));
    assert_eq!(ctx.backend().calls[1], "spi.write 0 [8, 7]");
    assert_eq!(ctx.spi_write(&mem, h, wo(1, 2)), Err(ErrorCode::InvalidArgument));
}

#[test]
fn spi_transfer_full_duplex() {
    let mut ctx = Context::new(Stub::all());
    let h = ctx.spi_init(0, 1, -1, -1, -1, -1).unwrap();
    let mut mem = vec![0x0fu8, 0xf0, 0, 0];
    assert_eq!(ctx.spi_transfer(&mut mem, h, wo(2, 2), ro(0, 2)), Ok(()));
    assert_eq!(mem, vec![0x0f, 0xf0, 0xf0, 0x0f]);
}

#[test]
fn spi_transfer_refuses_mismatch_and_overlap() {
    let mut ctx = Context::new(Stub::all());
    let h = ctx.spi_init(0, 1, -1, -1, -1, -1).unwrap();
    let mut mem = vec![0u8; 8];
    assert_eq!(ctx.spi_transfer(&mut mem, h, wo(4, 3), ro(0, 2)), Err(ErrorCode::InvalidArgument));
    assert_eq!(ctx.spi_transfer(&mut mem, h, wo(1, 2), ro(0, 2)), Err(ErrorCode::InvalidArgument));
    assert_eq!(ctx.backend().calls.len(), 1);
}

#[test]
fn out_of_bounds_buffer_never_reaches_backend() {
    let mut ctx = Context::new(Stub::all());
    let s = ctx.spi_init(0, 1, -1, -1, -1, -1).unwrap();
    let i = ctx.i2c_init(0, 1, -1, -1).unwrap();
    let u = ctx.uart_init(0, 1, -1, -1).unwrap();
    let mut mem = vec![0u8; 16];
    let calls = ctx.backend().calls.len();
    assert_eq!(ctx.spi_read(&mut mem, s, wo(10, 7)), Err(ErrorCode::InvalidArgument));
    assert_eq!(ctx.spi_write(&mem, s, ro(17, 0)), Err(ErrorCode::InvalidArgument));
    assert_eq!(ctx.spi_transfer_inplace(&mut mem, s, rw(u32::MAX, 2)), Err(ErrorCode::InvalidArgument));
    assert_eq!(ctx.i2c_read(&mut mem, i, 0x50, wo(0, 17)), Err(ErrorCode::InvalidArgument));
    assert_eq!(ctx.i2c_write_read(&mut mem, i, 0x50, ro(0, 1), wo(15, 2)), Err(ErrorCode::InvalidArgument));
    assert_eq!(ctx.uart_write(&mem, u, 0, ro(16, 1)), Err(ErrorCode::InvalidArgument));
    assert_eq!(ctx.uart_read(&mut mem, u, 0, wo(u32::MAX, u32::MAX)), Err(ErrorCode::InvalidArgument));
    assert_eq!(ctx.backend().calls.len(), calls);
    assert_eq!(mem, vec![0u8; 16]);
}

#[test]
fn never_opened_handles_are_refused() {
    let mut ctx = Context::new(Stub::all());
    let mut mem = vec![0u8; 4];
    assert_eq!(ctx.gpio_set(3, Value::Low), Err(ErrorCode::InvalidArgument));
    assert_eq!(ctx.gpio_get(3), Err(ErrorCode::InvalidArgument));
    assert_eq!(ctx.gpio_deinit(3), Err(ErrorCode::InvalidArgument));
    assert_eq!(ctx.spi_deinit(0), Err(ErrorCode::InvalidArgument));
    assert_eq!(ctx.spi_write(&mem, -1, ro(0, 1)), Err(ErrorCode::InvalidArgument));
    assert_eq!(ctx.spi_transfer(&mut mem, 0, wo(0, 1), ro(1, 1)), Err(ErrorCode::InvalidArgument));
    assert_eq!(ctx.i2c_read(&mut mem, 0, 0x10, wo(0, 1)), Err(ErrorCode::InvalidArgument));
    assert_eq!(ctx.uart_write(&mem, 0, 0, ro(0, 1)), Err(ErrorCode::InvalidArgument));
    assert!(ctx.backend().calls.is_empty());
}

#[test]
fn deinit_then_any_operation_fails() {
    let mut ctx = Context::new(Stub::all());
    let mut mem = vec![0u8; 4];
    let h = ctx.uart_init(2, 115_200, 1, 3).unwrap();
    assert_eq!(ctx.uart_write(&mem, h, 0, ro(0, 2)), Ok(()));
    assert_eq!(ctx.uart_deinit(h), Ok(()));
    assert_eq!(ctx.uart_write(&mem, h, 0, ro(0, 2)), Err(ErrorCode::InvalidArgument));
    assert_eq!(ctx.uart_read(&mut mem, h, 0, wo(0, 2)), Err(ErrorCode::InvalidArgument));
    let h2 = ctx.i2c_init(0, 1, -1, -1).unwrap();
    assert_eq!(ctx.i2c_deinit(h2), Ok(()));
    assert_eq!(ctx.i2c_write(&mem, h2, 0x50, ro(0, 1)), Err(ErrorCode::InvalidArgument));
    assert_eq!(ctx.i2c_write_read(&mut mem, h2, 0x50, ro(0, 1), wo(1, 1)), Err(ErrorCode::InvalidArgument));
}

#[test]
fn second_deinit_fails() {
    let mut ctx = Context::new(Stub::all());
    let h = ctx.spi_init(0, 1, -1, -1, -1, -1).unwrap();
    assert_eq!(ctx.spi_deinit(h), Ok(()));
    assert_eq!(ctx.spi_deinit(h), Err(ErrorCode::InvalidArgument));
    let g = ctx.gpio_init(0, 1, Mode::Output).unwrap();
    assert_eq!(ctx.gpio_deinit(g), Ok(()));
    assert_eq!(ctx.gpio_deinit(g), Err(ErrorCode::InvalidArgument));
    assert_eq!(ctx.backend().calls.iter().filter(|c| c.starts_with("spi.deinit")).count(), 1);
}

#[test]
fn handles_are_per_family() {
    let mut ctx = Context::new(Stub::all());
    let g = ctx.gpio_init(0, 1, Mode::Output).unwrap();
    assert!(ctx.is_open(Family::Gpio, g));
    assert!(!ctx.is_open(Family::Spi, g));
    let mem = vec![0u8; 2];
    assert_eq!(ctx.spi_write(&mem, g, ro(0, 1)), Err(ErrorCode::InvalidArgument));
}

#[test]
fn backend_handle_reuse_is_unexpected() {
    let mut stub = Stub::all();
    stub.forced_handle = Some(4);
    let mut ctx = Context::new(stub);
    assert_eq!(ctx.gpio_init(0, 1, Mode::Output), Ok(4));
    assert_eq!(ctx.gpio_init(0, 2, Mode::Output), Err(ErrorCode::Unexpected));
    assert!(ctx.is_open(Family::Gpio, 4));
}

#[test]
fn backend_negative_handle_is_unexpected() {
    let mut stub = Stub::all();
    stub.forced_handle = Some(-3);
    let mut ctx = Context::new(stub);
    assert_eq!(ctx.uart_init(0, 9600, -1, -1), Err(ErrorCode::Unexpected));
    assert!(!ctx.is_open(Family::Uart, -3));
}

#[test]
fn backend_errors_pass_through() {
    let mut ctx = Context::new(Stub::all());
    let h = ctx.i2c_init(0, 1, -1, -1).unwrap();
    let mut mem = vec![0u8; 4];
    assert_eq!(ctx.i2c_read(&mut mem, h, 0x300, wo(0, 4)), Err(ErrorCode::NoDevice));
    assert_eq!(ctx.i2c_read(&mut mem, h, 0x30, wo(0, 4)), Ok(()));
    assert_eq!(mem, vec![0x5a; 4]);
}

#[test]
fn uart_flags_pass_through_unchanged() {
    let mut ctx = Context::new(Stub::all());
    let h = ctx.uart_init(0, 9600, -1, -1).unwrap();
    let mut mem = vec![b'a', b'b', 0, 0];
    assert_eq!(ctx.uart_write(&mem, h, -1, ro(0, 2)), Ok(()));
    assert_eq!(ctx.uart_read(&mut mem, h, 7, wo(2, 2)), Ok(()));
    assert_eq!(ctx.backend().calls[1], format!("uart.write 0 {} [97, 98]", u32::MAX));
    assert_eq!(ctx.backend().calls[2], "uart.read 0 7 2");
    assert_eq!(mem, vec![b'a', b'b', b'u', b'u']);
}

#[test]
fn translate_maps_every_error() {
    assert_eq!(translate(GatewayError::OutOfBounds), ErrorCode::InvalidArgument);
    assert_eq!(translate(GatewayError::AccessDenied), ErrorCode::InvalidArgument);
    assert_eq!(translate(GatewayError::Aliased), ErrorCode::InvalidArgument);
    assert_eq!(translate(GatewayError::LengthMismatch), ErrorCode::InvalidArgument);
    assert_eq!(translate(GatewayError::HandleNotOpen), ErrorCode::InvalidArgument);
    assert_eq!(translate(GatewayError::Inconsistent), ErrorCode::Unexpected);
    assert_eq!(translate(GatewayError::FamilyUnbound), ErrorCode::Unsupported);
    assert_eq!(translate(GatewayError::Backend(ErrorCode::Failed)), ErrorCode::Failed);
    assert_eq!(translate(GatewayError::Backend(ErrorCode::NoDevice)), ErrorCode::NoDevice);
}

#[test]
fn resolve_checks_bounds_and_access() {
    assert_eq!(resolve(16, ro(4, 12), Access::Read), Ok(Region { start: 4, end: 16 }));
    assert_eq!(resolve(16, ro(16, 0), Access::Read), Ok(Region { start: 16, end: 16 }));
    assert_eq!(resolve(16, ro(4, 13), Access::Read), Err(GatewayError::OutOfBounds));
    assert_eq!(resolve(16, ro(17, 0), Access::Read), Err(GatewayError::OutOfBounds));
    assert_eq!(resolve(0, wo(u32::MAX, u32::MAX), Access::Write), Err(GatewayError::OutOfBounds));
    assert_eq!(resolve(16, ro(0, 4), Access::Write), Err(GatewayError::AccessDenied));
    assert_eq!(resolve(16, wo(0, 4), Access::ReadWrite), Err(GatewayError::AccessDenied));
    assert_eq!(resolve(16, rw(0, 4), Access::Write), Ok(Region { start: 0, end: 4 }));
}

#[test]
fn resolve_pair_refuses_overlap() {
    assert_eq!(
        resolve_pair(16, ro(0, 4), wo(4, 4)),
        Ok((Region { start: 0, end: 4 }, Region { start: 4, end: 8 }))
    );
    assert_eq!(resolve_pair(16, ro(0, 5), wo(4, 4)), Err(GatewayError::Aliased));
    assert_eq!(resolve_pair(16, ro(8, 4), wo(6, 4)), Err(GatewayError::Aliased));
    assert_eq!(resolve_pair(16, wo(0, 4), wo(8, 4)), Err(GatewayError::AccessDenied));
    assert_eq!(resolve_pair(16, ro(0, 4), wo(14, 4)), Err(GatewayError::OutOfBounds));
}

#[test]
fn gpio_mode_reaches_driver() {
    assert!(is_output(Mode::Output));
    assert!(!is_output(Mode::Input));
    let mut ctx = Context::new(Stub::all());
    let a = ctx.gpio_init(0, 1, Mode::Input).unwrap();
    let b = ctx.gpio_init(0, 2, Mode::Output).unwrap();
    assert_eq!(ctx.backend().pins, vec![(a, false, PinState::Low), (b, true, PinState::Low)]);
}
