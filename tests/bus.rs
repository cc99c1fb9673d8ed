use baryuxn::UxnMachineState;
use chrono::Datelike;
use embedded_varvara::clock::{clock_port, ClockReading};
use embedded_varvara::console::{Console, Logged, RawSink, RawSource};
use embedded_varvara::memory::{BufferSink, BufferSource, Exhausted, RecordingSurface};
use embedded_varvara::screen::{ColourPalette, LoggedSurface, RawSurface, Rect};
use embedded_varvara::VarvaraDeviceBus;

type Bus = VarvaraDeviceBus<BufferSink, BufferSource, BufferSink, RecordingSurface>;

fn bus(width: u32, height: u32) -> Bus {
    let console = Console::new(
        BufferSink::with_limit(64),
        BufferSource::new(vec![1, 2, 3]),
        BufferSink::with_limit(64),
    );
    VarvaraDeviceBus::new(console, RecordingSurface::new(width, height, 64))
}

fn fills(bus: &Bus) -> Vec<(Rect, u8)> {
    bus.screen_device().as_ref().unwrap().surface().log().clone()
}

fn cursor(bus: &Bus) -> (u16, u16) {
    let screen = bus.screen_device().as_ref().unwrap();
    (screen.current_x(), screen.current_y())
}

fn set_cursor(bus: &mut Bus, m: &mut UxnMachineState, x: u16, y: u16) {
    bus.write(m, 0x28, (x >> 8) as u8);
    bus.write(m, 0x29, (x & 0xff) as u8);
    bus.write(m, 0x2a, (y >> 8) as u8);
    bus.write(m, 0x2b, (y & 0xff) as u8);
}

#[test]
fn plain_ports_read_back_what_was_written() {
    let mut b = bus(320, 240);
    let mut m = UxnMachineState::new();
    for address in [0x00u8, 0x0e, 0x17, 0x1f, 0x26, 0x2e, 0x31, 0x80, 0xa5, 0xc3, 0xff] {
        b.write(&mut m, address, 0x5a);
        assert_eq!(b.read(&m, address), 0x5a, "address {address:#04x}");
    }
}

#[test]
fn stack_pointer_ports_go_to_the_machine() {
    let mut b = bus(320, 240);
    let mut m = UxnMachineState::new();
    b.write(&mut m, 0x04, 0x12);
    b.write(&mut m, 0x05, 0x34);
    assert_eq!(m.work_stack.pointer, 0x12);
    assert_eq!(m.return_stack.pointer, 0x34);
    m.work_stack.pointer = 0x77;
    assert_eq!(b.read(&m, 0x04), 0x77);
    assert_eq!(b.read(&m, 0x05), 0x34);
}

#[test]
fn screen_size_ports_show_the_surface() {
    let mut b = bus(0x0140, 0x00f0);
    let mut m = UxnMachineState::new();
    b.write(&mut m, 0x22, 0xff);
    assert_eq!(b.read(&m, 0x22), 0x01);
    assert_eq!(b.read(&m, 0x23), 0x40);
    assert_eq!(b.read(&m, 0x24), 0x00);
    assert_eq!(b.read(&m, 0x25), 0xf0);
}

#[test]
fn cursor_is_joined_from_its_two_halves() {
    let mut b = bus(320, 240);
    let mut m = UxnMachineState::new();
    b.write(&mut m, 0x28, 0x01);
    assert_eq!(cursor(&b).0, 0x0100);
    b.write(&mut m, 0x29, 0x23);
    assert_eq!(cursor(&b).0, 0x0123);
    assert_eq!(b.read(&m, 0x28), 0x01);
    assert_eq!(b.read(&m, 0x29), 0x23);
    b.write(&mut m, 0x2c, 0xab);
    b.write(&mut m, 0x2d, 0xcd);
    let screen = b.screen_device().as_ref().unwrap();
    assert_eq!(screen.current_sprite_address(), 0xabcd);
    assert_eq!(b.read(&m, 0x2c), 0xab);
    assert_eq!(b.read(&m, 0x2d), 0xcd);
}

#[test]
fn colour_palette_decodes_the_packed_bytes() {
    let mut b = bus(320, 240);
    let mut m = UxnMachineState::new();
    for (address, byte) in [(0x08u8, 0x12u8), (0x09, 0x34), (0x0a, 0x56), (0x0b, 0x78), (0x0c, 0x9a)] {
        b.write(&mut m, address, byte);
    }
    let p = b.colour_palette();
    assert_eq!(p.colour0, (0x12 << 1) | (0x34 >> 1));
    assert_eq!(p.colour0, 0x3e);
    assert_eq!(p.colour1, 0x56);
    assert_eq!(p.colour2, 0xbc);
    assert_eq!(p.colour3, 0x9a);
}

#[test]
fn colour_palette_stays_within_twelve_bits() {
    let p = ColourPalette::decode(0xff, 0xff, 0xff, 0xff, 0xff);
    assert_eq!((p.colour0, p.colour1, p.colour2, p.colour3), (0x1ff, 0xff, 0x1ff, 0xff));
}

#[test]
fn halt_byte_sets_and_clears_the_request() {
    let mut b = bus(320, 240);
    let mut m = UxnMachineState::new();
    assert!(!b.should_quit());
    b.write(&mut m, 0x0f, 0x01);
    assert!(b.should_quit());
    b.write(&mut m, 0x0f, 0x00);
    assert!(!b.should_quit());
}

#[test]
fn console_ports_forward_one_byte_each() {
    let mut b = bus(320, 240);
    let mut m = UxnMachineState::new();
    b.write(&mut m, 0x18, b'h');
    b.write(&mut m, 0x18, b'i');
    b.write(&mut m, 0x19, b'!');
    b.write(&mut m, 0x1a, b'x');
    let console = b.console_device().as_ref().unwrap();
    assert_eq!(console.output_stream().contents(), &vec![b'h', b'i']);
    assert_eq!(console.error_stream().contents(), &vec![b'!']);
}

#[test]
fn console_write_to_a_full_stream_fails_and_the_bus_goes_on() {
    let console = Console::new(BufferSink::with_limit(1), BufferSource::new(vec![]), BufferSink::with_limit(0));
    let mut b: Bus = VarvaraDeviceBus::new(console, RecordingSurface::new(8, 8, 8));
    let mut m = UxnMachineState::new();
    b.write(&mut m, 0x18, 7);
    b.write(&mut m, 0x18, 8);
    b.write(&mut m, 0x19, 9);
    assert_eq!(b.read(&m, 0x18), 8);
    let console = b.console_device().as_ref().unwrap();
    assert_eq!(console.output_stream().contents(), &vec![7]);
    assert!(console.error_stream().contents().is_empty());
}

#[test]
fn pixel_off_the_right_edge_draws_nothing() {
    let mut b = bus(16, 8);
    let mut m = UxnMachineState::new();
    b.write(&mut m, 0x26, 0x03);
    set_cursor(&mut b, &mut m, 16, 2);
    b.write(&mut m, 0x2e, 0x01);
    assert!(fills(&b).is_empty());
    assert_eq!(cursor(&b), (16, 2));
    set_cursor(&mut b, &mut m, 3, 8);
    b.write(&mut m, 0x2e, 0x01);
    assert!(fills(&b).is_empty());
    assert_eq!(cursor(&b), (3, 8));
}

#[test]
fn pixel_with_auto_x_advances_only_x() {
    let mut b = bus(16, 8);
    let mut m = UxnMachineState::new();
    b.write(&mut m, 0x26, 0x01);
    set_cursor(&mut b, &mut m, 4, 5);
    b.write(&mut m, 0x2e, 0x02);
    assert_eq!(fills(&b), vec![(Rect { x: 4, y: 5, width: 1, height: 1 }, 2)]);
    assert_eq!(cursor(&b), (5, 5));
    assert_eq!(b.read(&m, 0x29), 5);
}

#[test]
fn pixel_with_auto_y_advances_only_y() {
    let mut b = bus(16, 8);
    let mut m = UxnMachineState::new();
    b.write(&mut m, 0x26, 0x02);
    set_cursor(&mut b, &mut m, 4, 5);
    b.write(&mut m, 0x2e, 0x43);
    assert_eq!(fills(&b), vec![(Rect { x: 4, y: 5, width: 1, height: 1 }, 3)]);
    assert_eq!(cursor(&b), (4, 6));
}

#[test]
fn failed_pixel_leaves_the_cursor() {
    let console = Console::new(BufferSink::with_limit(1), BufferSource::new(vec![]), BufferSink::with_limit(1));
    let mut b: Bus = VarvaraDeviceBus::new(console, RecordingSurface::new(16, 8, 0));
    let mut m = UxnMachineState::new();
    b.write(&mut m, 0x26, 0x03);
    set_cursor(&mut b, &mut m, 4, 5);
    b.write(&mut m, 0x2e, 0x01);
    assert!(fills(&b).is_empty());
    assert_eq!(cursor(&b), (4, 5));
}

#[test]
fn fill_without_flip_covers_to_the_far_edges() {
    let mut b = bus(16, 8);
    let mut m = UxnMachineState::new();
    set_cursor(&mut b, &mut m, 4, 3);
    b.write(&mut m, 0x2e, 0x81);
    assert_eq!(fills(&b), vec![(Rect { x: 4, y: 3, width: 12, height: 5 }, 1)]);
    assert_eq!(cursor(&b), (4, 3));
}

#[test]
fn fill_with_flip_x_covers_from_the_left_edge() {
    let mut b = bus(16, 8);
    let mut m = UxnMachineState::new();
    set_cursor(&mut b, &mut m, 4, 3);
    b.write(&mut m, 0x2e, 0x92);
    assert_eq!(fills(&b), vec![(Rect { x: 0, y: 3, width: 4, height: 5 }, 2)]);
}

#[test]
fn fill_with_both_flips_covers_from_the_origin() {
    let mut b = bus(16, 8);
    let mut m = UxnMachineState::new();
    set_cursor(&mut b, &mut m, 4, 3);
    b.write(&mut m, 0x2e, 0xf3);
    assert_eq!(fills(&b), vec![(Rect { x: 0, y: 0, width: 4, height: 3 }, 3)]);
}

#[test]
fn fill_past_the_edge_wraps_its_width() {
    let mut b = bus(16, 8);
    let mut m = UxnMachineState::new();
    set_cursor(&mut b, &mut m, 20, 8);
    b.write(&mut m, 0x2e, 0x80);
    assert_eq!(fills(&b), vec![(Rect { x: 20, y: 8, width: 0xfffc, height: 0 }, 0)]);
}

#[test]
fn auto_byte_sets_flags_and_length() {
    let mut b = bus(16, 8);
    let mut m = UxnMachineState::new();
    b.write(&mut m, 0x26, 0xa5);
    let regs = b.screen_device().as_ref().unwrap().registers();
    assert!(regs.auto_x);
    assert!(!regs.auto_y);
    assert!(regs.auto_sprite);
    assert_eq!(regs.length, 0x0a);
}

#[test]
fn bus_without_devices_is_a_register_file() {
    let mut b: Bus = VarvaraDeviceBus::with_devices(None, None, false);
    let mut m = UxnMachineState::new();
    for address in [0x18u8, 0x22, 0x28, 0x2e, 0xc0] {
        b.write(&mut m, address, 0x42);
        assert_eq!(b.read(&m, address), 0x42);
    }
    assert!(b.screen_device().is_none());
}

#[test]
fn clock_page_shows_the_local_date() {
    let mut b = bus(16, 8);
    let mut m = UxnMachineState::new();
    b.write(&mut m, 0xc2, 0xee);
    b.write(&mut m, 0xca, 0x33);
    b.set_clock(true);
    let year = chrono::Local::now().year() as u16;
    let high = b.read(&m, 0xc0);
    let low = b.read(&m, 0xc1);
    assert_eq!(((high as u16) << 8) | low as u16, year);
    assert!(b.read(&m, 0xc2) < 12);
    assert!(b.read(&m, 0xc3) < 31);
    assert!(b.read(&m, 0xc4) < 24);
    assert!(b.read(&m, 0xc7) < 7);
    assert_eq!(b.read(&m, 0xca), 0x33);
    b.set_clock(false);
    assert_eq!(b.read(&m, 0xc2), 0xee);
}

#[test]
fn clock_port_lays_out_a_reading() {
    let t = ClockReading {
        year: 2024,
        month0: 1,
        day0: 28,
        hour: 13,
        minute: 45,
        second: 59,
        weekday: 3,
        ordinal0: 300,
    };
    let ports: Vec<u8> = (0u8..12).map(|p| clock_port(&t, p, 0x99)).collect();
    assert_eq!(ports, vec![0x07, 0xe8, 1, 28, 13, 45, 59, 3, 0x01, 0x2d, 0x99, 0x99]);
}

#[test]
fn console_reads_from_the_input_stream() {
    let mut c = Console::new(BufferSink::with_limit(4), BufferSource::new(vec![1, 2, 3]), BufferSink::with_limit(4));
    let mut two = [0u8; 2];
    assert_eq!(c.read(&mut two), Ok(2));
    assert_eq!(two, [1, 2]);
    let mut four = [9u8; 4];
    assert_eq!(c.read(&mut four), Ok(1));
    assert_eq!(four, [3, 9, 9, 9]);
    assert_eq!(c.read(&mut four), Err(Exhausted));
}

#[test]
fn console_read_exact_needs_enough_input() {
    let mut c = Console::new(BufferSink::with_limit(4), BufferSource::new(vec![1, 2, 3]), BufferSink::with_limit(4));
    let mut two = [0u8; 2];
    assert_eq!(c.read_exact(&mut two), Ok(()));
    assert_eq!(two, [1, 2]);
    assert_eq!(c.read_exact(&mut two), Err(embedded_io::ReadExactError::UnexpectedEof));
    let mut one = [0u8; 1];
    assert_eq!(c.read_exact(&mut one), Ok(()));
    assert_eq!(one, [3]);
}

#[test]
fn console_write_takes_what_fits() {
    let mut c = Console::new(BufferSink::with_limit(3), BufferSource::new(vec![]), BufferSink::with_limit(1));
    assert_eq!(c.write(b"abcd"), Ok(3));
    assert_eq!(c.write(b"e"), Err(Exhausted));
    assert_eq!(c.write(b""), Ok(0));
    assert_eq!(c.write_error(b"xy"), Ok(1));
    assert_eq!(c.output_stream().contents(), &b"abc".to_vec());
    assert_eq!(c.error_stream().contents(), &b"x".to_vec());
}

struct Port {
    sent: Vec<u8>,
    pending: Vec<u8>,
}

impl RawSink for Port {
    type Error = ();

    fn write_raw(&mut self, bytes: &[u8]) -> Result<usize, ()> {
        if bytes.is_empty() {
            return Ok(0);
        }
        self.sent.push(bytes[0]);
        Ok(1)
    }
}

impl RawSource for Port {
    type Error = ();

    fn read_raw(&mut self, dest: &mut [u8]) -> Result<usize, ()> {
        if self.pending.is_empty() || dest.is_empty() {
            return Err(());
        }
        dest[0] = self.pending.remove(0);
        Ok(1)
    }

    fn read_exact_raw(&mut self, dest: &mut [u8]) -> Result<(), embedded_io::ReadExactError<()>> {
        if self.pending.len() < dest.len() {
            return Err(embedded_io::ReadExactError::UnexpectedEof);
        }
        for d in dest.iter_mut() {
            *d = self.pending.remove(0);
        }
        Ok(())
    }
}

struct Panel {
    size: (u32, u32),
    drawn: Vec<(Rect, u8)>,
}

impl RawSurface for Panel {
    type Error = ();

    fn size(&self) -> (u32, u32) {
        self.size
    }

    fn fill_raw(&mut self, area: &Rect, colour: u8) -> Result<(), ()> {
        self.drawn.push((*area, colour));
        Ok(())
    }
}

fn port(pending: &[u8]) -> Logged<Port> {
    Logged::new(Port { sent: vec![], pending: pending.to_vec() })
}

#[test]
fn bus_drives_raw_streams_and_panel() {
    let console = Console::new(port(&[]), port(&[7, 8]), port(&[]));
    let panel = LoggedSurface::new(Panel { size: (0x0102, 0x0304), drawn: vec![] });
    let mut b = VarvaraDeviceBus::new(console, panel);
    let mut m = UxnMachineState::new();
    b.write(&mut m, 0x18, b'o');
    b.write(&mut m, 0x19, b'e');
    assert_eq!(b.read(&m, 0x22), 0x01);
    assert_eq!(b.read(&m, 0x23), 0x02);
    assert_eq!(b.read(&m, 0x24), 0x03);
    assert_eq!(b.read(&m, 0x25), 0x04);
    b.write(&mut m, 0x29, 2);
    b.write(&mut m, 0x2b, 1);
    b.write(&mut m, 0x2e, 0x03);
    let console = b.console_device().as_ref().unwrap();
    assert_eq!(console.output_stream().inner().sent, vec![b'o']);
    assert_eq!(console.error_stream().inner().sent, vec![b'e']);
    let panel = b.screen_device().as_ref().unwrap().surface().inner();
    assert_eq!(panel.drawn, vec![(Rect { x: 2, y: 1, width: 1, height: 1 }, 3)]);
}

#[test]
fn logged_console_reads_raw_input() {
    let mut c = Console::new(port(&[]), port(&[7, 8, 9]), port(&[]));
    let mut buf = [0u8; 2];
    assert_eq!(c.read(&mut buf), Ok(1));
    assert_eq!(buf, [7, 0]);
    assert_eq!(c.read_exact(&mut buf), Ok(()));
    assert_eq!(buf, [8, 9]);
    assert_eq!(c.read_exact(&mut buf), Err(embedded_io::ReadExactError::UnexpectedEof));
    assert_eq!(c.write(b"xyz"), Ok(1));
    assert_eq!(c.output_stream().inner().sent, vec![b'x']);
}
