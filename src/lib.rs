//! # embedded-varvara
//! The device bus of a Varvara machine: a shadow register file with the
//! System, Console, Screen and DateTime devices mapped onto it.
pub mod clock;
pub mod console;
pub mod memory;
pub mod screen;

use baryuxn::{UxnMachineState, UxnStack};
use clock::{clock_byte, clock_port, local_now, ClockReading};
use console::{ByteSink, Console};
use screen::{palette_of, reset_regs, with_auto_byte, ColourPalette, Screen, ScreenRegs, Surface};
use vstd::prelude::*;

verus! {

#[verifier::external_type_specification]
pub struct ExUxnStack(UxnStack);

#[verifier::external_type_specification]
pub struct ExUxnMachineState(UxnMachineState);

/// The device page of an address: its high nibble, `address & 0xf0`.
pub open spec fn page_of(address: u8) -> u8 {
    (address / 16 * 16) as u8
}

/// The port of an address within its page: its low nibble, `address & 0x0f`.
pub open spec fn port_of(address: u8) -> u8 {
    address % 16
}

/// The 16-bit value of a high and a low byte.
pub open spec fn join16(high: u8, low: u8) -> u16 {
    (high * 256 + low) as u16
}

/// The high byte of a 16-bit value.
pub open spec fn high_byte(v: u16) -> u8 {
    (v / 256) as u8
}

/// The low byte of a 16-bit value.
pub open spec fn low_byte(v: u16) -> u8 {
    (v % 256) as u8
}

/// The shifts and masks that split and join 16-bit values compute
/// `high_byte`, `low_byte` and `join16`.
pub proof fn lemma_bytes16(v: u16, high: u8, low: u8)
    ensures
        (v >> 8u16) as u8 == high_byte(v),
        (v & 0xffu16) as u8 == low_byte(v),
        ((high as u16) << 8u16) | (low as u16) == join16(high, low),
{
    assert((v >> 8u16) as u8 == (v / 256) as u8) by (bit_vector);
    assert((v & 0xffu16) as u8 == (v % 256) as u8) by (bit_vector);
    assert(((high as u16) << 8u16) | (low as u16) == (high as u16) * 256 + (low as u16))
        by (bit_vector);
}

/// The high byte of `v`.
fn high(v: u16) -> (r: u8)
    ensures
        r == high_byte(v),
{
    proof {
        lemma_bytes16(v, 0, 0);
    }
    (v >> 8) as u8
}

/// The low byte of `v`.
fn low(v: u16) -> (r: u8)
    ensures
        r == low_byte(v),
{
    proof {
        lemma_bytes16(v, 0, 0);
    }
    (v & 0xff) as u8
}

/// The 16-bit value of the bytes `high` and `low`.
fn join(high: u8, low: u8) -> (r: u16)
    ensures
        r == join16(high, low),
{
    proof {
        lemma_bytes16(0, high, low);
    }
    ((high as u16) << 8) | (low as u16)
}

/// The machine after a System write: ports `0x04` and `0x05` set the work
/// and return stack pointers.
pub open spec fn machine_after(m: UxnMachineState, address: u8, byte: u8) -> UxnMachineState {
    if address == 0x04 {
        UxnMachineState { work_stack: UxnStack { pointer: byte, ..m.work_stack }, ..m }
    } else if address == 0x05 {
        UxnMachineState { return_stack: UxnStack { pointer: byte, ..m.return_stack }, ..m }
    } else {
        m
    }
}

/// What a write of `byte` at `address` does to the console, from `pre` to
/// `post`: a write to the output (`0x18`) or error (`0x19`) port hands that
/// one byte to its stream, which takes it or, failing, takes nothing.
pub open spec fn console_after<O: ByteSink, I, E: ByteSink>(
    pre: Option<Console<O, I, E>>,
    post: Option<Console<O, I, E>>,
    address: u8,
    byte: u8,
) -> bool {
    match (pre, post) {
        (None, None) => true,
        (Some(c), Some(d)) => if address == 0x18 {
            &&& d.input() == c.input()
            &&& d.error() == c.error()
            &&& d.output().accepted() == c.output().accepted().push(byte) || d.output().accepted()
                == c.output().accepted()
        } else if address == 0x19 {
            &&& d.input() == c.input()
            &&& d.output() == c.output()
            &&& d.error().accepted() == c.error().accepted().push(byte) || d.error().accepted()
                == c.error().accepted()
        } else {
            d == c
        },
        _ => false,
    }
}

/// What a write of `byte` at `address` does to the screen, from `pre` to
/// `post`, where `storage` is the shadow register file after the write.
pub open spec fn screen_after<C: Surface>(
    pre: Option<Screen<C>>,
    post: Option<Screen<C>>,
    storage: Seq<u8>,
    address: u8,
    byte: u8,
) -> bool {
    match (pre, post) {
        (None, None) => true,
        (Some(s), Some(t)) => if address == 0x26 {
            t.canvas() == s.canvas() && t.regs() == with_auto_byte(s.regs(), byte)
        } else if address == 0x28 || address == 0x29 {
            t.canvas() == s.canvas() && t.regs() == (ScreenRegs {
                x: join16(storage[0x28], storage[0x29]),
                ..s.regs()
            })
        } else if address == 0x2a || address == 0x2b {
            t.canvas() == s.canvas() && t.regs() == (ScreenRegs {
                y: join16(storage[0x2a], storage[0x2b]),
                ..s.regs()
            })
        } else if address == 0x2c || address == 0x2d {
            t.canvas() == s.canvas() && t.regs() == (ScreenRegs {
                sprite_address: join16(storage[0x2c], storage[0x2d]),
                ..s.regs()
            })
        } else if address == 0x2e {
            Screen::draws(s, t, byte)
        } else {
            t == s
        },
        _ => false,
    }
}

/// The Varvara device bus: a console on its output, input and error streams
/// `O`, `I` and `E`, and a screen on the surface `C`.
pub struct VarvaraDeviceBus<O, I, E, C> {
    storage: [u8; 256],
    console: Option<Console<O, I, E>>,
    screen: Option<Screen<C>>,
    clock: bool,
}

impl<O, I, E, C> VarvaraDeviceBus<O, I, E, C> {
    /// The shadow register file: the last byte written at each address.
    pub closed spec fn storage(&self) -> Seq<u8> {
        self.storage@
    }

    /// The console, when the bus has one.
    pub closed spec fn console(&self) -> Option<Console<O, I, E>> {
        self.console
    }

    /// The screen, when the bus has one.
    pub closed spec fn screen(&self) -> Option<Screen<C>> {
        self.screen
    }

    /// Whether the DateTime page shows the local date and time.
    pub closed spec fn has_clock(&self) -> bool {
        self.clock
    }

    /// Whether the System page holds a halt request.
    pub open spec fn halted(&self) -> bool {
        self.storage()[0x0f] != 0
    }

    /// Creates a bus with a console and a screen on `canvas`, and no clock.
    pub fn new(console: Console<O, I, E>, canvas: C) -> (r: Self)
        ensures
            r.storage() == Seq::new(256, |i: int| 0u8),
            r.console() == Some(console),
            r.screen() is Some,
            r.screen().unwrap().canvas() == canvas,
            r.screen().unwrap().regs() == reset_regs(),
            !r.has_clock(),
    {
        VarvaraDeviceBus {
            storage: [0u8; 256],
            console: Some(console),
            screen: Some(Screen::new(canvas)),
            clock: false,
        }
    }

    /// Creates a bus with the devices given: a console, a screen on `canvas`,
    /// and the local date and time on the DateTime page when `clock` is set.
    /// An absent device leaves its page to the shadow register file.
    pub fn with_devices(console: Option<Console<O, I, E>>, canvas: Option<C>, clock: bool) -> (r: Self)
        ensures
            r.storage() == Seq::new(256, |i: int| 0u8),
            r.console() == console,
            r.screen() is Some <==> canvas is Some,
            canvas is Some ==> r.screen().unwrap().canvas() == canvas.unwrap(),
            canvas is Some ==> r.screen().unwrap().regs() == reset_regs(),
            r.has_clock() == clock,
    {
        let screen = match canvas {
            Some(c) => Some(Screen::new(c)),
            None => None,
        };
        VarvaraDeviceBus { storage: [0u8; 256], console, screen, clock }
    }

    /// Shows or hides the local date and time on the DateTime page.
    pub fn set_clock(&mut self, clock: bool)
        ensures
            final(self).has_clock() == clock,
            final(self).storage() == old(self).storage(),
            final(self).console() == old(self).console(),
            final(self).screen() == old(self).screen(),
    {
        self.clock = clock;
    }

    /// The console, when the bus has one.
    pub fn console_device(&self) -> (r: &Option<Console<O, I, E>>)
        ensures
            *r == self.console(),
    {
        &self.console
    }

    /// The screen, when the bus has one.
    pub fn screen_device(&self) -> (r: &Option<Screen<C>>)
        ensures
            *r == self.screen(),
    {
        &self.screen
    }

    /// Checks if the Varvara emulator received a halting command.
    pub fn should_quit(&self) -> (r: bool)
        ensures
            r == self.halted(),
    {
        self.storage[0x0f] != 0
    }

    /// Returns the current colour palette of the System device.
    pub fn colour_palette(&self) -> (r: ColourPalette)
        ensures
            r == palette_of(
                self.storage()[0x08],
                self.storage()[0x09],
                self.storage()[0x0a],
                self.storage()[0x0b],
                self.storage()[0x0c],
            ),
    {
        ColourPalette::decode(
            self.storage[0x08],
            self.storage[0x09],
            self.storage[0x0a],
            self.storage[0x0b],
            self.storage[0x0c],
        )
    }
}

impl<O: ByteSink, I, E: ByteSink, C: Surface> VarvaraDeviceBus<O, I, E, C> {
    /// Whether a read of `address` shows the surface's size (Screen ports
    /// `0x02..0x05`) rather than the shadow byte.
    pub open spec fn reads_surface(&self, address: u8) -> bool {
        &&& self.screen() is Some
        &&& page_of(address) == 0x20
        &&& 0x02 <= port_of(address) <= 0x05
    }

    /// Whether a read of `address` shows a field of the local date and time.
    pub open spec fn reads_clock(&self, address: u8) -> bool {
        &&& self.has_clock()
        &&& page_of(address) == 0xc0
        &&& port_of(address) <= 0x09
    }

    /// The byte a read of `address` returns, for every address outside the
    /// DateTime fields: the stack pointers, the screen's size, cursor and
    /// sprite address, and elsewhere the shadow byte.
    pub open spec fn peek(&self, m: UxnMachineState, address: u8) -> u8 {
        let page = page_of(address);
        let port = port_of(address);
        if page == 0x00 && port == 0x04 {
            m.work_stack.pointer
        } else if page == 0x00 && port == 0x05 {
            m.return_stack.pointer
        } else if page == 0x20 && self.screen() is Some {
            let s = self.screen().unwrap();
            if port == 0x02 {
                high_byte(s.width_spec())
            } else if port == 0x03 {
                low_byte(s.width_spec())
            } else if port == 0x04 {
                high_byte(s.height_spec())
            } else if port == 0x05 {
                low_byte(s.height_spec())
            } else if port == 0x08 {
                high_byte(s.regs().x)
            } else if port == 0x09 {
                low_byte(s.regs().x)
            } else if port == 0x0a {
                high_byte(s.regs().y)
            } else if port == 0x0b {
                low_byte(s.regs().y)
            } else if port == 0x0c {
                high_byte(s.regs().sprite_address)
            } else if port == 0x0d {
                low_byte(s.regs().sprite_address)
            } else {
                self.storage()[address as int]
            }
        } else {
            self.storage()[address as int]
        }
    }

    /// What a write of `byte` at `address` does, from the bus `pre` and the
    /// machine `m` to the bus `post` and the machine `m2`.
    pub open spec fn writes(
        pre: Self,
        post: Self,
        m: UxnMachineState,
        m2: UxnMachineState,
        address: u8,
        byte: u8,
    ) -> bool {
        &&& post.storage() == pre.storage().update(address as int, byte)
        &&& post.has_clock() == pre.has_clock()
        &&& m2 == machine_after(m, address, byte)
        &&& console_after(pre.console(), post.console(), address, byte)
        &&& screen_after(pre.screen(), post.screen(), post.storage(), address, byte)
    }

    /// Reads the byte at `address` of the port space.
    pub fn read(&self, machine: &UxnMachineState, address: u8) -> (r: u8)
        ensures
            !self.reads_clock(address) ==> r == self.peek(*machine, address),
            self.reads_clock(address) ==> exists|t: ClockReading|
                t.wf() && r == #[trigger] clock_byte(t, port_of(address), self.storage()[address as int]),
    {
        let page = address & 0xf0;
        let port = address & 0x0f;
        proof {
            lemma_page_port(address);
        }
        if page == 0x00 {
            if port == 0x04 {
                machine.work_stack.pointer
            } else if port == 0x05 {
                machine.return_stack.pointer
            } else {
                self.storage[address as usize]
            }
        } else if page == 0x20 {
            match &self.screen {
                Some(screen) => match port {
                    0x02 => high(screen.width()),
                    0x03 => low(screen.width()),
                    0x04 => high(screen.height()),
                    0x05 => low(screen.height()),
                    0x08 => high(screen.current_x()),
                    0x09 => low(screen.current_x()),
                    0x0a => high(screen.current_y()),
                    0x0b => low(screen.current_y()),
                    0x0c => high(screen.current_sprite_address()),
                    0x0d => low(screen.current_sprite_address()),
                    _ => self.storage[address as usize],
                },
                None => self.storage[address as usize],
            }
        } else if page == 0xc0 && self.clock {
            let now = local_now();
            let r = clock_port(&now, port, self.storage[address as usize]);
            assert(now.wf() && r == clock_byte(now, port_of(address), self.storage()[address as int]));
            r
        } else {
            self.storage[address as usize]
        }
    }

    /// Writes `byte` at `address` of the port space: the shadow byte is
    /// stored, then the device behind the address acts on it. A failure of
    /// a stream or of the surface is absorbed.
    pub fn write(&mut self, machine: &mut UxnMachineState, address: u8, byte: u8)
        ensures
            Self::writes(*old(self), *final(self), *old(machine), *final(machine), address, byte),
    {
        let page = address & 0xf0;
        let port = address & 0x0f;
        proof {
            lemma_page_port(address);
        }
        self.storage[address as usize] = byte;
        if page == 0x00 {
            if port == 0x04 {
                machine.work_stack.pointer = byte;
            } else if port == 0x05 {
                machine.return_stack.pointer = byte;
            }
        } else if page == 0x10 && (port == 0x08 || port == 0x09) {
            if let Some(console) = &mut self.console {
                let one: &[u8] = &[byte];
                assert(one@.subrange(0, 1) == seq![byte]);
                if port == 0x08 {
                    let ghost pre = *console;
                    let _ = console.write(one);
                    assert(pre.output().accepted() + seq![byte] =~= pre.output().accepted().push(byte));
                } else {
                    let ghost pre = *console;
                    let _ = console.write_error(one);
                    assert(pre.error().accepted() + seq![byte] =~= pre.error().accepted().push(byte));
                }
            }
        } else if page == 0x20 {
            let storage = &self.storage;
            if let Some(screen) = &mut self.screen {
                if port == 0x06 {
                    screen.set_auto(byte);
                } else if port == 0x08 || port == 0x09 {
                    screen.set_x(join(storage[0x28], storage[0x29]));
                } else if port == 0x0a || port == 0x0b {
                    screen.set_y(join(storage[0x2a], storage[0x2b]));
                } else if port == 0x0c || port == 0x0d {
                    screen.set_sprite_address(join(storage[0x2c], storage[0x2d]));
                } else if port == 0x0e {
                    screen.draw(byte);
                }
            }
        }
    }
}

/// The page and the port of an address are its two nibbles.
pub proof fn lemma_page_port(address: u8)
    ensures
        page_of(address) == address & 0xf0u8,
        port_of(address) == address & 0x0fu8,
{
    assert(address & 0xf0u8 == (address / 16) * 16) by (bit_vector);
    assert(address & 0x0fu8 == address % 16) by (bit_vector);
}

/// The high and low bytes of a 16-bit value made of two bytes are those bytes.
pub proof fn lemma_join16(high: u8, low: u8)
    ensures
        high_byte(join16(high, low)) == high,
        low_byte(join16(high, low)) == low,
{
}

/// Read after write: right after `byte` is written at `address`, a read of
/// `address` returns `byte`, except where it shows the surface's size or the
/// local date and time. The surface's size is the one the write found.
pub proof fn lemma_read_after_write<O: ByteSink, I, E: ByteSink, C: Surface>(
    pre: VarvaraDeviceBus<O, I, E, C>,
    post: VarvaraDeviceBus<O, I, E, C>,
    m: UxnMachineState,
    m2: UxnMachineState,
    address: u8,
    byte: u8,
)
    requires
        VarvaraDeviceBus::writes(pre, post, m, m2, address, byte),
    ensures
        !post.reads_surface(address) && !post.reads_clock(address) ==> post.peek(m2, address)
            == byte,
        post.reads_surface(address) ==> post.peek(m2, address) == pre.peek(m, address),
{
    lemma_page_port(address);
    let st = post.storage();
    lemma_join16(st[0x28], st[0x29]);
    lemma_join16(st[0x2a], st[0x2b]);
    lemma_join16(st[0x2c], st[0x2d]);
}

/// Halting: right after `byte` is written at `0x0f`, the bus asks to stop
/// exactly when `byte` is not zero; a later zero there withdraws the request.
pub proof fn lemma_halt_request<O: ByteSink, I, E: ByteSink, C: Surface>(
    pre: VarvaraDeviceBus<O, I, E, C>,
    post: VarvaraDeviceBus<O, I, E, C>,
    m: UxnMachineState,
    m2: UxnMachineState,
    byte: u8,
)
    requires
        VarvaraDeviceBus::writes(pre, post, m, m2, 0x0f, byte),
    ensures
        post.halted() == (byte != 0),
{
}

/// Console output: a write of `byte` at `0x18` hands that one byte to the
/// output stream, which then holds it after what it held, or holds what it
/// held if the stream failed; the input and error streams are untouched.
pub proof fn lemma_console_output<O: ByteSink, I, E: ByteSink, C: Surface>(
    pre: VarvaraDeviceBus<O, I, E, C>,
    post: VarvaraDeviceBus<O, I, E, C>,
    m: UxnMachineState,
    m2: UxnMachineState,
    byte: u8,
)
    requires
        VarvaraDeviceBus::writes(pre, post, m, m2, 0x18, byte),
        pre.console() is Some,
    ensures
        post.console() is Some,
        post.console().unwrap().input() == pre.console().unwrap().input(),
        post.console().unwrap().error() == pre.console().unwrap().error(),
        post.console().unwrap().output().accepted() == pre.console().unwrap().output().accepted().push(
            byte,
        ) || post.console().unwrap().output().accepted()
            == pre.console().unwrap().output().accepted(),
{
}

} // verus!
