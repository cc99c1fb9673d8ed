//! # Screen device
//! A cursor-driven screen on top of any surface that can report its size and
//! fill a rectangle with a colour index.
use vstd::prelude::*;

verus! {

/// A rectangle on a drawing surface: its top-left corner and its size.
#[derive(Clone, Copy, Debug, PartialEq, Eq, Structural)]
pub struct Rect {
    pub x: i32,
    pub y: i32,
    pub width: u32,
    pub height: u32,
}

/// A drawing surface: a bounding box, and solid fills of rectangles within it.
pub trait Surface {
    type Error;

    /// Width and height of the surface's bounding box.
    spec fn extent(&self) -> (u32, u32);

    /// The fills the surface has carried out, oldest first, each with its colour index.
    spec fn fills(&self) -> Seq<(Rect, u8)>;

    fn bounding_size(&self) -> (r: (u32, u32))
        ensures
            r == self.extent(),
    ;

    /// Fills `area` with `colour`. A failed fill leaves the surface as it was.
    fn fill_solid(&mut self, area: &Rect, colour: u8) -> (r: Result<(), Self::Error>)
        ensures
            final(self).extent() == old(self).extent(),
            r is Ok ==> final(self).fills() == old(self).fills().push((*area, colour)),
            r is Err ==> final(self).fills() == old(self).fills(),
    ;
}

/// A drawing surface as a display driver offers it, without a record of
/// the fills it carried out.
pub trait RawSurface {
    type Error;

    /// Width and height of the surface's bounding box.
    fn size(&self) -> (u32, u32);

    /// Fills `area` with `colour`.
    fn fill_raw(&mut self, area: &Rect, colour: u8) -> Result<(), Self::Error>;
}

/// A raw surface `S` together with its size, read once when it is wrapped,
/// and a record of the fills carried out on it since.
pub struct LoggedSurface<S> {
    inner: S,
    width: u32,
    height: u32,
    log: Ghost<Seq<(Rect, u8)>>,
}

impl<S> LoggedSurface<S> {
    /// The raw surface.
    pub closed spec fn inner_spec(&self) -> S {
        self.inner
    }

    /// The raw surface.
    pub fn inner(&self) -> (r: &S)
        ensures
            *r == self.inner_spec(),
    {
        &self.inner
    }
}

impl<S: RawSurface> LoggedSurface<S> {
    /// Wraps `inner`, reading its size, with no fill recorded yet.
    pub fn new(inner: S) -> (r: Self)
        ensures
            r.inner_spec() == inner,
            r.fills() == Seq::<(Rect, u8)>::empty(),
    {
        let (width, height) = inner.size();
        LoggedSurface { inner, width, height, log: Ghost(Seq::empty()) }
    }
}

impl<S: RawSurface> Surface for LoggedSurface<S> {
    type Error = S::Error;

    closed spec fn extent(&self) -> (u32, u32) {
        (self.width, self.height)
    }

    closed spec fn fills(&self) -> Seq<(Rect, u8)> {
        self.log@
    }

    fn bounding_size(&self) -> (r: (u32, u32)) {
        (self.width, self.height)
    }

    fn fill_solid(&mut self, area: &Rect, colour: u8) -> (r: Result<(), S::Error>) {
        let r = self.inner.fill_raw(area, colour);
        if r.is_ok() {
            self.log = Ghost(self.log@.push((*area, colour)));
        }
        r
    }
}

/// The colour palette used by the Varvara ordinator: four colours, each
/// encoded as 12 bits RGB.
///
/// These fields are public, so a caller could store a value such as `0xffff`;
/// only the low 12 bits are meaningful.
#[derive(Clone, Copy, Debug, PartialEq, Eq, Structural)]
pub struct ColourPalette {
    pub colour0: u16,
    pub colour1: u16,
    pub colour2: u16,
    pub colour3: u16,
}

/// The palette packed into the five System bytes `b8..b12`.
pub open spec fn palette_of(b8: u8, b9: u8, b10: u8, b11: u8, b12: u8) -> ColourPalette {
    ColourPalette {
        colour0: ((b8 as u16) << 1u16) | ((b9 >> 1u8) as u16),
        colour1: (((b9 & 1u8) as u16) << 2u16) | (b10 as u16),
        colour2: ((b10 as u16) << 1u16) | ((b11 >> 1u8) as u16),
        colour3: (((b11 & 1u8) as u16) << 2u16) | (b12 as u16),
    }
}

impl ColourPalette {
    /// Unpacks the four colours from the five System bytes `b8..b12`.
    pub fn decode(b8: u8, b9: u8, b10: u8, b11: u8, b12: u8) -> (r: ColourPalette)
        ensures
            r == palette_of(b8, b9, b10, b11, b12),
            r.colour0 <= 0xfff,
            r.colour1 <= 0xfff,
            r.colour2 <= 0xfff,
            r.colour3 <= 0xfff,
    {
        proof {
            assert(((b8 as u16) << 1u16) | ((b9 >> 1u8) as u16) <= 0xfff) by (bit_vector);
            assert((((b9 & 1u8) as u16) << 2u16) | (b10 as u16) <= 0xfff) by (bit_vector);
            assert(((b10 as u16) << 1u16) | ((b11 >> 1u8) as u16) <= 0xfff) by (bit_vector);
            assert((((b11 & 1u8) as u16) << 2u16) | (b12 as u16) <= 0xfff) by (bit_vector);
        }
        ColourPalette {
            colour0: ((b8 as u16) << 1) | (b9 >> 1) as u16,
            colour1: (((b9 & 0x1) as u16) << 2) | (b10 as u16),
            colour2: ((b10 as u16) << 1) | (b11 >> 1) as u16,
            colour3: (((b11 & 0x1) as u16) << 2) | (b12 as u16),
        }
    }
}

/// The registers of the screen device.
#[derive(Clone, Copy, Debug, PartialEq, Eq, Structural)]
pub struct ScreenRegs {
    pub x: u16,
    pub y: u16,
    pub sprite_address: u16,
    pub auto_x: bool,
    pub auto_y: bool,
    pub auto_sprite: bool,
    pub length: u8,
}

/// The registers of a new screen: all zero, all flags off.
pub open spec fn reset_regs() -> ScreenRegs {
    ScreenRegs {
        x: 0,
        y: 0,
        sprite_address: 0,
        auto_x: false,
        auto_y: false,
        auto_sprite: false,
        length: 0,
    }
}

/// The registers as the auto byte (screen port `0x06`) sets them.
pub open spec fn with_auto_byte(regs: ScreenRegs, byte: u8) -> ScreenRegs {
    ScreenRegs {
        auto_x: byte & 1u8 != 0,
        auto_y: byte & 2u8 != 0,
        auto_sprite: byte & 4u8 != 0,
        length: byte >> 4u8,
        ..regs
    }
}

/// `a - b` on 16 bits, wrapping below zero.
pub open spec fn sub16(a: u16, b: u16) -> u16 {
    if b <= a {
        (a - b) as u16
    } else {
        (a + 0x10000 - b) as u16
    }
}

/// `a + 1` on 16 bits, wrapping past the top.
pub open spec fn inc16(a: u16) -> u16 {
    if a < 0xffff {
        (a + 1) as u16
    } else {
        0
    }
}

/// The registers after a pixel is drawn: the cursor moves by one along each
/// axis whose auto flag is set.
pub open spec fn advanced(regs: ScreenRegs) -> ScreenRegs {
    ScreenRegs {
        x: if regs.auto_x {
            inc16(regs.x)
        } else {
            regs.x
        },
        y: if regs.auto_y {
            inc16(regs.y)
        } else {
            regs.y
        },
        ..regs
    }
}

/// Colour index of a draw byte (screen port `0x0e`).
pub open spec fn control_colour(control: u8) -> u8 {
    control & 3u8
}

/// Whether a draw byte asks for a fill rather than a pixel.
pub open spec fn control_fill(control: u8) -> bool {
    control & 0x80u8 != 0
}

/// Whether a draw byte flips a fill towards the origin along x.
pub open spec fn control_flip_x(control: u8) -> bool {
    control & 0x10u8 != 0
}

/// Whether a draw byte flips a fill towards the origin along y.
pub open spec fn control_flip_y(control: u8) -> bool {
    control & 0x20u8 != 0
}

/// Origin and length along one axis of a fill from `cursor` on an axis of
/// `extent`: towards the origin when `flip`, else towards the far edge.
pub open spec fn fill_span(cursor: u16, extent: u16, flip: bool) -> (u16, u16) {
    if flip {
        (0, cursor)
    } else {
        (cursor, sub16(extent, cursor))
    }
}

/// The rectangle covered by a fill from the cursor `(x, y)` on a surface of
/// `width` by `height`.
pub open spec fn fill_target(
    x: u16,
    y: u16,
    width: u16,
    height: u16,
    flip_x: bool,
    flip_y: bool,
) -> Rect {
    let (ox, w) = fill_span(x, width, flip_x);
    let (oy, h) = fill_span(y, height, flip_y);
    Rect { x: ox as i32, y: oy as i32, width: w as u32, height: h as u32 }
}

/// The one-pixel rectangle at `(x, y)`.
pub open spec fn pixel_at(x: u16, y: u16) -> Rect {
    Rect { x: x as i32, y: y as i32, width: 1, height: 1 }
}

/// Origin and length along one axis of a fill; see `fill_span`.
pub fn span(cursor: u16, extent: u16, flip: bool) -> (r: (u16, u16))
    ensures
        r == fill_span(cursor, extent, flip),
{
    if flip {
        (0, cursor)
    } else {
        (cursor, extent.wrapping_sub(cursor))
    }
}

/// A Varvara screen drawing on a surface `C`.
pub struct Screen<C> {
    canvas: C,
    regs: ScreenRegs,
}

impl<C> Screen<C> {
    /// The surface drawn on.
    pub closed spec fn canvas(&self) -> C {
        self.canvas
    }

    /// The screen's registers.
    pub closed spec fn regs(&self) -> ScreenRegs {
        self.regs
    }

    pub fn new(canvas: C) -> (r: Self)
        ensures
            r.canvas() == canvas,
            r.regs() == reset_regs(),
    {
        Screen {
            canvas,
            regs: ScreenRegs {
                x: 0,
                y: 0,
                sprite_address: 0,
                auto_x: false,
                auto_y: false,
                auto_sprite: false,
                length: 0,
            },
        }
    }

    /// The surface drawn on.
    pub fn surface(&self) -> (r: &C)
        ensures
            *r == self.canvas(),
    {
        &self.canvas
    }

    pub fn current_x(&self) -> (r: u16)
        ensures
            r == self.regs().x,
    {
        self.regs.x
    }

    pub fn current_y(&self) -> (r: u16)
        ensures
            r == self.regs().y,
    {
        self.regs.y
    }

    pub fn current_sprite_address(&self) -> (r: u16)
        ensures
            r == self.regs().sprite_address,
    {
        self.regs.sprite_address
    }

    /// All registers at once.
    pub fn registers(&self) -> (r: ScreenRegs)
        ensures
            r == self.regs(),
    {
        self.regs
    }

    /// Sets the auto-increment flags and the operation length from the auto byte.
    pub fn set_auto(&mut self, byte: u8)
        ensures
            final(self).regs() == with_auto_byte(old(self).regs(), byte),
            final(self).canvas() == old(self).canvas(),
    {
        self.regs.auto_x = byte & 0x1 != 0;
        self.regs.auto_y = byte & 0x2 != 0;
        self.regs.auto_sprite = byte & 0x4 != 0;
        self.regs.length = byte >> 4;
    }

    pub fn set_x(&mut self, x: u16)
        ensures
            final(self).regs() == (ScreenRegs { x, ..old(self).regs() }),
            final(self).canvas() == old(self).canvas(),
    {
        self.regs.x = x;
    }

    pub fn set_y(&mut self, y: u16)
        ensures
            final(self).regs() == (ScreenRegs { y, ..old(self).regs() }),
            final(self).canvas() == old(self).canvas(),
    {
        self.regs.y = y;
    }

    pub fn set_sprite_address(&mut self, sprite_address: u16)
        ensures
            final(self).regs() == (ScreenRegs { sprite_address, ..old(self).regs() }),
            final(self).canvas() == old(self).canvas(),
    {
        self.regs.sprite_address = sprite_address;
    }
}

impl<C: Surface> Screen<C> {
    /// Width of the surface, truncated to 16 bits.
    pub open spec fn width_spec(&self) -> u16 {
        self.canvas().extent().0 as u16
    }

    /// Height of the surface, truncated to 16 bits.
    pub open spec fn height_spec(&self) -> u16 {
        self.canvas().extent().1 as u16
    }

    pub fn width(&self) -> (r: u16)
        ensures
            r == self.width_spec(),
    {
        self.canvas.bounding_size().0 as u16
    }

    pub fn height(&self) -> (r: u16)
        ensures
            r == self.height_spec(),
    {
        self.canvas.bounding_size().1 as u16
    }

    /// Fills the rectangle at `(x, y)` of `width` by `height` with `colour`.
    /// `foreground` selects the layer, which the surface resolves.
    pub fn draw_fill(
        &mut self,
        foreground: bool,
        x: u16,
        y: u16,
        width: u16,
        height: u16,
        colour: u8,
    ) -> (r: Result<(), C::Error>)
        ensures
            final(self).regs() == old(self).regs(),
            final(self).canvas().extent() == old(self).canvas().extent(),
            r is Ok ==> final(self).canvas().fills() == old(self).canvas().fills().push(
                (Rect { x: x as i32, y: y as i32, width: width as u32, height: height as u32 }, colour),
            ),
            r is Err ==> final(self).canvas().fills() == old(self).canvas().fills(),
    {
        let area = Rect { x: x as i32, y: y as i32, width: width as u32, height: height as u32 };
        self.canvas.fill_solid(&area, colour)
    }

    /// Fills the pixel under the cursor with `colour`, then advances the
    /// cursor along each axis whose auto flag is set. A failed fill leaves
    /// the cursor where it was.
    pub fn draw_pixel(&mut self, colour: u8) -> (r: Result<(), C::Error>)
        ensures
            final(self).canvas().extent() == old(self).canvas().extent(),
            r is Ok ==> final(self).canvas().fills() == old(self).canvas().fills().push(
                (pixel_at(old(self).regs().x, old(self).regs().y), colour),
            ),
            r is Ok ==> final(self).regs() == advanced(old(self).regs()),
            r is Err ==> final(self).regs() == old(self).regs(),
            r is Err ==> final(self).canvas().fills() == old(self).canvas().fills(),
    {
        let area = Rect { x: self.regs.x as i32, y: self.regs.y as i32, width: 1, height: 1 };
        match self.canvas.fill_solid(&area, colour) {
            Ok(()) => {},
            Err(e) => {
                return Err(e);
            },
        }
        if self.regs.auto_x {
            self.regs.x = self.regs.x.wrapping_add(1);
        }
        if self.regs.auto_y {
            self.regs.y = self.regs.y.wrapping_add(1);
        }
        Ok(())
    }

    /// Whether the cursor lies on the surface.
    pub open spec fn cursor_on_surface(&self) -> bool {
        self.regs().x < self.width_spec() && self.regs().y < self.height_spec()
    }

    /// What a draw byte does to the screen, from `pre` to `post`. A fill
    /// covers the rectangle from the cursor to the far edges, or to the
    /// origin along a flipped axis. A pixel is drawn under the cursor only
    /// when the cursor lies on the surface, and then advances it. A failed
    /// fill leaves the screen as it was.
    pub open spec fn draws(pre: Self, post: Self, control: u8) -> bool {
        let colour = control_colour(control);
        if control_fill(control) {
            let area = fill_target(
                pre.regs().x,
                pre.regs().y,
                pre.width_spec(),
                pre.height_spec(),
                control_flip_x(control),
                control_flip_y(control),
            );
            &&& post.regs() == pre.regs()
            &&& post.canvas().extent() == pre.canvas().extent()
            &&& post.canvas().fills() == pre.canvas().fills().push((area, colour))
                || post.canvas().fills() == pre.canvas().fills()
        } else if pre.cursor_on_surface() {
            &&& post.canvas().extent() == pre.canvas().extent()
            &&& {
                ||| post.canvas().fills() == pre.canvas().fills().push(
                    (pixel_at(pre.regs().x, pre.regs().y), colour),
                ) && post.regs() == advanced(pre.regs())
                ||| post.canvas().fills() == pre.canvas().fills() && post.regs() == pre.regs()
            }
        } else {
            post == pre
        }
    }

    /// Carries out the draw byte `control` (screen port `0x0e`): bits 0-1 are
    /// the colour index, bit 4 flips x, bit 5 flips y, bit 6 selects the
    /// foreground and bit 7 asks for a fill. A failure of the surface is
    /// absorbed.
    pub fn draw(&mut self, control: u8)
        ensures
            Self::draws(*old(self), *final(self), control),
    {
        let colour = control & 0x3;
        let foreground = control & 0x40 != 0;
        if control & 0x80 != 0 {
            let width = self.width();
            let height = self.height();
            let (x, w) = span(self.regs.x, width, control & 0x10 != 0);
            let (y, h) = span(self.regs.y, height, control & 0x20 != 0);
            let _ = self.draw_fill(foreground, x, y, w, h, colour);
        } else if self.regs.x < self.width() && self.regs.y < self.height() {
            let _ = self.draw_pixel(colour);
        }
    }
}

/// A pixel draw with the cursor off the surface, on its right or bottom edge
/// or beyond, leaves the screen and its surface untouched, cursor included.
pub proof fn lemma_pixel_off_surface<C: Surface>(pre: Screen<C>, post: Screen<C>, control: u8)
    requires
        Screen::draws(pre, post, control),
        !control_fill(control),
        pre.regs().x >= pre.width_spec() || pre.regs().y >= pre.height_spec(),
    ensures
        post == pre,
{
}

/// A pixel draw on the surface with only auto-x set moves the cursor one step
/// along x, and leaves y, once the pixel is drawn.
pub proof fn lemma_pixel_auto_x<C: Surface>(pre: Screen<C>, post: Screen<C>, control: u8)
    requires
        Screen::draws(pre, post, control),
        !control_fill(control),
        pre.cursor_on_surface(),
        pre.regs().auto_x,
        !pre.regs().auto_y,
        post.canvas().fills().len() > pre.canvas().fills().len(),
    ensures
        post.regs().x == pre.regs().x + 1,
        post.regs().y == pre.regs().y,
{
}

/// A fill without flips covers from the cursor to the far edges; a fill
/// flipped along x alone covers from the left edge to the cursor.
pub proof fn lemma_fill_target<C: Surface>(pre: Screen<C>, post: Screen<C>, control: u8)
    requires
        Screen::draws(pre, post, control),
        control_fill(control),
        !control_flip_y(control),
        pre.regs().x <= pre.width_spec(),
        pre.regs().y <= pre.height_spec(),
        post.canvas().fills().len() > pre.canvas().fills().len(),
    ensures
        post.canvas().fills().last() == (
            if control_flip_x(control) {
                Rect {
                    x: 0,
                    y: pre.regs().y as i32,
                    width: pre.regs().x as u32,
                    height: (pre.height_spec() - pre.regs().y) as u32,
                }
            } else {
                Rect {
                    x: pre.regs().x as i32,
                    y: pre.regs().y as i32,
                    width: (pre.width_spec() - pre.regs().x) as u32,
                    height: (pre.height_spec() - pre.regs().y) as u32,
                }
            },
            control_colour(control),
        ),
{
}

} // verus!
