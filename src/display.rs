use vstd::prelude::*;

verus! {

/// Width of the screen in pixels.
pub const SCREEN_WIDTH: usize = 256;

/// Height of the screen in pixels.
pub const SCREEN_HEIGHT: usize = 240;

/// Number of pixels on the screen.
pub const SCREEN_PIXELS: usize = SCREEN_WIDTH * SCREEN_HEIGHT;

/// An RGB colour.
#[derive(Clone, Copy, Debug, PartialEq, Eq, Structural)]
pub struct Pixel {
    pub r: u8,
    pub g: u8,
    pub b: u8,
}

impl Pixel {
    pub fn new(r: u8, g: u8, b: u8) -> (p: Pixel)
        ensures
            p == (Pixel { r, g, b }),
    {
        Pixel { r, g, b }
    }
}

/// The picture a frontend presents: `SCREEN_HEIGHT` rows of
/// `SCREEN_WIDTH` pixels.
pub struct ScreenBuffer {
    buffer: Vec<Pixel>,
}

impl View for ScreenBuffer {
    /// The pixels row after row.
    type V = Seq<Pixel>;

    closed spec fn view(&self) -> Seq<Pixel> {
        self.buffer@
    }
}

/// Position in the row-major pixel sequence of the pixel at `row`, `col`.
pub open spec fn pixel_index(row: usize, col: usize) -> int {
    row * SCREEN_WIDTH + col
}

impl ScreenBuffer {
    /// An all-black screen.
    pub fn new() -> (r: ScreenBuffer)
        ensures
            r@ == Seq::new(SCREEN_PIXELS as nat, |i: int| Pixel { r: 0, g: 0, b: 0 }),
    {
        let mut buffer: Vec<Pixel> = Vec::with_capacity(SCREEN_PIXELS);
        let mut i: usize = 0;
        while i < SCREEN_PIXELS
            invariant
                i <= SCREEN_PIXELS,
                buffer@ == Seq::new(i as nat, |j: int| Pixel { r: 0, g: 0, b: 0 }),
            decreases SCREEN_PIXELS - i,
        {
            buffer.push(Pixel::new(0, 0, 0));
            i += 1;
            assert(buffer@ =~= Seq::new(i as nat, |j: int| Pixel { r: 0, g: 0, b: 0 }));
        }
        ScreenBuffer { buffer }
    }

    pub fn write_pixel(&mut self, row: usize, col: usize, pixel: Pixel)
        requires
            old(self)@.len() == SCREEN_PIXELS,
            row < SCREEN_HEIGHT,
            col < SCREEN_WIDTH,
        ensures
            final(self)@ == old(self)@.update(pixel_index(row, col), pixel),
    {
        self.buffer.set(row * SCREEN_WIDTH + col, pixel);
    }

    pub fn read_pixel(&self, row: usize, col: usize) -> (p: Pixel)
        requires
            self@.len() == SCREEN_PIXELS,
            row < SCREEN_HEIGHT,
            col < SCREEN_WIDTH,
        ensures
            p == self@[pixel_index(row, col)],
    {
        self.buffer[row * SCREEN_WIDTH + col]
    }
}

} // verus!
