use vstd::prelude::*;

verus! {

/// Height of the display surface in pixel rows.
pub const DISPLAY_ROWS: usize = 32;

/// Width of the display surface in pixels; one row fits in a `u64`.
pub const DISPLAY_COLS: usize = 64;

/// `v` rotated right by `s` bit positions (`s < 64`).
pub open spec fn rotr64(v: u64, s: u64) -> u64 {
    if s == 0 {
        v
    } else {
        (v >> s) | (v << ((64 - s) as u64))
    }
}

/// The 64-pixel row pattern of one sprite byte placed with its leftmost
/// pixel at column `x` (taken modulo the display width), wrapping around
/// the right edge. Bit 63 of a row is the leftmost pixel.
pub open spec fn sprite_mask(b: u8, x: u8) -> u64 {
    rotr64((b as u64) << 56u64, (x % 64) as u64)
}

/// The display row a sprite's line `i` lands on when the sprite is placed
/// at vertical position `y`: rows wrap around the bottom edge.
pub open spec fn row_index(y: u8, i: int) -> int {
    (y + i) % (DISPLAY_ROWS as int)
}

/// The rows after the first `n` bytes of `sprite` are drawn at `(x, y)`:
/// each byte is XORed, in order, into the row it lands on.
pub open spec fn drawn_rows(rows: Seq<u64>, sprite: Seq<u8>, x: u8, y: u8, n: int) -> Seq<u64>
    decreases n,
{
    if n <= 0 {
        rows
    } else {
        let prev = drawn_rows(rows, sprite, x, y, n - 1);
        let r = row_index(y, n - 1);
        prev.update(r, prev[r] ^ sprite_mask(sprite[n - 1], x))
    }
}

/// Whether drawing the first `n` bytes of `sprite` at `(x, y)` erases any
/// pixel that was already lit: some sprite bit overlaps a set bit of the
/// row it is XORed into.
pub open spec fn sprite_collides(rows: Seq<u64>, sprite: Seq<u8>, x: u8, y: u8, n: int) -> bool
    decreases n,
{
    if n <= 0 {
        false
    } else {
        let prev = drawn_rows(rows, sprite, x, y, n - 1);
        let r = row_index(y, n - 1);
        sprite_collides(rows, sprite, x, y, n - 1) || (prev[r] & sprite_mask(
            sprite[n - 1],
            x,
        )) != 0
    }
}

/// `v` rotated right by `s` bit positions.
pub fn rot_right_64(v: u64, s: u64) -> (r: u64)
    requires
        s < 64,
    ensures
        r == rotr64(v, s),
{
    if s == 0 {
        v
    } else {
        (v >> s) | (v << (64 - s))
    }
}

/// The monochrome display surface: 32 rows of 64 pixels, one bit per
/// pixel. Sprites are drawn by XOR, wrapping on both axes, and a draw
/// reports whether it erased any lit pixel.
pub struct Display {
    rows: Vec<u64>,
}

impl View for Display {
    type V = Seq<u64>;

    closed spec fn view(&self) -> Seq<u64> {
        self.rows@
    }
}

impl Display {
    pub open spec fn wf(&self) -> bool {
        self@.len() == DISPLAY_ROWS
    }

    /// A blank display.
    pub fn new() -> (r: Display)
        ensures
            r.wf(),
            forall|i: int| 0 <= i < DISPLAY_ROWS ==> r@[i] == 0u64,
    {
        Display { rows: vec![0u64; DISPLAY_ROWS] }
    }

    /// Switches every pixel off.
    pub fn clear(&mut self)
        ensures
            final(self).wf(),
            forall|i: int| 0 <= i < DISPLAY_ROWS ==> final(self)@[i] == 0u64,
    {
        self.rows = vec![0u64; DISPLAY_ROWS];
    }

    /// The 64 pixels of row `row`, bit 63 the leftmost.
    pub fn row_bits(&self, row: u8) -> (r: u64)
        requires
            self.wf(),
            row < DISPLAY_ROWS,
        ensures
            r == self@[row as int],
    {
        self.rows[row as usize]
    }

    /// Draws `sprite` with its top-left pixel at `(x, y)`, XORing each
    /// sprite byte into the row it lands on, and reports whether any lit
    /// pixel was erased. A sprite holds at most 15 bytes: its length comes
    /// from a 4-bit instruction field.
    pub fn draw_sprite(&mut self, x: u8, y: u8, sprite: &Vec<u8>) -> (collided: bool)
        requires
            old(self).wf(),
            sprite@.len() <= 15,
        ensures
            final(self).wf(),
            final(self)@ == drawn_rows(old(self)@, sprite@, x, y, sprite@.len() as int),
            collided == sprite_collides(old(self)@, sprite@, x, y, sprite@.len() as int),
    {
        let ghost rows0 = self@;
        let mut collided = false;
        let mut i: usize = 0;
        while i < sprite.len()
            invariant
                self.wf(),
                sprite@.len() <= 15,
                i <= sprite@.len(),
                self@ == drawn_rows(rows0, sprite@, x, y, i as int),
                collided == sprite_collides(rows0, sprite@, x, y, i as int),
            decreases sprite@.len() - i,
        {
            let b = sprite[i];
            let mask = rot_right_64((b as u64) << 56u64, (x % 64) as u64);
            assert(mask == sprite_mask(b, x));
            let r = ((y as usize) + i) % DISPLAY_ROWS;
            assert(r == row_index(y, i as int));
            if (self.rows[r] & mask) != 0 {
                collided = true;
            }
            let updated = self.rows[r] ^ mask;
            self.rows[r] = updated;
            i += 1;
        }
        collided
    }
}

} // verus!
