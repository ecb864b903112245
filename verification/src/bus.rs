use vstd::prelude::*;

use crate::display::Display;
use crate::display::DISPLAY_ROWS;
use crate::display::drawn_rows;
use crate::display::sprite_collides;
use crate::ram::Ram;
use crate::ram::MEMORY_SIZE;

verus! {

/// The abstract contents of the bus: memory bytes, display rows, the
/// keypad bitmap (bit `k` set when key `k` is held) and the two timers.
pub struct BusView {
    pub mem: Seq<u8>,
    pub rows: Seq<u64>,
    pub keys: u16,
    pub delay: u8,
    pub sound: u8,
}

impl BusView {
    pub open spec fn wf(self) -> bool {
        &&& self.mem.len() == MEMORY_SIZE
        &&& self.rows.len() == DISPLAY_ROWS
    }
}

/// Whether key `key` (0 to 15) is held in the keypad bitmap `keys`.
pub open spec fn key_down(keys: u16, key: u8) -> bool {
    (keys >> (key as u16)) & 1 == 1
}

/// What the processor reaches beyond its own registers: the working
/// memory, the display surface, the 16-key keypad and the delay and sound
/// timers. The timers are only read and written here; decrementing them at
/// the machine's real-time rate is the driver's job.
pub struct Bus {
    ram: Ram,
    display: Display,
    keys: u16,
    delay_timer: u8,
    sound_timer: u8,
}

impl View for Bus {
    type V = BusView;

    closed spec fn view(&self) -> BusView {
        BusView {
            mem: self.ram@,
            rows: self.display@,
            keys: self.keys,
            delay: self.delay_timer,
            sound: self.sound_timer,
        }
    }
}

impl Bus {
    pub open spec fn wf(&self) -> bool {
        self@.wf()
    }

    /// A fresh bus: zeroed memory, blank display, no key held, both
    /// timers at zero.
    pub fn new() -> (r: Bus)
        ensures
            r.wf(),
            forall|i: int| 0 <= i < MEMORY_SIZE ==> r@.mem[i] == 0u8,
            forall|i: int| 0 <= i < DISPLAY_ROWS ==> r@.rows[i] == 0u64,
            r@.keys == 0u16,
            r@.delay == 0u8,
            r@.sound == 0u8,
    {
        Bus {
            ram: Ram::new(),
            display: Display::new(),
            keys: 0,
            delay_timer: 0,
            sound_timer: 0,
        }
    }

    /// The memory byte at `address`.
    pub fn read_byte(&self, address: u16) -> (r: u8)
        requires
            self.wf(),
            address < MEMORY_SIZE,
        ensures
            r == self@.mem[address as int],
    {
        self.ram.read_byte(address)
    }

    /// Stores `value` in memory at `address`; nothing else changes.
    pub fn load_byte(&mut self, address: u16, value: u8)
        requires
            old(self).wf(),
            address < MEMORY_SIZE,
        ensures
            final(self).wf(),
            final(self)@ == (BusView { mem: old(self)@.mem.update(address as int, value), ..old(self)@ }),
    {
        self.ram.load_byte(address, value);
    }

    /// Switches every display pixel off; nothing else changes.
    pub fn clear_screen(&mut self)
        requires
            old(self).wf(),
        ensures
            final(self).wf(),
            final(self)@ == (BusView { rows: Seq::new(DISPLAY_ROWS as nat, |i: int| 0u64), ..old(self)@ }),
    {
        self.display.clear();
        proof {
            assert(self@.rows =~= Seq::new(DISPLAY_ROWS as nat, |i: int| 0u64));
            assert(self@ =~= (BusView { rows: Seq::new(DISPLAY_ROWS as nat, |i: int| 0u64), ..old(self)@ }));
        }
    }

    /// Draws `sprite` at `(x, y)` on the display and reports whether any
    /// lit pixel was erased; nothing else changes.
    pub fn draw_sprite(&mut self, x: u8, y: u8, sprite: &Vec<u8>) -> (collided: bool)
        requires
            old(self).wf(),
            sprite@.len() <= 15,
        ensures
            final(self).wf(),
            final(self)@ == (BusView { rows: drawn_rows(old(self)@.rows, sprite@, x, y, sprite@.len() as int), ..old(self)@ }),
            collided == sprite_collides(old(self)@.rows, sprite@, x, y, sprite@.len() as int),
    {
        self.display.draw_sprite(x, y, sprite)
    }

    /// The 64 pixels of display row `row`, bit 63 the leftmost.
    pub fn row_bits(&self, row: u8) -> (r: u64)
        requires
            self.wf(),
            row < DISPLAY_ROWS,
        ensures
            r == self@.rows[row as int],
    {
        self.display.row_bits(row)
    }

    /// Whether key `key` (0 to 15) is currently held.
    pub fn is_pressed(&self, key: u8) -> (r: bool)
        requires
            key < 16,
        ensures
            r == key_down(self@.keys, key),
    {
        (self.keys >> (key as u16)) & 1 == 1
    }

    /// Host-facing: records key `key` (0 to 15) as held or released.
    pub fn set_key(&mut self, key: u8, held: bool)
        requires
            old(self).wf(),
            key < 16,
        ensures
            final(self).wf(),
            final(self)@ == (BusView {
                keys: if held {
                    old(self)@.keys | (1u16 << (key as u16))
                } else {
                    old(self)@.keys & !(1u16 << (key as u16))
                },
                ..old(self)@
            }),
    {
        if held {
            self.keys = self.keys | (1u16 << (key as u16));
        } else {
            self.keys = self.keys & !(1u16 << (key as u16));
        }
    }

    /// The delay timer's current value.
    pub fn get_delay(&self) -> (r: u8)
        ensures
            r == self@.delay,
    {
        self.delay_timer
    }

    /// Sets the delay timer; nothing else changes.
    pub fn set_delay(&mut self, value: u8)
        requires
            old(self).wf(),
        ensures
            final(self).wf(),
            final(self)@ == (BusView { delay: value, ..old(self)@ }),
    {
        self.delay_timer = value;
    }

    /// The sound timer's current value.
    pub fn get_sound(&self) -> (r: u8)
        ensures
            r == self@.sound,
    {
        self.sound_timer
    }

    /// Sets the sound timer; nothing else changes.
    pub fn set_sound(&mut self, value: u8)
        requires
            old(self).wf(),
        ensures
            final(self).wf(),
            final(self)@ == (BusView { sound: value, ..old(self)@ }),
    {
        self.sound_timer = value;
    }
}

} // verus!
