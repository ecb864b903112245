use vstd::prelude::*;

use rand::RngExt;

use crate::bus::Bus;
use crate::bus::BusView;
use crate::bus::key_down;
use crate::decode::Instruction;
use crate::decode::decode;
use crate::decode::decode_spec;
use crate::decode::wf_instruction;
use crate::display::drawn_rows;
use crate::display::sprite_collides;
use crate::display::DISPLAY_ROWS;
use crate::error::Chip8Error;
use crate::ram::MEMORY_SIZE;

verus! {

/// Address where program images are placed and where execution starts.
pub const PROGRAM_START: u16 = 0x200;

/// Number of general-purpose registers `V0..VF`.
pub const NUM_REGISTERS: usize = 16;

/// Capacity of the call stack.
pub const STACK_CAPACITY: usize = 16;

#[verifier::external_type_specification]
#[verifier::external_body]
pub struct ExThreadRng(rand::rngs::ThreadRng);

/// Relies on rand::rng: a handle to the thread-local generator. Its one
/// failure mode is a panic if the operating system's random source fails
/// at first seeding; no input of ours influences that.
#[verifier::external_body]
fn fresh_rng() -> rand::rngs::ThreadRng {
    rand::rng()
}

/// Relies on rand::Rng::random::<u8>: one byte from the generator.
/// Nothing is promised of its value.
#[verifier::external_body]
fn random_byte(rng: &mut rand::rngs::ThreadRng) -> u8 {
    rng.random()
}

/// The abstract processor state: the register file, the program counter,
/// the index register and the call stack.
#[verifier::ext_equal]
pub struct CpuView {
    pub vx: Seq<u8>,
    pub pc: u16,
    pub idx: u16,
    pub stack: Seq<u16>,
}

impl CpuView {
    pub open spec fn wf(self) -> bool {
        &&& self.vx.len() == NUM_REGISTERS
        &&& self.stack.len() <= STACK_CAPACITY
        &&& self.idx < MEMORY_SIZE
    }
}

/// `(a + b) mod 256`.
pub open spec fn wrap_add(a: u8, b: u8) -> u8 {
    (((a + b) % 256) as u8)
}

/// `(a - b) mod 256`: wraps on underflow, never traps.
pub open spec fn wrap_sub(a: u8, b: u8) -> u8 {
    (((a + 256 - b) % 256) as u8)
}

/// The instruction word fetched at `pc`: big-endian, high byte first.
pub open spec fn fetch_word(mem: Seq<u8>, pc: u16) -> u16 {
    ((mem[pc as int] as u16) << 8u16) | (mem[pc as int + 1] as u16)
}

/// What one decoded instruction does to the processor and the bus, with
/// `r` the byte the random source produced (only `CXNN` reads it) and
/// `word` the raw instruction word, reported with stack errors. Mirrors
/// the instruction table row for row; errors leave no partial effect.
pub open spec fn exec_spec(
    c: CpuView,
    b: BusView,
    r: u8,
    word: u16,
    instr: Instruction,
) -> Result<(CpuView, BusView), Chip8Error> {
    let pc2 = ((c.pc + 2) as u16);
    let pc4 = ((c.pc + 4) as u16);
    match instr {
        Instruction::ClearScreen => Ok((
            CpuView { pc: pc2, ..c },
            BusView { rows: Seq::new(DISPLAY_ROWS as nat, |i: int| 0u64), ..b },
        )),
        Instruction::Return => if c.stack.len() == 0 {
            Err(Chip8Error::StackUnderflow { pc: c.pc, word })
        } else {
            Ok((
                CpuView {
                    pc: c.stack[c.stack.len() - 1],
                    stack: c.stack.subrange(0, c.stack.len() - 1),
                    ..c
                },
                b,
            ))
        },
        Instruction::Jump { nnn } => Ok((CpuView { pc: nnn, ..c }, b)),
        Instruction::Call { nnn } => if c.stack.len() >= STACK_CAPACITY {
            Err(Chip8Error::StackOverflow { pc: c.pc, word })
        } else {
            Ok((CpuView { pc: nnn, stack: c.stack.push(pc2), ..c }, b))
        },
        Instruction::SkipEqImm { x, nn } => Ok((
            CpuView { pc: if c.vx[x as int] == nn { pc4 } else { pc2 }, ..c },
            b,
        )),
        Instruction::SkipNeImm { x, nn } => Ok((
            CpuView { pc: if c.vx[x as int] != nn { pc4 } else { pc2 }, ..c },
            b,
        )),
        Instruction::SkipEqReg { x, y } => Ok((
            CpuView { pc: if c.vx[x as int] == c.vx[y as int] { pc4 } else { pc2 }, ..c },
            b,
        )),
        Instruction::SetImm { x, nn } => Ok((
            CpuView { vx: c.vx.update(x as int, nn), pc: pc2, ..c },
            b,
        )),
        Instruction::AddImm { x, nn } => Ok((
            CpuView { vx: c.vx.update(x as int, wrap_add(c.vx[x as int], nn)), pc: pc2, ..c },
            b,
        )),
        Instruction::Copy { x, y } => Ok((
            CpuView { vx: c.vx.update(x as int, c.vx[y as int]), pc: pc2, ..c },
            b,
        )),
        Instruction::Or { x, y } => Ok((
            CpuView { vx: c.vx.update(x as int, c.vx[x as int] | c.vx[y as int]), pc: pc2, ..c },
            b,
        )),
        Instruction::And { x, y } => Ok((
            CpuView { vx: c.vx.update(x as int, c.vx[x as int] & c.vx[y as int]), pc: pc2, ..c },
            b,
        )),
        Instruction::Xor { x, y } => Ok((
            CpuView { vx: c.vx.update(x as int, c.vx[x as int] ^ c.vx[y as int]), pc: pc2, ..c },
            b,
        )),
        Instruction::Add { x, y } => Ok((
            CpuView {
                vx: c.vx.update(x as int, wrap_add(c.vx[x as int], c.vx[y as int])).update(
                    15,
                    if c.vx[x as int] + c.vx[y as int] > 255 { 1u8 } else { 0u8 },
                ),
                pc: pc2,
                ..c
            },
            b,
        )),
        Instruction::Sub { x, y } => Ok((
            CpuView {
                vx: c.vx.update(
                    15,
                    if c.vx[x as int] >= c.vx[y as int] { 1u8 } else { 0u8 },
                ).update(x as int, wrap_sub(c.vx[x as int], c.vx[y as int])),
                pc: pc2,
                ..c
            },
            b,
        )),
        Instruction::ShiftRight { x, y } => Ok((
            CpuView {
                vx: c.vx.update(15, c.vx[x as int] % 2).update(x as int, c.vx[x as int] / 2),
                pc: pc2,
                ..c
            },
            b,
        )),
        Instruction::SubFrom { x, y } => Ok((
            CpuView {
                vx: c.vx.update(
                    15,
                    if c.vx[y as int] >= c.vx[x as int] { 1u8 } else { 0u8 },
                ).update(x as int, wrap_sub(c.vx[y as int], c.vx[x as int])),
                pc: pc2,
                ..c
            },
            b,
        )),
        Instruction::ShiftLeft { x, y } => Ok((
            CpuView {
                vx: c.vx.update(15, c.vx[x as int] / 128).update(
                    x as int,
                    wrap_add(c.vx[x as int], c.vx[x as int]),
                ),
                pc: pc2,
                ..c
            },
            b,
        )),
        Instruction::SkipNeReg { x, y } => Ok((
            CpuView { pc: if c.vx[x as int] != c.vx[y as int] { pc4 } else { pc2 }, ..c },
            b,
        )),
        Instruction::SetIndex { nnn } => Ok((CpuView { idx: nnn, pc: pc2, ..c }, b)),
        Instruction::JumpV0 { nnn } => Ok((
            CpuView { pc: ((c.vx[0] + nnn) as u16), ..c },
            b,
        )),
        Instruction::Random { x, nn } => Ok((
            CpuView { vx: c.vx.update(x as int, r & nn), pc: pc2, ..c },
            b,
        )),
        Instruction::Draw { x, y, n } => if c.idx + n > MEMORY_SIZE {
            Err(Chip8Error::OutOfBounds { address: c.idx })
        } else {
            Ok((
                CpuView {
                    vx: c.vx.update(
                        15,
                        if sprite_collides(
                            b.rows,
                            b.mem.subrange(c.idx as int, c.idx + n),
                            c.vx[x as int],
                            c.vx[y as int],
                            n as int,
                        ) {
                            1u8
                        } else {
                            0u8
                        },
                    ),
                    pc: pc2,
                    ..c
                },
                BusView {
                    rows: drawn_rows(
                        b.rows,
                        b.mem.subrange(c.idx as int, c.idx + n),
                        c.vx[x as int],
                        c.vx[y as int],
                        n as int,
                    ),
                    ..b
                },
            ))
        },
        Instruction::SkipKey { x } => Ok((
            CpuView { pc: if key_down(b.keys, (c.vx[x as int] % 16) as u8) { pc4 } else { pc2 }, ..c },
            b,
        )),
        Instruction::SkipNoKey { x } => Ok((
            CpuView { pc: if !key_down(b.keys, (c.vx[x as int] % 16) as u8) { pc4 } else { pc2 }, ..c },
            b,
        )),
        Instruction::ReadDelay { x } => Ok((
            CpuView { vx: c.vx.update(x as int, b.delay), pc: pc2, ..c },
            b,
        )),
        Instruction::SetDelay { x } => Ok((
            CpuView { pc: pc2, ..c },
            BusView { delay: c.vx[x as int], ..b },
        )),
        Instruction::SetSound { x } => Ok((
            CpuView { pc: pc2, ..c },
            BusView { sound: c.vx[x as int], ..b },
        )),
        Instruction::AddIndex { x } => Ok((
            CpuView { idx: (((c.idx + c.vx[x as int]) % (MEMORY_SIZE as int)) as u16), pc: pc2, ..c },
            b,
        )),
        Instruction::FontAddr { x } => Ok((
            CpuView { idx: ((5 * (c.vx[x as int] % 16)) as u16), pc: pc2, ..c },
            b,
        )),
        Instruction::StoreBcd { x } => if c.idx + 2 >= MEMORY_SIZE {
            Err(Chip8Error::OutOfBounds { address: c.idx })
        } else {
            Ok((
                CpuView { pc: pc2, ..c },
                BusView {
                    mem: b.mem.update(c.idx as int, c.vx[x as int] / 100).update(
                        c.idx as int + 1,
                        (c.vx[x as int] / 10) % 10,
                    ).update(c.idx as int + 2, c.vx[x as int] % 10),
                    ..b
                },
            ))
        },
        Instruction::StoreRegs { x } => if c.idx + x >= MEMORY_SIZE {
            Err(Chip8Error::OutOfBounds { address: c.idx })
        } else {
            Ok((
                CpuView { pc: pc2, ..c },
                BusView {
                    mem: Seq::new(
                        MEMORY_SIZE as nat,
                        |a: int| if c.idx <= a <= c.idx + x { c.vx[a - c.idx] } else { b.mem[a] },
                    ),
                    ..b
                },
            ))
        },
        Instruction::LoadRegs { x } => if c.idx + x >= MEMORY_SIZE {
            Err(Chip8Error::OutOfBounds { address: c.idx })
        } else {
            Ok((
                CpuView {
                    vx: Seq::new(
                        NUM_REGISTERS as nat,
                        |k: int| if k <= x { b.mem[c.idx + k] } else { c.vx[k] },
                    ),
                    pc: pc2,
                    ..c
                },
                b,
            ))
        },
    }
}

/// One whole fetch-decode-execute step on the abstract state: fails with
/// `OutOfBounds` when the program counter runs off the end of memory and
/// with `DecodeError` when the fetched word matches no instruction.
pub open spec fn step_spec(c: CpuView, b: BusView, r: u8) -> Result<(CpuView, BusView), Chip8Error> {
    if c.pc + 1 >= MEMORY_SIZE {
        Err(Chip8Error::OutOfBounds { address: c.pc })
    } else {
        let word = fetch_word(b.mem, c.pc);
        match decode_spec(word) {
            None => Err(Chip8Error::DecodeError { pc: c.pc, word }),
            Some(instr) => exec_spec(c, b, r, word, instr),
        }
    }
}

/// How an executed instruction's outcome relates the states before and
/// after: on success the new states are exactly what `exec_spec` gives;
/// on an error the error is returned and nothing has changed.
pub open spec fn exec_outcome(
    pre_c: CpuView,
    pre_b: BusView,
    r: u8,
    word: u16,
    instr: Instruction,
    post_c: CpuView,
    post_b: BusView,
    result: Result<(), Chip8Error>,
) -> bool {
    match exec_spec(pre_c, pre_b, r, word, instr) {
        Ok((c2, b2)) => result == Ok::<(), Chip8Error>(()) && post_c == c2 && post_b == b2,
        Err(e) => result == Err::<(), Chip8Error>(e) && post_c == pre_c && post_b == pre_b,
    }
}

/// How one whole step's outcome relates the states before and after: on
/// success the new states are exactly what `step_spec` gives; on an error
/// the error is returned and nothing has changed.
pub open spec fn step_outcome(
    pre_c: CpuView,
    pre_b: BusView,
    r: u8,
    post_c: CpuView,
    post_b: BusView,
    result: Result<(), Chip8Error>,
) -> bool {
    match step_spec(pre_c, pre_b, r) {
        Ok((c2, b2)) => result == Ok::<(), Chip8Error>(()) && post_c == c2 && post_b == b2,
        Err(e) => result == Err::<(), Chip8Error>(e) && post_c == pre_c && post_b == pre_b,
    }
}

/// The processor: sixteen 8-bit registers, a program counter, a 12-bit
/// index register, a bounded call stack, and the random source the
/// `CXNN` instruction reads.
pub struct Cpu {
    vx: Vec<u8>,
    pc: u16,
    idx: u16,
    stack: Vec<u16>,
    rng: rand::rngs::ThreadRng,
}

impl View for Cpu {
    type V = CpuView;

    closed spec fn view(&self) -> CpuView {
        CpuView { vx: self.vx@, pc: self.pc, idx: self.idx, stack: self.stack@ }
    }
}

impl Cpu {
    /// A reset processor: registers and index zero, empty stack, the
    /// program counter at the load address.
    pub fn new() -> (r: Cpu)
        ensures
            r@.wf(),
            r@.pc == PROGRAM_START,
            r@.idx == 0u16,
            r@.stack.len() == 0,
            forall|i: int| 0 <= i < NUM_REGISTERS ==> r@.vx[i] == 0u8,
    {
        Cpu {
            vx: vec![0u8; NUM_REGISTERS],
            pc: PROGRAM_START,
            idx: 0,
            stack: Vec::new(),
            rng: fresh_rng(),
        }
    }

    /// The value of register `index`.
    pub fn read_reg(&self, index: u8) -> (r: u8)
        requires
            self@.wf(),
            index < NUM_REGISTERS,
        ensures
            r == self@.vx[index as int],
    {
        self.vx[index as usize]
    }

    /// Sets register `index` to `value`, leaving all else unchanged.
    pub fn load_reg(&mut self, index: u8, value: u8)
        requires
            old(self)@.wf(),
            index < NUM_REGISTERS,
        ensures
            final(self)@.wf(),
            final(self)@ == (CpuView { vx: old(self)@.vx.update(index as int, value), ..old(self)@ }),
    {
        self.vx[index as usize] = value;
    }

    /// The program counter.
    pub fn get_pc(&self) -> (r: u16)
        ensures
            r == self@.pc,
    {
        self.pc
    }

    /// The index register.
    pub fn get_index(&self) -> (r: u16)
        ensures
            r == self@.idx,
    {
        self.idx
    }

    /// How many return addresses the call stack holds.
    pub fn stack_depth(&self) -> (r: usize)
        ensures
            r == self@.stack.len(),
    {
        self.stack.len()
    }

    /// Performs one fetch-decode-execute cycle against `bus`: exactly one
    /// step of `step_spec`, for some byte `r` of the random source. A
    /// fatal error is returned to the driver and leaves every part of the
    /// state as it was.
    pub fn exec_instruction(&mut self, bus: &mut Bus) -> (result: Result<(), Chip8Error>)
        requires
            old(self)@.wf(),
            old(bus)@.wf(),
        ensures
            final(self)@.wf(),
            final(bus)@.wf(),
            exists|r: u8|
                step_outcome(old(self)@, old(bus)@, r, final(self)@, final(bus)@, result),
    {
        if self.pc >= (MEMORY_SIZE as u16) - 1 {
            let e = Chip8Error::OutOfBounds { address: self.pc };
            proof {
                assert(step_outcome(old(self)@, old(bus)@, 0u8, self@, bus@, Err::<(), Chip8Error>(e)));
            }
            return Err(e);
        }
        let hi = bus.read_byte(self.pc);
        let lo = bus.read_byte(self.pc + 1);
        let word = ((hi as u16) << 8u16) | (lo as u16);
        match decode(word) {
            None => {
                let e = Chip8Error::DecodeError { pc: self.pc, word };
                proof {
                    assert(word == fetch_word(old(bus)@.mem, old(self)@.pc));
                    assert(step_outcome(old(self)@, old(bus)@, 0u8, self@, bus@, Err::<(), Chip8Error>(e)));
                }
                return Err(e);
            },
            Some(instr) => {
                let res = self.execute(bus, word, instr);
                proof {
                    assert(word == fetch_word(old(bus)@.mem, old(self)@.pc));
                    let r = choose|r: u8|
                        exec_outcome(old(self)@, old(bus)@, r, word, instr, self@, bus@, res);
                    assert(step_outcome(old(self)@, old(bus)@, r, self@, bus@, res));
                }
                res
            },
        }
    }

    /// Applies one already-decoded instruction: the dispatch over the
    /// instruction table.
    fn execute(&mut self, bus: &mut Bus, word: u16, instr: Instruction) -> (result: Result<
        (),
        Chip8Error,
    >)
        requires
            old(self)@.wf(),
            old(bus)@.wf(),
            wf_instruction(instr),
            old(self)@.pc + 1 < MEMORY_SIZE,
        ensures
            final(self)@.wf(),
            final(bus)@.wf(),
            exists|r: u8|
                exec_outcome(old(self)@, old(bus)@, r, word, instr, final(self)@, final(bus)@, result),
    {
        match instr {
            Instruction::ClearScreen => {
                bus.clear_screen();
                self.pc = self.pc + 2;
                proof {
                    assert(exec_outcome(old(self)@, old(bus)@, 0u8, word, instr, self@, bus@, Ok::<(), Chip8Error>(())));
                }
                Ok(())
            },
            Instruction::Return => {
                match self.stack.pop() {
                    Some(addr) => {
                        self.pc = addr;
                        proof {
                            assert(exec_outcome(old(self)@, old(bus)@, 0u8, word, instr, self@, bus@, Ok::<(), Chip8Error>(())));
                        }
                        Ok(())
                    },
                    None => {
                        let e = Chip8Error::StackUnderflow { pc: self.pc, word };
                        proof {
                            assert(exec_outcome(old(self)@, old(bus)@, 0u8, word, instr, self@, bus@, Err::<(), Chip8Error>(e)));
                        }
                        Err(e)
                    },
                }
            },
            Instruction::Jump { nnn } => {
                self.pc = nnn;
                proof {
                    assert(exec_outcome(old(self)@, old(bus)@, 0u8, word, instr, self@, bus@, Ok::<(), Chip8Error>(())));
                }
                Ok(())
            },
            Instruction::Call { nnn } => {
                if self.stack.len() >= STACK_CAPACITY {
                    let e = Chip8Error::StackOverflow { pc: self.pc, word };
                    proof {
                        assert(exec_outcome(old(self)@, old(bus)@, 0u8, word, instr, self@, bus@, Err::<(), Chip8Error>(e)));
                    }
                    Err(e)
                } else {
                    self.stack.push(self.pc + 2);
                    self.pc = nnn;
                    proof {
                        assert(exec_outcome(old(self)@, old(bus)@, 0u8, word, instr, self@, bus@, Ok::<(), Chip8Error>(())));
                    }
                    Ok(())
                }
            },
            Instruction::SkipEqImm { x, nn } => {
                let vx = self.vx[x as usize];
                self.pc = if vx == nn { self.pc + 4 } else { self.pc + 2 };
                proof {
                    assert(exec_outcome(old(self)@, old(bus)@, 0u8, word, instr, self@, bus@, Ok::<(), Chip8Error>(())));
                }
                Ok(())
            },
            Instruction::SkipNeImm { x, nn } => {
                let vx = self.vx[x as usize];
                self.pc = if vx != nn { self.pc + 4 } else { self.pc + 2 };
                proof {
                    assert(exec_outcome(old(self)@, old(bus)@, 0u8, word, instr, self@, bus@, Ok::<(), Chip8Error>(())));
                }
                Ok(())
            },
            Instruction::SkipEqReg { x, y } => {
                let vx = self.vx[x as usize];
                let vy = self.vx[y as usize];
                self.pc = if vx == vy { self.pc + 4 } else { self.pc + 2 };
                proof {
                    assert(exec_outcome(old(self)@, old(bus)@, 0u8, word, instr, self@, bus@, Ok::<(), Chip8Error>(())));
                }
                Ok(())
            },
            Instruction::SetImm { x, nn } => {
                self.vx[x as usize] = nn;
                self.pc = self.pc + 2;
                proof {
                    assert(exec_outcome(old(self)@, old(bus)@, 0u8, word, instr, self@, bus@, Ok::<(), Chip8Error>(())));
                }
                Ok(())
            },
            Instruction::AddImm { x, nn } => {
                let vx = self.vx[x as usize];
                self.vx[x as usize] = ((vx as u16 + nn as u16) % 256) as u8;
                self.pc = self.pc + 2;
                proof {
                    assert(exec_outcome(old(self)@, old(bus)@, 0u8, word, instr, self@, bus@, Ok::<(), Chip8Error>(())));
                }
                Ok(())
            },
            Instruction::Copy { x, y } => {
                let vy = self.vx[y as usize];
                self.vx[x as usize] = vy;
                self.pc = self.pc + 2;
                proof {
                    assert(exec_outcome(old(self)@, old(bus)@, 0u8, word, instr, self@, bus@, Ok::<(), Chip8Error>(())));
                }
                Ok(())
            },
            Instruction::Or { x, y } => {
                let vx = self.vx[x as usize];
                let vy = self.vx[y as usize];
                self.vx[x as usize] = vx | vy;
                self.pc = self.pc + 2;
                proof {
                    assert(exec_outcome(old(self)@, old(bus)@, 0u8, word, instr, self@, bus@, Ok::<(), Chip8Error>(())));
                }
                Ok(())
            },
            Instruction::And { x, y } => {
                let vx = self.vx[x as usize];
                let vy = self.vx[y as usize];
                self.vx[x as usize] = vx & vy;
                self.pc = self.pc + 2;
                proof {
                    assert(exec_outcome(old(self)@, old(bus)@, 0u8, word, instr, self@, bus@, Ok::<(), Chip8Error>(())));
                }
                Ok(())
            },
            Instruction::Xor { x, y } => {
                let vx = self.vx[x as usize];
                let vy = self.vx[y as usize];
                self.vx[x as usize] = vx ^ vy;
                self.pc = self.pc + 2;
                proof {
                    assert(exec_outcome(old(self)@, old(bus)@, 0u8, word, instr, self@, bus@, Ok::<(), Chip8Error>(())));
                }
                Ok(())
            },
            Instruction::Add { x, y } => {
                let vx = self.vx[x as usize];
                let vy = self.vx[y as usize];
                let sum: u16 = vx as u16 + vy as u16;
                self.vx[x as usize] = (sum % 256) as u8;
                self.vx[15] = if sum > 255 { 1 } else { 0 };
                self.pc = self.pc + 2;
                proof {
                    assert(exec_outcome(old(self)@, old(bus)@, 0u8, word, instr, self@, bus@, Ok::<(), Chip8Error>(())));
                }
                Ok(())
            },
            Instruction::Sub { x, y } => {
                let vx = self.vx[x as usize];
                let vy = self.vx[y as usize];
                self.vx[15] = if vx >= vy { 1 } else { 0 };
                self.vx[x as usize] = ((vx as u16 + 256 - vy as u16) % 256) as u8;
                self.pc = self.pc + 2;
                proof {
                    assert(exec_outcome(old(self)@, old(bus)@, 0u8, word, instr, self@, bus@, Ok::<(), Chip8Error>(())));
                }
                Ok(())
            },
            Instruction::ShiftRight { x, y } => {
                let vx = self.vx[x as usize];
                self.vx[15] = vx % 2;
                self.vx[x as usize] = vx / 2;
                self.pc = self.pc + 2;
                proof {
                    assert(exec_outcome(old(self)@, old(bus)@, 0u8, word, instr, self@, bus@, Ok::<(), Chip8Error>(())));
                }
                Ok(())
            },
            Instruction::SubFrom { x, y } => {
                let vx = self.vx[x as usize];
                let vy = self.vx[y as usize];
                self.vx[15] = if vy >= vx { 1 } else { 0 };
                self.vx[x as usize] = ((vy as u16 + 256 - vx as u16) % 256) as u8;
                self.pc = self.pc + 2;
                proof {
                    assert(exec_outcome(old(self)@, old(bus)@, 0u8, word, instr, self@, bus@, Ok::<(), Chip8Error>(())));
                }
                Ok(())
            },
            Instruction::ShiftLeft { x, y } => {
                let vx = self.vx[x as usize];
                self.vx[15] = vx / 128;
                self.vx[x as usize] = ((vx as u16 + vx as u16) % 256) as u8;
                self.pc = self.pc + 2;
                proof {
                    assert(exec_outcome(old(self)@, old(bus)@, 0u8, word, instr, self@, bus@, Ok::<(), Chip8Error>(())));
                }
                Ok(())
            },
            Instruction::SkipNeReg { x, y } => {
                let vx = self.vx[x as usize];
                let vy = self.vx[y as usize];
                self.pc = if vx != vy { self.pc + 4 } else { self.pc + 2 };
                proof {
                    assert(exec_outcome(old(self)@, old(bus)@, 0u8, word, instr, self@, bus@, Ok::<(), Chip8Error>(())));
                }
                Ok(())
            },
            Instruction::SetIndex { nnn } => {
                self.idx = nnn;
                self.pc = self.pc + 2;
                proof {
                    assert(exec_outcome(old(self)@, old(bus)@, 0u8, word, instr, self@, bus@, Ok::<(), Chip8Error>(())));
                }
                Ok(())
            },
            Instruction::JumpV0 { nnn } => {
                let v0 = self.vx[0];
                self.pc = v0 as u16 + nnn;
                proof {
                    assert(exec_outcome(old(self)@, old(bus)@, 0u8, word, instr, self@, bus@, Ok::<(), Chip8Error>(())));
                }
                Ok(())
            },
            Instruction::Random { x, nn } => {
                let rb = random_byte(&mut self.rng);
                self.vx[x as usize] = rb & nn;
                self.pc = self.pc + 2;
                proof {
                    assert(exec_outcome(old(self)@, old(bus)@, rb, word, instr, self@, bus@, Ok::<(), Chip8Error>(())));
                }
                Ok(())
            },
            Instruction::Draw { x, y, n } => {
                if (self.idx as usize) + (n as usize) > MEMORY_SIZE {
                    let e = Chip8Error::OutOfBounds { address: self.idx };
                    proof {
                        assert(exec_outcome(old(self)@, old(bus)@, 0u8, word, instr, self@, bus@, Err::<(), Chip8Error>(e)));
                    }
                    return Err(e);
                }
                let ghost cv0 = self@;
                let ghost bv0 = bus@;
                let mut sprite: Vec<u8> = Vec::new();
                let mut i: usize = 0;
                while i < n as usize
                    invariant
                        n < 16,
                        i <= n as usize,
                        self@ == cv0,
                        cv0.wf(),
                        bus@ == bv0,
                        bv0.wf(),
                        cv0.idx + n <= MEMORY_SIZE,
                        sprite@ == bv0.mem.subrange(cv0.idx as int, cv0.idx + i),
                    decreases n as usize - i,
                {
                    let b = bus.read_byte(self.idx + i as u16);
                    sprite.push(b);
                    proof {
                        assert(sprite@ =~= bv0.mem.subrange(cv0.idx as int, cv0.idx + i + 1));
                    }
                    i += 1;
                }
                let px = self.vx[x as usize];
                let py = self.vx[y as usize];
                let collided = bus.draw_sprite(px, py, &sprite);
                self.vx[15] = if collided { 1 } else { 0 };
                self.pc = self.pc + 2;
                proof {
                    assert(exec_outcome(old(self)@, old(bus)@, 0u8, word, instr, self@, bus@, Ok::<(), Chip8Error>(())));
                }
                Ok(())
            },
            Instruction::SkipKey { x } => {
                let key = self.vx[x as usize] % 16;
                let held = bus.is_pressed(key);
                self.pc = if held { self.pc + 4 } else { self.pc + 2 };
                proof {
                    assert(exec_outcome(old(self)@, old(bus)@, 0u8, word, instr, self@, bus@, Ok::<(), Chip8Error>(())));
                }
                Ok(())
            },
            Instruction::SkipNoKey { x } => {
                let key = self.vx[x as usize] % 16;
                let held = bus.is_pressed(key);
                self.pc = if !held { self.pc + 4 } else { self.pc + 2 };
                proof {
                    assert(exec_outcome(old(self)@, old(bus)@, 0u8, word, instr, self@, bus@, Ok::<(), Chip8Error>(())));
                }
                Ok(())
            },
            Instruction::ReadDelay { x } => {
                let d = bus.get_delay();
                self.vx[x as usize] = d;
                self.pc = self.pc + 2;
                proof {
                    assert(exec_outcome(old(self)@, old(bus)@, 0u8, word, instr, self@, bus@, Ok::<(), Chip8Error>(())));
                }
                Ok(())
            },
            Instruction::SetDelay { x } => {
                let vx = self.vx[x as usize];
                bus.set_delay(vx);
                self.pc = self.pc + 2;
                proof {
                    assert(exec_outcome(old(self)@, old(bus)@, 0u8, word, instr, self@, bus@, Ok::<(), Chip8Error>(())));
                }
                Ok(())
            },
            Instruction::SetSound { x } => {
                let vx = self.vx[x as usize];
                bus.set_sound(vx);
                self.pc = self.pc + 2;
                proof {
                    assert(exec_outcome(old(self)@, old(bus)@, 0u8, word, instr, self@, bus@, Ok::<(), Chip8Error>(())));
                }
                Ok(())
            },
            Instruction::AddIndex { x } => {
                let vx = self.vx[x as usize];
                self.idx = (self.idx + vx as u16) % (MEMORY_SIZE as u16);
                self.pc = self.pc + 2;
                proof {
                    assert(exec_outcome(old(self)@, old(bus)@, 0u8, word, instr, self@, bus@, Ok::<(), Chip8Error>(())));
                }
                Ok(())
            },
            Instruction::FontAddr { x } => {
                let digit = self.vx[x as usize] % 16;
                self.idx = 5 * (digit as u16);
                self.pc = self.pc + 2;
                proof {
                    assert(exec_outcome(old(self)@, old(bus)@, 0u8, word, instr, self@, bus@, Ok::<(), Chip8Error>(())));
                }
                Ok(())
            },
            Instruction::StoreBcd { x } => {
                if self.idx + 2 >= MEMORY_SIZE as u16 {
                    let e = Chip8Error::OutOfBounds { address: self.idx };
                    proof {
                        assert(exec_outcome(old(self)@, old(bus)@, 0u8, word, instr, self@, bus@, Err::<(), Chip8Error>(e)));
                    }
                    return Err(e);
                }
                let vx = self.vx[x as usize];
                bus.load_byte(self.idx, vx / 100);
                bus.load_byte(self.idx + 1, (vx / 10) % 10);
                bus.load_byte(self.idx + 2, vx % 10);
                self.pc = self.pc + 2;
                proof {
                    assert(exec_outcome(old(self)@, old(bus)@, 0u8, word, instr, self@, bus@, Ok::<(), Chip8Error>(())));
                }
                Ok(())
            },
            Instruction::StoreRegs { x } => {
                if (self.idx as usize) + (x as usize) >= MEMORY_SIZE {
                    let e = Chip8Error::OutOfBounds { address: self.idx };
                    proof {
                        assert(exec_outcome(old(self)@, old(bus)@, 0u8, word, instr, self@, bus@, Err::<(), Chip8Error>(e)));
                    }
                    return Err(e);
                }
                let ghost cv0 = self@;
                let ghost bv0 = bus@;
                let mut j: usize = 0;
                while j <= x as usize
                    invariant
                        x < 16,
                        j <= x as usize + 1,
                        self@ == cv0,
                        cv0.wf(),
                        bv0.wf(),
                        cv0.idx + x < MEMORY_SIZE,
                        bus@.mem.len() == MEMORY_SIZE,
                        bus@.rows == bv0.rows,
                        bus@.keys == bv0.keys,
                        bus@.delay == bv0.delay,
                        bus@.sound == bv0.sound,
                        forall|k: int| 0 <= k < j ==> bus@.mem[cv0.idx + k] == cv0.vx[k],
                        forall|a: int|
                            0 <= a < MEMORY_SIZE && !(cv0.idx <= a < cv0.idx + j) ==> bus@.mem[a]
                                == bv0.mem[a],
                    decreases x as usize + 1 - j,
                {
                    let v = self.vx[j];
                    bus.load_byte(self.idx + j as u16, v);
                    j += 1;
                }
                self.pc = self.pc + 2;
                proof {
                    assert(bus@.mem =~= Seq::new(
                        MEMORY_SIZE as nat,
                        |a: int| if cv0.idx <= a <= cv0.idx + x { cv0.vx[a - cv0.idx] } else { bv0.mem[a] },
                    ));
                    assert(exec_outcome(old(self)@, old(bus)@, 0u8, word, instr, self@, bus@, Ok::<(), Chip8Error>(())));
                }
                Ok(())
            },
            Instruction::LoadRegs { x } => {
                if (self.idx as usize) + (x as usize) >= MEMORY_SIZE {
                    let e = Chip8Error::OutOfBounds { address: self.idx };
                    proof {
                        assert(exec_outcome(old(self)@, old(bus)@, 0u8, word, instr, self@, bus@, Err::<(), Chip8Error>(e)));
                    }
                    return Err(e);
                }
                let ghost cv0 = self@;
                let ghost bv0 = bus@;
                let mut j: usize = 0;
                while j <= x as usize
                    invariant
                        x < 16,
                        j <= x as usize + 1,
                        bus@ == bv0,
                        cv0.wf(),
                        bv0.wf(),
                        cv0.idx + x < MEMORY_SIZE,
                        self@.vx.len() == NUM_REGISTERS,
                        self@.pc == cv0.pc,
                        self@.idx == cv0.idx,
                        self@.stack == cv0.stack,
                        forall|k: int| 0 <= k < j ==> self@.vx[k] == bv0.mem[cv0.idx + k],
                        forall|k: int| j <= k < NUM_REGISTERS ==> self@.vx[k] == cv0.vx[k],
                    decreases x as usize + 1 - j,
                {
                    let v = bus.read_byte(self.idx + j as u16);
                    self.vx[j] = v;
                    j += 1;
                }
                self.pc = self.pc + 2;
                proof {
                    assert(self@.vx =~= Seq::new(
                        NUM_REGISTERS as nat,
                        |k: int| if k <= x { bv0.mem[cv0.idx + k] } else { cv0.vx[k] },
                    ));
                    assert(exec_outcome(old(self)@, old(bus)@, 0u8, word, instr, self@, bus@, Ok::<(), Chip8Error>(())));
                }
                Ok(())
            },
        }
    }
}

} // verus!
