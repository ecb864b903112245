use vstd::prelude::*;

use crate::bus::Bus;
use crate::bus::BusView;
use crate::cpu::Cpu;
use crate::cpu::CpuView;
use crate::cpu::PROGRAM_START;
use crate::cpu::step_outcome;
use crate::error::Chip8Error;
use crate::ram::MEMORY_SIZE;

verus! {

/// The abstract state of a whole machine: processor and bus together.
#[verifier::ext_equal]
pub struct Chip8View {
    pub cpu: CpuView,
    pub bus: BusView,
}

/// One machine: the processor together with the bus it executes against.
/// The driver loads a program image, then calls `clock` once per
/// instruction at whatever cadence it chooses.
pub struct Chip8 {
    bus: Bus,
    cpu: Cpu,
}

impl View for Chip8 {
    type V = Chip8View;

    closed spec fn view(&self) -> Chip8View {
        Chip8View { cpu: self.cpu@, bus: self.bus@ }
    }
}

impl Chip8 {
    pub open spec fn wf(&self) -> bool {
        &&& self@.cpu.wf()
        &&& self@.bus.wf()
    }

    /// A reset machine: zeroed memory and registers, the program counter
    /// at the load address.
    pub fn new() -> (r: Chip8)
        ensures
            r.wf(),
            r@.cpu.pc == PROGRAM_START,
            r@.cpu.idx == 0u16,
            r@.cpu.stack.len() == 0,
            forall|i: int| 0 <= i < 16 ==> r@.cpu.vx[i] == 0u8,
            forall|a: int| 0 <= a < MEMORY_SIZE ==> r@.bus.mem[a] == 0u8,
            r@.bus.keys == 0u16,
            r@.bus.delay == 0u8,
            r@.bus.sound == 0u8,
    {
        Chip8 { bus: Bus::new(), cpu: Cpu::new() }
    }

    /// Copies a program image verbatim into memory at the load address:
    /// byte `i` of `buffer` lands at address `PROGRAM_START + i`. An
    /// image that would run past the end of memory is refused whole, with
    /// the first address it would overrun.
    pub fn load(&mut self, buffer: Vec<u8>) -> (result: Result<(), Chip8Error>)
        requires
            old(self).wf(),
        ensures
            final(self).wf(),
            final(self)@.cpu == old(self)@.cpu,
            result is Ok <==> buffer@.len() <= MEMORY_SIZE - PROGRAM_START,
            result is Ok ==> {
                &&& forall|i: int|
                    0 <= i < buffer@.len() ==> final(self)@.bus.mem[PROGRAM_START + i] == buffer@[i]
                &&& forall|a: int|
                    0 <= a < MEMORY_SIZE && !(PROGRAM_START <= a < PROGRAM_START + buffer@.len())
                        ==> final(self)@.bus.mem[a] == old(self)@.bus.mem[a]
                &&& final(self)@.bus == (BusView { mem: final(self)@.bus.mem, ..old(self)@.bus })
            },
            result is Err ==> {
                &&& result == Err::<(), Chip8Error>(Chip8Error::OutOfBounds {
                    address: MEMORY_SIZE as u16,
                })
                &&& final(self)@ == old(self)@
            },
    {
        if buffer.len() > MEMORY_SIZE - (PROGRAM_START as usize) {
            return Err(Chip8Error::OutOfBounds { address: MEMORY_SIZE as u16 });
        }
        let ghost bv0 = self@.bus;
        let mut i: usize = 0;
        while i < buffer.len()
            invariant
                buffer@.len() <= MEMORY_SIZE - PROGRAM_START,
                i <= buffer@.len(),
                self@.cpu == old(self)@.cpu,
                self.wf(),
                bv0.wf(),
                self@.bus.rows == bv0.rows,
                self@.bus.keys == bv0.keys,
                self@.bus.delay == bv0.delay,
                self@.bus.sound == bv0.sound,
                forall|k: int| 0 <= k < i ==> self@.bus.mem[PROGRAM_START + k] == buffer@[k],
                forall|a: int|
                    0 <= a < MEMORY_SIZE && !(PROGRAM_START <= a < PROGRAM_START + i)
                        ==> self@.bus.mem[a] == bv0.mem[a],
            decreases buffer@.len() - i,
        {
            let byte = buffer[i];
            self.bus.load_byte(PROGRAM_START + i as u16, byte);
            i += 1;
        }
        proof {
            assert(self@.bus =~= (BusView { mem: self@.bus.mem, ..bv0 }));
        }
        Ok(())
    }

    /// Performs one fetch-decode-execute cycle: one step of `step_spec`
    /// on the machine's abstract state, for some byte of the random
    /// source. A fatal error is surfaced unchanged and leaves the whole
    /// machine as it was.
    pub fn clock(&mut self) -> (result: Result<(), Chip8Error>)
        requires
            old(self).wf(),
        ensures
            final(self).wf(),
            exists|r: u8|
                step_outcome(
                    old(self)@.cpu,
                    old(self)@.bus,
                    r,
                    final(self)@.cpu,
                    final(self)@.bus,
                    result,
                ),
    {
        let ghost c0 = self.cpu@;
        let ghost b0 = self.bus@;
        let result = self.cpu.exec_instruction(&mut self.bus);
        proof {
            let r = choose|r: u8| step_outcome(c0, b0, r, self.cpu@, self.bus@, result);
            assert(step_outcome(old(self)@.cpu, old(self)@.bus, r, self@.cpu, self@.bus, result));
        }
        result
    }

    /// The processor, for inspection.
    pub fn cpu(&self) -> (r: &Cpu)
        ensures
            r@ == self@.cpu,
    {
        &self.cpu
    }

    /// The bus, for inspection.
    pub fn bus(&self) -> (r: &Bus)
        ensures
            r@ == self@.bus,
    {
        &self.bus
    }

    /// The bus, for the host: key state and timers live there.
    pub fn bus_mut(&mut self) -> (r: &mut Bus)
        ensures
            r@ == old(self)@.bus,
            final(self)@.bus == final(r)@,
            final(self)@.cpu == old(self)@.cpu,
    {
        &mut self.bus
    }
}

} // verus!
