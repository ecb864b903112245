use vstd::prelude::*;

use crate::bus::BusView;
use crate::cpu::CpuView;
use crate::cpu::STACK_CAPACITY;
use crate::cpu::fetch_word;
use crate::cpu::step_spec;
use crate::decode::Instruction;
use crate::decode::decode_spec;
use crate::decode::wf_instruction;
use crate::error::Chip8Error;
use crate::ram::MEMORY_SIZE;

verus! {

/// Every instruction the decoder produces has its operand fields in
/// range: register indices below 16, addresses below 4096.
pub proof fn lemma_decoded_fields_in_range(word: u16)
    ensures
        decode_spec(word) matches Some(i) ==> wf_instruction(i),
{
    assert(word & 0x0FFF < 4096 && (word >> 8u16) & 0x0F < 16 && (word >> 4u16) & 0x0F < 16
        && word & 0x000F < 16) by (bit_vector);
}

/// Law: a step whose fetched word is `8XY4`, with `Vx = a` and `Vy = d`,
/// sets `Vx` to `(a + d) mod 256` and `VF` to 1 exactly when `a + d`
/// exceeds 255, advances the program counter by 2 and touches nothing
/// else. `x = 15` is excluded: there the flag write lands on `Vx` itself.
pub proof fn lemma_add_sets_sum_and_carry(c: CpuView, b: BusView, r: u8, x: u8, y: u8)
    requires
        c.wf(),
        b.wf(),
        c.pc + 1 < MEMORY_SIZE,
        decode_spec(fetch_word(b.mem, c.pc)) == Some(Instruction::Add { x, y }),
        x != 15,
    ensures
        ({
            let a = c.vx[x as int];
            let d = c.vx[y as int];
            step_spec(c, b, r) matches Ok(post) && {
                &&& post.0.vx[x as int] == (a + d) % 256
                &&& post.0.vx[15] == (if a + d > 255 { 1u8 } else { 0u8 })
                &&& post.0.pc == c.pc + 2
                &&& post.1 == b
            }
        }),
{
    lemma_decoded_fields_in_range(fetch_word(b.mem, c.pc));
}

/// Law: a step whose fetched word is `8XY5`, with `Vx = a` and `Vy = d`,
/// sets `Vx` to `(a - d) mod 256` and `VF` to 1 exactly when `a >= d`
/// (no borrow), advances the program counter by 2 and touches nothing
/// else. `x = 15` is excluded: there the difference overwrites the flag.
pub proof fn lemma_sub_sets_difference_and_borrow(c: CpuView, b: BusView, r: u8, x: u8, y: u8)
    requires
        c.wf(),
        b.wf(),
        c.pc + 1 < MEMORY_SIZE,
        decode_spec(fetch_word(b.mem, c.pc)) == Some(Instruction::Sub { x, y }),
        x != 15,
    ensures
        ({
            let a = c.vx[x as int];
            let d = c.vx[y as int];
            step_spec(c, b, r) matches Ok(post) && {
                &&& post.0.vx[x as int] == (a - d) % 256
                &&& post.0.vx[15] == (if a >= d { 1u8 } else { 0u8 })
                &&& post.0.pc == c.pc + 2
                &&& post.1 == b
            }
        }),
{
    lemma_decoded_fields_in_range(fetch_word(b.mem, c.pc));
    let a = c.vx[x as int];
    let d = c.vx[y as int];
    assert((a + 256 - d) % 256 == (a - d) % 256) by {
        assert((a - d) % 256 == ((a - d) + 256) % 256) by (nonlinear_arith);
    };
}

/// Law: a `2NNN` call followed at once by the `00EE` return it reached
/// restores the program counter to the instruction after the call, with
/// the stack and the whole bus as they were.
pub proof fn lemma_call_then_return_restores_pc(c: CpuView, b: BusView, r1: u8, r2: u8, nnn: u16)
    requires
        c.wf(),
        b.wf(),
        c.pc + 1 < MEMORY_SIZE,
        decode_spec(fetch_word(b.mem, c.pc)) == Some(Instruction::Call { nnn }),
        c.stack.len() < STACK_CAPACITY,
        nnn + 1 < MEMORY_SIZE,
        decode_spec(fetch_word(b.mem, nnn)) == Some(Instruction::Return),
    ensures
        ({
            step_spec(c, b, r1) matches Ok(mid) && (step_spec(mid.0, mid.1, r2) matches Ok(post)
                && {
                &&& post.0.pc == c.pc + 2
                &&& post.0.stack == c.stack
                &&& post.0.vx == c.vx
                &&& post.1 == b
            })
        }),
{
    let mid = step_spec(c, b, r1)->Ok_0;
    assert(mid.0.pc == nnn && mid.0.stack == c.stack.push((c.pc + 2) as u16) && mid.1 == b);
    let post = step_spec(mid.0, mid.1, r2)->Ok_0;
    assert(post.0.stack =~= c.stack);
}

/// Law: a `2NNN` call arriving with the stack at capacity fails with
/// `StackOverflow`, reporting the offending program counter and word.
pub proof fn lemma_call_at_capacity_overflows(c: CpuView, b: BusView, r: u8, nnn: u16)
    requires
        c.wf(),
        b.wf(),
        c.pc + 1 < MEMORY_SIZE,
        decode_spec(fetch_word(b.mem, c.pc)) == Some(Instruction::Call { nnn }),
        c.stack.len() == STACK_CAPACITY,
    ensures
        step_spec(c, b, r) == Err::<(CpuView, BusView), Chip8Error>(Chip8Error::StackOverflow {
            pc: c.pc,
            word: fetch_word(b.mem, c.pc),
        }),
{
}

/// Law: a `00EE` return arriving with an empty stack fails with
/// `StackUnderflow`, reporting the offending program counter and word.
pub proof fn lemma_return_on_empty_stack_underflows(c: CpuView, b: BusView, r: u8)
    requires
        c.wf(),
        b.wf(),
        c.pc + 1 < MEMORY_SIZE,
        decode_spec(fetch_word(b.mem, c.pc)) == Some(Instruction::Return),
        c.stack.len() == 0,
    ensures
        step_spec(c, b, r) == Err::<(CpuView, BusView), Chip8Error>(Chip8Error::StackUnderflow {
            pc: c.pc,
            word: fetch_word(b.mem, c.pc),
        }),
{
}

/// Law: a step whose fetched word is `CXNN` sets `Vx` to the random byte
/// ANDed with `nn` — so with `nn = 0`, `Vx` becomes 0 whatever the random
/// source produced.
pub proof fn lemma_random_is_masked(c: CpuView, b: BusView, r: u8, x: u8, nn: u8)
    requires
        c.wf(),
        b.wf(),
        c.pc + 1 < MEMORY_SIZE,
        decode_spec(fetch_word(b.mem, c.pc)) == Some(Instruction::Random { x, nn }),
    ensures
        ({
            step_spec(c, b, r) matches Ok(post) && {
                &&& post.0.vx[x as int] == r & nn
                &&& nn == 0 ==> post.0.vx[x as int] == 0u8
                &&& post.0.pc == c.pc + 2
                &&& post.1 == b
            }
        }),
{
    lemma_decoded_fields_in_range(fetch_word(b.mem, c.pc));
    assert(r & 0 == 0) by (bit_vector);
}

} // verus!
