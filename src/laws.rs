use vstd::prelude::*;

use crate::cpu::{step_spec, wrap12, CpuState, Machine, STACK_DEPTH};
use crate::display::{collides, covers, drawn};
use crate::errors::Chip8Error;
use crate::keypad::Keypad;
use crate::memory::word_at;
use crate::opcode::{decoded, lemma_decoded, op_addr, op_group, op_kk, op_x};

verus! {

/// Fetching, decoding and executing a load-byte instruction (group 6) writes its byte
/// into its register, moves PC past it, and changes nothing else.
pub proof fn law_load_byte(m: Machine, keys: Keypad, rnd: u8)
    requires
        m.cpu.waiting is None,
        op_group(word_at(m.mem, m.cpu.pc)) == 6,
    ensures
        ({
            let code = word_at(m.mem, m.cpu.pc);
            step_spec(m, keys, rnd) == Ok::<Machine, Chip8Error>(
                Machine {
                    cpu: CpuState {
                        v: m.cpu.v.update(op_x(code) as int, op_kk(code)),
                        pc: wrap12(m.cpu.pc + 2),
                        ..m.cpu
                    },
                    ..m
                },
            )
        }),
{
    let code = word_at(m.mem, m.cpu.pc);
    lemma_decoded(code, decoded(code));
}

/// Drawing a sprite twice at the same place leaves the grid as it was, and the second
/// draw reports a collision exactly when the first one lit some pixel.
pub proof fn law_draw_twice(grid: Seq<bool>, x: int, y: int, sprite: Seq<u8>)
    ensures
        drawn(drawn(grid, x, y, sprite), x, y, sprite) == grid,
        collides(drawn(grid, x, y, sprite), x, y, sprite) <==> exists|k: int|
            0 <= k < grid.len() && !grid[k] && #[trigger] covers(x, y, sprite, k),
{
    assert(drawn(drawn(grid, x, y, sprite), x, y, sprite) =~= grid);
    let once = drawn(grid, x, y, sprite);
    if collides(once, x, y, sprite) {
        let k = choose|k: int| 0 <= k < once.len() && #[trigger] once[k] && covers(x, y, sprite, k);
        assert(!grid[k]);
    }
    if exists|k: int| 0 <= k < grid.len() && !grid[k] && #[trigger] covers(x, y, sprite, k) {
        let k = choose|k: int| 0 <= k < grid.len() && !grid[k] && #[trigger] covers(x, y, sprite, k);
        assert(once[k]);
    }
}

/// A call followed by the return at its target brings PC back to the instruction after
/// the call, and the stack pointer back to where it was.
pub proof fn law_call_return(m: Machine, keys: Keypad, rnd: u8)
    requires
        m.cpu.waiting is None,
        m.cpu.sp < STACK_DEPTH - 1,
        m.cpu.stack.len() == STACK_DEPTH,
        op_group(word_at(m.mem, m.cpu.pc)) == 2,
        word_at(m.mem, op_addr(word_at(m.mem, m.cpu.pc))) == 0x00EE,
    ensures
        step_spec(m, keys, rnd) is Ok,
        ({
            let called = step_spec(m, keys, rnd).unwrap();
            &&& step_spec(called, keys, rnd) is Ok
            &&& step_spec(called, keys, rnd).unwrap().cpu.pc == wrap12(m.cpu.pc + 2)
            &&& step_spec(called, keys, rnd).unwrap().cpu.sp == m.cpu.sp
            &&& step_spec(called, keys, rnd).unwrap().mem == m.mem
        }),
{
    let code = word_at(m.mem, m.cpu.pc);
    lemma_decoded(code, decoded(code));
    let called = step_spec(m, keys, rnd).unwrap();
    lemma_decoded(0x00EE, decoded(0x00EE));
    assert(called.cpu.pc == op_addr(code));
}

} // verus!
