use vstd::prelude::*;

use crate::display::{collides, drawn, rendered, Display, DisplayView, GRID_SIZE};
use crate::errors::Chip8Error;
use crate::keypad::{key_down, Keypad};
use crate::memory::{lemma_memory_len, word_at, Memory, PROGRAM_START, SPRITE_SIZE};
use crate::opcode::{decoded, valid_code, Addr, Nib, OpCode};
use crate::registers::{lemma_registers_len, Registers, FLAG_REGISTER};
use crate::timers::Timers;

verus! {

broadcast use {lemma_registers_len, lemma_memory_len};

/// Nanoseconds between two instructions: 700 a second.
pub const CPU_PERIOD_NS: u64 = 1_000_000_000 / 700;

/// Slots of the call stack. Slot 0 is never written: a call first raises the stack
/// pointer, then stores the return address there.
pub const STACK_DEPTH: usize = 16;

/// What the processor holds, as plain values.
pub struct CpuState {
    pub v: Seq<u8>,
    pub idx: u16,
    pub pc: u16,
    pub sp: u8,
    pub stack: Seq<u16>,
    pub timers: Timers,
    /// The register that a pending key wait will fill.
    pub waiting: Option<u8>,
}

/// The processor, memory and display together, as plain values.
pub struct Machine {
    pub cpu: CpuState,
    pub mem: Seq<u8>,
    pub display: DisplayView,
}

/// The processor at power-on: registers, index and timers zero, PC at the program
/// start, stack empty, no key wait.
pub open spec fn initial_cpu() -> CpuState {
    CpuState {
        v: Seq::new(16, |i: int| 0u8),
        idx: 0,
        pc: PROGRAM_START,
        sp: 0,
        stack: Seq::new(STACK_DEPTH as nat, |i: int| 0u16),
        timers: Timers { delay: 0, sound: 0 },
        waiting: None,
    }
}

/// An address moved into the 12-bit space.
pub open spec fn wrap12(a: int) -> u16 {
    (a % 0x1000) as u16
}

pub open spec fn with_cpu(m: Machine, s: CpuState) -> Machine {
    Machine { cpu: s, ..m }
}

pub open spec fn with_v(s: CpuState, v: Seq<u8>) -> CpuState {
    CpuState { v, ..s }
}

/// Skips the next instruction when `cond` holds.
pub open spec fn skip_if(s: CpuState, cond: bool) -> CpuState {
    if cond {
        CpuState { pc: wrap12(s.pc + 2), ..s }
    } else {
        s
    }
}

/// The registers after an arithmetic instruction: VF set to `flag` first, then
/// register `x` set to `val`, so that with `x` = VF the result is what stays.
pub open spec fn alu(v: Seq<u8>, x: u8, flag: u8, val: u8) -> Seq<u8> {
    v.update(FLAG_REGISTER as int, flag).update(x as int, val)
}

/// The `n` sprite bytes from `idx` on.
pub open spec fn sprite_at(mem: Seq<u8>, idx: u16, n: u8) -> Seq<u8> {
    Seq::new(n as nat, |i: int| mem[wrap12(idx + i) as int])
}

/// How far address `a` lies past `base`, wrapping round the address space.
pub open spec fn addr_offset(a: int, base: int) -> int {
    if a >= base {
        a - base
    } else {
        a + 0x1000 - base
    }
}

/// Memory after V0 to Vx are stored from `idx` on.
pub open spec fn stored_regs(mem: Seq<u8>, v: Seq<u8>, idx: u16, x: u8) -> Seq<u8> {
    Seq::new(
        mem.len(),
        |a: int|
            if addr_offset(a, idx as int) <= x {
                v[addr_offset(a, idx as int)]
            } else {
                mem[a]
            },
    )
}

/// Registers after V0 to Vx are loaded from `idx` on.
pub open spec fn loaded_regs(v: Seq<u8>, mem: Seq<u8>, idx: u16, x: u8) -> Seq<u8> {
    Seq::new(
        v.len(),
        |i: int|
            if i <= x {
                mem[wrap12(idx + i) as int]
            } else {
                v[i]
            },
    )
}

/// Memory after the decimal digits of `val` are written at `idx`, `idx + 1`, `idx + 2`.
pub open spec fn bcd(mem: Seq<u8>, idx: u16, val: u8) -> Seq<u8> {
    mem.update(idx as int, val / 100).update(wrap12(idx + 1) as int, (val % 100) / 10).update(
        wrap12(idx + 2) as int,
        val % 10,
    )
}

/// The display after a clear: all pixels off, the buffer rendered again.
pub open spec fn cleared(d: DisplayView) -> DisplayView {
    let grid = Seq::new(GRID_SIZE as nat, |k: int| false);
    DisplayView { grid, buffer: rendered(grid, d.filled, d.empty), ..d }
}

/// What one instruction does to the machine, with `keys` as the input and `rnd` as the
/// random byte; or the fault it raises.
pub open spec fn apply_spec(m: Machine, op: OpCode, keys: Keypad, rnd: u8) -> Result<Machine, Chip8Error> {
    let s = m.cpu;
    let v = s.v;
    match op {
        OpCode::NoOp => Ok(m),
        OpCode::ClearScreen => Ok(Machine { display: cleared(m.display), ..m }),
        OpCode::Return => if s.sp == 0 {
            Err(Chip8Error::StackUnderflow)
        } else {
            Ok(with_cpu(m, CpuState { pc: s.stack[s.sp as int], sp: (s.sp - 1) as u8, ..s }))
        },
        OpCode::Jump(a) => Ok(with_cpu(m, CpuState { pc: a@, ..s })),
        OpCode::Call(a) => if s.sp >= STACK_DEPTH - 1 {
            Err(Chip8Error::StackOverflow)
        } else {
            Ok(
                with_cpu(
                    m,
                    CpuState {
                        sp: (s.sp + 1) as u8,
                        stack: s.stack.update(s.sp + 1, s.pc),
                        pc: a@,
                        ..s
                    },
                ),
            )
        },
        OpCode::SkipEqualByte(x, b) => Ok(with_cpu(m, skip_if(s, v[x@ as int] == b))),
        OpCode::SkipNotEqualByte(x, b) => Ok(with_cpu(m, skip_if(s, v[x@ as int] != b))),
        OpCode::SkipEqualReg(x, y) => Ok(with_cpu(m, skip_if(s, v[x@ as int] == v[y@ as int]))),
        OpCode::LoadByte(x, b) => Ok(with_cpu(m, with_v(s, v.update(x@ as int, b)))),
        OpCode::AddByte(x, b) => Ok(
            with_cpu(m, with_v(s, v.update(x@ as int, ((v[x@ as int] + b) % 0x100) as u8))),
        ),
        OpCode::LoadReg(x, y) => Ok(with_cpu(m, with_v(s, v.update(x@ as int, v[y@ as int])))),
        OpCode::OrReg(x, y) => Ok(
            with_cpu(m, with_v(s, v.update(x@ as int, v[x@ as int] | v[y@ as int]))),
        ),
        OpCode::AndReg(x, y) => Ok(
            with_cpu(m, with_v(s, v.update(x@ as int, v[x@ as int] & v[y@ as int]))),
        ),
        OpCode::XorReg(x, y) => Ok(
            with_cpu(m, with_v(s, v.update(x@ as int, v[x@ as int] ^ v[y@ as int]))),
        ),
        OpCode::AddReg(x, y) => {
            let sum = v[x@ as int] + v[y@ as int];
            Ok(
                with_cpu(
                    m,
                    with_v(s, alu(v, x@, if sum > 0xFF { 1 } else { 0 }, (sum % 0x100) as u8)),
                ),
            )
        },
        OpCode::SubReg(x, y) => {
            let a = v[x@ as int];
            let b = v[y@ as int];
            Ok(
                with_cpu(
                    m,
                    with_v(s, alu(v, x@, if a >= b { 1 } else { 0 }, ((a - b + 0x100) % 0x100) as u8)),
                ),
            )
        },
        OpCode::ShiftRight(x, _) => {
            let f = v.update(FLAG_REGISTER as int, v[x@ as int] % 2);
            Ok(with_cpu(m, with_v(s, f.update(x@ as int, f[x@ as int] / 2))))
        },
        OpCode::SubNot(x, y) => {
            let a = v[x@ as int];
            let b = v[y@ as int];
            Ok(
                with_cpu(
                    m,
                    with_v(s, alu(v, x@, if b >= a { 1 } else { 0 }, ((b - a + 0x100) % 0x100) as u8)),
                ),
            )
        },
        OpCode::ShiftLeft(x, _) => {
            let f = v.update(FLAG_REGISTER as int, v[x@ as int] / 0x80);
            Ok(with_cpu(m, with_v(s, f.update(x@ as int, ((f[x@ as int] * 2) % 0x100) as u8))))
        },
        OpCode::SkipNotEqualReg(x, y) => Ok(with_cpu(m, skip_if(s, v[x@ as int] != v[y@ as int]))),
        OpCode::LoadIndex(a) => Ok(with_cpu(m, CpuState { idx: a@, ..s })),
        OpCode::JumpV0(a) => Ok(with_cpu(m, CpuState { pc: wrap12(a@ + v[0]), ..s })),
        OpCode::RandomByte(x, b) => Ok(with_cpu(m, with_v(s, v.update(x@ as int, b & rnd)))),
        OpCode::Draw(x, y, h) => {
            let sprite = sprite_at(m.mem, s.idx, h@);
            let px = v[x@ as int] as int;
            let py = v[y@ as int] as int;
            let hit = collides(m.display.grid, px, py, sprite);
            Ok(
                Machine {
                    cpu: with_v(s, v.update(FLAG_REGISTER as int, if hit { 1 } else { 0 })),
                    display: DisplayView { grid: drawn(m.display.grid, px, py, sprite), ..m.display },
                    ..m
                },
            )
        },
        OpCode::SkipKeyPressed(x) => Ok(with_cpu(m, skip_if(s, key_down(keys, v[x@ as int])))),
        OpCode::SkipKeyNotPressed(x) => Ok(with_cpu(m, skip_if(s, !key_down(keys, v[x@ as int])))),
        OpCode::LoadDelay(x) => Ok(with_cpu(m, with_v(s, v.update(x@ as int, s.timers.delay)))),
        OpCode::WaitKey(x) => match keys.pressed {
            Some(k) => Ok(with_cpu(m, with_v(s, v.update(x@ as int, k)))),
            None => Ok(with_cpu(m, CpuState { waiting: Some(x@), ..s })),
        },
        OpCode::SetDelay(x) => Ok(
            with_cpu(m, CpuState { timers: Timers { delay: v[x@ as int], ..s.timers }, ..s }),
        ),
        OpCode::SetSound(x) => Ok(
            with_cpu(m, CpuState { timers: Timers { sound: v[x@ as int], ..s.timers }, ..s }),
        ),
        OpCode::AddToIndex(x) => Ok(with_cpu(m, CpuState { idx: wrap12(s.idx + v[x@ as int]), ..s })),
        OpCode::LoadFont(x) => Ok(with_cpu(m, CpuState { idx: (v[x@ as int] * SPRITE_SIZE) as u16, ..s })),
        OpCode::LoadBCD(x) => Ok(Machine { mem: bcd(m.mem, s.idx, v[x@ as int]), ..m }),
        OpCode::StoreRegs(x) => Ok(
            Machine {
                cpu: CpuState { idx: wrap12(s.idx + x@ + 1), ..s },
                mem: stored_regs(m.mem, v, s.idx, x@),
                ..m
            },
        ),
        OpCode::LoadRegs(x) => Ok(
            with_cpu(
                m,
                CpuState { v: loaded_regs(v, m.mem, s.idx, x@), idx: wrap12(s.idx + x@ + 1), ..s },
            ),
        ),
    }
}

/// One cycle: a pending key wait is served, or else the instruction at PC is fetched,
/// PC moves past it, and the instruction runs.
pub open spec fn step_spec(m: Machine, keys: Keypad, rnd: u8) -> Result<Machine, Chip8Error> {
    match m.cpu.waiting {
        Some(x) => match keys.pressed {
            Some(k) => Ok(
                with_cpu(m, CpuState { v: m.cpu.v.update(x as int, k), waiting: None, ..m.cpu }),
            ),
            None => Ok(m),
        },
        None => {
            let code = word_at(m.mem, m.cpu.pc);
            if valid_code(code) {
                apply_spec(
                    with_cpu(m, CpuState { pc: wrap12(m.cpu.pc + 2), ..m.cpu }),
                    decoded(code),
                    keys,
                    rnd,
                )
            } else {
                Err(Chip8Error::UnrecognizedOpcode(code))
            }
        },
    }
}

/// `after` and `r` are what `res` says: the new machine and `Ok`, or the fault with
/// the machine left as `before`.
pub open spec fn outcome(
    before: Machine,
    res: Result<Machine, Chip8Error>,
    r: Result<(), Chip8Error>,
    after: Machine,
) -> bool {
    match res {
        Ok(m) => r is Ok && after == m,
        Err(e) => r == Err::<(), Chip8Error>(e) && after == before,
    }
}

/// Relies on rand::random: a byte from the thread-local generator. Nothing is promised
/// of its value.
#[verifier::external_body]
fn draw_random_byte() -> (r: u8) {
    rand::random::<u8>()
}

/// The processor: registers, index, program counter, call stack and timers.
pub struct CPU {
    pub v: Registers,
    pub idx: Addr,
    pub timers: Timers,
    pub pc: Addr,
    pub sp: u8,
    pub stack: [Addr; STACK_DEPTH],
    /// The register that a pending key wait will fill.
    pub waiting: Option<Nib>,
}

impl View for CPU {
    type V = CpuState;

    open spec fn view(&self) -> CpuState {
        CpuState {
            v: self.v@,
            idx: self.idx@,
            pc: self.pc@,
            sp: self.sp,
            stack: self.stack@.map_values(|a: Addr| a@),
            timers: self.timers,
            waiting: match self.waiting {
                Some(n) => Some(n@),
                None => None,
            },
        }
    }
}

impl CPU {
    /// The stack pointer stays within the stack.
    pub open spec fn wf(&self) -> bool {
        self.sp < STACK_DEPTH
    }

    /// Registers, index and timers zero, PC at the program start, stack empty.
    pub fn new() -> (r: CPU)
        ensures
            r.wf(),
            r@ == initial_cpu(),
    {
        let zero = Addr::new();
        let r = CPU {
            v: Registers::new(),
            idx: Addr::new(),
            timers: Timers::new(),
            pc: Addr::from(PROGRAM_START),
            sp: 0,
            stack: [zero; STACK_DEPTH],
            waiting: None,
        };
        assert(r@.stack =~= Seq::new(STACK_DEPTH as nat, |i: int| 0u16));
        r
    }

    pub fn sound_timer(&self) -> (r: u8)
        ensures
            r == self.timers.sound,
    {
        self.timers.sound
    }

    /// Runs one cycle: serves a pending key wait, or fetches, decodes and executes the
    /// instruction at PC, drawing a random byte for it.
    pub fn execute(&mut self, mem: &mut Memory, display: &mut Display, keys: &Keypad) -> (r: Result<(), Chip8Error>)
        requires
            old(self).wf(),
        ensures
            final(self).wf(),
            exists|rnd: u8|
                outcome(
                    Machine { cpu: old(self)@, mem: old(mem)@, display: old(display)@ },
                    #[trigger] step_spec(Machine { cpu: old(self)@, mem: old(mem)@, display: old(display)@ }, *keys, rnd),
                    r,
                    Machine { cpu: final(self)@, mem: final(mem)@, display: final(display)@ },
                ),
    {
        let rnd = draw_random_byte();
        self.step(mem, display, keys, rnd)
    }

    /// Runs one cycle as `execute` does, with `rnd` as the random byte.
    pub fn step(&mut self, mem: &mut Memory, display: &mut Display, keys: &Keypad, rnd: u8) -> (r: Result<(), Chip8Error>)
        requires
            old(self).wf(),
        ensures
            final(self).wf(),
            outcome(
                Machine { cpu: old(self)@, mem: old(mem)@, display: old(display)@ },
                step_spec(Machine { cpu: old(self)@, mem: old(mem)@, display: old(display)@ }, *keys, rnd),
                r,
                Machine { cpu: final(self)@, mem: final(mem)@, display: final(display)@ },
            ),
    {
        if let Some(x) = self.waiting {
            if let Some(k) = keys.pressed {
                self.v.set(x, k);
                self.waiting = None;
            }
            return Ok(());
        }
        let code = mem.get_instruction(self.pc);
        let op = match OpCode::decode(code) {
            Ok(op) => op,
            Err(e) => return Err(e),
        };
        let pc = self.pc;
        self.pc = self.pc.add(2);
        let r = self.apply(op, mem, display, keys, rnd);
        if r.is_err() {
            self.pc = pc;
        }
        r
    }

    /// Executes one decoded instruction, with `rnd` as the random byte.
    pub fn apply(&mut self, op: OpCode, mem: &mut Memory, display: &mut Display, keys: &Keypad, rnd: u8) -> (r: Result<(), Chip8Error>)
        requires
            old(self).wf(),
        ensures
            final(self).wf(),
            outcome(
                Machine { cpu: old(self)@, mem: old(mem)@, display: old(display)@ },
                apply_spec(Machine { cpu: old(self)@, mem: old(mem)@, display: old(display)@ }, op, *keys, rnd),
                r,
                Machine { cpu: final(self)@, mem: final(mem)@, display: final(display)@ },
            ),
    {
        match op {
            OpCode::NoOp => {},
            OpCode::ClearScreen => self.cleared_screen(display),
            OpCode::Return => return self.return_subroutine(),
            OpCode::Jump(addr) => self.jump_addr(addr),
            OpCode::Call(addr) => return self.call_addr(addr),
            OpCode::SkipEqualByte(x, byte) => self.skip_eq_byte(x, byte),
            OpCode::SkipNotEqualByte(x, byte) => self.skip_neq_byte(x, byte),
            OpCode::SkipEqualReg(x, y) => self.skip_eq_reg(x, y),
            OpCode::LoadByte(x, byte) => self.load_byte(x, byte),
            OpCode::AddByte(x, byte) => self.add_byte(x, byte),
            OpCode::LoadReg(x, y) => self.load_reg(x, y),
            OpCode::OrReg(x, y) => self.or_reg(x, y),
            OpCode::AndReg(x, y) => self.and_reg(x, y),
            OpCode::XorReg(x, y) => self.xor_reg(x, y),
            OpCode::AddReg(x, y) => self.add_reg(x, y),
            OpCode::SubReg(x, y) => self.sub_reg(x, y),
            OpCode::ShiftRight(x, _) => self.shr_reg(x),
            OpCode::SubNot(x, y) => self.subn_reg(x, y),
            OpCode::ShiftLeft(x, _) => self.shl_reg(x),
            OpCode::SkipNotEqualReg(x, y) => self.skip_neq_reg(x, y),
            OpCode::LoadIndex(addr) => self.load_idx(addr),
            OpCode::JumpV0(addr) => self.jump_v0(addr),
            OpCode::RandomByte(x, byte) => self.random_byte(x, byte, rnd),
            OpCode::Draw(x, y, n) => self.draw(x, y, n, mem, display),
            OpCode::SkipKeyPressed(x) => self.skip_key_pressed(x, keys),
            OpCode::SkipKeyNotPressed(x) => self.skip_key_not_pressed(x, keys),
            OpCode::LoadDelay(x) => self.load_delay(x),
            OpCode::WaitKey(x) => self.wait_key(x, keys),
            OpCode::SetDelay(x) => self.set_delay(x),
            OpCode::SetSound(x) => self.set_sound(x),
            OpCode::AddToIndex(x) => self.add_idx(x),
            OpCode::LoadFont(x) => self.load_sprite(x),
            OpCode::LoadBCD(x) => self.load_bcd(x, mem),
            OpCode::StoreRegs(x) => self.store_regs(x, mem),
            OpCode::LoadRegs(x) => self.load_regs(x, mem),
        }
        Ok(())
    }

    fn return_subroutine(&mut self) -> (r: Result<(), Chip8Error>)
        requires
            old(self).wf(),
        ensures
            final(self).wf(),
            old(self).sp == 0 ==> r == Err::<(), Chip8Error>(Chip8Error::StackUnderflow)
                && final(self)@ == old(self)@,
            old(self).sp > 0 ==> r is Ok && final(self)@ == (CpuState {
                pc: old(self)@.stack[old(self).sp as int],
                sp: (old(self).sp - 1) as u8,
                ..old(self)@
            }),
    {
        if self.sp == 0 {
            return Err(Chip8Error::StackUnderflow);
        }
        self.pc = self.stack[self.sp as usize];
        self.sp = self.sp - 1;
        Ok(())
    }

    fn cleared_screen(&mut self, display: &mut Display)
        ensures
            final(self)@ == old(self)@,
            final(display)@ == cleared(old(display)@),
    {
        display.clear();
        assert(final(display)@.grid =~= cleared(old(display)@).grid);
    }

    fn jump_addr(&mut self, addr: Addr)
        ensures
            final(self)@ == (CpuState { pc: addr@, ..old(self)@ }),
    {
        self.pc = addr;
    }

    fn call_addr(&mut self, addr: Addr) -> (r: Result<(), Chip8Error>)
        requires
            old(self).wf(),
        ensures
            final(self).wf(),
            old(self).sp >= STACK_DEPTH - 1 ==> r == Err::<(), Chip8Error>(Chip8Error::StackOverflow)
                && final(self)@ == old(self)@,
            old(self).sp < STACK_DEPTH - 1 ==> r is Ok && final(self)@ == (CpuState {
                sp: (old(self).sp + 1) as u8,
                stack: old(self)@.stack.update(old(self).sp + 1, old(self)@.pc),
                pc: addr@,
                ..old(self)@
            }),
    {
        if self.sp as usize >= STACK_DEPTH - 1 {
            return Err(Chip8Error::StackOverflow);
        }
        self.sp = self.sp + 1;
        self.stack[self.sp as usize] = self.pc;
        self.pc = addr;
        assert(self@.stack =~= old(self)@.stack.update(old(self).sp + 1, old(self)@.pc));
        Ok(())
    }

    fn skip(&mut self, cond: bool)
        ensures
            final(self)@ == skip_if(old(self)@, cond),
    {
        if cond {
            self.pc = self.pc.add(2);
        }
    }

    fn skip_eq_byte(&mut self, vx: Nib, byte: u8)
        ensures
            final(self)@ == skip_if(old(self)@, old(self)@.v[vx@ as int] == byte),
    {
        let c = self.v.index(vx) == byte;
        self.skip(c);
    }

    fn skip_neq_byte(&mut self, vx: Nib, byte: u8)
        ensures
            final(self)@ == skip_if(old(self)@, old(self)@.v[vx@ as int] != byte),
    {
        let c = self.v.index(vx) != byte;
        self.skip(c);
    }

    fn skip_eq_reg(&mut self, vx: Nib, vy: Nib)
        ensures
            final(self)@ == skip_if(old(self)@, old(self)@.v[vx@ as int] == old(self)@.v[vy@ as int]),
    {
        let c = self.v.index(vx) == self.v.index(vy);
        self.skip(c);
    }

    fn skip_neq_reg(&mut self, vx: Nib, vy: Nib)
        ensures
            final(self)@ == skip_if(old(self)@, old(self)@.v[vx@ as int] != old(self)@.v[vy@ as int]),
    {
        let c = self.v.index(vx) != self.v.index(vy);
        self.skip(c);
    }

    fn load_byte(&mut self, vx: Nib, byte: u8)
        ensures
            final(self)@ == with_v(old(self)@, old(self)@.v.update(vx@ as int, byte)),
    {
        self.v.set(vx, byte);
    }

    fn add_byte(&mut self, vx: Nib, byte: u8)
        ensures
            final(self)@ == with_v(
                old(self)@,
                old(self)@.v.update(vx@ as int, ((old(self)@.v[vx@ as int] + byte) % 0x100) as u8),
            ),
    {
        let val = self.v.index(vx).wrapping_add(byte);
        self.v.set(vx, val);
    }

    fn load_reg(&mut self, vx: Nib, vy: Nib)
        ensures
            final(self)@ == with_v(old(self)@, old(self)@.v.update(vx@ as int, old(self)@.v[vy@ as int])),
    {
        let val = self.v.index(vy);
        self.v.set(vx, val);
    }

    fn or_reg(&mut self, vx: Nib, vy: Nib)
        ensures
            final(self)@ == with_v(
                old(self)@,
                old(self)@.v.update(vx@ as int, old(self)@.v[vx@ as int] | old(self)@.v[vy@ as int]),
            ),
    {
        let val = self.v.index(vx) | self.v.index(vy);
        self.v.set(vx, val);
    }

    fn and_reg(&mut self, vx: Nib, vy: Nib)
        ensures
            final(self)@ == with_v(
                old(self)@,
                old(self)@.v.update(vx@ as int, old(self)@.v[vx@ as int] & old(self)@.v[vy@ as int]),
            ),
    {
        let val = self.v.index(vx) & self.v.index(vy);
        self.v.set(vx, val);
    }

    fn xor_reg(&mut self, vx: Nib, vy: Nib)
        ensures
            final(self)@ == with_v(
                old(self)@,
                old(self)@.v.update(vx@ as int, old(self)@.v[vx@ as int] ^ old(self)@.v[vy@ as int]),
            ),
    {
        let val = self.v.index(vx) ^ self.v.index(vy);
        self.v.set(vx, val);
    }

    fn add_reg(&mut self, vx: Nib, vy: Nib)
        ensures
            ({
                let sum = old(self)@.v[vx@ as int] + old(self)@.v[vy@ as int];
                final(self)@ == with_v(
                    old(self)@,
                    alu(old(self)@.v, vx@, if sum > 0xFF { 1 } else { 0 }, (sum % 0x100) as u8),
                )
            }),
    {
        let a = self.v.index(vx);
        let b = self.v.index(vy);
        let sum = a.wrapping_add(b);
        let carry: u8 = if a as u16 + b as u16 > 0xFF { 1 } else { 0 };
        self.v.set_flag(carry);
        self.v.set(vx, sum);
    }

    fn sub_reg(&mut self, vx: Nib, vy: Nib)
        ensures
            ({
                let a = old(self)@.v[vx@ as int];
                let b = old(self)@.v[vy@ as int];
                final(self)@ == with_v(
                    old(self)@,
                    alu(old(self)@.v, vx@, if a >= b { 1 } else { 0 }, ((a - b + 0x100) % 0x100) as u8),
                )
            }),
    {
        let a = self.v.index(vx);
        let b = self.v.index(vy);
        let diff = a.wrapping_sub(b);
        let no_borrow: u8 = if a >= b { 1 } else { 0 };
        self.v.set_flag(no_borrow);
        self.v.set(vx, diff);
    }

    fn subn_reg(&mut self, vx: Nib, vy: Nib)
        ensures
            ({
                let a = old(self)@.v[vx@ as int];
                let b = old(self)@.v[vy@ as int];
                final(self)@ == with_v(
                    old(self)@,
                    alu(old(self)@.v, vx@, if b >= a { 1 } else { 0 }, ((b - a + 0x100) % 0x100) as u8),
                )
            }),
    {
        let a = self.v.index(vx);
        let b = self.v.index(vy);
        let diff = b.wrapping_sub(a);
        let no_borrow: u8 = if b >= a { 1 } else { 0 };
        self.v.set_flag(no_borrow);
        self.v.set(vx, diff);
    }

    fn shr_reg(&mut self, vx: Nib)
        ensures
            ({
                let f = old(self)@.v.update(FLAG_REGISTER as int, old(self)@.v[vx@ as int] % 2);
                final(self)@ == with_v(old(self)@, f.update(vx@ as int, f[vx@ as int] / 2))
            }),
    {
        let underflow = self.v.index(vx) % 2;
        self.v.set_flag(underflow);
        let val = self.v.index(vx) / 2;
        self.v.set(vx, val);
    }

    fn shl_reg(&mut self, vx: Nib)
        ensures
            ({
                let f = old(self)@.v.update(FLAG_REGISTER as int, old(self)@.v[vx@ as int] / 0x80);
                final(self)@ == with_v(old(self)@, f.update(vx@ as int, ((f[vx@ as int] * 2) % 0x100) as u8))
            }),
    {
        let overflow = self.v.index(vx) / 0x80;
        self.v.set_flag(overflow);
        let val = (self.v.index(vx) % 0x80) * 2;
        self.v.set(vx, val);
    }

    fn load_idx(&mut self, addr: Addr)
        ensures
            final(self)@ == (CpuState { idx: addr@, ..old(self)@ }),
    {
        self.idx = addr;
    }

    fn jump_v0(&mut self, addr: Addr)
        ensures
            final(self)@ == (CpuState { pc: wrap12(addr@ + old(self)@.v[0]), ..old(self)@ }),
    {
        self.pc = addr.add(self.v.v0() as u16);
    }

    fn random_byte(&mut self, vx: Nib, byte: u8, rnd: u8)
        ensures
            final(self)@ == with_v(old(self)@, old(self)@.v.update(vx@ as int, byte & rnd)),
    {
        self.v.set(vx, byte & rnd);
    }

    fn draw(&mut self, vx: Nib, vy: Nib, height: Nib, mem: &Memory, display: &mut Display)
        ensures
            ({
                let s = old(self)@;
                let sprite = sprite_at(mem@, s.idx, height@);
                let px = s.v[vx@ as int] as int;
                let py = s.v[vy@ as int] as int;
                &&& final(self)@ == with_v(
                    s,
                    s.v.update(FLAG_REGISTER as int, if collides(old(display)@.grid, px, py, sprite) { 1 } else { 0 }),
                )
                &&& final(display)@ == (DisplayView { grid: drawn(old(display)@.grid, px, py, sprite), ..old(display)@ })
            }),
    {
        let n = height.value();
        let mut sprite: Vec<u8> = Vec::new();
        let mut i: u8 = 0;
        while i < n
            invariant
                i <= n,
                n == height@,
                n < 16,
                sprite@ == sprite_at(mem@, self.idx@, i),
            decreases n - i,
        {
            let b = mem.read_byte(self.idx.add(i as u16));
            sprite.push(b);
            i = i + 1;
            assert(sprite@ =~= sprite_at(mem@, self.idx@, i));
        }
        let x = self.v.index(vx) as usize;
        let y = self.v.index(vy) as usize;
        let collision = display.draw(x, y, sprite.as_slice());
        self.v.set_flag(if collision { 1 } else { 0 });
    }

    fn skip_key_pressed(&mut self, vx: Nib, keys: &Keypad)
        ensures
            final(self)@ == skip_if(old(self)@, key_down(*keys, old(self)@.v[vx@ as int])),
    {
        let c = keys.is_key_down(self.v.index(vx));
        self.skip(c);
    }

    fn skip_key_not_pressed(&mut self, vx: Nib, keys: &Keypad)
        ensures
            final(self)@ == skip_if(old(self)@, !key_down(*keys, old(self)@.v[vx@ as int])),
    {
        let c = !keys.is_key_down(self.v.index(vx));
        self.skip(c);
    }

    fn load_delay(&mut self, vx: Nib)
        ensures
            final(self)@ == with_v(old(self)@, old(self)@.v.update(vx@ as int, old(self)@.timers.delay)),
    {
        let d = self.timers.delay;
        self.v.set(vx, d);
    }

    /// Stores the pressed key in `vx`, or, with none pressed, waits for one.
    fn wait_key(&mut self, vx: Nib, keys: &Keypad)
        ensures
            keys.pressed matches Some(k) ==> final(self)@ == with_v(old(self)@, old(self)@.v.update(vx@ as int, k)),
            keys.pressed is None ==> final(self)@ == (CpuState { waiting: Some(vx@), ..old(self)@ }),
    {
        match keys.pressed {
            Some(k) => self.v.set(vx, k),
            None => self.waiting = Some(vx),
        }
    }

    fn set_delay(&mut self, vx: Nib)
        ensures
            final(self)@ == (CpuState {
                timers: Timers { delay: old(self)@.v[vx@ as int], ..old(self).timers },
                ..old(self)@
            }),
    {
        self.timers.delay = self.v.index(vx);
    }

    fn set_sound(&mut self, vx: Nib)
        ensures
            final(self)@ == (CpuState {
                timers: Timers { sound: old(self)@.v[vx@ as int], ..old(self).timers },
                ..old(self)@
            }),
    {
        self.timers.sound = self.v.index(vx);
    }

    fn add_idx(&mut self, vx: Nib)
        ensures
            final(self)@ == (CpuState { idx: wrap12(old(self)@.idx + old(self)@.v[vx@ as int]), ..old(self)@ }),
    {
        self.idx = self.idx.add(self.v.index(vx) as u16);
    }

    fn load_sprite(&mut self, vx: Nib)
        ensures
            final(self)@ == (CpuState { idx: (old(self)@.v[vx@ as int] * SPRITE_SIZE) as u16, ..old(self)@ }),
    {
        self.idx = Addr::from(SPRITE_SIZE * self.v.index(vx) as u16);
    }

    fn load_bcd(&mut self, vx: Nib, mem: &mut Memory)
        ensures
            final(self)@ == old(self)@,
            final(mem)@ == bcd(old(mem)@, old(self)@.idx, old(self)@.v[vx@ as int]),
    {
        let val = self.v.index(vx);
        mem.write_byte(self.idx, val / 100);
        mem.write_byte(self.idx.add(1), (val % 100) / 10);
        mem.write_byte(self.idx.add(2), val % 10);
    }

    fn store_regs(&mut self, vx: Nib, mem: &mut Memory)
        ensures
            final(self)@ == (CpuState { idx: wrap12(old(self)@.idx + vx@ + 1), ..old(self)@ }),
            final(mem)@ == stored_regs(old(mem)@, old(self)@.v, old(self)@.idx, vx@),
    {
        let last = vx.value();
        let start = self.idx.value();
        let ghost base = start as int;
        let mut i: u8 = 0;
        while i <= last
            invariant
                last == vx@,
                last < 16,
                i <= last + 1,
                self@ == old(self)@,
                base == self.idx@,
                base < 0x1000,
                mem@.len() == old(mem)@.len(),
                forall|a: int|
                    0 <= a < 0x1000 ==> mem@[a] == (if addr_offset(a, base) < i {
                        self@.v[addr_offset(a, base)]
                    } else {
                        old(mem)@[a]
                    }),
            decreases last + 1 - i,
        {
            let at = self.idx.add(i as u16);
            assert(addr_offset(at@ as int, base) == i);
            mem.write_byte(at, self.v.index(Nib::from(i)));
            i = i + 1;
        }
        assert(mem@ =~= stored_regs(old(mem)@, old(self)@.v, old(self)@.idx, vx@));
        self.idx = self.idx.add(last as u16 + 1);
    }

    fn load_regs(&mut self, vx: Nib, mem: &Memory)
        ensures
            final(self)@ == (CpuState {
                v: loaded_regs(old(self)@.v, mem@, old(self)@.idx, vx@),
                idx: wrap12(old(self)@.idx + vx@ + 1),
                ..old(self)@
            }),
    {
        let last = vx.value();
        let mut i: u8 = 0;
        while i <= last
            invariant
                last == vx@,
                last < 16,
                i <= last + 1,
                self@ == (CpuState { v: self@.v, ..old(self)@ }),
                self@.v.len() == 16,
                forall|r: int|
                    0 <= r < 16 ==> self@.v[r] == (if r < i {
                        mem@[wrap12(old(self)@.idx + r) as int]
                    } else {
                        old(self)@.v[r]
                    }),
            decreases last + 1 - i,
        {
            let b = mem.read_byte(self.idx.add(i as u16));
            self.v.set(Nib::from(i), b);
            i = i + 1;
        }
        assert(self@.v =~= loaded_regs(old(self)@.v, mem@, old(self)@.idx, vx@));
        self.idx = self.idx.add(last as u16 + 1);
    }
}

} // verus!
