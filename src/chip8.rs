use vstd::prelude::*;

use crate::cpu::{initial_cpu, outcome, step_spec, CpuState, Machine, CPU};
use crate::display::{initial_display, Color, Display, DisplayView};
use crate::errors::Chip8Error;
use crate::keypad::Keypad;
use crate::memory::{initial_memory, with_program, Memory, MEMORY_SIZE, PROGRAM_START};
use crate::timers::count_down;

verus! {

/// One emulation session: processor, memory and display.
pub struct Chip8 {
    pub cpu: CPU,
    pub mem: Memory,
    pub display: Display,
}

impl Chip8 {
    pub open spec fn wf(&self) -> bool {
        self.cpu.wf()
    }

    /// The machine as plain values.
    pub open spec fn machine(&self) -> Machine {
        Machine { cpu: self.cpu@, mem: self.mem@, display: self.display@ }
    }

    /// A machine at power-on, with the font in memory and no program.
    pub fn new() -> (r: Chip8)
        ensures
            r.wf(),
            r.machine() == (Machine { cpu: initial_cpu(), mem: initial_memory(), display: initial_display() }),
    {
        let cpu = CPU::new();
        let mem = Memory::new();
        let display = Display::new();
        Chip8 { cpu, mem, display }
    }

    /// Loads a program image at the program start; see `Memory::load_program`.
    pub fn load_program(&mut self, program: &[u8]) -> (r: Result<(), Chip8Error>)
        requires
            old(self).wf(),
        ensures
            final(self).wf(),
            final(self).cpu@ == old(self).cpu@,
            final(self).display@ == old(self).display@,
            r is Ok <==> program@.len() <= MEMORY_SIZE - PROGRAM_START,
            r is Ok ==> final(self).mem@ == with_program(old(self).mem@, program@),
            r is Err ==> final(self).mem@ == old(self).mem@ && r == Err::<(), Chip8Error>(
                Chip8Error::TooManyLines(program@.len() as usize, (MEMORY_SIZE - PROGRAM_START) as usize),
            ),
    {
        self.mem.load_program(program)
    }

    /// Runs one processor cycle with `keys` as the input.
    pub fn cycle(&mut self, keys: &Keypad) -> (r: Result<(), Chip8Error>)
        requires
            old(self).wf(),
        ensures
            final(self).wf(),
            exists|rnd: u8|
                outcome(old(self).machine(), #[trigger] step_spec(old(self).machine(), *keys, rnd), r, final(self).machine()),
    {
        self.cpu.execute(&mut self.mem, &mut self.display, keys)
    }

    /// One tick of the 60 Hz timer clock.
    pub fn update_timers(&mut self)
        requires
            old(self).wf(),
        ensures
            final(self).wf(),
            final(self).cpu.timers.delay == count_down(old(self).cpu.timers.delay),
            final(self).cpu.timers.sound == count_down(old(self).cpu.timers.sound),
            final(self).machine() == (Machine {
                cpu: CpuState { timers: final(self).cpu.timers, ..old(self).cpu@ },
                ..old(self).machine()
            }),
    {
        self.cpu.timers.tick();
    }

    /// Whether the tone should sound now.
    pub fn sound_active(&self) -> (r: bool)
        ensures
            r == (self.cpu.timers.sound > 0),
    {
        self.cpu.timers.sound_active()
    }

    /// Sets the colours of lit and unlit pixels.
    pub fn set_colors(&mut self, filled: Color, empty: Color)
        requires
            old(self).wf(),
        ensures
            final(self).wf(),
            final(self).cpu@ == old(self).cpu@,
            final(self).mem@ == old(self).mem@,
            final(self).display@ == (DisplayView { filled: filled@, empty: empty@, ..old(self).display@ }),
    {
        self.display.set_colors(filled, empty);
    }
}

} // verus!
