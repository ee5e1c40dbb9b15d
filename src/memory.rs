use vstd::prelude::*;

use crate::errors::Chip8Error;
use crate::opcode::Addr;

verus! {

pub const MEMORY_SIZE: usize = 4096;

/// Where programs are loaded and where execution starts.
pub const PROGRAM_START: u16 = 0x200;

/// The bytes taken by the sixteen built-in digit sprites at the bottom of memory.
pub const SPRITES_MEMORY: usize = 80;

/// Height in bytes of one digit sprite.
pub const SPRITE_SIZE: u16 = 5;

/// The digit sprites 0 to F, five rows each.
pub open spec fn font() -> Seq<u8> {
    seq![
        0xf0, 0x90, 0x90, 0x90, 0xf0, // 0
        0x20, 0x60, 0x20, 0x20, 0x70, // 1
        0xf0, 0x10, 0xf0, 0x80, 0xf0, // 2
        0xf0, 0x10, 0xf0, 0x10, 0xf0, // 3
        0x90, 0x90, 0xf0, 0x10, 0x10, // 4
        0xf0, 0x80, 0xf0, 0x10, 0xf0, // 5
        0xf0, 0x80, 0xf0, 0x90, 0xf0, // 6
        0xf0, 0x10, 0x20, 0x40, 0x40, // 7
        0xf0, 0x90, 0xf0, 0x90, 0xf0, // 8
        0xf0, 0x90, 0xf0, 0x10, 0xf0, // 9
        0xf0, 0x90, 0xf0, 0x90, 0x90, // A
        0xe0, 0x90, 0xe0, 0x90, 0xe0, // B
        0xf0, 0x80, 0x80, 0x80, 0xf0, // C
        0xe0, 0x90, 0x90, 0x90, 0xe0, // D
        0xf0, 0x80, 0xf0, 0x80, 0xf0, // E
        0xf0, 0x80, 0xf0, 0x80, 0x80, // F
    ]
}

fn font_sprites() -> (r: Vec<u8>)
    ensures
        r@ == font(),
{
    let r: Vec<u8> = vec![
        0xf0, 0x90, 0x90, 0x90, 0xf0,
        0x20, 0x60, 0x20, 0x20, 0x70,
        0xf0, 0x10, 0xf0, 0x80, 0xf0,
        0xf0, 0x10, 0xf0, 0x10, 0xf0,
        0x90, 0x90, 0xf0, 0x10, 0x10,
        0xf0, 0x80, 0xf0, 0x10, 0xf0,
        0xf0, 0x80, 0xf0, 0x90, 0xf0,
        0xf0, 0x10, 0x20, 0x40, 0x40,
        0xf0, 0x90, 0xf0, 0x90, 0xf0,
        0xf0, 0x90, 0xf0, 0x10, 0xf0,
        0xf0, 0x90, 0xf0, 0x90, 0x90,
        0xe0, 0x90, 0xe0, 0x90, 0xe0,
        0xf0, 0x80, 0x80, 0x80, 0xf0,
        0xe0, 0x90, 0x90, 0x90, 0xe0,
        0xf0, 0x80, 0xf0, 0x80, 0xf0,
        0xf0, 0x80, 0xf0, 0x80, 0x80,
    ];
    assert(r@ =~= font());
    r
}

/// The big-endian instruction word at `addr`; the second byte wraps round to address 0.
pub open spec fn word_at(mem: Seq<u8>, addr: u16) -> u16 {
    (mem[addr as int] * 0x100 + mem[((addr + 1) % 0x1000) as int]) as u16
}

/// Memory just after power-on: the font at the bottom, zero elsewhere.
pub open spec fn initial_memory() -> Seq<u8> {
    Seq::new(
        MEMORY_SIZE as nat,
        |i: int|
            if i < SPRITES_MEMORY {
                font()[i]
            } else {
                0u8
            },
    )
}

/// `mem` with `program` written from the program start on.
pub open spec fn with_program(mem: Seq<u8>, program: Seq<u8>) -> Seq<u8> {
    Seq::new(
        mem.len(),
        |i: int|
            if PROGRAM_START <= i < PROGRAM_START + program.len() {
                program[i - PROGRAM_START]
            } else {
                mem[i]
            },
    )
}

/// The 4096 bytes of the address space.
pub struct Memory {
    memory: [u8; MEMORY_SIZE],
}

impl View for Memory {
    type V = Seq<u8>;

    closed spec fn view(&self) -> Seq<u8> {
        self.memory@
    }
}

/// Memory always spans the whole 12-bit address space.
pub broadcast proof fn lemma_memory_len(m: Memory)
    ensures
        #[trigger] m@.len() == MEMORY_SIZE,
{
}

impl Memory {
    /// Zeroed memory with the font sprites installed at 0x000 to 0x04F.
    pub fn new() -> (r: Memory)
        ensures
            r@ == initial_memory(),
    {
        let mut memory = [0u8; MEMORY_SIZE];
        let sprites = font_sprites();
        let mut i: usize = 0;
        while i < SPRITES_MEMORY
            invariant
                i <= SPRITES_MEMORY,
                sprites@ == font(),
                forall|k: int| 0 <= k < i ==> memory@[k] == font()[k],
                forall|k: int| i <= k < MEMORY_SIZE ==> memory@[k] == 0u8,
            decreases SPRITES_MEMORY - i,
        {
            memory[i] = sprites[i];
            i = i + 1;
        }
        let r = Memory { memory };
        assert(r@ =~= initial_memory());
        r
    }

    pub fn read_byte(&self, addr: Addr) -> (r: u8)
        ensures
            r == self@[addr@ as int],
    {
        self.memory[addr.value() as usize]
    }

    pub fn write_byte(&mut self, addr: Addr, data: u8)
        ensures
            final(self)@ == old(self)@.update(addr@ as int, data),
    {
        let a = addr.value() as usize;
        self.memory[a] = data;
    }

    /// Fetches the two-byte instruction at `addr`.
    pub fn get_instruction(&self, addr: Addr) -> (r: u16)
        ensures
            r == word_at(self@, addr@),
    {
        let high_byte = self.read_byte(addr);
        let low_byte = self.read_byte(addr.add(1));
        (high_byte as u16) * 0x100 + low_byte as u16
    }

    /// Copies a program image into memory from the program start on. An image that does
    /// not fit below the end of memory is refused and memory is left as it was.
    pub fn load_program(&mut self, program: &[u8]) -> (r: Result<(), Chip8Error>)
        ensures
            r is Ok <==> program@.len() <= MEMORY_SIZE - PROGRAM_START,
            r is Ok ==> final(self)@ == with_program(old(self)@, program@),
            r is Err ==> final(self)@ == old(self)@ && r == Err::<(), Chip8Error>(
                Chip8Error::TooManyLines(program@.len() as usize, (MEMORY_SIZE - PROGRAM_START) as usize),
            ),
    {
        let available: usize = MEMORY_SIZE - PROGRAM_START as usize;
        if program.len() > available {
            return Err(Chip8Error::TooManyLines(program.len(), available));
        }
        let mut i: usize = 0;
        while i < program.len()
            invariant
                program@.len() <= available,
                available == MEMORY_SIZE - PROGRAM_START,
                i <= program@.len(),
                self.memory@.len() == MEMORY_SIZE,
                forall|k: int|
                    0 <= k < MEMORY_SIZE ==> self.memory@[k] == (if PROGRAM_START <= k
                        < PROGRAM_START + i {
                        program@[k - PROGRAM_START]
                    } else {
                        old(self)@[k]
                    }),
            decreases program@.len() - i,
        {
            self.memory[PROGRAM_START as usize + i] = program[i];
            i = i + 1;
        }
        assert(self@ =~= with_program(old(self)@, program@));
        Ok(())
    }
}

} // verus!
