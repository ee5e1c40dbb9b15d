use vstd::prelude::*;

use crate::errors::Chip8Error;

verus! {

/// A 12-bit memory address.
#[derive(Clone, Copy, Debug, PartialEq, Eq, Structural)]
pub struct Addr(u16);

impl View for Addr {
    type V = u16;

    closed spec fn view(&self) -> u16 {
        self.0
    }
}

impl Addr {
    #[verifier::type_invariant]
    spec fn inv(self) -> bool {
        self.0 < 0x1000
    }

    /// The address zero.
    pub fn new() -> (r: Addr)
        ensures
            r@ == 0,
    {
        Self::from(0)
    }

    /// The address given by the low 12 bits of `val`.
    pub fn from(val: u16) -> (r: Addr)
        ensures
            r@ == val % 0x1000,
    {
        Addr(val % 0x1000)
    }

    pub fn value(&self) -> (r: u16)
        ensures
            r == self@,
            r < 0x1000,
    {
        proof {
            use_type_invariant(self);
        }
        self.0
    }

    /// The address `rhs` bytes further on, wrapping round the 12-bit space.
    pub fn add(self, rhs: u16) -> (r: Addr)
        ensures
            r@ == (self@ + rhs) % 0x1000,
    {
        proof {
            use_type_invariant(&self);
        }
        let sum: u16 = self.0.wrapping_add(rhs);
        proof {
            assert(sum == (self.0 + rhs) % 0x10000);
            assert((self.0 + rhs) % 0x10000 % 0x1000 == (self.0 + rhs) % 0x1000) by (nonlinear_arith);
        }
        Self::from(sum)
    }
}

/// A 4-bit value: a register index or a sprite height.
#[derive(Clone, Copy, Debug, PartialEq, Eq, PartialOrd, Ord, Hash, Structural)]
pub struct Nib(u8);

impl View for Nib {
    type V = u8;

    closed spec fn view(&self) -> u8 {
        self.0
    }
}

impl Nib {
    #[verifier::type_invariant]
    spec fn inv(self) -> bool {
        self.0 < 0x10
    }

    /// The nibble given by the low 4 bits of `val`.
    pub fn from(val: u8) -> (r: Nib)
        ensures
            r@ == val % 0x10,
    {
        Nib(val % 0x10)
    }

    pub fn value(&self) -> (r: u8)
        ensures
            r == self@,
            r < 0x10,
    {
        proof {
            use_type_invariant(self);
        }
        self.0
    }

    pub fn idx(&self) -> (r: usize)
        ensures
            r == self@,
            r < 0x10,
    {
        proof {
            use_type_invariant(self);
        }
        self.0 as usize
    }
}

/// One decoded instruction.
#[derive(Clone, Copy, Debug, PartialEq, Eq, Structural)]
pub enum OpCode {
    /// 0000
    NoOp,
    /// 00E0
    ClearScreen,
    /// 00EE
    Return,
    /// 1aaa
    Jump(Addr),
    /// 2aaa
    Call(Addr),
    /// 3xkk
    SkipEqualByte(Nib, u8),
    /// 4xkk
    SkipNotEqualByte(Nib, u8),
    /// 5xy0
    SkipEqualReg(Nib, Nib),
    /// 6xkk
    LoadByte(Nib, u8),
    /// 7xkk
    AddByte(Nib, u8),
    /// 8xy0
    LoadReg(Nib, Nib),
    /// 8xy1
    OrReg(Nib, Nib),
    /// 8xy2
    AndReg(Nib, Nib),
    /// 8xy3
    XorReg(Nib, Nib),
    /// 8xy4
    AddReg(Nib, Nib),
    /// 8xy5
    SubReg(Nib, Nib),
    /// 8xy6
    ShiftRight(Nib, Nib),
    /// 8xy7
    SubNot(Nib, Nib),
    /// 8xyE
    ShiftLeft(Nib, Nib),
    /// 9xy0
    SkipNotEqualReg(Nib, Nib),
    /// Aaaa
    LoadIndex(Addr),
    /// Baaa
    JumpV0(Addr),
    /// Cxkk
    RandomByte(Nib, u8),
    /// Dxyn
    Draw(Nib, Nib, Nib),
    /// Ex9E
    SkipKeyPressed(Nib),
    /// ExA1
    SkipKeyNotPressed(Nib),
    /// Fx07
    LoadDelay(Nib),
    /// Fx0A
    WaitKey(Nib),
    /// Fx15
    SetDelay(Nib),
    /// Fx18
    SetSound(Nib),
    /// Fx1E
    AddToIndex(Nib),
    /// Fx29
    LoadFont(Nib),
    /// Fx33
    LoadBCD(Nib),
    /// Fx55
    StoreRegs(Nib),
    /// Fx65
    LoadRegs(Nib),
}

/// The top nibble of an instruction word: its group.
pub open spec fn op_group(code: u16) -> u16 {
    code / 0x1000
}

/// Bits 8 to 11: the first register operand.
pub open spec fn op_x(code: u16) -> u8 {
    ((code / 0x100) % 0x10) as u8
}

/// Bits 4 to 7: the second register operand.
pub open spec fn op_y(code: u16) -> u8 {
    ((code / 0x10) % 0x10) as u8
}

/// Bits 0 to 3.
pub open spec fn op_n(code: u16) -> u8 {
    (code % 0x10) as u8
}

/// Bits 0 to 7: the immediate byte.
pub open spec fn op_kk(code: u16) -> u8 {
    (code % 0x100) as u8
}

/// Bits 0 to 11: the immediate address.
pub open spec fn op_addr(code: u16) -> u16 {
    code % 0x1000
}

/// Whether `code` is the encoding of some instruction.
pub open spec fn valid_code(code: u16) -> bool {
    let g = op_group(code);
    let n = op_n(code);
    let kk = op_kk(code);
    if g == 0 {
        code == 0x0000 || code == 0x00E0 || code == 0x00EE
    } else if g == 5 || g == 9 {
        n == 0
    } else if g == 8 {
        n <= 7 || n == 0xE
    } else if g == 0xE {
        kk == 0x9E || kk == 0xA1
    } else if g == 0xF {
        kk == 0x07 || kk == 0x0A || kk == 0x15 || kk == 0x18 || kk == 0x1E || kk == 0x29
            || kk == 0x33 || kk == 0x55 || kk == 0x65
    } else {
        true
    }
}

/// Whether `op` is the instruction that `code` encodes.
pub open spec fn decodes_as(code: u16, op: OpCode) -> bool {
    let g = op_group(code);
    let x = op_x(code);
    let y = op_y(code);
    let n = op_n(code);
    let kk = op_kk(code);
    let a = op_addr(code);
    match op {
        OpCode::NoOp => code == 0x0000,
        OpCode::ClearScreen => code == 0x00E0,
        OpCode::Return => code == 0x00EE,
        OpCode::Jump(t) => g == 1 && t@ == a,
        OpCode::Call(t) => g == 2 && t@ == a,
        OpCode::SkipEqualByte(vx, b) => g == 3 && vx@ == x && b == kk,
        OpCode::SkipNotEqualByte(vx, b) => g == 4 && vx@ == x && b == kk,
        OpCode::SkipEqualReg(vx, vy) => g == 5 && n == 0 && vx@ == x && vy@ == y,
        OpCode::LoadByte(vx, b) => g == 6 && vx@ == x && b == kk,
        OpCode::AddByte(vx, b) => g == 7 && vx@ == x && b == kk,
        OpCode::LoadReg(vx, vy) => g == 8 && n == 0 && vx@ == x && vy@ == y,
        OpCode::OrReg(vx, vy) => g == 8 && n == 1 && vx@ == x && vy@ == y,
        OpCode::AndReg(vx, vy) => g == 8 && n == 2 && vx@ == x && vy@ == y,
        OpCode::XorReg(vx, vy) => g == 8 && n == 3 && vx@ == x && vy@ == y,
        OpCode::AddReg(vx, vy) => g == 8 && n == 4 && vx@ == x && vy@ == y,
        OpCode::SubReg(vx, vy) => g == 8 && n == 5 && vx@ == x && vy@ == y,
        OpCode::ShiftRight(vx, vy) => g == 8 && n == 6 && vx@ == x && vy@ == y,
        OpCode::SubNot(vx, vy) => g == 8 && n == 7 && vx@ == x && vy@ == y,
        OpCode::ShiftLeft(vx, vy) => g == 8 && n == 0xE && vx@ == x && vy@ == y,
        OpCode::SkipNotEqualReg(vx, vy) => g == 9 && n == 0 && vx@ == x && vy@ == y,
        OpCode::LoadIndex(t) => g == 0xA && t@ == a,
        OpCode::JumpV0(t) => g == 0xB && t@ == a,
        OpCode::RandomByte(vx, b) => g == 0xC && vx@ == x && b == kk,
        OpCode::Draw(vx, vy, h) => g == 0xD && vx@ == x && vy@ == y && h@ == n,
        OpCode::SkipKeyPressed(vx) => g == 0xE && kk == 0x9E && vx@ == x,
        OpCode::SkipKeyNotPressed(vx) => g == 0xE && kk == 0xA1 && vx@ == x,
        OpCode::LoadDelay(vx) => g == 0xF && kk == 0x07 && vx@ == x,
        OpCode::WaitKey(vx) => g == 0xF && kk == 0x0A && vx@ == x,
        OpCode::SetDelay(vx) => g == 0xF && kk == 0x15 && vx@ == x,
        OpCode::SetSound(vx) => g == 0xF && kk == 0x18 && vx@ == x,
        OpCode::AddToIndex(vx) => g == 0xF && kk == 0x1E && vx@ == x,
        OpCode::LoadFont(vx) => g == 0xF && kk == 0x29 && vx@ == x,
        OpCode::LoadBCD(vx) => g == 0xF && kk == 0x33 && vx@ == x,
        OpCode::StoreRegs(vx) => g == 0xF && kk == 0x55 && vx@ == x,
        OpCode::LoadRegs(vx) => g == 0xF && kk == 0x65 && vx@ == x,
    }
}

/// The instruction that a valid `code` encodes.
pub closed spec fn decoded(code: u16) -> OpCode {
    let g = op_group(code);
    let x = Nib(op_x(code));
    let y = Nib(op_y(code));
    let n = op_n(code);
    let kk = op_kk(code);
    let a = Addr(op_addr(code));
    if g == 0 {
        if code == 0x00E0 {
            OpCode::ClearScreen
        } else if code == 0x00EE {
            OpCode::Return
        } else {
            OpCode::NoOp
        }
    } else if g == 1 {
        OpCode::Jump(a)
    } else if g == 2 {
        OpCode::Call(a)
    } else if g == 3 {
        OpCode::SkipEqualByte(x, kk)
    } else if g == 4 {
        OpCode::SkipNotEqualByte(x, kk)
    } else if g == 5 {
        OpCode::SkipEqualReg(x, y)
    } else if g == 6 {
        OpCode::LoadByte(x, kk)
    } else if g == 7 {
        OpCode::AddByte(x, kk)
    } else if g == 8 {
        if n == 0 {
            OpCode::LoadReg(x, y)
        } else if n == 1 {
            OpCode::OrReg(x, y)
        } else if n == 2 {
            OpCode::AndReg(x, y)
        } else if n == 3 {
            OpCode::XorReg(x, y)
        } else if n == 4 {
            OpCode::AddReg(x, y)
        } else if n == 5 {
            OpCode::SubReg(x, y)
        } else if n == 6 {
            OpCode::ShiftRight(x, y)
        } else if n == 7 {
            OpCode::SubNot(x, y)
        } else {
            OpCode::ShiftLeft(x, y)
        }
    } else if g == 9 {
        OpCode::SkipNotEqualReg(x, y)
    } else if g == 0xA {
        OpCode::LoadIndex(a)
    } else if g == 0xB {
        OpCode::JumpV0(a)
    } else if g == 0xC {
        OpCode::RandomByte(x, kk)
    } else if g == 0xD {
        OpCode::Draw(x, y, Nib(n))
    } else if g == 0xE {
        if kk == 0x9E {
            OpCode::SkipKeyPressed(x)
        } else {
            OpCode::SkipKeyNotPressed(x)
        }
    } else if kk == 0x07 {
        OpCode::LoadDelay(x)
    } else if kk == 0x0A {
        OpCode::WaitKey(x)
    } else if kk == 0x15 {
        OpCode::SetDelay(x)
    } else if kk == 0x18 {
        OpCode::SetSound(x)
    } else if kk == 0x1E {
        OpCode::AddToIndex(x)
    } else if kk == 0x29 {
        OpCode::LoadFont(x)
    } else if kk == 0x33 {
        OpCode::LoadBCD(x)
    } else if kk == 0x55 {
        OpCode::StoreRegs(x)
    } else {
        OpCode::LoadRegs(x)
    }
}

/// A valid code decodes to exactly one instruction: `decoded(code)`.
pub proof fn lemma_decoded(code: u16, op: OpCode)
    requires
        valid_code(code),
    ensures
        decodes_as(code, decoded(code)),
        decodes_as(code, op) <==> op == decoded(code),
{
}

/// An instruction word split into its fields.
///
///     15 14 13 12 11 10 9 8 7 6 5 4 3 2 1 0
///     [    G    ] [          addr         ]
///                 [   x   ] [  y  ] [  n  ]
///                           [     kk      ]
pub struct Deconstructed {
    pub code: u16,
    pub group: Nib,
    pub addr: Addr,
    pub x: Nib,
    pub y: Nib,
    pub n: Nib,
    pub kk: u8,
}

impl Deconstructed {
    pub fn new(code: u16) -> (r: Deconstructed)
        ensures
            r.code == code,
            r.group@ == op_group(code),
            r.addr@ == op_addr(code),
            r.x@ == op_x(code),
            r.y@ == op_y(code),
            r.n@ == op_n(code),
            r.kk == op_kk(code),
    {
        let group = Nib::from((code / 0x1000) as u8);
        let addr = Addr::from(code);
        let x = Nib::from((code / 0x100) as u8);
        let y = Nib::from(((code / 0x10) % 0x10) as u8);
        let n = Nib::from((code % 0x10) as u8);
        let kk = (code % 0x100) as u8;
        Deconstructed { code, group, addr, x, y, n, kk }
    }
}

impl OpCode {
    /// Decodes one instruction word.
    pub fn decode(code: u16) -> (r: Result<OpCode, Chip8Error>)
        ensures
            r is Ok <==> valid_code(code),
            r matches Ok(op) ==> decodes_as(code, op) && op == decoded(code),
            r is Err ==> r == Err::<OpCode, Chip8Error>(Chip8Error::UnrecognizedOpcode(code)),
    {
        let dec = Deconstructed::new(code);
        let unrecognized = Err(Chip8Error::UnrecognizedOpcode(dec.code));
        match dec.group.value() {
            0x0 => match dec.addr.value() {
                0x0E0 => Ok(OpCode::ClearScreen),
                0x0EE => Ok(OpCode::Return),
                0x000 => Ok(OpCode::NoOp),
                _ => unrecognized,
            },
            0x1 => Ok(OpCode::Jump(dec.addr)),
            0x2 => Ok(OpCode::Call(dec.addr)),
            0x3 => Ok(OpCode::SkipEqualByte(dec.x, dec.kk)),
            0x4 => Ok(OpCode::SkipNotEqualByte(dec.x, dec.kk)),
            0x5 => if dec.n.value() == 0 {
                Ok(OpCode::SkipEqualReg(dec.x, dec.y))
            } else {
                unrecognized
            },
            0x6 => Ok(OpCode::LoadByte(dec.x, dec.kk)),
            0x7 => Ok(OpCode::AddByte(dec.x, dec.kk)),
            0x8 => match dec.n.value() {
                0x0 => Ok(OpCode::LoadReg(dec.x, dec.y)),
                0x1 => Ok(OpCode::OrReg(dec.x, dec.y)),
                0x2 => Ok(OpCode::AndReg(dec.x, dec.y)),
                0x3 => Ok(OpCode::XorReg(dec.x, dec.y)),
                0x4 => Ok(OpCode::AddReg(dec.x, dec.y)),
                0x5 => Ok(OpCode::SubReg(dec.x, dec.y)),
                0x6 => Ok(OpCode::ShiftRight(dec.x, dec.y)),
                0x7 => Ok(OpCode::SubNot(dec.x, dec.y)),
                0xE => Ok(OpCode::ShiftLeft(dec.x, dec.y)),
                _ => unrecognized,
            },
            0x9 => if dec.n.value() == 0 {
                Ok(OpCode::SkipNotEqualReg(dec.x, dec.y))
            } else {
                unrecognized
            },
            0xA => Ok(OpCode::LoadIndex(dec.addr)),
            0xB => Ok(OpCode::JumpV0(dec.addr)),
            0xC => Ok(OpCode::RandomByte(dec.x, dec.kk)),
            0xD => Ok(OpCode::Draw(dec.x, dec.y, dec.n)),
            0xE => match dec.kk {
                0x9E => Ok(OpCode::SkipKeyPressed(dec.x)),
                0xA1 => Ok(OpCode::SkipKeyNotPressed(dec.x)),
                _ => unrecognized,
            },
            0xF => match dec.kk {
                0x07 => Ok(OpCode::LoadDelay(dec.x)),
                0x0A => Ok(OpCode::WaitKey(dec.x)),
                0x15 => Ok(OpCode::SetDelay(dec.x)),
                0x18 => Ok(OpCode::SetSound(dec.x)),
                0x1E => Ok(OpCode::AddToIndex(dec.x)),
                0x29 => Ok(OpCode::LoadFont(dec.x)),
                0x33 => Ok(OpCode::LoadBCD(dec.x)),
                0x55 => Ok(OpCode::StoreRegs(dec.x)),
                0x65 => Ok(OpCode::LoadRegs(dec.x)),
                _ => unrecognized,
            },
            _ => unrecognized,
        }
    }
}

} // verus!
