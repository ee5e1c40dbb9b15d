use chip8::display::{DISPLAY_HEIGHT, DISPLAY_WIDTH};
use chip8::memory::{PROGRAM_START, SPRITE_SIZE};
use chip8::opcode::Deconstructed;
use chip8::registers::{FLAG_REGISTER, NUM_REGISTERS};
use chip8::cpu::STACK_DEPTH;
use chip8::{Addr, Chip8, Chip8Error, Keypad, Memory, Nib, OpCode};

fn setup_chip8_and_memory() -> (Chip8, Memory) {
    let chip8 = Chip8::new();
    let mem = Memory::new();
    (chip8, mem)
}

/// Decodes `code` and executes it in place, without fetching it or moving PC past it.
fn execute_with(chip8: &mut Chip8, code: u16, mem: &mut Memory, rnd: u8) -> Result<(), Chip8Error> {
    let op = OpCode::decode(code)?;
    chip8.cpu.apply(op, mem, &mut chip8.display, &Keypad::new(), rnd)
}

fn execute(chip8: &mut Chip8, code: u16, mem: &mut Memory) -> Result<(), Chip8Error> {
    execute_with(chip8, code, mem, 0)
}

fn v(chip8: &Chip8, i: u8) -> u8 {
    chip8.cpu.v.index(Nib::from(i))
}

fn set_v(chip8: &mut Chip8, i: u8, val: u8) {
    chip8.cpu.v.set(Nib::from(i), val);
}

fn flag(chip8: &Chip8) -> u8 {
    v(chip8, FLAG_REGISTER as u8)
}

#[test]
fn test_new_chip8() {
    let chip8 = Chip8::new();
    for i in 0..NUM_REGISTERS as u8 {
        assert_eq!(v(&chip8, i), 0x00);
    }
    assert_eq!(chip8.cpu.idx.value(), 0x0000);
    assert_eq!(chip8.cpu.timers.delay, 0);
    assert_eq!(chip8.cpu.timers.sound, 0);
    assert_eq!(chip8.cpu.pc.value(), PROGRAM_START);
    assert_eq!(chip8.cpu.sp, 0x00);
    assert_eq!(chip8.cpu.stack, [Addr::from(0x0000); STACK_DEPTH]);
}

#[test]
fn test_chip8_run() {
    let mut chip8 = Chip8::new();
    let start = Addr::from(PROGRAM_START);
    chip8.mem.write_byte(start, 0x60);
    chip8.mem.write_byte(start.add(1), 0x00);
    chip8.mem.write_byte(start.add(2), 0xFF);
    let keys = Keypad::new();
    let mut result = Ok(());
    for _ in 0..10 {
        result = chip8.cycle(&keys);
        if result.is_err() {
            break;
        }
    }
    assert!(result.is_err());
    assert_eq!(v(&chip8, 0), 0x00);
}

#[test]
fn test_chip8_update() {
    let mut chip8 = Chip8::new();
    chip8.cpu.timers.sound = 5;
    chip8.update_timers();
    assert_eq!(chip8.cpu.timers.sound, 4);
}

#[test]
fn test_opcode() {
    let opcode = Deconstructed::new(0x1234);
    assert_eq!(opcode.code, 0x1234);
    assert_eq!(opcode.x.value(), 0x2);
    assert_eq!(opcode.y.value(), 0x3);
    assert_eq!(opcode.n.value(), 0x4);
    assert_eq!(opcode.kk, 0x34);
    assert_eq!(opcode.addr.value(), 0x234);
}

#[test]
fn test_chip8_execute_00e0() {
    let (mut chip8, mut mem) = setup_chip8_and_memory();
    chip8.display.draw(3, 4, &[0xFF, 0x81]);
    let result = execute(&mut chip8, 0x00e0, &mut mem);
    assert!(result.is_ok());
    let cleared_display = vec![vec![false; DISPLAY_HEIGHT]; DISPLAY_WIDTH];
    assert_eq!(chip8.display.get_grid(), cleared_display);
}

#[test]
fn test_chip8_execute_00ee() {
    let (mut chip8, mut mem) = setup_chip8_and_memory();
    chip8.cpu.sp = 1;
    chip8.cpu.stack[1] = Addr::from(0x0200);
    let result = execute(&mut chip8, 0x00ee, &mut mem);
    assert!(result.is_ok());
    assert_eq!(chip8.cpu.pc.value(), 0x0200);
    assert_eq!(chip8.cpu.sp, 0);
}

#[test]
fn test_chip8_execute_1nnn() {
    let (mut chip8, mut mem) = setup_chip8_and_memory();
    let result = execute(&mut chip8, 0x1234, &mut mem);
    assert!(result.is_ok());
    assert_eq!(chip8.cpu.pc.value(), 0x0234);
}

#[test]
fn test_chip8_execute_2nnn() {
    let (mut chip8, mut mem) = setup_chip8_and_memory();
    let result = execute(&mut chip8, 0x2345, &mut mem);
    assert!(result.is_ok());
    assert_eq!(chip8.cpu.pc.value(), 0x0345);
    assert_eq!(chip8.cpu.sp, 1);
    assert_eq!(chip8.cpu.stack[1].value(), 0x0200);
}

#[test]
fn test_chip8_execute_3xkk() {
    let (mut chip8, mut mem) = setup_chip8_and_memory();
    set_v(&mut chip8, 0, 0x01);
    let result = execute(&mut chip8, 0x3001, &mut mem);
    assert!(result.is_ok());
    assert_eq!(chip8.cpu.pc.value(), PROGRAM_START + 2);
}

#[test]
fn test_chip8_execute_4xkk() {
    let (mut chip8, mut mem) = setup_chip8_and_memory();
    set_v(&mut chip8, 0, 0x01);
    let result = execute(&mut chip8, 0x4002, &mut mem);
    assert!(result.is_ok());
    assert_eq!(chip8.cpu.pc.value(), PROGRAM_START + 2);
}

#[test]
fn test_chip8_execute_5xy0() {
    let (mut chip8, mut mem) = setup_chip8_and_memory();
    set_v(&mut chip8, 0, 0x01);
    set_v(&mut chip8, 1, 0x01);
    let result = execute(&mut chip8, 0x5010, &mut mem);
    assert!(result.is_ok());
    assert_eq!(chip8.cpu.pc.value(), PROGRAM_START + 2);
}

#[test]
fn test_chip8_execute_6xkk() {
    let (mut chip8, mut mem) = setup_chip8_and_memory();
    let result = execute(&mut chip8, 0x6001, &mut mem);
    assert!(result.is_ok());
    assert_eq!(v(&chip8, 0), 0x01);
}

#[test]
fn test_chip8_execute_7xkk() {
    let (mut chip8, mut mem) = setup_chip8_and_memory();
    let result = execute(&mut chip8, 0x7001, &mut mem);
    assert!(result.is_ok());
    assert_eq!(v(&chip8, 0), 0x01);
}

#[test]
fn test_chip8_execute_8xy0() {
    let (mut chip8, mut mem) = setup_chip8_and_memory();
    set_v(&mut chip8, 0, 0x0F);
    set_v(&mut chip8, 1, 0x01);
    let result = execute(&mut chip8, 0x8010, &mut mem);
    assert!(result.is_ok());
    assert_eq!(v(&chip8, 0), v(&chip8, 1));
}

#[test]
fn test_chip8_execute_8xy1() {
    let (mut chip8, mut mem) = setup_chip8_and_memory();
    set_v(&mut chip8, 0, 0x0F);
    set_v(&mut chip8, 1, 0x01);
    let result = execute(&mut chip8, 0x8011, &mut mem);
    assert!(result.is_ok());
    assert_eq!(v(&chip8, 0), 0x0F | 0x01);
}

#[test]
fn test_chip8_execute_8xy2() {
    let (mut chip8, mut mem) = setup_chip8_and_memory();
    set_v(&mut chip8, 0, 0x0F);
    set_v(&mut chip8, 1, 0x01);
    let result = execute(&mut chip8, 0x8012, &mut mem);
    assert!(result.is_ok());
    assert_eq!(v(&chip8, 0), 0x0F & 0x01);
}

#[test]
fn test_chip8_execute_8xy3() {
    let (mut chip8, mut mem) = setup_chip8_and_memory();
    set_v(&mut chip8, 0, 0x0F);
    set_v(&mut chip8, 1, 0x01);
    let result = execute(&mut chip8, 0x8013, &mut mem);
    assert!(result.is_ok());
    assert_eq!(v(&chip8, 0), 0x0F ^ 0x01);
}

#[test]
fn test_chip8_execute_8xy4_no_carry() {
    let (mut chip8, mut mem) = setup_chip8_and_memory();
    set_v(&mut chip8, 0, 0x0F);
    set_v(&mut chip8, 1, 0x01);
    let result = execute(&mut chip8, 0x8014, &mut mem);
    assert!(result.is_ok());
    assert_eq!(v(&chip8, 0), 0x0F + 0x01);
    assert_eq!(flag(&chip8), 0x00);
}

#[test]
fn test_chip8_execute_8xy4_carry() {
    let (mut chip8, mut mem) = setup_chip8_and_memory();
    set_v(&mut chip8, 0, 0xFF);
    set_v(&mut chip8, 1, 0x01);
    let result = execute(&mut chip8, 0x8014, &mut mem);
    assert!(result.is_ok());
    assert_eq!(v(&chip8, 0), 0xFFu8.wrapping_add(0x01));
    assert_eq!(flag(&chip8), 0x01);
}

#[test]
fn test_chip8_execute_8xy5_no_borrow() {
    let (mut chip8, mut mem) = setup_chip8_and_memory();
    set_v(&mut chip8, 0, 0x0F);
    set_v(&mut chip8, 1, 0x01);
    let result = execute(&mut chip8, 0x8015, &mut mem);
    assert!(result.is_ok());
    assert_eq!(v(&chip8, 0), 0x0F - 0x01);
    assert_eq!(flag(&chip8), 0x01);
}

#[test]
fn test_chip8_execute_8xy5_borrow() {
    let (mut chip8, mut mem) = setup_chip8_and_memory();
    set_v(&mut chip8, 0, 0x00);
    set_v(&mut chip8, 1, 0x01);
    let result = execute(&mut chip8, 0x8015, &mut mem);
    assert!(result.is_ok());
    assert_eq!(v(&chip8, 0), 0x00u8.wrapping_sub(0x01));
    assert_eq!(flag(&chip8), 0x00);
}

#[test]
fn test_chip8_execute_8xy6_even() {
    let (mut chip8, mut mem) = setup_chip8_and_memory();
    set_v(&mut chip8, 0, 0x20);
    let result = execute(&mut chip8, 0x8006, &mut mem);
    assert!(result.is_ok());
    assert_eq!(v(&chip8, 0), 0x10);
    assert_eq!(flag(&chip8), 0x00);
}

#[test]
fn test_chip8_execute_8xy6_odd() {
    let (mut chip8, mut mem) = setup_chip8_and_memory();
    set_v(&mut chip8, 0, 0x21);
    let result = execute(&mut chip8, 0x8006, &mut mem);
    assert!(result.is_ok());
    assert_eq!(v(&chip8, 0), 0x10);
    assert_eq!(flag(&chip8), 0x01);
}

#[test]
fn test_chip8_execute_8xy7_no_borrow() {
    let (mut chip8, mut mem) = setup_chip8_and_memory();
    set_v(&mut chip8, 0, 0x01);
    set_v(&mut chip8, 1, 0x0F);
    let result = execute(&mut chip8, 0x8017, &mut mem);
    assert!(result.is_ok());
    assert_eq!(v(&chip8, 0), 0x0F - 0x01);
    assert_eq!(flag(&chip8), 0x01);
}

#[test]
fn test_chip8_execute_8xy7_borrow() {
    let (mut chip8, mut mem) = setup_chip8_and_memory();
    set_v(&mut chip8, 0, 0x0F);
    set_v(&mut chip8, 1, 0x01);
    let result = execute(&mut chip8, 0x8017, &mut mem);
    assert!(result.is_ok());
    assert_eq!(v(&chip8, 0), 0x01u8.wrapping_sub(0x0F));
    assert_eq!(flag(&chip8), 0x00);
}

#[test]
fn test_chip8_execute_8xye_no_carry() {
    let (mut chip8, mut mem) = setup_chip8_and_memory();
    set_v(&mut chip8, 0, 0x20);
    let result = execute(&mut chip8, 0x800e, &mut mem);
    assert!(result.is_ok());
    assert_eq!(v(&chip8, 0), 0x40);
    assert_eq!(flag(&chip8), 0x00);
}

#[test]
fn test_chip8_execute_8xye_carry() {
    let (mut chip8, mut mem) = setup_chip8_and_memory();
    set_v(&mut chip8, 0, 0x81);
    let result = execute(&mut chip8, 0x800e, &mut mem);
    assert!(result.is_ok());
    assert_eq!(v(&chip8, 0), 0x02);
    assert_eq!(flag(&chip8), 0x01);
}

#[test]
fn test_chip8_execute_9xy0() {
    let (mut chip8, mut mem) = setup_chip8_and_memory();
    set_v(&mut chip8, 0, 0x01);
    set_v(&mut chip8, 1, 0x02);
    let result = execute(&mut chip8, 0x9010, &mut mem);
    assert!(result.is_ok());
    assert_eq!(chip8.cpu.pc.value(), PROGRAM_START + 2);
}

#[test]
fn test_chip8_execute_annn() {
    let (mut chip8, mut mem) = setup_chip8_and_memory();
    let result = execute(&mut chip8, 0xA123, &mut mem);
    assert!(result.is_ok());
    assert_eq!(chip8.cpu.idx.value(), 0x0123);
}

#[test]
fn test_chip8_execute_bnnn() {
    let (mut chip8, mut mem) = setup_chip8_and_memory();
    set_v(&mut chip8, 0, 0x01);
    let result = execute(&mut chip8, 0xB123, &mut mem);
    assert!(result.is_ok());
    assert_eq!(chip8.cpu.pc.value(), 0x0123 + 0x01);
}

#[test]
fn test_chip8_execute_cxkk() {
    let (mut chip8, mut mem) = setup_chip8_and_memory();
    let result = execute_with(&mut chip8, 0xC0FF, &mut mem, 0xA7);
    assert!(result.is_ok());
    assert_ne!(v(&chip8, 0), 0x00);
}

#[test]
fn test_chip8_execute_dxyn_no_collision() {
    let (mut chip8, mut mem) = setup_chip8_and_memory();
    let result = execute(&mut chip8, 0xD005, &mut mem);
    assert!(result.is_ok());
    assert_eq!(flag(&chip8), 0x00);
}

#[test]
fn test_chip8_execute_dxyn_collision() {
    let (mut chip8, mut mem) = setup_chip8_and_memory();
    chip8.display.draw(0, 0, &[0xFF; 5]);
    let result = execute(&mut chip8, 0xD005, &mut mem);
    assert!(result.is_ok());
    assert_eq!(flag(&chip8), 0x01);
}

#[test]
fn test_chip8_execute_ex9e() {
    let (mut chip8, mut mem) = setup_chip8_and_memory();
    set_v(&mut chip8, 0, 0x01);
    let result = execute(&mut chip8, 0xE09E, &mut mem);
    assert!(result.is_ok());
    assert_eq!(chip8.cpu.pc.value(), PROGRAM_START);
}

#[test]
fn test_chip8_execute_exa1() {
    let (mut chip8, mut mem) = setup_chip8_and_memory();
    set_v(&mut chip8, 0, 0x01);
    let result = execute(&mut chip8, 0xE0A1, &mut mem);
    assert!(result.is_ok());
    assert_eq!(chip8.cpu.pc.value(), PROGRAM_START + 2);
}

#[test]
fn test_chip8_execute_fx07() {
    let (mut chip8, mut mem) = setup_chip8_and_memory();
    chip8.cpu.timers.delay = 0x05;
    let result = execute(&mut chip8, 0xF007, &mut mem);
    assert!(result.is_ok());
    assert_eq!(v(&chip8, 0), 0x05);
}

#[test]
fn test_chip8_execute_fx15() {
    let (mut chip8, mut mem) = setup_chip8_and_memory();
    set_v(&mut chip8, 0, 0x05);
    let result = execute(&mut chip8, 0xF015, &mut mem);
    assert!(result.is_ok());
    assert_eq!(chip8.cpu.timers.delay, 0x05);
}

#[test]
fn test_chip8_execute_fx18() {
    let (mut chip8, mut mem) = setup_chip8_and_memory();
    set_v(&mut chip8, 0, 0x05);
    let result = execute(&mut chip8, 0xF018, &mut mem);
    assert!(result.is_ok());
    assert_eq!(chip8.cpu.timers.sound, 0x05);
}

#[test]
fn test_chip8_execute_fx1e() {
    let (mut chip8, mut mem) = setup_chip8_and_memory();
    chip8.cpu.idx = Addr::from(0x05);
    set_v(&mut chip8, 0, 0x05);
    let result = execute(&mut chip8, 0xF01E, &mut mem);
    assert!(result.is_ok());
    assert_eq!(chip8.cpu.idx.value(), 0x0A);
}

#[test]
fn test_chip8_execute_fx29() {
    let (mut chip8, mut mem) = setup_chip8_and_memory();
    set_v(&mut chip8, 0, 0x05);
    let result = execute(&mut chip8, 0xF029, &mut mem);
    assert!(result.is_ok());
    assert_eq!(chip8.cpu.idx.value(), 0x05 * SPRITE_SIZE as u16);
}

#[test]
fn test_chip8_execute_fx33() {
    let (mut chip8, mut mem) = setup_chip8_and_memory();
    chip8.cpu.idx = Addr::from(0x05);
    set_v(&mut chip8, 0, 123);
    let result = execute(&mut chip8, 0xF033, &mut mem);
    assert!(result.is_ok());
    assert_eq!(mem.read_byte(Addr::from(0x05)), 1);
    assert_eq!(mem.read_byte(Addr::from(0x06)), 2);
    assert_eq!(mem.read_byte(Addr::from(0x07)), 3);
}

#[test]
fn test_chip8_execute_fx55() {
    let (mut chip8, mut mem) = setup_chip8_and_memory();
    chip8.cpu.idx = Addr::from(0x05);
    set_v(&mut chip8, 0, 0x01);
    set_v(&mut chip8, 1, 0x02);
    let result = execute(&mut chip8, 0xF155, &mut mem);
    assert!(result.is_ok());
    assert_eq!(mem.read_byte(Addr::from(0x05)), 0x01);
    assert_eq!(mem.read_byte(Addr::from(0x06)), 0x02);
}

#[test]
fn test_chip8_execute_fx65() {
    let (mut chip8, mut mem) = setup_chip8_and_memory();
    chip8.cpu.idx = Addr::from(0x05);
    mem.write_byte(Addr::from(0x05), 0x01);
    mem.write_byte(Addr::from(0x06), 0x02);
    let result = execute(&mut chip8, 0xF165, &mut mem);
    assert!(result.is_ok());
    assert_eq!(v(&chip8, 0), 0x01);
    assert_eq!(v(&chip8, 1), 0x02);
}
