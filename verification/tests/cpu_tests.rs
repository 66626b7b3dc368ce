use gbcore::cartdrige::{Cartdrige, ExecutionError, RomOnly};
use gbcore::cpu::Cpu;
use gbcore::register::{Flag, Flags, ProgramCounter, Registers, StackPointer};

#[test]
fn test_cpu_step() {
    let mut cpu = Cpu::new(Cartdrige::RomOnly(RomOnly(vec![0x00; 0x101])));
    cpu.step().expect("step");
    assert_eq!(cpu.registers.pc.value(), 0x0101);
}

#[test]
fn test_cpu_step_nop() {
    let mut cpu = Cpu::new(Cartdrige::RomOnly(RomOnly(vec![0x00; 0x101])));
    let tmp_registers = cpu.registers;
    let instruction = cpu.step().expect("step");
    assert_eq!(instruction.mnemonic, "NOP");
    assert_eq!(cpu.registers.pc.value(), 0x0101);
    assert_eq!(
        cpu.registers,
        Registers {
            pc: ProgramCounter(0x0101),
            ..tmp_registers
        }
    );
}

#[test]
fn test_cpu_step_jp_a16() {
    let mut fake_rom_data = vec![0x00; 0xFFF];
    fake_rom_data[0x100] = 0xc3; // JP a16
    fake_rom_data[0x101] = 0xFF; // value to jump
    let mut cpu = Cpu::new(Cartdrige::RomOnly(RomOnly(fake_rom_data)));
    let tmp_registers = cpu.registers;
    let instruction = cpu.step().expect("step");
    assert_eq!(instruction.mnemonic, "JP a16");
    assert_eq!(cpu.registers.pc.value(), 0xFF);
    assert_eq!(
        cpu.registers,
        Registers {
            pc: ProgramCounter(0xFF),
            ..tmp_registers
        }
    );
}

#[test]
fn test_cpu_step_xor_a_a() {
    let mut fake_rom_data = vec![0x00; 0x101];
    fake_rom_data[0x100] = 0xAF; // XOR A, A
    let mut cpu = Cpu::new(Cartdrige::RomOnly(RomOnly(fake_rom_data)));
    let tmp_registers = cpu.registers;
    let instruction = cpu.step().expect("step");
    assert_eq!(instruction.mnemonic, "XOR A, A");
    assert_eq!(cpu.registers.pc.value(), 0x101);
    assert_eq!(
        cpu.registers,
        Registers {
            a: 0x00,
            f: Flags::new(true, false, false, false),
            pc: ProgramCounter(0x101),
            ..tmp_registers
        }
    );
}

#[test]
fn test_cpu_step_ld_hl_d16() {
    let mut fake_rom_data = vec![0x00; 0x111];
    fake_rom_data[0x100] = 0x21; // LD HL,d16
    fake_rom_data[0x102] = 0x12; // H register value
    fake_rom_data[0x101] = 0x34; // L register value
    let mut cpu = Cpu::new(Cartdrige::RomOnly(RomOnly(fake_rom_data)));
    let tmp_registers = cpu.registers;
    let instruction = cpu.step().expect("step");
    assert_eq!(instruction.mnemonic, "LD HL,d16");
    assert_eq!(cpu.registers.pc.value(), 0x103);
    assert_eq!(
        cpu.registers,
        Registers {
            h: 0x12,
            l: 0x34,
            pc: ProgramCounter(0x103),
            ..tmp_registers
        }
    );
}

#[test]
fn test_cpu_step_ld_c_d8() {
    let mut fake_rom_data = vec![0x00; 0x102];
    fake_rom_data[0x100] = 0x0E; // LD C,d8
    fake_rom_data[0x101] = 0x12; // C register value
    let mut cpu = Cpu::new(Cartdrige::RomOnly(RomOnly(fake_rom_data)));
    let tmp_registers = cpu.registers;
    let instruction = cpu.step().expect("step");
    assert_eq!(instruction.mnemonic, "LD C,d8");
    assert_eq!(cpu.registers.pc.value(), 0x102);
    assert_eq!(
        cpu.registers,
        Registers {
            c: 0x12,
            pc: ProgramCounter(0x102),
            ..tmp_registers
        }
    );
}

#[test]
fn test_cpu_step_ld_b_d8() {
    let mut fake_rom_data = vec![0x00; 0x102];
    fake_rom_data[0x100] = 0x06; // LD B,d8
    fake_rom_data[0x101] = 0x12; // B register value
    let mut cpu = Cpu::new(Cartdrige::RomOnly(RomOnly(fake_rom_data)));
    let tmp_registers = cpu.registers;
    let instruction = cpu.step().expect("step");
    assert_eq!(instruction.mnemonic, "LD B,d8");
    assert_eq!(cpu.registers.pc.value(), 0x102);
    assert_eq!(
        cpu.registers,
        Registers {
            b: 0x12,
            pc: ProgramCounter(0x102),
            ..tmp_registers
        }
    );
}

#[test]
fn test_power_up_defaults() {
    let cpu = Cpu::new(Cartdrige::RomOnly(RomOnly(vec![0x00; 0x150])));
    assert_eq!(
        cpu.registers,
        Registers {
            a: 0x01,
            f: Flags::new(true, false, false, false),
            b: 0x00,
            c: 0x13,
            d: 0x00,
            e: 0xD8,
            h: 0x01,
            l: 0x4D,
            sp: StackPointer(0xFFFE),
            pc: ProgramCounter(0x0100),
        }
    );
}

#[test]
fn test_dec_b_from_zero() {
    let mut fake_rom_data = vec![0x00; 0x101];
    fake_rom_data[0x100] = 0x05; // DEC B, with b at its power-up value 0x00
    let mut cpu = Cpu::new(Cartdrige::RomOnly(RomOnly(fake_rom_data)));
    let instruction = cpu.step().expect("step");
    assert_eq!(instruction.mnemonic, "DEC B");
    assert_eq!(cpu.registers.b, 0xFF);
    assert!(!cpu.registers.f.contains(Flag::Zero));
    assert!(cpu.registers.f.contains(Flag::Subtraction));
    assert!(cpu.registers.f.contains(Flag::HalfCarry));
    assert!(!cpu.registers.f.contains(Flag::Carry));
    assert_eq!(cpu.registers.pc.value(), 0x101);
}

#[test]
fn test_dec_c() {
    let mut fake_rom_data = vec![0x00; 0x101];
    fake_rom_data[0x100] = 0x0D; // DEC C, with c at its power-up value 0x13
    let mut cpu = Cpu::new(Cartdrige::RomOnly(RomOnly(fake_rom_data)));
    let instruction = cpu.step().expect("step");
    assert_eq!(instruction.mnemonic, "DEC C");
    assert_eq!(cpu.registers.c, 0x12);
    assert!(!cpu.registers.f.contains(Flag::Zero));
    assert!(cpu.registers.f.contains(Flag::Subtraction));
    assert!(!cpu.registers.f.contains(Flag::HalfCarry));
    assert_eq!(cpu.registers.pc.value(), 0x101);
}

#[test]
fn test_jr_nz_with_zero_set_skips() {
    let mut fake_rom_data = vec![0x00; 0x110];
    fake_rom_data[0x100] = 0x20; // JR NZ,r8, with ZERO set at power-up
    fake_rom_data[0x101] = 0x05; // displacement that must be ignored
    let mut cpu = Cpu::new(Cartdrige::RomOnly(RomOnly(fake_rom_data)));
    let instruction = cpu.step().expect("step");
    assert_eq!(instruction.mnemonic, "JR NZ,r8");
    assert_eq!(cpu.registers.pc.value(), 0x102);
}

#[test]
fn test_jr_nz_with_zero_clear_jumps_forward() {
    let mut fake_rom_data = vec![0x00; 0x110];
    fake_rom_data[0x100] = 0x0D; // DEC C leaves c at 0x12, clearing ZERO
    fake_rom_data[0x101] = 0x20; // JR NZ,r8
    fake_rom_data[0x102] = 0x05; // displacement
    let mut cpu = Cpu::new(Cartdrige::RomOnly(RomOnly(fake_rom_data)));
    cpu.step().expect("step");
    cpu.step().expect("step");
    // pc after the operand fetch is 0x103; plus 5 gives 0x108
    assert_eq!(cpu.registers.pc.value(), 0x108);
}

#[test]
fn test_jr_nz_with_zero_clear_jumps_backward() {
    let mut fake_rom_data = vec![0x00; 0x110];
    fake_rom_data[0x100] = 0x0D; // DEC C leaves c at 0x12, clearing ZERO
    fake_rom_data[0x101] = 0x20; // JR NZ,r8
    fake_rom_data[0x102] = 0xFB; // displacement -5
    let mut cpu = Cpu::new(Cartdrige::RomOnly(RomOnly(fake_rom_data)));
    cpu.step().expect("step");
    cpu.step().expect("step");
    // pc after the operand fetch is 0x103; minus 5 gives 0xFE
    assert_eq!(cpu.registers.pc.value(), 0x00FE);
}

#[test]
fn test_ld_a_d8() {
    let mut fake_rom_data = vec![0x00; 0x102];
    fake_rom_data[0x100] = 0x3E; // LD A,d8
    fake_rom_data[0x101] = 0x7C;
    let mut cpu = Cpu::new(Cartdrige::RomOnly(RomOnly(fake_rom_data)));
    let instruction = cpu.step().expect("step");
    assert_eq!(instruction.mnemonic, "LD A,d8");
    assert_eq!(cpu.registers.a, 0x7C);
    assert_eq!(cpu.registers.pc.value(), 0x102);
}

#[test]
fn test_ld_h_b() {
    let mut fake_rom_data = vec![0x00; 0x110];
    fake_rom_data[0x100] = 0x06; // LD B,d8
    fake_rom_data[0x101] = 0x55;
    fake_rom_data[0x102] = 0x60; // LD H,B
    let mut cpu = Cpu::new(Cartdrige::RomOnly(RomOnly(fake_rom_data)));
    cpu.step().expect("step");
    let instruction = cpu.step().expect("step");
    assert_eq!(instruction.mnemonic, "LD H,B");
    assert_eq!(cpu.registers.h, 0x55);
    assert_eq!(cpu.registers.b, 0x55);
    assert_eq!(cpu.registers.pc.value(), 0x103);
}

#[test]
fn test_cpl() {
    let mut fake_rom_data = vec![0x00; 0x101];
    fake_rom_data[0x100] = 0x2F; // CPL, with a at its power-up value 0x01
    let mut cpu = Cpu::new(Cartdrige::RomOnly(RomOnly(fake_rom_data)));
    let instruction = cpu.step().expect("step");
    assert_eq!(instruction.mnemonic, "CPL");
    assert_eq!(cpu.registers.a, 0xFE);
    assert!(cpu.registers.f.contains(Flag::Subtraction));
    assert!(cpu.registers.f.contains(Flag::HalfCarry));
    assert!(cpu.registers.f.contains(Flag::Zero)); // untouched
    assert!(!cpu.registers.f.contains(Flag::Carry)); // untouched
    assert_eq!(cpu.registers.pc.value(), 0x101);
}

#[test]
fn test_stop_skips_its_operand() {
    let mut fake_rom_data = vec![0x00; 0x102];
    fake_rom_data[0x100] = 0x10; // STOP 0
    fake_rom_data[0x101] = 0x77; // operand byte, consumed and ignored
    let mut cpu = Cpu::new(Cartdrige::RomOnly(RomOnly(fake_rom_data)));
    let tmp_registers = cpu.registers;
    let instruction = cpu.step().expect("step");
    assert_eq!(instruction.mnemonic, "STOP 0");
    assert_eq!(
        cpu.registers,
        Registers {
            pc: ProgramCounter(0x102),
            ..tmp_registers
        }
    );
}

#[test]
fn test_unknown_opcode_fails() {
    let mut fake_rom_data = vec![0x00; 0x101];
    fake_rom_data[0x100] = 0xFF; // no table entry
    let mut cpu = Cpu::new(Cartdrige::RomOnly(RomOnly(fake_rom_data)));
    let err = cpu.step().unwrap_err();
    assert_eq!(err, ExecutionError::UnknownOpcode(0xFF));
    assert_eq!(cpu.registers.pc.value(), 0x101);
}

#[test]
fn test_store_a_hl_dec_fails_on_rom() {
    let mut fake_rom_data = vec![0x00; 0x101];
    fake_rom_data[0x100] = 0x32; // LD (HL-),A against read-only memory
    let mut cpu = Cpu::new(Cartdrige::RomOnly(RomOnly(fake_rom_data)));
    let err = cpu.step().unwrap_err();
    assert_eq!(err, ExecutionError::WriteToReadOnly);
    // h and l keep their power-up values; only the opcode was consumed
    assert_eq!(cpu.registers.h, 0x01);
    assert_eq!(cpu.registers.l, 0x4D);
    assert_eq!(cpu.registers.pc.value(), 0x101);
}

#[test]
fn test_can_step_stops_at_image_end() {
    let mut fake_rom_data = vec![0x00; 0x102];
    fake_rom_data[0x100] = 0x21; // LD HL,d16 needs two operand bytes
    let cpu = Cpu::new(Cartdrige::RomOnly(RomOnly(fake_rom_data)));
    // only one byte follows the opcode, so the step cannot run
    assert!(!cpu.can_step());
    let nop_rom = vec![0x00; 0x101];
    let cpu2 = Cpu::new(Cartdrige::RomOnly(RomOnly(nop_rom)));
    assert!(cpu2.can_step());
}
