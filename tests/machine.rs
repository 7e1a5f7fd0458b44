use rustari::bus::{is_write_mapped, Bus};
use rustari::cpu::{AddrMode, Cpu, InstructionProcedure, Operation};
use rustari::fault::{BusAccessable, Fault};
use rustari::pia::Pia;
use rustari::tia::Tia;

/// A machine whose cartridge holds `program` at 0xF000 and whose reset
/// vector points there.
fn machine(program: &[u8]) -> Bus {
    let mut rom = vec![0u8; 4096];
    rom[..program.len()].copy_from_slice(program);
    rom[0xFFC] = 0x00;
    rom[0xFFD] = 0xF0;
    let mut bus = Bus::default();
    bus.cart.set_rom(&rom);
    Cpu::init_pc(&mut bus);
    bus
}

/// Runs CPU cycles until the instruction under way completes; returns how
/// many it took.
fn run_instruction(bus: &mut Bus) -> usize {
    let mut n = 0;
    loop {
        Cpu::cycle(bus).unwrap();
        n += 1;
        if bus.cpu.procedure.is_none() {
            return n;
        }
        assert!(n < 16, "instruction did not complete");
    }
}

#[test]
fn reset_vector_sets_pc() {
    let bus = machine(&[0xEA]);
    assert_eq!(bus.cpu.pc, 0xF000);
}

#[test]
fn branch_not_taken_takes_two_cycles() {
    let mut bus = machine(&[0xF0, 0x05]);
    bus.cpu.status.zero = false;
    assert_eq!(run_instruction(&mut bus), 2);
    assert_eq!(bus.cpu.pc, 0xF003);
}

#[test]
fn branch_taken_same_page_takes_three_cycles() {
    let mut program = vec![0u8; 8];
    program[0] = 0xF0;
    program[1] = 0x05;
    program[7] = 0xE8;
    let mut bus = machine(&program);
    bus.cpu.status.zero = true;
    assert_eq!(run_instruction(&mut bus), 3);
    // The next opcode was fetched from 0xF007.
    assert_eq!(bus.cpu.prefetch, Some(0xE8));
    assert_eq!(bus.cpu.pc, 0xF008);
}

#[test]
fn branch_taken_to_other_page_takes_four_cycles() {
    let mut program = vec![0u8; 0x200];
    program[0xF0] = 0xD0;
    program[0xF1] = 0x20;
    program[0x112] = 0xC8;
    let mut bus = machine(&program);
    bus.cpu.pc = 0xF0F0;
    bus.cpu.status.zero = false;
    assert_eq!(run_instruction(&mut bus), 4);
    assert_eq!(bus.cpu.prefetch, Some(0xC8));
    assert_eq!(bus.cpu.pc, 0xF113);
}

#[test]
fn backward_branch_wraps_displacement() {
    let mut program = vec![0u8; 0x20];
    program[0x10] = 0x90;
    program[0x11] = 0xFC;
    program[0x0E] = 0xCA;
    let mut bus = machine(&program);
    bus.cpu.pc = 0xF010;
    bus.cpu.status.carry = false;
    assert_eq!(run_instruction(&mut bus), 3);
    assert_eq!(bus.cpu.prefetch, Some(0xCA));
    assert_eq!(bus.cpu.pc, 0xF00F);
}

#[test]
fn indirect_jump_wraps_within_page() {
    let mut program = vec![0u8; 0x300];
    program[0x200] = 0x6C;
    program[0x201] = 0xFF;
    program[0x202] = 0xF0;
    program[0x0FF] = 0x34;
    program[0x000] = 0xF2;
    program[0x100] = 0xF1;
    program[0x234] = 0xAA;
    let mut bus = machine(&program);
    bus.cpu.pc = 0xF200;
    assert_eq!(run_instruction(&mut bus), 5);
    // High byte from 0xF000, not 0xF100: the target is 0xF234.
    assert_eq!(bus.cpu.prefetch, Some(0xAA));
    assert_eq!(bus.cpu.pc, 0xF235);
}

#[test]
fn absolute_jump_takes_three_cycles() {
    let mut program = vec![0u8; 0x20];
    program[0] = 0x4C;
    program[1] = 0x10;
    program[2] = 0xF0;
    program[0x10] = 0xE8;
    let mut bus = machine(&program);
    assert_eq!(run_instruction(&mut bus), 3);
    assert_eq!(bus.cpu.prefetch, Some(0xE8));
    assert_eq!(bus.cpu.pc, 0xF011);
}

#[test]
fn rmw_zero_page_writes_twice() {
    // ASL $02: address 0x02 is WSYNC, whose latch any write sets.
    let mut bus = machine(&[0x06, 0x02]);
    for _ in 0..3 {
        Cpu::cycle(&mut bus).unwrap();
    }
    assert!(!bus.tia.regs.wsync);
    Cpu::cycle(&mut bus).unwrap();
    assert!(bus.tia.regs.wsync, "the unmodified value is written back on cycle 4");
    bus.tia.regs.wsync = false;
    Cpu::cycle(&mut bus).unwrap();
    assert!(bus.tia.regs.wsync, "the modified value is written on cycle 5");
    assert!(bus.cpu.procedure.is_none());
}

#[test]
fn rmw_zero_page_shifts_memory() {
    let mut bus = machine(&[0x06, 0x80]);
    bus.write(0x80, 0xC1).unwrap();
    for _ in 0..4 {
        Cpu::cycle(&mut bus).unwrap();
    }
    assert_eq!(bus.read(0x80).unwrap(), 0xC1);
    Cpu::cycle(&mut bus).unwrap();
    assert!(bus.cpu.procedure.is_none());
    assert_eq!(bus.read(0x80).unwrap(), 0x82);
    assert!(bus.cpu.status.carry);
    assert!(bus.cpu.status.negative);
    assert!(!bus.cpu.status.zero);
}

#[test]
fn accumulator_lsr_of_three() {
    let mut bus = machine(&[0xA9, 0b0000_0011, 0x4A]);
    assert_eq!(run_instruction(&mut bus), 2);
    assert_eq!(run_instruction(&mut bus), 2);
    assert_eq!(bus.cpu.acc, 0b0000_0001);
    assert!(bus.cpu.status.carry);
    assert!(!bus.cpu.status.zero);
    assert!(!bus.cpu.status.negative);
}

#[test]
fn rotates_go_through_carry() {
    let mut bus = machine(&[0x38, 0xA9, 0x80, 0x2A, 0x6A, 0x6A]);
    run_instruction(&mut bus);
    run_instruction(&mut bus);
    run_instruction(&mut bus);
    assert_eq!(bus.cpu.acc, 0x01);
    assert!(bus.cpu.status.carry);
    run_instruction(&mut bus);
    assert_eq!(bus.cpu.acc, 0x80);
    assert!(bus.cpu.status.carry);
    assert!(bus.cpu.status.negative);
    run_instruction(&mut bus);
    assert_eq!(bus.cpu.acc, 0xC0);
    assert!(!bus.cpu.status.carry);
}

#[test]
fn load_cycles_per_mode() {
    // LDA #, LDA zp, LDA abs, LDA zp,X, LDX zp,Y
    let mut bus = machine(&[0xA9, 0x01, 0xA5, 0x80, 0xAD, 0x81, 0x00, 0xB5, 0x80, 0xB6, 0x80]);
    bus.write(0x80, 0x11).unwrap();
    bus.write(0x81, 0x22).unwrap();
    bus.write(0x82, 0x33).unwrap();
    assert_eq!(run_instruction(&mut bus), 2);
    assert_eq!(bus.cpu.acc, 0x01);
    assert_eq!(run_instruction(&mut bus), 3);
    assert_eq!(bus.cpu.acc, 0x11);
    assert_eq!(run_instruction(&mut bus), 4);
    assert_eq!(bus.cpu.acc, 0x22);
    bus.cpu.x = 2;
    assert_eq!(run_instruction(&mut bus), 4);
    assert_eq!(bus.cpu.acc, 0x33);
    bus.cpu.y = 1;
    assert_eq!(run_instruction(&mut bus), 4);
    assert_eq!(bus.cpu.x, 0x22);
}

#[test]
fn zero_page_index_wraps_in_page_zero() {
    let mut bus = machine(&[0xB5, 0xF0]);
    bus.write(0x80, 0x5A).unwrap();
    bus.cpu.x = 0x90;
    assert_eq!(run_instruction(&mut bus), 4);
    assert_eq!(bus.cpu.acc, 0x5A);
}

#[test]
fn stores_take_template_cycles() {
    let mut bus = machine(&[0x85, 0x90, 0x8E, 0x91, 0x00, 0x94, 0x90]);
    bus.cpu.acc = 0x12;
    bus.cpu.x = 0x02;
    bus.cpu.y = 0x56;
    assert_eq!(run_instruction(&mut bus), 3);
    assert_eq!(run_instruction(&mut bus), 4);
    assert_eq!(run_instruction(&mut bus), 4);
    assert_eq!(bus.read(0x90).unwrap(), 0x12);
    assert_eq!(bus.read(0x91).unwrap(), 0x02);
    assert_eq!(bus.read(0x92).unwrap(), 0x56);
}

#[test]
fn subtract_with_borrow() {
    // SEC; LDA #$00; SBC #$01
    let mut bus = machine(&[0x38, 0xA9, 0x00, 0xE9, 0x01, 0xA9, 0x80, 0x38, 0xE9, 0x01]);
    run_instruction(&mut bus);
    run_instruction(&mut bus);
    assert_eq!(run_instruction(&mut bus), 2);
    assert_eq!(bus.cpu.acc, 0xFF);
    assert!(!bus.cpu.status.carry);
    assert!(bus.cpu.status.negative);
    assert!(!bus.cpu.status.overflow);
    assert!(!bus.cpu.status.zero);
    // LDA #$80; SEC; SBC #$01: signed overflow
    run_instruction(&mut bus);
    run_instruction(&mut bus);
    run_instruction(&mut bus);
    assert_eq!(bus.cpu.acc, 0x7F);
    assert!(bus.cpu.status.carry);
    assert!(bus.cpu.status.overflow);
}

#[test]
fn subtract_to_zero_sets_zero() {
    // LDA #$01; CLC; SBC #$00: the clear Carry borrows one.
    let mut bus = machine(&[0xA9, 0x01, 0x18, 0xE9, 0x00]);
    run_instruction(&mut bus);
    run_instruction(&mut bus);
    run_instruction(&mut bus);
    assert_eq!(bus.cpu.acc, 0x00);
    assert!(bus.cpu.status.zero);
    assert!(bus.cpu.status.carry);
}

#[test]
fn register_instructions() {
    // LDX #$00; DEX; INY; TXA; TAY; TSX; TXS; EOR #$FF
    let mut bus = machine(&[0xA2, 0x00, 0xCA, 0xC8, 0x8A, 0xA8, 0xBA, 0x9A, 0x49, 0xFF]);
    bus.cpu.sp = 0x7F;
    run_instruction(&mut bus);
    assert!(bus.cpu.status.zero);
    assert_eq!(run_instruction(&mut bus), 2);
    assert_eq!(bus.cpu.x, 0xFF);
    assert!(bus.cpu.status.negative);
    run_instruction(&mut bus);
    assert_eq!(bus.cpu.y, 0x01);
    run_instruction(&mut bus);
    assert_eq!(bus.cpu.acc, 0xFF);
    run_instruction(&mut bus);
    assert_eq!(bus.cpu.y, 0xFF);
    run_instruction(&mut bus);
    assert_eq!(bus.cpu.x, 0x7F);
    assert!(!bus.cpu.status.negative);
    bus.cpu.x = 0x40;
    run_instruction(&mut bus);
    assert_eq!(bus.cpu.sp, 0x40);
    run_instruction(&mut bus);
    assert_eq!(bus.cpu.acc, 0x00);
    assert!(bus.cpu.status.zero);
}

#[test]
fn flag_instructions() {
    // SEC; SED; SEI; CLD
    let mut bus = machine(&[0x38, 0xF8, 0x78, 0xD8]);
    run_instruction(&mut bus);
    assert!(bus.cpu.status.carry);
    run_instruction(&mut bus);
    assert!(bus.cpu.status.decimal);
    run_instruction(&mut bus);
    assert!(bus.cpu.status.interrupt_disable);
    run_instruction(&mut bus);
    assert!(!bus.cpu.status.decimal);
}

#[test]
fn subroutine_call_pushes_return_address_minus_one() {
    let mut program = vec![0u8; 0x200];
    program[0] = 0x20;
    program[1] = 0x23;
    program[2] = 0xF1;
    program[0x123] = 0xEA;
    let mut bus = machine(&program);
    bus.cpu.sp = 0xFF;
    assert_eq!(run_instruction(&mut bus), 6);
    assert_eq!(bus.cpu.prefetch, Some(0xEA));
    assert_eq!(bus.cpu.pc, 0xF124);
    assert_eq!(bus.cpu.sp, 0xFD);
    assert_eq!(bus.read(0x1FF).unwrap(), 0xF0);
    assert_eq!(bus.read(0x1FE).unwrap(), 0x02);
}

#[test]
fn unknown_opcode_faults() {
    let mut bus = machine(&[0x02]);
    assert_eq!(Cpu::cycle(&mut bus), Err(Fault::UnknownOpcode(0x02)));
}

#[test]
fn unmodelled_instruction_faults() {
    // RTI: interrupts are not modelled.
    let mut bus = machine(&[0x40]);
    assert_eq!(Cpu::cycle(&mut bus), Err(Fault::Unimplemented));
}

#[test]
fn unmodelled_addressing_mode_faults() {
    // LDA abs,X
    let mut bus = machine(&[0xBD, 0x00, 0xF0]);
    assert_eq!(Cpu::cycle(&mut bus), Err(Fault::Unimplemented));
}

#[test]
fn decimal_subtract_faults() {
    let mut bus = machine(&[0xF8, 0xE9, 0x01]);
    run_instruction(&mut bus);
    Cpu::cycle(&mut bus).unwrap();
    assert_eq!(Cpu::cycle(&mut bus), Err(Fault::Unimplemented));
}

#[test]
fn unsupported_mode_faults() {
    let mut bus = machine(&[0xEA]);
    let mut p = InstructionProcedure::new(Operation::Lda, AddrMode::Implied);
    assert_eq!(p.step(&mut bus), Err(Fault::UnsupportedMode));
}

#[test]
fn unmodelled_register_faults() {
    let mut bus = Bus::default();
    assert_eq!(bus.write(0x03, 0), Err(Fault::UnsupportedRegister(0x03)));
    assert_eq!(bus.read(0x30), Err(Fault::UnsupportedRegister(0x30)));
    assert_eq!(bus.read(0x285), Err(Fault::UnsupportedRegister(0x285)));
    assert_eq!(bus.write(0x280, 0), Err(Fault::UnsupportedRegister(0x280)));
    assert_eq!(bus.write(0xF000, 0), Err(Fault::UnsupportedRegister(0xF000)));
}

#[test]
fn open_bus_reads_zero_and_ignores_writes() {
    let mut bus = Bus::default();
    assert_eq!(bus.write(0x1000, 0x55), Ok(()));
    assert_eq!(bus.read(0x1000), Ok(0));
    assert_eq!(bus.read(0x0200), Ok(0));
}

#[test]
fn fixed_registers_read_twice_alike() {
    let mut bus = Bus::default();
    bus.write(0x85, 0x42).unwrap();
    for addr in [0x3Cu16, 0x3D, 0x32, 0x280, 0x282, 0x85, 0x1F0, 0xF123] {
        let timer = bus.pia.timer;
        let regs = bus.tia.regs;
        let a = bus.read(addr).unwrap();
        let b = bus.read(addr).unwrap();
        assert_eq!(a, b);
        assert_eq!(bus.pia.timer, timer);
        assert_eq!(bus.tia.regs, regs);
    }
    assert_eq!(bus.read(0x3C), Ok(0x80));
    assert_eq!(bus.read(0x282), Ok(0x3F));
    assert_eq!(bus.read(0x280), Ok(0xFF));
    assert_eq!(bus.read(0x85), Ok(0x42));
}

#[test]
fn short_rom_is_padded_and_mirrored() {
    let mut bus = Bus::default();
    bus.cart.set_rom(&vec![0x11, 0x22, 0x33]);
    assert_eq!(bus.cart.rom.len(), 4096);
    assert_eq!(bus.read(0xF001), Ok(0x22));
    assert_eq!(bus.read(0xF003), Ok(0x00));
    assert_eq!(bus.read(0xFFFF), Ok(0x00));
}

#[test]
fn timer_interval_1024_underflows_to_free_running() {
    let mut pia = Pia::default();
    pia.write(0x297, 0x0A).unwrap();
    for _ in 0..(1 + 1024 * 10) {
        pia.cycle();
    }
    assert_eq!(pia.intim(), 0x00);
    assert!(!pia.is_free_running());
    pia.cycle();
    assert_eq!(pia.intim(), 0xFF);
    assert!(pia.is_free_running());
    pia.cycle();
    assert_eq!(pia.intim(), 0xFE);
}

#[test]
fn timer_first_tick_after_one_cycle() {
    let mut pia = Pia::default();
    pia.write(0x295, 0x03).unwrap();
    pia.cycle();
    assert_eq!(pia.intim(), 0x03);
    pia.cycle();
    assert_eq!(pia.intim(), 0x02);
    for _ in 0..7 {
        pia.cycle();
    }
    assert_eq!(pia.intim(), 0x02);
    pia.cycle();
    assert_eq!(pia.intim(), 0x01);
}

#[test]
fn reading_timer_rearms_interval_mode() {
    let mut pia = Pia::default();
    pia.write(0x294, 0x00).unwrap();
    pia.cycle();
    pia.cycle();
    assert!(pia.is_free_running());
    assert_eq!(pia.read(0x284), Ok(0xFF));
    assert!(!pia.is_free_running());
}

#[test]
fn frame_period_returns_beam_home() {
    // JMP $F000 forever.
    let mut bus = machine(&[0x4C, 0x00, 0xF0]);
    Tia::cycle(&mut bus).unwrap();
    while bus.tia.cycles.color_clock != 0 {
        Tia::cycle(&mut bus).unwrap();
    }
    bus.tia.cycles.scanline = 100;
    // A rising edge, and VSYNC left high.
    bus.write(0x00, 0x02).unwrap();
    for _ in 0..(228 * 262 * 3) {
        Tia::cycle(&mut bus).unwrap();
    }
    assert!(bus.tia.regs.vsync);
    assert_eq!((bus.tia.cycles.scanline, bus.tia.cycles.color_clock), (0, 0));
    assert_eq!(bus.tia.cycles.frame_counter, 1);
}

#[test]
fn frame_starts_at_end_of_edge_tick() {
    let mut bus = machine(&[0x4C, 0x00, 0xF0]);
    bus.tia.cycles.scanline = 40;
    bus.tia.cycles.color_clock = 10;
    bus.write(0x00, 0x02).unwrap();
    Tia::cycle(&mut bus).unwrap();
    assert_eq!(bus.tia.cycles.frame_counter, 1);
    assert_eq!((bus.tia.cycles.scanline, bus.tia.cycles.color_clock), (0, 11));
    assert!(!bus.tia.regs.vsync_trigger);
    // VSYNC stays high: the level starts no further frame.
    for _ in 0..10 {
        Tia::cycle(&mut bus).unwrap();
    }
    assert_eq!(bus.tia.cycles.frame_counter, 1);
}

#[test]
fn beam_wraps_line_and_frame() {
    let mut bus = machine(&[0x4C, 0x00, 0xF0]);
    for _ in 0..228 {
        Tia::cycle(&mut bus).unwrap();
    }
    assert_eq!((bus.tia.cycles.scanline, bus.tia.cycles.color_clock), (1, 0));
    for _ in 0..(228 * 261) {
        Tia::cycle(&mut bus).unwrap();
    }
    assert_eq!((bus.tia.cycles.scanline, bus.tia.cycles.color_clock), (0, 0));
    assert_eq!(bus.tia.cycles.frame_counter, 0);
}

#[test]
fn cpu_runs_every_third_tick() {
    let mut bus = machine(&[0xE8, 0xE8]);
    bus.tia.cycles.div3 = 0;
    Tia::cycle(&mut bus).unwrap();
    assert_eq!(bus.cpu.pc, 0xF001);
    Tia::cycle(&mut bus).unwrap();
    Tia::cycle(&mut bus).unwrap();
    assert_eq!(bus.cpu.pc, 0xF001);
    assert_eq!(bus.tia.cycles.frame_cpu_counter, 1);
}

#[test]
fn wsync_halts_cpu_until_next_line() {
    // STA WSYNC; INX
    let mut bus = machine(&[0x85, 0x02, 0xE8, 0xE8]);
    for _ in 0..9 {
        Tia::cycle(&mut bus).unwrap();
    }
    assert!(bus.tia.regs.wsync);
    let x = bus.cpu.x;
    while bus.tia.cycles.color_clock != 0 {
        Tia::cycle(&mut bus).unwrap();
        assert_eq!(bus.cpu.x, x);
    }
    assert!(!bus.tia.regs.wsync);
    for _ in 0..12 {
        Tia::cycle(&mut bus).unwrap();
    }
    assert!(bus.cpu.x != x);
}

#[test]
fn playfield_pixels_follow_registers() {
    let mut bus = machine(&[0x4C, 0x00, 0xF0]);
    bus.write(0x0D, 0x10).unwrap();
    bus.write(0x08, 0x0E).unwrap();
    bus.write(0x09, 0x00).unwrap();
    bus.tia.cycles.frame_counter = 1;
    bus.tia.cycles.scanline = 10;
    bus.tia.cycles.color_clock = 68;
    Tia::cycle(&mut bus).unwrap();
    assert_eq!(bus.tia.pixel(10 * 228 + 68), 0xECECEC);
    bus.tia.cycles.color_clock = 72;
    Tia::cycle(&mut bus).unwrap();
    assert_eq!(bus.tia.pixel(10 * 228 + 72), 0x000000);
    // Right half, not reflected: dot 20 repeats dot 0.
    bus.tia.cycles.color_clock = 68 + 80;
    Tia::cycle(&mut bus).unwrap();
    assert_eq!(bus.tia.pixel(10 * 228 + 148), 0xECECEC);
    // Reflected: dot 39 mirrors dot 0.
    bus.write(0x0A, 0x01).unwrap();
    bus.tia.cycles.color_clock = 68 + 156;
    Tia::cycle(&mut bus).unwrap();
    assert_eq!(bus.tia.pixel(10 * 228 + 224), 0xECECEC);
    bus.tia.cycles.color_clock = 68 + 80;
    Tia::cycle(&mut bus).unwrap();
    assert_eq!(bus.tia.pixel(10 * 228 + 148), 0x000000);
}

#[test]
fn playfield_bit_order() {
    // PF1 bit 7 is dot 4; PF2 bit 0 is dot 12.
    let mut bus = machine(&[0x4C, 0x00, 0xF0]);
    bus.write(0x0E, 0x80).unwrap();
    bus.write(0x0F, 0x01).unwrap();
    bus.write(0x08, 0x1E).unwrap();
    bus.tia.cycles.frame_counter = 1;
    for (dot, lit) in [(3usize, false), (4, true), (5, false), (11, false), (12, true), (13, false)] {
        bus.tia.cycles.scanline = 20;
        bus.tia.cycles.color_clock = 68 + dot * 4;
        Tia::cycle(&mut bus).unwrap();
        let c = bus.tia.pixel(20 * 228 + 68 + dot * 4);
        assert_eq!(c == 0xFCFC68, lit, "dot {}", dot);
    }
}

#[test]
fn vblank_suppresses_drawing() {
    let mut bus = machine(&[0x4C, 0x00, 0xF0]);
    bus.write(0x0D, 0xF0).unwrap();
    bus.write(0x08, 0x0E).unwrap();
    bus.write(0x01, 0x02).unwrap();
    bus.tia.cycles.frame_counter = 1;
    bus.tia.cycles.color_clock = 80;
    Tia::cycle(&mut bus).unwrap();
    assert_eq!(bus.tia.pixel(80), 0);
}

#[test]
fn status_byte_layout() {
    let mut bus = Bus::default();
    assert_eq!(bus.cpu.status.to_byte(), 0x30);
    bus.cpu.status.negative = true;
    bus.cpu.status.carry = true;
    assert_eq!(bus.cpu.status.to_byte(), 0xB1);
}

#[test]
fn logic_and_compare() {
    // LDA #$F0; AND #$3C; ORA #$01; CMP #$31; CPX #$01; CPY #$00
    let mut bus = machine(&[0xA9, 0xF0, 0x29, 0x3C, 0x09, 0x01, 0xC9, 0x31, 0xE0, 0x01, 0xC0, 0x00]);
    run_instruction(&mut bus);
    run_instruction(&mut bus);
    assert_eq!(bus.cpu.acc, 0x30);
    run_instruction(&mut bus);
    assert_eq!(bus.cpu.acc, 0x31);
    run_instruction(&mut bus);
    assert!(bus.cpu.status.zero && bus.cpu.status.carry && !bus.cpu.status.negative);
    bus.cpu.x = 0x00;
    run_instruction(&mut bus);
    assert!(!bus.cpu.status.zero && !bus.cpu.status.carry && bus.cpu.status.negative);
    bus.cpu.y = 0x05;
    run_instruction(&mut bus);
    assert!(!bus.cpu.status.zero && bus.cpu.status.carry && !bus.cpu.status.negative);
}

#[test]
fn bit_test_flags() {
    // LDA #$01; BIT $80
    let mut bus = machine(&[0xA9, 0x01, 0x24, 0x80]);
    bus.write(0x80, 0xC0).unwrap();
    run_instruction(&mut bus);
    assert_eq!(run_instruction(&mut bus), 3);
    assert!(bus.cpu.status.zero);
    assert!(bus.cpu.status.negative);
    assert!(bus.cpu.status.overflow);
    assert_eq!(bus.cpu.acc, 0x01);
}

#[test]
fn add_with_carry() {
    // CLC; LDA #$7F; ADC #$01; SEC; ADC #$7F
    let mut bus = machine(&[0x18, 0xA9, 0x7F, 0x69, 0x01, 0x38, 0x69, 0x7F]);
    run_instruction(&mut bus);
    run_instruction(&mut bus);
    run_instruction(&mut bus);
    assert_eq!(bus.cpu.acc, 0x80);
    assert!(bus.cpu.status.overflow);
    assert!(!bus.cpu.status.carry);
    assert!(bus.cpu.status.negative);
    run_instruction(&mut bus);
    run_instruction(&mut bus);
    assert_eq!(bus.cpu.acc, 0x00);
    assert!(bus.cpu.status.carry);
    assert!(bus.cpu.status.zero);
    assert!(!bus.cpu.status.overflow);
}

#[test]
fn clear_flags() {
    // SEC; SEI; CLC; CLI; CLV
    let mut bus = machine(&[0x38, 0x78, 0x18, 0x58, 0xB8]);
    bus.cpu.status.overflow = true;
    for _ in 0..5 {
        assert_eq!(run_instruction(&mut bus), 2);
    }
    assert!(!bus.cpu.status.carry);
    assert!(!bus.cpu.status.interrupt_disable);
    assert!(!bus.cpu.status.overflow);
}

#[test]
fn nop_forms() {
    // NOP; NOP $80 (zero page, reads and discards); NOP #$00
    let mut bus = machine(&[0xEA, 0x04, 0x80, 0x80, 0x00, 0xE8]);
    assert_eq!(run_instruction(&mut bus), 2);
    assert_eq!(run_instruction(&mut bus), 3);
    assert_eq!(run_instruction(&mut bus), 2);
    assert_eq!(bus.cpu.prefetch, Some(0xE8));
}

#[test]
fn increment_and_decrement_memory() {
    // INC $80; DEC $81; INC $82,X
    let mut bus = machine(&[0xE6, 0x80, 0xC6, 0x81, 0xF6, 0x80]);
    bus.write(0x80, 0xFF).unwrap();
    bus.write(0x81, 0x01).unwrap();
    bus.write(0x82, 0x7F).unwrap();
    bus.cpu.status.carry = true;
    assert_eq!(run_instruction(&mut bus), 5);
    assert_eq!(bus.read(0x80).unwrap(), 0x00);
    assert!(bus.cpu.status.zero);
    assert!(bus.cpu.status.carry, "INC leaves Carry alone");
    assert_eq!(run_instruction(&mut bus), 5);
    assert_eq!(bus.read(0x81).unwrap(), 0x00);
    bus.cpu.x = 2;
    assert_eq!(run_instruction(&mut bus), 6);
    assert_eq!(bus.read(0x82).unwrap(), 0x80);
    assert!(bus.cpu.status.negative);
}

#[test]
fn push_and_pull() {
    // LDA #$42; PHA; PHP; LDA #$00; PLP; PLA
    let mut bus = machine(&[0xA9, 0x42, 0x48, 0x08, 0xA9, 0x00, 0x28, 0x68]);
    bus.cpu.sp = 0xFF;
    bus.cpu.status.carry = true;
    run_instruction(&mut bus);
    assert_eq!(run_instruction(&mut bus), 3);
    assert_eq!(bus.read(0x1FF).unwrap(), 0x42);
    assert_eq!(run_instruction(&mut bus), 3);
    assert_eq!(bus.read(0x1FE).unwrap(), 0x31);
    run_instruction(&mut bus);
    assert!(bus.cpu.status.zero);
    assert_eq!(run_instruction(&mut bus), 4);
    assert!(!bus.cpu.status.zero);
    assert!(bus.cpu.status.carry);
    assert_eq!(run_instruction(&mut bus), 4);
    assert_eq!(bus.cpu.acc, 0x42);
    assert_eq!(bus.cpu.sp, 0xFF);
}

#[test]
fn call_and_return() {
    let mut program = vec![0u8; 0x40];
    program[0] = 0x20;
    program[1] = 0x30;
    program[2] = 0xF0;
    program[3] = 0xE8;
    program[0x30] = 0x60;
    let mut bus = machine(&program);
    bus.cpu.sp = 0xFF;
    assert_eq!(run_instruction(&mut bus), 6);
    assert_eq!(run_instruction(&mut bus), 6);
    assert_eq!(bus.cpu.pc, 0xF003);
    assert_eq!(bus.cpu.sp, 0xFF);
    run_instruction(&mut bus);
    assert_eq!(bus.cpu.x, 1);
}

#[test]
fn write_mapping_check() {
    assert!(is_write_mapped(0x02));
    assert!(is_write_mapped(0x2C));
    assert!(!is_write_mapped(0x2D));
    assert!(is_write_mapped(0x80));
    assert!(is_write_mapped(0x1FF));
    assert!(!is_write_mapped(0x200));
    assert!(is_write_mapped(0x297));
    assert!(!is_write_mapped(0x298));
    assert!(!is_write_mapped(0x1000));
    assert!(is_write_mapped(0xF000));
}

#[test]
fn faulting_write_leaves_machine_unchanged() {
    let mut bus = machine(&[0xEA]);
    let rom_byte = bus.read(0xF000).unwrap();
    let regs = bus.tia.regs;
    assert!(bus.write(0xF000, 0x55).is_err());
    assert_eq!(bus.read(0xF000).unwrap(), rom_byte);
    assert!(bus.write(0x03, 0x55).is_err());
    assert_eq!(bus.tia.regs, regs);
}

#[test]
fn unknown_opcode_is_recorded() {
    let mut bus = machine(&[0xE8, 0x02]);
    run_instruction(&mut bus);
    assert_eq!(bus.cpu.prefetch, Some(0x02));
    assert_eq!(Cpu::cycle(&mut bus), Err(Fault::UnknownOpcode(0x02)));
    assert_eq!(bus.cpu.opcode, 0x02);
}
