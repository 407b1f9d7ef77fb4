use zinvaders::cpu::merge_bytes;
use zinvaders::{Flags, State};

const OPCODE_CYCLES: [u8; 256] = [
    4, 10, 7, 5, 5, 5, 7, 4, 4, 10, 7, 5, 5, 5, 7, 4, //
    4, 10, 7, 5, 5, 5, 7, 4, 4, 10, 7, 5, 5, 5, 7, 4, //
    4, 10, 16, 5, 5, 5, 7, 4, 4, 10, 16, 5, 5, 5, 7, 4, //
    4, 10, 13, 5, 10, 10, 10, 4, 4, 10, 13, 5, 5, 5, 7, 4, //
    5, 5, 5, 5, 5, 5, 7, 5, 5, 5, 5, 5, 5, 5, 7, 5, //
    5, 5, 5, 5, 5, 5, 7, 5, 5, 5, 5, 5, 5, 5, 7, 5, //
    5, 5, 5, 5, 5, 5, 7, 5, 5, 5, 5, 5, 5, 5, 7, 5, //
    7, 7, 7, 7, 7, 7, 7, 7, 5, 5, 5, 5, 5, 5, 7, 5, //
    4, 4, 4, 4, 4, 4, 7, 4, 4, 4, 4, 4, 4, 4, 7, 4, //
    4, 4, 4, 4, 4, 4, 7, 4, 4, 4, 4, 4, 4, 4, 7, 4, //
    4, 4, 4, 4, 4, 4, 7, 4, 4, 4, 4, 4, 4, 4, 7, 4, //
    4, 4, 4, 4, 4, 4, 7, 4, 4, 4, 4, 4, 4, 4, 7, 4, //
    5, 10, 10, 10, 11, 11, 7, 11, 5, 10, 10, 10, 11, 17, 7, 11, //
    5, 10, 10, 10, 11, 11, 7, 11, 5, 10, 10, 10, 11, 17, 7, 11, //
    5, 10, 10, 18, 11, 11, 7, 11, 5, 5, 10, 5, 11, 17, 7, 11, //
    5, 10, 10, 4, 11, 11, 7, 11, 5, 5, 10, 4, 11, 17, 7, 11, //
];

fn no_flags() -> Flags {
    Flags { z: false, s: false, p: false, cy: false, ac: false }
}

/// A machine with `code` at 0x0100, PC there, and SP at 0x2400.
fn with_code(code: &[u8]) -> State {
    let mut st = State::new();
    st.mmu.load_rom(code, 0x0100).unwrap();
    st.cpu.pc = 0x0100;
    st.cpu.sp = 0x2400;
    st
}

fn run(st: &mut State, steps: usize) -> u64 {
    let mut total = 0;
    for _ in 0..steps {
        total += st.cpu.step(&mut st.mmu, &mut st.ports);
    }
    total
}

#[test]
fn ani_sets_aux_carry() {
    let mut st = with_code(&[0xE6, 0x0F]);
    st.cpu.a = 0x5A;
    st.cpu.flags = no_flags();
    run(&mut st, 1);
    assert_eq!(st.cpu.a, 0x0A);
    assert!(!st.cpu.flags.cy);
    assert!(st.cpu.flags.ac);
    assert!(!st.cpu.flags.z);
    assert!(!st.cpu.flags.s);
    assert!(st.cpu.flags.p);
    assert_eq!(st.cpu.pc, 0x0102);
}

#[test]
fn daa_corrects_both_nibbles() {
    let mut st = with_code(&[0x27]);
    st.cpu.a = 0x9B;
    st.cpu.flags = no_flags();
    let cycles = run(&mut st, 1);
    assert_eq!(cycles, 4);
    assert_eq!(st.cpu.a, 0x01);
    assert!(st.cpu.flags.cy);
    assert!(st.cpu.flags.ac);
    assert!(!st.cpu.flags.z);
    assert!(!st.cpu.flags.s);
    assert!(!st.cpu.flags.p);
}

#[test]
fn daa_leaves_valid_bcd() {
    let mut st = with_code(&[0x27]);
    st.cpu.a = 0x45;
    run(&mut st, 1);
    assert_eq!(st.cpu.a, 0x45);
    assert!(!st.cpu.flags.cy);
    assert!(!st.cpu.flags.ac);
}

#[test]
fn shift_register_window() {
    // MVI A,AB; OUT 4; MVI A,CD; OUT 4; MVI A,03; OUT 2; IN 3
    let mut st = with_code(&[0x3E, 0xAB, 0xD3, 4, 0x3E, 0xCD, 0xD3, 4, 0x3E, 3, 0xD3, 2, 0xDB, 3]);
    run(&mut st, 7);
    // 0xCDAB >> (8 - 3), low byte
    assert_eq!(st.cpu.a, ((0xCDABu16 >> 5) & 0xFF) as u8);
    assert_eq!(st.cpu.a, 0x6D);
}

#[test]
fn interrupt_wakes_halted_cpu() {
    let mut st = with_code(&[0xFB, 0x76]);
    run(&mut st, 2);
    assert!(st.cpu.halted);
    assert!(st.cpu.ime);
    // halted: no fetch, 4 cycles
    let pc = st.cpu.pc;
    assert_eq!(st.cpu.step(&mut st.mmu, &mut st.ports), 4);
    assert_eq!(st.cpu.pc, pc);
    st.cpu.interrupt(2, &mut st.mmu);
    assert!(!st.cpu.halted);
    assert!(!st.cpu.ime);
    assert_eq!(st.cpu.pc, 0x0010);
    assert_eq!(st.mmu.read_word(st.cpu.sp), 0x0102);
    assert_eq!(st.cpu.sp, 0x23FE);
}

#[test]
fn ei_hlt_interrupt_jumps_to_vector() {
    for v in 0..8u8 {
        let mut st = with_code(&[0xFB, 0x76]);
        run(&mut st, 2);
        st.cpu.interrupt(v, &mut st.mmu);
        assert_eq!(st.cpu.pc, v as u16 * 8);
        assert!(!st.cpu.halted);
    }
}

#[test]
fn di_drops_interrupt() {
    let mut st = with_code(&[0xFB, 0xF3, 0x00]);
    run(&mut st, 2);
    let (pc, sp) = (st.cpu.pc, st.cpu.sp);
    st.cpu.interrupt(1, &mut st.mmu);
    assert_eq!(st.cpu.pc, pc);
    assert_eq!(st.cpu.sp, sp);
    assert!(!st.cpu.ime);
}

#[test]
fn psw_fixed_bits() {
    for bits in 0..32u8 {
        let mut st = State::new();
        st.cpu.a = bits.wrapping_mul(37);
        st.cpu.flags = Flags {
            s: bits & 1 != 0,
            z: bits & 2 != 0,
            ac: bits & 4 != 0,
            p: bits & 8 != 0,
            cy: bits & 16 != 0,
        };
        let af = st.cpu.get_af();
        assert_eq!(af >> 8, st.cpu.a as u16);
        assert_eq!(af & 0x28, 0);
        assert_eq!(af & 0x02, 0x02);
    }
    let all = Flags { s: true, z: true, ac: true, p: true, cy: true };
    assert_eq!(all.to_byte(), 0xD7);
    assert_eq!(no_flags().to_byte(), 0x02);
}

#[test]
fn flags_from_byte_ignore_fixed_bits() {
    let mut f = no_flags();
    f.set_from_byte(0xFF);
    assert_eq!(f, Flags { s: true, z: true, ac: true, p: true, cy: true });
    f.set_from_byte(0x28);
    assert_eq!(f, no_flags());
}

#[test]
fn parity_after_load() {
    for b in 0..=255u8 {
        // MVI A,b; ORI 0
        let mut st = with_code(&[0x3E, b, 0xF6, 0x00]);
        run(&mut st, 2);
        assert_eq!(st.cpu.a, b);
        assert_eq!(st.cpu.flags.p, b.count_ones() % 2 == 0);
        assert_eq!(st.cpu.flags.z, b == 0);
        assert_eq!(st.cpu.flags.s, b >= 0x80);
    }
}

#[test]
fn add_carry_and_zero() {
    for a in (0..=255u8).step_by(7) {
        for b in (0..=255u8).step_by(5) {
            // MVI A,a; ADI b
            let mut st = with_code(&[0x3E, a, 0xC6, b]);
            run(&mut st, 2);
            let sum = a as u16 + b as u16;
            assert_eq!(st.cpu.a, (sum % 256) as u8);
            assert_eq!(st.cpu.flags.cy, sum > 255);
            assert_eq!(st.cpu.flags.z, sum % 256 == 0);
            assert_eq!(st.cpu.flags.ac, (a & 0x0F) + (b & 0x0F) > 0x0F);
        }
    }
}

#[test]
fn add_wraps_to_zero() {
    let mut st = with_code(&[0x80]);
    st.cpu.a = 0xF8;
    st.cpu.b = 0x08;
    run(&mut st, 1);
    assert_eq!(st.cpu.a, 0);
    assert!(st.cpu.flags.cy);
    assert!(st.cpu.flags.z);
    assert!(st.cpu.flags.ac);
    assert!(st.cpu.flags.p);
}

#[test]
fn adc_and_sbb_use_carry() {
    let mut st = with_code(&[0x37, 0xCE, 0x01, 0x37, 0xDE, 0x01]);
    st.cpu.a = 0x0E;
    run(&mut st, 2);
    // 0x0E + 0x01 + 1
    assert_eq!(st.cpu.a, 0x10);
    assert!(!st.cpu.flags.cy);
    assert!(st.cpu.flags.ac);
    run(&mut st, 2);
    // 0x10 - 0x01 - 1
    assert_eq!(st.cpu.a, 0x0E);
    assert!(!st.cpu.flags.cy);
    assert!(st.cpu.flags.ac);
}

#[test]
fn sub_and_cmp_borrow() {
    let mut st = with_code(&[0xD6, 0x05, 0xFE, 0x10]);
    st.cpu.a = 0x03;
    run(&mut st, 1);
    assert_eq!(st.cpu.a, 0xFE);
    assert!(st.cpu.flags.cy);
    assert!(st.cpu.flags.ac);
    assert!(st.cpu.flags.s);
    run(&mut st, 1);
    // CMP keeps A
    assert_eq!(st.cpu.a, 0xFE);
    assert!(!st.cpu.flags.cy);
    assert!(!st.cpu.flags.z);
}

#[test]
fn cmp_equal_sets_zero() {
    let mut st = with_code(&[0xB8]);
    st.cpu.a = 0x42;
    st.cpu.b = 0x42;
    run(&mut st, 1);
    assert!(st.cpu.flags.z);
    assert!(!st.cpu.flags.cy);
    assert_eq!(st.cpu.a, 0x42);
}

#[test]
fn logical_ops_clear_carry() {
    let mut st = with_code(&[0x37, 0xEE, 0xFF, 0x37, 0xF6, 0x01]);
    st.cpu.a = 0x0F;
    run(&mut st, 2);
    assert_eq!(st.cpu.a, 0xF0);
    assert!(!st.cpu.flags.cy);
    assert!(!st.cpu.flags.ac);
    assert!(st.cpu.flags.s);
    run(&mut st, 2);
    assert_eq!(st.cpu.a, 0xF1);
    assert!(!st.cpu.flags.cy);
    assert!(!st.cpu.flags.ac);
    assert!(!st.cpu.flags.p);
}

#[test]
fn inr_dcr_keep_carry() {
    let mut st = with_code(&[0x37, 0x04, 0x05, 0x05]);
    st.cpu.b = 0xFF;
    run(&mut st, 2);
    assert_eq!(st.cpu.b, 0x00);
    assert!(st.cpu.flags.z);
    assert!(st.cpu.flags.ac);
    assert!(st.cpu.flags.cy);
    run(&mut st, 1);
    assert_eq!(st.cpu.b, 0xFF);
    assert!(st.cpu.flags.ac);
    assert!(st.cpu.flags.s);
    assert!(st.cpu.flags.cy);
    run(&mut st, 1);
    assert_eq!(st.cpu.b, 0xFE);
    assert!(!st.cpu.flags.ac);
}

#[test]
fn inr_m_writes_memory() {
    // LXI H,2000; MVI M,41; INR M; DCR M; DCR M
    let mut st = with_code(&[0x21, 0x00, 0x20, 0x36, 0x41, 0x34, 0x35, 0x35]);
    run(&mut st, 3);
    assert_eq!(st.mmu.read_byte(0x2000), 0x42);
    run(&mut st, 2);
    assert_eq!(st.mmu.read_byte(0x2000), 0x40);
}

#[test]
fn rotates() {
    let mut st = with_code(&[0x07, 0x0F, 0x17, 0x1F]);
    st.cpu.a = 0x81;
    st.cpu.flags.z = true;
    run(&mut st, 1);
    assert_eq!(st.cpu.a, 0x03);
    assert!(st.cpu.flags.cy);
    run(&mut st, 1);
    assert_eq!(st.cpu.a, 0x81);
    assert!(st.cpu.flags.cy);
    run(&mut st, 1);
    // RAL: 0x81 << 1 | 1
    assert_eq!(st.cpu.a, 0x03);
    assert!(st.cpu.flags.cy);
    run(&mut st, 1);
    // RAR: 0x03 >> 1 | 0x80
    assert_eq!(st.cpu.a, 0x81);
    assert!(st.cpu.flags.cy);
    assert!(st.cpu.flags.z);
}

#[test]
fn cma_stc_cmc() {
    let mut st = with_code(&[0x2F, 0x37, 0x3F, 0x3F]);
    st.cpu.a = 0x5A;
    run(&mut st, 1);
    assert_eq!(st.cpu.a, 0xA5);
    run(&mut st, 1);
    assert!(st.cpu.flags.cy);
    run(&mut st, 1);
    assert!(!st.cpu.flags.cy);
    run(&mut st, 1);
    assert!(st.cpu.flags.cy);
}

#[test]
fn dad_carries_out_of_bit_15() {
    // LXI H,FFFF; LXI B,0002; DAD B; DAD H
    let mut st = with_code(&[0x21, 0xFF, 0xFF, 0x01, 0x02, 0x00, 0x09, 0x29]);
    run(&mut st, 3);
    assert_eq!(st.cpu.get_hl(), 0x0001);
    assert!(st.cpu.flags.cy);
    run(&mut st, 1);
    assert_eq!(st.cpu.get_hl(), 0x0002);
    assert!(!st.cpu.flags.cy);
}

#[test]
fn inx_dcx_wrap() {
    // LXI D,FFFF; INX D; DCX D; LXI SP,0000; DCX SP
    let mut st = with_code(&[0x11, 0xFF, 0xFF, 0x13, 0x1B, 0x31, 0x00, 0x00, 0x3B]);
    run(&mut st, 2);
    assert_eq!(st.cpu.get_de(), 0x0000);
    run(&mut st, 1);
    assert_eq!(st.cpu.get_de(), 0xFFFF);
    run(&mut st, 2);
    assert_eq!(st.cpu.sp, 0xFFFF);
}

#[test]
fn push_then_pop_round_trip() {
    // LXI B,1234; PUSH B; POP D
    let mut st = with_code(&[0x01, 0x34, 0x12, 0xC5, 0xD1]);
    run(&mut st, 2);
    assert_eq!(st.cpu.sp, 0x23FE);
    assert_eq!(st.mmu.read_byte(0x23FE), 0x34);
    assert_eq!(st.mmu.read_byte(0x23FF), 0x12);
    run(&mut st, 1);
    assert_eq!(st.cpu.get_de(), 0x1234);
    assert_eq!(st.cpu.get_bc(), 0x1234);
    assert_eq!(st.cpu.sp, 0x2400);
}

#[test]
fn push_pop_psw_round_trip() {
    // PUSH PSW; MVI A,0; XRA A; POP PSW
    let mut st = with_code(&[0xF5, 0x3E, 0x00, 0xAF, 0xF1]);
    st.cpu.a = 0x9C;
    st.cpu.flags = Flags { s: true, z: false, ac: true, p: false, cy: true };
    run(&mut st, 1);
    assert_eq!(st.mmu.read_word(st.cpu.sp), 0x9C93);
    run(&mut st, 3);
    assert_eq!(st.cpu.a, 0x9C);
    assert_eq!(st.cpu.flags, Flags { s: true, z: false, ac: true, p: false, cy: true });
    assert_eq!(st.cpu.sp, 0x2400);
}

#[test]
fn xchg_twice_is_identity() {
    // LXI D,1111; LXI H,2222; XCHG; XCHG
    let mut st = with_code(&[0x11, 0x11, 0x11, 0x21, 0x22, 0x22, 0xEB, 0xEB]);
    run(&mut st, 3);
    assert_eq!(st.cpu.get_de(), 0x2222);
    assert_eq!(st.cpu.get_hl(), 0x1111);
    run(&mut st, 1);
    assert_eq!(st.cpu.get_de(), 0x1111);
    assert_eq!(st.cpu.get_hl(), 0x2222);
}

#[test]
fn xthl_swaps_with_stack() {
    let mut st = with_code(&[0xE3]);
    st.mmu.write_word(0x2400, 0xBEEF);
    st.cpu.h = 0x12;
    st.cpu.l = 0x34;
    let cycles = run(&mut st, 1);
    assert_eq!(cycles, 18);
    assert_eq!(st.cpu.get_hl(), 0xBEEF);
    assert_eq!(st.mmu.read_word(0x2400), 0x1234);
}

#[test]
fn sphl_pchl() {
    let mut st = with_code(&[0xF9, 0xE9]);
    st.cpu.h = 0x30;
    st.cpu.l = 0x00;
    run(&mut st, 2);
    assert_eq!(st.cpu.sp, 0x3000);
    assert_eq!(st.cpu.pc, 0x3000);
}

#[test]
fn loads_and_stores() {
    // LXI H,2000; MVI A,77; STA 2100; LDA 2000 (zero); LHLD 2100; SHLD 2200
    let mut st = with_code(&[
        0x21, 0x00, 0x20, 0x3E, 0x77, 0x32, 0x00, 0x21, 0x3A, 0x00, 0x20, 0x2A, 0x00, 0x21, 0x22,
        0x00, 0x22,
    ]);
    run(&mut st, 3);
    assert_eq!(st.mmu.read_byte(0x2100), 0x77);
    run(&mut st, 1);
    assert_eq!(st.cpu.a, 0x00);
    run(&mut st, 1);
    assert_eq!(st.cpu.get_hl(), 0x0077);
    run(&mut st, 1);
    assert_eq!(st.mmu.read_word(0x2200), 0x0077);
}

#[test]
fn stax_ldax() {
    // LXI B,2000; LXI D,2001; MVI A,5; STAX B; MVI A,9; STAX D; LDAX B
    let mut st = with_code(&[
        0x01, 0x00, 0x20, 0x11, 0x01, 0x20, 0x3E, 5, 0x02, 0x3E, 9, 0x12, 0x0A,
    ]);
    run(&mut st, 7);
    assert_eq!(st.mmu.read_byte(0x2001), 9);
    assert_eq!(st.cpu.a, 5);
}

#[test]
fn mov_between_registers_and_memory() {
    // LXI H,2000; MVI B,42; MOV M,B; MOV A,M; MOV C,A
    let mut st = with_code(&[0x21, 0x00, 0x20, 0x06, 0x42, 0x70, 0x7E, 0x4F]);
    run(&mut st, 5);
    assert_eq!(st.mmu.read_byte(0x2000), 0x42);
    assert_eq!(st.cpu.a, 0x42);
    assert_eq!(st.cpu.c, 0x42);
}

#[test]
fn call_and_ret() {
    // 0100: CALL 0110; 0103: NOP ... 0110: RET
    let mut code = vec![0u8; 0x11];
    code[0] = 0xCD;
    code[1] = 0x10;
    code[2] = 0x01;
    code[0x10] = 0xC9;
    let mut st = with_code(&code);
    assert_eq!(run(&mut st, 1), 17);
    assert_eq!(st.cpu.pc, 0x0110);
    assert_eq!(st.mmu.read_word(st.cpu.sp), 0x0103);
    assert_eq!(run(&mut st, 1), 10);
    assert_eq!(st.cpu.pc, 0x0103);
    assert_eq!(st.cpu.sp, 0x2400);
}

#[test]
fn conditional_jumps() {
    // XRA A (Z=1); JNZ 0200; JZ 0300
    let mut st = with_code(&[0xAF, 0xC2, 0x00, 0x02, 0xCA, 0x00, 0x03]);
    run(&mut st, 2);
    assert_eq!(st.cpu.pc, 0x0104);
    run(&mut st, 1);
    assert_eq!(st.cpu.pc, 0x0300);
}

#[test]
fn conditional_call_and_return() {
    // STC; CNC 0200 (not taken); CC 0110 (taken); at 0110: RNC (not taken); RC
    let mut code = vec![0u8; 0x12];
    code[0] = 0x37;
    code[1..4].copy_from_slice(&[0xD4, 0x00, 0x02]);
    code[4..7].copy_from_slice(&[0xDC, 0x10, 0x01]);
    code[0x10] = 0xD0;
    code[0x11] = 0xD8;
    let mut st = with_code(&code);
    run(&mut st, 2);
    assert_eq!(st.cpu.pc, 0x0104);
    assert_eq!(st.cpu.sp, 0x2400);
    assert_eq!(run(&mut st, 1), 11);
    assert_eq!(st.cpu.pc, 0x0110);
    assert_eq!(run(&mut st, 1), 5);
    assert_eq!(st.cpu.pc, 0x0111);
    run(&mut st, 1);
    assert_eq!(st.cpu.pc, 0x0107);
    assert_eq!(st.cpu.sp, 0x2400);
}

#[test]
fn parity_and_sign_conditions() {
    // MVI A,03 ; ORA A (P=1, S=0); JPE 0200
    let mut st = with_code(&[0x3E, 0x03, 0xB7, 0xEA, 0x00, 0x02]);
    run(&mut st, 3);
    assert_eq!(st.cpu.pc, 0x0200);
    // MVI A,80; ORA A (S=1); JM 0300
    let mut st = with_code(&[0x3E, 0x80, 0xB7, 0xFA, 0x00, 0x03]);
    run(&mut st, 3);
    assert_eq!(st.cpu.pc, 0x0300);
    // JP not taken
    let mut st = with_code(&[0x3E, 0x80, 0xB7, 0xF2, 0x00, 0x03]);
    run(&mut st, 3);
    assert_eq!(st.cpu.pc, 0x0106);
}

#[test]
fn rst_pushes_next_address() {
    let mut st = with_code(&[0xEF]);
    assert_eq!(run(&mut st, 1), 11);
    assert_eq!(st.cpu.pc, 0x0028);
    assert_eq!(st.mmu.read_word(st.cpu.sp), 0x0101);
}

#[test]
fn undocumented_aliases() {
    // 0x08 NOP; 0xCB JMP 0200
    let mut st = with_code(&[0x08, 0xCB, 0x00, 0x02]);
    run(&mut st, 2);
    assert_eq!(st.cpu.pc, 0x0200);
    // 0xDD CALL 0300, then 0xD9 RET at 0300
    let mut st = with_code(&[0xDD, 0x00, 0x03]);
    st.mmu.write_byte(0x0300, 0xD9);
    run(&mut st, 2);
    assert_eq!(st.cpu.pc, 0x0103);
}

#[test]
fn cycle_table() {
    for op in 0..=255u8 {
        let mut st = with_code(&[op, 0x00, 0x00]);
        let cycles = st.cpu.step(&mut st.mmu, &mut st.ports);
        assert_eq!(cycles, OPCODE_CYCLES[op as usize] as u64, "opcode {:02X}", op);
        assert_eq!(st.cpu.cycles, cycles);
    }
}

#[test]
fn halted_step_counts_four_cycles() {
    let mut st = with_code(&[0x76]);
    assert_eq!(run(&mut st, 1), 7);
    assert_eq!(run(&mut st, 3), 12);
    assert_eq!(st.cpu.cycles, 19);
    assert_eq!(st.cpu.pc, 0x0101);
}

#[test]
fn cycle_counter_wraps() {
    let mut st = with_code(&[0x00]);
    st.cpu.cycles = u64::MAX - 1;
    run(&mut st, 1);
    assert_eq!(st.cpu.cycles, 2);
}

#[test]
fn pc_wraps_past_top_of_memory() {
    let mut st = State::new();
    st.cpu.pc = 0xFFFF;
    st.mmu.write_byte(0xFFFF, 0x3E);
    st.mmu.write_byte(0x0000, 0x99);
    run(&mut st, 1);
    assert_eq!(st.cpu.a, 0x99);
    assert_eq!(st.cpu.pc, 0x0001);
}

#[test]
fn reset_state() {
    let st = State::new();
    assert_eq!(st.cpu.pc, 0);
    assert_eq!(st.cpu.sp, 0);
    assert!(!st.cpu.ime);
    assert!(!st.cpu.halted);
    assert_eq!(st.cpu.get_af(), 0x0002);
    assert_eq!(st.ports.port1, 0x08);
}

#[test]
fn merge_bytes_little_endian() {
    assert_eq!(merge_bytes(0x34, 0x12), 0x1234);
    assert_eq!(merge_bytes(0xFF, 0x00), 0x00FF);
}
