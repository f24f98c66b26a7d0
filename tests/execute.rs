use ee::decode::{
    extract_funct, extract_opcode, extract_rd, extract_rs, extract_rt, extract_sa, FUNCT_ADD,
    FUNCT_ADDU, FUNCT_AND, FUNCT_BREAK, FUNCT_DADD, FUNCT_DADDU, FUNCT_DIV, FUNCT_DIVU,
    FUNCT_DSLL, FUNCT_DSLL32, FUNCT_DSLLV, FUNCT_DSRA, FUNCT_DSRA32, FUNCT_DSRAV, FUNCT_DSRL,
    FUNCT_DSRL32, FUNCT_DSRLV, FUNCT_DSUB, FUNCT_DSUBU, FUNCT_JALR, FUNCT_JR, FUNCT_MFHI,
    FUNCT_MFLO, FUNCT_MFSA, FUNCT_MOVN, FUNCT_MOVZ, FUNCT_MTHI, FUNCT_MTLO, FUNCT_MTSA,
    FUNCT_MULT, FUNCT_MULTU, FUNCT_NOR, FUNCT_OR, FUNCT_SLL, FUNCT_SLLV, FUNCT_SLT, FUNCT_SLTU,
    FUNCT_SRA, FUNCT_SRAV, FUNCT_SRL, FUNCT_SRLV, FUNCT_SUB, FUNCT_SUBU, FUNCT_SYNC,
    FUNCT_SYSCALL, FUNCT_TEQ, FUNCT_TGE, FUNCT_TGEU, FUNCT_TLT, FUNCT_TLTU, FUNCT_TNE,
    FUNCT_XOR,
};
use ee::{ArithOp, Cpu, Fault, SoftwareKind, TrapKind};

const ONES_128: u128 = u128::MAX;

fn special(rs: u32, rt: u32, rd: u32, sa: u32, funct: u32) -> u32 {
    (rs << 21) | (rt << 16) | (rd << 11) | (sa << 6) | funct
}

/// Register file filled with distinct patterns so that stray writes show.
fn seeded() -> Cpu {
    let mut cpu = Cpu::new();
    for i in 0..32usize {
        cpu.write_gpr_qword(i, 0xa5a5_0000_0000_0000_0000_0000_0000_0000 | i as u128);
    }
    cpu
}

fn gprs(cpu: &Cpu) -> Vec<u128> {
    (0..32usize).map(|i| cpu.read_gpr_qword(i)).collect()
}

fn set_pc(cpu: &mut Cpu, pc: u32) {
    cpu.set_next_pc(pc);
    cpu.update_pc();
}

// ---- state, accessors and decoding ----

#[test]
fn new_cpu_is_zeroed_with_next_pc_four() {
    let cpu = Cpu::new();
    assert!(gprs(&cpu).iter().all(|&v| v == 0));
    assert_eq!(cpu.pc(), 0);
    assert_eq!(cpu.next_pc(), 4);
    assert_eq!((cpu.hi(), cpu.lo(), cpu.sa()), (0, 0, 0));
}

#[test]
fn update_pc_moves_next_pc_into_pc() {
    let mut cpu = Cpu::new();
    cpu.update_pc();
    assert_eq!((cpu.pc(), cpu.next_pc()), (4, 8));
    cpu.update_pc();
    assert_eq!((cpu.pc(), cpu.next_pc()), (8, 12));
}

#[test]
fn update_pc_wraps_at_32_bits() {
    let mut cpu = Cpu::new();
    cpu.set_next_pc(0xffff_fffc);
    cpu.update_pc();
    assert_eq!((cpu.pc(), cpu.next_pc()), (0xffff_fffc, 0));
}

#[test]
fn fields_decode_from_their_bit_positions() {
    let raw = 0b000000_10101_01010_11111_00001_101010u32;
    assert_eq!(extract_opcode(raw), 0);
    assert_eq!(extract_rs(raw), 0b10101);
    assert_eq!(extract_rt(raw), 0b01010);
    assert_eq!(extract_rd(raw), 0b11111);
    assert_eq!(extract_sa(raw), 0b00001);
    assert_eq!(extract_funct(raw), 0b101010);
    assert_eq!(extract_opcode(0xfc00_0000), 0x3f);
}

#[test]
fn word_round_trip_sign_extends_and_clears_old_bits() {
    let mut cpu = Cpu::new();
    cpu.write_gpr_qword(5, 0x1234_5678_9abc_def0_1122_3344_5566_7788);
    cpu.write_gpr_word(5, 0x8000_0001);
    assert_eq!(cpu.read_gpr_word(5), 0x8000_0001);
    assert_eq!(cpu.read_gpr_word(5) as i32, -0x7fff_ffff);
    assert_eq!(cpu.read_gpr_qword(5), 0xffff_ffff_ffff_ffff_ffff_ffff_8000_0001);
    cpu.write_gpr_word(5, 0x7fff_ffff);
    assert_eq!(cpu.read_gpr_qword(5), 0x7fff_ffff);
}

#[test]
fn dword_round_trip_sign_extends_and_clears_old_bits() {
    let mut cpu = Cpu::new();
    cpu.write_gpr_qword(6, ONES_128);
    cpu.write_gpr_dword(6, 0x0000_0000_ffff_ff00);
    assert_eq!(cpu.read_gpr_dword(6), 0x0000_0000_ffff_ff00);
    assert_eq!(cpu.read_gpr_qword(6), 0xffff_ff00);
    cpu.write_gpr_dword(6, 0x8000_0000_0000_0000);
    assert_eq!(cpu.read_gpr_qword(6), 0xffff_ffff_ffff_ffff_8000_0000_0000_0000);
}

#[test]
fn qword_round_trip_is_verbatim() {
    let mut cpu = Cpu::new();
    let v = 0x0123_4567_89ab_cdef_fedc_ba98_7654_3210u128;
    cpu.write_gpr_qword(7, v);
    assert_eq!(cpu.read_gpr_qword(7), v);
    assert_eq!(cpu.read_gpr_dword(7), 0xfedc_ba98_7654_3210);
    assert_eq!(cpu.read_gpr_word(7), 0x7654_3210);
}

#[test]
fn register_zero_is_an_ordinary_register() {
    let mut cpu = Cpu::new();
    cpu.write_gpr_qword(0, 42);
    assert_eq!(cpu.read_gpr_qword(0), 42);
    cpu.write_gpr_word(1, 5);
    assert_eq!(cpu.exec(special(1, 0, 0, 0, FUNCT_ADDU)), Ok(()));
    assert_eq!(cpu.read_gpr_qword(0), 47);
}

// ---- dispatch ----

#[test]
fn non_special_opcode_is_unimplemented() {
    let mut cpu = seeded();
    let before = gprs(&cpu);
    assert_eq!(
        cpu.exec(0xa000_0000),
        Err(Fault::UnimplementedOpcode { opcode: 0b101000 })
    );
    assert_eq!(gprs(&cpu), before);
}

#[test]
fn unknown_function_is_unimplemented() {
    let mut cpu = seeded();
    let before = gprs(&cpu);
    for funct in [0x01u32, 0x05, 0x0e, 0x15, 0x1c, 0x1d, 0x1e, 0x1f, 0x35, 0x37, 0x39, 0x3d] {
        assert_eq!(
            cpu.exec(special(1, 2, 3, 0, funct)),
            Err(Fault::UnimplementedFunction { funct })
        );
    }
    assert_eq!(gprs(&cpu), before);
}

#[test]
fn sync_changes_nothing() {
    let mut cpu = seeded();
    let before = gprs(&cpu);
    assert_eq!(cpu.exec(special(0, 0, 0, 0, FUNCT_SYNC)), Ok(()));
    assert_eq!(gprs(&cpu), before);
    assert_eq!((cpu.pc(), cpu.next_pc()), (0, 4));
}

// ---- add and subtract ----

#[test]
fn add_in_range_writes_sign_extended_sum() {
    let mut cpu = seeded();
    cpu.write_gpr_word(1, -5i32 as u32);
    cpu.write_gpr_word(2, 3);
    assert_eq!(cpu.exec(special(1, 2, 3, 0, FUNCT_ADD)), Ok(()));
    assert_eq!(cpu.read_gpr_qword(3), -2i128 as u128);
    cpu.write_gpr_word(1, 0x7fff_fffe);
    cpu.write_gpr_word(2, 1);
    assert_eq!(cpu.exec(special(1, 2, 3, 0, FUNCT_ADD)), Ok(()));
    assert_eq!(cpu.read_gpr_qword(3), 0x7fff_ffff);
}

#[test]
fn add_overflow_faults_and_leaves_rd() {
    let mut cpu = seeded();
    cpu.write_gpr_word(1, 0x7fff_ffff);
    cpu.write_gpr_word(2, 1);
    let before = gprs(&cpu);
    assert_eq!(
        cpu.exec(special(1, 2, 3, 0, FUNCT_ADD)),
        Err(Fault::ArithmeticOverflow { op: ArithOp::Add })
    );
    assert_eq!(gprs(&cpu), before);
    cpu.write_gpr_word(1, 0x8000_0000);
    cpu.write_gpr_word(2, 0xffff_ffff);
    assert_eq!(
        cpu.exec(special(1, 2, 3, 0, FUNCT_ADD)),
        Err(Fault::ArithmeticOverflow { op: ArithOp::Add })
    );
}

#[test]
fn addu_wraps_to_minimum_word() {
    let mut cpu = seeded();
    cpu.write_gpr_word(1, 0x7fff_ffff);
    cpu.write_gpr_word(2, 1);
    assert_eq!(cpu.exec(special(1, 2, 3, 0, FUNCT_ADDU)), Ok(()));
    assert_eq!(cpu.read_gpr_word(3) as i32, i32::MIN);
    assert_eq!(cpu.read_gpr_qword(3), 0xffff_ffff_ffff_ffff_ffff_ffff_8000_0000);
}

#[test]
fn sub_and_subu() {
    let mut cpu = seeded();
    cpu.write_gpr_word(1, 3);
    cpu.write_gpr_word(2, 5);
    assert_eq!(cpu.exec(special(1, 2, 3, 0, FUNCT_SUB)), Ok(()));
    assert_eq!(cpu.read_gpr_qword(3), -2i128 as u128);
    cpu.write_gpr_word(1, 0x8000_0000);
    cpu.write_gpr_word(2, 1);
    let before = gprs(&cpu);
    assert_eq!(
        cpu.exec(special(1, 2, 3, 0, FUNCT_SUB)),
        Err(Fault::ArithmeticOverflow { op: ArithOp::Sub })
    );
    assert_eq!(gprs(&cpu), before);
    assert_eq!(cpu.exec(special(1, 2, 3, 0, FUNCT_SUBU)), Ok(()));
    assert_eq!(cpu.read_gpr_qword(3), 0x7fff_ffff);
}

#[test]
fn doubleword_add_and_subtract() {
    let mut cpu = seeded();
    cpu.write_gpr_dword(1, 0x7fff_ffff_ffff_ffff);
    cpu.write_gpr_dword(2, 1);
    let before = gprs(&cpu);
    assert_eq!(
        cpu.exec(special(1, 2, 3, 0, FUNCT_DADD)),
        Err(Fault::ArithmeticOverflow { op: ArithOp::Dadd })
    );
    assert_eq!(gprs(&cpu), before);
    assert_eq!(cpu.exec(special(1, 2, 3, 0, FUNCT_DADDU)), Ok(()));
    assert_eq!(cpu.read_gpr_qword(3), 0xffff_ffff_ffff_ffff_8000_0000_0000_0000);
    cpu.write_gpr_dword(1, 0x8000_0000_0000_0000);
    assert_eq!(
        cpu.exec(special(1, 2, 3, 0, FUNCT_DSUB)),
        Err(Fault::ArithmeticOverflow { op: ArithOp::Dsub })
    );
    assert_eq!(cpu.exec(special(1, 2, 3, 0, FUNCT_DSUBU)), Ok(()));
    assert_eq!(cpu.read_gpr_qword(3), 0x7fff_ffff_ffff_ffff);
    cpu.write_gpr_dword(1, 0x1_0000_0000);
    cpu.write_gpr_dword(2, 0x2_0000_0000);
    assert_eq!(cpu.exec(special(1, 2, 3, 0, FUNCT_DADD)), Ok(()));
    assert_eq!(cpu.read_gpr_qword(3), 0x3_0000_0000);
    assert_eq!(cpu.exec(special(1, 2, 3, 0, FUNCT_DSUB)), Ok(()));
    assert_eq!(cpu.read_gpr_qword(3), -0x1_0000_0000i128 as u128);
}

// ---- shifts ----

#[test]
fn sll_and_sra_examples() {
    let mut cpu = seeded();
    cpu.write_gpr_word(2, 0x1234_5678);
    assert_eq!(cpu.exec(special(0, 2, 3, 4, FUNCT_SLL)), Ok(()));
    assert_eq!(cpu.read_gpr_qword(3), 0x2345_6780);
    cpu.write_gpr_word(2, 0x8000_0000);
    assert_eq!(cpu.exec(special(0, 2, 3, 4, FUNCT_SRA)), Ok(()));
    assert_eq!(cpu.read_gpr_qword(3), 0xffff_ffff_ffff_ffff_ffff_ffff_f800_0000);
}

#[test]
fn srl_and_sll_sign_extend_bit_31() {
    let mut cpu = seeded();
    cpu.write_gpr_word(2, 0x8000_0000);
    assert_eq!(cpu.exec(special(0, 2, 3, 4, FUNCT_SRL)), Ok(()));
    assert_eq!(cpu.read_gpr_qword(3), 0x0800_0000);
    assert_eq!(cpu.exec(special(0, 2, 3, 0, FUNCT_SRL)), Ok(()));
    assert_eq!(cpu.read_gpr_qword(3), 0xffff_ffff_ffff_ffff_ffff_ffff_8000_0000);
    cpu.write_gpr_word(2, 1);
    assert_eq!(cpu.exec(special(0, 2, 3, 31, FUNCT_SLL)), Ok(()));
    assert_eq!(cpu.read_gpr_qword(3), 0xffff_ffff_ffff_ffff_ffff_ffff_8000_0000);
}

#[test]
fn variable_shifts_use_low_five_bits_of_rs() {
    let mut cpu = seeded();
    cpu.write_gpr_word(1, 0xffff_ffe4); // low five bits: 4
    cpu.write_gpr_word(2, 0x8000_00f0);
    assert_eq!(cpu.exec(special(1, 2, 3, 0, FUNCT_SLLV)), Ok(()));
    assert_eq!(cpu.read_gpr_qword(3), 0xf00);
    assert_eq!(cpu.exec(special(1, 2, 3, 0, FUNCT_SRLV)), Ok(()));
    assert_eq!(cpu.read_gpr_qword(3), 0x0800_000f);
    assert_eq!(cpu.exec(special(1, 2, 3, 0, FUNCT_SRAV)), Ok(()));
    assert_eq!(cpu.read_gpr_qword(3), 0xffff_ffff_ffff_ffff_ffff_ffff_f800_000f);
}

#[test]
fn dsll32_examples() {
    let mut cpu = seeded();
    cpu.write_gpr_dword(2, 0x1234_5678);
    assert_eq!(cpu.exec(special(0, 2, 3, 0, FUNCT_DSLL32)), Ok(()));
    assert_eq!(cpu.read_gpr_qword(3), 0x1234_5678_0000_0000);
    assert_eq!(cpu.exec(special(0, 2, 3, 4, FUNCT_DSLL32)), Ok(()));
    assert_eq!(cpu.read_gpr_qword(3), 0x2345_6780_0000_0000);
}

#[test]
fn doubleword_fixed_shifts() {
    let mut cpu = seeded();
    cpu.write_gpr_dword(2, 0x8000_0000_0000_00f0);
    assert_eq!(cpu.exec(special(0, 2, 3, 4, FUNCT_DSLL)), Ok(()));
    assert_eq!(cpu.read_gpr_qword(3), 0xf00);
    assert_eq!(cpu.exec(special(0, 2, 3, 4, FUNCT_DSRL)), Ok(()));
    assert_eq!(cpu.read_gpr_qword(3), 0x0800_0000_0000_000f);
    assert_eq!(cpu.exec(special(0, 2, 3, 4, FUNCT_DSRA)), Ok(()));
    assert_eq!(cpu.read_gpr_qword(3), 0xffff_ffff_ffff_ffff_f800_0000_0000_000f);
    assert_eq!(cpu.exec(special(0, 2, 3, 0, FUNCT_DSRL32)), Ok(()));
    assert_eq!(cpu.read_gpr_qword(3), 0x8000_0000);
    assert_eq!(cpu.exec(special(0, 2, 3, 31, FUNCT_DSRA32)), Ok(()));
    assert_eq!(cpu.read_gpr_qword(3), ONES_128);
    assert_eq!(cpu.exec(special(0, 2, 3, 31, FUNCT_DSRL32)), Ok(()));
    assert_eq!(cpu.read_gpr_qword(3), 1);
}

#[test]
fn doubleword_variable_shifts_use_low_six_bits_of_rs() {
    let mut cpu = seeded();
    cpu.write_gpr_word(1, 0xffff_ffe4); // low six bits: 36
    cpu.write_gpr_dword(2, 0x8000_0000_0000_00f0);
    assert_eq!(cpu.exec(special(1, 2, 3, 0, FUNCT_DSLLV)), Ok(()));
    assert_eq!(cpu.read_gpr_qword(3), 0xf00_0000_0000);
    assert_eq!(cpu.exec(special(1, 2, 3, 0, FUNCT_DSRLV)), Ok(()));
    assert_eq!(cpu.read_gpr_qword(3), 0x800_0000);
    assert_eq!(cpu.exec(special(1, 2, 3, 0, FUNCT_DSRAV)), Ok(()));
    assert_eq!(cpu.read_gpr_qword(3), -0x800_0000i128 as u128);
}

// ---- jumps ----

#[test]
fn jalr_links_pc_plus_eight() {
    let mut cpu = seeded();
    set_pc(&mut cpu, 0x2000);
    cpu.write_gpr_qword(1, 0x5000);
    assert_eq!(cpu.exec(special(1, 0, 31, 0, FUNCT_JALR)), Ok(()));
    assert_eq!(cpu.next_pc(), 0x5000);
    assert_eq!(cpu.read_gpr_qword(31), 0x2008);
    assert_eq!(cpu.pc(), 0x2000);
}

#[test]
fn jalr_with_rd_equal_rs_jumps_to_old_value() {
    let mut cpu = seeded();
    set_pc(&mut cpu, 0x2000);
    cpu.write_gpr_qword(4, 0x7000);
    assert_eq!(cpu.exec(special(4, 0, 4, 0, FUNCT_JALR)), Ok(()));
    assert_eq!(cpu.next_pc(), 0x7000);
    assert_eq!(cpu.read_gpr_qword(4), 0x2008);
}

#[test]
fn jr_writes_no_register() {
    let mut cpu = seeded();
    set_pc(&mut cpu, 0x100);
    cpu.write_gpr_qword(9, 0xdead_0000_0000_0000_0000_0000_0000_4000);
    let before = gprs(&cpu);
    assert_eq!(cpu.exec(special(9, 0, 31, 0, FUNCT_JR)), Ok(()));
    assert_eq!(cpu.next_pc(), 0x4000);
    assert_eq!(cpu.pc(), 0x100);
    assert_eq!(gprs(&cpu), before);
    cpu.update_pc();
    assert_eq!((cpu.pc(), cpu.next_pc()), (0x4000, 0x4004));
}

// ---- conditional moves ----

#[test]
fn movz_moves_only_on_zero() {
    let mut cpu = seeded();
    let v = 0xabcd_0000_0000_0000_1234_5678_9abc_def0u128;
    cpu.write_gpr_qword(1, v);
    cpu.write_gpr_qword(2, 0);
    assert_eq!(cpu.exec(special(1, 2, 3, 0, FUNCT_MOVZ)), Ok(()));
    assert_eq!(cpu.read_gpr_qword(3), v);
    cpu.write_gpr_qword(3, 77);
    cpu.write_gpr_qword(2, 1);
    let before = gprs(&cpu);
    assert_eq!(cpu.exec(special(1, 2, 3, 0, FUNCT_MOVZ)), Ok(()));
    assert_eq!(gprs(&cpu), before);
}

#[test]
fn movn_moves_only_on_nonzero() {
    let mut cpu = seeded();
    let v = 0xabcd_0000_0000_0000_1234_5678_9abc_def0u128;
    cpu.write_gpr_qword(1, v);
    cpu.write_gpr_qword(2, 5);
    assert_eq!(cpu.exec(special(1, 2, 3, 0, FUNCT_MOVN)), Ok(()));
    assert_eq!(cpu.read_gpr_qword(3), v);
    cpu.write_gpr_qword(3, 77);
    cpu.write_gpr_qword(2, 0);
    let before = gprs(&cpu);
    assert_eq!(cpu.exec(special(1, 2, 3, 0, FUNCT_MOVN)), Ok(()));
    assert_eq!(gprs(&cpu), before);
}

// ---- multiply and divide ----

#[test]
fn mult_examples() {
    let mut cpu = seeded();
    cpu.write_gpr_word(1, 0x1000);
    cpu.write_gpr_word(2, 0x2000);
    assert_eq!(cpu.exec(special(1, 2, 0, 0, FUNCT_MULT)), Ok(()));
    assert_eq!((cpu.lo(), cpu.hi()), (0x0200_0000, 0));
    cpu.write_gpr_word(1, -10i32 as u32);
    cpu.write_gpr_word(2, 20);
    assert_eq!(cpu.exec(special(1, 2, 0, 0, FUNCT_MULT)), Ok(()));
    assert_eq!(cpu.lo() as i64, -200);
    assert_eq!(cpu.hi() as i64, -1);
}

#[test]
fn mult_sign_extends_both_halves() {
    let mut cpu = seeded();
    cpu.write_gpr_word(1, 0x4000_0000);
    cpu.write_gpr_word(2, 2);
    assert_eq!(cpu.exec(special(1, 2, 0, 0, FUNCT_MULT)), Ok(()));
    assert_eq!((cpu.lo(), cpu.hi()), (0xffff_ffff_8000_0000, 0));
    cpu.write_gpr_word(1, 0x8000_0000);
    cpu.write_gpr_word(2, 0x8000_0000);
    assert_eq!(cpu.exec(special(1, 2, 0, 0, FUNCT_MULT)), Ok(()));
    assert_eq!((cpu.lo(), cpu.hi()), (0, 0x4000_0000));
}

#[test]
fn multu_halves() {
    let mut cpu = seeded();
    cpu.write_gpr_word(1, 0xffff_ffff);
    cpu.write_gpr_word(2, 0xffff_ffff);
    let before = gprs(&cpu);
    assert_eq!(cpu.exec(special(1, 2, 0, 0, FUNCT_MULTU)), Ok(()));
    assert_eq!((cpu.lo(), cpu.hi()), (1, 0xffff_ffff_ffff_fffe));
    assert_eq!(gprs(&cpu), before);
}

#[test]
fn div_truncates_toward_zero() {
    let mut cpu = seeded();
    cpu.write_gpr_word(1, 100);
    cpu.write_gpr_word(2, 7);
    assert_eq!(cpu.exec(special(1, 2, 0, 0, FUNCT_DIV)), Ok(()));
    assert_eq!((cpu.lo(), cpu.hi()), (14, 2));
    cpu.write_gpr_word(1, -100i32 as u32);
    assert_eq!(cpu.exec(special(1, 2, 0, 0, FUNCT_DIV)), Ok(()));
    assert_eq!((cpu.lo() as i64, cpu.hi() as i64), (-14, -2));
    cpu.write_gpr_word(1, 100);
    cpu.write_gpr_word(2, -7i32 as u32);
    assert_eq!(cpu.exec(special(1, 2, 0, 0, FUNCT_DIV)), Ok(()));
    assert_eq!((cpu.lo() as i64, cpu.hi() as i64), (-14, 2));
}

#[test]
fn div_of_minimum_by_minus_one_keeps_low_word() {
    let mut cpu = seeded();
    cpu.write_gpr_word(1, 0x8000_0000);
    cpu.write_gpr_word(2, 0xffff_ffff);
    assert_eq!(cpu.exec(special(1, 2, 0, 0, FUNCT_DIV)), Ok(()));
    assert_eq!((cpu.lo(), cpu.hi()), (0xffff_ffff_8000_0000, 0));
}

#[test]
fn divide_by_zero_keeps_hi_and_lo() {
    let mut cpu = seeded();
    cpu.set_hi(0x1111);
    cpu.set_lo(0x2222);
    cpu.write_gpr_word(1, 100);
    cpu.write_gpr_word(2, 0);
    assert_eq!(cpu.exec(special(1, 2, 0, 0, FUNCT_DIV)), Ok(()));
    assert_eq!((cpu.lo(), cpu.hi()), (0x2222, 0x1111));
    assert_eq!(cpu.exec(special(1, 2, 0, 0, FUNCT_DIVU)), Ok(()));
    assert_eq!((cpu.lo(), cpu.hi()), (0x2222, 0x1111));
}

#[test]
fn divu_is_unsigned() {
    let mut cpu = seeded();
    cpu.write_gpr_word(1, 0xffff_fff0);
    cpu.write_gpr_word(2, 0x10);
    assert_eq!(cpu.exec(special(1, 2, 0, 0, FUNCT_DIVU)), Ok(()));
    assert_eq!((cpu.lo(), cpu.hi()), (0x0fff_ffff, 0));
    cpu.write_gpr_word(1, 100);
    cpu.write_gpr_word(2, 7);
    assert_eq!(cpu.exec(special(1, 2, 0, 0, FUNCT_DIVU)), Ok(()));
    assert_eq!((cpu.lo(), cpu.hi()), (14, 2));
}

// ---- HI, LO, SA transfers ----

#[test]
fn hi_lo_sa_transfers() {
    let mut cpu = seeded();
    cpu.write_gpr_qword(1, 0x5555_0000_0000_0000_8000_0000_0000_0001);
    assert_eq!(cpu.exec(special(1, 0, 0, 0, FUNCT_MTHI)), Ok(()));
    assert_eq!(cpu.exec(special(1, 0, 0, 0, FUNCT_MTLO)), Ok(()));
    assert_eq!(cpu.exec(special(1, 0, 0, 0, FUNCT_MTSA)), Ok(()));
    assert_eq!((cpu.hi(), cpu.lo(), cpu.sa()), (0x8000_0000_0000_0001, 0x8000_0000_0000_0001, 0x8000_0000_0000_0001));
    let extended = 0xffff_ffff_ffff_ffff_8000_0000_0000_0001u128;
    assert_eq!(cpu.exec(special(0, 0, 2, 0, FUNCT_MFHI)), Ok(()));
    assert_eq!(cpu.read_gpr_qword(2), extended);
    cpu.set_lo(7);
    assert_eq!(cpu.exec(special(0, 0, 3, 0, FUNCT_MFLO)), Ok(()));
    assert_eq!(cpu.read_gpr_qword(3), 7);
    cpu.set_sa(9);
    assert_eq!(cpu.exec(special(0, 0, 4, 0, FUNCT_MFSA)), Ok(()));
    assert_eq!(cpu.read_gpr_qword(4), 9);
}

// ---- logic and compare ----

#[test]
fn logic_uses_all_128_bits() {
    let mut cpu = seeded();
    let a = 0xff00_ff00_0000_0000_0000_0000_f0f0_f0f0u128;
    let b = 0x0ff0_0ff0_0000_0000_0000_0000_ff00_ff00u128;
    cpu.write_gpr_qword(1, a);
    cpu.write_gpr_qword(2, b);
    assert_eq!(cpu.exec(special(1, 2, 3, 0, FUNCT_AND)), Ok(()));
    assert_eq!(cpu.read_gpr_qword(3), a & b);
    assert_eq!(cpu.exec(special(1, 2, 3, 0, FUNCT_OR)), Ok(()));
    assert_eq!(cpu.read_gpr_qword(3), a | b);
    assert_eq!(cpu.exec(special(1, 2, 3, 0, FUNCT_XOR)), Ok(()));
    assert_eq!(cpu.read_gpr_qword(3), a ^ b);
    assert_eq!(cpu.exec(special(1, 2, 3, 0, FUNCT_NOR)), Ok(()));
    assert_eq!(cpu.read_gpr_qword(3), !(a | b));
}

#[test]
fn set_on_less_than_signed_and_unsigned() {
    let mut cpu = seeded();
    cpu.write_gpr_dword(1, -1i64 as u64);
    cpu.write_gpr_dword(2, 1);
    assert_eq!(cpu.exec(special(1, 2, 3, 0, FUNCT_SLT)), Ok(()));
    assert_eq!(cpu.read_gpr_qword(3), 1);
    assert_eq!(cpu.exec(special(1, 2, 3, 0, FUNCT_SLTU)), Ok(()));
    assert_eq!(cpu.read_gpr_qword(3), 0);
    assert_eq!(cpu.exec(special(2, 1, 3, 0, FUNCT_SLT)), Ok(()));
    assert_eq!(cpu.read_gpr_qword(3), 0);
    assert_eq!(cpu.exec(special(2, 1, 3, 0, FUNCT_SLTU)), Ok(()));
    assert_eq!(cpu.read_gpr_qword(3), 1);
    assert_eq!(cpu.exec(special(2, 2, 3, 0, FUNCT_SLT)), Ok(()));
    assert_eq!(cpu.read_gpr_qword(3), 0);
}

// ---- traps and exceptions ----

fn trap_outcome(funct: u32, a: u64, b: u64) -> Result<(), Fault> {
    let mut cpu = seeded();
    cpu.write_gpr_dword(5, a);
    cpu.write_gpr_dword(6, b);
    let before = gprs(&cpu);
    let r = cpu.exec(special(5, 6, 0, 0, funct));
    assert_eq!(gprs(&cpu), before);
    r
}

fn trapped(kind: TrapKind) -> Result<(), Fault> {
    Err(Fault::Trap { kind, rs: 5, rt: 6 })
}

#[test]
fn trap_conditions_over_equal_less_and_greater() {
    let minus_one = -1i64 as u64;
    // (a, b): equal; less signed and unsigned; greater signed, less unsigned.
    let cases = [(7u64, 7u64), (1, 2), (1, minus_one)];
    for &(a, b) in &cases {
        let sa = a as i64;
        let sb = b as i64;
        let expect = |cond: bool, kind| if cond { trapped(kind) } else { Ok(()) };
        assert_eq!(trap_outcome(FUNCT_TEQ, a, b), expect(a == b, TrapKind::Teq));
        assert_eq!(trap_outcome(FUNCT_TNE, a, b), expect(a != b, TrapKind::Tne));
        assert_eq!(trap_outcome(FUNCT_TGE, a, b), expect(sa >= sb, TrapKind::Tge));
        assert_eq!(trap_outcome(FUNCT_TGEU, a, b), expect(a >= b, TrapKind::Tgeu));
        assert_eq!(trap_outcome(FUNCT_TLT, a, b), expect(sa < sb, TrapKind::Tlt));
        assert_eq!(trap_outcome(FUNCT_TLTU, a, b), expect(a < b, TrapKind::Tltu));
        assert_eq!(trap_outcome(FUNCT_TGE, b, a), expect(sb >= sa, TrapKind::Tge));
        assert_eq!(trap_outcome(FUNCT_TGEU, b, a), expect(b >= a, TrapKind::Tgeu));
        assert_eq!(trap_outcome(FUNCT_TLT, b, a), expect(sb < sa, TrapKind::Tlt));
        assert_eq!(trap_outcome(FUNCT_TLTU, b, a), expect(b < a, TrapKind::Tltu));
    }
}

#[test]
fn trap_signed_and_unsigned_framings_differ() {
    let minus_one = -1i64 as u64;
    assert_eq!(trap_outcome(FUNCT_TLT, minus_one, 0), trapped(TrapKind::Tlt));
    assert_eq!(trap_outcome(FUNCT_TLTU, minus_one, 0), Ok(()));
    assert_eq!(trap_outcome(FUNCT_TGE, minus_one, 0), Ok(()));
    assert_eq!(trap_outcome(FUNCT_TGEU, minus_one, 0), trapped(TrapKind::Tgeu));
}

#[test]
fn teq_and_tne_compare_doublewords() {
    let mut cpu = seeded();
    cpu.write_gpr_qword(5, 0x1_0000_0000_0000_0000_0000_0000_0003);
    cpu.write_gpr_qword(6, 0x2_0000_0000_0000_0000_0000_0000_0003);
    assert_eq!(
        cpu.exec(special(5, 6, 0, 0, FUNCT_TEQ)),
        Err(Fault::Trap { kind: TrapKind::Teq, rs: 5, rt: 6 })
    );
    assert_eq!(cpu.exec(special(5, 6, 0, 0, FUNCT_TNE)), Ok(()));
}

#[test]
fn syscall_and_break_raise_and_change_nothing() {
    let mut cpu = seeded();
    set_pc(&mut cpu, 0x40);
    let before = gprs(&cpu);
    assert_eq!(
        cpu.exec(special(1, 2, 3, 0, FUNCT_SYSCALL)),
        Err(Fault::SoftwareException { cause: SoftwareKind::Syscall })
    );
    assert_eq!(
        cpu.exec(special(1, 2, 3, 0, FUNCT_BREAK)),
        Err(Fault::SoftwareException { cause: SoftwareKind::Break })
    );
    assert_eq!(gprs(&cpu), before);
    assert_eq!((cpu.pc(), cpu.next_pc(), cpu.hi(), cpu.lo(), cpu.sa()), (0x40, 0x44, 0, 0, 0));
}
