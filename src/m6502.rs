use vstd::prelude::*;

use crate::instruct::{decode, mode_size, AddressType, Instruct, InstructionInfo};
use crate::memory::DefaultMemory;

verus! {

pub const NEGATIVE: u8 = 0b10000000;

pub const OVERFLOW: u8 = 0b01000000;

pub const UNUSED: u8 = 0b00100000;

pub const BREAK: u8 = 0b00010000;

pub const DECIMAL: u8 = 0b00001000;

pub const INTERRUPT: u8 = 0b00000100;

pub const ZERO: u8 = 0b00000010;

pub const CARRY: u8 = 0b00000001;

pub const NMI_VECTOR: u16 = 0xFFFA;

pub const RESET_VECTOR: u16 = 0xFFFC;

pub const IRQ_VECTOR: u16 = 0xFFFE;

/// The architectural registers.
#[derive(Debug, Clone, Copy)]
pub struct Registers {
    /// Program counter: the address of the instruction being run.
    pub pc: u16,
    /// Accumulator.
    pub ac: u8,
    pub xr: u8,
    pub yr: u8,
    /// Status register, `NV-BDIZC` from the high bit down.
    pub sr: u8,
    /// Stack pointer into page one.
    pub sp: u8,
}

/// All bits of `flags` are set in `sr`.
pub open spec fn flags_set(sr: u8, flags: u8) -> bool {
    sr & flags == flags
}

/// `sr` with the bits of `flags` set (`on`) or cleared.
pub open spec fn with_flags(sr: u8, flags: u8, on: bool) -> u8 {
    if on {
        sr | flags
    } else {
        sr & !flags
    }
}

/// Sets or clears `flags`, leaving the other bits.
pub fn set_flags(sr: u8, flags: u8, on: bool) -> (r: u8)
    ensures
        r == with_flags(sr, flags, on),
        r & flags == (if on {
            flags
        } else {
            0
        }),
        r & !flags == sr & !flags,
{
    if on {
        let r = sr | flags;
        assert(r & flags == flags && r & !flags == sr & !flags) by (bit_vector)
            requires
                r == sr | flags,
        ;
        r
    } else {
        let r = sr & !flags;
        assert(r & flags == 0 && r & !flags == sr & !flags) by (bit_vector)
            requires
                r == sr & !flags,
        ;
        r
    }
}

impl Registers {
    pub fn new() -> (r: Registers)
        ensures
            r.pc == 0 && r.ac == 0 && r.xr == 0 && r.yr == 0,
            r.sr == 0b00000110,
            r.sp == 0xFD,
    {
        Registers { pc: 0x0000, ac: 0x00, xr: 0x00, yr: 0x00, sr: 0b00000110, sp: 0xFD }
    }

    pub fn status_add(&mut self, flags: u8)
        ensures
            *final(self) == (Registers { sr: old(self).sr | flags, ..*old(self) }),
    {
        self.sr = self.sr | flags;
    }

    pub fn status_remove(&mut self, flags: u8)
        ensures
            *final(self) == (Registers { sr: old(self).sr & !flags, ..*old(self) }),
    {
        self.sr = self.sr & !flags;
    }

    pub fn status_has(&self, flags: u8) -> (r: bool)
        ensures
            r == flags_set(self.sr, flags),
    {
        (self.sr & flags) == flags
    }

    /// The status flags as `NV-BDIZC`, upper case where set.
    pub fn fmt_status(&self) -> (r: String)
        ensures
            r@ == seq![
                if flags_set(self.sr, NEGATIVE) { 'N' } else { 'n' },
                if flags_set(self.sr, OVERFLOW) { 'V' } else { 'v' },
                '-',
                if flags_set(self.sr, BREAK) { 'B' } else { 'b' },
                if flags_set(self.sr, DECIMAL) { 'D' } else { 'd' },
                if flags_set(self.sr, INTERRUPT) { 'I' } else { 'i' },
                if flags_set(self.sr, ZERO) { 'Z' } else { 'z' },
                if flags_set(self.sr, CARRY) { 'C' } else { 'c' },
            ],
    {
        let s = String::new();
        let s = s.concat(if self.status_has(NEGATIVE) { "N" } else { "n" });
        let s = s.concat(if self.status_has(OVERFLOW) { "V" } else { "v" });
        let s = s.concat("-");
        let s = s.concat(if self.status_has(BREAK) { "B" } else { "b" });
        let s = s.concat(if self.status_has(DECIMAL) { "D" } else { "d" });
        let s = s.concat(if self.status_has(INTERRUPT) { "I" } else { "i" });
        let s = s.concat(if self.status_has(ZERO) { "Z" } else { "z" });
        let s = s.concat(if self.status_has(CARRY) { "C" } else { "c" });
        proof {
            reveal_strlit("N");
            reveal_strlit("n");
            reveal_strlit("V");
            reveal_strlit("v");
            reveal_strlit("-");
            reveal_strlit("B");
            reveal_strlit("b");
            reveal_strlit("D");
            reveal_strlit("d");
            reveal_strlit("I");
            reveal_strlit("i");
            reveal_strlit("Z");
            reveal_strlit("z");
            reveal_strlit("C");
            reveal_strlit("c");
        }
        assert(s@ =~= seq![
            if flags_set(self.sr, NEGATIVE) { 'N' } else { 'n' },
            if flags_set(self.sr, OVERFLOW) { 'V' } else { 'v' },
            '-',
            if flags_set(self.sr, BREAK) { 'B' } else { 'b' },
            if flags_set(self.sr, DECIMAL) { 'D' } else { 'd' },
            if flags_set(self.sr, INTERRUPT) { 'I' } else { 'i' },
            if flags_set(self.sr, ZERO) { 'Z' } else { 'z' },
            if flags_set(self.sr, CARRY) { 'C' } else { 'c' },
        ]);
        s
    }
}

pub open spec fn bit(c: bool) -> int {
    if c {
        1
    } else {
        0
    }
}

pub open spec fn negative(v: u8) -> bool {
    v >= 128
}

/// `sr` after a result `v`: Z set iff `v` is zero, N as its top bit.
pub open spec fn nz(sr: u8, v: u8) -> u8 {
    with_flags(with_flags(sr, ZERO, v == 0), NEGATIVE, negative(v))
}

/// The unsigned sum that ADC forms.
pub open spec fn adc_sum(a: u8, m: u8, c: bool) -> int {
    a + m + bit(c)
}

/// Adding `a` and `m` gave `r` with a sign that neither operand could give.
pub open spec fn signed_overflow(a: u8, m: u8, r: u8) -> bool {
    negative(a) == negative(m) && negative(r) != negative(a)
}

/// Binary add with carry: the result byte, the carry out, the signed overflow.
pub fn add_with_carry(a: u8, m: u8, c: bool) -> (r: (u8, bool, bool))
    ensures
        r.0 as int == adc_sum(a, m, c) % 256,
        r.1 == (adc_sum(a, m, c) > 255),
        r.2 == signed_overflow(a, m, r.0),
{
    let sum: u16 = a as u16 + m as u16 + if c {
        1
    } else {
        0
    };
    let v = (sum % 256) as u8;
    (v, sum > 255, (a >= 128) == (m >= 128) && (v >= 128) != (a >= 128))
}

/// Binary subtract with borrow: `a - m - (1 - c)`, as ADC of the one's
/// complement of `m`.
pub fn subtract_with_borrow(a: u8, m: u8, c: bool) -> (r: (u8, bool, bool))
    ensures
        r.0 as int == (a - m - 1 + bit(c) + 256) % 256,
        r.1 == (a - m - 1 + bit(c) >= 0),
        r == add_with_carry_spec(a, (255 - m) as u8, c),
{
    add_with_carry(a, 255 - m, c)
}

pub open spec fn add_with_carry_spec(a: u8, m: u8, c: bool) -> (u8, bool, bool) {
    let v = (adc_sum(a, m, c) % 256) as u8;
    (v, adc_sum(a, m, c) > 255, signed_overflow(a, m, v))
}

/// The status after comparing register value `r` with `m`.
pub open spec fn compare_spec(sr: u8, r: u8, m: u8) -> u8 {
    nz(with_flags(sr, CARRY, r >= m), ((r - m + 256) % 256) as u8)
}

fn update_nz(sr: u8, v: u8) -> (r: u8)
    ensures
        r == nz(sr, v),
{
    set_flags(set_flags(sr, ZERO, v == 0), NEGATIVE, v >= 128)
}

fn compare(sr: u8, r: u8, m: u8) -> (out: u8)
    ensures
        out == compare_spec(sr, r, m),
{
    let d = ((r as u16 + 256 - m as u16) % 256) as u8;
    update_nz(set_flags(sr, CARRY, r >= m), d)
}

/// What a read-modify-write instruction makes of `v`, and the new status.
pub open spec fn modify_spec(ins: Instruct, v: u8, sr: u8) -> (u8, u8) {
    let c = flags_set(sr, CARRY);
    match ins {
        Instruct::ASL => {
            let r = ((v * 2) % 256) as u8;
            (r, nz(with_flags(sr, CARRY, v >= 128), r))
        },
        Instruct::LSR => {
            let r = (v / 2) as u8;
            (r, nz(with_flags(sr, CARRY, v % 2 == 1), r))
        },
        Instruct::ROL => {
            let r = ((v * 2 + bit(c)) % 256) as u8;
            (r, nz(with_flags(sr, CARRY, v >= 128), r))
        },
        Instruct::ROR => {
            let r = (v / 2 + 128 * bit(c)) as u8;
            (r, nz(with_flags(sr, CARRY, v % 2 == 1), r))
        },
        Instruct::INC => {
            let r = ((v + 1) % 256) as u8;
            (r, nz(sr, r))
        },
        Instruct::DEC => {
            let r = ((v + 255) % 256) as u8;
            (r, nz(sr, r))
        },
        _ => (v, sr),
    }
}

fn modify(ins: Instruct, v: u8, sr: u8) -> (r: (u8, u8))
    ensures
        r == modify_spec(ins, v, sr),
{
    let c: u8 = if (sr & CARRY) == CARRY {
        1
    } else {
        0
    };
    match ins {
        Instruct::ASL => {
            let r = ((v as u16 * 2) % 256) as u8;
            (r, update_nz(set_flags(sr, CARRY, v >= 128), r))
        },
        Instruct::LSR => {
            let r = v / 2;
            (r, update_nz(set_flags(sr, CARRY, v % 2 == 1), r))
        },
        Instruct::ROL => {
            let r = ((v as u16 * 2 + c as u16) % 256) as u8;
            (r, update_nz(set_flags(sr, CARRY, v >= 128), r))
        },
        Instruct::ROR => {
            let r = (v / 2 + 128 * c) as u8;
            (r, update_nz(set_flags(sr, CARRY, v % 2 == 1), r))
        },
        Instruct::INC => {
            let r = ((v as u16 + 1) % 256) as u8;
            (r, update_nz(sr, r))
        },
        Instruct::DEC => {
            let r = ((v as u16 + 255) % 256) as u8;
            (r, update_nz(sr, r))
        },
        _ => (v, sr),
    }
}

/// The branch condition of a branch mnemonic on status `sr`.
pub open spec fn branch_taken(ins: Instruct, sr: u8) -> bool {
    match ins {
        Instruct::BCC => !flags_set(sr, CARRY),
        Instruct::BCS => flags_set(sr, CARRY),
        Instruct::BEQ => flags_set(sr, ZERO),
        Instruct::BNE => !flags_set(sr, ZERO),
        Instruct::BMI => flags_set(sr, NEGATIVE),
        Instruct::BPL => !flags_set(sr, NEGATIVE),
        Instruct::BVC => !flags_set(sr, OVERFLOW),
        Instruct::BVS => flags_set(sr, OVERFLOW),
        _ => false,
    }
}

fn branch_condition(ins: Instruct, sr: u8) -> (r: bool)
    ensures
        r == branch_taken(ins, sr),
{
    match ins {
        Instruct::BCC => (sr & CARRY) != CARRY,
        Instruct::BCS => (sr & CARRY) == CARRY,
        Instruct::BEQ => (sr & ZERO) == ZERO,
        Instruct::BNE => (sr & ZERO) != ZERO,
        Instruct::BMI => (sr & NEGATIVE) == NEGATIVE,
        Instruct::BPL => (sr & NEGATIVE) != NEGATIVE,
        Instruct::BVC => (sr & OVERFLOW) != OVERFLOW,
        Instruct::BVS => (sr & OVERFLOW) == OVERFLOW,
        _ => false,
    }
}

/// Where a branch at `pc` with offset byte `offset` lands: the next
/// instruction's address plus the offset read as a signed byte.
pub open spec fn branch_target(pc: u16, offset: u8) -> u16 {
    ((pc + 2 + offset - (if offset >= 128 {
        256int
    } else {
        0int
    }) + 0x20000) % 0x10000) as u16
}

fn target_of(pc: u16, offset: u8) -> (r: u16)
    ensures
        r == branch_target(pc, offset),
{
    let back: u32 = if offset >= 128 {
        256
    } else {
        0
    };
    ((pc as u32 + 2 + offset as u32 + 0x20000 - back) % 0x10000) as u16
}

/// The cycles of an instruction that overlap: a bitmask over the timing
/// states. `t1` is the fetch of the next opcode; `t2` to `t6` count the
/// cycles after the fetch; `t0` marks a closing cycle.
#[derive(Debug, Clone, Copy)]
pub struct TimingState {
    pub t0: bool,
    pub t1: bool,
    pub tp: bool,
    pub t2: bool,
    pub t3: bool,
    pub t4: bool,
    pub t5: bool,
    pub t6: bool,
    pub v0: bool,
    pub sd1: bool,
    pub sd2: bool,
}

impl TimingState {
    /// Only T0 set.
    pub fn new() -> (r: TimingState)
        ensures
            r == (TimingState { t0: true, ..clear_spec() }),
    {
        TimingState {
            t0: true,
            t1: false,
            tp: false,
            t2: false,
            t3: false,
            t4: false,
            t5: false,
            t6: false,
            v0: false,
            sd1: false,
            sd2: false,
        }
    }

    /// The states set, as `T0 + T1 + ... + VEC0 + SD1 + SD2`.
    pub fn fmt_timing(&self) -> (r: String)
        ensures
            r@ == timing_text(*self),
    {
        proof {
            reveal_strlit("T0");
            reveal_strlit("T1");
            reveal_strlit("T2");
            reveal_strlit("T3");
            reveal_strlit("T4");
            reveal_strlit("T5");
            reveal_strlit("T6");
            reveal_strlit("VEC0");
            reveal_strlit("SD1");
            reveal_strlit("SD2");
        }
        let a = add_name_exec(String::new(), self.t0, "T0");
        let a = add_name_exec(a, self.t1, "T1");
        let a = add_name_exec(a, self.t2, "T2");
        let a = add_name_exec(a, self.t3, "T3");
        let a = add_name_exec(a, self.t4, "T4");
        let a = add_name_exec(a, self.t5, "T5");
        let a = add_name_exec(a, self.t6, "T6");
        let a = add_name_exec(a, self.v0, "VEC0");
        let a = add_name_exec(a, self.sd1, "SD1");
        let r = add_name_exec(a, self.sd2, "SD2");
        assert("T0"@ =~= seq!['T', '0'] && "T1"@ =~= seq!['T', '1'] && "T2"@ =~= seq!['T', '2']
            && "T3"@ =~= seq!['T', '3'] && "T4"@ =~= seq!['T', '4'] && "T5"@ =~= seq!['T', '5']
            && "T6"@ =~= seq!['T', '6'] && "VEC0"@ =~= seq!['V', 'E', 'C', '0'] && "SD1"@ =~= seq![
            'S',
            'D',
            '1',
        ] && "SD2"@ =~= seq!['S', 'D', '2']);
        r
    }

    /// No state set.
    pub fn clear() -> (r: TimingState)
        ensures
            r == clear_spec(),
    {
        TimingState {
            t0: false,
            t1: false,
            tp: false,
            t2: false,
            t3: false,
            t4: false,
            t5: false,
            t6: false,
            v0: false,
            sd1: false,
            sd2: false,
        }
    }
}

/// `acc` with `name` added when `on`, names separated by ` + `.
pub open spec fn add_name(acc: Seq<char>, on: bool, name: Seq<char>) -> Seq<char> {
    if !on {
        acc
    } else if acc.len() == 0 {
        name
    } else {
        acc + seq![' ', '+', ' '] + name
    }
}

/// The states set in `t`, as `T0 + T1 + ... + VEC0 + SD1 + SD2`.
pub open spec fn timing_text(t: TimingState) -> Seq<char> {
    let a = add_name(seq![], t.t0, seq!['T', '0']);
    let a = add_name(a, t.t1, seq!['T', '1']);
    let a = add_name(a, t.t2, seq!['T', '2']);
    let a = add_name(a, t.t3, seq!['T', '3']);
    let a = add_name(a, t.t4, seq!['T', '4']);
    let a = add_name(a, t.t5, seq!['T', '5']);
    let a = add_name(a, t.t6, seq!['T', '6']);
    let a = add_name(a, t.v0, seq!['V', 'E', 'C', '0']);
    let a = add_name(a, t.sd1, seq!['S', 'D', '1']);
    add_name(a, t.sd2, seq!['S', 'D', '2'])
}

fn add_name_exec(acc: String, on: bool, name: &str) -> (r: String)
    ensures
        r@ == add_name(acc@, on, name@),
{
    if !on {
        acc
    } else if acc.as_str().unicode_len() == 0 {
        String::from_str(name)
    } else {
        let r = acc.concat(" + ").concat(name);
        proof {
            reveal_strlit(" + ");
        }
        r
    }
}

pub open spec fn clear_spec() -> TimingState {
    TimingState {
        t0: false,
        t1: false,
        tp: false,
        t2: false,
        t3: false,
        t4: false,
        t5: false,
        t6: false,
        v0: false,
        sd1: false,
        sd2: false,
    }
}

/// Which cycle of its instruction a timing state stands for: 1 for the
/// fetch, 2 to 6 after it, 7 for T0 alone.
pub open spec fn cycle_spec(t: TimingState) -> u8 {
    if t.t1 {
        1
    } else if t.t2 {
        2
    } else if t.t3 {
        3
    } else if t.t4 {
        4
    } else if t.t5 {
        5
    } else if t.t6 {
        6
    } else if t.t0 {
        7
    } else {
        1
    }
}

fn cycle_of(t: &TimingState) -> (r: u8)
    ensures
        r == cycle_spec(*t),
{
    if t.t1 {
        1
    } else if t.t2 {
        2
    } else if t.t3 {
        3
    } else if t.t4 {
        4
    } else if t.t5 {
        5
    } else if t.t6 {
        6
    } else if t.t0 {
        7
    } else {
        1
    }
}

/// The timing state of cycle `k` (2 to 7) of an instruction.
fn timing_for(k: u8) -> (r: TimingState)
    requires
        2 <= k <= 7,
    ensures
        r == timing_spec(k),
        cycle_spec(r) == k,
        !r.t1,
        k < 7 ==> !r.t0,
{
    let mut t = TimingState::clear();
    if k == 2 {
        t.t2 = true;
    } else if k == 3 {
        t.t3 = true;
    } else if k == 4 {
        t.t4 = true;
    } else if k == 5 {
        t.t5 = true;
    } else if k == 6 {
        t.t6 = true;
    } else {
        t.t0 = true;
    }
    t
}

pub open spec fn is_store(i: Instruct) -> bool {
    i == Instruct::STA || i == Instruct::STX || i == Instruct::STY
}

pub open spec fn is_modify(i: Instruct) -> bool {
    i == Instruct::ASL || i == Instruct::LSR || i == Instruct::ROL || i == Instruct::ROR || i
        == Instruct::INC || i == Instruct::DEC
}

/// An instruction that reads its operand from a memory address.
pub open spec fn memory_read(info: InstructionInfo) -> bool {
    &&& (info.mode == AddressType::ZeroPage || info.mode == AddressType::ZeroPageX || info.mode
        == AddressType::ZeroPageY || info.mode == AddressType::Absolute || info.mode
        == AddressType::AbsoluteX || info.mode == AddressType::AbsoluteY || info.mode
        == AddressType::IndirectX || info.mode == AddressType::IndirectY)
    &&& !is_store(info.instruction)
    &&& !is_modify(info.instruction)
    &&& !jumps(info.instruction)
}

/// Mnemonics that leave the program counter somewhere other than the next
/// instruction.
pub open spec fn jumps(i: Instruct) -> bool {
    i == Instruct::BRK || i == Instruct::JMP || i == Instruct::JSR || i == Instruct::RTS || i
        == Instruct::RTI
}

/// The address with high byte `hi` and low byte `lo`.
pub open spec fn word_spec(hi: u8, lo: u8) -> u16 {
    (hi * 256 + lo) as u16
}

/// The register that a store instruction writes.
pub open spec fn store_value(ins: Instruct, r: Registers) -> u8 {
    if ins == Instruct::STA {
        r.ac
    } else if ins == Instruct::STX {
        r.xr
    } else {
        r.yr
    }
}

/// An instruction whose operand lies at an address in memory.
pub open spec fn memory_mode(info: InstructionInfo) -> bool {
    &&& (info.mode == AddressType::ZeroPage || info.mode == AddressType::ZeroPageX || info.mode
        == AddressType::ZeroPageY || info.mode == AddressType::Absolute || info.mode
        == AddressType::AbsoluteX || info.mode == AddressType::AbsoluteY || info.mode
        == AddressType::IndirectX || info.mode == AddressType::IndirectY)
    &&& !jumps(info.instruction)
}

/// Mnemonics with the modes the opcode table gives them: the jumps and
/// returns in their own modes, and relative mode for branches alone.
pub open spec fn table_shaped(info: InstructionInfo) -> bool {
    &&& (info.instruction == Instruct::BRK || info.instruction == Instruct::RTS
        || info.instruction == Instruct::RTI) ==> info.mode == AddressType::Impl
    &&& info.instruction == Instruct::JMP ==> info.mode == AddressType::Absolute || info.mode
        == AddressType::Indirect
    &&& info.instruction == Instruct::JSR ==> info.mode == AddressType::Absolute
    &&& info.mode == AddressType::Indirect ==> info.instruction == Instruct::JMP
}

/// The latches that cycle `k` of the instruction in `info` fills from the
/// byte just read (`s.pd`): the vector and jump operands, the pulled return
/// address, and the stack pointer of the break and reset sequence.
pub open spec fn latch_post(s: State, new: State, info: InstructionInfo, k: u8) -> bool {
    let ins = info.instruction;
    &&& ins == Instruct::BRK && k == 2 && s.resetting ==> new.registers.sp == 0
    &&& ins == Instruct::BRK && 3 <= k <= 5 ==> new.registers.sp == ((s.registers.sp + 255)
        % 256) as u8
    &&& ins == Instruct::BRK && k == 6 ==> new.adl == s.pd
    &&& (ins == Instruct::JMP || ins == Instruct::JSR) && info.mode != AddressType::Impl && k == 2
        ==> new.adl == s.pd
    &&& ins == Instruct::JMP && info.mode == AddressType::Indirect && k == 3 ==> new.adh == s.pd
    &&& ins == Instruct::JMP && info.mode == AddressType::Indirect && k == 4 ==> new.bal == s.pd
    &&& (ins == Instruct::RTS || ins == Instruct::RTI) && k == 3 ==> new.registers.sp == ((
    s.registers.sp + 1) % 256) as u8
    &&& ins == Instruct::RTS && k == 4 ==> new.adl == s.pd
    &&& ins == Instruct::RTS && k == 5 ==> new.adh == s.pd
    &&& ins == Instruct::RTI && k == 5 ==> new.adl == s.pd
}

/// Whether cycle `k` is the last of the instruction in `info`, from `s`
/// (the byte read in that cycle in `s.pd`).
#[verifier::opaque]
pub open spec fn last_cycle(s: State, info: InstructionInfo, k: u8) -> bool {
    let ins = info.instruction;
    match info.mode {
        AddressType::Impl => implied_last(ins, k),
        AddressType::Accumulator | AddressType::Immediate => true,
        AddressType::Relative => branch_last(s, ins, k),
        AddressType::Indirect => !(k == 2 || k == 3 || k == 4),
        _ => if ins == Instruct::JMP {
            k != 2
        } else if ins == Instruct::JSR {
            k == 6
        } else {
            memory_last(s, ins, k)
        },
    }
}

/// The last cycle of an implied-mode instruction.
pub open spec fn implied_last(ins: Instruct, k: u8) -> bool {
    if ins == Instruct::BRK {
        k == 7
    } else if ins == Instruct::PHA || ins == Instruct::PHP {
        k == 3
    } else if ins == Instruct::PLA || ins == Instruct::PLP {
        k == 4
    } else if ins == Instruct::RTS || ins == Instruct::RTI {
        k == 6
    } else {
        true
    }
}

/// The last cycle of a branch: the second when not taken, the third when
/// the target is on the branch's page, else the fourth.
pub open spec fn branch_last(s: State, ins: Instruct, k: u8) -> bool {
    if k == 2 {
        !branch_taken(ins, s.registers.sr)
    } else if k == 3 {
        word_spec(s.adh, s.adl) / 256 == s.registers.pc / 256
    } else {
        true
    }
}

/// The last cycle of an instruction that accesses memory: its access
/// cycle, or for a read-modify-write the second after it.
pub open spec fn memory_last(s: State, ins: Instruct, k: u8) -> bool {
    k >= s.access && (is_modify(ins) && !is_store(ins) ==> k - s.access >= 2)
}

/// The index register that mode `m` adds.
pub open spec fn index_spec(s: State, m: AddressType) -> u8 {
    if m == AddressType::ZeroPageY || m == AddressType::AbsoluteY || m == AddressType::IndirectY {
        s.registers.yr
    } else {
        s.registers.xr
    }
}

/// The address latches (`adl`, `adh`, `bal`, `access`, `carry_fix`) after
/// cycle `k` of the instruction in `info`, from `s`.
#[verifier::opaque]
pub open spec fn latches_next(s: State, info: InstructionInfo, k: u8) -> (u8, u8, u8, u8, bool) {
    let ins = info.instruction;
    let same = (s.adl, s.adh, s.bal, s.access, s.carry_fix);
    match info.mode {
        AddressType::Impl => implied_latches(s, ins, k),
        AddressType::Relative => branch_latches(s, ins, k),
        AddressType::Indirect => if k == 2 {
            (s.pd, s.adh, s.bal, s.access, s.carry_fix)
        } else if k == 3 {
            (s.adl, s.pd, s.bal, s.access, s.carry_fix)
        } else if k == 4 {
            (s.adl, s.adh, s.pd, s.access, s.carry_fix)
        } else {
            same
        },
        AddressType::Accumulator | AddressType::Immediate => same,
        _ => if ins == Instruct::JMP || ins == Instruct::JSR {
            if k == 2 {
                (s.pd, s.adh, s.bal, s.access, s.carry_fix)
            } else {
                same
            }
        } else if k >= s.access {
            same
        } else {
            address_latches(s, info, k)
        },
    }
}

/// The address latches after cycle `k` of an implied-mode instruction: the
/// vector and the pulled return address.
pub open spec fn implied_latches(s: State, ins: Instruct, k: u8) -> (u8, u8, u8, u8, bool) {
    if (ins == Instruct::BRK && k == 6) || (ins == Instruct::RTS && k == 4) || (ins
        == Instruct::RTI && k == 5) {
        (s.pd, s.adh, s.bal, s.access, s.carry_fix)
    } else if ins == Instruct::RTS && k == 5 {
        (s.adl, s.pd, s.bal, s.access, s.carry_fix)
    } else {
        (s.adl, s.adh, s.bal, s.access, s.carry_fix)
    }
}

/// The address latches after cycle `k` of a branch: the target, once the
/// branch is taken.
pub open spec fn branch_latches(s: State, ins: Instruct, k: u8) -> (u8, u8, u8, u8, bool) {
    if k == 2 && branch_taken(ins, s.registers.sr) {
        let t = branch_target(s.registers.pc, s.pd);
        ((t % 256) as u8, (t / 256) as u8, s.bal, s.access, s.carry_fix)
    } else {
        (s.adl, s.adh, s.bal, s.access, s.carry_fix)
    }
}

/// The address latches after cycle `k` while the instruction in `info`
/// gathers its operand's address.
pub open spec fn address_latches(s: State, info: InstructionInfo, k: u8) -> (u8, u8, u8, u8, bool) {
    let m = info.mode;
    if m == AddressType::ZeroPage || m == AddressType::ZeroPageX || m == AddressType::ZeroPageY {
        zero_page_latches(s, m, k)
    } else if m == AddressType::Absolute || m == AddressType::AbsoluteX || m
        == AddressType::AbsoluteY || m == AddressType::IndirectY {
        indexed_latches(s, info, k)
    } else if m == AddressType::IndirectX {
        indirect_x_latches(s, k)
    } else {
        (s.adl, s.adh, s.bal, s.access, s.carry_fix)
    }
}

/// Zero page modes: the address byte, then the index added within page
/// zero.
pub open spec fn zero_page_latches(s: State, m: AddressType, k: u8) -> (u8, u8, u8, u8, bool) {
    if m == AddressType::ZeroPage {
        (s.pd, 0u8, s.bal, 3u8, s.carry_fix)
    } else if k == 2 {
        (s.pd, 0u8, s.bal, s.access, s.carry_fix)
    } else {
        (((s.adl + index_spec(s, m)) % 256) as u8, s.adh, s.bal, 4u8, s.carry_fix)
    }
}

/// Absolute modes, and the indirect indexed mode after its pointer: low
/// then high address byte with the index added, and a carry into the high
/// byte one cycle later when the sum crosses a page. A read without a carry
/// reads at once.
pub open spec fn indexed_latches(s: State, info: InstructionInfo, k: u8) -> (u8, u8, u8, u8, bool) {
    let ins = info.instruction;
    let m = info.mode;
    let lo: u8 = if m == AddressType::IndirectY {
        3
    } else {
        2
    };
    let hi: u8 = if m == AddressType::IndirectY {
        4
    } else {
        3
    };
    if m == AddressType::Absolute {
        if k == 2 {
            (s.pd, s.adh, s.bal, s.access, s.carry_fix)
        } else {
            (s.adl, s.pd, s.bal, 4u8, s.carry_fix)
        }
    } else if m == AddressType::IndirectY && k == 2 {
        (s.adl, s.adh, s.pd, s.access, s.carry_fix)
    } else if k == lo {
        (s.pd, s.adh, s.bal, s.access, s.carry_fix)
    } else if k == hi {
        let sum = s.adl + index_spec(s, m);
        let carry = sum > 255;
        (
            (sum % 256) as u8,
            s.pd,
            s.bal,
            (if !is_store(ins) && !is_modify(ins) && !carry {
                hi + 1
            } else {
                hi + 2
            }) as u8,
            carry,
        )
    } else if s.carry_fix {
        (s.adl, ((s.adh + 1) % 256) as u8, s.bal, s.access, s.carry_fix)
    } else {
        (s.adl, s.adh, s.bal, s.access, s.carry_fix)
    }
}

/// The indexed indirect mode: the pointer, the index added within page
/// zero, then the low and high address bytes.
pub open spec fn indirect_x_latches(s: State, k: u8) -> (u8, u8, u8, u8, bool) {
    if k == 2 {
        (s.adl, s.adh, s.pd, s.access, s.carry_fix)
    } else if k == 3 {
        (s.adl, s.adh, ((s.bal + s.registers.xr) % 256) as u8, s.access, s.carry_fix)
    } else if k == 4 {
        (s.pd, s.adh, s.bal, s.access, s.carry_fix)
    } else {
        (s.adl, s.pd, s.bal, 6u8, s.carry_fix)
    }
}

/// The cycle specifications of each mode.
proof fn lemma_cycle_specs(s: State, info: InstructionInfo, k: u8)
    ensures
        info.mode == AddressType::Impl ==> last_cycle(s, info, k) == implied_last(
            info.instruction,
            k,
        ) && latches_next(s, info, k) == implied_latches(s, info.instruction, k),
        info.mode == AddressType::Relative ==> last_cycle(s, info, k) == branch_last(
            s,
            info.instruction,
            k,
        ) && latches_next(s, info, k) == branch_latches(s, info.instruction, k),
        memory_mode(info) ==> last_cycle(s, info, k) == memory_last(s, info.instruction, k)
            && latches_next(s, info, k) == (if k >= s.access {
            (s.adl, s.adh, s.bal, s.access, s.carry_fix)
        } else {
            address_latches(s, info, k)
        }),
{
    reveal(last_cycle);
    reveal(latches_next);
}

/// The operand of a read-modify-write after cycle `k`: read in the first
/// access cycle, modified in the next.
pub open spec fn data_next(s: State, info: InstructionInfo, k: u8) -> u8 {
    let ins = info.instruction;
    if memory_mode(info) && is_modify(ins) && !is_store(ins) && k >= s.access {
        if k == s.access {
            s.pd
        } else if k == s.access + 1 {
            modify_spec(ins, s.data, s.registers.sr).0
        } else {
            s.data
        }
    } else {
        s.data
    }
}

/// The timing state of cycle `k` (2 to 7) after the fetch.
pub open spec fn timing_spec(k: u8) -> TimingState {
    if k == 2 {
        TimingState { t2: true, ..clear_spec() }
    } else if k == 3 {
        TimingState { t3: true, ..clear_spec() }
    } else if k == 4 {
        TimingState { t4: true, ..clear_spec() }
    } else if k == 5 {
        TimingState { t5: true, ..clear_spec() }
    } else if k == 6 {
        TimingState { t6: true, ..clear_spec() }
    } else {
        TimingState { t0: true, ..clear_spec() }
    }
}

/// Where the instruction in `info`, finishing in cycle `k` with latches
/// `s` (the byte read in that cycle in `s.pd`), sends the program counter;
/// `None` where it runs on to the next instruction.
pub open spec fn jump_spec(s: State, info: InstructionInfo, k: u8) -> Option<u16> {
    if info.mode == AddressType::Relative {
        if k == 2 {
            None
        } else {
            Some(word_spec(s.adh, s.adl))
        }
    } else if info.instruction == Instruct::JMP && info.mode == AddressType::Indirect {
        Some(word_spec(s.pd, s.bal))
    } else if info.instruction == Instruct::RTS {
        Some(((word_spec(s.adh, s.adl) + 1) % 0x10000) as u16)
    } else if jumps(info.instruction) {
        Some(word_spec(s.pd, s.adl))
    } else {
        None
    }
}

/// The program counter after the instruction in `info` finishes in cycle
/// `k` with latches `s`.
pub open spec fn completion_pc(s: State, info: InstructionInfo, k: u8) -> u16 {
    match jump_spec(s, info, k) {
        Some(t) => t,
        None => ((s.registers.pc + mode_size(info.mode)) % 0x10000) as u16,
    }
}

/// A documented opcode that runs on to the instruction after it: no jump,
/// call, return, break or branch.
pub open spec fn straight_line(op: u8) -> bool {
    decode(op) matches Some(info) && !jumps(info.instruction) && info.mode
        != AddressType::Relative
}

/// The CPU: registers, bus, pipeline latches, clock and timing.
#[derive(Debug, Clone)]
pub struct State {
    pub registers: Registers,
    /// Cycles since reset.
    pub total_cycles: u64,
    /// Address bus.
    pub ab: u16,
    /// Data bus.
    pub db: u8,
    /// Read (true) or write (false).
    pub rw: bool,
    /// The opcode being run.
    pub ir: u8,
    /// The byte latched from the data bus in the last cycle.
    pub pd: u8,
    pub clock1: bool,
    pub clock2: bool,
    pub timing: TimingState,
    pub next_timing: TimingState,
    /// Set during an opcode fetch.
    pub sync: bool,
    pub res: bool,
    pub irq: bool,
    pub nmi: bool,
    /// Low and high byte of the effective address being built.
    pub adl: u8,
    pub adh: u8,
    /// Base address of an indexed indirect read; saved low byte of a jump.
    pub bal: u8,
    /// The operand of a read-modify-write.
    pub data: u8,
    /// The cycle at which the instruction's memory access starts.
    pub access: u8,
    /// The indexed address crossed a page and its high byte needs a carry.
    pub carry_fix: bool,
    /// The vector that the running break sequence loads.
    pub vector: u16,
    /// The running break sequence was forced by reset or an interrupt.
    pub interrupt: bool,
    /// The running break sequence is a reset: its pushes only read.
    pub resetting: bool,
    pub nmi_seen: bool,
    pub nmi_pending: bool,
}

impl State {
    /// The state at power-on, at the start of a clock cycle; a reset then
    /// brings it to the first fetch.
    pub fn new() -> (r: State)
        ensures
            r == State::power_on(),
    {
        State {
            registers: Registers::new(),
            total_cycles: 0,
            ab: 0,
            db: 0,
            rw: true,
            ir: 0,
            pd: 0,
            clock1: true,
            clock2: false,
            timing: TimingState::new(),
            next_timing: TimingState::new(),
            sync: false,
            res: false,
            irq: false,
            nmi: false,
            adl: 0,
            adh: 0,
            bal: 0,
            data: 0,
            access: 0xFF,
            carry_fix: false,
            vector: RESET_VECTOR,
            interrupt: false,
            resetting: false,
            nmi_seen: false,
            nmi_pending: false,
        }
    }
}

impl State {
    pub open spec fn power_on() -> State {
        State {
            registers: Registers::new_spec(),
            total_cycles: 0,
            ab: 0,
            db: 0,
            rw: true,
            ir: 0,
            pd: 0,
            clock1: true,
            clock2: false,
            timing: TimingState { t0: true, ..clear_spec() },
            next_timing: TimingState { t0: true, ..clear_spec() },
            sync: false,
            res: false,
            irq: false,
            nmi: false,
            adl: 0,
            adh: 0,
            bal: 0,
            data: 0,
            access: 0xFF,
            carry_fix: false,
            vector: RESET_VECTOR,
            interrupt: false,
            resetting: false,
            nmi_seen: false,
            nmi_pending: false,
        }
    }
}

impl Registers {
    pub open spec fn new_spec() -> Registers {
        Registers { pc: 0x0000, ac: 0x00, xr: 0x00, yr: 0x00, sr: 0b00000110, sp: 0xFD }
    }
}

/// What an opcode runs as: its table entry, or NOP for an undocumented one.
#[verifier::opaque]
pub open spec fn info_spec(op: u8) -> InstructionInfo {
    match decode(op) {
        Some(info) => info,
        None => InstructionInfo {
            instruction: Instruct::NOP,
            mode: AddressType::Impl,
            cycles: 2,
            extra_cycles: 0,
        },
    }
}

/// The opcode table gives each jump its own modes.
proof fn lemma_table_shaped(op: u8)
    ensures
        table_shaped(info_spec(op)),
{
    reveal(info_spec);
    reveal(decode);
}

proof fn lemma_info_documented(op: u8)
    ensures
        decode(op) is Some ==> info_spec(op) == decode(op)->Some_0,
{
    reveal(info_spec);
}

fn info_of(op: u8) -> (r: InstructionInfo)
    ensures
        r == info_spec(op),
{
    reveal(info_spec);
    match Instruct::from_op_code(op) {
        Some(info) => info,
        None => InstructionInfo {
            instruction: Instruct::NOP,
            mode: AddressType::Impl,
            cycles: 2,
            extra_cycles: 0,
        },
    }
}

/// The address with high byte `hi` and low byte `lo`.
fn word(hi: u8, lo: u8) -> (r: u16)
    ensures
        r == hi * 256 + lo,
        r == word_spec(hi, lo),
{
    hi as u16 * 256 + lo as u16
}

/// Binary ADC of the latched operand into the accumulator, setting C, V, N
/// and Z. Decimal mode is not modelled.
fn ins_adc(state: &mut State)
    ensures
        *final(state) == (State {
            registers: Registers {
                ac: add_with_carry_spec(old(state).registers.ac, old(state).pd, flags_set(old(state).registers.sr, CARRY)).0,
                sr: nz(
                    with_flags(
                        with_flags(old(state).registers.sr, CARRY, add_with_carry_spec(old(state).registers.ac, old(state).pd, flags_set(old(state).registers.sr, CARRY)).1),
                        OVERFLOW,
                        add_with_carry_spec(old(state).registers.ac, old(state).pd, flags_set(old(state).registers.sr, CARRY)).2,
                    ),
                    add_with_carry_spec(old(state).registers.ac, old(state).pd, flags_set(old(state).registers.sr, CARRY)).0,
                ),
                ..old(state).registers
            },
            ..*old(state)
        }),
{
    let c = state.registers.status_has(CARRY);
    let (v, carry, overflow) = add_with_carry(state.registers.ac, state.pd, c);
    state.registers.ac = v;
    let sr = set_flags(state.registers.sr, CARRY, carry);
    let sr = set_flags(sr, OVERFLOW, overflow);
    state.registers.sr = update_nz(sr, v);
}

/// The registers after a read instruction `ins` with operand `m`.
pub open spec fn read_result(ins: Instruct, r: Registers, m: u8) -> Registers {
    let c = flags_set(r.sr, CARRY);
    match ins {
        Instruct::ADC => {
            let s = add_with_carry_spec(r.ac, m, c);
            Registers { ac: s.0, sr: nz(with_flags(with_flags(r.sr, CARRY, s.1), OVERFLOW, s.2), s.0), ..r }
        },
        Instruct::SBC => {
            let s = add_with_carry_spec(r.ac, (255 - m) as u8, c);
            Registers { ac: s.0, sr: nz(with_flags(with_flags(r.sr, CARRY, s.1), OVERFLOW, s.2), s.0), ..r }
        },
        Instruct::AND => Registers { ac: r.ac & m, sr: nz(r.sr, r.ac & m), ..r },
        Instruct::ORA => Registers { ac: r.ac | m, sr: nz(r.sr, r.ac | m), ..r },
        Instruct::EOR => Registers { ac: r.ac ^ m, sr: nz(r.sr, r.ac ^ m), ..r },
        Instruct::BIT => Registers {
            sr: with_flags(
                with_flags(with_flags(r.sr, ZERO, r.ac & m == 0), NEGATIVE, m & NEGATIVE == NEGATIVE),
                OVERFLOW,
                m & OVERFLOW == OVERFLOW,
            ),
            ..r
        },
        Instruct::CMP => Registers { sr: compare_spec(r.sr, r.ac, m), ..r },
        Instruct::CPX => Registers { sr: compare_spec(r.sr, r.xr, m), ..r },
        Instruct::CPY => Registers { sr: compare_spec(r.sr, r.yr, m), ..r },
        Instruct::LDA => Registers { ac: m, sr: nz(r.sr, m), ..r },
        Instruct::LDX => Registers { xr: m, sr: nz(r.sr, m), ..r },
        Instruct::LDY => Registers { yr: m, sr: nz(r.sr, m), ..r },
        _ => r,
    }
}

/// The registers after a one-cycle implied instruction `ins`.
pub open spec fn implied_result(ins: Instruct, r: Registers) -> Registers {
    match ins {
        Instruct::CLC => Registers { sr: with_flags(r.sr, CARRY, false), ..r },
        Instruct::SEC => Registers { sr: with_flags(r.sr, CARRY, true), ..r },
        Instruct::CLD => Registers { sr: with_flags(r.sr, DECIMAL, false), ..r },
        Instruct::SED => Registers { sr: with_flags(r.sr, DECIMAL, true), ..r },
        Instruct::CLI => Registers { sr: with_flags(r.sr, INTERRUPT, false), ..r },
        Instruct::SEI => Registers { sr: with_flags(r.sr, INTERRUPT, true), ..r },
        Instruct::CLV => Registers { sr: with_flags(r.sr, OVERFLOW, false), ..r },
        Instruct::DEX => {
            let v = ((r.xr + 255) % 256) as u8;
            Registers { xr: v, sr: nz(r.sr, v), ..r }
        },
        Instruct::DEY => {
            let v = ((r.yr + 255) % 256) as u8;
            Registers { yr: v, sr: nz(r.sr, v), ..r }
        },
        Instruct::INX => {
            let v = ((r.xr + 1) % 256) as u8;
            Registers { xr: v, sr: nz(r.sr, v), ..r }
        },
        Instruct::INY => {
            let v = ((r.yr + 1) % 256) as u8;
            Registers { yr: v, sr: nz(r.sr, v), ..r }
        },
        Instruct::TAX => Registers { xr: r.ac, sr: nz(r.sr, r.ac), ..r },
        Instruct::TAY => Registers { yr: r.ac, sr: nz(r.sr, r.ac), ..r },
        Instruct::TSX => Registers { xr: r.sp, sr: nz(r.sr, r.sp), ..r },
        Instruct::TXA => Registers { ac: r.xr, sr: nz(r.sr, r.xr), ..r },
        Instruct::TXS => Registers { sp: r.xr, ..r },
        Instruct::TYA => Registers { ac: r.yr, sr: nz(r.sr, r.yr), ..r },
        _ => r,
    }
}

/// Implied mnemonics that take the stack or the program counter, and so
/// more than one cycle after the fetch.
pub open spec fn uses_stack(ins: Instruct) -> bool {
    ins == Instruct::BRK || ins == Instruct::PHA || ins == Instruct::PHP || ins == Instruct::PLA
        || ins == Instruct::PLP || ins == Instruct::RTS || ins == Instruct::RTI
}

/// The registers, but for the program counter, after an instruction that
/// finishes in the cycle after its fetch, given the byte read in that
/// cycle; `None` for longer instructions.
#[verifier::opaque]
pub open spec fn one_cycle_result(info: InstructionInfo, r: Registers, m: u8) -> Option<Registers> {
    match info.mode {
        AddressType::Immediate => Some(read_result(info.instruction, r, m)),
        AddressType::Accumulator => {
            let (v, sr) = modify_spec(info.instruction, r.ac, r.sr);
            Some(Registers { ac: v, sr, ..r })
        },
        AddressType::Impl => if uses_stack(info.instruction) {
            None
        } else {
            Some(implied_result(info.instruction, r))
        },
        _ => None,
    }
}

/// Runs a read instruction on operand `m`.
fn execute_read(state: &mut State, ins: Instruct, m: u8)
    requires
        old(state).pd == m,
    ensures
        *final(state) == (State { registers: read_result(ins, old(state).registers, m), ..*old(state) }),
{
    if ins == Instruct::ADC {
        ins_adc(state);
    } else {
        state.registers = read_registers(ins, state.registers, m);
    }
}

/// The registers after read instruction `ins` with operand `m`.
fn read_registers(ins: Instruct, r: Registers, m: u8) -> (out: Registers)
    ensures
        out == read_result(ins, r, m),
{
    let sr = r.sr;
    match ins {
        Instruct::ADC | Instruct::SBC => {
            let c = (sr & CARRY) == CARRY;
            let (v, carry, overflow) = if ins == Instruct::ADC {
                add_with_carry(r.ac, m, c)
            } else {
                subtract_with_borrow(r.ac, m, c)
            };
            Registers { ac: v, sr: update_nz(set_flags(set_flags(sr, CARRY, carry), OVERFLOW, overflow), v), ..r }
        },
        Instruct::AND => Registers { ac: r.ac & m, sr: update_nz(sr, r.ac & m), ..r },
        Instruct::ORA => Registers { ac: r.ac | m, sr: update_nz(sr, r.ac | m), ..r },
        Instruct::EOR => Registers { ac: r.ac ^ m, sr: update_nz(sr, r.ac ^ m), ..r },
        Instruct::BIT => {
            let z = set_flags(sr, ZERO, r.ac & m == 0);
            let n = set_flags(z, NEGATIVE, m & NEGATIVE == NEGATIVE);
            Registers { sr: set_flags(n, OVERFLOW, m & OVERFLOW == OVERFLOW), ..r }
        },
        Instruct::CMP => Registers { sr: compare(sr, r.ac, m), ..r },
        Instruct::CPX => Registers { sr: compare(sr, r.xr, m), ..r },
        Instruct::CPY => Registers { sr: compare(sr, r.yr, m), ..r },
        Instruct::LDA => Registers { ac: m, sr: update_nz(sr, m), ..r },
        Instruct::LDX => Registers { xr: m, sr: update_nz(sr, m), ..r },
        Instruct::LDY => Registers { yr: m, sr: update_nz(sr, m), ..r },
        _ => r,
    }
}

/// Runs a one-cycle implied instruction.
fn execute_implied(state: &mut State, ins: Instruct)
    ensures
        *final(state) == (State { registers: implied_result(ins, old(state).registers), ..*old(state) }),
{
    state.registers = implied_registers(ins, state.registers);
}

/// The registers after one-cycle implied instruction `ins`.
fn implied_registers(ins: Instruct, r: Registers) -> (out: Registers)
    ensures
        out == implied_result(ins, r),
{
    match ins {
        Instruct::CLC => Registers { sr: set_flags(r.sr, CARRY, false), ..r },
        Instruct::SEC => Registers { sr: set_flags(r.sr, CARRY, true), ..r },
        Instruct::CLD => Registers { sr: set_flags(r.sr, DECIMAL, false), ..r },
        Instruct::SED => Registers { sr: set_flags(r.sr, DECIMAL, true), ..r },
        Instruct::CLI => Registers { sr: set_flags(r.sr, INTERRUPT, false), ..r },
        Instruct::SEI => Registers { sr: set_flags(r.sr, INTERRUPT, true), ..r },
        Instruct::CLV => Registers { sr: set_flags(r.sr, OVERFLOW, false), ..r },
        Instruct::DEX => {
            let v = ((r.xr as u16 + 255) % 256) as u8;
            Registers { xr: v, sr: update_nz(r.sr, v), ..r }
        },
        Instruct::DEY => {
            let v = ((r.yr as u16 + 255) % 256) as u8;
            Registers { yr: v, sr: update_nz(r.sr, v), ..r }
        },
        Instruct::INX => {
            let v = ((r.xr as u16 + 1) % 256) as u8;
            Registers { xr: v, sr: update_nz(r.sr, v), ..r }
        },
        Instruct::INY => {
            let v = ((r.yr as u16 + 1) % 256) as u8;
            Registers { yr: v, sr: update_nz(r.sr, v), ..r }
        },
        Instruct::TAX => Registers { xr: r.ac, sr: update_nz(r.sr, r.ac), ..r },
        Instruct::TAY => Registers { yr: r.ac, sr: update_nz(r.sr, r.ac), ..r },
        Instruct::TSX => Registers { xr: r.sp, sr: update_nz(r.sr, r.sp), ..r },
        Instruct::TXA => Registers { ac: r.xr, sr: update_nz(r.sr, r.xr), ..r },
        Instruct::TXS => Registers { sp: r.xr, ..r },
        Instruct::TYA => Registers { ac: r.yr, sr: update_nz(r.sr, r.yr), ..r },
        _ => r,
    }
}

/// The clock and the cycle count stay.
pub open spec fn frame(old: State, new: State) -> bool {
    &&& new.res == old.res
    &&& new.irq == old.irq
    &&& new.nmi == old.nmi
    &&& new.clock1 == old.clock1
    &&& new.clock2 == old.clock2
    &&& new.total_cycles == old.total_cycles
}

/// The contract shared by the cycle handlers of the second clock phase:
/// the bus and the program counter stay, and only instructions that jump
/// or branch name a new program counter.
pub open spec fn handler_ok(old: State, new: State, ins: Instruct, mode: AddressType, r: (bool, Option<u16>)) -> bool {
    &&& new.registers.pc == old.registers.pc
    &&& frame(old, new)
    &&& new.ir == old.ir
    &&& new.pd == old.pd
    &&& new.ab == old.ab
    &&& new.db == old.db
    &&& new.rw == old.rw
    &&& (r.1 is Some ==> jumps(ins) || mode == AddressType::Relative)
}

/// What every cycle handler keeps to: it reports the instruction's last
/// cycle, sets the address latches and the operand as specified, and leaves
/// the timing, vector and interrupt bookkeeping to its caller.
pub open spec fn cycle_ok(s: State, new: State, info: InstructionInfo, k: u8, r: (bool, Option<u16>)) -> bool {
    &&& r.0 == last_cycle(s, info, k)
    &&& (new.adl, new.adh, new.bal, new.access, new.carry_fix) == latches_next(s, info, k)
    &&& new.data == data_next(s, info, k)
    &&& new.vector == s.vector
    &&& new.interrupt == s.interrupt
    &&& new.resetting == s.resetting
    &&& new.timing == s.timing
    &&& new.next_timing == s.next_timing
    &&& new.sync == s.sync
    &&& new.nmi_seen == s.nmi_seen
    &&& new.nmi_pending == s.nmi_pending
}

/// Cycle `k` of an implied-mode instruction; returns whether the instruction
/// is done and where it jumps.
#[verifier::rlimit(100)]
#[verifier::spinoff_prover]
fn implied_cycle(state: &mut State, info: InstructionInfo, ins: Instruct, k: u8) -> (r: (bool, Option<u16>))
    requires
        info.instruction == ins,
        info.mode == AddressType::Impl,
    ensures
        handler_ok(*old(state), *final(state), ins, AddressType::Impl, r),
        cycle_ok(
            *old(state),
            *final(state),
            info,
            k,
            r,
        ),
        r.0 && (ins == Instruct::BRK || ins == Instruct::RTI || ins == Instruct::RTS || !jumps(ins)) ==> r.1 == jump_spec(
            *old(state),
            info,
            k,
        ),
        latch_post(
            *old(state),
            *final(state),
            info,
            k,
        ),
        !uses_stack(ins) ==> r == (true, None::<u16>) && final(state).registers == implied_result(
            ins,
            old(state).registers,
        ),
{
    proof {
        lemma_cycle_specs(*state, info, k);
    }
    match ins {
        Instruct::BRK => {
            if k == 2 {
                if state.resetting {
                    state.registers.sp = 0;
                }
                (false, None)
            } else if k == 3 || k == 4 {
                state.registers.sp = state.registers.sp.wrapping_sub(1);
                (false, None)
            } else if k == 5 {
                state.registers.sp = state.registers.sp.wrapping_sub(1);
                state.registers.sr = set_flags(state.registers.sr, INTERRUPT, true);
                (false, None)
            } else if k == 6 {
                state.adl = state.pd;
                (false, None)
            } else if k == 7 {
                (true, Some(word(state.pd, state.adl)))
            } else {
                (false, None)
            }
        },
        Instruct::PHA | Instruct::PHP => {
            if k == 3 {
                state.registers.sp = state.registers.sp.wrapping_sub(1);
                (true, None)
            } else {
                (false, None)
            }
        },
        Instruct::PLA | Instruct::PLP => {
            if k == 3 {
                state.registers.sp = state.registers.sp.wrapping_add(1);
                (false, None)
            } else if k == 4 {
                if ins == Instruct::PLA {
                    state.registers.ac = state.pd;
                    state.registers.sr = update_nz(state.registers.sr, state.pd);
                } else {
                    state.registers.sr = set_flags(set_flags(state.pd, UNUSED, true), BREAK, false);
                }
                (true, None)
            } else {
                (false, None)
            }
        },
        Instruct::RTS => {
            if k == 3 {
                state.registers.sp = state.registers.sp.wrapping_add(1);
                (false, None)
            } else if k == 4 {
                state.adl = state.pd;
                state.registers.sp = state.registers.sp.wrapping_add(1);
                (false, None)
            } else if k == 5 {
                state.adh = state.pd;
                (false, None)
            } else if k == 6 {
                (true, Some(word(state.adh, state.adl).wrapping_add(1)))
            } else {
                (false, None)
            }
        },
        Instruct::RTI => {
            if k == 3 {
                state.registers.sp = state.registers.sp.wrapping_add(1);
                (false, None)
            } else if k == 4 {
                state.registers.sr = set_flags(set_flags(state.pd, UNUSED, true), BREAK, false);
                state.registers.sp = state.registers.sp.wrapping_add(1);
                (false, None)
            } else if k == 5 {
                state.adl = state.pd;
                state.registers.sp = state.registers.sp.wrapping_add(1);
                (false, None)
            } else if k == 6 {
                (true, Some(word(state.pd, state.adl)))
            } else {
                (false, None)
            }
        },
        _ => {
            execute_implied(state, ins);
            (true, None)
        },
    }
}

/// Cycle `k` of a relative branch: two cycles, one more when taken, and one
/// more again when the target lies on another page than the branch.
fn branch_cycle(state: &mut State, info: InstructionInfo, ins: Instruct, k: u8) -> (r: (bool, Option<u16>))
    requires
        info.instruction == ins,
        info.mode == AddressType::Relative,
    ensures
        handler_ok(*old(state), *final(state), ins, AddressType::Relative, r),
        cycle_ok(
            *old(state),
            *final(state),
            info,
            k,
            r,
        ),
        r.0 ==> r.1 == (if k == 2 {
            None
        } else {
            Some(word_spec(old(state).adh, old(state).adl))
        }),
        k == 2 ==> (r.0 <==> !branch_taken(ins, old(state).registers.sr)),
        final(state).registers == old(state).registers,
        k == 2 && !r.0 ==> word_spec(final(state).adh, final(state).adl) == branch_target(
            old(state).registers.pc,
            old(state).pd,
        ),
{
    proof {
        lemma_cycle_specs(*state, info, k);
    }
    let pc = state.registers.pc;
    if k == 2 {
        if !branch_condition(ins, state.registers.sr) {
            return (true, None);
        }
        let target = target_of(pc, state.pd);
        state.adl = (target % 256) as u8;
        state.adh = (target / 256) as u8;
        assert(word_spec(state.adh, state.adl) == target);
        (false, None)
    } else if k == 3 {
        let target = word(state.adh, state.adl);
        if target / 256 == pc / 256 {
            (true, Some(target))
        } else {
            (false, None)
        }
    } else {
        (true, Some(word(state.adh, state.adl)))
    }
}

/// The index register that mode `m` adds.
fn index_for(state: &State, m: AddressType) -> (r: u8)
    ensures
        r == index_spec(*state, m),
{
    match m {
        AddressType::ZeroPageY | AddressType::AbsoluteY | AddressType::IndirectY => state.registers.yr,
        _ => state.registers.xr,
    }
}

/// Cycle `k` of an instruction that reads, writes or modifies memory.
#[verifier::rlimit(100)]
fn memory_cycle(state: &mut State, info: InstructionInfo, k: u8) -> (r: (bool, Option<u16>))
    ensures
        handler_ok(*old(state), *final(state), info.instruction, info.mode, r),
        memory_mode(info) ==> cycle_ok(*old(state), *final(state), info, k, r),
        r.1 is None,
        !r.0 && !(is_modify(info.instruction) && k == old(state).access + 1) ==> final(state).registers
            == old(state).registers,
        r.0 && (is_store(info.instruction) || is_modify(info.instruction)) ==> final(state).registers
            == old(state).registers,
        is_modify(info.instruction) && k == old(state).access + 1 ==> final(state).data
            == modify_spec(info.instruction, old(state).data, old(state).registers.sr).0
            && final(state).registers.sr == modify_spec(
            info.instruction,
            old(state).data,
            old(state).registers.sr,
        ).1,
        r.0 && !is_store(info.instruction) && !is_modify(info.instruction) ==> final(state).registers
            == read_result(info.instruction, old(state).registers, old(state).pd),
{
    proof {
        lemma_cycle_specs(*state, info, k);
    }
    let ins = info.instruction;
    let store = ins == Instruct::STA || ins == Instruct::STX || ins == Instruct::STY;
    let modify_op = ins == Instruct::ASL || ins == Instruct::LSR || ins == Instruct::ROL || ins
        == Instruct::ROR || ins == Instruct::INC || ins == Instruct::DEC;
    if k >= state.access {
        let j = k - state.access;
        if store {
            (true, None)
        } else if modify_op {
            if j == 0 {
                state.data = state.pd;
                (false, None)
            } else if j == 1 {
                let (v, sr) = modify(ins, state.data, state.registers.sr);
                state.data = v;
                state.registers.sr = sr;
                (false, None)
            } else {
                (true, None)
            }
        } else {
            let m = state.pd;
            execute_read(state, ins, m);
            (true, None)
        }
    } else {
        let l = gather_address(state, info, k);
        state.adl = l.0;
        state.adh = l.1;
        state.bal = l.2;
        state.access = l.3;
        state.carry_fix = l.4;
        (false, None)
    }
}

/// The address latches after one cycle of gathering an operand's address.
fn gather_address(state: &State, info: InstructionInfo, k: u8) -> (l: (u8, u8, u8, u8, bool))
    ensures
        l == address_latches(*state, info, k),
{
    let m = info.mode;
    if m == AddressType::ZeroPage || m == AddressType::ZeroPageX || m == AddressType::ZeroPageY {
        gather_zero_page(state, m, k)
    } else if m == AddressType::Absolute || m == AddressType::AbsoluteX || m
        == AddressType::AbsoluteY || m == AddressType::IndirectY {
        gather_indexed(state, info, k)
    } else if m == AddressType::IndirectX {
        gather_indirect_x(state, k)
    } else {
        (state.adl, state.adh, state.bal, state.access, state.carry_fix)
    }
}

fn gather_zero_page(state: &State, m: AddressType, k: u8) -> (l: (u8, u8, u8, u8, bool))
    ensures
        l == zero_page_latches(*state, m, k),
{
    if m == AddressType::ZeroPage {
        (state.pd, 0, state.bal, 3, state.carry_fix)
    } else if k == 2 {
        (state.pd, 0, state.bal, state.access, state.carry_fix)
    } else {
        let idx = index_for(state, m);
        (state.adl.wrapping_add(idx), state.adh, state.bal, 4, state.carry_fix)
    }
}

fn gather_indexed(state: &State, info: InstructionInfo, k: u8) -> (l: (u8, u8, u8, u8, bool))
    ensures
        l == indexed_latches(*state, info, k),
{
    let ins = info.instruction;
    let m = info.mode;
    let store = ins == Instruct::STA || ins == Instruct::STX || ins == Instruct::STY;
    let modify_op = ins == Instruct::ASL || ins == Instruct::LSR || ins == Instruct::ROL || ins
        == Instruct::ROR || ins == Instruct::INC || ins == Instruct::DEC;
    let lo: u8 = if m == AddressType::IndirectY {
        3
    } else {
        2
    };
    let hi: u8 = if m == AddressType::IndirectY {
        4
    } else {
        3
    };
    if m == AddressType::Absolute {
        if k == 2 {
            (state.pd, state.adh, state.bal, state.access, state.carry_fix)
        } else {
            (state.adl, state.pd, state.bal, 4, state.carry_fix)
        }
    } else if m == AddressType::IndirectY && k == 2 {
        (state.adl, state.adh, state.pd, state.access, state.carry_fix)
    } else if k == lo {
        (state.pd, state.adh, state.bal, state.access, state.carry_fix)
    } else if k == hi {
        let idx = index_for(state, m);
        let sum = state.adl as u16 + idx as u16;
        let access = if !store && !modify_op && sum <= 255 {
            hi + 1
        } else {
            hi + 2
        };
        ((sum % 256) as u8, state.pd, state.bal, access, sum > 255)
    } else if state.carry_fix {
        (state.adl, state.adh.wrapping_add(1), state.bal, state.access, state.carry_fix)
    } else {
        (state.adl, state.adh, state.bal, state.access, state.carry_fix)
    }
}

fn gather_indirect_x(state: &State, k: u8) -> (l: (u8, u8, u8, u8, bool))
    ensures
        l == indirect_x_latches(*state, k),
{
    if k == 2 {
        (state.adl, state.adh, state.pd, state.access, state.carry_fix)
    } else if k == 3 {
        (state.adl, state.adh, state.bal.wrapping_add(state.registers.xr), state.access, state.carry_fix)
    } else if k == 4 {
        (state.pd, state.adh, state.bal, state.access, state.carry_fix)
    } else {
        (state.adl, state.pd, state.bal, 6, state.carry_fix)
    }
}

/// Cycle `k` of the instruction in `info`.
#[verifier::rlimit(100)]
fn execute(state: &mut State, info: InstructionInfo, k: u8) -> (r: (bool, Option<u16>))
    requires
        table_shaped(info),
    ensures
        cycle_ok(*old(state), *final(state), info, k, r),
        latch_post(*old(state), *final(state), info, k),
        !r.0 && !uses_stack(info.instruction) && info.instruction != Instruct::JSR && !(memory_mode(
            info,
        ) && is_modify(info.instruction) && k == old(state).access + 1) ==> final(state).registers
            == old(state).registers,
        r.0 ==> r.1 == jump_spec(*old(state), info, k),
        info.mode == AddressType::Relative && k == 2 ==> (r.0 <==> !branch_taken(
            info.instruction,
            old(state).registers.sr,
        )),
        info.mode == AddressType::Relative && k == 2 && !r.0 ==> word_spec(final(state).adh, final(state).adl)
            == branch_target(old(state).registers.pc, old(state).pd),
        memory_mode(info) && (is_store(info.instruction) || is_modify(info.instruction)) && r.0
            ==> final(state).registers == old(state).registers,
        memory_mode(info) && is_modify(info.instruction) && k == old(state).access + 1 ==> final(state).data == modify_spec(info.instruction, old(state).data, old(state).registers.sr).0
            && final(state).registers.sr == modify_spec(
            info.instruction,
            old(state).data,
            old(state).registers.sr,
        ).1,
        handler_ok(*old(state), *final(state), info.instruction, info.mode, r),
        one_cycle_result(info, old(state).registers, old(state).pd) matches Some(regs) ==> r == (
        true, None::<u16>) && final(state).registers == regs,
        memory_read(info) && r.0 ==> final(state).registers == read_result(
            info.instruction,
            old(state).registers,
            old(state).pd,
        ),
{
    proof {
        reveal(last_cycle);
        reveal(latches_next);
    }
    reveal(one_cycle_result);
    let ins = info.instruction;
    match info.mode {
        AddressType::Impl => implied_cycle(state, info, ins, k),
        AddressType::Accumulator => {
            let (v, sr) = modify(ins, state.registers.ac, state.registers.sr);
            state.registers.ac = v;
            state.registers.sr = sr;
            (true, None)
        },
        AddressType::Immediate => {
            let m = state.pd;
            execute_read(state, ins, m);
            (true, None)
        },
        AddressType::Relative => branch_cycle(state, info, ins, k),
        AddressType::Indirect => {
            if k == 2 {
                state.adl = state.pd;
                (false, None)
            } else if k == 3 {
                state.adh = state.pd;
                (false, None)
            } else if k == 4 {
                state.bal = state.pd;
                (false, None)
            } else {
                (true, Some(word(state.pd, state.bal)))
            }
        },
        _ => {
            if ins == Instruct::JMP {
                if k == 2 {
                    state.adl = state.pd;
                    (false, None)
                } else {
                    (true, Some(word(state.pd, state.adl)))
                }
            } else if ins == Instruct::JSR {
                if k == 2 {
                    state.adl = state.pd;
                    (false, None)
                } else if k == 4 || k == 5 {
                    state.registers.sp = state.registers.sp.wrapping_sub(1);
                    (false, None)
                } else if k == 6 {
                    (true, Some(word(state.pd, state.adl)))
                } else {
                    (false, None)
                }
            } else {
                memory_cycle(state, info, k)
            }
        },
    }
}

/// The latches that the first clock phase leaves alone.
pub open spec fn latches_same(old: State, new: State) -> bool {
    &&& new.pd == old.pd
    &&& new.adl == old.adl
    &&& new.adh == old.adh
    &&& new.bal == old.bal
    &&& new.data == old.data
    &&& new.access == old.access
    &&& new.carry_fix == old.carry_fix
    &&& new.vector == old.vector
    &&& new.interrupt == old.interrupt
    &&& new.resetting == old.resetting
    &&& new.nmi_seen == old.nmi_seen
    &&& new.nmi_pending == old.nmi_pending
}

/// The first clock phase from `old`: the next timing state takes over, the
/// opcode is latched in the first cycle after a fetch, and the bus carries
/// this cycle's address, direction and (for a write) data. A reset
/// sequence never writes.
pub open spec fn phase1_post(old: State, new: State) -> bool {
    let t = old.next_timing;
    let k = cycle_spec(t);
    let info = info_spec(new.ir);
    let ins = info.instruction;
    let access = !t.t1 && memory_mode(info) && k >= old.access;
    &&& new.timing == t
    &&& new.next_timing == clear_spec()
    &&& new.registers == old.registers
    &&& frame(old, new)
    &&& latches_same(old, new)
    &&& new.sync == t.t1
    &&& t.t1 ==> new.ab == old.registers.pc && new.rw && new.ir == old.ir
    &&& !t.t1 && k == 2 ==> new.ir == (if old.resetting || old.interrupt {
        0u8
    } else {
        old.pd
    })
    &&& !t.t1 && k != 2 ==> new.ir == old.ir
    &&& !t.t1 && k == 2 && !access ==> new.ab == ((old.registers.pc + 1) % 0x10000) as u16
        && new.rw
    &&& old.resetting && ins == Instruct::BRK ==> new.rw
    &&& access ==> new.ab == word_spec(old.adh, old.adl)
    &&& access && is_store(ins) ==> !new.rw && new.db == store_value(ins, old.registers)
    &&& access && is_modify(ins) && k > old.access ==> !new.rw && new.db == old.data
    &&& access && !is_store(ins) && !(is_modify(ins) && k > old.access) ==> new.rw
    &&& !t.t1 && ins == Instruct::BRK && k == 6 ==> new.ab == old.vector && new.rw
    &&& !t.t1 && ins == Instruct::BRK && k == 7 ==> new.ab == ((old.vector + 1) % 0x10000) as u16
        && new.rw
}

/// An edge on the NMI line is waiting to be served.
pub open spec fn nmi_due(s: State) -> bool {
    s.nmi_pending || (s.nmi && !s.nmi_seen)
}

/// `old` after the second phase latches the data bus and samples NMI.
pub open spec fn latched(old: State) -> State {
    State { pd: old.db, nmi_pending: nmi_due(old), nmi_seen: old.nmi, ..old }
}

/// The second phase of a fetch cycle from `s` (data bus latched in `s.pd`):
/// when NMI or an unmasked IRQ is due, a break is marked to run in place of
/// the fetched opcode; the first cycle after the fetch is scheduled.
pub open spec fn fetch_post(s: State, new: State) -> bool {
    let take = s.nmi_pending || (s.irq && !flags_set(s.registers.sr, INTERRUPT));
    let info = info_spec(s.pd);
    new == State {
        interrupt: take,
        vector: if s.nmi_pending {
            NMI_VECTOR
        } else {
            IRQ_VECTOR
        },
        nmi_pending: false,
        registers: Registers {
            sr: if take {
                with_flags(s.registers.sr, BREAK, false)
            } else {
                s.registers.sr
            },
            ..s.registers
        },
        access: 0xFF,
        carry_fix: false,
        next_timing: TimingState {
            t2: true,
            t0: !take && info.cycles == 2 && info.mode != AddressType::Relative,
            ..clear_spec()
        },
        ..s
    }
}

/// The second phase of cycle `k` (2 to 7) of the running instruction from
/// `s` (data bus latched in `s.pd`): the cycle after, or the next fetch with
/// the program counter and registers that the instruction leaves.
pub open spec fn advance_post(s: State, new: State) -> bool {
    let k = cycle_spec(s.timing);
    let info = info_spec(s.ir);
    let ins = info.instruction;
    let done = new.next_timing.t1 && k < 7;
    let pc = completion_pc(s, info, k);
    &&& frame(s, new)
    &&& latch_post(s, new, info, k)
    &&& new.next_timing == (if last_cycle(s, info, k) || k >= 7 {
        TimingState { t1: true, ..clear_spec() }
    } else {
        timing_spec((k + 1) as u8)
    })
    &&& (new.adl, new.adh, new.bal, new.access, new.carry_fix) == latches_next(s, info, k)
    &&& new.data == data_next(s, info, k)
    &&& new.vector == s.vector
    &&& new.interrupt == (s.interrupt && !new.next_timing.t1)
    &&& new.resetting == (s.resetting && !new.next_timing.t1)
    &&& new.timing == s.timing && new.sync == s.sync
    &&& new.nmi_seen == s.nmi_seen && new.nmi_pending == s.nmi_pending
    &&& !new.next_timing.t1 && !uses_stack(ins) && ins != Instruct::JSR && !(memory_mode(info)
        && is_modify(ins) && k == s.access + 1) ==> new.registers == s.registers
    &&& new.ab == s.ab && new.db == s.db && new.rw == s.rw && new.ir == s.ir && new.pd == s.pd
    &&& new.next_timing.t1 || (cycle_spec(new.next_timing) == k + 1 && new.registers.pc
        == s.registers.pc)
    &&& done ==> new.registers.pc == pc
    &&& new.next_timing.t1 && straight_line(s.ir) ==> new.registers.pc as int == (s.registers.pc
        + mode_size(decode(s.ir)->Some_0.mode)) % 0x10000
    &&& s.timing.t2 ==> (one_cycle_result(info, s.registers, s.pd) matches Some(regs)
        ==> new.registers == (Registers { pc, ..regs }))
    &&& done && memory_read(info) ==> new.registers == (Registers {
        pc,
        ..read_result(ins, s.registers, s.pd)
    })
    &&& done && memory_mode(info) && (is_store(ins) || is_modify(ins)) ==> new.registers == (
    Registers { pc, ..s.registers })
    &&& memory_mode(info) && is_modify(ins) && k == s.access + 1 ==> new.data == modify_spec(
        ins,
        s.data,
        s.registers.sr,
    ).0 && new.registers.sr == modify_spec(ins, s.data, s.registers.sr).1
    &&& info.mode == AddressType::Relative && k == 2 ==> (new.next_timing.t1 <==> !branch_taken(
        ins,
        s.registers.sr,
    ))
    &&& info.mode == AddressType::Relative && k == 2 && !new.next_timing.t1 ==> word_spec(
        new.adh,
        new.adl,
    ) == branch_target(s.registers.pc, s.pd)
}

/// The second clock phase from `old`.
pub open spec fn phase2_post(old: State, new: State) -> bool {
    &&& old.timing.t1 ==> fetch_post(latched(old), new)
    &&& !old.timing.t1 ==> advance_post(latched(old), new)
}

/// What holding reset does: the CPU stalls with the break sequence
/// scheduled to load the reset vector, and nothing else changes.
pub open spec fn reset_post(old: State, new: State) -> bool {
    new == State {
        next_timing: TimingState { t2: true, ..clear_spec() },
        ir: 0,
        registers: Registers { sr: old.registers.sr & !BREAK, ..old.registers },
        access: 0xFF,
        clock1: true,
        clock2: false,
        total_cycles: 0,
        interrupt: true,
        resetting: true,
        vector: RESET_VECTOR,
        ..old
    }
}

/// What one half-step does from `old`.
pub open spec fn step_post(old: State, new: State) -> bool {
    if old.res {
        reset_post(old, new)
    } else if old.clock1 {
        phase1_post(
            State {
                clock1: false,
                clock2: true,
                total_cycles: ((old.total_cycles + 1) % 0x1_0000_0000_0000_0000) as u64,
                ..old
            },
            new,
        )
    } else if old.clock2 {
        phase2_post(State { clock1: true, clock2: false, ..old }, new)
    } else {
        new == old
    }
}

/// The first clock phase: puts this cycle's address, and for a write its
/// data, on the bus.
#[verifier::rlimit(100)]
fn step1(state: &mut State)
    ensures
        phase1_post(*old(state), *final(state)),
{
    state.timing = state.next_timing;
    state.next_timing = TimingState::clear();
    state.rw = true;
    state.sync = false;
    let pc = state.registers.pc;
    if state.timing.t1 {
        state.sync = true;
        state.ab = pc;
        return;
    }
    let k = cycle_of(&state.timing);
    if k == 2 {
        state.ir = if state.resetting || state.interrupt {
            0
        } else {
            state.pd
        };
    }
    let info = info_of(state.ir);
    proof {
        lemma_table_shaped(state.ir);
    }
    drive_bus(state, info, k);
}

/// Bus outputs of cycle `k` of the instruction in `info`, from `old`: only
/// the address, the direction and the data change.
pub open spec fn bus_post(old: State, new: State, info: InstructionInfo, k: u8) -> bool {
    let ins = info.instruction;
    let access = memory_mode(info) && k >= old.access;
    &&& new == State { ab: new.ab, rw: new.rw, db: new.db, ..old }
    &&& k == 2 && !access ==> new.ab == ((old.registers.pc + 1) % 0x10000) as u16 && new.rw
    &&& old.resetting && ins == Instruct::BRK ==> new.rw
    &&& access ==> new.ab == word_spec(old.adh, old.adl)
    &&& access && is_store(ins) ==> !new.rw && new.db == store_value(ins, old.registers)
    &&& access && is_modify(ins) && k > old.access ==> !new.rw && new.db == old.data
    &&& access && !is_store(ins) && !(is_modify(ins) && k > old.access) ==> new.rw
    &&& ins == Instruct::BRK && k == 6 ==> new.ab == old.vector && new.rw
    &&& ins == Instruct::BRK && k == 7 ==> new.ab == ((old.vector + 1) % 0x10000) as u16 && new.rw
    &&& (ins == Instruct::JMP || ins == Instruct::JSR) && k == 2 ==> new.ab == ((old.registers.pc
        + 1) % 0x10000) as u16 && new.rw
    &&& ins == Instruct::JMP && k == 3 ==> new.ab == ((old.registers.pc + 2) % 0x10000) as u16
        && new.rw
    &&& ins == Instruct::JMP && info.mode == AddressType::Indirect && k == 4 ==> new.ab
        == word_spec(old.adh, old.adl) && new.rw
    &&& ins == Instruct::JMP && info.mode == AddressType::Indirect && k == 5 ==> new.ab
        == word_spec(old.adh, ((old.adl + 1) % 256) as u8) && new.rw
}

/// Puts the address, direction and data of cycle `k` of the instruction in
/// `info` on the bus.
#[verifier::rlimit(100)]
fn drive_bus(state: &mut State, info: InstructionInfo, k: u8)
    requires
        table_shaped(info),
        k <= 7,
        old(state).rw,
    ensures
        bus_post(*old(state), *final(state), info, k),
{
    let pc = state.registers.pc;
    let pc_plus1 = pc.wrapping_add(1);
    let pc_plus2 = pc.wrapping_add(2);
    match info.mode {
        AddressType::Impl => drive_implied(state, info, k),
        AddressType::Accumulator | AddressType::Immediate => state.ab = pc_plus1,
        AddressType::Relative => {
            state.ab = if k == 2 {
                pc_plus1
            } else if k == 3 {
                pc_plus2
            } else {
                word((pc_plus2 / 256) as u8, state.adl)
            };
        },
        AddressType::Indirect => {
            state.ab = if k == 2 {
                pc_plus1
            } else if k == 3 {
                pc_plus2
            } else if k == 4 {
                word(state.adh, state.adl)
            } else {
                word(state.adh, state.adl.wrapping_add(1))
            };
        },
        _ => drive_memory(state, info, k),
    }
}

/// The bus in cycle `k` of an implied-mode instruction.
#[verifier::rlimit(60)]
fn drive_implied(state: &mut State, info: InstructionInfo, k: u8)
    requires
        table_shaped(info),
        info.mode == AddressType::Impl,
        k <= 7,
        old(state).rw,
    ensures
        bus_post(*old(state), *final(state), info, k),
{
    let ins = info.instruction;
    let pc = state.registers.pc;
    let pc_plus1 = pc.wrapping_add(1);
    let pc_plus2 = pc.wrapping_add(2);
    let stack = 0x0100u16 + state.registers.sp as u16;
    let r = state.registers;
    match ins {
        Instruct::BRK => {
            if k == 2 {
                state.ab = pc_plus1;
            } else if k <= 5 {
                state.ab = stack;
                let ret = if state.interrupt {
                    pc
                } else {
                    pc_plus2
                };
                if !state.resetting {
                    state.rw = false;
                    state.db = if k == 3 {
                        (ret / 256) as u8
                    } else if k == 4 {
                        (ret % 256) as u8
                    } else if state.interrupt {
                        set_flags(set_flags(r.sr, BREAK, false), UNUSED, true)
                    } else {
                        set_flags(set_flags(r.sr, BREAK, true), UNUSED, true)
                    };
                }
            } else if k == 6 {
                state.ab = state.vector;
            } else {
                state.ab = state.vector.wrapping_add(1);
            }
        },
        Instruct::PHA | Instruct::PHP => {
            if k == 2 {
                state.ab = pc_plus1;
            } else {
                state.ab = stack;
                state.rw = false;
                state.db = if ins == Instruct::PHA {
                    r.ac
                } else {
                    set_flags(set_flags(r.sr, BREAK, true), UNUSED, true)
                };
            }
        },
        Instruct::PLA | Instruct::PLP | Instruct::RTI => {
            state.ab = if k == 2 {
                pc_plus1
            } else {
                stack
            };
        },
        Instruct::RTS => {
            state.ab = if k == 2 {
                pc_plus1
            } else if k <= 5 {
                stack
            } else {
                word(state.adh, state.adl)
            };
        },
        _ => state.ab = pc_plus1,
    }
}

/// The bus in cycle `k` of an instruction that addresses memory or jumps
/// to an absolute address.
#[verifier::rlimit(100)]
fn drive_memory(state: &mut State, info: InstructionInfo, k: u8)
    requires
        table_shaped(info),
        info.mode != AddressType::Impl && info.mode != AddressType::Accumulator && info.mode
            != AddressType::Immediate && info.mode != AddressType::Relative && info.mode
            != AddressType::Indirect,
        k <= 7,
        old(state).rw,
    ensures
        bus_post(*old(state), *final(state), info, k),
{
    let ins = info.instruction;
    let pc = state.registers.pc;
    let pc_plus1 = pc.wrapping_add(1);
    let pc_plus2 = pc.wrapping_add(2);
    let stack = 0x0100u16 + state.registers.sp as u16;
        if ins == Instruct::JMP {
            state.ab = if k == 2 {
                pc_plus1
            } else {
                pc_plus2
            };
        } else if ins == Instruct::JSR {
            if k == 2 {
                state.ab = pc_plus1;
            } else if k == 3 {
                state.ab = stack;
            } else if k == 4 || k == 5 {
                state.ab = stack;
                state.rw = false;
                state.db = if k == 4 {
                    (pc_plus2 / 256) as u8
                } else {
                    (pc_plus2 % 256) as u8
                };
            } else {
                state.ab = pc_plus2;
            }
        } else if k >= state.access {
            drive_access(state, info, k);
        } else {
            state.ab = address_cycle(state, info.mode, k);
        }
}

/// The bus in the cycles where an instruction reads or writes its operand
/// in memory.
fn drive_access(state: &mut State, info: InstructionInfo, k: u8)
    requires
        memory_mode(info),
        k >= old(state).access,
        old(state).rw,
    ensures
        bus_post(*old(state), *final(state), info, k),
{
    let ins = info.instruction;
    let r = state.registers;
    let j = k - state.access;
    state.ab = word(state.adh, state.adl);
    if ins == Instruct::STA || ins == Instruct::STX || ins == Instruct::STY {
        state.rw = false;
        state.db = if ins == Instruct::STA {
            r.ac
        } else if ins == Instruct::STX {
            r.xr
        } else {
            r.yr
        };
    } else if (ins == Instruct::ASL || ins == Instruct::LSR || ins == Instruct::ROL || ins
        == Instruct::ROR || ins == Instruct::INC || ins == Instruct::DEC) && j >= 1 {
        state.rw = false;
        state.db = state.data;
    }
}

/// The address read in cycle `k` while an instruction in mode `mode`
/// gathers its operand's address.
fn address_cycle(state: &State, mode: AddressType, k: u8) -> (ab: u16)
    ensures
        k == 2 ==> ab == ((state.registers.pc + 1) % 0x10000) as u16,
{
    let pc_plus1 = state.registers.pc.wrapping_add(1);
    let pc_plus2 = state.registers.pc.wrapping_add(2);
    match mode {
        AddressType::ZeroPageX | AddressType::ZeroPageY => if k == 2 {
            pc_plus1
        } else {
            state.adl as u16
        },
        AddressType::Absolute | AddressType::AbsoluteX | AddressType::AbsoluteY => if k == 2 {
            pc_plus1
        } else if k == 3 {
            pc_plus2
        } else {
            word(state.adh, state.adl)
        },
        AddressType::IndirectX => if k == 2 {
            pc_plus1
        } else if k <= 4 {
            state.bal as u16
        } else {
            state.bal.wrapping_add(1) as u16
        },
        AddressType::IndirectY => if k == 2 {
            pc_plus1
        } else if k == 3 {
            state.bal as u16
        } else if k == 4 {
            state.bal.wrapping_add(1) as u16
        } else {
            word(state.adh, state.adl)
        },
        _ => pc_plus1,
    }
}

/// The fetch cycle's second phase: takes the opcode, or a break in its
/// place when an interrupt is due, and schedules its first cycle.
fn fetch_done(state: &mut State)
    ensures
        fetch_post(*old(state), *final(state)),
{
    if state.nmi_pending {
        state.nmi_pending = false;
        state.interrupt = true;
        state.vector = NMI_VECTOR;
        state.registers.sr = set_flags(state.registers.sr, BREAK, false);
    } else if state.irq && !state.registers.status_has(INTERRUPT) {
        state.interrupt = true;
        state.vector = IRQ_VECTOR;
        state.registers.sr = set_flags(state.registers.sr, BREAK, false);
    } else {
        state.interrupt = false;
        state.vector = IRQ_VECTOR;
    }
    state.access = 0xFF;
    state.carry_fix = false;
    let info = info_of(state.pd);
    let mut t = TimingState::clear();
    t.t2 = true;
    t.t0 = !state.interrupt && info.cycles == 2 && info.mode != AddressType::Relative;
    state.next_timing = t;
}

/// The program counter and timing after cycle `k` of the instruction in
/// `info`, given what its handler reported: the next fetch from the target
/// or the next instruction when the cycle was its last, else the next cycle.
pub open spec fn schedule_post(old: State, new: State, info: InstructionInfo, k: u8, r: (bool, Option<u16>)) -> bool {
    let last = r.0 || k >= 7;
    new == State {
        registers: Registers {
            pc: if last {
                match r.1 {
                    Some(t) => t,
                    None => ((old.registers.pc + mode_size(info.mode)) % 0x10000) as u16,
                }
            } else {
                old.registers.pc
            },
            ..old.registers
        },
        interrupt: old.interrupt && !last,
        resetting: old.resetting && !last,
        next_timing: if last {
            TimingState { t1: true, ..clear_spec() }
        } else {
            timing_spec((k + 1) as u8)
        },
        ..old
    }
}

fn schedule(state: &mut State, info: InstructionInfo, k: u8, r: (bool, Option<u16>))
    requires
        1 <= k <= 7,
    ensures
        schedule_post(*old(state), *final(state), info, k, r),
{
    if r.0 || k >= 7 {
        state.registers.pc = match r.1 {
            Some(target) => target,
            None => state.registers.pc.wrapping_add(info.mode.size() as u16),
        };
        state.interrupt = false;
        state.resetting = false;
        let mut t = TimingState::clear();
        t.t1 = true;
        state.next_timing = t;
    } else {
        state.next_timing = timing_for(k + 1);
    }
}

/// The second phase of a cycle after the fetch: runs this cycle's part of
/// the instruction and schedules the next cycle, or the next fetch when the
/// instruction is done.
#[verifier::rlimit(100)]
#[verifier::spinoff_prover]
fn advance(state: &mut State)
    requires
        !old(state).timing.t1,
    ensures
        advance_post(*old(state), *final(state)),
{
    let k = cycle_of(&state.timing);
    let info = info_of(state.ir);
    proof {
        lemma_table_shaped(state.ir);
        lemma_info_documented(state.ir);
    }
    let r = execute(state, info, k);
    schedule(state, info, k, r);
}

/// The second clock phase: latches the data bus and runs this cycle's part
/// of the instruction.
#[verifier::rlimit(100)]
fn step2(state: &mut State)
    ensures
        phase2_post(*old(state), *final(state)),
{
    state.pd = state.db;
    if state.nmi && !state.nmi_seen {
        state.nmi_pending = true;
    }
    state.nmi_seen = state.nmi;
    assert(*state == latched(*old(state)));
    if state.timing.t1 {
        fetch_done(state);
    } else {
        advance(state);
    }
}

/// One half-step of the clock. With `res` held the CPU stalls and, once
/// `res` drops, runs the reset sequence; otherwise the phases alternate:
/// the first puts an address (and for a write, data) on the bus, the second
/// latches the data bus and runs the cycle. The host services the bus in
/// between.
pub fn step(state: &mut State)
    ensures
        step_post(*old(state), *final(state)),
{
    if state.res {
        let mut t = TimingState::clear();
        t.t2 = true;
        state.next_timing = t;
        state.ir = 0;
        state.registers.sr = state.registers.sr & !BREAK;
        state.access = 0xFF;
        state.clock1 = true;
        state.clock2 = false;
        state.total_cycles = 0;
        state.interrupt = true;
        state.resetting = true;
        state.vector = RESET_VECTOR;
        return;
    }
    if state.clock1 {
        state.total_cycles = state.total_cycles.wrapping_add(1);
        state.clock1 = false;
        state.clock2 = true;
        step1(state);
    } else if state.clock2 {
        state.clock1 = true;
        state.clock2 = false;
        step2(state);
    }
}

/// `s` after the host services its bus from memory `m`: a read puts the
/// addressed byte on the data bus.
pub open spec fn serviced(s: State, m: Seq<u8>) -> State {
    if s.rw {
        State { db: m[s.ab as int], ..s }
    } else {
        s
    }
}

/// Memory `m` after the host services the bus of `s`: a write stores the
/// data bus at the address.
pub open spec fn bus_effect(s: State, m: Seq<u8>) -> Seq<u8> {
    if s.rw {
        m
    } else {
        m.update(s.ab as int, s.db)
    }
}

/// One full clock cycle against `memory`: the first phase, the bus
/// serviced, then the second phase.
pub fn run_cycle(state: &mut State, memory: &mut DefaultMemory)
    requires
        old(memory).wf(),
        old(state).clock1,
        !old(state).clock2,
        !old(state).res,
    ensures
        final(memory).wf(),
        exists|mid: State|
            #![trigger step_post(*old(state), mid)]
            step_post(*old(state), mid) && step_post(serviced(mid, old(memory)@), *final(state))
                && final(memory)@ == bus_effect(mid, old(memory)@),
{
    step(state);
    let ghost mid = *state;
    if state.rw {
        state.db = memory.read(state.ab);
    } else {
        memory.write(state.ab, state.db);
    }
    assert(*state == serviced(mid, old(memory)@));
    step(state);
}

/// One half-step against `memory`: at the start of a cycle (or with reset
/// held) the CPU steps; in the middle of a cycle the bus is serviced first.
pub fn half_step(state: &mut State, memory: &mut DefaultMemory)
    requires
        old(memory).wf(),
    ensures
        final(memory).wf(),
        old(state).res || old(state).clock1 || !old(state).clock2 ==> step_post(
            *old(state),
            *final(state),
        ) && final(memory)@ == old(memory)@,
        !old(state).res && !old(state).clock1 && old(state).clock2 ==> step_post(
            serviced(*old(state), old(memory)@),
            *final(state),
        ) && final(memory)@ == bus_effect(*old(state), old(memory)@),
{
    if state.res || state.clock1 || !state.clock2 {
        step(state);
    } else {
        if state.rw {
            state.db = memory.read(state.ab);
        } else {
            memory.write(state.ab, state.db);
        }
        step(state);
    }
}

/// Writing a flag and then other flags leaves it as written.
proof fn lemma_flag_written(s: u8, f: u8, on: bool)
    requires
        f != 0,
    ensures
        flags_set(with_flags(s, f, on), f) == on,
{
    if on {
        assert((s | f) & f == f) by (bit_vector);
    } else {
        assert(f != 0 ==> (s & !f) & f != f) by (bit_vector);
    }
}

proof fn lemma_flag_kept(s: u8, f: u8, on: bool, g: u8)
    requires
        f & g == 0,
    ensures
        flags_set(with_flags(s, f, on), g) == flags_set(s, g),
{
    if on {
        assert(f & g == 0 ==> (((s | f) & g == g) == (s & g == g))) by (bit_vector);
    } else {
        assert(f & g == 0 ==> (((s & !f) & g == g) == (s & g == g))) by (bit_vector);
    }
}

/// ADC with the carry clear leaves `(a + m) & 0xFF` in the accumulator and
/// sets the carry exactly when `a + m` passes 0xFF.
pub proof fn lemma_adc_carry_clear(a: u8, m: u8, sr: u8)
    requires
        !flags_set(sr, CARRY),
    ensures
        add_with_carry_spec(a, m, flags_set(sr, CARRY)).0 as int == (a + m) % 256,
        add_with_carry_spec(a, m, flags_set(sr, CARRY)).0 == (a + m) as u16 & 0xFF,
        flags_set(
            nz(
                with_flags(
                    with_flags(sr, CARRY, add_with_carry_spec(a, m, flags_set(sr, CARRY)).1),
                    OVERFLOW,
                    add_with_carry_spec(a, m, flags_set(sr, CARRY)).2,
                ),
                add_with_carry_spec(a, m, flags_set(sr, CARRY)).0,
            ),
            CARRY,
        ) == (a + m > 255),
{
    let r = add_with_carry_spec(a, m, false);
    let s1 = with_flags(sr, CARRY, r.1);
    let s2 = with_flags(s1, OVERFLOW, r.2);
    let s3 = with_flags(s2, ZERO, r.0 == 0);
    lemma_flag_written(sr, CARRY, r.1);
    assert(OVERFLOW & CARRY == 0) by (bit_vector);
    assert(ZERO & CARRY == 0) by (bit_vector);
    assert(NEGATIVE & CARRY == 0) by (bit_vector);
    lemma_flag_kept(s1, OVERFLOW, r.2, CARRY);
    lemma_flag_kept(s2, ZERO, r.0 == 0, CARRY);
    lemma_flag_kept(s3, NEGATIVE, negative(r.0), CARRY);
    let sum = (a + m) as u16;
    assert(sum & 0xFF == sum % 256) by (bit_vector);
}

/// `LDA #n` followed by `ADC #m`, with the carry clear, leaves
/// `(n + m) & 0xFF` in the accumulator and sets the carry exactly when
/// `n + m` passes 0xFF, as `step` runs the two instructions.
pub proof fn lemma_lda_then_adc(r: Registers, n: u8, m: u8)
    requires
        !flags_set(r.sr, CARRY),
    ensures
        one_cycle_result(info_spec(0xA9), r, n) matches Some(r1) && one_cycle_result(
            info_spec(0x69),
            r1,
            m,
        ) matches Some(r2) && r2.ac == (n + m) as u16 & 0xFF && flags_set(r2.sr, CARRY) == (n
            + m > 255),
{
    reveal(info_spec);
    reveal(decode);
    reveal(one_cycle_result);
    let r1 = read_result(Instruct::LDA, r, n);
    let s1 = with_flags(r.sr, ZERO, n == 0);
    assert(ZERO & CARRY == 0) by (bit_vector);
    assert(NEGATIVE & CARRY == 0) by (bit_vector);
    lemma_flag_kept(r.sr, ZERO, n == 0, CARRY);
    lemma_flag_kept(s1, NEGATIVE, negative(n), CARRY);
    assert(!flags_set(r1.sr, CARRY));
    lemma_adc_carry_clear(n, m, r1.sr);
}

/// The total encoded size of the instructions `ops`.
pub open spec fn block_size(ops: Seq<u8>) -> int
    decreases ops.len(),
{
    if ops.len() == 0 {
        0
    } else {
        mode_size(decode(ops[0])->Some_0.mode) + block_size(ops.drop_first())
    }
}

/// The program counter after each instruction of `ops` completes in turn,
/// each advancing it as `step` does for a straight-line instruction.
pub open spec fn pc_after(pc: int, ops: Seq<u8>) -> int
    decreases ops.len(),
{
    if ops.len() == 0 {
        pc
    } else {
        pc_after((pc + mode_size(decode(ops[0])->Some_0.mode)) % 0x10000, ops.drop_first())
    }
}

/// After a block of straight-line instructions the program counter is the
/// start plus the sum of their encoded sizes, modulo the address space.
pub proof fn lemma_block_pc(pc: u16, ops: Seq<u8>)
    requires
        forall|k: int| 0 <= k < ops.len() ==> straight_line(#[trigger] ops[k]),
    ensures
        pc_after(pc as int, ops) == (pc + block_size(ops)) % 0x10000,
    decreases ops.len(),
{
    if ops.len() == 0 {
        assert(pc as int % 0x10000 == pc as int);
    } else {
        let size = mode_size(decode(ops[0])->Some_0.mode);
        let next = ((pc + size) % 0x10000) as u16;
        assert forall|k: int| 0 <= k < ops.drop_first().len() implies straight_line(
            #[trigger] ops.drop_first()[k],
        ) by {
            assert(ops.drop_first()[k] == ops[k + 1]);
        }
        lemma_block_pc(next, ops.drop_first());
        vstd::arithmetic::div_mod::lemma_add_mod_noop(
            pc + size,
            block_size(ops.drop_first()),
            0x10000,
        );
        vstd::arithmetic::div_mod::lemma_mod_twice(block_size(ops.drop_first()), 0x10000);
        assert(block_size(ops.drop_first()) >= 0) by {
            lemma_block_size_nonneg(ops.drop_first());
        }
        vstd::arithmetic::div_mod::lemma_add_mod_noop(next as int, block_size(ops.drop_first()), 0x10000);
    }
}

proof fn lemma_block_size_nonneg(ops: Seq<u8>)
    ensures
        block_size(ops) >= 0,
    decreases ops.len(),
{
    if ops.len() > 0 {
        lemma_block_size_nonneg(ops.drop_first());
    }
}

} // verus!
