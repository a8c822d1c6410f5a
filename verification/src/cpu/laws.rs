//! What holds of the processor whatever it runs.

use crate::bus::BusState;
use crate::cpu::addressing::page_crossed;
use crate::cpu::decode::group_one_mode;
use crate::cpu::decode::group_three_mode;
use crate::cpu::decode::group_two_mode;
use crate::cpu::decode::rmw_mode;
use crate::cpu::exec::is_implemented;
use crate::cpu::exec::is_special;
use crate::cpu::exec::Stop;
use crate::op::table_row;
use crate::cpu::wrap16;
use crate::cpu::AddressingMode;
use crate::cpu::CpuState;
use crate::cpu::CPU;
use crate::flags::CpuFlags;
use vstd::prelude::*;

verus! {

impl CpuState {
    /// The processor after the first `n` turns of the loop, or after the
    /// turn that stopped it where that came earlier.
    pub open spec fn after_steps(self, n: nat) -> CpuState {
        self.run_steps(n).1
    }

    /// The states that a run goes through in its first `n` turns, the
    /// cycle count of each instruction among them.
    pub open spec fn trajectory(self, n: nat) -> Seq<CpuState> {
        Seq::new(n + 1, |k: int| self.after_steps(k as nat))
    }
}

/// Determinism: two runs that start from the same registers, flags and
/// memory go through the same states, count the same cycles for each
/// instruction, and stop for the same reason after the same number of
/// turns.
pub proof fn lemma_runs_are_deterministic(first: CPU, second: CPU, n: nat)
    requires
        first@ == second@,
    ensures
        first@.run_steps(n) == second@.run_steps(n),
        first@.trajectory(n) == second@.trajectory(n),
        forall|k: int|
            0 <= k <= n ==> (#[trigger] first@.trajectory(n)[k]).cycles == second@.trajectory(
                n,
            )[k].cycles,
{
}

/// Where a run has stopped it stays: more turns change nothing.
pub proof fn lemma_stopped_run_stays(s: CpuState, n: nat, more: nat)
    requires
        s.run_steps(n).0 is Some,
    ensures
        s.run_steps(n + more) == s.run_steps(n),
    decreases n,
{
    if n > 0 {
        let (stop, next) = s.step();
        if stop is None {
            lemma_stopped_run_stays(next, (n - 1) as nat, more);
        }
    }
}

/// A byte pushed is the byte popped, and the stack pointer is back where
/// it was: the stack page is work memory, which keeps what is written.
/// The stack guard, where it is on, must not step in.
pub proof fn lemma_push_pop(s: CpuState, data: u8)
    requires
        s.wf(),
        !(s.stack_guard && s.sp > crate::cpu::STACK_RESET),
    ensures
        s.push(data).pop().0 == data,
        s.push(data).pop().1.sp == s.sp,
        s.push(data).pop().1 == (CpuState { sp: s.sp, ..s.push(data) }),
{
    reveal(BusState::write);
    reveal(BusState::read_value);
    reveal(BusState::after_read);
}

/// Flag round-trip: PHP followed by PLP gives the status back as it was but
/// for the two break bits, which both read set afterwards. The registers,
/// the stack pointer and the program counter are as before. The stack
/// guard, where it is on, must not step in.
pub proof fn lemma_php_plp_restores_flags(s: CpuState)
    requires
        s.wf(),
        !(s.stack_guard && s.sp > crate::cpu::STACK_RESET),
    ensures
        s.php().plp().flags.bits == s.flags.bits | (CpuFlags::BREAK | CpuFlags::BREAK2),
        s.php().plp().flags.has(CpuFlags::CARRY) == s.flags.has(CpuFlags::CARRY),
        s.php().plp().flags.has(CpuFlags::ZERO) == s.flags.has(CpuFlags::ZERO),
        s.php().plp().flags.has(CpuFlags::INTERRUPT_DISABLE) == s.flags.has(
            CpuFlags::INTERRUPT_DISABLE,
        ),
        s.php().plp().flags.has(CpuFlags::DECIMAL_MODE) == s.flags.has(CpuFlags::DECIMAL_MODE),
        s.php().plp().flags.has(CpuFlags::OVERFLOW) == s.flags.has(CpuFlags::OVERFLOW),
        s.php().plp().flags.has(CpuFlags::NEGATIVE) == s.flags.has(CpuFlags::NEGATIVE),
        s.php().plp().flags.has(CpuFlags::BREAK),
        s.php().plp().flags.has(CpuFlags::BREAK2),
        s.php().plp().sp == s.sp,
        s.php().plp().a == s.a,
        s.php().plp().x == s.x,
        s.php().plp().y == s.y,
        s.php().plp().pc == s.pc,
{
    let pushed = s.flags.pushed(true);
    lemma_push_pop(s, pushed);
    let t = s.push(pushed).add_cycles(1);
    assert(t.pop().0 == pushed && t.pop().1.sp == s.sp) by {
        reveal(BusState::write);
        reveal(BusState::read_value);
        reveal(BusState::after_read);
    }
    let b = s.flags.bits;
    assert(((b | 0x10u8) | 0x20u8) == (b | (0x10u8 | 0x20u8)) && (((b | 0x10u8) | 0x20u8) & 0x01u8
        == 0x01u8) == (b & 0x01u8 == 0x01u8) && (((b | 0x10u8) | 0x20u8) & 0x02u8 == 0x02u8) == (b
        & 0x02u8 == 0x02u8) && (((b | 0x10u8) | 0x20u8) & 0x04u8 == 0x04u8) == (b & 0x04u8
        == 0x04u8) && (((b | 0x10u8) | 0x20u8) & 0x08u8 == 0x08u8) == (b & 0x08u8 == 0x08u8) && (((
    b | 0x10u8) | 0x20u8) & 0x40u8 == 0x40u8) == (b & 0x40u8 == 0x40u8) && (((b | 0x10u8) | 0x20u8)
        & 0x80u8 == 0x80u8) == (b & 0x80u8 == 0x80u8) && ((b | 0x10u8) | 0x20u8) & 0x10u8 == 0x10u8
        && ((b | 0x10u8) | 0x20u8) & 0x20u8 == 0x20u8) by (bit_vector);
}

/// What is on the stack stays there through a push below it and through
/// any read.
pub proof fn lemma_stack_cell_stays(s: CpuState, data: u8, cell: u8, addr: u16)
    requires
        s.wf(),
        cell != s.sp,
    ensures
        s.push(data).wf(),
        s.push(data).bus.read_value(CpuState::stack_addr(cell)) == s.bus.read_value(
            CpuState::stack_addr(cell),
        ),
        s.push(data).bus.read_value(CpuState::stack_addr(s.sp)) == data,
        s.read(addr).1.bus.read_value(CpuState::stack_addr(cell)) == s.bus.read_value(
            CpuState::stack_addr(cell),
        ),
        s.read_u16(addr).1.bus.read_value(CpuState::stack_addr(cell)) == s.bus.read_value(
            CpuState::stack_addr(cell),
        ),
{
    crate::bus::lemma_work_memory_mirrors(s.bus, CpuState::stack_addr(s.sp), data);
    crate::bus::lemma_access_keeps_wf(s.bus, CpuState::stack_addr(s.sp), data);
    crate::bus::lemma_reads_keep_work_memory(s.bus, addr, CpuState::stack_addr(cell));
}

/// A pop with the stack guard off reads the cell above the stack pointer
/// and changes nothing but the stack pointer.
pub proof fn lemma_pop_reads_the_stack(s: CpuState)
    requires
        !s.stack_guard,
    ensures
        s.pop().0 == s.bus.read_value(CpuState::stack_addr(crate::cpu::wrap8(s.sp + 1))),
        s.pop().1 == (CpuState { sp: crate::cpu::wrap8(s.sp + 1), ..s }),
{
    crate::bus::lemma_reads_keep_work_memory(
        s.bus,
        0,
        CpuState::stack_addr(crate::cpu::wrap8(s.sp + 1)),
    );
}

/// A word pushed is the word popped, and the stack pointer is back where
/// it was.
pub proof fn lemma_push_pop_u16(s: CpuState, data: u16)
    requires
        s.wf(),
        !s.stack_guard,
    ensures
        s.push_u16(data).pop_u16().0 == data,
        s.push_u16(data).pop_u16().1 == (CpuState { sp: s.sp, ..s.push_u16(data) }),
{
    let hi = (data / 256) as u8;
    let lo = (data % 256) as u8;
    let s1 = s.push(hi);
    let s2 = s1.push(lo);
    lemma_stack_cell_stays(s, hi, s1.sp, 0);
    lemma_stack_cell_stays(s1, lo, s.sp, 0);
    lemma_pop_reads_the_stack(s2);
    lemma_pop_reads_the_stack(s2.pop().1);
}

/// Subroutine round-trip: RTS right after JSR leaves the program counter on
/// the last byte of the JSR, from where the step that ends every
/// instruction moves it to the instruction behind the JSR; and the stack
/// pointer is back where it was.
pub proof fn lemma_jsr_rts_round_trip(s: CpuState)
    requires
        s.wf(),
        !s.stack_guard,
    ensures
        s.jsr().rts().pc == wrap16(s.pc + 2),
        s.jsr().rts().sp == s.sp,
{
    let ret = wrap16(s.pc + 2);
    let hi = (ret / 256) as u8;
    let lo = (ret % 256) as u8;
    let s1 = s.push(hi);
    let s2 = s1.push(lo);
    lemma_stack_cell_stays(s, hi, s1.sp, 0);
    lemma_stack_cell_stays(s1, lo, s.sp, 0);
    let s3 = s2.read_u16(wrap16(s.pc + 1)).1;
    lemma_stack_cell_stays(s2, 0, s.sp, wrap16(s.pc + 1));
    lemma_stack_cell_stays(s2, 0, s1.sp, wrap16(s.pc + 1));
    let called = s.jsr();
    assert(called.bus == s3.bus && called.sp == s2.sp && !called.stack_guard);
    lemma_pop_reads_the_stack(called);
    lemma_pop_reads_the_stack(called.pop().1);
}

/// The status and the return address that an interrupt or BRK has pushed
/// are what RTI right after it pops.
proof fn lemma_rti_after_pushes(s: CpuState, ret: u16, status: u8, vector: u16)
    requires
        s.wf(),
        !s.stack_guard,
    ensures
        ({
            let pushed = s.push_u16(ret).push(status);
            let (pc, entered) = pushed.read_u16(vector);
            &&& entered.pop().0 == status
            &&& entered.pop().1.pop_u16().0 == ret
            &&& entered.pop().1.pop_u16().1.sp == s.sp
        }),
{
    let hi = (ret / 256) as u8;
    let lo = (ret % 256) as u8;
    let s1 = s.push(hi);
    let s2 = s1.push(lo);
    let s3 = s2.push(status);
    lemma_stack_cell_stays(s, hi, s1.sp, 0);
    lemma_stack_cell_stays(s1, lo, s.sp, 0);
    lemma_stack_cell_stays(s2, status, s.sp, 0);
    lemma_stack_cell_stays(s2, status, s1.sp, 0);
    let entered = s3.read_u16(vector).1;
    lemma_stack_cell_stays(s3, 0, s.sp, vector);
    lemma_stack_cell_stays(s3, 0, s1.sp, vector);
    lemma_stack_cell_stays(s3, 0, s2.sp, vector);
    lemma_pop_reads_the_stack(entered);
    lemma_pop_reads_the_stack(entered.pop().1);
    lemma_pop_reads_the_stack(entered.pop().1.pop().1);
}

/// Break round-trip: RTI right after BRK brings the program counter to one
/// below the second byte behind the BRK, and the status comes back as it
/// was pushed, with both break bits set.
pub proof fn lemma_brk_rti_round_trip(s: CpuState)
    requires
        s.wf(),
        !s.stack_guard,
    ensures
        s.brk().rti().pc == wrap16(s.pc + 1),
        s.brk().rti().flags.bits == s.flags.pushed(true),
        s.brk().rti().sp == s.sp,
{
    lemma_rti_after_pushes(s, wrap16(s.pc + 2), s.flags.pushed(true), crate::cpu::BRK_VECTOR);
    let pushed = s.push_u16(wrap16(s.pc + 2)).push(s.flags.pushed(true));
    let entered = pushed.read_u16(crate::cpu::BRK_VECTOR).1;
    let broken = s.brk();
    assert(broken.bus == entered.bus && broken.sp == entered.sp && !broken.stack_guard);
    lemma_pop_reads_the_stack(broken);
    lemma_pop_reads_the_stack(broken.pop().1);
    lemma_pop_reads_the_stack(broken.pop().1.pop().1);
    lemma_pop_reads_the_stack(entered);
    lemma_pop_reads_the_stack(entered.pop().1);
    lemma_pop_reads_the_stack(entered.pop().1.pop().1);
}

/// Interrupt round-trip: RTI right after an interrupt was taken brings the
/// program counter back to one below where the program was interrupted,
/// from where the step that ends every instruction moves it on; the
/// status comes back as it was pushed, with Break clear and the unused
/// bit set, and the stack pointer is back where it was.
pub proof fn lemma_interrupt_rti_round_trip(s: CpuState)
    requires
        s.wf(),
        !s.stack_guard,
    ensures
        s.interrupt_nmi().rti().pc == wrap16(s.pc - 1),
        s.interrupt_nmi().rti().flags.bits == s.flags.pushed(false),
        s.interrupt_nmi().rti().sp == s.sp,
{
    let ret = s.pc;
    let status = s.flags.pushed(false);
    let hi = (ret / 256) as u8;
    let lo = (ret % 256) as u8;
    let s1 = s.push(hi);
    let s2 = s1.push(lo);
    let s3 = s2.push(status);
    lemma_stack_cell_stays(s, hi, s1.sp, 0);
    lemma_stack_cell_stays(s1, lo, s.sp, 0);
    lemma_stack_cell_stays(s2, status, s.sp, 0);
    lemma_stack_cell_stays(s2, status, s1.sp, 0);
    let ticked = CpuState { bus: s3.bus.tick(crate::cpu::ops::INTERRUPT_LATENCY), ..s3 };
    crate::bus::lemma_tick_keeps_work_memory(
        s3.bus,
        crate::cpu::ops::INTERRUPT_LATENCY,
        CpuState::stack_addr(s.sp),
    );
    crate::bus::lemma_tick_keeps_work_memory(
        s3.bus,
        crate::cpu::ops::INTERRUPT_LATENCY,
        CpuState::stack_addr(s1.sp),
    );
    crate::bus::lemma_tick_keeps_work_memory(
        s3.bus,
        crate::cpu::ops::INTERRUPT_LATENCY,
        CpuState::stack_addr(s2.sp),
    );
    let vector = crate::cpu::NMI_VECTOR;
    crate::bus::lemma_reads_keep_work_memory(ticked.bus, vector, CpuState::stack_addr(s.sp));
    crate::bus::lemma_reads_keep_work_memory(ticked.bus, vector, CpuState::stack_addr(s1.sp));
    crate::bus::lemma_reads_keep_work_memory(ticked.bus, vector, CpuState::stack_addr(s2.sp));
    let entered = s.interrupt_nmi();
    assert(entered.bus == ticked.bus.after_read_u16(vector) && entered.sp == s3.sp
        && !entered.stack_guard);
    lemma_pop_reads_the_stack(entered);
    lemma_pop_reads_the_stack(entered.pop().1);
    lemma_pop_reads_the_stack(entered.pop().1.pop().1);
}

/// Compare non-mutation: a comparison changes flags and nothing else of
/// the processor: no register, not the stack pointer, not the program
/// counter, not the cycle count; and of the flags only Carry, Zero and
/// Negative.
pub proof fn lemma_compare_changes_flags_only(s: CpuState, addr: u16, val: u8)
    ensures
        s.compare(addr, val).a == s.a,
        s.compare(addr, val).x == s.x,
        s.compare(addr, val).y == s.y,
        s.compare(addr, val).sp == s.sp,
        s.compare(addr, val).pc == s.pc,
        s.compare(addr, val).cycles == s.cycles,
        s.cmp(addr).a == s.a,
        s.cpx(addr).x == s.x,
        s.cpy(addr).y == s.y,
        s.compare(addr, val).flags.has(CpuFlags::INTERRUPT_DISABLE) == s.flags.has(
            CpuFlags::INTERRUPT_DISABLE,
        ),
        s.compare(addr, val).flags.has(CpuFlags::DECIMAL_MODE) == s.flags.has(
            CpuFlags::DECIMAL_MODE,
        ),
        s.compare(addr, val).flags.has(CpuFlags::BREAK) == s.flags.has(CpuFlags::BREAK),
        s.compare(addr, val).flags.has(CpuFlags::BREAK2) == s.flags.has(CpuFlags::BREAK2),
        s.compare(addr, val).flags.has(CpuFlags::OVERFLOW) == s.flags.has(CpuFlags::OVERFLOW),
{
    let flags = s.compare(addr, val).flags;
    let (v, s1) = s.read(addr);
    let (carry, zero, negative) = crate::cpu::alu::compare_flags(val, v);
    let b = s.flags.bits;
    let c: u8 = if carry {
        0x01
    } else {
        0
    };
    let z: u8 = if zero {
        0x02
    } else {
        0
    };
    let n: u8 = if negative {
        0x80
    } else {
        0
    };
    lemma_czn_only(b, c, z, n);
    assert(flags.bits == (((b & !0x01u8) | c) & !0x02u8 | z) & !0x80u8 | n) by {
        lemma_set_bit(b, 0x01, carry);
        lemma_set_bit(s.flags.with(CpuFlags::CARRY, carry).bits, 0x02, zero);
        lemma_set_bit(
            s.flags.with(CpuFlags::CARRY, carry).with(CpuFlags::ZERO, zero).bits,
            0x80,
            negative,
        );
    }
}

/// Switching a flag on or off is clearing it and putting the wanted bits
/// in.
proof fn lemma_set_bit(b: u8, mask: u8, on: bool)
    ensures
        (CpuFlags { bits: b }).with(mask, on).bits == (b & !mask) | (if on {
            mask
        } else {
            0
        }),
{
    assert((b | mask) == ((b & !mask) | mask) && (b & !mask) == ((b & !mask) | 0u8))
        by (bit_vector);
}

/// Writing Carry, Zero and Negative leaves the five other bits alone.
proof fn lemma_czn_only(b: u8, c: u8, z: u8, n: u8)
    by (bit_vector)
    requires
        c == 0u8 || c == 0x01u8,
        z == 0u8 || z == 0x02u8,
        n == 0u8 || n == 0x80u8,
    ensures
        (((((b & !0x01u8) | c) & !0x02u8 | z) & !0x80u8 | n) & 0x04u8 == 0x04u8) == (b & 0x04u8
            == 0x04u8),
        (((((b & !0x01u8) | c) & !0x02u8 | z) & !0x80u8 | n) & 0x08u8 == 0x08u8) == (b & 0x08u8
            == 0x08u8),
        (((((b & !0x01u8) | c) & !0x02u8 | z) & !0x80u8 | n) & 0x10u8 == 0x10u8) == (b & 0x10u8
            == 0x10u8),
        (((((b & !0x01u8) | c) & !0x02u8 | z) & !0x80u8 | n) & 0x20u8 == 0x20u8) == (b & 0x20u8
            == 0x20u8),
        (((((b & !0x01u8) | c) & !0x02u8 | z) & !0x80u8 | n) & 0x40u8 == 0x40u8) == (b & 0x40u8
            == 0x40u8),
{
}

/// Page-cross cycle accounting: a load through an indexed address costs
/// one cycle more where adding the index leaves the page than where it
/// does not, and a store costs the higher price either way.
pub proof fn lemma_page_cross_costs_one_cycle(
    s: CpuState,
    mode: AddressingMode,
    crossing: u16,
    staying: u16,
)
    requires
        mode is Absolute_X || mode is Absolute_Y || mode is Indirect_Y,
        page_crossed(
            wrap16(
                crossing - (if mode is Absolute_X {
                    s.x
                } else {
                    s.y
                }),
            ),
            crossing,
        ),
        !page_crossed(
            wrap16(
                staying - (if mode is Absolute_X {
                    s.x
                } else {
                    s.y
                }),
            ),
            staying,
        ),
    ensures
        s.group_one_cost(mode, crossing, false) == s.group_one_cost(mode, staying, false) + 1,
        s.group_one_cost(mode, crossing, true) == s.group_one_cost(mode, staying, true),
        s.group_one_cost(mode, staying, true) == s.group_one_cost(mode, staying, false) + 1,
{
}

/// The indirect jump's page bug: the two bytes of the target are read from
/// the same page. Where the pointer is the last byte of its page, the
/// high byte comes from the first byte of that page, not from the page
/// behind it.
pub proof fn lemma_indirect_jump_stays_in_page(s: CpuState, instr_addr: u16)
    ensures
        ({
            let (pointer, s1) = s.read_u16(wrap16(instr_addr + 1));
            let (lo, s2) = s1.read(pointer);
            let second = if pointer % 256 == 255 {
                (pointer / 256 * 256) as u16
            } else {
                (pointer + 1) as u16
            };
            let (hi, s3) = s2.read(second);
            &&& s.resolve(AddressingMode::Indirect, instr_addr) == ((hi * 256 + lo) as u16, s3)
            &&& second / 256 == pointer / 256
        }),
{
}

/// Finding an operand moves nothing but the bus.
pub proof fn lemma_resolve_keeps_registers(s: CpuState, mode: AddressingMode, instr_addr: u16)
    ensures
        s.resolve(mode, instr_addr).1 == (CpuState {
            bus: s.resolve(mode, instr_addr).1.bus,
            ..s
        }),
        s.operand_address(mode).1.pc == wrap16(s.pc + mode.operand_len()),
{
}

/// An instruction of group one leaves the program counter on its last
/// byte.
pub proof fn lemma_group_one_ends_on_its_last_byte(s: CpuState, aaa: u8, bbb: u8)
    ensures
        s.group_one(aaa, bbb).pc == wrap16(s.pc + group_one_mode(bbb).operand_len()),
{
    reveal(CpuState::group_one);
    lemma_resolve_keeps_registers(s, group_one_mode(bbb), s.pc);
}

/// An instruction of group two leaves the program counter on its last
/// byte.
pub proof fn lemma_group_two_ends_on_its_last_byte(s: CpuState, aaa: u8, bbb: u8, op: u8)
    ensures
        s.group_two(aaa, bbb, op).pc == (if group_two_mode(bbb, op) is Accumulator {
            s.pc
        } else {
            wrap16(s.pc + group_two_mode(bbb, op).operand_len())
        }),
{
    reveal(CpuState::group_two);
    lemma_resolve_keeps_registers(s, group_two_mode(bbb, op), s.pc);
}

/// An instruction of group three that neither branches nor jumps leaves
/// the program counter on its last byte.
pub proof fn lemma_group_three_ends_on_its_last_byte(s: CpuState, aaa: u8, bbb: u8)
    requires
        bbb != 4,
        aaa != 2,
        aaa != 3,
    ensures
        s.group_three(aaa, bbb).pc == wrap16(s.pc + group_three_mode(aaa, bbb).operand_len()),
{
    reveal(CpuState::group_three);
    lemma_resolve_keeps_registers(s, group_three_mode(aaa, bbb), s.pc);
}

/// An unofficial read-modify-write instruction leaves the program counter
/// on its last byte.
pub proof fn lemma_rmw_ends_on_its_last_byte(s: CpuState, high: u8, low: u8)
    ensures
        s.rmw(high, low).pc == wrap16(s.pc + rmw_mode(high, low).operand_len()),
{
    reveal(CpuState::rmw);
    let mode = rmw_mode(high, low);
    lemma_resolve_keeps_registers(s.add_cycles(crate::cpu::decode::rmw_cost(mode)), mode, s.pc);
}

/// A single-byte instruction leaves the program counter where it is.
pub proof fn lemma_single_byte_keeps_program_counter(s: CpuState, high: u8)
    ensures
        s.sb_one(high).pc == s.pc,
        s.sb_two(high).pc == s.pc,
{
    reveal(CpuState::sb_one);
    reveal(CpuState::sb_two);
}

/// The opcode is one of those that set the program counter themselves:
/// BRK, JSR, RTI, RTS, both jumps and the eight branches.
pub open spec fn transfers_control(op: u8) -> bool {
    op == 0x00 || op == 0x20 || op == 0x40 || op == 0x60 || op == 0x4C || op == 0x6C || op % 32
        == 0x10
}

/// The unofficial loads and stores leave the program counter on the last
/// byte of their operand.
pub proof fn lemma_lax_sax_end_on_their_last_byte(s: CpuState, mode: AddressingMode)
    ensures
        s.lax(mode).pc == wrap16(s.pc + mode.operand_len()),
        s.sax(mode).pc == wrap16(s.pc + mode.operand_len()),
        s.lax_indirect_y().pc == wrap16(s.pc + 1),
{
    reveal(CpuState::lax);
    reveal(CpuState::sax);
    reveal(CpuState::lax_indirect_y);
    lemma_resolve_keeps_registers(s, mode, s.pc);
    let first = s.add_cycles(5).resolve(AddressingMode::Indirect_Y, s.pc);
    lemma_resolve_keeps_registers(s.add_cycles(5), AddressingMode::Indirect_Y, s.pc);
    let counted = first.1.add_cycles(
        CpuState::page_penalty(wrap16(first.0 - s.y), first.0, false),
    );
    lemma_resolve_keeps_registers(counted, AddressingMode::Indirect_Y, s.pc);
}

/// The unofficial instructions with an immediate operand leave the
/// program counter on that operand.
pub proof fn lemma_immediates_end_on_their_operand(s: CpuState)
    ensures
        s.alr().pc == wrap16(s.pc + 1),
        s.anc().pc == wrap16(s.pc + 1),
        s.arr().pc == wrap16(s.pc + 1),
        s.axs().pc == wrap16(s.pc + 1),
        s.sbc_immediate().pc == wrap16(s.pc + 1),
{
    reveal(CpuState::alr);
    reveal(CpuState::anc);
    reveal(CpuState::arr);
    reveal(CpuState::axs);
    reveal(CpuState::sbc_immediate);
    lemma_resolve_keeps_registers(s.add_cycles(2), AddressingMode::Immediate, s.pc);
    lemma_resolve_keeps_registers(s, AddressingMode::Immediate, s.pc);
}

/// The unofficial NOPs leave the program counter on the last byte of
/// what they skip.
pub proof fn lemma_skips_end_on_their_last_byte(s: CpuState, cycles: int, len: int)
    ensures
        s.skip(cycles, len).pc == wrap16(s.pc + len),
        s.skip_absolute_x().pc == wrap16(s.pc + 2),
{
    reveal(CpuState::skip_absolute_x);
}

/// An unofficial opcode that is picked out before the regular decoding
/// leaves the program counter on its last byte, as long as the table of
/// opcodes says the instruction is.
pub proof fn lemma_special_follows_the_table(s: CpuState, op: u8)
    requires
        is_special(op),
        !transfers_control(op),
    ensures
        table_row(op) is Some,
        s.special(op).pc == wrap16(s.pc + table_row(op)->Some_0.len - 1),
{
    reveal(CpuState::special);
    let row = table_row(op)->Some_0;
    lemma_immediates_end_on_their_operand(s);
    lemma_skips_end_on_their_last_byte(
        s,
        crate::cpu::exec::skip_cycles(op),
        crate::cpu::exec::skip_len(op),
    );
    lemma_lax_sax_end_on_their_last_byte(s, row.mode);
    lemma_lax_sax_end_on_their_last_byte(s.add_cycles(3), row.mode);
    lemma_lax_sax_end_on_their_last_byte(s.add_cycles(4), row.mode);
    lemma_lax_sax_end_on_their_last_byte(s.add_cycles(6), row.mode);
}

/// The table of opcodes and the processor agree on the length of every
/// instruction that the processor knows: one that does not set the
/// program counter itself leaves it on the last of the bytes that the
/// table gives the instruction.
pub proof fn lemma_program_counter_follows_the_table(s: CpuState, op: u8)
    requires
        is_implemented(op),
        !transfers_control(op),
    ensures
        table_row(op) is Some,
        s.dispatch(op).pc == wrap16(s.pc + table_row(op)->Some_0.len - 1),
{
    reveal(CpuState::dispatch);
    if is_special(op) {
        lemma_special_follows_the_table(s, op);
    } else {
        reveal(CpuState::regular);
        let high = op / 16;
        let low = op % 16;
        let aaa = op / 32;
        let bbb = (op / 4) % 8;
        let cc = op % 4;
        assert(op == aaa * 32 + bbb * 4 + cc);
        assert(op == high * 16 + low);
        lemma_single_byte_keeps_program_counter(s, high);
        lemma_rmw_ends_on_its_last_byte(s, high, low);
        lemma_group_one_ends_on_its_last_byte(s, aaa, bbb);
        lemma_group_two_ends_on_its_last_byte(s, aaa, bbb, op);
        if cc == 0 && low != 8 {
            lemma_group_three_ends_on_its_last_byte(s, aaa, bbb);
        }
    }
}

/// Every read and every write leaves the clocks of the bus alone.
pub proof fn lemma_accesses_keep_the_clock()
    ensures
        forall|b: BusState, addr: u16| #[trigger] b.after_read(addr).clock() == b.clock(),
        forall|b: BusState, addr: u16, data: u8| #[trigger]
            b.write(addr, data).clock() == b.clock(),
{
    assert forall|b: BusState, addr: u16| #[trigger] b.after_read(addr).clock() == b.clock() by {
        crate::bus::lemma_access_keeps_the_clock(b, addr, 0);
    }
    assert forall|b: BusState, addr: u16, data: u8| #[trigger]
        b.write(addr, data).clock() == b.clock() by {
        crate::bus::lemma_access_keeps_the_clock(b, addr, data);
    }
}

/// Finding an operand, and every instruction that works on one, leaves
/// the clocks of the bus alone.
pub proof fn lemma_operations_keep_the_clock(s: CpuState, mode: AddressingMode, addr: u16)
    ensures
        s.resolve(mode, addr).1.bus.clock() == s.bus.clock(),
        s.operand_address(mode).1.bus.clock() == s.bus.clock(),
        s.lda(addr).bus.clock() == s.bus.clock(),
        s.ldx(addr).bus.clock() == s.bus.clock(),
        s.ldy(addr).bus.clock() == s.bus.clock(),
        s.sta(addr).bus.clock() == s.bus.clock(),
        s.stx(addr).bus.clock() == s.bus.clock(),
        s.sty(addr).bus.clock() == s.bus.clock(),
        s.ora(addr).bus.clock() == s.bus.clock(),
        s.and(addr).bus.clock() == s.bus.clock(),
        s.eor(addr).bus.clock() == s.bus.clock(),
        s.bit(addr).bus.clock() == s.bus.clock(),
        s.adc(addr).bus.clock() == s.bus.clock(),
        s.sbc(addr).bus.clock() == s.bus.clock(),
        s.compare(addr, s.a).bus.clock() == s.bus.clock(),
        s.compare(addr, s.x).bus.clock() == s.bus.clock(),
        s.compare(addr, s.y).bus.clock() == s.bus.clock(),
        s.inc(addr).bus.clock() == s.bus.clock(),
        s.dec(addr).bus.clock() == s.bus.clock(),
        s.jmp(addr).bus.clock() == s.bus.clock(),
        forall|accum: bool| #[trigger] s.asl(addr, accum).bus.clock() == s.bus.clock(),
        forall|accum: bool| #[trigger] s.lsr(addr, accum).bus.clock() == s.bus.clock(),
        forall|accum: bool| #[trigger] s.rol(addr, accum).bus.clock() == s.bus.clock(),
        forall|accum: bool| #[trigger] s.ror(addr, accum).bus.clock() == s.bus.clock(),
{
    lemma_accesses_keep_the_clock();
}

/// The stack, the branches and the subroutine instructions leave the
/// clocks of the bus alone.
pub proof fn lemma_stack_and_jumps_keep_the_clock(s: CpuState)
    ensures
        s.php().bus.clock() == s.bus.clock(),
        s.plp().bus.clock() == s.bus.clock(),
        s.pha().bus.clock() == s.bus.clock(),
        s.pla().bus.clock() == s.bus.clock(),
        s.branch().bus.clock() == s.bus.clock(),
        s.brk().bus.clock() == s.bus.clock(),
        s.jsr().bus.clock() == s.bus.clock(),
        s.rti().bus.clock() == s.bus.clock(),
        s.rts().bus.clock() == s.bus.clock(),
{
    lemma_accesses_keep_the_clock();
}

/// The regular instructions leave the clocks of the bus alone.
pub proof fn lemma_groups_keep_the_clock(s: CpuState, aaa: u8, bbb: u8, op: u8)
    ensures
        s.sb_one(aaa).bus.clock() == s.bus.clock(),
        s.sb_two(aaa).bus.clock() == s.bus.clock(),
        s.group_one(aaa, bbb).bus.clock() == s.bus.clock(),
        s.group_two(aaa, bbb, op).bus.clock() == s.bus.clock(),
        s.group_three(aaa, bbb).bus.clock() == s.bus.clock(),
{
    assert(s.sb_one(aaa).bus.clock() == s.bus.clock() && s.sb_two(aaa).bus.clock()
        == s.bus.clock()) by {
        reveal(CpuState::sb_one);
        reveal(CpuState::sb_two);
        lemma_stack_and_jumps_keep_the_clock(s.add_cycles(2));
    }
    assert(s.group_one(aaa, bbb).bus.clock() == s.bus.clock()) by {
        reveal(CpuState::group_one);
        let mode = group_one_mode(bbb);
        let (addr, fetched) = s.operand_address(mode);
        lemma_operations_keep_the_clock(s, mode, addr);
        lemma_operations_keep_the_clock(
            fetched.add_cycles(fetched.group_one_cost(mode, addr, aaa == 4)),
            mode,
            addr,
        );
    }
    assert(s.group_two(aaa, bbb, op).bus.clock() == s.bus.clock()) by {
        reveal(CpuState::group_two);
        let mode = group_two_mode(bbb, op);
        let (addr, fetched) = if mode is Accumulator {
            (0u16, s)
        } else {
            s.operand_address(mode)
        };
        lemma_operations_keep_the_clock(s, mode, addr);
        lemma_operations_keep_the_clock(
            fetched.add_cycles(fetched.group_one_cost(mode, addr, false)),
            mode,
            addr,
        );
        lemma_operations_keep_the_clock(fetched.add_cycles(mode.group_two_cost()), mode, addr);
    }
    assert(s.group_three(aaa, bbb).bus.clock() == s.bus.clock()) by {
        reveal(CpuState::group_three);
        let start = CpuState { pc: wrap16(s.pc + 1), ..s.add_cycles(2) };
        lemma_stack_and_jumps_keep_the_clock(start);
        let mode = group_three_mode(aaa, bbb);
        let (addr, fetched) = s.operand_address(mode);
        lemma_operations_keep_the_clock(s, mode, addr);
        lemma_operations_keep_the_clock(fetched.add_cycles(3), mode, addr);
        lemma_operations_keep_the_clock(fetched.add_cycles(5), mode, addr);
        lemma_operations_keep_the_clock(
            fetched.add_cycles(fetched.group_one_cost(mode, addr, false)),
            mode,
            addr,
        );
    }
}

/// The unofficial instructions leave the clocks of the bus alone.
pub proof fn lemma_unofficial_keep_the_clock(s: CpuState, high: u8, low: u8, mode: AddressingMode)
    ensures
        s.rmw(high, low).bus.clock() == s.bus.clock(),
        s.lax(mode).bus.clock() == s.bus.clock(),
        s.sax(mode).bus.clock() == s.bus.clock(),
        s.lax_indirect_y().bus.clock() == s.bus.clock(),
        s.alr().bus.clock() == s.bus.clock(),
        s.anc().bus.clock() == s.bus.clock(),
        s.arr().bus.clock() == s.bus.clock(),
        s.axs().bus.clock() == s.bus.clock(),
        s.sbc_immediate().bus.clock() == s.bus.clock(),
        s.skip_absolute_x().bus.clock() == s.bus.clock(),
{
    lemma_accesses_keep_the_clock();
    assert(s.rmw(high, low).bus.clock() == s.bus.clock()) by {
        reveal(CpuState::rmw);
    }
    assert(s.lax(mode).bus.clock() == s.bus.clock() && s.sax(mode).bus.clock() == s.bus.clock())
        by {
        reveal(CpuState::lax);
        reveal(CpuState::sax);
    }
    assert(s.lax_indirect_y().bus.clock() == s.bus.clock()) by {
        reveal(CpuState::lax);
        reveal(CpuState::lax_indirect_y);
    }
    assert(s.alr().bus.clock() == s.bus.clock() && s.anc().bus.clock() == s.bus.clock()) by {
        reveal(CpuState::alr);
        reveal(CpuState::anc);
    }
    assert(s.arr().bus.clock() == s.bus.clock() && s.axs().bus.clock() == s.bus.clock()) by {
        reveal(CpuState::arr);
        reveal(CpuState::axs);
    }
    assert(s.sbc_immediate().bus.clock() == s.bus.clock() && s.skip_absolute_x().bus.clock()
        == s.bus.clock()) by {
        reveal(CpuState::sbc_immediate);
        reveal(CpuState::skip_absolute_x);
    }
}

/// No instruction moves a clock of the bus by itself.
pub proof fn lemma_instructions_keep_the_clock(s: CpuState, op: u8)
    ensures
        s.dispatch(op).bus.clock() == s.bus.clock(),
        s.brk().bus.clock() == s.bus.clock(),
{
    reveal(CpuState::dispatch);
    lemma_stack_and_jumps_keep_the_clock(s);
    if is_special(op) {
        reveal(CpuState::special);
        lemma_unofficial_keep_the_clock(s, 0, 0, AddressingMode::Indirect_X);
        lemma_unofficial_keep_the_clock(s.add_cycles(6), 0, 0, AddressingMode::Indirect_X);
        lemma_unofficial_keep_the_clock(s.add_cycles(3), 0, 0, AddressingMode::ZeroPage);
        lemma_unofficial_keep_the_clock(s.add_cycles(4), 0, 0, AddressingMode::Absolute);
        lemma_unofficial_keep_the_clock(s.add_cycles(4), 0, 0, AddressingMode::ZeroPage_Y);
        lemma_unofficial_keep_the_clock(s.add_cycles(4), 0, 0, AddressingMode::Absolute_Y);
    } else {
        reveal(CpuState::regular);
        lemma_groups_keep_the_clock(s, op / 16, 0, op);
        lemma_groups_keep_the_clock(s, op / 32, (op / 4) % 8, op);
        lemma_unofficial_keep_the_clock(s, op / 16, op % 16, AddressingMode::Immediate);
    }
}

/// Cycle accounting: the cycle count starts at 0 with every instruction,
/// and the cycles that an executed instruction has counted reach the bus
/// once: its clock is on by exactly that count, and the picture
/// processor by three dots for each cycle.
pub proof fn lemma_cycles_reach_the_bus_once(s: CpuState)
    requires
        !(CpuState { cycles: 0, ..s }).at_end_of_program(),
        is_implemented(s.bus.read_value(s.pc)),
    ensures
        s.execute().1.bus.cycles == BusState::counted(
            s.bus.cycles,
            s.execute().1.cycles as int,
        ),
        s.execute().1.bus.ppu.dots == s.bus.ppu.tick(
            (s.execute().1.cycles * crate::bus::DOTS_PER_CYCLE) as u8,
        ).dots,
        s.execute().1.bus.ppu.scanline == s.bus.ppu.tick(
            (s.execute().1.cycles * crate::bus::DOTS_PER_CYCLE) as u8,
        ).scanline,
{
    reveal(CpuState::execute);
    lemma_accesses_keep_the_clock();
    let start = CpuState { cycles: 0, ..s };
    let (op, fetched) = start.read(start.pc);
    lemma_instructions_keep_the_clock(fetched, op);
    lemma_beam_depends_on_clock(s.bus.ppu, fetched.dispatch(op).bus.ppu);
    lemma_beam_depends_on_clock(s.bus.ppu, fetched.brk().bus.ppu);
}

/// Where the beam goes depends on where it is and on nothing else of the
/// picture processor.
pub proof fn lemma_beam_depends_on_clock(p: crate::ppu::PpuState, q: crate::ppu::PpuState)
    requires
        p.dots == q.dots,
        p.scanline == q.scanline,
    ensures
        forall|cycles: u8|
            (#[trigger] p.tick(cycles)).dots == q.tick(cycles).dots && p.tick(cycles).scanline
                == q.tick(cycles).scanline,
{
}

/// A run that the halt signal stops has executed nothing.
pub proof fn lemma_halt_signal_stops_at_once(s: CpuState, n: nat)
    requires
        s.halted,
        !s.nmi_pending(),
        n > 0,
    ensures
        s.run_steps(n) == (Some(Stop::HaltSignal), s),
{
    reveal(CpuState::step);
}

} // verus!
