//! The 6502 interpreter: the register file, addressing-mode resolution,
//! the stack protocol, and one method per instruction, each with an exact
//! contract over the memory model it runs against.
use vstd::prelude::*;

use crate::alu::BREAK2_FLAG;
use crate::alu::BREAK_FLAG;
use crate::alu::CARRY_FLAG;
use crate::alu::DECIMAL_FLAG;
use crate::alu::INTERRUPT_DISABLE_FLAG;
use crate::alu::NEGATIVE_FLAG;
use crate::alu::OVERFLOW_FLAG;
use crate::alu::RESET_STACK_POINTER;
use crate::alu::RESET_STATUS;
use crate::alu::ZERO_FLAG;
use crate::alu::adc_result;
use crate::alu::adc_status;
use crate::alu::asl_result;
use crate::alu::bit_status;
use crate::alu::cmp_status;
use crate::alu::flag_set;
use crate::alu::lemma_low_byte;
use crate::alu::lemma_sub8_wrapping;
use crate::alu::set_flag;
use crate::alu::lsr_result;
use crate::alu::php_stack_byte;
use crate::alu::rol_result;
use crate::alu::ror_result;
use crate::alu::sbc_diff;
use crate::alu::sbc_result;
use crate::alu::sbc_status;
use crate::alu::shift_status;
use crate::alu::status_after_pull;
use crate::alu::update_zn;
use crate::alu::zn_update;
use crate::mem::Fault;
use crate::mem::FlatMem;
use crate::opcodes::known_opcode;
use crate::opcodes::mode_len;
use crate::opcodes::mode_of;
use crate::opcodes::lookup;
use crate::mem::Mem;
use crate::mem::mem_read_u16;
use crate::mem::mem_read_u16_page_wrap;
use crate::mem::read16_ok;
use crate::mem::read16_post;
use crate::mem::read16_val;
use crate::mem::read16_wrapped_ok;
use crate::mem::read16_wrapped_post;
use crate::mem::read16_wrapped_val;
use crate::mem::word;

verus! {

/// The thirteen ways an instruction names its operand.
#[allow(non_camel_case_types)]
#[derive(Clone, Copy, Debug, PartialEq, Eq, Structural)]
pub enum AddressingMode {
    Implied,
    Accumulator,
    Immediate,
    ZeroPage,
    ZeroPage_X,
    ZeroPage_Y,
    Absolute,
    Absolute_X,
    Absolute_Y,
    Indirect,
    Indirect_X,
    Indirect_Y,
    RELATIVE,
}

/// The 6502 register file over a memory capability `M`.
pub struct CPU<M: Mem> {
    pub register_a: u8,
    pub register_x: u8,
    pub register_y: u8,
    pub status: u8,
    pub stack_pointer: u8,
    pub program_counter: u16,
    pub bus: M,
}

/// The operand byte sign-extended to sixteen bits.
pub open spec fn sign_extend(off: u8) -> u16 {
    if off < 0x80 {
        off as u16
    } else {
        (off + 0xFF00) as u16
    }
}

/// Where a relative branch lands: the address past the offset byte plus
/// the signed offset, wrapping at the address space's edge.
pub open spec fn relative_target(base: u16, off: u8) -> u16 {
    base.wrapping_add(1).wrapping_add(sign_extend(off))
}

/// Whether every memory read that resolving an operand address under
/// `mode` takes will succeed, from state `v` with the operand bytes at
/// `base`.
pub open spec fn resolve_ok<M: Mem>(v: M::V, mode: AddressingMode, base: u16, x: u8, y: u8) -> bool {
    match mode {
        AddressingMode::Implied => false,
        AddressingMode::Accumulator => false,
        AddressingMode::Immediate => true,
        AddressingMode::ZeroPage => M::ok_read(v, base),
        AddressingMode::ZeroPage_X => M::ok_read(v, base),
        AddressingMode::ZeroPage_Y => M::ok_read(v, base),
        AddressingMode::RELATIVE => M::ok_read(v, base),
        AddressingMode::Absolute => read16_ok::<M>(v, base),
        AddressingMode::Absolute_X => read16_ok::<M>(v, base),
        AddressingMode::Absolute_Y => read16_ok::<M>(v, base),
        AddressingMode::Indirect => read16_ok::<M>(v, base) && read16_wrapped_ok::<M>(
            read16_post::<M>(v, base),
            read16_val::<M>(v, base),
        ),
        AddressingMode::Indirect_X => M::ok_read(v, base) && read16_wrapped_ok::<M>(
            M::post_read(v, base),
            M::read_val(v, base).wrapping_add(x) as u16,
        ),
        AddressingMode::Indirect_Y => M::ok_read(v, base) && read16_wrapped_ok::<M>(
            M::post_read(v, base),
            M::read_val(v, base) as u16,
        ),
    }
}

/// The effective address an operand under `mode` resolves to, from state
/// `v` with the operand bytes at `base`.
pub open spec fn resolve_addr<M: Mem>(v: M::V, mode: AddressingMode, base: u16, x: u8, y: u8) -> u16 {
    match mode {
        AddressingMode::Implied => 0u16,
        AddressingMode::Accumulator => 0u16,
        AddressingMode::Immediate => base,
        AddressingMode::ZeroPage => M::read_val(v, base) as u16,
        AddressingMode::ZeroPage_X => M::read_val(v, base).wrapping_add(x) as u16,
        AddressingMode::ZeroPage_Y => M::read_val(v, base).wrapping_add(y) as u16,
        AddressingMode::RELATIVE => relative_target(base, M::read_val(v, base)),
        AddressingMode::Absolute => read16_val::<M>(v, base),
        AddressingMode::Absolute_X => read16_val::<M>(v, base).wrapping_add(x as u16),
        AddressingMode::Absolute_Y => read16_val::<M>(v, base).wrapping_add(y as u16),
        AddressingMode::Indirect => read16_wrapped_val::<M>(
            read16_post::<M>(v, base),
            read16_val::<M>(v, base),
        ),
        AddressingMode::Indirect_X => read16_wrapped_val::<M>(
            M::post_read(v, base),
            M::read_val(v, base).wrapping_add(x) as u16,
        ),
        AddressingMode::Indirect_Y => read16_wrapped_val::<M>(
            M::post_read(v, base),
            M::read_val(v, base) as u16,
        ).wrapping_add(y as u16),
    }
}

/// The memory state once an operand address under `mode` has been
/// resolved, from state `v` with the operand bytes at `base`.
pub open spec fn resolve_post<M: Mem>(v: M::V, mode: AddressingMode, base: u16, x: u8, y: u8) -> M::V {
    match mode {
        AddressingMode::Implied => v,
        AddressingMode::Accumulator => v,
        AddressingMode::Immediate => v,
        AddressingMode::ZeroPage => M::post_read(v, base),
        AddressingMode::ZeroPage_X => M::post_read(v, base),
        AddressingMode::ZeroPage_Y => M::post_read(v, base),
        AddressingMode::RELATIVE => M::post_read(v, base),
        AddressingMode::Absolute => read16_post::<M>(v, base),
        AddressingMode::Absolute_X => read16_post::<M>(v, base),
        AddressingMode::Absolute_Y => read16_post::<M>(v, base),
        AddressingMode::Indirect => read16_wrapped_post::<M>(
            read16_post::<M>(v, base),
            read16_val::<M>(v, base),
        ),
        AddressingMode::Indirect_X => read16_wrapped_post::<M>(
            M::post_read(v, base),
            M::read_val(v, base).wrapping_add(x) as u16,
        ),
        AddressingMode::Indirect_Y => read16_wrapped_post::<M>(
            M::post_read(v, base),
            M::read_val(v, base) as u16,
        ),
    }
}

/// The page-one address the stack pointer names.
pub open spec fn stack_addr(sp: u8) -> u16 {
    (0x0100 + sp as u16) as u16
}

/// A one-byte stack push succeeds.
pub open spec fn spush_ok<M: Mem>(v: M::V, sp: u8) -> bool {
    M::ok_write(v, stack_addr(sp))
}

/// The memory state after a one-byte stack push.
pub open spec fn spush_post<M: Mem>(v: M::V, sp: u8, b: u8) -> M::V {
    M::post_write(v, stack_addr(sp), b)
}

/// A two-byte stack push (high byte first) succeeds.
pub open spec fn spush16_ok<M: Mem>(v: M::V, sp: u8, w: u16) -> bool {
    spush_ok::<M>(v, sp) && spush_ok::<M>(
        spush_post::<M>(v, sp, (w >> 8) as u8),
        sp.wrapping_sub(1),
    )
}

/// The memory state after a two-byte stack push (high byte first).
pub open spec fn spush16_post<M: Mem>(v: M::V, sp: u8, w: u16) -> M::V {
    spush_post::<M>(
        spush_post::<M>(v, sp, (w >> 8) as u8),
        sp.wrapping_sub(1),
        (w & 0x00FF) as u8,
    )
}

/// A one-byte stack pop succeeds.
pub open spec fn spop_ok<M: Mem>(v: M::V, sp: u8) -> bool {
    M::ok_read(v, stack_addr(sp.wrapping_add(1)))
}

/// The byte a one-byte stack pop returns.
pub open spec fn spop_val<M: Mem>(v: M::V, sp: u8) -> u8 {
    M::read_val(v, stack_addr(sp.wrapping_add(1)))
}

/// The memory state after a one-byte stack pop.
pub open spec fn spop_post<M: Mem>(v: M::V, sp: u8) -> M::V {
    M::post_read(v, stack_addr(sp.wrapping_add(1)))
}

/// A two-byte stack pop (low byte first) succeeds.
pub open spec fn spop16_ok<M: Mem>(v: M::V, sp: u8) -> bool {
    spop_ok::<M>(v, sp) && spop_ok::<M>(spop_post::<M>(v, sp), sp.wrapping_add(1))
}

/// The word a two-byte stack pop returns.
pub open spec fn spop16_val<M: Mem>(v: M::V, sp: u8) -> u16 {
    word(spop_val::<M>(v, sp), spop_val::<M>(spop_post::<M>(v, sp), sp.wrapping_add(1)))
}

/// The memory state after a two-byte stack pop.
pub open spec fn spop16_post<M: Mem>(v: M::V, sp: u8) -> M::V {
    spop_post::<M>(spop_post::<M>(v, sp), sp.wrapping_add(1))
}


/// One snapshot of the whole machine in spec land: the six register-file
/// scalars and the memory's view.
#[verifier::ext_equal]
pub struct MachineState<V> {
    pub a: u8,
    pub x: u8,
    pub y: u8,
    pub p: u8,
    pub sp: u8,
    pub pc: u16,
    pub mem: V,
}

/// What one instruction does to a machine state: it completes in a new
/// state, or some memory access of it faults.
pub enum InstrSpec<V> {
    Completed(MachineState<V>),
    Faulted,
}

/// What one fetch-decode-execute round does: BRK halts the run, an
/// ordinary instruction yields the next state, or an access faults.
pub enum StepSpec<V> {
    Halt(MachineState<V>),
    Next(MachineState<V>),
    Fail,
}

/// What a bounded run does: BRK halts it in a final state, the budget
/// runs out in an intermediate state, or a step faults.
pub enum RunSpec<V> {
    Halted(MachineState<V>),
    OutOfFuel(MachineState<V>),
    Failed,
}

/// Whether resolving the operand address succeeds, from a machine state.
pub open spec fn ms_resolvable<M: Mem>(s: MachineState<M::V>, mode: AddressingMode) -> bool {
    resolve_ok::<M>(s.mem, mode, s.pc, s.x, s.y)
}

/// The operand's effective address, from a machine state.
pub open spec fn ms_addr<M: Mem>(s: MachineState<M::V>, mode: AddressingMode) -> u16 {
    resolve_addr::<M>(s.mem, mode, s.pc, s.x, s.y)
}

/// The memory once the operand address is resolved.
pub open spec fn ms_after_resolve<M: Mem>(s: MachineState<M::V>, mode: AddressingMode) -> M::V {
    resolve_post::<M>(s.mem, mode, s.pc, s.x, s.y)
}

/// Resolving and reading the operand both succeed.
pub open spec fn ms_readable<M: Mem>(s: MachineState<M::V>, mode: AddressingMode) -> bool {
    ms_resolvable::<M>(s, mode) && M::ok_read(ms_after_resolve::<M>(s, mode), ms_addr::<M>(s, mode))
}

/// The operand byte.
pub open spec fn ms_value<M: Mem>(s: MachineState<M::V>, mode: AddressingMode) -> u8 {
    M::read_val(ms_after_resolve::<M>(s, mode), ms_addr::<M>(s, mode))
}

/// The memory once the operand byte has been read.
pub open spec fn ms_after_read<M: Mem>(s: MachineState<M::V>, mode: AddressingMode) -> M::V {
    M::post_read(ms_after_resolve::<M>(s, mode), ms_addr::<M>(s, mode))
}

/// Resolving and writing through the operand address both succeed.
pub open spec fn ms_writable<M: Mem>(s: MachineState<M::V>, mode: AddressingMode) -> bool {
    ms_resolvable::<M>(s, mode) && M::ok_write(ms_after_resolve::<M>(s, mode), ms_addr::<M>(s, mode))
}

/// The memory once `b` has been stored through the operand address.
pub open spec fn ms_after_write<M: Mem>(s: MachineState<M::V>, mode: AddressingMode, b: u8) -> M::V {
    M::post_write(ms_after_resolve::<M>(s, mode), ms_addr::<M>(s, mode), b)
}

/// Resolving, reading and writing back all succeed.
pub open spec fn ms_rmw_ok<M: Mem>(s: MachineState<M::V>, mode: AddressingMode) -> bool {
    ms_readable::<M>(s, mode) && M::ok_write(ms_after_read::<M>(s, mode), ms_addr::<M>(s, mode))
}

/// The memory once the operand was read and `b` written back in its place.
pub open spec fn ms_after_rmw<M: Mem>(s: MachineState<M::V>, mode: AddressingMode, b: u8) -> M::V {
    M::post_write(ms_after_read::<M>(s, mode), ms_addr::<M>(s, mode), b)
}

/// What a load into A does to a machine state.
pub open spec fn lda_spec<M: Mem>(s: MachineState<M::V>, mode: AddressingMode) -> InstrSpec<M::V> {
    if ms_readable::<M>(s, mode) {
        InstrSpec::Completed(
            MachineState {
                a: ms_value::<M>(s, mode),
                p: zn_update(s.p, ms_value::<M>(s, mode)),
                mem: ms_after_read::<M>(s, mode),
                ..s
            },
        )
    } else {
        InstrSpec::Faulted
    }
}

/// What a load into X does to a machine state.
pub open spec fn ldx_spec<M: Mem>(s: MachineState<M::V>, mode: AddressingMode) -> InstrSpec<M::V> {
    if ms_readable::<M>(s, mode) {
        InstrSpec::Completed(
            MachineState {
                x: ms_value::<M>(s, mode),
                p: zn_update(s.p, ms_value::<M>(s, mode)),
                mem: ms_after_read::<M>(s, mode),
                ..s
            },
        )
    } else {
        InstrSpec::Faulted
    }
}

/// What a load into Y does to a machine state.
pub open spec fn ldy_spec<M: Mem>(s: MachineState<M::V>, mode: AddressingMode) -> InstrSpec<M::V> {
    if ms_readable::<M>(s, mode) {
        InstrSpec::Completed(
            MachineState {
                y: ms_value::<M>(s, mode),
                p: zn_update(s.p, ms_value::<M>(s, mode)),
                mem: ms_after_read::<M>(s, mode),
                ..s
            },
        )
    } else {
        InstrSpec::Faulted
    }
}

/// What LAX does: A and X both take the operand.
pub open spec fn lax_spec<M: Mem>(s: MachineState<M::V>, mode: AddressingMode) -> InstrSpec<M::V> {
    if ms_readable::<M>(s, mode) {
        InstrSpec::Completed(
            MachineState {
                a: ms_value::<M>(s, mode),
                x: ms_value::<M>(s, mode),
                p: zn_update(s.p, ms_value::<M>(s, mode)),
                mem: ms_after_read::<M>(s, mode),
                ..s
            },
        )
    } else {
        InstrSpec::Faulted
    }
}

/// What a store of `b` does to a machine state.
pub open spec fn st_spec<M: Mem>(s: MachineState<M::V>, mode: AddressingMode, b: u8) -> InstrSpec<
    M::V,
> {
    if ms_writable::<M>(s, mode) {
        InstrSpec::Completed(MachineState { mem: ms_after_write::<M>(s, mode, b), ..s })
    } else {
        InstrSpec::Faulted
    }
}

/// What an A-combining instruction does, given the combined result.
pub open spec fn alu_a_spec<M: Mem>(
    s: MachineState<M::V>,
    mode: AddressingMode,
    result: u8,
) -> InstrSpec<M::V> {
    if ms_readable::<M>(s, mode) {
        InstrSpec::Completed(
            MachineState {
                a: result,
                p: zn_update(s.p, result),
                mem: ms_after_read::<M>(s, mode),
                ..s
            },
        )
    } else {
        InstrSpec::Faulted
    }
}

/// What ADC does to a machine state.
pub open spec fn adc_spec<M: Mem>(s: MachineState<M::V>, mode: AddressingMode) -> InstrSpec<M::V> {
    if ms_readable::<M>(s, mode) {
        InstrSpec::Completed(
            MachineState {
                a: adc_result(s.a, ms_value::<M>(s, mode), flag_set(s.p, CARRY_FLAG)),
                p: adc_status(s.p, s.a, ms_value::<M>(s, mode)),
                mem: ms_after_read::<M>(s, mode),
                ..s
            },
        )
    } else {
        InstrSpec::Faulted
    }
}

/// What SBC does to a machine state.
pub open spec fn sbc_spec<M: Mem>(s: MachineState<M::V>, mode: AddressingMode) -> InstrSpec<M::V> {
    if ms_readable::<M>(s, mode) {
        InstrSpec::Completed(
            MachineState {
                a: sbc_result(s.a, ms_value::<M>(s, mode), flag_set(s.p, CARRY_FLAG)),
                p: sbc_status(s.p, s.a, ms_value::<M>(s, mode)),
                mem: ms_after_read::<M>(s, mode),
                ..s
            },
        )
    } else {
        InstrSpec::Faulted
    }
}

/// What a compare of register value `reg` does to a machine state.
pub open spec fn cmp_spec<M: Mem>(
    s: MachineState<M::V>,
    mode: AddressingMode,
    reg: u8,
) -> InstrSpec<M::V> {
    if ms_readable::<M>(s, mode) {
        InstrSpec::Completed(
            MachineState {
                p: cmp_status(s.p, reg, ms_value::<M>(s, mode)),
                mem: ms_after_read::<M>(s, mode),
                ..s
            },
        )
    } else {
        InstrSpec::Faulted
    }
}

/// What BIT does to a machine state.
pub open spec fn bit_spec<M: Mem>(s: MachineState<M::V>, mode: AddressingMode) -> InstrSpec<M::V> {
    if ms_readable::<M>(s, mode) {
        InstrSpec::Completed(
            MachineState {
                p: bit_status(s.p, s.a, ms_value::<M>(s, mode)),
                mem: ms_after_read::<M>(s, mode),
                ..s
            },
        )
    } else {
        InstrSpec::Faulted
    }
}

/// What a shift or rotate does: the accumulator in place, or the operand
/// byte read, transformed to `nv(value, carry-in)` and written back.
pub open spec fn shift_spec<M: Mem>(
    s: MachineState<M::V>,
    mode: AddressingMode,
    nv: u8,
    carry_out: bool,
    on_acc: bool,
) -> InstrSpec<M::V> {
    if on_acc {
        InstrSpec::Completed(MachineState { a: nv, p: shift_status(s.p, carry_out, nv), ..s })
    } else if ms_rmw_ok::<M>(s, mode) {
        InstrSpec::Completed(
            MachineState {
                p: shift_status(s.p, carry_out, nv),
                mem: ms_after_rmw::<M>(s, mode, nv),
                ..s
            },
        )
    } else {
        InstrSpec::Faulted
    }
}

/// What ASL does to a machine state.
pub open spec fn asl_spec<M: Mem>(s: MachineState<M::V>, mode: AddressingMode) -> InstrSpec<M::V> {
    if mode is Accumulator {
        shift_spec::<M>(s, mode, asl_result(s.a), s.a & 0x80 != 0, true)
    } else {
        shift_spec::<M>(
            s,
            mode,
            asl_result(ms_value::<M>(s, mode)),
            ms_value::<M>(s, mode) & 0x80 != 0,
            false,
        )
    }
}

/// What LSR does to a machine state.
pub open spec fn lsr_spec<M: Mem>(s: MachineState<M::V>, mode: AddressingMode) -> InstrSpec<M::V> {
    if mode is Accumulator {
        shift_spec::<M>(s, mode, lsr_result(s.a), s.a & 0x01 != 0, true)
    } else {
        shift_spec::<M>(
            s,
            mode,
            lsr_result(ms_value::<M>(s, mode)),
            ms_value::<M>(s, mode) & 0x01 != 0,
            false,
        )
    }
}

/// What ROL does to a machine state.
pub open spec fn rol_spec<M: Mem>(s: MachineState<M::V>, mode: AddressingMode) -> InstrSpec<M::V> {
    if mode is Accumulator {
        shift_spec::<M>(s, mode, rol_result(s.a, flag_set(s.p, CARRY_FLAG)), s.a & 0x80 != 0, true)
    } else {
        shift_spec::<M>(
            s,
            mode,
            rol_result(ms_value::<M>(s, mode), flag_set(s.p, CARRY_FLAG)),
            ms_value::<M>(s, mode) & 0x80 != 0,
            false,
        )
    }
}

/// What ROR does to a machine state.
pub open spec fn ror_spec<M: Mem>(s: MachineState<M::V>, mode: AddressingMode) -> InstrSpec<M::V> {
    if mode is Accumulator {
        shift_spec::<M>(s, mode, ror_result(s.a, flag_set(s.p, CARRY_FLAG)), s.a & 0x01 != 0, true)
    } else {
        shift_spec::<M>(
            s,
            mode,
            ror_result(ms_value::<M>(s, mode), flag_set(s.p, CARRY_FLAG)),
            ms_value::<M>(s, mode) & 0x01 != 0,
            false,
        )
    }
}

/// What INC or DEC does: the operand byte replaced by `result`, Z and N
/// derived from it.
pub open spec fn rmw_zn_spec<M: Mem>(
    s: MachineState<M::V>,
    mode: AddressingMode,
    result: u8,
) -> InstrSpec<M::V> {
    if ms_rmw_ok::<M>(s, mode) {
        InstrSpec::Completed(
            MachineState {
                p: zn_update(s.p, result),
                mem: ms_after_rmw::<M>(s, mode, result),
                ..s
            },
        )
    } else {
        InstrSpec::Faulted
    }
}

/// What a conditional branch does: nothing when not taken, else the
/// program counter moves to the relative target.
pub open spec fn branch_spec<M: Mem>(
    s: MachineState<M::V>,
    mode: AddressingMode,
    taken: bool,
) -> InstrSpec<M::V> {
    if !taken {
        InstrSpec::Completed(s)
    } else if ms_resolvable::<M>(s, mode) {
        InstrSpec::Completed(
            MachineState { pc: ms_addr::<M>(s, mode), mem: ms_after_resolve::<M>(s, mode), ..s },
        )
    } else {
        InstrSpec::Faulted
    }
}

/// What JMP does to a machine state.
pub open spec fn jmp_spec<M: Mem>(s: MachineState<M::V>, mode: AddressingMode) -> InstrSpec<M::V> {
    if ms_resolvable::<M>(s, mode) {
        InstrSpec::Completed(
            MachineState { pc: ms_addr::<M>(s, mode), mem: ms_after_resolve::<M>(s, mode), ..s },
        )
    } else {
        InstrSpec::Faulted
    }
}

/// What JSR does: the address of the instruction's last byte pushed,
/// then the jump.
pub open spec fn jsr_spec<M: Mem>(s: MachineState<M::V>, mode: AddressingMode) -> InstrSpec<M::V> {
    let ret = s.pc.wrapping_add(1);
    let pushed = spush16_post::<M>(s.mem, s.sp, ret);
    if spush16_ok::<M>(s.mem, s.sp, ret) && resolve_ok::<M>(pushed, mode, s.pc, s.x, s.y) {
        InstrSpec::Completed(
            MachineState {
                pc: resolve_addr::<M>(pushed, mode, s.pc, s.x, s.y),
                mem: resolve_post::<M>(pushed, mode, s.pc, s.x, s.y),
                sp: s.sp.wrapping_sub(1).wrapping_sub(1),
                ..s
            },
        )
    } else {
        InstrSpec::Faulted
    }
}

/// What RTS does: the return address popped, resumed one byte past it.
pub open spec fn rts_spec<M: Mem>(s: MachineState<M::V>) -> InstrSpec<M::V> {
    if spop16_ok::<M>(s.mem, s.sp) {
        InstrSpec::Completed(
            MachineState {
                pc: spop16_val::<M>(s.mem, s.sp).wrapping_add(1),
                mem: spop16_post::<M>(s.mem, s.sp),
                sp: s.sp.wrapping_add(1).wrapping_add(1),
                ..s
            },
        )
    } else {
        InstrSpec::Faulted
    }
}

/// What RTI does: the status pulled, then the program counter popped.
pub open spec fn rti_spec<M: Mem>(s: MachineState<M::V>) -> InstrSpec<M::V> {
    let v1 = spop_post::<M>(s.mem, s.sp);
    let sp1 = s.sp.wrapping_add(1);
    if spop_ok::<M>(s.mem, s.sp) && spop16_ok::<M>(v1, sp1) {
        InstrSpec::Completed(
            MachineState {
                p: status_after_pull(spop_val::<M>(s.mem, s.sp)),
                pc: spop16_val::<M>(v1, sp1),
                mem: spop16_post::<M>(v1, sp1),
                sp: sp1.wrapping_add(1).wrapping_add(1),
                ..s
            },
        )
    } else {
        InstrSpec::Faulted
    }
}

/// What a push of `b` does to a machine state.
pub open spec fn push_spec<M: Mem>(s: MachineState<M::V>, b: u8) -> InstrSpec<M::V> {
    if spush_ok::<M>(s.mem, s.sp) {
        InstrSpec::Completed(
            MachineState {
                mem: spush_post::<M>(s.mem, s.sp, b),
                sp: s.sp.wrapping_sub(1),
                ..s
            },
        )
    } else {
        InstrSpec::Faulted
    }
}

/// What PLA does to a machine state.
pub open spec fn pla_spec<M: Mem>(s: MachineState<M::V>) -> InstrSpec<M::V> {
    if spop_ok::<M>(s.mem, s.sp) {
        InstrSpec::Completed(
            MachineState {
                a: spop_val::<M>(s.mem, s.sp),
                p: zn_update(s.p, spop_val::<M>(s.mem, s.sp)),
                mem: spop_post::<M>(s.mem, s.sp),
                sp: s.sp.wrapping_add(1),
                ..s
            },
        )
    } else {
        InstrSpec::Faulted
    }
}

/// What PLP does to a machine state.
pub open spec fn plp_spec<M: Mem>(s: MachineState<M::V>) -> InstrSpec<M::V> {
    if spop_ok::<M>(s.mem, s.sp) {
        InstrSpec::Completed(
            MachineState {
                p: status_after_pull(spop_val::<M>(s.mem, s.sp)),
                mem: spop_post::<M>(s.mem, s.sp),
                sp: s.sp.wrapping_add(1),
                ..s
            },
        )
    } else {
        InstrSpec::Faulted
    }
}


/// What one decoded instruction among the opcode bytes 0x00-0x3F does.
pub open spec fn instr_spec_q0<M: Mem>(
    s: MachineState<M::V>,
    code: u8,
    mode: AddressingMode,
) -> InstrSpec<M::V> {
    match code {
        0x29 | 0x25 | 0x35 | 0x2D | 0x3D | 0x39 | 0x21 | 0x31 => alu_a_spec::<M>(
            s,
            mode,
            s.a & ms_value::<M>(s, mode),
        ),
        0x09 | 0x05 | 0x15 | 0x0D | 0x1D | 0x19 | 0x01 | 0x11 => alu_a_spec::<M>(
            s,
            mode,
            s.a | ms_value::<M>(s, mode),
        ),
        0x0A | 0x06 | 0x16 | 0x0E | 0x1E => asl_spec::<M>(s, mode),
        0x2A | 0x26 | 0x36 | 0x2E | 0x3E => rol_spec::<M>(s, mode),
        0x30 => branch_spec::<M>(s, mode, flag_set(s.p, NEGATIVE_FLAG)),
        0x10 => branch_spec::<M>(s, mode, !flag_set(s.p, NEGATIVE_FLAG)),
        0x24 | 0x2C => bit_spec::<M>(s, mode),
        0x20 => jsr_spec::<M>(s, mode),
        0x18 => InstrSpec::Completed(MachineState { p: s.p & !CARRY_FLAG, ..s }),
        0x38 => InstrSpec::Completed(MachineState { p: s.p | CARRY_FLAG, ..s }),
        0x08 => push_spec::<M>(s, php_stack_byte(s.p)),
        0x28 => plp_spec::<M>(s),
        0x04 | 0x14 | 0x34 | 0x0C | 0x1C | 0x3C | 0x1A | 0x3A => InstrSpec::Completed(s),
        _ => InstrSpec::Faulted,
    }
}

/// What one decoded instruction among the opcode bytes 0x40-0x7F does.
pub open spec fn instr_spec_q1<M: Mem>(
    s: MachineState<M::V>,
    code: u8,
    mode: AddressingMode,
) -> InstrSpec<M::V> {
    match code {
        0x69 | 0x65 | 0x75 | 0x6D | 0x7D | 0x79 | 0x61 | 0x71 => adc_spec::<M>(s, mode),
        0x49 | 0x45 | 0x55 | 0x4D | 0x5D | 0x59 | 0x41 | 0x51 => alu_a_spec::<M>(
            s,
            mode,
            s.a ^ ms_value::<M>(s, mode),
        ),
        0x4A | 0x46 | 0x56 | 0x4E | 0x5E => lsr_spec::<M>(s, mode),
        0x6A | 0x66 | 0x76 | 0x6E | 0x7E => ror_spec::<M>(s, mode),
        0x50 => branch_spec::<M>(s, mode, !flag_set(s.p, OVERFLOW_FLAG)),
        0x70 => branch_spec::<M>(s, mode, flag_set(s.p, OVERFLOW_FLAG)),
        0x4C | 0x6C => jmp_spec::<M>(s, mode),
        0x60 => rts_spec::<M>(s),
        0x40 => rti_spec::<M>(s),
        0x58 => InstrSpec::Completed(MachineState { p: s.p & !INTERRUPT_DISABLE_FLAG, ..s }),
        0x78 => InstrSpec::Completed(MachineState { p: s.p | INTERRUPT_DISABLE_FLAG, ..s }),
        0x48 => push_spec::<M>(s, s.a),
        0x68 => pla_spec::<M>(s),
        0x44 | 0x64 | 0x54 | 0x74 | 0x5C | 0x7C | 0x5A | 0x7A => InstrSpec::Completed(s),
        _ => InstrSpec::Faulted,
    }
}

/// What one decoded instruction among the opcode bytes 0x80-0xBF does.
pub open spec fn instr_spec_q2<M: Mem>(
    s: MachineState<M::V>,
    code: u8,
    mode: AddressingMode,
) -> InstrSpec<M::V> {
    match code {
        0x90 => branch_spec::<M>(s, mode, !flag_set(s.p, CARRY_FLAG)),
        0xB0 => branch_spec::<M>(s, mode, flag_set(s.p, CARRY_FLAG)),
        0xA9 | 0xA5 | 0xB5 | 0xAD | 0xBD | 0xB9 | 0xA1 | 0xB1 => lda_spec::<M>(s, mode),
        0xA2 | 0xA6 | 0xB6 | 0xAE | 0xBE => ldx_spec::<M>(s, mode),
        0xA0 | 0xA4 | 0xB4 | 0xAC | 0xBC => ldy_spec::<M>(s, mode),
        0x85 | 0x95 | 0x8D | 0x9D | 0x99 | 0x81 | 0x91 => st_spec::<M>(s, mode, s.a),
        0x86 | 0x96 | 0x8E => st_spec::<M>(s, mode, s.x),
        0x84 | 0x94 | 0x8C => st_spec::<M>(s, mode, s.y),
        0x88 => InstrSpec::Completed(
            MachineState {
                y: s.y.wrapping_sub(1),
                p: zn_update(s.p, s.y.wrapping_sub(1)),
                ..s
            },
        ),
        0xAA => InstrSpec::Completed(MachineState { x: s.a, p: zn_update(s.p, s.a), ..s }),
        0xA8 => InstrSpec::Completed(MachineState { y: s.a, p: zn_update(s.p, s.a), ..s }),
        0xBA => InstrSpec::Completed(MachineState { x: s.sp, p: zn_update(s.p, s.sp), ..s }),
        0x8A => InstrSpec::Completed(MachineState { a: s.x, p: zn_update(s.p, s.x), ..s }),
        0x9A => InstrSpec::Completed(MachineState { sp: s.x, ..s }),
        0x98 => InstrSpec::Completed(MachineState { a: s.y, p: zn_update(s.p, s.y), ..s }),
        0xB8 => InstrSpec::Completed(MachineState { p: s.p & !OVERFLOW_FLAG, ..s }),
        0x80 => InstrSpec::Completed(s),
        0xA7 | 0xB7 | 0xAF | 0xBF | 0xA3 | 0xB3 => lax_spec::<M>(s, mode),
        _ => InstrSpec::Faulted,
    }
}

/// What one decoded instruction among the opcode bytes 0xC0-0xFF does.
pub open spec fn instr_spec_q3<M: Mem>(
    s: MachineState<M::V>,
    code: u8,
    mode: AddressingMode,
) -> InstrSpec<M::V> {
    match code {
        0xE9 | 0xE5 | 0xF5 | 0xED | 0xFD | 0xF9 | 0xE1 | 0xF1 => sbc_spec::<M>(s, mode),
        0xC9 | 0xC5 | 0xD5 | 0xCD | 0xDD | 0xD9 | 0xC1 | 0xD1 => cmp_spec::<M>(s, mode, s.a),
        0xE0 | 0xE4 | 0xEC => cmp_spec::<M>(s, mode, s.x),
        0xC0 | 0xC4 | 0xCC => cmp_spec::<M>(s, mode, s.y),
        0xC6 | 0xD6 | 0xCE | 0xDE => rmw_zn_spec::<M>(
            s,
            mode,
            ms_value::<M>(s, mode).wrapping_sub(1),
        ),
        0xE6 | 0xF6 | 0xEE | 0xFE => rmw_zn_spec::<M>(
            s,
            mode,
            ms_value::<M>(s, mode).wrapping_add(1),
        ),
        0xCA => InstrSpec::Completed(
            MachineState {
                x: s.x.wrapping_sub(1),
                p: zn_update(s.p, s.x.wrapping_sub(1)),
                ..s
            },
        ),
        0xE8 => InstrSpec::Completed(
            MachineState {
                x: s.x.wrapping_add(1),
                p: zn_update(s.p, s.x.wrapping_add(1)),
                ..s
            },
        ),
        0xC8 => InstrSpec::Completed(
            MachineState {
                y: s.y.wrapping_add(1),
                p: zn_update(s.p, s.y.wrapping_add(1)),
                ..s
            },
        ),
        0xD0 => branch_spec::<M>(s, mode, !flag_set(s.p, ZERO_FLAG)),
        0xF0 => branch_spec::<M>(s, mode, flag_set(s.p, ZERO_FLAG)),
        0xD8 => InstrSpec::Completed(MachineState { p: s.p & !DECIMAL_FLAG, ..s }),
        0xF8 => InstrSpec::Completed(MachineState { p: s.p | DECIMAL_FLAG, ..s }),
        0xEA | 0xD4 | 0xF4 | 0xDC | 0xFC | 0xDA | 0xFA => InstrSpec::Completed(s),
        _ => InstrSpec::Faulted,
    }
}

/// What one decoded instruction does, quadrant by quadrant.
pub open spec fn instr_spec<M: Mem>(
    s: MachineState<M::V>,
    code: u8,
    mode: AddressingMode,
) -> InstrSpec<M::V> {
    if code < 0x40 {
        instr_spec_q0::<M>(s, code, mode)
    } else if code < 0x80 {
        instr_spec_q1::<M>(s, code, mode)
    } else if code < 0xC0 {
        instr_spec_q2::<M>(s, code, mode)
    } else {
        instr_spec_q3::<M>(s, code, mode)
    }
}

/// What one fetch-decode-execute round does to a machine state: the
/// opcode byte is fetched at the program counter, BRK halts the run, an
/// unknown byte or a faulting access fails, and otherwise the decoded
/// instruction runs and the program counter advances by the
/// instruction's length when the instruction left it alone.
pub open spec fn step_spec<M: Mem>(s: MachineState<M::V>) -> StepSpec<M::V> {
    if !M::ok_read(s.mem, s.pc) {
        StepSpec::Fail
    } else {
        let code = M::read_val(s.mem, s.pc);
        let s1 = MachineState { pc: s.pc.wrapping_add(1), mem: M::post_read(s.mem, s.pc), ..s };
        if !known_opcode(code) {
            StepSpec::Fail
        } else if code == 0 {
            StepSpec::Halt(s1)
        } else {
            match instr_spec::<M>(s1, code, mode_of(code)) {
                InstrSpec::Faulted => StepSpec::Fail,
                InstrSpec::Completed(s2) => StepSpec::Next(
                    if s2.pc == s1.pc {
                        MachineState {
                            pc: s1.pc.wrapping_add((mode_len(mode_of(code)) - 1) as u16),
                            ..s2
                        }
                    } else {
                        s2
                    },
                ),
            }
        }
    }
}

/// What a run of at most `fuel` instructions does to a machine state.
pub open spec fn run_spec<M: Mem>(s: MachineState<M::V>, fuel: u64) -> RunSpec<M::V>
    decreases fuel,
{
    if fuel == 0 {
        RunSpec::OutOfFuel(s)
    } else {
        match step_spec::<M>(s) {
            StepSpec::Fail => RunSpec::Failed,
            StepSpec::Halt(s1) => RunSpec::Halted(s1),
            StepSpec::Next(s1) => run_spec::<M>(s1, (fuel - 1) as u64),
        }
    }
}

impl<M: Mem> CPU<M> {
    /// Well-formedness: the memory behind the bus is sound.
    pub open spec fn inv(self) -> bool {
        M::inv(self.bus@)
    }

    /// The machine state this register file and memory make up.
    pub open spec fn state(self) -> MachineState<M::V> {
        MachineState {
            a: self.register_a,
            x: self.register_x,
            y: self.register_y,
            p: self.status,
            sp: self.stack_pointer,
            pc: self.program_counter,
            mem: self.bus@,
        }
    }

    /// All six register-file scalars agree.
    pub open spec fn same_regs(self, o: Self) -> bool {
        &&& self.register_a == o.register_a
        &&& self.register_x == o.register_x
        &&& self.register_y == o.register_y
        &&& self.status == o.status
        &&& self.stack_pointer == o.stack_pointer
        &&& self.program_counter == o.program_counter
    }

    /// Every register-file scalar but A and the status agrees.
    pub open spec fn keeps_all_but_a_p(self, o: Self) -> bool {
        &&& self.register_x == o.register_x
        &&& self.register_y == o.register_y
        &&& self.stack_pointer == o.stack_pointer
        &&& self.program_counter == o.program_counter
    }

    /// Every register-file scalar but X and the status agrees.
    pub open spec fn keeps_all_but_x_p(self, o: Self) -> bool {
        &&& self.register_a == o.register_a
        &&& self.register_y == o.register_y
        &&& self.stack_pointer == o.stack_pointer
        &&& self.program_counter == o.program_counter
    }

    /// Every register-file scalar but Y and the status agrees.
    pub open spec fn keeps_all_but_y_p(self, o: Self) -> bool {
        &&& self.register_a == o.register_a
        &&& self.register_x == o.register_x
        &&& self.stack_pointer == o.stack_pointer
        &&& self.program_counter == o.program_counter
    }

    /// Every register-file scalar but the status agrees.
    pub open spec fn keeps_all_but_p(self, o: Self) -> bool {
        &&& self.register_a == o.register_a
        &&& self.register_x == o.register_x
        &&& self.register_y == o.register_y
        &&& self.stack_pointer == o.stack_pointer
        &&& self.program_counter == o.program_counter
    }

    /// A, X, Y and the program counter agree.
    pub open spec fn keeps_axy_pc(self, o: Self) -> bool {
        &&& self.register_a == o.register_a
        &&& self.register_x == o.register_x
        &&& self.register_y == o.register_y
        &&& self.program_counter == o.program_counter
    }

    /// Every register-file scalar but the program counter agrees.
    pub open spec fn keeps_all_but_pc(self, o: Self) -> bool {
        &&& self.register_a == o.register_a
        &&& self.register_x == o.register_x
        &&& self.register_y == o.register_y
        &&& self.status == o.status
        &&& self.stack_pointer == o.stack_pointer
    }

    /// Whether every read that resolving the operand address takes will
    /// succeed, from this state.
    pub open spec fn operand_resolvable(self, mode: AddressingMode) -> bool {
        resolve_ok::<M>(self.bus@, mode, self.program_counter, self.register_x, self.register_y)
    }

    /// The effective address the operand resolves to, from this state.
    pub open spec fn operand_addr(self, mode: AddressingMode) -> u16 {
        resolve_addr::<M>(self.bus@, mode, self.program_counter, self.register_x, self.register_y)
    }

    /// The memory state once the operand address is resolved.
    pub open spec fn mem_after_resolve(self, mode: AddressingMode) -> M::V {
        resolve_post::<M>(self.bus@, mode, self.program_counter, self.register_x, self.register_y)
    }

    /// Resolving the operand address and reading through it succeed.
    pub open spec fn operand_readable(self, mode: AddressingMode) -> bool {
        self.operand_resolvable(mode) && M::ok_read(
            self.mem_after_resolve(mode),
            self.operand_addr(mode),
        )
    }

    /// The operand byte the instruction works on.
    pub open spec fn operand_value(self, mode: AddressingMode) -> u8 {
        M::read_val(self.mem_after_resolve(mode), self.operand_addr(mode))
    }

    /// The memory state once the operand byte has been read.
    pub open spec fn mem_after_operand_read(self, mode: AddressingMode) -> M::V {
        M::post_read(self.mem_after_resolve(mode), self.operand_addr(mode))
    }

    /// Resolving the operand address and writing through it succeed.
    pub open spec fn operand_writable(self, mode: AddressingMode) -> bool {
        self.operand_resolvable(mode) && M::ok_write(
            self.mem_after_resolve(mode),
            self.operand_addr(mode),
        )
    }

    /// The memory state once `value` has been stored through the operand
    /// address.
    pub open spec fn mem_after_operand_write(self, mode: AddressingMode, value: u8) -> M::V {
        M::post_write(self.mem_after_resolve(mode), self.operand_addr(mode), value)
    }

    /// Resolving, reading and writing back through the operand address
    /// all succeed.
    pub open spec fn operand_rmw_ok(self, mode: AddressingMode) -> bool {
        self.operand_readable(mode) && M::ok_write(
            self.mem_after_operand_read(mode),
            self.operand_addr(mode),
        )
    }

    /// The memory state once the operand has been read and `value`
    /// written back in its place.
    pub open spec fn mem_after_rmw(self, mode: AddressingMode, value: u8) -> M::V {
        M::post_write(self.mem_after_operand_read(mode), self.operand_addr(mode), value)
    }

    /// A fresh register file over the given memory: registers cleared,
    /// the status and stack pointer at their reset values.
    pub fn new(bus: M) -> (r: CPU<M>)
        ensures
            r.register_a == 0u8 && r.register_x == 0u8 && r.register_y == 0u8,
            r.status == RESET_STATUS,
            r.stack_pointer == RESET_STACK_POINTER,
            r.program_counter == 0u16,
            r.bus == bus,
    {
        CPU {
            register_a: 0,
            register_x: 0,
            register_y: 0,
            status: RESET_STATUS,
            stack_pointer: RESET_STACK_POINTER,
            program_counter: 0,
            bus,
        }
    }

    /// Resolves the operand bytes at `addr` under `mode` to an effective
    /// address; `Implied` and `Accumulator` name none and are a fault.
    pub fn get_absolute_address(&mut self, mode: &AddressingMode, addr: u16) -> (r: Result<
        u16,
        Fault,
    >)
        requires
            old(self).inv(),
        ensures
            final(self).inv(),
            old(self).same_regs(*final(self)),
            r is Ok <==> resolve_ok::<M>(
                old(self).bus@,
                *mode,
                addr,
                old(self).register_x,
                old(self).register_y,
            ),
            r matches Ok(a) ==> a == resolve_addr::<M>(
                old(self).bus@,
                *mode,
                addr,
                old(self).register_x,
                old(self).register_y,
            ) && final(self).bus@ == resolve_post::<M>(
                old(self).bus@,
                *mode,
                addr,
                old(self).register_x,
                old(self).register_y,
            ),
            (*mode is Implied || *mode is Accumulator) ==> r == Err::<u16, Fault>(
                Fault::NoOperandAddress,
            ) && final(self).bus@ == old(self).bus@,
    {
        match mode {
            AddressingMode::Implied => Err(Fault::NoOperandAddress),
            AddressingMode::Accumulator => Err(Fault::NoOperandAddress),
            AddressingMode::Immediate => Ok(addr),
            AddressingMode::ZeroPage => {
                let pos = self.bus.mem_read(addr)?;
                Ok(pos as u16)
            },
            AddressingMode::ZeroPage_X => {
                let pos = self.bus.mem_read(addr)?;
                Ok(pos.wrapping_add(self.register_x) as u16)
            },
            AddressingMode::ZeroPage_Y => {
                let pos = self.bus.mem_read(addr)?;
                Ok(pos.wrapping_add(self.register_y) as u16)
            },
            AddressingMode::Absolute => mem_read_u16(&mut self.bus, addr),
            AddressingMode::Absolute_X => {
                let base = mem_read_u16(&mut self.bus, addr)?;
                Ok(base.wrapping_add(self.register_x as u16))
            },
            AddressingMode::Absolute_Y => {
                let base = mem_read_u16(&mut self.bus, addr)?;
                Ok(base.wrapping_add(self.register_y as u16))
            },
            AddressingMode::Indirect => {
                let base = mem_read_u16(&mut self.bus, addr)?;
                mem_read_u16_page_wrap(&mut self.bus, base)
            },
            AddressingMode::Indirect_X => {
                let base = self.bus.mem_read(addr)?;
                let ptr = base.wrapping_add(self.register_x);
                mem_read_u16_page_wrap(&mut self.bus, ptr as u16)
            },
            AddressingMode::Indirect_Y => {
                let base = self.bus.mem_read(addr)?;
                let deref = mem_read_u16_page_wrap(&mut self.bus, base as u16)?;
                Ok(deref.wrapping_add(self.register_y as u16))
            },
            AddressingMode::RELATIVE => {
                let off = self.bus.mem_read(addr)?;
                if off < 0x80 {
                    Ok(addr.wrapping_add(1).wrapping_add(off as u16))
                } else {
                    Ok(addr.wrapping_add(1).wrapping_add((off as u16) + 0xFF00))
                }
            },
        }
    }

    /// Resolves the current instruction's operand address: the operand
    /// bytes sit at the program counter.
    fn get_operand_address(&mut self, mode: &AddressingMode) -> (r: Result<u16, Fault>)
        requires
            old(self).inv(),
        ensures
            final(self).inv(),
            old(self).same_regs(*final(self)),
            r is Ok <==> old(self).operand_resolvable(*mode),
            r matches Ok(a) ==> a == old(self).operand_addr(*mode) && final(self).bus@ == old(self).mem_after_resolve(*mode),
            (*mode is Implied || *mode is Accumulator) ==> r == Err::<u16, Fault>(
                Fault::NoOperandAddress,
            ) && final(self).bus@ == old(self).bus@,
    {
        let pc = self.program_counter;
        self.get_absolute_address(mode, pc)
    }

    /// Resolves the operand address and reads the operand byte.
    fn read_operand(&mut self, mode: &AddressingMode) -> (r: Result<u8, Fault>)
        requires
            old(self).inv(),
        ensures
            final(self).inv(),
            old(self).same_regs(*final(self)),
            r is Ok <==> old(self).operand_readable(*mode),
            r matches Ok(v) ==> v == old(self).operand_value(*mode) && final(self).bus@ == old(self).mem_after_operand_read(*mode),
    {
        let addr = self.get_operand_address(mode)?;
        self.bus.mem_read(addr)
    }

    /// Derives the zero and negative flags from a fresh result.
    fn update_zero_and_negative_flags(&mut self, result: u8)
        ensures
            *final(self) == (CPU { status: zn_update(old(self).status, result), ..*old(self) }),
    {
        self.status = update_zn(self.status, result);
    }

    /// Pushes one byte at the stack pointer's page-one address, then
    /// moves the pointer down.
    fn stack_push(&mut self, value: u8) -> (r: Result<(), Fault>)
        requires
            old(self).inv(),
        ensures
            final(self).inv(),
            old(self).keeps_axy_pc(*final(self)) && final(self).status == old(self).status
                && final(self).stack_pointer == (if r is Ok {
                old(self).stack_pointer.wrapping_sub(1)
            } else {
                old(self).stack_pointer
            }),
            r is Ok <==> spush_ok::<M>(old(self).bus@, old(self).stack_pointer),
            r is Ok ==> final(self).bus@ == spush_post::<M>(
                old(self).bus@,
                old(self).stack_pointer,
                value,
            ),
            r is Err ==> final(self).bus@ == old(self).bus@,
    {
        let a = 0x0100 + (self.stack_pointer as u16);
        match self.bus.mem_write(a, value) {
            Ok(()) => {
                self.stack_pointer = self.stack_pointer.wrapping_sub(1);
                Ok(())
            },
            Err(e) => Err(e),
        }
    }

    /// Moves the stack pointer up, then reads the byte it names.
    fn stack_pop(&mut self) -> (r: Result<u8, Fault>)
        requires
            old(self).inv(),
        ensures
            final(self).inv(),
            old(self).keeps_axy_pc(*final(self)) && final(self).status == old(self).status
                && final(self).stack_pointer == old(self).stack_pointer.wrapping_add(1),
            r is Ok <==> spop_ok::<M>(old(self).bus@, old(self).stack_pointer),
            r matches Ok(b) ==> b == spop_val::<M>(old(self).bus@, old(self).stack_pointer)
                && final(self).bus@ == spop_post::<M>(old(self).bus@, old(self).stack_pointer),
            r is Err ==> final(self).bus@ == old(self).bus@,
    {
        self.stack_pointer = self.stack_pointer.wrapping_add(1);
        self.bus.mem_read(0x0100 + (self.stack_pointer as u16))
    }

    /// Pushes a word, high byte first.
    fn stack_push_u16(&mut self, value: u16) -> (r: Result<(), Fault>)
        requires
            old(self).inv(),
        ensures
            final(self).inv(),
            old(self).keeps_axy_pc(*final(self)) && final(self).status == old(self).status,
            r is Ok <==> spush16_ok::<M>(old(self).bus@, old(self).stack_pointer, value),
            r is Ok ==> final(self).bus@ == spush16_post::<M>(
                old(self).bus@,
                old(self).stack_pointer,
                value,
            ) && final(self).stack_pointer == old(self).stack_pointer.wrapping_sub(1).wrapping_sub(
                1,
            ),
    {
        let hi = (value >> 8) as u8;
        let lo = (value & 0x00FF) as u8;
        self.stack_push(hi)?;
        self.stack_push(lo)
    }

    /// Pops a word, low byte first.
    fn stack_pop_u16(&mut self) -> (r: Result<u16, Fault>)
        requires
            old(self).inv(),
        ensures
            final(self).inv(),
            old(self).keeps_axy_pc(*final(self)) && final(self).status == old(self).status,
            r is Ok <==> spop16_ok::<M>(old(self).bus@, old(self).stack_pointer),
            r matches Ok(w) ==> w == spop16_val::<M>(old(self).bus@, old(self).stack_pointer)
                && final(self).bus@ == spop16_post::<M>(old(self).bus@, old(self).stack_pointer)
                && final(self).stack_pointer == old(self).stack_pointer.wrapping_add(
                1,
            ).wrapping_add(1),
    {
        let lo = self.stack_pop()?;
        let hi = self.stack_pop()?;
        Ok(((hi as u16) << 8) | (lo as u16))
    }

    /// LDA: loads the operand into A and derives Z and N from it.
    pub fn lda(&mut self, mode: &AddressingMode) -> (r: Result<(), Fault>)
        requires
            old(self).inv(),
        ensures
            final(self).inv(),
            old(self).keeps_all_but_a_p(*final(self)),
            r is Ok <==> old(self).operand_readable(*mode),
            r is Ok ==> final(self).register_a == old(self).operand_value(*mode) && final(self).status == zn_update(old(self).status, old(self).operand_value(*mode)) && final(self).bus@ == old(self).mem_after_operand_read(*mode),
            r is Err ==> final(self).register_a == old(self).register_a && final(self).status
                == old(self).status,
    {
        let value = self.read_operand(mode)?;
        self.register_a = value;
        self.update_zero_and_negative_flags(value);
        Ok(())
    }

    /// LDX: loads the operand into X and derives Z and N from it.
    pub fn ldx(&mut self, mode: &AddressingMode) -> (r: Result<(), Fault>)
        requires
            old(self).inv(),
        ensures
            final(self).inv(),
            old(self).keeps_all_but_x_p(*final(self)),
            r is Ok <==> old(self).operand_readable(*mode),
            r is Ok ==> final(self).register_x == old(self).operand_value(*mode) && final(self).status == zn_update(old(self).status, old(self).operand_value(*mode)) && final(self).bus@ == old(self).mem_after_operand_read(*mode),
            r is Err ==> final(self).register_x == old(self).register_x && final(self).status
                == old(self).status,
    {
        let value = self.read_operand(mode)?;
        self.register_x = value;
        self.update_zero_and_negative_flags(value);
        Ok(())
    }

    /// LDY: loads the operand into Y and derives Z and N from it.
    pub fn ldy(&mut self, mode: &AddressingMode) -> (r: Result<(), Fault>)
        requires
            old(self).inv(),
        ensures
            final(self).inv(),
            old(self).keeps_all_but_y_p(*final(self)),
            r is Ok <==> old(self).operand_readable(*mode),
            r is Ok ==> final(self).register_y == old(self).operand_value(*mode) && final(self).status == zn_update(old(self).status, old(self).operand_value(*mode)) && final(self).bus@ == old(self).mem_after_operand_read(*mode),
            r is Err ==> final(self).register_y == old(self).register_y && final(self).status
                == old(self).status,
    {
        let value = self.read_operand(mode)?;
        self.register_y = value;
        self.update_zero_and_negative_flags(value);
        Ok(())
    }

    /// STA: stores A through the operand address; no flag changes.
    pub fn sta(&mut self, mode: &AddressingMode) -> (r: Result<(), Fault>)
        requires
            old(self).inv(),
        ensures
            final(self).inv(),
            old(self).same_regs(*final(self)),
            r is Ok <==> old(self).operand_writable(*mode),
            r is Ok ==> final(self).bus@ == old(self).mem_after_operand_write(
                *mode,
                old(self).register_a,
            ),
    {
        let addr = self.get_operand_address(mode)?;
        self.bus.mem_write(addr, self.register_a)
    }

    /// STX: stores X through the operand address; no flag changes.
    pub fn stx(&mut self, mode: &AddressingMode) -> (r: Result<(), Fault>)
        requires
            old(self).inv(),
        ensures
            final(self).inv(),
            old(self).same_regs(*final(self)),
            r is Ok <==> old(self).operand_writable(*mode),
            r is Ok ==> final(self).bus@ == old(self).mem_after_operand_write(
                *mode,
                old(self).register_x,
            ),
    {
        let addr = self.get_operand_address(mode)?;
        self.bus.mem_write(addr, self.register_x)
    }

    /// STY: stores Y through the operand address; no flag changes.
    pub fn sty(&mut self, mode: &AddressingMode) -> (r: Result<(), Fault>)
        requires
            old(self).inv(),
        ensures
            final(self).inv(),
            old(self).same_regs(*final(self)),
            r is Ok <==> old(self).operand_writable(*mode),
            r is Ok ==> final(self).bus@ == old(self).mem_after_operand_write(
                *mode,
                old(self).register_y,
            ),
    {
        let addr = self.get_operand_address(mode)?;
        self.bus.mem_write(addr, self.register_y)
    }

    /// AND: bitwise-ands the operand into A; Z and N from the result.
    pub fn and(&mut self, mode: &AddressingMode) -> (r: Result<(), Fault>)
        requires
            old(self).inv(),
        ensures
            final(self).inv(),
            old(self).keeps_all_but_a_p(*final(self)),
            r is Ok <==> old(self).operand_readable(*mode),
            r is Ok ==> ({
                let result = old(self).register_a & old(self).operand_value(*mode);
                final(self).register_a == result && final(self).status == zn_update(
                    old(self).status,
                    result,
                ) && final(self).bus@ == old(self).mem_after_operand_read(*mode)
            }),
            r is Err ==> final(self).register_a == old(self).register_a && final(self).status
                == old(self).status,
    {
        let value = self.read_operand(mode)?;
        self.register_a = self.register_a & value;
        self.update_zero_and_negative_flags(self.register_a);
        Ok(())
    }

    /// ORA: bitwise-ors the operand into A; Z and N from the result.
    pub fn ora(&mut self, mode: &AddressingMode) -> (r: Result<(), Fault>)
        requires
            old(self).inv(),
        ensures
            final(self).inv(),
            old(self).keeps_all_but_a_p(*final(self)),
            r is Ok <==> old(self).operand_readable(*mode),
            r is Ok ==> ({
                let result = old(self).register_a | old(self).operand_value(*mode);
                final(self).register_a == result && final(self).status == zn_update(
                    old(self).status,
                    result,
                ) && final(self).bus@ == old(self).mem_after_operand_read(*mode)
            }),
            r is Err ==> final(self).register_a == old(self).register_a && final(self).status
                == old(self).status,
    {
        let value = self.read_operand(mode)?;
        self.register_a = self.register_a | value;
        self.update_zero_and_negative_flags(self.register_a);
        Ok(())
    }

    /// EOR: bitwise-xors the operand into A; Z and N from the result.
    pub fn eor(&mut self, mode: &AddressingMode) -> (r: Result<(), Fault>)
        requires
            old(self).inv(),
        ensures
            final(self).inv(),
            old(self).keeps_all_but_a_p(*final(self)),
            r is Ok <==> old(self).operand_readable(*mode),
            r is Ok ==> ({
                let result = old(self).register_a ^ old(self).operand_value(*mode);
                final(self).register_a == result && final(self).status == zn_update(
                    old(self).status,
                    result,
                ) && final(self).bus@ == old(self).mem_after_operand_read(*mode)
            }),
            r is Err ==> final(self).register_a == old(self).register_a && final(self).status
                == old(self).status,
    {
        let value = self.read_operand(mode)?;
        self.register_a = self.register_a ^ value;
        self.update_zero_and_negative_flags(self.register_a);
        Ok(())
    }

    /// TAX: copies A into X; Z and N from the copied value.
    pub fn tax(&mut self)
        ensures
            *final(self) == (CPU {
                register_x: old(self).register_a,
                status: zn_update(old(self).status, old(self).register_a),
                ..*old(self)
            }),
    {
        self.register_x = self.register_a;
        self.update_zero_and_negative_flags(self.register_x);
    }

    /// TAY: copies A into Y; Z and N from the copied value.
    pub fn tay(&mut self)
        ensures
            *final(self) == (CPU {
                register_y: old(self).register_a,
                status: zn_update(old(self).status, old(self).register_a),
                ..*old(self)
            }),
    {
        self.register_y = self.register_a;
        self.update_zero_and_negative_flags(self.register_y);
    }

    /// TSX: copies the stack pointer into X; Z and N from the copied value.
    pub fn tsx(&mut self)
        ensures
            *final(self) == (CPU {
                register_x: old(self).stack_pointer,
                status: zn_update(old(self).status, old(self).stack_pointer),
                ..*old(self)
            }),
    {
        self.register_x = self.stack_pointer;
        self.update_zero_and_negative_flags(self.register_x);
    }

    /// TXA: copies X into A; Z and N from the copied value.
    pub fn txa(&mut self)
        ensures
            *final(self) == (CPU {
                register_a: old(self).register_x,
                status: zn_update(old(self).status, old(self).register_x),
                ..*old(self)
            }),
    {
        self.register_a = self.register_x;
        self.update_zero_and_negative_flags(self.register_a);
    }

    /// TXS: copies X into the stack pointer; the one transfer that leaves
    /// the flags alone.
    pub fn txs(&mut self)
        ensures
            *final(self) == (CPU { stack_pointer: old(self).register_x, ..*old(self) }),
    {
        self.stack_pointer = self.register_x;
    }

    /// TYA: copies Y into A; Z and N from the copied value.
    pub fn tya(&mut self)
        ensures
            *final(self) == (CPU {
                register_a: old(self).register_y,
                status: zn_update(old(self).status, old(self).register_y),
                ..*old(self)
            }),
    {
        self.register_a = self.register_y;
        self.update_zero_and_negative_flags(self.register_a);
    }

    /// INX: increments X with 8-bit wrap; Z and N from the result.
    pub fn inx(&mut self)
        ensures
            *final(self) == (CPU {
                register_x: old(self).register_x.wrapping_add(1),
                status: zn_update(old(self).status, old(self).register_x.wrapping_add(1)),
                ..*old(self)
            }),
    {
        self.register_x = self.register_x.wrapping_add(1);
        self.update_zero_and_negative_flags(self.register_x);
    }

    /// INY: increments Y with 8-bit wrap; Z and N from the result.
    pub fn iny(&mut self)
        ensures
            *final(self) == (CPU {
                register_y: old(self).register_y.wrapping_add(1),
                status: zn_update(old(self).status, old(self).register_y.wrapping_add(1)),
                ..*old(self)
            }),
    {
        self.register_y = self.register_y.wrapping_add(1);
        self.update_zero_and_negative_flags(self.register_y);
    }

    /// DEX: decrements X with 8-bit wrap; Z and N from the result.
    pub fn dex(&mut self)
        ensures
            *final(self) == (CPU {
                register_x: old(self).register_x.wrapping_sub(1),
                status: zn_update(old(self).status, old(self).register_x.wrapping_sub(1)),
                ..*old(self)
            }),
    {
        self.register_x = self.register_x.wrapping_sub(1);
        self.update_zero_and_negative_flags(self.register_x);
    }

    /// DEY: decrements Y with 8-bit wrap; Z and N from the result.
    pub fn dey(&mut self)
        ensures
            *final(self) == (CPU {
                register_y: old(self).register_y.wrapping_sub(1),
                status: zn_update(old(self).status, old(self).register_y.wrapping_sub(1)),
                ..*old(self)
            }),
    {
        self.register_y = self.register_y.wrapping_sub(1);
        self.update_zero_and_negative_flags(self.register_y);
    }

    /// INC: increments the operand byte in place; Z and N from the result.
    pub fn inc(&mut self, mode: &AddressingMode) -> (r: Result<(), Fault>)
        requires
            old(self).inv(),
        ensures
            final(self).inv(),
            old(self).keeps_all_but_p(*final(self)),
            r is Ok <==> old(self).operand_rmw_ok(*mode),
            r is Ok ==> ({
                let result = old(self).operand_value(*mode).wrapping_add(1);
                final(self).bus@ == old(self).mem_after_rmw(*mode, result) && final(self).status
                    == zn_update(old(self).status, result)
            }),
            r is Err ==> final(self).status == old(self).status,
    {
        let addr = self.get_operand_address(mode)?;
        let value = self.bus.mem_read(addr)?;
        let result = value.wrapping_add(1);
        self.bus.mem_write(addr, result)?;
        self.update_zero_and_negative_flags(result);
        Ok(())
    }

    /// DEC: decrements the operand byte in place; Z and N from the result.
    pub fn dec(&mut self, mode: &AddressingMode) -> (r: Result<(), Fault>)
        requires
            old(self).inv(),
        ensures
            final(self).inv(),
            old(self).keeps_all_but_p(*final(self)),
            r is Ok <==> old(self).operand_rmw_ok(*mode),
            r is Ok ==> ({
                let result = old(self).operand_value(*mode).wrapping_sub(1);
                final(self).bus@ == old(self).mem_after_rmw(*mode, result) && final(self).status
                    == zn_update(old(self).status, result)
            }),
            r is Err ==> final(self).status == old(self).status,
    {
        let addr = self.get_operand_address(mode)?;
        let value = self.bus.mem_read(addr)?;
        let result = value.wrapping_sub(1);
        self.bus.mem_write(addr, result)?;
        self.update_zero_and_negative_flags(result);
        Ok(())
    }

    /// CLC: clears the carry flag.
    pub fn clc(&mut self)
        ensures
            *final(self) == (CPU { status: old(self).status & !CARRY_FLAG, ..*old(self) }),
    {
        self.status = self.status & !CARRY_FLAG;
    }

    /// SEC: sets the carry flag.
    pub fn sec(&mut self)
        ensures
            *final(self) == (CPU { status: old(self).status | CARRY_FLAG, ..*old(self) }),
    {
        self.status = self.status | CARRY_FLAG;
    }

    /// CLD: clears the decimal flag; this core never honours it.
    pub fn cld(&mut self)
        ensures
            *final(self) == (CPU { status: old(self).status & !DECIMAL_FLAG, ..*old(self) }),
    {
        self.status = self.status & !DECIMAL_FLAG;
    }

    /// SED: sets the decimal flag; this core never honours it.
    pub fn sed(&mut self)
        ensures
            *final(self) == (CPU { status: old(self).status | DECIMAL_FLAG, ..*old(self) }),
    {
        self.status = self.status | DECIMAL_FLAG;
    }

    /// CLI: clears the interrupt-disable flag.
    pub fn cli(&mut self)
        ensures
            *final(self) == (CPU {
                status: old(self).status & !INTERRUPT_DISABLE_FLAG,
                ..*old(self)
            }),
    {
        self.status = self.status & !INTERRUPT_DISABLE_FLAG;
    }

    /// SEI: sets the interrupt-disable flag.
    pub fn sei(&mut self)
        ensures
            *final(self) == (CPU {
                status: old(self).status | INTERRUPT_DISABLE_FLAG,
                ..*old(self)
            }),
    {
        self.status = self.status | INTERRUPT_DISABLE_FLAG;
    }

    /// CLV: clears the overflow flag.
    pub fn clv(&mut self)
        ensures
            *final(self) == (CPU { status: old(self).status & !OVERFLOW_FLAG, ..*old(self) }),
    {
        self.status = self.status & !OVERFLOW_FLAG;
    }

    /// NOP: changes nothing; the dispatcher consumes any operand bytes.
    pub fn nop(&mut self)
        ensures
            *final(self) == *old(self),
    {
    }

    /// LAX: loads the operand into A and X at once; Z and N from it.
    pub fn lax(&mut self, mode: &AddressingMode) -> (r: Result<(), Fault>)
        requires
            old(self).inv(),
        ensures
            final(self).inv(),
            final(self).register_y == old(self).register_y && final(self).stack_pointer == old(self).stack_pointer && final(self).program_counter == old(self).program_counter,
            r is Ok <==> old(self).operand_readable(*mode),
            r is Ok ==> ({
                let v = old(self).operand_value(*mode);
                final(self).register_a == v && final(self).register_x == v && final(self).status
                    == zn_update(old(self).status, v) && final(self).bus@ == old(self).mem_after_operand_read(*mode)
            }),
            r is Err ==> final(self).register_a == old(self).register_a && final(self).register_x
                == old(self).register_x && final(self).status == old(self).status,
    {
        self.lda(mode)?;
        self.tax();
        proof {
            crate::alu::lemma_zn_update_idempotent(old(self).status, old(self).operand_value(*mode));
        }
        Ok(())
    }

    /// ADC: adds the operand and the carry into A; C, V, Z and N follow.
    pub fn adc(&mut self, mode: &AddressingMode) -> (r: Result<(), Fault>)
        requires
            old(self).inv(),
        ensures
            final(self).inv(),
            old(self).keeps_all_but_a_p(*final(self)),
            r is Ok <==> old(self).operand_readable(*mode),
            r is Ok ==> ({
                let v = old(self).operand_value(*mode);
                let c = flag_set(old(self).status, CARRY_FLAG);
                final(self).register_a == adc_result(old(self).register_a, v, c) && final(self).status == adc_status(old(self).status, old(self).register_a, v) && final(self).bus@ == old(self).mem_after_operand_read(*mode)
            }),
            r is Err ==> final(self).register_a == old(self).register_a && final(self).status
                == old(self).status,
    {
        let value = self.read_operand(mode)?;
        let carry_in: bool = self.status & CARRY_FLAG != 0;
        let carry_bit: u16 = if carry_in {
            1
        } else {
            0
        };
        let sum: u16 = self.register_a as u16 + value as u16 + carry_bit;
        let result: u8 = (sum & 0xFF) as u8;
        proof {
            lemma_low_byte(sum);
        }
        self.status = set_flag(self.status, CARRY_FLAG, sum > 0xFF);
        self.status = set_flag(
            self.status,
            OVERFLOW_FLAG,
            (self.register_a ^ result) & (value ^ result) & 0x80 != 0,
        );
        self.register_a = result;
        self.update_zero_and_negative_flags(result);
        Ok(())
    }

    /// SBC: subtracts the operand and the borrow from A; C set when no
    /// borrow occurred, V, Z and N follow.
    pub fn sbc(&mut self, mode: &AddressingMode) -> (r: Result<(), Fault>)
        requires
            old(self).inv(),
        ensures
            final(self).inv(),
            old(self).keeps_all_but_a_p(*final(self)),
            r is Ok <==> old(self).operand_readable(*mode),
            r is Ok ==> ({
                let v = old(self).operand_value(*mode);
                let c = flag_set(old(self).status, CARRY_FLAG);
                final(self).register_a == sbc_result(old(self).register_a, v, c) && final(self).status == sbc_status(old(self).status, old(self).register_a, v) && final(self).bus@ == old(self).mem_after_operand_read(*mode)
            }),
            r is Err ==> final(self).register_a == old(self).register_a && final(self).status
                == old(self).status,
    {
        let value = self.read_operand(mode)?;
        let carry_in: bool = self.status & CARRY_FLAG != 0;
        let borrow: u16 = if carry_in {
            0
        } else {
            1
        };
        let diff: u16 = (self.register_a as u16 + 0x100) - (value as u16) - borrow;
        let result: u8 = (diff & 0xFF) as u8;
        proof {
            lemma_low_byte(diff);
            vstd::arithmetic::div_mod::lemma_mod_add_multiples_vanish(
                sbc_diff(old(self).register_a, value, carry_in),
                256,
            );
            vstd::arithmetic::div_mod::lemma_mod_bound(
                sbc_diff(old(self).register_a, value, carry_in),
                256,
            );
            vstd::arithmetic::div_mod::lemma_small_mod(diff as nat % 256, 256);
        }
        self.status = set_flag(self.status, CARRY_FLAG, diff > 0xFF);
        self.status = set_flag(
            self.status,
            OVERFLOW_FLAG,
            (self.register_a & 0x80) != (value & 0x80) && (self.register_a & 0x80) != (result
                & 0x80),
        );
        self.register_a = result;
        self.update_zero_and_negative_flags(result);
        Ok(())
    }

    /// CMP: compares A against the operand; C iff `A >= M`, Z and N from
    /// the wrapped difference.
    pub fn cmp(&mut self, mode: &AddressingMode) -> (r: Result<(), Fault>)
        requires
            old(self).inv(),
        ensures
            final(self).inv(),
            old(self).keeps_all_but_p(*final(self)),
            r is Ok <==> old(self).operand_readable(*mode),
            r is Ok ==> final(self).status == cmp_status(
                old(self).status,
                old(self).register_a,
                old(self).operand_value(*mode),
            ) && final(self).bus@ == old(self).mem_after_operand_read(*mode),
            r is Err ==> final(self).status == old(self).status,
    {
        let value = self.read_operand(mode)?;
        proof {
            lemma_sub8_wrapping(old(self).register_a, old(self).operand_value(*mode));
        }
        self.status = set_flag(self.status, CARRY_FLAG, self.register_a >= value);
        self.update_zero_and_negative_flags(self.register_a.wrapping_sub(value));
        Ok(())
    }

    /// CPX: compares X against the operand, as CMP does for A.
    pub fn cpx(&mut self, mode: &AddressingMode) -> (r: Result<(), Fault>)
        requires
            old(self).inv(),
        ensures
            final(self).inv(),
            old(self).keeps_all_but_p(*final(self)),
            r is Ok <==> old(self).operand_readable(*mode),
            r is Ok ==> final(self).status == cmp_status(
                old(self).status,
                old(self).register_x,
                old(self).operand_value(*mode),
            ) && final(self).bus@ == old(self).mem_after_operand_read(*mode),
            r is Err ==> final(self).status == old(self).status,
    {
        let value = self.read_operand(mode)?;
        proof {
            lemma_sub8_wrapping(old(self).register_x, old(self).operand_value(*mode));
        }
        self.status = set_flag(self.status, CARRY_FLAG, self.register_x >= value);
        self.update_zero_and_negative_flags(self.register_x.wrapping_sub(value));
        Ok(())
    }

    /// CPY: compares Y against the operand, as CMP does for A.
    pub fn cpy(&mut self, mode: &AddressingMode) -> (r: Result<(), Fault>)
        requires
            old(self).inv(),
        ensures
            final(self).inv(),
            old(self).keeps_all_but_p(*final(self)),
            r is Ok <==> old(self).operand_readable(*mode),
            r is Ok ==> final(self).status == cmp_status(
                old(self).status,
                old(self).register_y,
                old(self).operand_value(*mode),
            ) && final(self).bus@ == old(self).mem_after_operand_read(*mode),
            r is Err ==> final(self).status == old(self).status,
    {
        let value = self.read_operand(mode)?;
        proof {
            lemma_sub8_wrapping(old(self).register_y, old(self).operand_value(*mode));
        }
        self.status = set_flag(self.status, CARRY_FLAG, self.register_y >= value);
        self.update_zero_and_negative_flags(self.register_y.wrapping_sub(value));
        Ok(())
    }

    /// BIT: tests A against the operand; Z from the conjunction, N and V
    /// copied from the operand's top bits; A is untouched.
    pub fn bit(&mut self, mode: &AddressingMode) -> (r: Result<(), Fault>)
        requires
            old(self).inv(),
        ensures
            final(self).inv(),
            old(self).keeps_all_but_p(*final(self)),
            r is Ok <==> old(self).operand_readable(*mode),
            r is Ok ==> final(self).status == bit_status(
                old(self).status,
                old(self).register_a,
                old(self).operand_value(*mode),
            ) && final(self).bus@ == old(self).mem_after_operand_read(*mode),
            r is Err ==> final(self).status == old(self).status,
    {
        let value = self.read_operand(mode)?;
        let result = self.register_a & value;
        self.status = set_flag(self.status, ZERO_FLAG, result == 0);
        self.status = (self.status & !(NEGATIVE_FLAG | OVERFLOW_FLAG)) | (value & (NEGATIVE_FLAG
            | OVERFLOW_FLAG));
        Ok(())
    }

    /// ASL: shifts the accumulator or the operand byte left; the old top
    /// bit becomes the carry, Z and N follow the result.
    pub fn asl(&mut self, mode: &AddressingMode) -> (r: Result<(), Fault>)
        requires
            old(self).inv(),
        ensures
            final(self).inv(),
            *mode is Accumulator ==> r is Ok && *final(self) == (CPU {
                register_a: asl_result(old(self).register_a),
                status: shift_status(
                    old(self).status,
                    old(self).register_a & 0x80 != 0,
                    asl_result(old(self).register_a),
                ),
                ..*old(self)
            }),
            *mode !is Accumulator ==> ({
                &&& old(self).keeps_all_but_p(*final(self))
                &&& (r is Ok <==> old(self).operand_rmw_ok(*mode))
                &&& r is Ok ==> ({
                    let v = old(self).operand_value(*mode);
                    final(self).bus@ == old(self).mem_after_rmw(*mode, asl_result(v)) && final(self).status == shift_status(old(self).status, v & 0x80 != 0, asl_result(v))
                })
                &&& r is Err ==> final(self).status == old(self).status
            }),
    {
        if matches!(mode, AddressingMode::Accumulator) {
            let v = self.register_a;
            self.register_a = v << 1;
            self.status = set_flag(self.status, CARRY_FLAG, v & 0x80 != 0);
            self.update_zero_and_negative_flags(v << 1);
            Ok(())
        } else {
            let addr = self.get_operand_address(mode)?;
            let v = self.bus.mem_read(addr)?;
            self.bus.mem_write(addr, v << 1)?;
            self.status = set_flag(self.status, CARRY_FLAG, v & 0x80 != 0);
            self.update_zero_and_negative_flags(v << 1);
            Ok(())
        }
    }

    /// LSR: shifts the accumulator or the operand byte right; the old low
    /// bit becomes the carry, Z and N follow the result.
    pub fn lsr(&mut self, mode: &AddressingMode) -> (r: Result<(), Fault>)
        requires
            old(self).inv(),
        ensures
            final(self).inv(),
            *mode is Accumulator ==> r is Ok && *final(self) == (CPU {
                register_a: lsr_result(old(self).register_a),
                status: shift_status(
                    old(self).status,
                    old(self).register_a & 0x01 != 0,
                    lsr_result(old(self).register_a),
                ),
                ..*old(self)
            }),
            *mode !is Accumulator ==> ({
                &&& old(self).keeps_all_but_p(*final(self))
                &&& (r is Ok <==> old(self).operand_rmw_ok(*mode))
                &&& r is Ok ==> ({
                    let v = old(self).operand_value(*mode);
                    final(self).bus@ == old(self).mem_after_rmw(*mode, lsr_result(v)) && final(self).status == shift_status(old(self).status, v & 0x01 != 0, lsr_result(v))
                })
                &&& r is Err ==> final(self).status == old(self).status
            }),
    {
        if matches!(mode, AddressingMode::Accumulator) {
            let v = self.register_a;
            self.register_a = v >> 1;
            self.status = set_flag(self.status, CARRY_FLAG, v & 0x01 != 0);
            self.update_zero_and_negative_flags(v >> 1);
            Ok(())
        } else {
            let addr = self.get_operand_address(mode)?;
            let v = self.bus.mem_read(addr)?;
            self.bus.mem_write(addr, v >> 1)?;
            self.status = set_flag(self.status, CARRY_FLAG, v & 0x01 != 0);
            self.update_zero_and_negative_flags(v >> 1);
            Ok(())
        }
    }

    /// ROL: rotates the accumulator or the operand byte left through the
    /// carry; the old top bit becomes the carry, Z and N follow.
    pub fn rol(&mut self, mode: &AddressingMode) -> (r: Result<(), Fault>)
        requires
            old(self).inv(),
        ensures
            final(self).inv(),
            *mode is Accumulator ==> r is Ok && *final(self) == (CPU {
                register_a: rol_result(old(self).register_a, flag_set(old(self).status, CARRY_FLAG)),
                status: shift_status(
                    old(self).status,
                    old(self).register_a & 0x80 != 0,
                    rol_result(old(self).register_a, flag_set(old(self).status, CARRY_FLAG)),
                ),
                ..*old(self)
            }),
            *mode !is Accumulator ==> ({
                &&& old(self).keeps_all_but_p(*final(self))
                &&& (r is Ok <==> old(self).operand_rmw_ok(*mode))
                &&& r is Ok ==> ({
                    let v = old(self).operand_value(*mode);
                    let nv = rol_result(v, flag_set(old(self).status, CARRY_FLAG));
                    final(self).bus@ == old(self).mem_after_rmw(*mode, nv) && final(self).status
                        == shift_status(old(self).status, v & 0x80 != 0, nv)
                })
                &&& r is Err ==> final(self).status == old(self).status
            }),
    {
        let carry_in: bool = self.status & CARRY_FLAG != 0;
        let low: u8 = if carry_in {
            1
        } else {
            0
        };
        if matches!(mode, AddressingMode::Accumulator) {
            let v = self.register_a;
            self.register_a = (v << 1) | low;
            self.status = set_flag(self.status, CARRY_FLAG, v & 0x80 != 0);
            self.update_zero_and_negative_flags((v << 1) | low);
            Ok(())
        } else {
            let addr = self.get_operand_address(mode)?;
            let v = self.bus.mem_read(addr)?;
            self.bus.mem_write(addr, (v << 1) | low)?;
            self.status = set_flag(self.status, CARRY_FLAG, v & 0x80 != 0);
            self.update_zero_and_negative_flags((v << 1) | low);
            Ok(())
        }
    }

    /// ROR: rotates the accumulator or the operand byte right through the
    /// carry; the old low bit becomes the carry, Z and N follow.
    pub fn ror(&mut self, mode: &AddressingMode) -> (r: Result<(), Fault>)
        requires
            old(self).inv(),
        ensures
            final(self).inv(),
            *mode is Accumulator ==> r is Ok && *final(self) == (CPU {
                register_a: ror_result(old(self).register_a, flag_set(old(self).status, CARRY_FLAG)),
                status: shift_status(
                    old(self).status,
                    old(self).register_a & 0x01 != 0,
                    ror_result(old(self).register_a, flag_set(old(self).status, CARRY_FLAG)),
                ),
                ..*old(self)
            }),
            *mode !is Accumulator ==> ({
                &&& old(self).keeps_all_but_p(*final(self))
                &&& (r is Ok <==> old(self).operand_rmw_ok(*mode))
                &&& r is Ok ==> ({
                    let v = old(self).operand_value(*mode);
                    let nv = ror_result(v, flag_set(old(self).status, CARRY_FLAG));
                    final(self).bus@ == old(self).mem_after_rmw(*mode, nv) && final(self).status
                        == shift_status(old(self).status, v & 0x01 != 0, nv)
                })
                &&& r is Err ==> final(self).status == old(self).status
            }),
    {
        let carry_in: bool = self.status & CARRY_FLAG != 0;
        let high: u8 = if carry_in {
            0x80
        } else {
            0
        };
        if matches!(mode, AddressingMode::Accumulator) {
            let v = self.register_a;
            self.register_a = (v >> 1) | high;
            self.status = set_flag(self.status, CARRY_FLAG, v & 0x01 != 0);
            self.update_zero_and_negative_flags((v >> 1) | high);
            Ok(())
        } else {
            let addr = self.get_operand_address(mode)?;
            let v = self.bus.mem_read(addr)?;
            self.bus.mem_write(addr, (v >> 1) | high)?;
            self.status = set_flag(self.status, CARRY_FLAG, v & 0x01 != 0);
            self.update_zero_and_negative_flags((v >> 1) | high);
            Ok(())
        }
    }

    /// Reassigns the program counter to the operand's target when the
    /// branch condition held.
    fn branch_if(&mut self, mode: &AddressingMode, taken: bool) -> (r: Result<(), Fault>)
        requires
            old(self).inv(),
        ensures
            final(self).inv(),
            old(self).keeps_all_but_pc(*final(self)),
            !taken ==> r is Ok && *final(self) == *old(self),
            taken ==> ((r is Ok <==> old(self).operand_resolvable(*mode)) && (r is Ok ==> final(self).program_counter == old(self).operand_addr(*mode) && final(self).bus@ == old(self).mem_after_resolve(*mode)) && (r is Err ==> final(self).program_counter == old(self).program_counter)),
    {
        if taken {
            let addr = self.get_operand_address(mode)?;
            self.program_counter = addr;
        }
        Ok(())
    }

    /// BCC: branches to the relative target when the carry flag is clear.
    pub fn bcc(&mut self, mode: &AddressingMode) -> (r: Result<(), Fault>)
        requires
            old(self).inv(),
        ensures
            final(self).inv(),
            old(self).keeps_all_but_pc(*final(self)),
            ({
                let taken = !flag_set(old(self).status, CARRY_FLAG);
                &&& (!taken ==> r is Ok && *final(self) == *old(self))
                &&& (taken ==> ((r is Ok <==> old(self).operand_resolvable(*mode)) && (r is Ok
                    ==> final(self).program_counter == old(self).operand_addr(*mode) && final(self).bus@ == old(self).mem_after_resolve(*mode)) && (r is Err ==> final(self).program_counter == old(self).program_counter)))
            }),
    {
        let taken = self.status & CARRY_FLAG == 0;
        self.branch_if(mode, taken)
    }

    /// BCS: branches to the relative target when the carry flag is set.
    pub fn bcs(&mut self, mode: &AddressingMode) -> (r: Result<(), Fault>)
        requires
            old(self).inv(),
        ensures
            final(self).inv(),
            old(self).keeps_all_but_pc(*final(self)),
            ({
                let taken = flag_set(old(self).status, CARRY_FLAG);
                &&& (!taken ==> r is Ok && *final(self) == *old(self))
                &&& (taken ==> ((r is Ok <==> old(self).operand_resolvable(*mode)) && (r is Ok
                    ==> final(self).program_counter == old(self).operand_addr(*mode) && final(self).bus@ == old(self).mem_after_resolve(*mode)) && (r is Err ==> final(self).program_counter == old(self).program_counter)))
            }),
    {
        let taken = self.status & CARRY_FLAG != 0;
        self.branch_if(mode, taken)
    }

    /// BEQ: branches to the relative target when the zero flag is set.
    pub fn beq(&mut self, mode: &AddressingMode) -> (r: Result<(), Fault>)
        requires
            old(self).inv(),
        ensures
            final(self).inv(),
            old(self).keeps_all_but_pc(*final(self)),
            ({
                let taken = flag_set(old(self).status, ZERO_FLAG);
                &&& (!taken ==> r is Ok && *final(self) == *old(self))
                &&& (taken ==> ((r is Ok <==> old(self).operand_resolvable(*mode)) && (r is Ok
                    ==> final(self).program_counter == old(self).operand_addr(*mode) && final(self).bus@ == old(self).mem_after_resolve(*mode)) && (r is Err ==> final(self).program_counter == old(self).program_counter)))
            }),
    {
        let taken = self.status & ZERO_FLAG != 0;
        self.branch_if(mode, taken)
    }

    /// BNE: branches to the relative target when the zero flag is clear.
    pub fn bne(&mut self, mode: &AddressingMode) -> (r: Result<(), Fault>)
        requires
            old(self).inv(),
        ensures
            final(self).inv(),
            old(self).keeps_all_but_pc(*final(self)),
            ({
                let taken = !flag_set(old(self).status, ZERO_FLAG);
                &&& (!taken ==> r is Ok && *final(self) == *old(self))
                &&& (taken ==> ((r is Ok <==> old(self).operand_resolvable(*mode)) && (r is Ok
                    ==> final(self).program_counter == old(self).operand_addr(*mode) && final(self).bus@ == old(self).mem_after_resolve(*mode)) && (r is Err ==> final(self).program_counter == old(self).program_counter)))
            }),
    {
        let taken = self.status & ZERO_FLAG == 0;
        self.branch_if(mode, taken)
    }

    /// BMI: branches to the relative target when the negative flag is set.
    pub fn bmi(&mut self, mode: &AddressingMode) -> (r: Result<(), Fault>)
        requires
            old(self).inv(),
        ensures
            final(self).inv(),
            old(self).keeps_all_but_pc(*final(self)),
            ({
                let taken = flag_set(old(self).status, NEGATIVE_FLAG);
                &&& (!taken ==> r is Ok && *final(self) == *old(self))
                &&& (taken ==> ((r is Ok <==> old(self).operand_resolvable(*mode)) && (r is Ok
                    ==> final(self).program_counter == old(self).operand_addr(*mode) && final(self).bus@ == old(self).mem_after_resolve(*mode)) && (r is Err ==> final(self).program_counter == old(self).program_counter)))
            }),
    {
        let taken = self.status & NEGATIVE_FLAG != 0;
        self.branch_if(mode, taken)
    }

    /// BPL: branches to the relative target when the negative flag is clear.
    pub fn bpl(&mut self, mode: &AddressingMode) -> (r: Result<(), Fault>)
        requires
            old(self).inv(),
        ensures
            final(self).inv(),
            old(self).keeps_all_but_pc(*final(self)),
            ({
                let taken = !flag_set(old(self).status, NEGATIVE_FLAG);
                &&& (!taken ==> r is Ok && *final(self) == *old(self))
                &&& (taken ==> ((r is Ok <==> old(self).operand_resolvable(*mode)) && (r is Ok
                    ==> final(self).program_counter == old(self).operand_addr(*mode) && final(self).bus@ == old(self).mem_after_resolve(*mode)) && (r is Err ==> final(self).program_counter == old(self).program_counter)))
            }),
    {
        let taken = self.status & NEGATIVE_FLAG == 0;
        self.branch_if(mode, taken)
    }

    /// BVC: branches to the relative target when the overflow flag is clear.
    pub fn bvc(&mut self, mode: &AddressingMode) -> (r: Result<(), Fault>)
        requires
            old(self).inv(),
        ensures
            final(self).inv(),
            old(self).keeps_all_but_pc(*final(self)),
            ({
                let taken = !flag_set(old(self).status, OVERFLOW_FLAG);
                &&& (!taken ==> r is Ok && *final(self) == *old(self))
                &&& (taken ==> ((r is Ok <==> old(self).operand_resolvable(*mode)) && (r is Ok
                    ==> final(self).program_counter == old(self).operand_addr(*mode) && final(self).bus@ == old(self).mem_after_resolve(*mode)) && (r is Err ==> final(self).program_counter == old(self).program_counter)))
            }),
    {
        let taken = self.status & OVERFLOW_FLAG == 0;
        self.branch_if(mode, taken)
    }

    /// BVS: branches to the relative target when the overflow flag is set.
    pub fn bvs(&mut self, mode: &AddressingMode) -> (r: Result<(), Fault>)
        requires
            old(self).inv(),
        ensures
            final(self).inv(),
            old(self).keeps_all_but_pc(*final(self)),
            ({
                let taken = flag_set(old(self).status, OVERFLOW_FLAG);
                &&& (!taken ==> r is Ok && *final(self) == *old(self))
                &&& (taken ==> ((r is Ok <==> old(self).operand_resolvable(*mode)) && (r is Ok
                    ==> final(self).program_counter == old(self).operand_addr(*mode) && final(self).bus@ == old(self).mem_after_resolve(*mode)) && (r is Err ==> final(self).program_counter == old(self).program_counter)))
            }),
    {
        let taken = self.status & OVERFLOW_FLAG != 0;
        self.branch_if(mode, taken)
    }

    /// JMP: reassigns the program counter to the operand address; the
    /// indirect form honours the page-boundary quirk.
    pub fn jmp(&mut self, mode: &AddressingMode) -> (r: Result<(), Fault>)
        requires
            old(self).inv(),
        ensures
            final(self).inv(),
            old(self).keeps_all_but_pc(*final(self)),
            r is Ok <==> old(self).operand_resolvable(*mode),
            r is Ok ==> final(self).program_counter == old(self).operand_addr(*mode) && final(self).bus@ == old(self).mem_after_resolve(*mode),
            r is Err ==> final(self).program_counter == old(self).program_counter,
    {
        let addr = self.get_operand_address(mode)?;
        self.program_counter = addr;
        Ok(())
    }

    /// JSR: pushes the address of the instruction's last byte, then jumps
    /// to the operand address.
    pub fn jsr(&mut self, mode: &AddressingMode) -> (r: Result<(), Fault>)
        requires
            old(self).inv(),
        ensures
            final(self).inv(),
            final(self).register_a == old(self).register_a && final(self).register_x == old(self).register_x && final(self).register_y == old(self).register_y && final(self).status == old(self).status,
            ({
                let ret = old(self).program_counter.wrapping_add(1);
                let pushed = spush16_post::<M>(old(self).bus@, old(self).stack_pointer, ret);
                &&& (r is Ok <==> spush16_ok::<M>(old(self).bus@, old(self).stack_pointer, ret)
                    && resolve_ok::<M>(
                    pushed,
                    *mode,
                    old(self).program_counter,
                    old(self).register_x,
                    old(self).register_y,
                ))
                &&& r is Ok ==> final(self).program_counter == resolve_addr::<M>(
                    pushed,
                    *mode,
                    old(self).program_counter,
                    old(self).register_x,
                    old(self).register_y,
                ) && final(self).bus@ == resolve_post::<M>(
                    pushed,
                    *mode,
                    old(self).program_counter,
                    old(self).register_x,
                    old(self).register_y,
                ) && final(self).stack_pointer == old(self).stack_pointer.wrapping_sub(
                    1).wrapping_sub(1)
                &&& r is Err ==> final(self).program_counter == old(self).program_counter
            }),
    {
        let ret = self.program_counter.wrapping_add(1);
        self.stack_push_u16(ret)?;
        let addr = self.get_operand_address(mode)?;
        self.program_counter = addr;
        Ok(())
    }

    /// RTS: pops the return address and resumes one byte past it.
    pub fn rts(&mut self) -> (r: Result<(), Fault>)
        requires
            old(self).inv(),
        ensures
            final(self).inv(),
            final(self).register_a == old(self).register_a && final(self).register_x == old(self).register_x && final(self).register_y == old(self).register_y && final(self).status == old(self).status,
            r is Ok <==> spop16_ok::<M>(old(self).bus@, old(self).stack_pointer),
            r is Ok ==> final(self).program_counter == spop16_val::<M>(
                old(self).bus@,
                old(self).stack_pointer,
            ).wrapping_add(1) && final(self).bus@ == spop16_post::<M>(
                old(self).bus@,
                old(self).stack_pointer,
            ) && final(self).stack_pointer == old(self).stack_pointer.wrapping_add(1).wrapping_add(
                1),
            r is Err ==> final(self).program_counter == old(self).program_counter,
    {
        let w = self.stack_pop_u16()?;
        self.program_counter = w.wrapping_add(1);
        Ok(())
    }

    /// RTI: pops the status byte (B cleared, the unused bit set), then
    /// pops the program counter, without the RTS increment.
    pub fn rti(&mut self) -> (r: Result<(), Fault>)
        requires
            old(self).inv(),
        ensures
            final(self).inv(),
            final(self).register_a == old(self).register_a && final(self).register_x == old(self).register_x && final(self).register_y == old(self).register_y,
            ({
                let v1 = spop_post::<M>(old(self).bus@, old(self).stack_pointer);
                let sp1 = old(self).stack_pointer.wrapping_add(1);
                &&& (r is Ok <==> spop_ok::<M>(old(self).bus@, old(self).stack_pointer)
                    && spop16_ok::<M>(v1, sp1))
                &&& r is Ok ==> final(self).status == status_after_pull(
                    spop_val::<M>(old(self).bus@, old(self).stack_pointer),
                ) && final(self).program_counter == spop16_val::<M>(v1, sp1) && final(self).bus@
                    == spop16_post::<M>(v1, sp1) && final(self).stack_pointer == sp1.wrapping_add(
                    1).wrapping_add(1)
                &&& r is Err ==> final(self).program_counter == old(self).program_counter
            }),
    {
        let b = self.stack_pop()?;
        self.status = (b & !BREAK_FLAG) | BREAK2_FLAG;
        let w = self.stack_pop_u16()?;
        self.program_counter = w;
        Ok(())
    }

    /// PHA: pushes the accumulator.
    pub fn pha(&mut self) -> (r: Result<(), Fault>)
        requires
            old(self).inv(),
        ensures
            final(self).inv(),
            old(self).keeps_axy_pc(*final(self)) && final(self).status == old(self).status,
            r is Ok <==> spush_ok::<M>(old(self).bus@, old(self).stack_pointer),
            r is Ok ==> final(self).bus@ == spush_post::<M>(
                old(self).bus@,
                old(self).stack_pointer,
                old(self).register_a,
            ) && final(self).stack_pointer == old(self).stack_pointer.wrapping_sub(1),
            r is Err ==> final(self).stack_pointer == old(self).stack_pointer && final(self).bus@
                == old(self).bus@,
    {
        let a = self.register_a;
        self.stack_push(a)
    }

    /// PHP: pushes the status with B and the unused bit set on the
    /// stacked copy only.
    pub fn php(&mut self) -> (r: Result<(), Fault>)
        requires
            old(self).inv(),
        ensures
            final(self).inv(),
            old(self).keeps_axy_pc(*final(self)) && final(self).status == old(self).status,
            r is Ok <==> spush_ok::<M>(old(self).bus@, old(self).stack_pointer),
            r is Ok ==> final(self).bus@ == spush_post::<M>(
                old(self).bus@,
                old(self).stack_pointer,
                php_stack_byte(old(self).status),
            ) && final(self).stack_pointer == old(self).stack_pointer.wrapping_sub(1),
            r is Err ==> final(self).stack_pointer == old(self).stack_pointer && final(self).bus@
                == old(self).bus@,
    {
        let b = (self.status | BREAK_FLAG) | BREAK2_FLAG;
        self.stack_push(b)
    }

    /// PLA: pops into the accumulator; Z and N from the popped byte.
    pub fn pla(&mut self) -> (r: Result<(), Fault>)
        requires
            old(self).inv(),
        ensures
            final(self).inv(),
            final(self).register_x == old(self).register_x && final(self).register_y == old(self).register_y && final(self).program_counter == old(self).program_counter
                && final(self).stack_pointer == old(self).stack_pointer.wrapping_add(1),
            r is Ok <==> spop_ok::<M>(old(self).bus@, old(self).stack_pointer),
            r is Ok ==> ({
                let v = spop_val::<M>(old(self).bus@, old(self).stack_pointer);
                final(self).register_a == v && final(self).status == zn_update(old(self).status, v)
                    && final(self).bus@ == spop_post::<M>(old(self).bus@, old(self).stack_pointer)
            }),
            r is Err ==> final(self).register_a == old(self).register_a && final(self).status
                == old(self).status && final(self).bus@ == old(self).bus@,
    {
        let v = self.stack_pop()?;
        self.register_a = v;
        self.update_zero_and_negative_flags(v);
        Ok(())
    }

    /// PLP: pops the status byte; B ends clear, the unused bit ends set.
    pub fn plp(&mut self) -> (r: Result<(), Fault>)
        requires
            old(self).inv(),
        ensures
            final(self).inv(),
            final(self).register_a == old(self).register_a && final(self).register_x == old(self).register_x && final(self).register_y == old(self).register_y && final(self).program_counter == old(self).program_counter && final(self).stack_pointer
                == old(self).stack_pointer.wrapping_add(1),
            r is Ok <==> spop_ok::<M>(old(self).bus@, old(self).stack_pointer),
            r is Ok ==> final(self).status == status_after_pull(
                spop_val::<M>(old(self).bus@, old(self).stack_pointer),
            ) && final(self).bus@ == spop_post::<M>(old(self).bus@, old(self).stack_pointer),
            r is Err ==> final(self).status == old(self).status && final(self).bus@ == old(self).bus@,
    {
        let v = self.stack_pop()?;
        self.status = (v & !BREAK_FLAG) | BREAK2_FLAG;
        Ok(())
    }

    /// Brings the register file to its reset state and loads the program
    /// counter from the little-endian vector at 0xFFFC.
    pub fn reset(&mut self) -> (r: Result<(), Fault>)
        requires
            old(self).inv(),
        ensures
            final(self).inv(),
            r is Ok <==> read16_ok::<M>(old(self).bus@, 0xFFFC),
            r is Ok ==> final(self).register_a == 0u8 && final(self).register_x == 0u8 && final(self).register_y == 0u8 && final(self).status == RESET_STATUS && final(self).stack_pointer == RESET_STACK_POINTER && final(self).program_counter
                == read16_val::<M>(old(self).bus@, 0xFFFC) && final(self).bus@ == read16_post::<M>(
                old(self).bus@,
                0xFFFC,
            ),
    {
        self.register_a = 0;
        self.register_x = 0;
        self.register_y = 0;
        self.status = RESET_STATUS;
        self.stack_pointer = RESET_STACK_POINTER;
        let pc = mem_read_u16(&mut self.bus, 0xFFFC)?;
        self.program_counter = pc;
        Ok(())
    }

    /// Executes one decoded instruction among the opcode bytes
    /// 0x00-0x3F; each instruction's own contract carries its exact
    /// semantics.
    #[verifier::rlimit(100)]
    fn dispatch_q0(&mut self, code: u8, pc0: u16, mode: &AddressingMode) -> (r: Result<(), Fault>)
        requires
            old(self).inv(),
        ensures
            final(self).inv(),
            match instr_spec_q0::<M>(old(self).state(), code, *mode) {
                InstrSpec::Completed(next) => r is Ok && final(self).state() == next,
                InstrSpec::Faulted => r is Err,
            },
    {
        match code {
            0x29 | 0x25 | 0x35 | 0x2D | 0x3D | 0x39 | 0x21 | 0x31 => {
                self.and(mode)?;
            },
            0x09 | 0x05 | 0x15 | 0x0D | 0x1D | 0x19 | 0x01 | 0x11 => {
                self.ora(mode)?;
            },
            0x0A | 0x06 | 0x16 | 0x0E | 0x1E => {
                self.asl(mode)?;
            },
            0x2A | 0x26 | 0x36 | 0x2E | 0x3E => {
                self.rol(mode)?;
            },
            0x30 => {
                self.bmi(mode)?;
            },
            0x10 => {
                self.bpl(mode)?;
            },
            0x24 | 0x2C => {
                self.bit(mode)?;
            },
            0x20 => {
                self.jsr(mode)?;
            },
            0x18 => {
                self.clc();
            },
            0x38 => {
                self.sec();
            },
            0x08 => {
                self.php()?;
            },
            0x28 => {
                self.plp()?;
            },
            0x04 | 0x14 | 0x34 | 0x0C | 0x1C | 0x3C | 0x1A | 0x3A => {
                self.nop();
            },
            _ => {
                return Err(Fault::UnknownOpcode(code, pc0));
            },
        }
        Ok(())
    }

    /// Executes one decoded instruction among the opcode bytes
    /// 0x40-0x7F; each instruction's own contract carries its exact
    /// semantics.
    #[verifier::rlimit(100)]
    fn dispatch_q1(&mut self, code: u8, pc0: u16, mode: &AddressingMode) -> (r: Result<(), Fault>)
        requires
            old(self).inv(),
        ensures
            final(self).inv(),
            match instr_spec_q1::<M>(old(self).state(), code, *mode) {
                InstrSpec::Completed(next) => r is Ok && final(self).state() == next,
                InstrSpec::Faulted => r is Err,
            },
    {
        match code {
            0x69 | 0x65 | 0x75 | 0x6D | 0x7D | 0x79 | 0x61 | 0x71 => {
                self.adc(mode)?;
            },
            0x49 | 0x45 | 0x55 | 0x4D | 0x5D | 0x59 | 0x41 | 0x51 => {
                self.eor(mode)?;
            },
            0x4A | 0x46 | 0x56 | 0x4E | 0x5E => {
                self.lsr(mode)?;
            },
            0x6A | 0x66 | 0x76 | 0x6E | 0x7E => {
                self.ror(mode)?;
            },
            0x50 => {
                self.bvc(mode)?;
            },
            0x70 => {
                self.bvs(mode)?;
            },
            0x4C | 0x6C => {
                self.jmp(mode)?;
            },
            0x60 => {
                self.rts()?;
            },
            0x40 => {
                self.rti()?;
            },
            0x58 => {
                self.cli();
            },
            0x78 => {
                self.sei();
            },
            0x48 => {
                self.pha()?;
            },
            0x68 => {
                self.pla()?;
            },
            0x44 | 0x64 | 0x54 | 0x74 | 0x5C | 0x7C | 0x5A | 0x7A => {
                self.nop();
            },
            _ => {
                return Err(Fault::UnknownOpcode(code, pc0));
            },
        }
        Ok(())
    }

    /// Executes one decoded instruction among the opcode bytes
    /// 0x80-0xBF; each instruction's own contract carries its exact
    /// semantics.
    #[verifier::rlimit(100)]
    fn dispatch_q2(&mut self, code: u8, pc0: u16, mode: &AddressingMode) -> (r: Result<(), Fault>)
        requires
            old(self).inv(),
        ensures
            final(self).inv(),
            match instr_spec_q2::<M>(old(self).state(), code, *mode) {
                InstrSpec::Completed(next) => r is Ok && final(self).state() == next,
                InstrSpec::Faulted => r is Err,
            },
    {
        match code {
            0x90 => {
                self.bcc(mode)?;
            },
            0xB0 => {
                self.bcs(mode)?;
            },
            0xA9 | 0xA5 | 0xB5 | 0xAD | 0xBD | 0xB9 | 0xA1 | 0xB1 => {
                self.lda(mode)?;
            },
            0xA2 | 0xA6 | 0xB6 | 0xAE | 0xBE => {
                self.ldx(mode)?;
            },
            0xA0 | 0xA4 | 0xB4 | 0xAC | 0xBC => {
                self.ldy(mode)?;
            },
            0x85 | 0x95 | 0x8D | 0x9D | 0x99 | 0x81 | 0x91 => {
                self.sta(mode)?;
            },
            0x86 | 0x96 | 0x8E => {
                self.stx(mode)?;
            },
            0x84 | 0x94 | 0x8C => {
                self.sty(mode)?;
            },
            0xA7 | 0xB7 | 0xAF | 0xBF | 0xA3 | 0xB3 => {
                self.lax(mode)?;
            },
            0x88 => {
                self.dey();
            },
            0xB8 => {
                self.clv();
            },
            0xAA => {
                self.tax();
            },
            0xA8 => {
                self.tay();
            },
            0xBA => {
                self.tsx();
            },
            0x8A => {
                self.txa();
            },
            0x9A => {
                self.txs();
            },
            0x98 => {
                self.tya();
            },
            0x80 => {
                self.nop();
            },
            _ => {
                return Err(Fault::UnknownOpcode(code, pc0));
            },
        }
        Ok(())
    }

    /// Executes one decoded instruction among the opcode bytes
    /// 0xC0-0xFF; each instruction's own contract carries its exact
    /// semantics.
    #[verifier::rlimit(100)]
    fn dispatch_q3(&mut self, code: u8, pc0: u16, mode: &AddressingMode) -> (r: Result<(), Fault>)
        requires
            old(self).inv(),
        ensures
            final(self).inv(),
            match instr_spec_q3::<M>(old(self).state(), code, *mode) {
                InstrSpec::Completed(next) => r is Ok && final(self).state() == next,
                InstrSpec::Faulted => r is Err,
            },
    {
        match code {
            0xE9 | 0xE5 | 0xF5 | 0xED | 0xFD | 0xF9 | 0xE1 | 0xF1 => {
                self.sbc(mode)?;
            },
            0xF0 => {
                self.beq(mode)?;
            },
            0xD0 => {
                self.bne(mode)?;
            },
            0xC9 | 0xC5 | 0xD5 | 0xCD | 0xDD | 0xD9 | 0xC1 | 0xD1 => {
                self.cmp(mode)?;
            },
            0xE0 | 0xE4 | 0xEC => {
                self.cpx(mode)?;
            },
            0xC0 | 0xC4 | 0xCC => {
                self.cpy(mode)?;
            },
            0xC6 | 0xD6 | 0xCE | 0xDE => {
                self.dec(mode)?;
            },
            0xE6 | 0xF6 | 0xEE | 0xFE => {
                self.inc(mode)?;
            },
            0xCA => {
                self.dex();
            },
            0xE8 => {
                self.inx();
            },
            0xC8 => {
                self.iny();
            },
            0xD8 => {
                self.cld();
            },
            0xF8 => {
                self.sed();
            },
            0xEA | 0xD4 | 0xF4 | 0xDC | 0xFC | 0xDA | 0xFA => {
                self.nop();
            },
            _ => {
                return Err(Fault::UnknownOpcode(code, pc0));
            },
        }
        Ok(())
    }

    /// Fetches, decodes and executes one instruction. Returns `Ok(false)`
    /// when the instruction was BRK, which ends the run; `Ok(true)` when
    /// the run goes on; a fault ends the run as fatal. When the
    /// instruction left the program counter alone, it advances by the
    /// instruction's length.
    pub fn step(&mut self) -> (r: Result<bool, Fault>)
        requires
            old(self).inv(),
        ensures
            final(self).inv(),
            match step_spec::<M>(old(self).state()) {
                StepSpec::Halt(s) => r == Ok::<bool, Fault>(false) && final(self).state() == s,
                StepSpec::Next(s) => r == Ok::<bool, Fault>(true) && final(self).state() == s,
                StepSpec::Fail => r is Err,
            },
            !M::ok_read(old(self).bus@, old(self).program_counter) ==> r == Err::<bool, Fault>(
                M::read_fault(old(self).bus@, old(self).program_counter),
            ) && old(self).same_regs(*final(self)) && final(self).bus@ == old(self).bus@,
            ({
                let fetched = M::read_val(old(self).bus@, old(self).program_counter);
                M::ok_read(old(self).bus@, old(self).program_counter) && !known_opcode(fetched)
                    ==> r == Err::<bool, Fault>(
                    Fault::UnknownOpcode(fetched, old(self).program_counter),
                )
            }),
    {
        let pc0 = self.program_counter;
        let code = self.bus.mem_read(pc0)?;
        self.program_counter = self.program_counter.wrapping_add(1);
        let op = match lookup(code) {
            Some(op) => op,
            None => {
                return Err(Fault::UnknownOpcode(code, pc0));
            },
        };
        if code == 0x00 {
            return Ok(false);
        }
        let pc_state = self.program_counter;
        if code < 0x40 {
            self.dispatch_q0(code, pc0, &op.mode)?;
        } else if code < 0x80 {
            self.dispatch_q1(code, pc0, &op.mode)?;
        } else if code < 0xC0 {
            self.dispatch_q2(code, pc0, &op.mode)?;
        } else {
            self.dispatch_q3(code, pc0, &op.mode)?;
        }
        if pc_state == self.program_counter {
            self.program_counter = pc_state.wrapping_add((op.length - 1) as u16);
        }
        Ok(true)
    }

    /// Runs instructions until BRK ends the run (`Ok(true)`), a fault
    /// stops it, or `limit` instructions have run (`Ok(false)`): exactly
    /// the outcome `run_spec` assigns to the starting state.
    pub fn run(&mut self, limit: u64) -> (r: Result<bool, Fault>)
        requires
            old(self).inv(),
        ensures
            final(self).inv(),
            match run_spec::<M>(old(self).state(), limit) {
                RunSpec::Halted(s) => r == Ok::<bool, Fault>(true) && final(self).state() == s,
                RunSpec::OutOfFuel(s) => r == Ok::<bool, Fault>(false) && final(self).state() == s,
                RunSpec::Failed => r is Err,
            },
    {
        let mut i: u64 = 0;
        while i < limit
            invariant
                self.inv(),
                i <= limit,
                run_spec::<M>(old(self).state(), limit) == run_spec::<M>(
                    self.state(),
                    (limit - i) as u64,
                ),
            decreases limit - i,
        {
            let ghost before = self.state();
            let cont = self.step()?;
            if !cont {
                return Ok(true);
            }
            proof {
                assert(run_spec::<M>(before, (limit - i) as u64) == run_spec::<M>(
                    self.state(),
                    (limit - i - 1) as u64,
                ));
            }
            i = i + 1;
        }
        Ok(false)
    }
}

/// Every stack access lands in page one: the stack pointer can never
/// name a byte outside 0x0100-0x01FF.
pub proof fn lemma_stack_stays_in_page_one(sp: u8)
    ensures
        0x0100 <= stack_addr(sp) <= 0x01FF,
{
}

/// Pushing the status as PHP does and pulling it as PLP does, through any
/// one stack cell of a flat memory, round-trips every status bit except
/// B, which ends clear, and the unused bit, which ends set.
pub proof fn lemma_php_plp_round_trip_flat(v: Seq<u8>, sp: u8, p: u8)
    requires
        v.len() == 0x10000,
    ensures
        ({
            let pushed = spush_post::<FlatMem>(v, sp, crate::alu::php_stack_byte(p));
            let pulled = status_after_pull(spop_val::<FlatMem>(pushed, sp.wrapping_sub(1)));
            &&& pulled & !(BREAK_FLAG | BREAK2_FLAG) == p & !(BREAK_FLAG | BREAK2_FLAG)
            &&& !flag_set(pulled, BREAK_FLAG)
            &&& flag_set(pulled, BREAK2_FLAG)
        }),
{
    assert(sp.wrapping_sub(1).wrapping_add(1) == sp);
    assert(spop_val::<FlatMem>(spush_post::<FlatMem>(v, sp, php_stack_byte(p)), sp.wrapping_sub(1))
        == php_stack_byte(p));
    crate::alu::lemma_php_plp_round_trip(p);
}

} // verus!
