use vstd::prelude::*;

use crate::semantics::{
    op_family, op_nn, op_nnn, op_x, op_y, opcode_at, spec_step, wf_model, EmuError, EmuModel,
    StepOutcome, fetch_ok, RAM_SIZE, STACK_SIZE,
};

verus! {

/// Words with a family nibble above zero match none of the three
/// whole-word patterns of family zero.
proof fn lemma_family_excludes_zero_patterns(op: u16)
    ensures
        op >> 12 != 0 ==> op != 0x0000 && op != 0x00E0 && op != 0x00EE,
        ((op >> 8) & 0xF) < 16,
        ((op >> 4) & 0xF) < 16,
{
    assert(op >> 12 != 0 ==> op != 0x0000 && op != 0x00E0 && op != 0x00EE) by (bit_vector);
    assert(((op >> 8) & 0xF) < 16 && ((op >> 4) & 0xF) < 16) by (bit_vector);
}

/// Setting a register to an immediate stores exactly that immediate: after
/// a step on a set-immediate word, the selected register holds the
/// immediate, every other register is unchanged, and the program counter
/// has advanced past the word.
pub proof fn lemma_set_stores_immediate(m: EmuModel)
    requires
        wf_model(m),
        fetch_ok(m),
        op_family(opcode_at(m)) == 6,
    ensures
        spec_step(m) matches StepOutcome::Advance { next } && {
            &&& next.v_registers[op_x(opcode_at(m))] == op_nn(opcode_at(m))
            &&& (forall|i: int|
                0 <= i < next.v_registers.len() && i != op_x(opcode_at(m))
                    ==> next.v_registers[i] == m.v_registers[i])
            &&& next.program_counter as int == m.program_counter as int + 2
        },
{
    lemma_family_excludes_zero_patterns(opcode_at(m));
}

/// Adding an immediate wraps modulo 256 and never faults: after a step on
/// an add-immediate word, the selected register holds the old value plus
/// the immediate, reduced modulo 256.
pub proof fn lemma_add_wraps(m: EmuModel)
    requires
        wf_model(m),
        fetch_ok(m),
        op_family(opcode_at(m)) == 7,
    ensures
        spec_step(m) matches StepOutcome::Advance { next } && {
            &&& next.v_registers[op_x(opcode_at(m))] == (m.v_registers[op_x(opcode_at(m))]
                + op_nn(opcode_at(m))) % 256
            &&& next.program_counter as int == m.program_counter as int + 2
        },
{
    lemma_family_excludes_zero_patterns(opcode_at(m));
}

/// A jump sets the program counter to exactly the twelve-bit target, with
/// no advance past it afterwards, and changes nothing else.
pub proof fn lemma_jmp_is_absolute(m: EmuModel)
    requires
        wf_model(m),
        fetch_ok(m),
        op_family(opcode_at(m)) == 1,
    ensures
        spec_step(m) matches StepOutcome::Advance { next } && next =~= (EmuModel {
            program_counter: op_nnn(opcode_at(m)),
            ..m
        }),
{
    lemma_family_excludes_zero_patterns(opcode_at(m));
}

/// A skip-if-equal-immediate word advances the program counter by four in
/// total when the selected register equals the immediate, and by two when
/// it does not; nothing else changes.
pub proof fn lemma_skip_eq_imm(m: EmuModel)
    requires
        wf_model(m),
        fetch_ok(m),
        op_family(opcode_at(m)) == 3,
    ensures
        spec_step(m) matches StepOutcome::Advance { next } && {
            &&& m.v_registers[op_x(opcode_at(m))] == op_nn(opcode_at(m))
                ==> next.program_counter as int == m.program_counter as int + 4
            &&& m.v_registers[op_x(opcode_at(m))] != op_nn(opcode_at(m))
                ==> next.program_counter as int == m.program_counter as int + 2
            &&& next =~= (EmuModel { program_counter: next.program_counter, ..m })
        },
{
    lemma_family_excludes_zero_patterns(opcode_at(m));
}

/// A skip-if-not-equal-immediate word advances the program counter by four
/// in total when the selected register differs from the immediate, and by
/// two when it does not; nothing else changes.
pub proof fn lemma_skip_ne_imm(m: EmuModel)
    requires
        wf_model(m),
        fetch_ok(m),
        op_family(opcode_at(m)) == 4,
    ensures
        spec_step(m) matches StepOutcome::Advance { next } && {
            &&& m.v_registers[op_x(opcode_at(m))] != op_nn(opcode_at(m))
                ==> next.program_counter as int == m.program_counter as int + 4
            &&& m.v_registers[op_x(opcode_at(m))] == op_nn(opcode_at(m))
                ==> next.program_counter as int == m.program_counter as int + 2
            &&& next =~= (EmuModel { program_counter: next.program_counter, ..m })
        },
{
    lemma_family_excludes_zero_patterns(opcode_at(m));
}

/// A skip-if-registers-equal word advances the program counter by four in
/// total when the two selected registers are equal, and by two when they
/// are not; nothing else changes.
pub proof fn lemma_skip_eq_reg(m: EmuModel)
    requires
        wf_model(m),
        fetch_ok(m),
        op_family(opcode_at(m)) == 5,
        opcode_at(m) & 0xF == 0,
    ensures
        spec_step(m) matches StepOutcome::Advance { next } && {
            &&& m.v_registers[op_x(opcode_at(m))] == m.v_registers[op_y(opcode_at(m))]
                ==> next.program_counter as int == m.program_counter as int + 4
            &&& m.v_registers[op_x(opcode_at(m))] != m.v_registers[op_y(opcode_at(m))]
                ==> next.program_counter as int == m.program_counter as int + 2
            &&& next =~= (EmuModel { program_counter: next.program_counter, ..m })
        },
{
    lemma_family_excludes_zero_patterns(opcode_at(m));
}

/// Clearing the screen sets every framebuffer cell to false, whatever the
/// cells held before, and touches nothing but the program counter.
pub proof fn lemma_cls_clears_everything(m: EmuModel)
    requires
        wf_model(m),
        fetch_ok(m),
        opcode_at(m) == 0x00E0,
    ensures
        spec_step(m) matches StepOutcome::Advance { next } && {
            &&& next.screen.len() == m.screen.len()
            &&& (forall|i: int| 0 <= i < next.screen.len() ==> !next.screen[i])
            &&& next.program_counter as int == m.program_counter as int + 2
            &&& next =~= (EmuModel { screen: next.screen, program_counter: next.program_counter, ..m })
        },
{
}

/// A call below capacity saves the address of the word after the call at
/// the current depth, deepens the stack by one without touching the entries
/// below, and jumps to the twelve-bit target; nothing else changes.
pub proof fn lemma_call_saves_return_address(m: EmuModel)
    requires
        wf_model(m),
        fetch_ok(m),
        op_family(opcode_at(m)) == 2,
        (m.stack_pointer as int) < STACK_SIZE as int,
    ensures
        spec_step(m) matches StepOutcome::Advance { next } && next =~= (EmuModel {
            program_counter: op_nnn(opcode_at(m)),
            stack: m.stack.update(m.stack_pointer as int, (m.program_counter + 2) as u16),
            stack_pointer: (m.stack_pointer + 1) as u16,
            ..m
        }),
{
    lemma_family_excludes_zero_patterns(opcode_at(m));
}

/// A return on a non-empty stack sets the program counter to the most
/// recently saved address and shallows the stack by one, leaving every
/// entry in place; nothing else changes.
pub proof fn lemma_ret_restores_saved_address(m: EmuModel)
    requires
        wf_model(m),
        fetch_ok(m),
        opcode_at(m) == 0x00EE,
        (m.stack_pointer as int) > 0,
    ensures
        spec_step(m) matches StepOutcome::Advance { next } && next =~= (EmuModel {
            program_counter: m.stack[m.stack_pointer as int - 1],
            stack_pointer: (m.stack_pointer - 1) as u16,
            ..m
        }),
{
}

/// A call followed immediately by the return it reaches brings the program
/// counter back to exactly the address after the call word: the call saves
/// that address, jumps to its target, and the return at the target pops it
/// back.
pub proof fn lemma_call_then_ret(m: EmuModel)
    requires
        wf_model(m),
        fetch_ok(m),
        op_family(opcode_at(m)) == 2,
        (m.stack_pointer as int) < STACK_SIZE as int,
        op_nnn(opcode_at(m)) as int + 1 < RAM_SIZE as int,
        m.ram[op_nnn(opcode_at(m)) as int] == 0x00,
        m.ram[op_nnn(opcode_at(m)) as int + 1] == 0xEE,
    ensures
        spec_step(m) matches StepOutcome::Advance { next } && (spec_step(next) matches
            StepOutcome::Advance { next: resumed } && {
            &&& next.program_counter == op_nnn(opcode_at(m))
            &&& resumed.program_counter as int == m.program_counter as int + 2
        }),
{
    let op = opcode_at(m);
    lemma_family_excludes_zero_patterns(op);
    let nnn = op_nnn(op);
    let step1 = spec_step(m);
    assert(step1 matches StepOutcome::Advance { next } && next.program_counter == nnn);
    let next = step1->Advance_next;
    assert(next.ram[nnn as int] == 0x00 && next.ram[nnn as int + 1] == 0xEE);
    assert(((0x00u8 as u16) << 8) | (0xEEu8 as u16) == 0x00EE) by (bit_vector);
    assert(opcode_at(next) == 0x00EE);
}

/// A call made with the call stack already at capacity is a stack-overflow
/// fault, and a fault leaves the machine unchanged.
pub proof fn lemma_call_at_capacity_overflows(m: EmuModel)
    requires
        wf_model(m),
        fetch_ok(m),
        op_family(opcode_at(m)) == 2,
        m.stack_pointer as int == STACK_SIZE as int,
    ensures
        spec_step(m) == (StepOutcome::Fault { cause: EmuError::StackOverflow }),
{
    lemma_family_excludes_zero_patterns(opcode_at(m));
}

/// A return executed with the call stack empty is a stack-underflow fault,
/// and a fault leaves the machine unchanged.
pub proof fn lemma_ret_on_empty_stack_underflows(m: EmuModel)
    requires
        wf_model(m),
        fetch_ok(m),
        opcode_at(m) == 0x00EE,
        m.stack_pointer == 0,
    ensures
        spec_step(m) == (StepOutcome::Fault { cause: EmuError::StackUnderflow }),
{
}

} // verus!

verus! {

/// Every successful step leaves memory, the key state, both timers and the
/// index register exactly as they were (no implemented instruction writes
/// them), keeps the machine well formed - in particular the stack depth
/// stays within the capacity - and touches no stack entry below the depth
/// the step began with.
pub proof fn lemma_step_preserves_frames(m: EmuModel)
    requires
        wf_model(m),
    ensures
        spec_step(m) matches StepOutcome::Advance { next } ==> {
            &&& wf_model(next)
            &&& next.ram == m.ram
            &&& next.keys == m.keys
            &&& next.delay_timer == m.delay_timer
            &&& next.sound_timer == m.sound_timer
            &&& next.index_register == m.index_register
            &&& next.stack.len() == m.stack.len()
            &&& (forall|i: int|
                0 <= i < m.stack_pointer as int ==> next.stack[i] == m.stack[i])
        },
{
    if fetch_ok(m) {
        lemma_family_excludes_zero_patterns(opcode_at(m));
    }
}

} // verus!
