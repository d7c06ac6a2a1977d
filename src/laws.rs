use vstd::prelude::*;
use crate::machine::{step_spec, Action, Instruction, MachineState};
use crate::operand::{
    add_word, is_register, mult_word, not_word, resolve, VmError, REGISTER_BASE, REGISTER_COUNT,
};

verus! {

/// The state after running `prog` instruction by instruction from `s`, or
/// the first error met.
pub open spec fn run(s: MachineState, prog: Seq<Instruction>) -> Result<MachineState, VmError>
    decreases prog.len(),
{
    if prog.len() == 0 {
        Ok(s)
    } else {
        match step_spec(s, prog[0]) {
            Ok((t, _)) => run(t, prog.drop_first()),
            Err(e) => Err(e),
        }
    }
}

/// A `push` of each of `vals`, in order.
pub open spec fn pushes(vals: Seq<u16>) -> Seq<Instruction> {
    Seq::new(vals.len(), |i: int| Instruction::Push(vals[i]))
}

/// `n` pops into destination `d`.
pub open spec fn pops(d: u16, n: nat) -> Seq<Instruction> {
    Seq::new(n, |i: int| Instruction::Pop(d))
}

/// A pop into each of the destinations `ds`, in order.
pub open spec fn pops_into(ds: Seq<u16>) -> Seq<Instruction> {
    Seq::new(ds.len(), |i: int| Instruction::Pop(ds[i]))
}

/// No register is named twice in `ds`, and each names a register.
pub open spec fn distinct_registers(ds: Seq<u16>) -> bool {
    &&& forall|i: int| 0 <= i < ds.len() ==> is_register(#[trigger] ds[i])
    &&& forall|i: int, j: int| 0 <= i < j < ds.len() ==> #[trigger] ds[i] != #[trigger] ds[j]
}

/// After `set d v` with a literal `v`, reading register `d` yields `v`.
pub proof fn set_then_read(s: MachineState, d: u16, v: u16)
    requires
        s.registers.len() == REGISTER_COUNT,
        is_register(d),
        v < REGISTER_BASE,
    ensures
        step_spec(s, Instruction::SetReg(d, v)) is Ok,
        resolve(step_spec(s, Instruction::SetReg(d, v)).unwrap().0.registers, d) == Ok::<u16, VmError>(v),
{
}

/// `add` and `mult` on literals store their result modulo 32768, which
/// always lies in `[0, 32767]`.
pub proof fn arithmetic_is_closed(s: MachineState, d: u16, a: u16, b: u16)
    requires
        s.registers.len() == REGISTER_COUNT,
        is_register(d),
        a < REGISTER_BASE,
        b < REGISTER_BASE,
    ensures
        step_spec(s, Instruction::Add(d, a, b)) is Ok,
        step_spec(s, Instruction::Add(d, a, b)).unwrap().0.registers[d - REGISTER_BASE] == add_word(a, b),
        add_word(a, b) == (a + b) % 32768,
        add_word(a, b) < 32768,
        step_spec(s, Instruction::Mult(d, a, b)) is Ok,
        step_spec(s, Instruction::Mult(d, a, b)).unwrap().0.registers[d - REGISTER_BASE] == mult_word(a, b),
        mult_word(a, b) == (a * b) % 32768,
        mult_word(a, b) < 32768,
{
    assert(0 <= a * b <= 32767 * 32767) by (nonlinear_arith)
        requires
            a < 32768,
            b < 32768,
    ;
}

/// Complementing twice gives back the word, masked to 15 bits; a word of
/// 15 bits comes back unchanged.
pub proof fn not_is_involution(x: u16)
    ensures
        not_word(not_word(x)) == x % 32768,
        x < 32768 ==> not_word(not_word(x)) == x,
{
    assert((!((!x) & 0x7fff)) & 0x7fff == x % 32768) by (bit_vector);
}

/// Running `p` then `q` is running `q` from where `p` left off.
proof fn run_append(s: MachineState, p: Seq<Instruction>, q: Seq<Instruction>)
    ensures
        run(s, p + q) == match run(s, p) {
            Ok(t) => run(t, q),
            Err(e) => Err(e),
        },
    decreases p.len(),
{
    if p.len() == 0 {
        assert(p + q =~= q);
    } else {
        assert((p + q).drop_first() =~= p.drop_first() + q);
        if let Ok((t, _)) = step_spec(s, p[0]) {
            run_append(t, p.drop_first(), q);
        }
    }
}

/// Pushing literals appends them to the stack and leaves the registers alone.
proof fn run_pushes(s: MachineState, vals: Seq<u16>)
    requires
        forall|i: int| 0 <= i < vals.len() ==> #[trigger] vals[i] < REGISTER_BASE,
    ensures
        run(s, pushes(vals)) is Ok,
        run(s, pushes(vals)).unwrap().stack == s.stack + vals,
        run(s, pushes(vals)).unwrap().registers == s.registers,
    decreases vals.len(),
{
    if vals.len() == 0 {
        assert(s.stack + vals =~= s.stack);
    } else {
        let t = step_spec(s, Instruction::Push(vals[0])).unwrap().0;
        assert(pushes(vals).drop_first() =~= pushes(vals.drop_first()));
        run_pushes(t, vals.drop_first());
        assert(t.stack + vals.drop_first() =~= s.stack + vals);
    }
}

/// `n` pops into register `d` take the top `n` words off the stack, and
/// leave the `n`-th of them from the top in `d`.
proof fn run_pops(s: MachineState, d: u16, n: nat)
    requires
        s.registers.len() == REGISTER_COUNT,
        is_register(d),
        1 <= n <= s.stack.len(),
    ensures
        run(s, pops(d, n)) is Ok,
        run(s, pops(d, n)).unwrap().stack == s.stack.subrange(0, s.stack.len() - n),
        run(s, pops(d, n)).unwrap().registers[d - REGISTER_BASE] == s.stack[s.stack.len() - n],
    decreases n,
{
    let t = step_spec(s, Instruction::Pop(d)).unwrap().0;
    assert(pops(d, n).drop_first() =~= pops(d, (n - 1) as nat));
    if n == 1 {
        assert(s.stack.drop_last() =~= s.stack.subrange(0, s.stack.len() - 1));
    } else {
        run_pops(t, d, (n - 1) as nat);
        assert(t.stack.subrange(0, t.stack.len() - (n - 1)) =~= s.stack.subrange(0, s.stack.len() - n));
    }
}

/// Pushing the literals `vals` and then popping into `d` gives them back in
/// reverse order: the `k`-th pop (from zero) leaves the `k`-th value from
/// the end in `d`, and the stack holds what it held before plus the values
/// not popped yet. After as many pops as pushes the stack is as it was.
pub proof fn stack_round_trip(s: MachineState, vals: Seq<u16>, d: u16, k: nat)
    requires
        s.registers.len() == REGISTER_COUNT,
        is_register(d),
        forall|i: int| 0 <= i < vals.len() ==> #[trigger] vals[i] < REGISTER_BASE,
        k < vals.len(),
    ensures
        run(s, pushes(vals) + pops(d, k + 1)) is Ok,
        run(s, pushes(vals) + pops(d, k + 1)).unwrap().registers[d - REGISTER_BASE]
            == vals[vals.len() - 1 - k],
        run(s, pushes(vals) + pops(d, k + 1)).unwrap().stack
            == s.stack + vals.subrange(0, vals.len() - 1 - k),
        k + 1 == vals.len() ==> run(s, pushes(vals) + pops(d, k + 1)).unwrap().stack == s.stack,
{
    run_append(s, pushes(vals), pops(d, k + 1));
    run_pushes(s, vals);
    let t = run(s, pushes(vals)).unwrap();
    run_pops(t, d, k + 1);
    assert(t.stack[t.stack.len() - (k + 1)] == vals[vals.len() - 1 - k]);
    assert(t.stack.subrange(0, t.stack.len() - (k + 1)) =~= s.stack + vals.subrange(0, vals.len() - 1 - k));
    assert(vals.subrange(0, 0) =~= Seq::<u16>::empty());
    assert(s.stack + Seq::<u16>::empty() =~= s.stack);
}

/// Pops into the distinct registers `ds` take the top `ds.len()` words off
/// the stack: `ds[k]` receives the `k`-th word from the top, and every other
/// register keeps its content.
proof fn run_pops_into(s: MachineState, ds: Seq<u16>)
    requires
        s.registers.len() == REGISTER_COUNT,
        distinct_registers(ds),
        ds.len() <= s.stack.len(),
    ensures
        run(s, pops_into(ds)) is Ok,
        run(s, pops_into(ds)).unwrap().registers.len() == REGISTER_COUNT,
        run(s, pops_into(ds)).unwrap().stack == s.stack.subrange(0, s.stack.len() - ds.len()),
        forall|k: int| 0 <= k < ds.len() ==> run(s, pops_into(ds)).unwrap().registers[#[trigger] ds[k] - REGISTER_BASE]
            == s.stack[s.stack.len() - 1 - k],
        forall|r: int| 0 <= r < REGISTER_COUNT && (forall|k: int| 0 <= k < ds.len() ==> r != #[trigger] ds[k] - REGISTER_BASE)
            ==> run(s, pops_into(ds)).unwrap().registers[r] == s.registers[r],
    decreases ds.len(),
{
    if ds.len() == 0 {
        assert(s.stack.subrange(0, s.stack.len() as int) =~= s.stack);
    } else {
        let t = step_spec(s, Instruction::Pop(ds[0])).unwrap().0;
        let rest = ds.drop_first();
        assert(pops_into(ds).drop_first() =~= pops_into(rest));
        assert(distinct_registers(rest)) by {
            assert forall|i: int, j: int| 0 <= i < j < rest.len() implies #[trigger] rest[i] != #[trigger] rest[j] by {
                assert(ds[i + 1] != ds[j + 1]);
            }
            assert forall|i: int| 0 <= i < rest.len() implies is_register(#[trigger] rest[i]) by {
                assert(is_register(ds[i + 1]));
            }
        }
        assert(t.stack == s.stack.drop_last());
        assert(t.registers == s.registers.update(ds[0] - REGISTER_BASE, s.stack.last()));
        run_pops_into(t, rest);
        let u = run(t, pops_into(rest)).unwrap();
        assert(u == run(s, pops_into(ds)).unwrap());
        assert(u.stack =~= s.stack.subrange(0, s.stack.len() - ds.len()));
        assert forall|k: int| 0 <= k < ds.len() implies u.registers[#[trigger] ds[k] - REGISTER_BASE]
            == s.stack[s.stack.len() - 1 - k] by {
            if k == 0 {
                assert forall|m: int| 0 <= m < rest.len() implies ds[0] - REGISTER_BASE != #[trigger] rest[m] - REGISTER_BASE by {
                    assert(ds[0] != ds[m + 1]);
                }
                assert(u.registers[ds[0] - REGISTER_BASE] == t.registers[ds[0] - REGISTER_BASE]);
            } else {
                assert(rest[k - 1] == ds[k]);
                assert(u.registers[rest[k - 1] - REGISTER_BASE] == t.stack[t.stack.len() - 1 - (k - 1)]);
            }
        }
        assert forall|r: int| 0 <= r < REGISTER_COUNT && (forall|k: int| 0 <= k < ds.len() ==> r != #[trigger] ds[k] - REGISTER_BASE)
            implies u.registers[r] == s.registers[r] by {
            assert(r != ds[0] - REGISTER_BASE);
            assert forall|m: int| 0 <= m < rest.len() implies r != #[trigger] rest[m] - REGISTER_BASE by {
                assert(r != ds[m + 1] - REGISTER_BASE);
            }
            assert(u.registers[r] == t.registers[r]);
        }
    }
}

/// Pushing the literals `vals` and then popping as many times into distinct
/// registers `ds` gives them back in reverse order: `ds[k]` receives the
/// `k`-th value from the end. No pop meets an empty stack, and the stack
/// ends as it began.
pub proof fn stack_round_trip_into(s: MachineState, vals: Seq<u16>, ds: Seq<u16>)
    requires
        s.registers.len() == REGISTER_COUNT,
        forall|i: int| 0 <= i < vals.len() ==> #[trigger] vals[i] < REGISTER_BASE,
        distinct_registers(ds),
        ds.len() == vals.len(),
    ensures
        run(s, pushes(vals) + pops_into(ds)) is Ok,
        run(s, pushes(vals) + pops_into(ds)).unwrap().stack == s.stack,
        forall|k: int| 0 <= k < ds.len() ==> run(s, pushes(vals) + pops_into(ds)).unwrap().registers[
            #[trigger] ds[k] - REGISTER_BASE] == vals[vals.len() - 1 - k],
{
    run_append(s, pushes(vals), pops_into(ds));
    run_pushes(s, vals);
    let t = run(s, pushes(vals)).unwrap();
    run_pops_into(t, ds);
    assert(t.stack.subrange(0, t.stack.len() - ds.len()) =~= s.stack);
    assert forall|k: int| 0 <= k < ds.len() implies #[trigger] t.stack[t.stack.len() - 1 - k] == vals[vals.len() - 1 - k] by {
    }
}

/// A jump goes to its target whenever its condition holds (always, for
/// `jmp`), and otherwise falls through past its two operands; either way it
/// changes nothing but the instruction pointer.
pub proof fn jumps_fire_or_fall_through(s: MachineState, a: u16, b: u16)
    requires
        s.registers.len() == REGISTER_COUNT,
        resolve(s.registers, a) is Ok,
        resolve(s.registers, b) is Ok,
    ensures
        ({
            let x = resolve(s.registers, a).unwrap();
            let t = resolve(s.registers, b).unwrap() as int;
            &&& step_spec(s, Instruction::Jt(a, b)) == Ok::<(MachineState, Action), VmError>(
                (MachineState { ip: if x != 0 { t } else { s.ip + 3 }, ..s }, Action::Continue))
            &&& step_spec(s, Instruction::Jf(a, b)) == Ok::<(MachineState, Action), VmError>(
                (MachineState { ip: if x == 0 { t } else { s.ip + 3 }, ..s }, Action::Continue))
            &&& step_spec(s, Instruction::Jmp(b)) == Ok::<(MachineState, Action), VmError>(
                (MachineState { ip: t, ..s }, Action::Continue))
        }),
{
}

} // verus!
