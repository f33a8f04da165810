//! Properties of the machine's semantics that hold for every program.
use vstd::prelude::*;

use crate::loader::MEM_SIZE;
use crate::machine::{
    binary_result, fetch, is_register, resolve, run_steps, step, store, MachineState, Status,
    VmError,
};

verus! {

/// A run from a state whose next instruction is `halt` stops at once with
/// `Halted` and leaves the state as it was.
pub proof fn lemma_halt_stops(s: MachineState, n: nat)
    requires
        fetch(s, s.ip) == Ok::<u16, VmError>(0),
        n >= 1,
    ensures
        run_steps(s, n) == (s, Ok::<Status, VmError>(Status::Halted)),
{
}

/// `add` and `mult` always produce a value in 0..=32767, whatever their operands.
pub proof fn lemma_arithmetic_closed(b: u16, c: u16)
    ensures
        binary_result(9, b, c) matches Ok(v) && v <= 32767,
        binary_result(10, b, c) matches Ok(v) && v <= 32767,
{
}

/// Writing `v` to a register and then resolving an operand that names that
/// register gives `v`.
pub proof fn lemma_register_write_read(s: MachineState, p: int, a: u16, v: u16)
    requires
        s.valid(),
        0 <= p < MEM_SIZE,
        s.mem[p] == a,
        is_register(a),
    ensures
        store(s, a, v) matches Ok(t) && resolve(t, p) == Ok::<u16, VmError>(v),
{
}

/// Writing a literal value `v` to memory address `a` and then resolving the
/// operand at `a` gives `v`.
pub proof fn lemma_memory_write_read(s: MachineState, a: u16, v: u16)
    requires
        s.valid(),
        a < MEM_SIZE,
        v < MEM_SIZE,
    ensures
        store(s, a, v) matches Ok(t) && resolve(t, a as int) == Ok::<u16, VmError>(v),
{
}

/// One instruction waits for input only at an `in` instruction with an empty
/// input queue, and then changes nothing.
pub proof fn lemma_step_pending(s: MachineState)
    requires
        step(s).1 == Ok::<Status, VmError>(Status::PendingInput),
    ensures
        step(s).0 == s,
        fetch(s, s.ip) == Ok::<u16, VmError>(20),
        s.input.len() == 0,
{
}

/// A run that stopped to wait for input stopped at an `in` instruction with an
/// empty queue, in a state that waits again at once.
pub proof fn lemma_run_pending(s: MachineState, n: nat)
    requires
        run_steps(s, n).1 == Ok::<Status, VmError>(Status::PendingInput),
    ensures
        step(run_steps(s, n).0) == (run_steps(s, n).0, Ok::<Status, VmError>(Status::PendingInput)),
    decreases n,
{
    if n > 0 {
        let (t, r) = step(s);
        if r == Ok::<Status, VmError>(Status::Running) {
            lemma_run_pending(t, (n - 1) as nat);
        } else {
            lemma_step_pending(s);
        }
    }
}

/// A run that stopped to wait for input, run again with no new input, waits
/// again at the same instruction and changes nothing.
pub proof fn lemma_resume_idempotent(s: MachineState, n: nat, m: nat)
    requires
        run_steps(s, n).1 == Ok::<Status, VmError>(Status::PendingInput),
        m >= 1,
    ensures
        fetch(run_steps(s, n).0, run_steps(s, n).0.ip) == Ok::<u16, VmError>(20),
        run_steps(run_steps(s, n).0, m) == (run_steps(s, n).0, Ok::<Status, VmError>(
            Status::PendingInput,
        )),
{
    lemma_run_pending(s, n);
    lemma_step_pending(run_steps(s, n).0);
}

/// A machine waiting at `in a` with an empty queue, given one word `w`, reads
/// exactly that word into `a`, empties the queue, and moves past the `in`
/// instruction; a run from there goes on as a run from that next state.
pub proof fn lemma_resume_consumes_one(t: MachineState, w: u16, n: nat)
    requires
        fetch(t, t.ip) == Ok::<u16, VmError>(20),
        t.input.len() == 0,
        fetch(t, t.ip + 1) matches Ok(a) && store(t, a, w) is Ok,
    ensures
        ({
            let u = MachineState { input: t.input.push(w), ..t };
            let a = fetch(t, t.ip + 1)->Ok_0;
            let next = step(u).0;
            &&& step(u).1 == Ok::<Status, VmError>(Status::Running)
            &&& next == store(t, a, w)->Ok_0.advance(2)
            &&& next.input.len() == 0
            &&& next.ip == t.ip + 2
            &&& run_steps(u, n + 1) == run_steps(next, n)
        }),
{
    let u = MachineState { input: t.input.push(w), ..t };
    assert(u.input.drop_first() =~= t.input);
}

/// `ret` on an empty stack halts, leaving the state as it was.
pub proof fn lemma_ret_empty_halts(s: MachineState, n: nat)
    requires
        fetch(s, s.ip) == Ok::<u16, VmError>(18),
        s.stack.len() == 0,
        n >= 1,
    ensures
        run_steps(s, n) == (s, Ok::<Status, VmError>(Status::Halted)),
{
}

/// `pop` on an empty stack is a `StackUnderflow` fault, not a halt.
pub proof fn lemma_pop_empty_faults(s: MachineState, n: nat)
    requires
        fetch(s, s.ip) == Ok::<u16, VmError>(3),
        fetch(s, s.ip + 1) is Ok,
        s.stack.len() == 0,
        n >= 1,
    ensures
        run_steps(s, n) == (s, Err::<Status, VmError>(VmError::StackUnderflow)),
{
}

} // verus!
