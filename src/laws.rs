//! Laws of the machine, proved over the opcode semantics of
//! [`crate::machine::step_model`].
use vstd::prelude::*;
use crate::bytes::{lemma_prefix_len_bounds, alnum_pred, index_of, other_than, skip_space, starts_with};
use crate::cursor::{ident_len, quoted_len, QUOTE};
use crate::machine::{
    advanced, exec_op, lit_operand, model_wf, slot, slot_ok, step_model, MachineModel, Status,
};
use crate::opcode::{opcode_of, Opcode};
use crate::stack::label_text;

verus! {

/// The instruction at `m`'s instruction pointer is `op`.
pub open spec fn at(m: MachineModel, op: Opcode) -> bool {
    m.ip < m.code.len() && opcode_of(m.code[m.ip as int]) == Some(op)
}

pub open spec fn is_recognizer(op: Opcode) -> bool {
    op == Opcode::TST || op == Opcode::ID || op == Opcode::STR
}

proof fn lemma_token_split(t: Seq<u8>, n: nat)
    requires
        n <= t.len(),
    ensures
        t == t.take(n as int) + t.skip(n as int),
{
    assert(t =~= t.take(n as int) + t.skip(n as int));
}

proof fn lemma_ident_fits(t: Seq<u8>)
    ensures
        ident_len(t) <= t.len(),
{
    lemma_prefix_len_bounds(t, alnum_pred());
}

proof fn lemma_quoted_fits(t: Seq<u8>)
    ensures
        quoted_len(t) <= t.len(),
        quoted_len(t) > 0 ==> quoted_len(t) >= 2 && t[0] == QUOTE && t[quoted_len(t) - 1]
            == QUOTE,
{
    if t.len() > 0 {
        let inner = t.drop_first();
        lemma_prefix_len_bounds(inner, other_than(QUOTE));
        if quoted_len(t) > 0 {
            let j = index_of(inner, QUOTE) as int;
            assert(t[j + 1] == inner[j]);
        }
    }
}

/// A `TST` that succeeds found its literal at the front of the input after
/// whitespace, and consumed exactly that whitespace and the literal.
pub proof fn lemma_tst_consumes(m: MachineModel)
    requires
        model_wf(m),
        at(m, Opcode::TST),
        step_model(m).1 == Status::Running,
        step_model(m).0.switch,
    ensures
        lit_operand(advanced(m)) is Some,
        starts_with(skip_space(m.input), lit_operand(advanced(m))->Some_0),
        skip_space(m.input) == lit_operand(advanced(m))->Some_0 + step_model(m).0.input,
{
    let lit = lit_operand(advanced(m))->Some_0;
    let t = skip_space(m.input);
    lemma_token_split(t, lit.len());
}

/// After a recognizer succeeds the switch is on, and the token is exactly
/// the text consumed after whitespace: for `STR`, quotes included.
pub proof fn lemma_recognizer_success(m: MachineModel, op: Opcode)
    requires
        model_wf(m),
        at(m, op),
        is_recognizer(op),
        step_model(m).1 == Status::Running,
        step_model(m).0.switch,
    ensures
        skip_space(m.input) == step_model(m).0.token + step_model(m).0.input,
        op == Opcode::STR ==> step_model(m).0.token.len() >= 2 && step_model(m).0.token[0]
            == QUOTE && step_model(m).0.token.last() == QUOTE,
{
    let t = skip_space(m.input);
    if op == Opcode::TST {
        lemma_tst_consumes(m);
    } else if op == Opcode::ID {
        lemma_ident_fits(t);
        lemma_token_split(t, ident_len(t));
    } else {
        lemma_quoted_fits(t);
        lemma_token_split(t, quoted_len(t));
    }
}

/// After a recognizer fails the switch is off and nothing but whitespace
/// has been consumed; `NUM` consumes nothing at all.
pub proof fn lemma_recognizer_failure(m: MachineModel, op: Opcode)
    requires
        model_wf(m),
        at(m, op),
        is_recognizer(op) || op == Opcode::NUM,
        step_model(m).1 == Status::Running,
        !step_model(m).0.switch,
    ensures
        is_recognizer(op) ==> step_model(m).0.input == skip_space(m.input),
        op == Opcode::NUM ==> step_model(m).0.input == m.input,
{
}

/// A return undoes a call: where the callee reaches `R` with the caller's
/// frames below its own, the stack is back to what it was before `CLL`, and
/// execution resumes right after the `CLL` and its operand.
pub proof fn lemma_call_return(m: MachineModel, m2: MachineModel)
    requires
        model_wf(m),
        at(m, Opcode::CLL),
        step_model(m).1 == Status::Running,
        at(m2, Opcode::R),
        m2.frames.len() == m.frames.len() + 1,
        m2.frames.drop_last() == m.frames,
        m2.frames.last().return_addr == step_model(m).0.frames.last().return_addr,
    ensures
        step_model(m).0.frames.len() == m.frames.len() + 1,
        step_model(m2).1 == Status::Running,
        step_model(m2).0.frames == m.frames,
        step_model(m2).0.ip == m.ip + 1 + m.addrsize,
{
}

/// `GN1` (`first`) or `GN2`, issued again in the same frame, appends the same
/// label as the first time and leaves the label generator where it is.
pub proof fn lemma_label_stable(m: MachineModel, m2: MachineModel, first: bool)
    requires
        model_wf(m),
        model_wf(m2),
        at(m, if first { Opcode::GN1 } else { Opcode::GN2 }),
        at(m2, if first { Opcode::GN1 } else { Opcode::GN2 }),
        step_model(m).1 == Status::Running,
        m2.frames.last() == step_model(m).0.frames.last(),
    ensures
        slot(step_model(m).0.frames.last(), first) is Some,
        step_model(m).0.line == m.line + label_text(
            slot(step_model(m).0.frames.last(), first)->Some_0 as nat,
        ) + seq![32u8],
        step_model(m2).1 == Status::Running,
        step_model(m2).0.line == m2.line + label_text(
            slot(step_model(m).0.frames.last(), first)->Some_0 as nat,
        ) + seq![32u8],
        step_model(m2).0.counter == m2.counter,
{
}

/// Two `LB` in a row do what one does.
pub proof fn lemma_lb_twice(m: MachineModel)
    requires
        at(m, Opcode::LB),
        at(step_model(m).0, Opcode::LB),
    ensures
        step_model(step_model(m).0).1 == Status::Running,
        step_model(step_model(m).0).0 == (MachineModel { ip: m.ip + 2, ..step_model(m).0 }),
{
    assert(step_model(step_model(m).0).0 =~= (MachineModel { ip: m.ip + 2, ..step_model(m).0 }));
}

/// `OUT` writes its line flush-left just where `LB` set the flag, and
/// clears the flag, so the `OUT` after it writes a tab again.
pub proof fn lemma_out_label(m: MachineModel)
    requires
        at(m, Opcode::OUT),
    ensures
        step_model(m).1 == Status::Running,
        !step_model(m).0.label_line,
        m.label_line ==> step_model(m).0.output == m.output + m.line + seq![10u8],
        !m.label_line ==> step_model(m).0.output == m.output + seq![9u8] + m.line + seq![10u8],
{
    assert(seq![9u8] + m.line + seq![10u8] =~= seq![9u8] + (m.line + seq![10u8]));
    assert(Seq::<u8>::empty() + m.line + seq![10u8] =~= m.line + seq![10u8]);
    assert(m.output + (seq![9u8] + m.line + seq![10u8]) =~= m.output + seq![9u8] + m.line
        + seq![10u8]);
    assert(m.output + (Seq::<u8>::empty() + m.line + seq![10u8]) =~= m.output + m.line
        + seq![10u8]);
}

/// Only `LB` and `OUT` touch the label flag.
pub proof fn lemma_label_flag_kept(m: MachineModel, op: Opcode)
    requires
        op != Opcode::LB,
        op != Opcode::OUT,
    ensures
        exec_op(m, op).0.label_line == m.label_line,
{
}

/// Two `SET` in a row leave the switch on, as one does.
pub proof fn lemma_set_twice(m: MachineModel)
    requires
        at(m, Opcode::SET),
        at(step_model(m).0, Opcode::SET),
    ensures
        step_model(m).0.switch,
        step_model(step_model(m).0).1 == Status::Running,
        step_model(step_model(m).0).0 == (MachineModel { ip: m.ip + 2, ..step_model(m).0 }),
{
    assert(step_model(step_model(m).0).0 =~= (MachineModel { ip: m.ip + 2, ..step_model(m).0 }));
}

/// `B` and `ADR` do the same thing.
pub proof fn lemma_b_is_adr(m: MachineModel)
    ensures
        exec_op(m, Opcode::B) == exec_op(m, Opcode::ADR),
{
}

/// `TST` with the empty literal always succeeds, takes no input but the
/// whitespace, and leaves the empty token.
pub proof fn lemma_tst_empty(m: MachineModel)
    requires
        at(m, Opcode::TST),
        lit_operand(advanced(m)) == Some(Seq::<u8>::empty()),
    ensures
        step_model(m).1 == Status::Running,
        step_model(m).0.switch,
        step_model(m).0.token == Seq::<u8>::empty(),
        step_model(m).0.input == skip_space(m.input),
{
    let t = skip_space(m.input);
    assert(t.take(0) =~= Seq::<u8>::empty());
    assert(t.skip(0) =~= t);
}

/// `STR` on an empty quoted string gives the two quotes as its token.
pub proof fn lemma_str_empty(m: MachineModel)
    requires
        at(m, Opcode::STR),
        skip_space(m.input).len() >= 2,
        skip_space(m.input)[0] == QUOTE,
        skip_space(m.input)[1] == QUOTE,
    ensures
        step_model(m).1 == Status::Running,
        step_model(m).0.switch,
        step_model(m).0.token == seq![QUOTE, QUOTE],
{
    let t = skip_space(m.input);
    let inner = t.drop_first();
    assert(inner[0] == QUOTE);
    crate::bytes::lemma_prefix_len(inner, other_than(QUOTE), 0);
    assert(t.take(2) =~= seq![QUOTE, QUOTE]);
}

/// `OUT` on an empty line writes a tab and a newline, or after `LB` the
/// newline alone.
pub proof fn lemma_out_empty(m: MachineModel)
    requires
        at(m, Opcode::OUT),
        m.line.len() == 0,
    ensures
        step_model(m).1 == Status::Running,
        m.label_line ==> step_model(m).0.output == m.output + seq![10u8],
        !m.label_line ==> step_model(m).0.output == m.output + seq![9u8, 10u8],
{
    assert(Seq::<u8>::empty() + m.line + seq![10u8] =~= seq![10u8]);
    assert(seq![9u8] + m.line + seq![10u8] =~= seq![9u8, 10u8]);
}

/// `R` in the sentinel frame ends the run successfully.
pub proof fn lemma_return_from_sentinel(m: MachineModel)
    requires
        at(m, Opcode::R),
        m.frames.len() == 1,
    ensures
        step_model(m).1 == Status::Finished,
{
}

/// Every step keeps the machine well formed: in particular the call stack
/// is never empty.
pub proof fn lemma_step_keeps_wf(m: MachineModel)
    requires
        model_wf(m),
    ensures
        model_wf(step_model(m).0),
{
    let m2 = step_model(m).0;
    assert forall|i: int| 0 <= i < m2.frames.len() implies slot_ok(
        #[trigger] m2.frames[i].label1,
    ) && slot_ok(m2.frames[i].label2) by {
        if i < m.frames.len() && i != m.frames.len() - 1 {
            assert(m2.frames[i] == m.frames[i]);
        }
    }
}

/// Only `CLL` deepens the call stack, by one frame, and only `R` makes it
/// shallower, by one frame.
pub proof fn lemma_depth_change(m: MachineModel)
    requires
        model_wf(m),
        step_model(m).1 == Status::Running,
    ensures
        at(m, Opcode::CLL) ==> step_model(m).0.frames.len() == m.frames.len() + 1,
        at(m, Opcode::R) ==> step_model(m).0.frames.len() == m.frames.len() - 1,
        !at(m, Opcode::CLL) && !at(m, Opcode::R) ==> step_model(m).0.frames.len()
            == m.frames.len(),
{
}

} // verus!
