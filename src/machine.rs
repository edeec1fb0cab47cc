//! The machine: its state, the meaning of each opcode over a model of that
//! state, and the executable interpreter proved to follow it.
use vstd::prelude::*;
use crate::bytes::{
    index_of, le_value, lemma_pow256_le, lemma_prefix_len, other_than, pow256, skip_space,
    starts_with,
};
use crate::cursor::{ident_len, quoted_len, Cursor};
use crate::opcode::{opcode_of, Opcode};
use crate::stack::{fresh_frame, label_text, label_bytes, CallStack, Frame, LABEL_LIMIT};

verus! {

/// A fatal error in the program image, met while running it.
#[derive(Clone, Copy, Debug, PartialEq, Eq, Structural)]
pub enum Fault {
    /// The instruction pointer is past the end of the code.
    IpOutOfRange,
    /// The byte at the instruction pointer encodes no instruction.
    BadOpcode,
    /// An address or literal operand runs past the end of the code.
    TruncatedOperand,
    /// The label generator has given out all of `A0` to `Z99`.
    LabelsExhausted,
}

/// Where the machine stands after a step or a run.
#[derive(Clone, Copy, Debug, PartialEq, Eq, Structural)]
pub enum Status {
    /// It can go on.
    Running,
    /// `END`, or a return from the sentinel frame: success.
    Finished,
    /// `BE` with the switch off: the source text was rejected.
    SyntaxError,
    Fault(Fault),
}

impl Status {
    /// The process exit code for a finished run: 0 for success, 1 for a
    /// rejected source text, 2 for a fault. `None` while running.
    pub fn exit_code(&self) -> (r: Option<u8>)
        ensures
            r == match *self {
                Status::Running => None,
                Status::Finished => Some(0u8),
                Status::SyntaxError => Some(1u8),
                Status::Fault(_) => Some(2u8),
            },
    {
        match self {
            Status::Running => None,
            Status::Finished => Some(0),
            Status::SyntaxError => Some(1),
            Status::Fault(_) => Some(2),
        }
    }
}

/// Why a program image was refused.
#[derive(Clone, Copy, Debug, PartialEq, Eq, Structural)]
pub enum LoadError {
    /// Shorter than the 8-byte header.
    TooShort,
    /// The header is not `.meta\0\0\x08`.
    BadMagic,
}

/// The 8-byte header every image starts with; its last byte is the width
/// of an address operand.
pub open spec fn magic() -> Seq<u8> {
    seq![46u8, 109u8, 101u8, 116u8, 97u8, 0u8, 0u8, 8u8]
}

pub open spec fn has_header(p: Seq<u8>) -> bool {
    p.len() >= 8 && p.take(8) == magic()
}

/// The machine's state as mathematical values.
#[verifier::ext_equal]
pub ghost struct MachineModel {
    /// The code region: the image without its header.
    pub code: Seq<u8>,
    /// The width of an address operand, in bytes.
    pub addrsize: nat,
    pub ip: nat,
    /// The success flag.
    pub switch: bool,
    /// The last token recognized.
    pub token: Seq<u8>,
    /// The input not yet consumed.
    pub input: Seq<u8>,
    pub frames: Seq<Frame>,
    /// The label generator: the number of labels given out.
    pub counter: nat,
    /// The output line being assembled.
    pub line: Seq<u8>,
    /// Whether the next `OUT` writes its line flush-left.
    pub label_line: bool,
    /// Everything written by `OUT` so far.
    pub output: Seq<u8>,
}

pub open spec fn slot_ok(s: Option<u32>) -> bool {
    s matches Some(n) ==> n < LABEL_LIMIT
}

pub open spec fn model_wf(m: MachineModel) -> bool {
    &&& 1 <= m.addrsize <= 8
    &&& m.code.len() <= u64::MAX
    &&& m.frames.len() >= 1
    &&& m.counter <= LABEL_LIMIT
    &&& forall|i: int|
        0 <= i < m.frames.len() ==> slot_ok(#[trigger] m.frames[i].label1) && slot_ok(
            m.frames[i].label2,
        )
}

/// The state a freshly loaded machine starts in.
pub open spec fn initial(code: Seq<u8>, addrsize: nat, input: Seq<u8>) -> MachineModel {
    MachineModel {
        code,
        addrsize,
        ip: 0,
        switch: false,
        token: seq![],
        input,
        frames: seq![fresh_frame(0)],
        counter: 0,
        line: seq![],
        label_line: false,
        output: seq![],
    }
}

/// The address operand at the instruction pointer, little-endian.
pub open spec fn addr_operand(m: MachineModel) -> Option<nat> {
    if m.ip + m.addrsize <= m.code.len() {
        Some(le_value(m.code.subrange(m.ip as int, (m.ip + m.addrsize) as int)))
    } else {
        None
    }
}

/// The NUL-terminated literal operand at the instruction pointer, without
/// its NUL.
pub open spec fn lit_operand(m: MachineModel) -> Option<Seq<u8>> {
    let rest = m.code.skip(m.ip as int);
    if m.ip <= m.code.len() && index_of(rest, 0) < rest.len() {
        Some(rest.take(index_of(rest, 0) as int))
    } else {
        None
    }
}

/// `m` with its instruction pointer moved past the opcode byte.
pub open spec fn advanced(m: MachineModel) -> MachineModel {
    MachineModel { ip: m.ip + 1, ..m }
}

/// What `OUT` writes for `line`: a tab first unless the line is a label.
pub open spec fn out_line(line: Seq<u8>, label_line: bool) -> Seq<u8> {
    (if label_line {
        seq![]
    } else {
        seq![9u8]
    }) + line + seq![10u8]
}

/// The effect of a recognizer that found a token of `n` bytes at the front
/// of `t` (none where `n` is zero); `t` is the input after whitespace.
pub open spec fn recognized(m: MachineModel, t: Seq<u8>, n: nat) -> MachineModel {
    if n > 0 {
        MachineModel { switch: true, token: t.take(n as int), input: t.skip(n as int), ..m }
    } else {
        MachineModel { switch: false, input: t, ..m }
    }
}

pub open spec fn slot(f: Frame, first: bool) -> Option<u32> {
    if first {
        f.label1
    } else {
        f.label2
    }
}

pub open spec fn with_slot(f: Frame, first: bool, n: u32) -> Frame {
    if first {
        Frame { label1: Some(n), ..f }
    } else {
        Frame { label2: Some(n), ..f }
    }
}

/// `GN1` (`first`) or `GN2`: give the top frame's slot a fresh label if it
/// has none, then append the slot's label and a space to the line.
pub open spec fn gen_label(m: MachineModel, first: bool) -> (MachineModel, Status) {
    let f = m.frames.last();
    match slot(f, first) {
        Some(n) => (MachineModel { line: m.line + label_text(n as nat) + seq![32u8], ..m }, Status::Running),
        None => if m.counter >= LABEL_LIMIT {
            (m, Status::Fault(Fault::LabelsExhausted))
        } else {
            (
                MachineModel {
                    frames: m.frames.update(
                        m.frames.len() - 1,
                        with_slot(f, first, m.counter as u32),
                    ),
                    counter: m.counter + 1,
                    line: m.line + label_text(m.counter) + seq![32u8],
                    ..m
                },
                Status::Running,
            )
        },
    }
}

/// The effect of `op`, in a state whose instruction pointer has moved past
/// the opcode byte.
pub open spec fn exec_op(m: MachineModel, op: Opcode) -> (MachineModel, Status) {
    let truncated = (m, Status::Fault(Fault::TruncatedOperand));
    let next_addr = m.ip + m.addrsize;
    match op {
        Opcode::ADR | Opcode::B => match addr_operand(m) {
            Some(a) => (MachineModel { ip: a, ..m }, Status::Running),
            None => truncated,
        },
        Opcode::BF => match addr_operand(m) {
            Some(a) => (MachineModel { ip: if m.switch { next_addr } else { a }, ..m }, Status::Running),
            None => truncated,
        },
        Opcode::BT => match addr_operand(m) {
            Some(a) => (MachineModel { ip: if m.switch { a } else { next_addr }, ..m }, Status::Running),
            None => truncated,
        },
        Opcode::CLL => match addr_operand(m) {
            Some(a) => (
                MachineModel { ip: a, frames: m.frames.push(fresh_frame(next_addr as u64)), ..m },
                Status::Running,
            ),
            None => truncated,
        },
        Opcode::TST => match lit_operand(m) {
            Some(lit) => {
                let t = skip_space(m.input);
                let next = m.ip + lit.len() + 1;
                if starts_with(t, lit) {
                    (
                        MachineModel {
                            ip: next,
                            switch: true,
                            token: lit,
                            input: t.skip(lit.len() as int),
                            ..m
                        },
                        Status::Running,
                    )
                } else {
                    (MachineModel { ip: next, switch: false, input: t, ..m }, Status::Running)
                }
            },
            None => truncated,
        },
        Opcode::CL => match lit_operand(m) {
            Some(lit) => (
                MachineModel { ip: m.ip + lit.len() + 1, line: m.line + lit + seq![32u8], ..m },
                Status::Running,
            ),
            None => truncated,
        },
        Opcode::ID => {
            let t = skip_space(m.input);
            (recognized(m, t, ident_len(t)), Status::Running)
        },
        Opcode::STR => {
            let t = skip_space(m.input);
            (recognized(m, t, quoted_len(t)), Status::Running)
        },
        Opcode::NUM => (MachineModel { switch: false, ..m }, Status::Running),
        Opcode::BE => if m.switch {
            (m, Status::Running)
        } else {
            (m, Status::SyntaxError)
        },
        Opcode::CI => (MachineModel { line: m.line + m.token + seq![32u8], ..m }, Status::Running),
        Opcode::OUT => (
            MachineModel {
                output: m.output + out_line(m.line, m.label_line),
                line: seq![],
                label_line: false,
                ..m
            },
            Status::Running,
        ),
        Opcode::SET => (MachineModel { switch: true, ..m }, Status::Running),
        Opcode::LB => (MachineModel { label_line: true, ..m }, Status::Running),
        Opcode::R => if m.frames.len() <= 1 {
            (m, Status::Finished)
        } else {
            (
                MachineModel {
                    ip: m.frames.last().return_addr as nat,
                    frames: m.frames.drop_last(),
                    ..m
                },
                Status::Running,
            )
        },
        Opcode::END => (m, Status::Finished),
        Opcode::GN1 => gen_label(m, true),
        Opcode::GN2 => gen_label(m, false),
    }
}

/// One fetch and execute.
pub open spec fn step_model(m: MachineModel) -> (MachineModel, Status) {
    if m.ip < m.code.len() {
        match opcode_of(m.code[m.ip as int]) {
            Some(op) => exec_op(advanced(m), op),
            None => (m, Status::Fault(Fault::BadOpcode)),
        }
    } else {
        (m, Status::Fault(Fault::IpOutOfRange))
    }
}

/// Up to `fuel` steps, stopping at the first that does not leave the
/// machine running.
pub open spec fn run_model(m: MachineModel, fuel: nat) -> (MachineModel, Status)
    decreases fuel,
{
    if fuel == 0 {
        (m, Status::Running)
    } else {
        let (m2, s) = step_model(m);
        if s == Status::Running {
            run_model(m2, (fuel - 1) as nat)
        } else {
            (m2, s)
        }
    }
}

/// Appends `src` to `dst`.
fn push_all(dst: &mut Vec<u8>, src: &Vec<u8>)
    ensures
        final(dst)@ == old(dst)@ + src@,
{
    let mut i: usize = 0;
    while i < src.len()
        invariant
            i <= src@.len(),
            dst@ == old(dst)@ + src@.take(i as int),
        decreases src@.len() - i,
    {
        dst.push(src[i]);
        i = i + 1;
        assert(dst@ =~= old(dst)@ + src@.take(i as int));
    }
    assert(src@.take(i as int) =~= src@);
}

/// The machine. Its meaning is its view, a [`MachineModel`]; every method
/// keeps `wf`.
pub struct VM {
    pub code: Vec<u8>,
    pub addrsize: usize,
    pub ip: u64,
    pub switch: bool,
    pub token: Vec<u8>,
    pub cursor: Cursor,
    pub stack: CallStack,
    pub counter: u32,
    pub line: Vec<u8>,
    pub label_line: bool,
    pub output: Vec<u8>,
}

impl View for VM {
    type V = MachineModel;

    open spec fn view(&self) -> MachineModel {
        MachineModel {
            code: self.code@,
            addrsize: self.addrsize as nat,
            ip: self.ip as nat,
            switch: self.switch,
            token: self.token@,
            input: self.cursor@,
            frames: self.stack@,
            counter: self.counter as nat,
            line: self.line@,
            label_line: self.label_line,
            output: self.output@,
        }
    }
}

impl VM {
    pub open spec fn wf(&self) -> bool {
        self.cursor.wf() && model_wf(self@)
    }

    /// Whether the image starts with the header.
    pub fn validate_header(program: &Vec<u8>) -> (r: bool)
        ensures
            r == has_header(program@),
    {
        if program.len() < 8 {
            return false;
        }
        let r = program[0] == 46 && program[1] == 109 && program[2] == 101 && program[3] == 116
            && program[4] == 97 && program[5] == 0 && program[6] == 0 && program[7] == 8;
        assert(r ==> program@.take(8) =~= magic());
        r
    }

    /// Loads a program image and the source text.
    pub fn new(program: Vec<u8>, input: Vec<u8>) -> (r: Result<VM, LoadError>)
        ensures
            program@.len() < 8 ==> r == Err::<VM, LoadError>(LoadError::TooShort),
            program@.len() >= 8 && !has_header(program@) ==> r == Err::<VM, LoadError>(
                LoadError::BadMagic,
            ),
            has_header(program@) ==> r is Ok && r->Ok_0.wf() && r->Ok_0@ == initial(
                program@.skip(8),
                8,
                input@,
            ),
    {
        if program.len() < 8 {
            return Err(LoadError::TooShort);
        }
        if !VM::validate_header(&program) {
            return Err(LoadError::BadMagic);
        }
        assert(program@[7] == program@.take(8)[7]);
        let addrsize = program[7] as usize;
        let mut code: Vec<u8> = Vec::new();
        let mut i: usize = 8;
        while i < program.len()
            invariant
                8 <= i <= program@.len(),
                code@ == program@.subrange(8, i as int),
            decreases program@.len() - i,
        {
            code.push(program[i]);
            i = i + 1;
            assert(code@ =~= program@.subrange(8, i as int));
        }
        assert(code@ =~= program@.skip(8));
        let m = VM {
            code,
            addrsize,
            ip: 0,
            switch: false,
            token: Vec::new(),
            cursor: Cursor::new(input),
            stack: CallStack::new(),
            counter: 0,
            line: Vec::new(),
            label_line: false,
            output: Vec::new(),
        };
        assert(m@ =~= initial(program@.skip(8), 8, input@));
        Ok(m)
    }

    /// The instruction at the instruction pointer.
    pub fn get_current_opcode(&self) -> (r: Result<Opcode, Fault>)
        requires
            self.wf(),
        ensures
            self@.ip >= self@.code.len() ==> r == Err::<Opcode, Fault>(Fault::IpOutOfRange),
            self@.ip < self@.code.len() ==> r == match opcode_of(self@.code[self@.ip as int]) {
                Some(op) => Ok::<Opcode, Fault>(op),
                None => Err(Fault::BadOpcode),
            },
    {
        if self.ip >= self.code.len() as u64 {
            return Err(Fault::IpOutOfRange);
        }
        match Opcode::from_byte(self.code[self.ip as usize]) {
            Some(op) => Ok(op),
            None => Err(Fault::BadOpcode),
        }
    }

    /// Reads the address operand at the instruction pointer and moves past
    /// it. Leaves the machine as it is where the operand is cut short.
    pub fn get_addr(&mut self) -> (r: Option<u64>)
        requires
            old(self).wf(),
        ensures
            final(self).wf(),
            r.is_some() == addr_operand(old(self)@).is_some(),
            r.is_some() ==> r.unwrap() as nat == addr_operand(old(self)@).unwrap()
                && final(self)@ == (MachineModel {
                ip: old(self)@.ip + old(self)@.addrsize,
                ..old(self)@
            }),
            r.is_none() ==> final(self)@ == old(self)@,
    {
        let len = self.code.len() as u64;
        let w = self.addrsize;
        if self.ip > len || len - self.ip < w as u64 {
            return None;
        }
        let start = self.ip as usize;
        let ghost bytes = self.code@.subrange(start as int, start + w);
        let mut v: u64 = 0;
        let mut i: usize = w;
        proof {
            reveal_with_fuel(pow256, 9);
        }
        while i > 0
            invariant
                self.wf(),
                w == self.addrsize,
                start + w <= self.code.len(),
                bytes == self.code@.subrange(start as int, start + w),
                i <= w,
                v as nat == le_value(bytes.subrange(i as int, w as int)),
                v < pow256((w - i) as nat),
            decreases i,
        {
            i = i - 1;
            let b = self.code[start + i];
            proof {
                let tail = bytes.subrange(i as int, w as int);
                assert(tail.drop_first() =~= bytes.subrange(i + 1, w as int));
                assert(tail[0] == b);
                lemma_pow256_le((w - i - 1) as nat, 7);
                reveal_with_fuel(pow256, 9);
                assert(v < 72057594037927936);
                assert(pow256((w - i) as nat) == 256 * pow256((w - i - 1) as nat));
                assert(v * 256 + b < 256 * pow256((w - i - 1) as nat)) by (nonlinear_arith)
                    requires
                        v < pow256((w - i - 1) as nat),
                        b < 256,
                ;
                assert(v * 256 + b <= 18446744073709551615) by (nonlinear_arith)
                    requires
                        v < 72057594037927936,
                        b < 256,
                ;
            }
            v = v * 256 + b as u64;
        }
        assert(bytes.subrange(0, w as int) =~= bytes);
        self.ip = self.ip + w as u64;
        Some(v)
    }

    /// The literal operand at the instruction pointer, up to its NUL.
    pub fn get_input_string(&self) -> (r: Option<Vec<u8>>)
        requires
            self.wf(),
        ensures
            r.is_some() == lit_operand(self@).is_some(),
            r.is_some() ==> r.unwrap()@ == lit_operand(self@).unwrap(),
    {
        if self.ip > self.code.len() as u64 {
            return None;
        }
        let start = self.ip as usize;
        let ghost rest = self.code@.skip(start as int);
        let mut r: Vec<u8> = Vec::new();
        let mut j: usize = start;
        while j < self.code.len() && self.code[j] != 0
            invariant
                start <= j <= self.code@.len(),
                rest == self.code@.skip(start as int),
                r@ == rest.take(j - start),
                forall|k: int| 0 <= k < j - start ==> #[trigger] rest[k] != 0,
            decreases self.code@.len() - j,
        {
            r.push(self.code[j]);
            j = j + 1;
            assert(r@ =~= rest.take(j - start));
        }
        proof {
            assert forall|k: int| 0 <= k < j - start implies #[trigger] other_than(0)(rest[k]) by {}
            if j < self.code@.len() {
                assert(rest[j - start] == self.code@[j as int]);
            }
            lemma_prefix_len(rest, other_than(0), j - start);
        }
        if j >= self.code.len() {
            return None;
        }
        Some(r)
    }

    /// Reads the literal operand at the instruction pointer and moves past
    /// its NUL. Leaves the machine as it is where there is no NUL.
    pub fn consume_string(&mut self) -> (r: Option<Vec<u8>>)
        requires
            old(self).wf(),
        ensures
            final(self).wf(),
            r.is_some() == lit_operand(old(self)@).is_some(),
            r.is_some() ==> r.unwrap()@ == lit_operand(old(self)@).unwrap() && final(self)@ == (
            MachineModel { ip: old(self)@.ip + r.unwrap()@.len() + 1, ..old(self)@ }),
            r.is_none() ==> final(self)@ == old(self)@,
    {
        let r = self.get_input_string();
        match r {
            Some(lit) => {
                proof {
                    let rest = self.code@.skip(self.ip as int);
                    crate::bytes::lemma_prefix_len_bounds(rest, other_than(0));
                    assert(rest.len() == self.code.len() - self.ip);
                    assert(self.ip + lit@.len() < self.code.len());
                }
                self.ip = self.ip + lit.len() as u64 + 1;
                Some(lit)
            },
            None => None,
        }
    }

    /// Drops the whitespace at the front of the input.
    pub fn consume_input_whitespace(&mut self)
        requires
            old(self).wf(),
        ensures
            final(self).wf(),
            final(self)@ == (MachineModel { input: skip_space(old(self)@.input), ..old(self)@ }),
    {
        self.cursor.skip_whitespace();
        assert(self@ =~= (MachineModel { input: skip_space(old(self)@.input), ..old(self)@ }));
    }

    fn advance(&mut self)
        requires
            old(self).wf(),
            old(self)@.ip < old(self)@.code.len(),
        ensures
            final(self).wf(),
            final(self)@ == advanced(old(self)@),
    {
        assert(self.ip < self.code.len());
        self.ip = self.ip + 1;
    }

    /// Gives out the next label number, if any is left.
    pub fn new_label(&mut self) -> (r: Option<u32>)
        requires
            old(self).wf(),
        ensures
            final(self).wf(),
            old(self)@.counter >= LABEL_LIMIT ==> r.is_none() && final(self)@ == old(self)@,
            old(self)@.counter < LABEL_LIMIT ==> r == Some(old(self).counter) && final(self)@ == (
            MachineModel { counter: old(self)@.counter + 1, ..old(self)@ }),
    {
        if self.counter >= LABEL_LIMIT {
            return None;
        }
        let n = self.counter;
        self.counter = self.counter + 1;
        Some(n)
    }

    /// `GN1` (`first`) or `GN2`, past the opcode byte.
    fn generate(&mut self, first: bool) -> (r: Status)
        requires
            old(self).wf(),
        ensures
            final(self).wf(),
            (final(self)@, r) == gen_label(old(self)@, first),
    {
        let f = self.stack.top();
        let cur = if first {
            f.label1
        } else {
            f.label2
        };
        let n = match cur {
            Some(n) => {
                assert(slot_ok(self@.frames[self@.frames.len() - 1].label1));
                n
            },
            None => match self.new_label() {
                None => return Status::Fault(Fault::LabelsExhausted),
                Some(n) => {
                    let nf = if first {
                        Frame { return_addr: f.return_addr, label1: Some(n), label2: f.label2 }
                    } else {
                        Frame { return_addr: f.return_addr, label1: f.label1, label2: Some(n) }
                    };
                    let ghost before = self@.frames;
                    self.stack.set_top(nf);
                    proof {
                        assert forall|i: int| 0 <= i < self@.frames.len() implies slot_ok(
                            #[trigger] self@.frames[i].label1,
                        ) && slot_ok(self@.frames[i].label2) by {
                            if i < self@.frames.len() - 1 {
                                assert(self@.frames[i] == before[i]);
                            }
                        }
                    }
                    n
                },
            },
        };
        let text = label_bytes(n);
        push_all(&mut self.line, &text);
        self.line.push(32);
        Status::Running
    }

    /// Fetches the instruction at the instruction pointer and executes it.
    pub fn step(&mut self) -> (r: Status)
        requires
            old(self).wf(),
        ensures
            final(self).wf(),
            (final(self)@, r) == step_model(old(self)@),
    {
        let op = match self.get_current_opcode() {
            Ok(op) => op,
            Err(f) => return Status::Fault(f),
        };
        match op {
            Opcode::ADR => self.adr(),
            Opcode::TST => self.tst(),
            Opcode::BF => self.bf(),
            Opcode::ID => self.id(),
            Opcode::BE => self.be(),
            Opcode::CL => self.cl(),
            Opcode::CI => self.ci(),
            Opcode::OUT => self.out(),
            Opcode::CLL => self.cll(),
            Opcode::BT => self.bt(),
            Opcode::SET => self.set(),
            Opcode::R => self.r(),
            Opcode::END => self.end(),
            Opcode::STR => self.str(),
            Opcode::NUM => self.num(),
            Opcode::LB => self.lb(),
            Opcode::GN1 => self.gn1(),
            Opcode::GN2 => self.gn2(),
            Opcode::B => self.b(),
        }
    }

    /// Runs at most `fuel` steps. Gives `Running` where the fuel ran out
    /// first; a caller runs again for more.
    pub fn run(&mut self, fuel: u64) -> (r: Status)
        requires
            old(self).wf(),
        ensures
            final(self).wf(),
            (final(self)@, r) == run_model(old(self)@, fuel as nat),
    {
        let mut i: u64 = 0;
        while i < fuel
            invariant
                self.wf(),
                i <= fuel,
                run_model(old(self)@, fuel as nat) == run_model(self@, (fuel - i) as nat),
            decreases fuel - i,
        {
            let s = self.step();
            match s {
                Status::Running => {},
                _ => return s,
            }
            i = i + 1;
        }
        Status::Running
    }

    /// Hands over what `OUT` has written so far and clears it.
    pub fn take_output(&mut self) -> (r: Vec<u8>)
        requires
            old(self).wf(),
        ensures
            final(self).wf(),
            r@ == old(self)@.output,
            final(self)@ == (MachineModel { output: seq![], ..old(self)@ }),
    {
        let mut r: Vec<u8> = Vec::new();
        core::mem::swap(&mut r, &mut self.output);
        assert(self@ =~= (MachineModel { output: seq![], ..old(self)@ }));
        r
    }

    /// `ADR addr`: jump to `addr`.
    pub fn adr(&mut self) -> (r: Status)
        requires
            old(self).wf(),
            old(self)@.ip < old(self)@.code.len(),
        ensures
            final(self).wf(),
            (final(self)@, r) == exec_op(advanced(old(self)@), Opcode::ADR),
    {
        self.advance();
        match self.get_addr() {
            Some(a) => {
                self.ip = a;
                Status::Running
            },
            None => Status::Fault(Fault::TruncatedOperand),
        }
    }

    /// `B addr`: jump to `addr`.
    pub fn b(&mut self) -> (r: Status)
        requires
            old(self).wf(),
            old(self)@.ip < old(self)@.code.len(),
        ensures
            final(self).wf(),
            (final(self)@, r) == exec_op(advanced(old(self)@), Opcode::B),
    {
        self.advance();
        match self.get_addr() {
            Some(a) => {
                self.ip = a;
                Status::Running
            },
            None => Status::Fault(Fault::TruncatedOperand),
        }
    }

    /// `BF addr`: jump to `addr` if the switch is off.
    pub fn bf(&mut self) -> (r: Status)
        requires
            old(self).wf(),
            old(self)@.ip < old(self)@.code.len(),
        ensures
            final(self).wf(),
            (final(self)@, r) == exec_op(advanced(old(self)@), Opcode::BF),
    {
        self.advance();
        match self.get_addr() {
            Some(a) => {
                if !self.switch {
                    self.ip = a;
                }
                Status::Running
            },
            None => Status::Fault(Fault::TruncatedOperand),
        }
    }

    /// `BT addr`: jump to `addr` if the switch is on.
    pub fn bt(&mut self) -> (r: Status)
        requires
            old(self).wf(),
            old(self)@.ip < old(self)@.code.len(),
        ensures
            final(self).wf(),
            (final(self)@, r) == exec_op(advanced(old(self)@), Opcode::BT),
    {
        self.advance();
        match self.get_addr() {
            Some(a) => {
                if self.switch {
                    self.ip = a;
                }
                Status::Running
            },
            None => Status::Fault(Fault::TruncatedOperand),
        }
    }

    /// `CLL addr`: push a frame that returns past the operand, and jump to `addr`.
    pub fn cll(&mut self) -> (r: Status)
        requires
            old(self).wf(),
            old(self)@.ip < old(self)@.code.len(),
        ensures
            final(self).wf(),
            (final(self)@, r) == exec_op(advanced(old(self)@), Opcode::CLL),
    {
        self.advance();
        match self.get_addr() {
            Some(a) => {
                let ret = self.ip;
                self.stack.call(ret);
                self.ip = a;
                proof {
                    assert forall|i: int| 0 <= i < self@.frames.len() implies slot_ok(
                        #[trigger] self@.frames[i].label1,
                    ) && slot_ok(self@.frames[i].label2) by {
                        if i < self@.frames.len() - 1 {
                            assert(self@.frames[i] == old(self)@.frames[i]);
                        }
                    }
                }
                Status::Running
            },
            None => Status::Fault(Fault::TruncatedOperand),
        }
    }

    /// `TST "lit"`: skip whitespace and consume `lit` if the input starts with it; the switch says whether it did.
    pub fn tst(&mut self) -> (r: Status)
        requires
            old(self).wf(),
            old(self)@.ip < old(self)@.code.len(),
        ensures
            final(self).wf(),
            (final(self)@, r) == exec_op(advanced(old(self)@), Opcode::TST),
    {
        self.advance();
        match self.consume_string() {
            Some(lit) => {
                let ok = self.cursor.match_literal(&lit);
                self.switch = ok;
                if ok {
                    self.token = lit;
                }
                Status::Running
            },
            None => Status::Fault(Fault::TruncatedOperand),
        }
    }

    /// `CL "lit"`: append `lit` and a space to the line.
    pub fn cl(&mut self) -> (r: Status)
        requires
            old(self).wf(),
            old(self)@.ip < old(self)@.code.len(),
        ensures
            final(self).wf(),
            (final(self)@, r) == exec_op(advanced(old(self)@), Opcode::CL),
    {
        self.advance();
        match self.consume_string() {
            Some(lit) => {
                push_all(&mut self.line, &lit);
                self.line.push(32);
                Status::Running
            },
            None => Status::Fault(Fault::TruncatedOperand),
        }
    }

    /// `ID`: skip whitespace and recognize an identifier.
    pub fn id(&mut self) -> (r: Status)
        requires
            old(self).wf(),
            old(self)@.ip < old(self)@.code.len(),
        ensures
            final(self).wf(),
            (final(self)@, r) == exec_op(advanced(old(self)@), Opcode::ID),
    {
        self.advance();
        match self.cursor.identifier() {
            Some(t) => {
                self.switch = true;
                self.token = t;
            },
            None => {
                self.switch = false;
            },
        }
        Status::Running
    }

    /// `STR`: skip whitespace and recognize a quoted string, quotes kept.
    pub fn str(&mut self) -> (r: Status)
        requires
            old(self).wf(),
            old(self)@.ip < old(self)@.code.len(),
        ensures
            final(self).wf(),
            (final(self)@, r) == exec_op(advanced(old(self)@), Opcode::STR),
    {
        self.advance();
        match self.cursor.quoted() {
            Some(t) => {
                self.switch = true;
                self.token = t;
            },
            None => {
                self.switch = false;
            },
        }
        Status::Running
    }

    /// `NUM`: the number recognizer is left out: it consumes nothing and turns the switch off.
    pub fn num(&mut self) -> (r: Status)
        requires
            old(self).wf(),
            old(self)@.ip < old(self)@.code.len(),
        ensures
            final(self).wf(),
            (final(self)@, r) == exec_op(advanced(old(self)@), Opcode::NUM),
    {
        self.advance();
        self.switch = false;
        Status::Running
    }

    /// `BE`: stop with a syntax error if the switch is off.
    pub fn be(&mut self) -> (r: Status)
        requires
            old(self).wf(),
            old(self)@.ip < old(self)@.code.len(),
        ensures
            final(self).wf(),
            (final(self)@, r) == exec_op(advanced(old(self)@), Opcode::BE),
    {
        self.advance();
        if !self.switch {
            Status::SyntaxError
        } else {
            Status::Running
        }
    }

    /// `CI`: append the last token and a space to the line.
    pub fn ci(&mut self) -> (r: Status)
        requires
            old(self).wf(),
            old(self)@.ip < old(self)@.code.len(),
        ensures
            final(self).wf(),
            (final(self)@, r) == exec_op(advanced(old(self)@), Opcode::CI),
    {
        self.advance();
        push_all(&mut self.line, &self.token);
        self.line.push(32);
        Status::Running
    }

    /// `OUT`: write the line, after a tab unless `LB` came first, and a newline; clear the line and the label flag.
    pub fn out(&mut self) -> (r: Status)
        requires
            old(self).wf(),
            old(self)@.ip < old(self)@.code.len(),
        ensures
            final(self).wf(),
            (final(self)@, r) == exec_op(advanced(old(self)@), Opcode::OUT),
    {
        self.advance();
        if !self.label_line {
            self.output.push(9);
        }
        push_all(&mut self.output, &self.line);
        self.output.push(10);
        self.line = Vec::new();
        self.label_line = false;
        Status::Running
    }

    /// `SET`: turn the switch on.
    pub fn set(&mut self) -> (r: Status)
        requires
            old(self).wf(),
            old(self)@.ip < old(self)@.code.len(),
        ensures
            final(self).wf(),
            (final(self)@, r) == exec_op(advanced(old(self)@), Opcode::SET),
    {
        self.advance();
        self.switch = true;
        Status::Running
    }

    /// `LB`: the next `OUT` writes its line flush-left.
    pub fn lb(&mut self) -> (r: Status)
        requires
            old(self).wf(),
            old(self)@.ip < old(self)@.code.len(),
        ensures
            final(self).wf(),
            (final(self)@, r) == exec_op(advanced(old(self)@), Opcode::LB),
    {
        self.advance();
        self.label_line = true;
        Status::Running
    }

    /// `R`: return to the caller; from the sentinel frame, finish.
    pub fn r(&mut self) -> (r: Status)
        requires
            old(self).wf(),
            old(self)@.ip < old(self)@.code.len(),
        ensures
            final(self).wf(),
            (final(self)@, r) == exec_op(advanced(old(self)@), Opcode::R),
    {
        self.advance();
        match self.stack.ret() {
            Some(a) => {
                self.ip = a;
                proof {
                    assert forall|i: int| 0 <= i < self@.frames.len() implies slot_ok(
                        #[trigger] self@.frames[i].label1,
                    ) && slot_ok(self@.frames[i].label2) by {
                        assert(self@.frames[i] == old(self)@.frames[i]);
                    }
                }
                Status::Running
            },
            None => Status::Finished,
        }
    }

    /// `END`: finish.
    pub fn end(&mut self) -> (r: Status)
        requires
            old(self).wf(),
            old(self)@.ip < old(self)@.code.len(),
        ensures
            final(self).wf(),
            (final(self)@, r) == exec_op(advanced(old(self)@), Opcode::END),
    {
        self.advance();
        Status::Finished
    }

    /// `GN1`: append the top frame's first label and a space to the line, making the label if the slot is empty.
    pub fn gn1(&mut self) -> (r: Status)
        requires
            old(self).wf(),
            old(self)@.ip < old(self)@.code.len(),
        ensures
            final(self).wf(),
            (final(self)@, r) == exec_op(advanced(old(self)@), Opcode::GN1),
    {
        self.advance();
        self.generate(true)
    }

    /// `GN2`: as `GN1`, with the second label slot.
    pub fn gn2(&mut self) -> (r: Status)
        requires
            old(self).wf(),
            old(self)@.ip < old(self)@.code.len(),
        ensures
            final(self).wf(),
            (final(self)@, r) == exec_op(advanced(old(self)@), Opcode::GN2),
    {
        self.advance();
        self.generate(false)
    }
}

} // verus!
