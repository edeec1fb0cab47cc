//! The call stack: one frame per rule activation, each with a return
//! address and two generated-label slots.
use vstd::prelude::*;

verus! {

/// How many distinct labels the generator can produce: `A0` to `Z99`.
pub const LABEL_LIMIT: u32 = 2600;

/// One rule activation. A label slot holds the generator value its label
/// was made from.
#[derive(Clone, Copy, Debug, PartialEq, Eq, Structural)]
pub struct Frame {
    pub return_addr: u64,
    pub label1: Option<u32>,
    pub label2: Option<u32>,
}

/// The decimal digits of `n`, for `n < 100`, without leading zeros.
pub open spec fn small_decimal(n: nat) -> Seq<u8> {
    if n < 10 {
        seq![(48 + n) as u8]
    } else {
        seq![(48 + n / 10) as u8, (48 + n % 10) as u8]
    }
}

/// The text of generated label number `n`: a letter from `A` on for each
/// hundred, then the remainder in decimal.
pub open spec fn label_text(n: nat) -> Seq<u8> {
    seq![(65 + n / 100) as u8] + small_decimal(n % 100)
}

/// Writes the text of label number `n`.
pub fn label_bytes(n: u32) -> (r: Vec<u8>)
    requires
        n < LABEL_LIMIT,
    ensures
        r@ == label_text(n as nat),
{
    let band = (65 + n / 100) as u8;
    let rest = n % 100;
    let mut r: Vec<u8> = Vec::new();
    r.push(band);
    if rest < 10 {
        r.push((48 + rest) as u8);
    } else {
        r.push((48 + rest / 10) as u8);
        r.push((48 + rest % 10) as u8);
    }
    assert(r@ =~= label_text(n as nat));
    r
}

/// A frame that a call pushes: its return address and two empty slots.
pub open spec fn fresh_frame(return_addr: u64) -> Frame {
    Frame { return_addr, label1: None, label2: None }
}

/// The frames, bottom first. The bottom one is the sentinel: returning from
/// it ends the program.
pub struct CallStack {
    pub frames: Vec<Frame>,
}

impl View for CallStack {
    type V = Seq<Frame>;

    open spec fn view(&self) -> Seq<Frame> {
        self.frames@
    }
}

impl CallStack {
    pub open spec fn wf(&self) -> bool {
        self@.len() >= 1
    }

    /// A stack holding the sentinel frame alone.
    pub fn new() -> (r: CallStack)
        ensures
            r.wf(),
            r@ == seq![fresh_frame(0)],
    {
        let mut frames: Vec<Frame> = Vec::new();
        frames.push(Frame { return_addr: 0, label1: None, label2: None });
        assert(frames@ =~= seq![fresh_frame(0)]);
        CallStack { frames }
    }

    pub fn depth(&self) -> (r: usize)
        ensures
            r == self@.len(),
    {
        self.frames.len()
    }

    /// Pushes a frame that returns to `return_addr`.
    pub fn call(&mut self, return_addr: u64)
        requires
            old(self).wf(),
        ensures
            final(self).wf(),
            final(self)@ == old(self)@.push(fresh_frame(return_addr)),
    {
        self.frames.push(Frame { return_addr, label1: None, label2: None });
    }

    /// Pops the top frame and gives its return address. Gives `None` and
    /// leaves the stack as it is where only the sentinel is left.
    pub fn ret(&mut self) -> (r: Option<u64>)
        requires
            old(self).wf(),
        ensures
            final(self).wf(),
            old(self)@.len() == 1 ==> r.is_none() && final(self)@ == old(self)@,
            old(self)@.len() > 1 ==> r == Some(old(self)@.last().return_addr) && final(self)@
                == old(self)@.drop_last(),
    {
        if self.frames.len() == 1 {
            return None;
        }
        let f = self.frames.pop().unwrap();
        Some(f.return_addr)
    }

    /// The top frame.
    pub fn top(&self) -> (r: Frame)
        requires
            self.wf(),
        ensures
            r == self@.last(),
    {
        self.frames[self.frames.len() - 1]
    }

    /// Replaces the top frame.
    pub fn set_top(&mut self, f: Frame)
        requires
            old(self).wf(),
        ensures
            final(self).wf(),
            final(self)@ == old(self)@.update(old(self)@.len() - 1, f),
    {
        let i = self.frames.len() - 1;
        self.frames.set(i, f);
    }
}

} // verus!
