//! The input cursor: the source text not yet consumed, and the recognizers
//! that consume it.
use vstd::prelude::*;
use crate::bytes::{
    alnum_pred, index_of, is_alnum, is_alpha, is_space, lemma_prefix_len, other_than, prefix_len,
    skip_space, space_pred, starts_with,
};

verus! {

/// The single quote that opens and closes a string token.
pub const QUOTE: u8 = 39;

/// The length of the identifier at the front of `t`: a letter followed by
/// letters and digits, as many as there are. Zero where `t` does not start
/// with a letter.
pub open spec fn ident_len(t: Seq<u8>) -> nat {
    if t.len() > 0 && is_alpha(t[0]) {
        prefix_len(t, alnum_pred())
    } else {
        0
    }
}

/// The length of the quoted string at the front of `t`, both quotes
/// included. Zero where `t` does not start with a quote or the quote is
/// never closed.
pub open spec fn quoted_len(t: Seq<u8>) -> nat {
    if t.len() > 0 && t[0] == QUOTE && index_of(t.drop_first(), QUOTE) < t.len() - 1 {
        index_of(t.drop_first(), QUOTE) + 2
    } else {
        0
    }
}

/// The input bytes, with a head index past the consumed ones.
pub struct Cursor {
    pub bytes: Vec<u8>,
    pub pos: usize,
}

impl View for Cursor {
    type V = Seq<u8>;

    /// The bytes not yet consumed.
    open spec fn view(&self) -> Seq<u8> {
        self.bytes@.subrange(self.pos as int, self.bytes@.len() as int)
    }
}

impl Cursor {
    pub open spec fn wf(&self) -> bool {
        self.pos <= self.bytes@.len()
    }

    pub fn new(bytes: Vec<u8>) -> (r: Cursor)
        ensures
            r.wf(),
            r@ == bytes@,
    {
        let r = Cursor { bytes, pos: 0 };
        assert(r@ =~= r.bytes@);
        r
    }

    /// Drops the leading spaces, tabs, carriage returns and line feeds.
    pub fn skip_whitespace(&mut self)
        requires
            old(self).wf(),
        ensures
            final(self).wf(),
            final(self)@ == skip_space(old(self)@),
    {
        let ghost s = self@;
        let start = self.pos;
        while self.pos < self.bytes.len() && (self.bytes[self.pos] == 32 || self.bytes[self.pos]
            == 9 || self.bytes[self.pos] == 10 || self.bytes[self.pos] == 13)
            invariant
                start <= self.pos <= self.bytes@.len(),
                s == self.bytes@.subrange(start as int, self.bytes@.len() as int),
                forall|k: int| 0 <= k < self.pos - start ==> is_space(#[trigger] s[k]),
            decreases self.bytes@.len() - self.pos,
        {
            self.pos = self.pos + 1;
        }
        proof {
            let i = self.pos - start;
            assert forall|k: int| 0 <= k < i implies #[trigger] space_pred()(s[k]) by {}
            lemma_prefix_len(s, space_pred(), i);
        }
        assert(self@ =~= skip_space(s));
    }

    /// Whether the unconsumed input, after whitespace, starts with `lit`.
    pub fn starts_with(&self, lit: &Vec<u8>) -> (r: bool)
        requires
            self.wf(),
        ensures
            r == starts_with(self@, lit@),
    {
        if lit.len() > self.bytes.len() - self.pos {
            return false;
        }
        let mut i: usize = 0;
        while i < lit.len()
            invariant
                self.wf(),
                lit@.len() <= self@.len(),
                i <= lit@.len(),
                forall|k: int| 0 <= k < i ==> self@[k] == lit@[k],
            decreases lit@.len() - i,
        {
            assert(self@.len() == self.bytes@.len() - self.pos);
            assert(self.pos + i < self.bytes.len());
            if self.bytes[self.pos + i] != lit[i] {
                return false;
            }
            i = i + 1;
        }
        assert(self@.take(lit@.len() as int) =~= lit@);
        true
    }

    /// Skips whitespace, then consumes `lit` where the input starts with it.
    pub fn match_literal(&mut self, lit: &Vec<u8>) -> (r: bool)
        requires
            old(self).wf(),
        ensures
            final(self).wf(),
            r == starts_with(skip_space(old(self)@), lit@),
            final(self)@ == if r {
                skip_space(old(self)@).skip(lit@.len() as int)
            } else {
                skip_space(old(self)@)
            },
    {
        self.skip_whitespace();
        let r = self.starts_with(lit);
        if r {
            let ghost t = self@;
            assert(t.len() == self.bytes@.len() - self.pos);
            assert(self.pos + lit.len() <= self.bytes.len());
            self.pos = self.pos + lit.len();
            assert(self@ =~= t.skip(lit@.len() as int));
        }
        r
    }

    /// Copies `n` bytes from the front of the input and consumes them.
    fn take_front(&mut self, n: usize) -> (r: Vec<u8>)
        requires
            old(self).wf(),
            n <= old(self)@.len(),
        ensures
            final(self).wf(),
            r@ == old(self)@.take(n as int),
            final(self)@ == old(self)@.skip(n as int),
    {
        let mut r: Vec<u8> = Vec::new();
        let mut i: usize = 0;
        while i < n
            invariant
                self.wf(),
                n <= self@.len(),
                i <= n,
                r@ == self@.take(i as int),
            decreases n - i,
        {
            assert(self@.len() == self.bytes@.len() - self.pos);
            assert(self.pos + i < self.bytes.len());
            r.push(self.bytes[self.pos + i]);
            i = i + 1;
            assert(r@ =~= self@.take(i as int));
        }
        let ghost s = self@;
        assert(s.len() == self.bytes@.len() - self.pos);
        assert(self.pos + n <= self.bytes.len());
        self.pos = self.pos + n;
        assert(self@ =~= s.skip(n as int));
        r
    }

    /// Skips whitespace, then consumes an identifier: a letter followed by
    /// letters and digits.
    pub fn identifier(&mut self) -> (r: Option<Vec<u8>>)
        requires
            old(self).wf(),
        ensures
            final(self).wf(),
            ({
                let t = skip_space(old(self)@);
                let n = ident_len(t);
                if n > 0 {
                    r.is_some() && r.unwrap()@ == t.take(n as int) && final(self)@ == t.skip(
                        n as int,
                    )
                } else {
                    r.is_none() && final(self)@ == t
                }
            }),
    {
        self.skip_whitespace();
        let ghost t = self@;
        if self.pos >= self.bytes.len() {
            return None;
        }
        let c = self.bytes[self.pos];
        if !((65 <= c && c <= 90) || (97 <= c && c <= 122)) {
            return None;
        }
        let mut i: usize = self.pos;
        while i < self.bytes.len() && ((65 <= self.bytes[i] && self.bytes[i] <= 90) || (97
            <= self.bytes[i] && self.bytes[i] <= 122) || (48 <= self.bytes[i] && self.bytes[i]
            <= 57))
            invariant
                self.wf(),
                t == self@,
                self.pos <= i <= self.bytes@.len(),
                forall|k: int| 0 <= k < i - self.pos ==> is_alnum(#[trigger] t[k]),
            decreases self.bytes@.len() - i,
        {
            i = i + 1;
        }
        let n = i - self.pos;
        proof {
            assert forall|k: int| 0 <= k < n implies #[trigger] alnum_pred()(t[k]) by {}
            lemma_prefix_len(t, alnum_pred(), n as int);
        }
        Some(self.take_front(n))
    }

    /// Skips whitespace, then consumes a quoted string: a quote, the bytes up
    /// to the next quote, and that quote. The token keeps both quotes.
    pub fn quoted(&mut self) -> (r: Option<Vec<u8>>)
        requires
            old(self).wf(),
        ensures
            final(self).wf(),
            ({
                let t = skip_space(old(self)@);
                let n = quoted_len(t);
                if n > 0 {
                    r.is_some() && r.unwrap()@ == t.take(n as int) && final(self)@ == t.skip(
                        n as int,
                    )
                } else {
                    r.is_none() && final(self)@ == t
                }
            }),
    {
        self.skip_whitespace();
        let ghost t = self@;
        if self.pos >= self.bytes.len() || self.bytes[self.pos] != QUOTE {
            return None;
        }
        let ghost inner = t.drop_first();
        let mut i: usize = self.pos + 1;
        while i < self.bytes.len() && self.bytes[i] != QUOTE
            invariant
                self.wf(),
                t == self@,
                self.pos < self.bytes@.len(),
                inner == t.drop_first(),
                self.pos + 1 <= i <= self.bytes@.len(),
                forall|k: int| 0 <= k < i - self.pos - 1 ==> #[trigger] inner[k] != QUOTE,
            decreases self.bytes@.len() - i,
        {
            i = i + 1;
        }
        let j = i - self.pos - 1;
        proof {
            assert forall|k: int| 0 <= k < j implies #[trigger] other_than(QUOTE)(inner[k]) by {}
            if j < inner.len() {
                assert(inner[j as int] == self.bytes@[i as int]);
            }
            lemma_prefix_len(inner, other_than(QUOTE), j as int);
            assert(index_of(inner, QUOTE) == j);
        }
        if i >= self.bytes.len() {
            return None;
        }
        Some(self.take_front(j + 2))
    }
}

} // verus!
