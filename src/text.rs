use vstd::prelude::*;
use vstd::math::min;
use vstd::string::StrSliceExecFns;

verus! {

/// The part of the practice text that the user has yet to type.
pub struct ReferenceText {
    pub remaining: Vec<char>,
    pub initial_length: usize,
}

impl View for ReferenceText {
    type V = Seq<char>;

    open spec fn view(&self) -> Seq<char> {
        self.remaining@
    }
}

impl ReferenceText {
    /// The text only shrinks from the length it was created with.
    pub open spec fn wf(&self) -> bool {
        self.remaining.len() <= self.initial_length
    }

    /// Builds the reference from a text, one entry per code point.
    pub fn new(text: &str) -> (r: ReferenceText)
        ensures
            r.wf(),
            r@ == text@,
            r.initial_length == text@.len(),
    {
        let remaining = chars_of(text);
        let n: usize = remaining.len();
        ReferenceText { remaining, initial_length: n }
    }

    /// The first `n` characters still to be typed.
    pub fn prefix_len(&self, n: usize) -> (r: Vec<char>)
        requires
            n <= self@.len(),
        ensures
            r@ == self@.take(n as int),
    {
        let mut r: Vec<char> = Vec::with_capacity(n);
        let mut i: usize = 0;
        while i < n
            invariant
                n <= self@.len(),
                i <= n,
                r@ == self@.take(i as int),
            decreases n - i,
        {
            r.push(self.remaining[i]);
            i = i + 1;
            proof {
                assert(r@ =~= self@.take(i as int));
            }
        }
        r
    }

    /// Whether `line` is exactly the text's first `line.len()` characters.
    pub fn starts_with(&self, line: &Vec<char>) -> (r: bool)
        ensures
            r == is_prefix_of(line@, self@),
    {
        if line.len() > self.remaining.len() {
            return false;
        }
        let mut i: usize = 0;
        while i < line.len()
            invariant
                line@.len() <= self@.len(),
                i <= line@.len(),
                forall|j: int| 0 <= j < i ==> line@[j] == self@[j],
            decreases line@.len() - i,
        {
            if line[i] != self.remaining[i] {
                proof {
                    assert(self@.take(line@.len() as int)[i as int] != line@[i as int]);
                }
                return false;
            }
            i = i + 1;
        }
        proof {
            assert(self@.take(line@.len() as int) =~= line@);
        }
        true
    }

    /// Drops the first `n` characters, or all of them where fewer remain.
    pub fn consume_line(&mut self, n: usize)
        requires
            old(self).wf(),
        ensures
            final(self).wf(),
            final(self).initial_length == old(self).initial_length,
            final(self)@ == old(self)@.skip(min(n as int, old(self)@.len() as int)),
    {
        let k: usize = if n < self.remaining.len() { n } else { self.remaining.len() };
        let mut rest: Vec<char> = Vec::with_capacity(self.remaining.len() - k);
        let mut i: usize = k;
        while i < self.remaining.len()
            invariant
                k <= i <= self@.len(),
                rest@ == self@.subrange(k as int, i as int),
            decreases self@.len() - i,
        {
            rest.push(self.remaining[i]);
            i = i + 1;
            proof {
                assert(rest@ =~= self@.subrange(k as int, i as int));
            }
        }
        proof {
            assert(rest@ =~= self@.skip(k as int));
        }
        self.remaining = rest;
    }

    pub fn is_empty(&self) -> (r: bool)
        ensures
            r == (self@.len() == 0),
    {
        self.remaining.len() == 0
    }

    pub fn len(&self) -> (r: usize)
        ensures
            r == self@.len(),
    {
        self.remaining.len()
    }
}

/// The code points of `text`, in order.
pub fn chars_of(text: &str) -> (r: Vec<char>)
    ensures
        r@ == text@,
{
    let n: usize = text.unicode_len();
    let mut r: Vec<char> = Vec::with_capacity(n);
    let mut i: usize = 0;
    while i < n
        invariant
            n == text@.len(),
            i <= n,
            r@ == text@.take(i as int),
        decreases n - i,
    {
        r.push(text.get_char(i));
        i = i + 1;
        proof {
            assert(r@ =~= text@.take(i as int));
        }
    }
    proof {
        assert(r@ =~= text@);
    }
    r
}

/// `line` is the first `line.len()` characters of `text`.
pub open spec fn is_prefix_of(line: Seq<char>, text: Seq<char>) -> bool {
    line.len() <= text.len() && text.take(line.len() as int) == line
}

/// The characters typed on the current line.
pub struct InputBuffer {
    pub chars: Vec<char>,
}

impl View for InputBuffer {
    type V = Seq<char>;

    open spec fn view(&self) -> Seq<char> {
        self.chars@
    }
}

impl InputBuffer {
    pub fn new() -> (r: InputBuffer)
        ensures
            r@ == Seq::<char>::empty(),
    {
        InputBuffer { chars: Vec::new() }
    }

    pub fn append(&mut self, ch: char)
        ensures
            final(self)@ == old(self)@.push(ch),
    {
        self.chars.push(ch);
    }

    /// Removes the last character; an empty buffer stays empty.
    pub fn backspace(&mut self)
        ensures
            old(self)@.len() == 0 ==> final(self)@ == old(self)@,
            old(self)@.len() > 0 ==> final(self)@ == old(self)@.drop_last(),
    {
        if self.chars.len() > 0 {
            self.chars.pop();
        }
    }

    pub fn clear(&mut self)
        ensures
            final(self)@ == Seq::<char>::empty(),
    {
        self.chars.clear();
    }

    pub fn len(&self) -> (r: usize)
        ensures
            r == self@.len(),
    {
        self.chars.len()
    }

    pub fn chars(&self) -> (r: &Vec<char>)
        ensures
            r@ == self@,
    {
        &self.chars
    }
}

} // verus!
