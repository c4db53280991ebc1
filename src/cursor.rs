use vstd::prelude::*;
use vstd::arithmetic::div_mod::lemma_small_mod;

verus! {

/// Position of the text cursor in an input field, as mathematical integers.
pub struct CursorView {
    pub initial_x: int,
    pub initial_y: int,
    pub x: int,
    pub y: int,
    pub width: int,
    pub len: nat,
}

/// Whether a buffer of `len` characters ends a line of a field `width` wide.
/// A field at most one column wide has no horizontal room and always wraps.
pub open spec fn wraps(len: nat, width: int) -> bool {
    width <= 1 || len % ((width - 1) as nat) == 0
}

/// The text with its last character removed; empty text stays empty.
pub open spec fn without_last(s: Seq<char>) -> Seq<char> {
    if s.len() == 0 { s } else { s.drop_last() }
}

impl CursorView {
    /// The same position for a buffer of `len` characters.
    pub open spec fn with_len(self, len: nat) -> CursorView {
        CursorView { len, ..self }
    }

    /// The cursor after one character is appended.
    pub open spec fn pushed(self) -> CursorView {
        let len = self.len + 1;
        if !wraps(len, self.width) {
            CursorView { x: self.x + 1, len, ..self }
        } else {
            CursorView { x: self.initial_x, y: self.y + 1, len, ..self }
        }
    }

    /// The cursor after the last character, if any, is removed.
    pub open spec fn popped(self) -> CursorView {
        let len: nat = if self.len == 0 { 0 } else { (self.len - 1) as nat };
        if len == 0 {
            CursorView { x: self.initial_x, len, ..self }
        } else if self.x > self.initial_x {
            CursorView { x: self.x - 1, len, ..self }
        } else if self.y > self.initial_y {
            CursorView {
                x: self.initial_x + if self.width >= 1 { self.width - 1 } else { 0 },
                y: self.y - 1,
                len,
                ..self
            }
        } else {
            CursorView { len, ..self }
        }
    }
}

/// The cursor after `k` characters are appended.
pub open spec fn repeat_push(v: CursorView, k: nat) -> CursorView
    decreases k,
{
    if k == 0 {
        v
    } else {
        repeat_push(v, (k - 1) as nat).pushed()
    }
}

/// The cursor after `k` characters are removed.
pub open spec fn repeat_pop(v: CursorView, k: nat) -> CursorView
    decreases k,
{
    if k == 0 {
        v
    } else {
        repeat_pop(v.popped(), (k - 1) as nat)
    }
}

/// Cursor of a text input field: where the next glyph goes, and the text typed.
pub struct CursorPosition {
    pub initial_x: usize,
    pub initial_y: usize,
    pub x: usize,
    pub y: usize,
    pub width: usize,
    pub input: Vec<char>,
}

impl View for CursorPosition {
    type V = CursorView;

    open spec fn view(&self) -> CursorView {
        CursorView {
            initial_x: self.initial_x as int,
            initial_y: self.initial_y as int,
            x: self.x as int,
            y: self.y as int,
            width: self.width as int,
            len: self.input@.len(),
        }
    }
}

impl CursorPosition {
    /// The cursor never leaves the field's top-left corner behind, and the
    /// field's last column is a machine integer.
    pub open spec fn wf(&self) -> bool {
        &&& self.initial_x <= self.x
        &&& self.initial_y <= self.y
        &&& self.initial_x + self.width <= usize::MAX
    }

    pub fn new(x: usize, y: usize, width: usize, input: Vec<char>) -> (r: Self)
        requires
            x + width <= usize::MAX,
        ensures
            r.initial_x == x,
            r.initial_y == y,
            r.x == x,
            r.y == y,
            r.width == width,
            r.input@ == input@,
            r.wf(),
    {
        CursorPosition { initial_x: x, initial_y: y, x, y, width, input }
    }

    /// Whether a buffer of `len` characters ends a line.
    fn at_wrap(&self, len: usize) -> (r: bool)
        ensures
            r == wraps(len as nat, self.width as int),
    {
        self.width <= 1 || len % (self.width - 1) == 0
    }

    fn inc(&mut self)
        requires
            old(self).wf(),
            old(self).x < usize::MAX,
            old(self).y < usize::MAX,
            old(self).input@.len() > 0,
        ensures
            final(self)@ == old(self)@.with_len((old(self)@.len - 1) as nat).pushed(),
            final(self).input@ == old(self).input@,
            final(self).wf(),
    {
        if !self.at_wrap(self.input.len()) {
            self.x = self.x + 1;
        } else {
            self.x = self.initial_x;
            self.y = self.y + 1;
        }
    }

    fn dec(&mut self)
        requires
            old(self).wf(),
        ensures
            final(self)@ == old(self)@.with_len(old(self)@.len + 1).popped(),
            final(self).input@ == old(self).input@,
            final(self).wf(),
    {
        if self.input.len() == 0 {
            self.x = self.initial_x;
        } else if self.x > self.initial_x {
            self.x = self.x - 1;
        } else if self.y > self.initial_y {
            self.y = self.y - 1;
            self.x = if self.width >= 1 { self.initial_x + (self.width - 1) } else { self.initial_x };
        }
    }

    /// Appends a character and advances the cursor, wrapping to the next line
    /// at the end of the field.
    pub fn push_inc(&mut self, c: char)
        requires
            old(self).wf(),
            old(self).x < usize::MAX,
            old(self).y < usize::MAX,
            old(self).input@.len() < usize::MAX,
        ensures
            final(self)@ == old(self)@.pushed(),
            final(self).input@ == old(self).input@.push(c),
            final(self).wf(),
    {
        self.input.push(c);
        self.inc();
    }

    /// Removes the last character, if any, and moves the cursor back.
    pub fn pop_dec(&mut self)
        requires
            old(self).wf(),
        ensures
            final(self)@ == old(self)@.popped(),
            final(self).input@ == without_last(old(self).input@),
            final(self).wf(),
    {
        let len0: usize = self.input.len();
        let _ = self.input.pop();
        if len0 == 0 {
            self.x = self.initial_x;
        } else {
            self.dec();
        }
    }
}

proof fn lemma_pushes_on_first_line(v: CursorView, k: nat)
    requires
        v.x == v.initial_x,
        v.y == v.initial_y,
        v.len == 0,
        v.width >= 3,
        k < v.width - 1,
    ensures
        repeat_push(v, k) == (CursorView { x: v.initial_x + k, len: k, ..v }),
    decreases k,
{
    if k > 0 {
        lemma_pushes_on_first_line(v, (k - 1) as nat);
        lemma_small_mod(k, (v.width - 1) as nat);
    }
}

proof fn lemma_pops_back_to_anchor(v: CursorView, k: nat)
    requires
        k >= 1,
        v.len == k,
        v.x == v.initial_x + k + 1,
        v.y == v.initial_y,
    ensures
        repeat_pop(v, k).x == v.initial_x,
        repeat_pop(v, k).y == v.initial_y,
    decreases k,
{
    reveal_with_fuel(repeat_pop, 2);
    if k > 1 {
        assert(v.popped().x == v.initial_x + k);
        lemma_pops_back_to_anchor(v.popped(), (k - 1) as nat);
    }
}

/// On a field at least three columns wide, typing as many characters as the
/// field is wide and then deleting as many brings the cursor back to the
/// field's top-left corner.
pub proof fn lemma_fill_then_clear(v: CursorView)
    requires
        v.x == v.initial_x,
        v.y == v.initial_y,
        v.len == 0,
        v.width >= 3,
    ensures
        repeat_pop(repeat_push(v, v.width as nat), v.width as nat).x == v.initial_x,
        repeat_pop(repeat_push(v, v.width as nat), v.width as nat).y == v.initial_y,
{
    let m = (v.width - 1) as nat;
    lemma_pushes_on_first_line(v, (m - 1) as nat);
    assert(m % m == 0) by {
        vstd::arithmetic::div_mod::lemma_mod_self_0(m as int);
    }
    assert((m + 1) % m == 1) by {
        vstd::arithmetic::div_mod::lemma_mod_add_multiples_vanish(1, m as int);
        lemma_small_mod(1, m);
    }
    reveal_with_fuel(repeat_push, 3);
    reveal_with_fuel(repeat_pop, 3);
    assert(repeat_push(v, m) == CursorView { x: v.initial_x, y: v.initial_y + 1, len: m, ..v });
    let full = repeat_push(v, v.width as nat);
    assert(full == CursorView { x: v.initial_x + 1, y: v.initial_y + 1, len: m + 1, ..v });
    let once = full.popped();
    assert(once == CursorView { x: v.initial_x, y: v.initial_y + 1, len: m, ..v });
    let twice = once.popped();
    assert(twice == CursorView { x: v.initial_x + m, y: v.initial_y, len: (m - 1) as nat, ..v });
    lemma_pops_back_to_anchor(twice, (m - 1) as nat);
    assert(repeat_pop(full, v.width as nat) == repeat_pop(twice, (m - 1) as nat));
}

} // verus!
