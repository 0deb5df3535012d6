//! The scroll offset of the body pane and the bound that keeps it in range.

use vstd::prelude::*;

verus! {

/// The largest scroll offset for `lines` wrapped lines shown in a pane of
/// `height` rows: every full page but the last, plus the trailing partial
/// page once there is at least one full page.
pub open spec fn max_offset(lines: nat, height: nat) -> nat
    recommends
        height >= 1,
{
    let pages = lines / height;
    let remainder = lines % height;
    let full = if pages >= 1 {
        (pages - 1) as nat
    } else {
        0
    };
    height * full + if pages > 0 {
        remainder
    } else {
        0
    }
}

/// The bound in closed form: the content that does not fit in one pane.
pub proof fn lemma_max_offset_closed_form(lines: nat, height: nat)
    requires
        height >= 1,
    ensures
        max_offset(lines, height) == if lines >= height {
            (lines - height) as nat
        } else {
            0
        },
        max_offset(lines, height) <= lines,
{
    let pages = lines / height;
    let remainder = lines % height;
    assert(lines == height * pages + remainder && 0 <= remainder < height) by (nonlinear_arith)
        requires
            height >= 1,
            pages == lines / height,
            remainder == lines % height,
    ;
    if pages >= 1 {
        assert(height * ((pages - 1) as nat) == height * pages - height) by (nonlinear_arith)
            requires
                pages >= 1,
        ;
        assert(height * pages >= height) by (nonlinear_arith)
            requires
                pages >= 1,
        ;
    } else {
        assert(height * 0 == 0);
    }
}

/// The mathematical state of a [`Scroll`].
pub struct ScrollView {
    /// The first visible line.
    pub offset: nat,
    /// The largest offset the pane may take.
    pub max: nat,
}

impl ScrollView {
    /// The offset never passes the bound.
    pub open spec fn wf(self) -> bool {
        self.offset <= self.max
    }

    /// One line up, stopping at the top.
    pub open spec fn scroll_up(self) -> ScrollView {
        if self.offset > 0 {
            ScrollView { offset: (self.offset - 1) as nat, max: self.max }
        } else {
            self
        }
    }

    /// One line down, stopping at the bound.
    pub open spec fn scroll_down(self) -> ScrollView {
        if self.offset < self.max {
            ScrollView { offset: self.offset + 1, max: self.max }
        } else {
            self
        }
    }

    /// `n` presses of the up key.
    pub open spec fn scroll_up_by(self, n: nat) -> ScrollView
        decreases n,
    {
        if n == 0 {
            self
        } else {
            self.scroll_up().scroll_up_by((n - 1) as nat)
        }
    }

    /// `n` presses of the down key.
    pub open spec fn scroll_down_by(self, n: nat) -> ScrollView
        decreases n,
    {
        if n == 0 {
            self
        } else {
            self.scroll_down().scroll_down_by((n - 1) as nat)
        }
    }

    /// A new bound for new content or a new pane, with the offset pulled
    /// back under it.
    pub open spec fn recompute_bounds(self, lines: nat, height: nat) -> ScrollView {
        let max = max_offset(lines, height);
        ScrollView {
            offset: if self.offset <= max {
                self.offset
            } else {
                max
            },
            max,
        }
    }

    /// Back to the top, under the same bound.
    pub open spec fn reset(self) -> ScrollView {
        ScrollView { offset: 0, max: self.max }
    }
}

/// Scrolling down `n` times moves the offset `n` lines towards the bound and
/// never past it: it lands on the bound exactly once `n` covers the distance.
pub proof fn lemma_scroll_down_converges(s: ScrollView, n: nat)
    requires
        s.wf(),
    ensures
        s.scroll_down_by(n).max == s.max,
        s.scroll_down_by(n).offset == if s.offset + n <= s.max {
            s.offset + n
        } else {
            s.max
        },
        s.scroll_down_by(n).wf(),
        n >= s.max - s.offset ==> s.scroll_down_by(n).offset == s.max,
    decreases n,
{
    if n > 0 {
        lemma_scroll_down_converges(s.scroll_down(), (n - 1) as nat);
    }
}

/// Scrolling up `n` times moves the offset `n` lines towards the top and
/// never past it, whatever the state: it lands on 0 exactly once `n` covers
/// the offset.
pub proof fn lemma_scroll_up_converges(s: ScrollView, n: nat)
    ensures
        s.scroll_up_by(n).max == s.max,
        s.scroll_up_by(n).offset == if s.offset >= n {
            (s.offset - n) as nat
        } else {
            0
        },
        n >= s.offset ==> s.scroll_up_by(n).offset == 0,
        s.wf() ==> s.scroll_up_by(n).wf(),
    decreases n,
{
    if n > 0 {
        lemma_scroll_up_converges(s.scroll_up(), (n - 1) as nat);
    }
}

/// Recomputing the bound leaves a state whose offset is within it.
pub proof fn lemma_recompute_bounds_wf(s: ScrollView, lines: nat, height: nat)
    requires
        height >= 1,
    ensures
        s.recompute_bounds(lines, height).wf(),
        s.recompute_bounds(lines, height).max == max_offset(lines, height),
        s.offset <= max_offset(lines, height) ==> s.recompute_bounds(lines, height).offset
            == s.offset,
{
}

/// The scroll position of the body pane.
pub struct Scroll {
    value: usize,
    max: usize,
}

impl View for Scroll {
    type V = ScrollView;

    closed spec fn view(&self) -> ScrollView {
        ScrollView { offset: self.value as nat, max: self.max as nat }
    }
}

impl Scroll {
    #[verifier::type_invariant]
    spec fn inv(self) -> bool {
        self.value <= self.max
    }

    /// A pane at the top of empty content.
    pub fn new() -> (s: Scroll)
        ensures
            s@ == (ScrollView { offset: 0, max: 0 }),
            s@.wf(),
    {
        Scroll { value: 0, max: 0 }
    }

    /// The first visible line.
    pub fn value(&self) -> (v: usize)
        ensures
            v == self@.offset,
            v <= self@.max,
    {
        proof {
            use_type_invariant(self);
        }
        self.value
    }

    /// The largest offset the pane may take.
    pub fn max(&self) -> (m: usize)
        ensures
            m == self@.max,
    {
        self.max
    }

    /// Moves one line up; at the top nothing changes.
    pub fn scroll_up(&mut self)
        ensures
            final(self)@ == old(self)@.scroll_up(),
            final(self)@.wf(),
    {
        proof {
            use_type_invariant(&*self);
        }
        if self.value > 0 {
            self.value = self.value - 1;
        }
    }

    /// Moves one line down; at the bound nothing changes.
    pub fn scroll_down(&mut self)
        ensures
            final(self)@ == old(self)@.scroll_down(),
            final(self)@.wf(),
    {
        proof {
            use_type_invariant(&*self);
        }
        if self.value < self.max {
            self.value = self.value + 1;
        }
    }

    /// Returns to the top.
    pub fn reset(&mut self)
        ensures
            final(self)@ == old(self)@.reset(),
            final(self)@.wf(),
    {
        self.value = 0;
    }

    /// Takes the bound for `lines` wrapped lines in a pane of `height`
    /// rows and pulls the offset back under it.
    pub fn recompute_bounds(&mut self, lines: usize, height: usize)
        requires
            height >= 1,
        ensures
            final(self)@ == old(self)@.recompute_bounds(lines as nat, height as nat),
            final(self)@.wf(),
    {
        let pages: usize = lines / height;
        let remainder: usize = lines % height;
        proof {
            lemma_max_offset_closed_form(lines as nat, height as nat);
        }
        let full: usize = if pages >= 1 {
            pages - 1
        } else {
            0
        };
        assert(height * full <= lines) by (nonlinear_arith)
            requires
                full == if pages >= 1 {
                    pages - 1
                } else {
                    0
                },
                pages == lines as int / height as int,
                height >= 1,
        ;
        let max: usize = height * full + if pages > 0 {
            remainder
        } else {
            0
        };
        let value: usize = if self.value <= max {
            self.value
        } else {
            max
        };
        *self = Scroll { value, max };
    }
}

impl Default for Scroll {
    fn default() -> (s: Scroll)
        ensures
            s@ == (ScrollView { offset: 0, max: 0 }),
    {
        Scroll::new()
    }
}

} // verus!
