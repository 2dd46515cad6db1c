use vstd::prelude::*;
use crate::text::strings_view;

verus! {

/// The abstract value of a [`History`]: a cursor into a list of visited paths.
pub struct HistoryView {
    pub loc: int,
    pub paths: Seq<Seq<char>>,
}

/// The paths visited so far, with a cursor (`loc`) on the current one.
pub struct History {
    pub loc: usize,
    pub paths: Vec<String>,
}

impl View for History {
    type V = HistoryView;

    open spec fn view(&self) -> HistoryView {
        HistoryView { loc: self.loc as int, paths: strings_view(self.paths@) }
    }
}

/// The path under the cursor, if the cursor points into the list.
pub open spec fn spec_peek(h: HistoryView) -> Option<Seq<char>> {
    if 0 <= h.loc < h.paths.len() {
        Some(h.paths[h.loc])
    } else {
        None
    }
}

/// Visiting `path`: unless it is already under the cursor, everything after
/// the cursor is forgotten, `path` is appended, and the cursor moves onto it.
pub open spec fn spec_push(h: HistoryView, path: Seq<char>) -> HistoryView {
    if spec_peek(h) == Some(path) {
        h
    } else {
        let kept = if h.loc + 1 <= h.paths.len() { h.paths.take(h.loc + 1) } else { h.paths };
        HistoryView { loc: kept.len() as int, paths: kept.push(path) }
    }
}

/// Stepping back: the cursor moves one place towards the start, stopping at 0.
pub open spec fn spec_visit_last(h: HistoryView) -> HistoryView {
    HistoryView { loc: if h.loc >= 1 { h.loc - 1 } else { 0 }, paths: h.paths }
}

/// Stepping forward: the cursor moves one place towards the end, stopping at
/// the last entry (or at 0 when the list is empty).
pub open spec fn spec_visit_next(h: HistoryView) -> HistoryView {
    let last = if h.paths.len() >= 1 { h.paths.len() - 1 } else { 0 };
    HistoryView { loc: if h.loc + 1 <= last { h.loc + 1 } else { last }, paths: h.paths }
}

/// The cursor points at an entry, or the history is empty and the cursor is 0.
pub open spec fn history_wf(h: HistoryView) -> bool {
    if h.paths.len() == 0 {
        h.loc == 0
    } else {
        0 <= h.loc < h.paths.len()
    }
}

impl History {
    /// An empty history.
    pub fn new() -> (r: Self)
        ensures
            r@ == (HistoryView { loc: 0, paths: Seq::empty() }),
    {
        let r = History { loc: 0, paths: Vec::new() };
        assert(r@.paths =~= Seq::<Seq<char>>::empty());
        r
    }

    /// A copy of the history.
    pub fn copy(&self) -> (r: Self)
        ensures
            r@ == self@,
    {
        History { loc: self.loc, paths: crate::text::copy_strings(&self.paths) }
    }

    /// The path under the cursor.
    pub fn peek(&self) -> (r: Option<&String>)
        ensures
            match r {
                Some(p) => self.loc < self.paths.len() && *p == self.paths@[self.loc as int],
                None => self.loc >= self.paths.len(),
            },
            match r {
                Some(p) => spec_peek(self@) == Some(p@),
                None => spec_peek(self@) is None,
            },
    {
        if self.loc < self.paths.len() {
            Some(&self.paths[self.loc])
        } else {
            None
        }
    }

    /// Records a visit of `path` (see [`spec_push`]).
    pub fn push(self, path: String) -> (r: Self)
        ensures
            r@ == spec_push(self@, path@),
    {
        let ghost h = self@;
        let mut this = self;
        let same = match this.peek() {
            Some(p) => *p == path,
            None => false,
        };
        if !same {
            if this.loc < this.paths.len() {
                this.paths.truncate(this.loc + 1);
            }
            this.paths.push(path);
            this.loc = this.paths.len() - 1;
        }
        proof {
            if spec_peek(h) != Some(path@) {
                let kept = if h.loc + 1 <= h.paths.len() { h.paths.take(h.loc + 1) } else { h.paths };
                assert(strings_view(this.paths@) =~= kept.push(path@));
            }
        }
        this
    }

    /// Moves the cursor one entry back (see [`spec_visit_last`]).
    pub fn visit_last(self) -> (r: Self)
        ensures
            r@ == spec_visit_last(self@),
    {
        let mut this = self;
        this.loc = if this.loc >= 1 { this.loc - 1 } else { 0 };
        this
    }

    /// Moves the cursor one entry forward (see [`spec_visit_next`]).
    pub fn visit_next(self) -> (r: Self)
        requires
            self.loc < usize::MAX,
        ensures
            r@ == spec_visit_next(self@),
    {
        let mut this = self;
        let last = if this.paths.len() >= 1 { this.paths.len() - 1 } else { 0 };
        let next = this.loc + 1;
        this.loc = if next <= last { next } else { last };
        this
    }
}

/// After a path is visited, it is the one under the cursor.
pub proof fn law_push_then_peek(h: HistoryView, path: Seq<char>)
    ensures
        spec_peek(spec_push(h, path)) == Some(path),
{
}

/// Stepping back and then forward after a visit returns to the visited path,
/// except when the path was already under the cursor at the first of several entries.
pub proof fn law_push_back_forward(h: HistoryView, path: Seq<char>)
    requires
        history_wf(h),
        !(spec_peek(h) == Some(path) && h.loc == 0 && h.paths.len() >= 2),
    ensures
        spec_peek(spec_visit_next(spec_visit_last(spec_push(h, path)))) == Some(path),
{
}

/// Visiting and stepping keep the cursor on an entry (or at 0 on an empty history).
pub proof fn law_wf_preserved(h: HistoryView, path: Seq<char>)
    requires
        history_wf(h),
    ensures
        history_wf(spec_push(h, path)),
        history_wf(spec_visit_last(h)),
        history_wf(spec_visit_next(h)),
{
}

/// A visit keeps every entry up to and including the cursor.
pub proof fn law_push_keeps_past(h: HistoryView, path: Seq<char>)
    requires
        history_wf(h),
    ensures
        forall|i: int|
            0 <= i <= h.loc && i < h.paths.len() ==> spec_push(h, path).paths[i] == h.paths[i],
{
}

/// Stepping forward undoes stepping back, away from the start.
pub proof fn law_back_then_forward(h: HistoryView)
    requires
        history_wf(h),
        h.loc >= 1,
    ensures
        spec_visit_next(spec_visit_last(h)) == h,
{
}

/// Stepping back undoes stepping forward, away from the end.
pub proof fn law_forward_then_back(h: HistoryView)
    requires
        history_wf(h),
        h.loc + 1 < h.paths.len(),
    ensures
        spec_visit_last(spec_visit_next(h)) == h,
{
}

} // verus!
