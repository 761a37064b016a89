//! Workspace state: the ordered set of tiled windows on one monitor and
//! the monocle flag.

use vstd::prelude::*;
use crate::layout::Layout;
use crate::rect::Rect;

verus! {

/// A workspace manages a set of tiled windows on a single monitor.
///
/// It maintains the window ordering (which determines layout positions)
/// and the monocle state. Positions are computed by a layout from
/// [`Workspace::handles`].
pub struct Workspace {
    /// Ordered list of managed window handles.
    handles: Vec<usize>,
    /// Whether monocle (single-window fullscreen) mode is active.
    monocle: bool,
    /// The window shown fullscreen in monocle mode.
    monocle_window: Option<usize>,
}

/// The abstract state of a workspace.
pub struct WorkspaceView {
    pub handles: Seq<usize>,
    pub monocle: bool,
    pub monocle_window: Option<usize>,
}

/// No handle occurs twice.
pub open spec fn no_duplicates(s: Seq<usize>) -> bool {
    forall|i: int, j: int| 0 <= i < s.len() && 0 <= j < s.len() && i != j ==> s[i] != s[j]
}

/// `s` with the element at position `i` removed.
pub open spec fn seq_remove(s: Seq<usize>, i: int) -> Seq<usize> {
    s.take(i) + s.skip(i + 1)
}

/// `s` with `v` inserted at position `i`.
pub open spec fn seq_insert(s: Seq<usize>, i: int, v: usize) -> Seq<usize> {
    s.take(i) + seq![v] + s.skip(i)
}

/// `s` with the elements at positions `a` and `b` exchanged.
pub open spec fn seq_swap(s: Seq<usize>, a: int, b: int) -> Seq<usize> {
    s.update(a, s[b]).update(b, s[a])
}

impl View for Workspace {
    type V = WorkspaceView;

    closed spec fn view(&self) -> WorkspaceView {
        WorkspaceView { handles: self.handles@, monocle: self.monocle, monocle_window: self.monocle_window }
    }
}

impl Workspace {
    #[verifier::type_invariant]
    spec fn inv(self) -> bool {
        no_duplicates(self.handles@)
    }

    /// Creates an empty workspace.
    pub fn new() -> (w: Self)
        ensures
            w@.handles == Seq::<usize>::empty(),
            !w@.monocle,
            w@.monocle_window is None,
    {
        Workspace { handles: Vec::new(), monocle: false, monocle_window: None }
    }

    /// Returns whether monocle mode is active on this workspace.
    pub fn monocle(&self) -> (b: bool)
        ensures
            b == self@.monocle,
    {
        self.monocle
    }

    /// Sets the monocle mode flag.
    pub fn set_monocle(&mut self, value: bool)
        ensures
            final(self)@.monocle == value,
            final(self)@.handles == old(self)@.handles,
            final(self)@.monocle_window == old(self)@.monocle_window,
    {
        proof {
            use_type_invariant(&*self);
        }
        self.monocle = value;
    }

    /// Returns the monocle window handle, if any.
    pub fn monocle_window(&self) -> (w: Option<usize>)
        ensures
            w == self@.monocle_window,
    {
        self.monocle_window
    }

    /// Sets the monocle window handle.
    pub fn set_monocle_window(&mut self, value: Option<usize>)
        ensures
            final(self)@.monocle_window == value,
            final(self)@.handles == old(self)@.handles,
            final(self)@.monocle == old(self)@.monocle,
    {
        proof {
            use_type_invariant(&*self);
        }
        self.monocle_window = value;
    }

    fn position_in(handles: &Vec<usize>, hwnd: usize) -> (r: Option<usize>)
        ensures
            r matches Some(i) ==> i < handles@.len() && handles@[i as int] == hwnd && forall|k: int|
                0 <= k < i ==> handles@[k] != hwnd,
            r is None ==> !handles@.contains(hwnd),
    {
        let mut i: usize = 0;
        while i < handles.len()
            invariant
                0 <= i <= handles.len(),
                forall|k: int| 0 <= k < i ==> handles@[k] != hwnd,
            decreases handles.len() - i,
        {
            if handles[i] == hwnd {
                return Some(i);
            }
            i = i + 1;
        }
        None
    }

    /// Adds a window to the end of the workspace.
    ///
    /// Returns `false` if the window is already managed.
    pub fn add(&mut self, hwnd: usize) -> (added: bool)
        ensures
            added == !old(self)@.handles.contains(hwnd),
            added ==> final(self)@.handles == old(self)@.handles.push(hwnd),
            !added ==> final(self)@.handles == old(self)@.handles,
            final(self)@.monocle == old(self)@.monocle,
            final(self)@.monocle_window == old(self)@.monocle_window,
            no_duplicates(final(self)@.handles),
    {
        proof {
            use_type_invariant(&*self);
        }
        if Self::position_in(&self.handles, hwnd).is_some() {
            return false;
        }
        let mut hs: Vec<usize> = Vec::new();
        std::mem::swap(&mut hs, &mut self.handles);
        hs.push(hwnd);
        self.handles = hs;
        true
    }

    /// Inserts a window at a specific position in the workspace.
    ///
    /// The index is clamped to the current length.
    /// Returns `false` if the window is already managed.
    pub fn insert(&mut self, index: usize, hwnd: usize) -> (added: bool)
        ensures
            added == !old(self)@.handles.contains(hwnd),
            added ==> final(self)@.handles == seq_insert(
                old(self)@.handles,
                if index <= old(self)@.handles.len() {
                    index as int
                } else {
                    old(self)@.handles.len() as int
                },
                hwnd,
            ),
            !added ==> final(self)@.handles == old(self)@.handles,
            final(self)@.monocle == old(self)@.monocle,
            final(self)@.monocle_window == old(self)@.monocle_window,
            no_duplicates(final(self)@.handles),
    {
        proof {
            use_type_invariant(&*self);
        }
        if Self::position_in(&self.handles, hwnd).is_some() {
            return false;
        }
        let pos = if index <= self.handles.len() { index } else { self.handles.len() };
        let mut hs: Vec<usize> = Vec::new();
        std::mem::swap(&mut hs, &mut self.handles);
        let ghost before = hs@;
        hs.insert(pos, hwnd);
        assert(hs@ =~= seq_insert(before, pos as int, hwnd));
        assert(no_duplicates(hs@)) by {
            assert forall|i: int, j: int| 0 <= i < hs@.len() && 0 <= j < hs@.len() && i != j implies hs@[i] != hs@[j] by {
                if i != pos && j != pos {
                    let i0 = if i < pos { i } else { i - 1 };
                    let j0 = if j < pos { j } else { j - 1 };
                    assert(hs@[i] == before[i0]);
                    assert(hs@[j] == before[j0]);
                } else if i == pos {
                    let j0 = if j < pos { j } else { j - 1 };
                    assert(hs@[j] == before[j0]);
                } else {
                    let i0 = if i < pos { i } else { i - 1 };
                    assert(hs@[i] == before[i0]);
                }
            }
        }
        self.handles = hs;
        true
    }

    /// Removes a window from the workspace.
    ///
    /// Returns `true` if the window was found and removed.
    pub fn remove(&mut self, hwnd: usize) -> (removed: bool)
        ensures
            removed == old(self)@.handles.contains(hwnd),
            removed ==> exists|i: int|
                0 <= i < old(self)@.handles.len() && old(self)@.handles[i] == hwnd
                    && final(self)@.handles == seq_remove(old(self)@.handles, i),
            !removed ==> final(self)@.handles == old(self)@.handles,
            !final(self)@.handles.contains(hwnd),
            final(self)@.monocle == old(self)@.monocle,
            final(self)@.monocle_window == old(self)@.monocle_window,
            no_duplicates(final(self)@.handles),
    {
        proof {
            use_type_invariant(&*self);
        }
        match Self::position_in(&self.handles, hwnd) {
            Some(pos) => {
                let mut hs: Vec<usize> = Vec::new();
                std::mem::swap(&mut hs, &mut self.handles);
                let ghost before = hs@;
                hs.remove(pos);
                assert(hs@ =~= seq_remove(before, pos as int));
                assert forall|k: int| 0 <= k < hs@.len() implies hs@[k] != hwnd by {
                    if k < pos {
                        assert(hs@[k] == before[k]);
                    } else {
                        assert(hs@[k] == before[k + 1]);
                    }
                }
                assert(no_duplicates(hs@)) by {
                    assert forall|i: int, j: int| 0 <= i < hs@.len() && 0 <= j < hs@.len() && i != j implies hs@[i] != hs@[j] by {
                        let i0 = if i < pos { i } else { i + 1 };
                        let j0 = if j < pos { j } else { j + 1 };
                        assert(hs@[i] == before[i0]);
                        assert(hs@[j] == before[j0]);
                    }
                }
                self.handles = hs;
                true
            },
            None => false,
        }
    }

    /// Returns whether the workspace manages the given window.
    pub fn contains(&self, hwnd: usize) -> (b: bool)
        ensures
            b == self@.handles.contains(hwnd),
    {
        Self::position_in(&self.handles, hwnd).is_some()
    }

    /// Returns the number of managed windows.
    pub fn len(&self) -> (n: usize)
        ensures
            n == self@.handles.len(),
    {
        self.handles.len()
    }

    /// Returns whether the workspace has no managed windows.
    pub fn is_empty(&self) -> (b: bool)
        ensures
            b == (self@.handles.len() == 0),
    {
        self.handles.len() == 0
    }

    /// Returns the ordered list of managed window handles.
    pub fn handles(&self) -> (h: &[usize])
        ensures
            h@ == self@.handles,
            no_duplicates(h@),
    {
        proof {
            use_type_invariant(self);
        }
        self.handles.as_slice()
    }

    /// Computes the layout for all managed windows in the given work area:
    /// what `layout` arranges for the managed handles, in workspace order.
    ///
    /// Returns a list of (handle, rect) pairs, one per managed window.
    pub fn compute_layout(&self, layout: &dyn Layout, work_area: &Rect) -> (r: Vec<(usize, Rect)>)
        requires
            self@.handles.len() <= i32::MAX,
        ensures
            layout.arranges(self@.handles, *work_area, r@),
            r@.len() == self@.handles.len(),
            r@.map_values(|p: (usize, Rect)| p.0).to_multiset() == self@.handles.to_multiset(),
    {
        layout.apply(self.handles.as_slice(), work_area)
    }

    /// Swaps two windows by their position indices.
    ///
    /// Does nothing unless both indices are in range.
    pub fn swap(&mut self, a: usize, b: usize)
        ensures
            a < old(self)@.handles.len() && b < old(self)@.handles.len() ==> final(self)@.handles
                == seq_swap(old(self)@.handles, a as int, b as int),
            !(a < old(self)@.handles.len() && b < old(self)@.handles.len()) ==> final(self)@.handles
                == old(self)@.handles,
            final(self)@.monocle == old(self)@.monocle,
            final(self)@.monocle_window == old(self)@.monocle_window,
            no_duplicates(final(self)@.handles),
    {
        proof {
            use_type_invariant(&*self);
        }
        if a < self.handles.len() && b < self.handles.len() {
            let mut hs: Vec<usize> = Vec::new();
            std::mem::swap(&mut hs, &mut self.handles);
            let ghost before = hs@;
            let va = hs[a];
            let vb = hs[b];
            hs.set(a, vb);
            hs.set(b, va);
            assert(no_duplicates(hs@)) by {
                assert forall|i: int, j: int| 0 <= i < hs@.len() && 0 <= j < hs@.len() && i != j implies hs@[i] != hs@[j] by {
                    let i0 = if i == a { b as int } else if i == b { a as int } else { i };
                    let j0 = if j == a { b as int } else if j == b { a as int } else { j };
                    assert(hs@[i] == before[i0]);
                    assert(hs@[j] == before[j0]);
                }
            }
            self.handles = hs;
        }
    }

    /// Returns the index of the given window handle, if managed.
    pub fn index_of(&self, hwnd: usize) -> (r: Option<usize>)
        ensures
            r matches Some(i) ==> i < self@.handles.len() && self@.handles[i as int] == hwnd,
            r is None <==> !self@.handles.contains(hwnd),
    {
        Self::position_in(&self.handles, hwnd)
    }
}

/// Adding a window that the workspace does not manage and then removing
/// it again gives back the handles as they were.
pub proof fn lemma_add_then_remove(before: Seq<usize>, hwnd: usize, after: Seq<usize>)
    requires
        !before.contains(hwnd),
        exists|i: int|
            0 <= i < before.len() + 1 && #[trigger] before.push(hwnd)[i] == hwnd && after
                == seq_remove(before.push(hwnd), i),
    ensures
        after == before,
{
    let added = before.push(hwnd);
    let i = choose|i: int|
        0 <= i < before.len() + 1 && #[trigger] before.push(hwnd)[i] == hwnd && after
            == seq_remove(before.push(hwnd), i);
    if i < before.len() {
        assert(before[i] == added[i]);
    }
    assert(i == before.len());
    assert(after =~= before);
}

/// Swapping the same two positions twice gives back the order they had.
pub proof fn lemma_swap_twice(s: Seq<usize>, a: int, b: int)
    requires
        0 <= a < s.len(),
        0 <= b < s.len(),
    ensures
        seq_swap(seq_swap(s, a, b), a, b) == s,
{
    assert(seq_swap(seq_swap(s, a, b), a, b) =~= s);
}

/// Inserting a window that the workspace does not manage keeps every
/// other window in its relative order: removing it again gives back the
/// handles as they were.
pub proof fn lemma_insert_then_remove(before: Seq<usize>, pos: int, hwnd: usize, after: Seq<usize>)
    requires
        !before.contains(hwnd),
        0 <= pos <= before.len(),
        exists|i: int|
            0 <= i < before.len() + 1 && #[trigger] seq_insert(before, pos, hwnd)[i] == hwnd
                && after == seq_remove(seq_insert(before, pos, hwnd), i),
    ensures
        after == before,
{
    let ins = seq_insert(before, pos, hwnd);
    let i = choose|i: int|
        0 <= i < before.len() + 1 && #[trigger] seq_insert(before, pos, hwnd)[i] == hwnd
            && after == seq_remove(seq_insert(before, pos, hwnd), i);
    if i < pos {
        assert(ins[i] == before[i]);
    } else if i > pos {
        assert(ins[i] == before[i - 1]);
    }
    assert(i == pos);
    assert(after =~= before);
}

impl Default for Workspace {
    fn default() -> (w: Self)
        ensures
            w@.handles == Seq::<usize>::empty(),
            !w@.monocle,
            w@.monocle_window is None,
    {
        Workspace::new()
    }
}

} // verus!
