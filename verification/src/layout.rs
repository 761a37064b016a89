//! Tiling layout algorithms.
//!
//! Each algorithm computes a rectangle for every window handle in a work
//! area. The only step that is not integer arithmetic, scaling a length
//! by the configured ratio, is done by a function the caller passes in
//! (`scale`); the contracts hold for whatever that function returns, as
//! long as it maps a length `w` to a share in `0..=w`.
//!
//! Positions are computed in wider integers and stored as `i32`; where a
//! coordinate does not fit, it wraps as `i32` arithmetic does. The shape
//! laws are stated for inputs on which nothing wraps.

use vstd::prelude::*;
use crate::rect::{abs_int, div_trunc, max_int, Rect};

verus! {

/// A layout algorithm that computes window positions within a work area.
///
/// Given a list of window handles and the available space, a layout
/// produces a position and size for each window: every window gets
/// exactly one position, though not necessarily in the order given
/// (the three-column layout alternates windows between its stacks).
pub trait Layout {
    /// `tiles` is what this layout gives for `handles` in `work_area`.
    spec fn arranges(&self, handles: Seq<usize>, work_area: Rect, tiles: Seq<(usize, Rect)>) -> bool;

    /// Computes positions for all windows in the given work area.
    ///
    /// Returns one (handle, rect) pair per input handle; the handles of
    /// the result are those of the input, each as often as given. The
    /// number of windows must fit in an `i32`, as the stacks count in one.
    fn apply(&self, handles: &[usize], work_area: &Rect) -> (r: Vec<(usize, Rect)>)
        requires
            handles@.len() <= i32::MAX,
        ensures
            self.arranges(handles@, *work_area, r@),
            r@.len() == handles@.len(),
            r@.map_values(|p: (usize, Rect)| p.0).to_multiset() == handles@.to_multiset(),
    ;
}

/// Available tiling layout algorithms.
#[derive(Debug, Clone, Copy, PartialEq, Eq, Structural)]
pub enum LayoutKind {
    /// Binary Space Partitioning — recursive subdivision.
    Bsp,
    /// Master pane on the left, vertical stack on the right.
    VerticalStack,
    /// Master pane in the center, stacks on both sides.
    ThreeColumn,
}

impl LayoutKind {
    /// The layout that follows `self` in the cycle.
    pub open spec fn spec_next(self) -> LayoutKind {
        match self {
            LayoutKind::Bsp => LayoutKind::VerticalStack,
            LayoutKind::VerticalStack => LayoutKind::ThreeColumn,
            LayoutKind::ThreeColumn => LayoutKind::Bsp,
        }
    }

    pub open spec fn spec_name(self) -> Seq<char> {
        match self {
            LayoutKind::Bsp => "BSP"@,
            LayoutKind::VerticalStack => "VStack"@,
            LayoutKind::ThreeColumn => "3Col"@,
        }
    }

    /// Returns the next layout in the cycle.
    pub fn next(self) -> (k: Self)
        ensures
            k == self.spec_next(),
    {
        match self {
            LayoutKind::Bsp => LayoutKind::VerticalStack,
            LayoutKind::VerticalStack => LayoutKind::ThreeColumn,
            LayoutKind::ThreeColumn => LayoutKind::Bsp,
        }
    }

    /// Short display name for the status bar.
    pub fn name(self) -> (s: &'static str)
        ensures
            s@ == self.spec_name(),
    {
        match self {
            LayoutKind::Bsp => "BSP",
            LayoutKind::VerticalStack => "VStack",
            LayoutKind::ThreeColumn => "3Col",
        }
    }
}

impl Default for LayoutKind {
    fn default() -> (k: Self)
        ensures
            k == LayoutKind::Bsp,
    {
        LayoutKind::Bsp
    }
}

/// Cycling through the layouts returns to the start after three steps.
pub proof fn lemma_layout_cycle(k: LayoutKind)
    ensures
        k.spec_next().spec_next().spec_next() == k,
        k.spec_next() != k,
{
}

/// Largest magnitude of work-area coordinates, sizes and total gaps for
/// which the shape laws below are stated: no coordinate a layout
/// computes then leaves `i32`.
pub open spec fn layout_limit() -> int {
    0x1000_0000
}

/// Inputs on which every coordinate a layout computes fits in `i32`.
pub open spec fn layout_inputs_ok(n: nat, work_area: Rect, gap: i32) -> bool {
    &&& -layout_limit() <= work_area.x <= layout_limit()
    &&& -layout_limit() <= work_area.y <= layout_limit()
    &&& -layout_limit() <= work_area.width <= layout_limit()
    &&& -layout_limit() <= work_area.height <= layout_limit()
    &&& -layout_limit() <= gap <= layout_limit()
    &&& n * (abs_int(div_trunc(gap as int, 2)) + 1) <= layout_limit()
}

/// The scaling function can be called on any length and maps a length
/// `w` to a share in `0..=w` (zero when `w` is not positive).
pub open spec fn scale_ok<F: Fn(i32) -> i32>(scale: F) -> bool {
    &&& forall|w: i32| call_requires(scale, (w,))
    &&& forall|w: i32, s: i32| call_ensures(scale, (w,), s) ==> 0 <= s <= max_int(w as int, 0)
}

/// The work area shrunk by `gap` on every side, at least one pixel wide and high.
pub open spec fn padded_area(work_area: Rect, gap: i32) -> Rect {
    Rect {
        x: (work_area.x + gap) as i32,
        y: (work_area.y + gap) as i32,
        width: max_int(work_area.width - 2 * gap, 1) as i32,
        height: max_int(work_area.height - 2 * gap, 1) as i32,
    }
}

/// The work area shrunk by `gap` on every side, at least one pixel wide and high.
pub fn pad_work_area(work_area: &Rect, gap: i32) -> (p: Rect)
    ensures
        p == padded_area(*work_area, gap),
{
    let w: i64 = work_area.width as i64 - 2 * (gap as i64);
    let h: i64 = work_area.height as i64 - 2 * (gap as i64);
    let x: i64 = work_area.x as i64 + gap as i64;
    let y: i64 = work_area.y as i64 + gap as i64;
    let w1: i64 = if w >= 1 { w } else { 1 };
    let h1: i64 = if h >= 1 { h } else { 1 };
    Rect::new(
        #[verifier::truncate] (x as i32),
        #[verifier::truncate] (y as i32),
        #[verifier::truncate] (w1 as i32),
        #[verifier::truncate] (h1 as i32),
    )
}

/// Height of every slot but the last in a stack of `count` windows.
pub open spec fn slot_height(area: Rect, half: int, count: int) -> int {
    div_trunc(area.height - half * (count - 1), count)
}

/// Window `i` of a vertical stack of `count` windows filling `area`, with
/// `half` pixels between windows; the last one takes the remaining space.
pub open spec fn stack_tile(area: Rect, half: int, count: int, i: int) -> Rect {
    let slot = slot_height(area, half, count);
    let y = area.y + i * (slot + half);
    Rect {
        x: area.x,
        y: y as i32,
        width: area.width,
        height: (if i == count - 1 {
            max_int(area.y + area.height - y, 1)
        } else {
            max_int(slot, 1)
        }) as i32,
    }
}

/// The windows of `hs` stacked vertically in `area`.
pub open spec fn stack_tiles(hs: Seq<usize>, area: Rect, half: int) -> Seq<(usize, Rect)> {
    Seq::new(hs.len(), |i: int| (hs[i], stack_tile(area, half, hs.len() as int, i)))
}

/// The offset of slot `i` in a stack stays within the height of the
/// area plus all the gaps, whatever the sign of the gap.
proof fn lemma_stack_offset(h: int, half: int, count: int, i: int)
    requires
        h >= 1,
        count >= 1,
        0 <= i < count,
    ensures
        ({
            let slot = div_trunc(h - half * (count - 1), count);
            &&& -abs_int(half) <= slot <= h + abs_int(half)
            &&& -(abs_int(half) * count) <= i * (slot + half) <= h + abs_int(half) * count
        }),
{
    let numer = h - half * (count - 1);
    let slot = div_trunc(numer, count);
    if half >= 0 {
        if numer >= 0 {
            assert(slot == numer / count);
            assert(0 <= slot <= numer) by (nonlinear_arith)
                requires slot == numer / count, numer >= 0, count >= 1;
            assert(count * slot <= numer) by (nonlinear_arith)
                requires slot == numer / count, numer >= 0, count >= 1;
            assert(i * (slot + half) <= (count - 1) * (slot + half)) by (nonlinear_arith)
                requires 0 <= i < count, slot + half >= 0;
            assert((count - 1) * (slot + half) == count * slot - slot + half * (count - 1)) by (nonlinear_arith);
            assert(0 <= i * (slot + half)) by (nonlinear_arith)
                requires 0 <= i, slot + half >= 0;
            assert(half * (count - 1) <= half * count) by (nonlinear_arith)
                requires half >= 0, count >= 1;
            assert(numer <= h) by (nonlinear_arith)
                requires numer == h - half * (count - 1), half >= 0, count >= 1;
            assert(0 <= half * count) by (nonlinear_arith)
                requires half >= 0, count >= 1;
        } else {
            let m = -numer;
            assert(slot == -(m / count));
            assert(m < half * (count - 1) + 1);
            assert(m / count <= half) by (nonlinear_arith)
                requires m >= 1, m <= half * (count - 1), count >= 1, half >= 0;
            assert(m / count >= 0) by (nonlinear_arith)
                requires m >= 1, count >= 1;
            assert(0 <= i * (slot + half) <= (count - 1) * half) by (nonlinear_arith)
                requires 0 <= i < count, 0 <= slot + half <= half;
            assert((count - 1) * half <= half * count) by (nonlinear_arith)
                requires half >= 0, count >= 1;
            assert(0 <= half * count) by (nonlinear_arith)
                requires half >= 0, count >= 1;
        }
        assert(abs_int(half) == half);
    } else {
        let g = -half;
        assert(numer == h + g * (count - 1)) by (nonlinear_arith)
            requires numer == h - half * (count - 1), g == -half;
        assert(g * (count - 1) >= 0) by (nonlinear_arith)
            requires g >= 0, count >= 1;
        assert(slot == numer / count);
        assert(0 <= slot) by (nonlinear_arith)
            requires slot == numer / count, numer >= 0, count >= 1;
        assert(count * slot <= numer) by (nonlinear_arith)
            requires slot == numer / count, numer >= 0, count >= 1;
        assert(numer <= count * h + count * g) by (nonlinear_arith)
            requires numer == h + g * (count - 1), h >= 1, g >= 0, count >= 1;
        assert(slot <= h + g) by (nonlinear_arith)
            requires count * slot <= count * h + count * g, count >= 1;
        if slot >= g {
            assert(0 <= i * (slot - g) <= (count - 1) * (slot - g)) by (nonlinear_arith)
                requires 0 <= i < count, slot - g >= 0;
            assert((count - 1) * (slot - g) == count * slot - slot - g * (count - 1)) by (nonlinear_arith);
        } else {
            assert((count - 1) * (slot - g) <= i * (slot - g) <= 0) by (nonlinear_arith)
                requires 0 <= i < count, slot - g < 0;
            assert((count - 1) * (slot - g) >= -(g * count)) by (nonlinear_arith)
                requires count >= 1, 0 <= slot, g >= 0;
        }
        assert(abs_int(half) == g);
        assert(0 <= g * count) by (nonlinear_arith)
            requires g >= 0, count >= 1;
        assert(i * (slot + half) == i * (slot - g));
    }
}

/// Stacks `handles` vertically in `area`, appending to `results`.
fn fill_stack(handles: &Vec<usize>, area: &Rect, half: i32, results: &mut Vec<(usize, Rect)>)
    requires
        handles@.len() <= i32::MAX,
    ensures
        final(results)@ == old(results)@ + stack_tiles(handles@, *area, half as int),
{
    let ghost start = results@;
    if handles.len() == 0 {
        assert(stack_tiles(handles@, *area, half as int) =~= Seq::<(usize, Rect)>::empty());
        assert(results@ =~= start + stack_tiles(handles@, *area, half as int));
        return;
    }
    let count: i128 = handles.len() as i128;
    assert(count == handles@.len());
    assert(-0x4000_0000_0000_0000 <= (half as i128) * (count - 1) <= 0x4000_0000_0000_0000) by (nonlinear_arith)
        requires -0x8000_0000 <= half < 0x8000_0000, 1 <= count <= 0x7fff_ffff;
    let numer: i128 = area.height as i128 - (half as i128) * (count - 1);
    let slot: i128 = numer / count;
    assert(slot == slot_height(*area, half as int, count as int));
    assert(-0x4000_0001_0000_0000 <= slot <= 0x4000_0001_0000_0000) by (nonlinear_arith)
        requires
            -0x4000_0001_0000_0000 <= numer <= 0x4000_0001_0000_0000,
            count >= 1,
            slot as int == div_trunc(numer as int, count as int);
    let step: i128 = slot + half as i128;
    let mut i: usize = 0;
    while i < handles.len()
        invariant
            0 <= i <= handles.len(),
            count == handles@.len(),
            count <= 0x7fff_ffff,
            slot == slot_height(*area, half as int, count as int),
            step == slot + half,
            -0x4000_0002_0000_0000 <= step <= 0x4000_0002_0000_0000,
            results@ == start + stack_tiles(handles@, *area, half as int).take(i as int),
        decreases handles.len() - i,
    {
        let ii: i128 = i as i128;
        assert(-0x4000_0002_0000_0000_0000_0000 <= ii * step <= 0x4000_0002_0000_0000_0000_0000) by (nonlinear_arith)
            requires 0 <= ii <= 0x7fff_ffff, -0x4000_0002_0000_0000 <= step <= 0x4000_0002_0000_0000;
        let sy: i128 = area.y as i128 + ii * step;
        let sh: i128 = if ii == count - 1 {
            let rest: i128 = area.y as i128 + area.height as i128 - sy;
            if rest >= 1 { rest } else { 1 }
        } else {
            if slot >= 1 { slot } else { 1 }
        };
        let tile = Rect::new(area.x, #[verifier::truncate] (sy as i32), area.width, #[verifier::truncate] (sh as i32));
        assert(tile == stack_tile(*area, half as int, count as int, i as int));
        results.push((handles[i], tile));
        proof {
            assert(stack_tiles(handles@, *area, half as int).take(i + 1) =~= stack_tiles(
                handles@,
                *area,
                half as int,
            ).take(i as int).push((handles@[i as int], tile)));
        }
        i = i + 1;
    }
    assert(stack_tiles(handles@, *area, half as int).take(i as int) =~= stack_tiles(handles@, *area, half as int));
}

/// The master pane of a two-pane split: `share` pixels on the left,
/// minus half the gap.
pub open spec fn master_pane(p: Rect, half: int, share: int) -> Rect {
    Rect { x: p.x, y: p.y, width: max_int(share - half, 1) as i32, height: p.height }
}

/// What remains right of the master pane of a two-pane split.
pub open spec fn side_pane(p: Rect, half: int, share: int) -> Rect {
    Rect {
        x: (p.x + share + half) as i32,
        y: p.y,
        width: max_int(p.width - share - half, 1) as i32,
        height: p.height,
    }
}

/// The vertical-stack arrangement of `handles` in the padded area `p`,
/// where the master pane gets `share` pixels of the width.
pub open spec fn vstack_tiles(handles: Seq<usize>, p: Rect, gap: i32, share: int) -> Seq<(usize, Rect)> {
    let half = div_trunc(gap as int, 2);
    if handles.len() == 1 {
        seq![(handles[0], p)]
    } else {
        seq![(handles[0], master_pane(p, half, share))] + stack_tiles(
            handles.skip(1),
            side_pane(p, half, share),
            half,
        )
    }
}

fn copy_from(handles: &[usize], from: usize) -> (v: Vec<usize>)
    requires
        from <= handles@.len(),
    ensures
        v@ == handles@.skip(from as int),
{
    let mut v: Vec<usize> = Vec::new();
    let mut i = from;
    while i < handles.len()
        invariant
            from <= i <= handles.len(),
            v@ == handles@.subrange(from as int, i as int),
        decreases handles.len() - i,
    {
        v.push(handles[i]);
        i = i + 1;
    }
    assert(v@ =~= handles@.skip(from as int));
    v
}

/// Master/stack layout with one master pane on the left and remaining
/// windows stacked vertically on the right.
///
/// ```text
/// +-----------+-----------+
/// |           |     2     |
/// |     1     +-----------+
/// | (master)  |     3     |
/// +-----------+-----------+
/// ```
pub fn vertical_stack_arrange<F: Fn(i32) -> i32>(
    handles: &[usize],
    work_area: &Rect,
    gap: i32,
    scale: &F,
) -> (r: Vec<(usize, Rect)>)
    requires
        handles@.len() <= i32::MAX,
        scale_ok(*scale),
    ensures
        handles@.len() == 0 ==> r@.len() == 0,
        handles@.len() == 1 ==> r@ == seq![(handles@[0], padded_area(*work_area, gap))],
        handles@.len() >= 2 ==> exists|share: i32|
            call_ensures(*scale, (padded_area(*work_area, gap).width,), share) && r@ == vstack_tiles(
                handles@,
                padded_area(*work_area, gap),
                gap,
                share as int,
            ),
{
    if handles.len() == 0 {
        return Vec::new();
    }
    let padded = pad_work_area(work_area, gap);
    if handles.len() == 1 {
        let mut r: Vec<(usize, Rect)> = Vec::new();
        r.push((handles[0], padded));
        assert(r@ =~= seq![(handles@[0], padded)]);
        return r;
    }
    let half = gap / 2;
    let master_w = scale(padded.width);
    let (master, stack_area) = split_panes(&padded, half, master_w);
    let mut results: Vec<(usize, Rect)> = Vec::new();
    results.push((handles[0], master));
    let rest = copy_from(handles, 1);
    fill_stack(&rest, &stack_area, half, &mut results);
    assert(results@ =~= vstack_tiles(handles@, padded, gap, master_w as int));
    results
}

/// The master pane and the pane right of it, for a share of `share` pixels.
fn split_panes(p: &Rect, half: i32, share: i32) -> (r: (Rect, Rect))
    ensures
        r.0 == master_pane(*p, half as int, share as int),
        r.1 == side_pane(*p, half as int, share as int),
{
    let mw: i64 = share as i64 - half as i64;
    let mw1: i64 = if mw >= 1 { mw } else { 1 };
    let master = Rect::new(p.x, p.y, #[verifier::truncate] (mw1 as i32), p.height);
    let sx: i64 = p.x as i64 + share as i64 + half as i64;
    let sw: i64 = p.width as i64 - share as i64 - half as i64;
    let sw1: i64 = if sw >= 1 { sw } else { 1 };
    let side = Rect::new(#[verifier::truncate] (sx as i32), p.y, #[verifier::truncate] (sw1 as i32), p.height);
    (master, side)
}

/// The elements at even positions of `s`.
pub open spec fn evens(s: Seq<usize>) -> Seq<usize> {
    Seq::new(((s.len() + 1) / 2) as nat, |i: int| s[2 * i])
}

/// The elements at odd positions of `s`.
pub open spec fn odds(s: Seq<usize>) -> Seq<usize> {
    Seq::new((s.len() / 2) as nat, |i: int| s[2 * i + 1])
}

/// The three-column arrangement of `handles` in the padded area `p`,
/// where the master pane gets `share` pixels of the width.
pub open spec fn three_column_tiles(handles: Seq<usize>, p: Rect, gap: i32, share: int) -> Seq<(usize, Rect)> {
    let half = div_trunc(gap as int, 2);
    if handles.len() == 1 {
        seq![(handles[0], p)]
    } else if handles.len() == 2 {
        seq![(handles[0], master_pane(p, half, share)), (handles[1], side_pane(p, half, share))]
    } else {
        let side_w = div_trunc(p.width - share - half * 2, 2);
        let master_x = p.x + side_w + half;
        let right_x = master_x + share + half;
        let center = Rect { x: master_x as i32, y: p.y, width: share as i32, height: p.height };
        let left_area = Rect { x: p.x, y: p.y, width: max_int(side_w, 1) as i32, height: p.height };
        let right_area = Rect {
            x: right_x as i32,
            y: p.y,
            width: max_int(p.x + p.width - right_x, 1) as i32,
            height: p.height,
        };
        let rest = handles.skip(1);
        seq![(handles[0], center)] + stack_tiles(evens(rest), left_area, half) + stack_tiles(
            odds(rest),
            right_area,
            half,
        )
    }
}

/// Three-column layout with a master pane in the center and stacks on
/// both sides. Extra windows alternate between the left and right stacks.
///
/// ```text
/// +------+-----------+------+
/// |  2   |           |  3   |
/// +------+     1     +------+
/// |  4   | (master)  |  5   |
/// +------+-----------+------+
/// ```
#[verifier::rlimit(40)]
pub fn three_column_arrange<F: Fn(i32) -> i32>(
    handles: &[usize],
    work_area: &Rect,
    gap: i32,
    scale: &F,
) -> (r: Vec<(usize, Rect)>)
    requires
        handles@.len() <= i32::MAX,
        scale_ok(*scale),
    ensures
        handles@.len() == 0 ==> r@.len() == 0,
        handles@.len() == 1 ==> r@ == seq![(handles@[0], padded_area(*work_area, gap))],
        handles@.len() >= 2 ==> exists|share: i32|
            call_ensures(*scale, (padded_area(*work_area, gap).width,), share) && r@ == three_column_tiles(
                handles@,
                padded_area(*work_area, gap),
                gap,
                share as int,
            ),
{
    if handles.len() == 0 {
        return Vec::new();
    }
    let padded = pad_work_area(work_area, gap);
    if handles.len() == 1 {
        let mut r: Vec<(usize, Rect)> = Vec::new();
        r.push((handles[0], padded));
        assert(r@ =~= seq![(handles@[0], padded)]);
        return r;
    }
    let half = gap / 2;
    let master_w = scale(padded.width);
    if handles.len() == 2 {
        let (master, right) = split_panes(&padded, half, master_w);
        let mut r: Vec<(usize, Rect)> = Vec::new();
        r.push((handles[0], master));
        r.push((handles[1], right));
        assert(r@ =~= three_column_tiles(handles@, padded, gap, master_w as int));
        return r;
    }
    let side_w: i64 = (padded.width as i64 - master_w as i64 - 2 * (half as i64)) / 2;
    let master_x: i64 = padded.x as i64 + side_w + half as i64;
    let right_x: i64 = master_x + master_w as i64 + half as i64;
    let rw: i64 = padded.x as i64 + padded.width as i64 - right_x;
    let right_w: i64 = if rw >= 1 { rw } else { 1 };
    let left_w: i64 = if side_w >= 1 { side_w } else { 1 };
    let mut results: Vec<(usize, Rect)> = Vec::new();
    results.push((handles[0], Rect::new(#[verifier::truncate] (master_x as i32), padded.y, master_w, padded.height)));

    let ghost rest = handles@.skip(1);
    let mut left_handles: Vec<usize> = Vec::new();
    let mut right_handles: Vec<usize> = Vec::new();
    let mut i: usize = 1;
    while i < handles.len()
        invariant
            1 <= i <= handles.len(),
            rest == handles@.skip(1),
            left_handles@ == evens(rest.take(i - 1)),
            right_handles@ == odds(rest.take(i - 1)),
        decreases handles.len() - i,
    {
        let ghost k = i - 1;
        if (i - 1) % 2 == 0 {
            left_handles.push(handles[i]);
            assert(left_handles@ =~= evens(rest.take(k + 1)));
            assert(right_handles@ =~= odds(rest.take(k + 1)));
        } else {
            right_handles.push(handles[i]);
            assert(left_handles@ =~= evens(rest.take(k + 1)));
            assert(right_handles@ =~= odds(rest.take(k + 1)));
        }
        i = i + 1;
    }
    assert(rest.take(handles@.len() - 1) =~= rest);
    let left_area = Rect::new(padded.x, padded.y, #[verifier::truncate] (left_w as i32), padded.height);
    fill_stack(&left_handles, &left_area, half, &mut results);
    let right_area = Rect::new(
        #[verifier::truncate] (right_x as i32),
        padded.y,
        #[verifier::truncate] (right_w as i32),
        padded.height,
    );
    fill_stack(&right_handles, &right_area, half, &mut results);
    assert(results@ =~= three_column_tiles(handles@, padded, gap, master_w as int));
    results
}

/// The length a BSP split divides: the width for a horizontal split,
/// the height for a vertical one.
pub open spec fn split_length(area: Rect, horizontal: bool) -> i32 {
    if horizontal {
        area.width
    } else {
        area.height
    }
}

/// The part of `area` given to the first window when `split` pixels go
/// to it (minus half the gap).
pub open spec fn bsp_first(area: Rect, horizontal: bool, half: int, split: int) -> Rect {
    if horizontal {
        Rect { x: area.x, y: area.y, width: max_int(split - half, 1) as i32, height: area.height }
    } else {
        Rect { x: area.x, y: area.y, width: area.width, height: max_int(split - half, 1) as i32 }
    }
}

/// The part of `area` left for the remaining windows.
pub open spec fn bsp_rest(area: Rect, horizontal: bool, half: int, split: int) -> Rect {
    if horizontal {
        Rect {
            x: (area.x + split + half) as i32,
            y: area.y,
            width: max_int(area.width - split - half, 1) as i32,
            height: area.height,
        }
    } else {
        Rect {
            x: area.x,
            y: (area.y + split + half) as i32,
            width: area.width,
            height: max_int(area.height - split - half, 1) as i32,
        }
    }
}

/// `out` is the binary-space-partitioning arrangement of `handles` in
/// `area`: the first window takes the share of the split length that
/// `scale` gives, the others are arranged recursively in what remains,
/// with the split direction alternating.
pub open spec fn is_bsp_arrangement<F: Fn(i32) -> i32>(
    scale: F,
    handles: Seq<usize>,
    area: Rect,
    horizontal: bool,
    gap: i32,
    out: Seq<(usize, Rect)>,
) -> bool
    decreases handles.len(),
{
    if handles.len() == 0 {
        out.len() == 0
    } else if handles.len() == 1 {
        out == seq![(handles[0], area)]
    } else {
        let half = div_trunc(gap as int, 2);
        exists|split: i32|
            #![trigger call_ensures(scale, (split_length(area, horizontal),), split)]
            {
                &&& call_ensures(scale, (split_length(area, horizontal),), split)
                &&& out.len() >= 1
                &&& out[0] == (handles[0], bsp_first(area, horizontal, half, split as int))
                &&& is_bsp_arrangement(
                    scale,
                    handles.drop_first(),
                    bsp_rest(area, horizontal, half, split as int),
                    !horizontal,
                    gap,
                    out.drop_first(),
                )
            }
    }
}

/// An area that `k` more BSP splits with `half` pixels of gap keep inside `i32`.
pub open spec fn bsp_area_ok(area: Rect, k: int, half: int) -> bool {
    &&& 1 <= area.width
    &&& 1 <= area.height
    &&& 0 <= k
    &&& -layout_limit() * 4 + k * abs_int(half) <= area.x
    &&& -layout_limit() * 4 + k * abs_int(half) <= area.y
    &&& area.x + area.width + k * (abs_int(half) + 1) <= layout_limit() * 4
    &&& area.y + area.height + k * (abs_int(half) + 1) <= layout_limit() * 4
}

fn bsp_split<F: Fn(i32) -> i32>(
    handles: &[usize],
    from: usize,
    area: Rect,
    horizontal: bool,
    gap: i32,
    scale: &F,
    results: &mut Vec<(usize, Rect)>,
)
    requires
        from < handles@.len(),
        scale_ok(*scale),
    ensures
        final(results)@.len() >= old(results)@.len(),
        final(results)@.take(old(results)@.len() as int) == old(results)@,
        is_bsp_arrangement(
            *scale,
            handles@.skip(from as int),
            area,
            horizontal,
            gap,
            final(results)@.skip(old(results)@.len() as int),
        ),
    decreases handles@.len() - from,
{
    let ghost start = results@;
    let ghost hs = handles@.skip(from as int);
    if from == handles.len() - 1 {
        results.push((handles[from], area));
        assert(hs =~= seq![handles@[from as int]]);
        assert(results@.skip(start.len() as int) =~= seq![(handles@[from as int], area)]);
        assert(results@.take(start.len() as int) =~= start);
        return;
    }
    let half = gap / 2;
    let split = if horizontal { scale(area.width) } else { scale(area.height) };
    let length: i64 = if horizontal { area.width as i64 } else { area.height as i64 };
    let fl: i64 = split as i64 - half as i64;
    let fl1: i64 = if fl >= 1 { fl } else { 1 };
    let rl: i64 = length - split as i64 - half as i64;
    let rl1: i64 = if rl >= 1 { rl } else { 1 };
    let first;
    let rest;
    if horizontal {
        first = Rect::new(area.x, area.y, #[verifier::truncate] (fl1 as i32), area.height);
        let rx: i64 = area.x as i64 + split as i64 + half as i64;
        rest = Rect::new(#[verifier::truncate] (rx as i32), area.y, #[verifier::truncate] (rl1 as i32), area.height);
    } else {
        first = Rect::new(area.x, area.y, area.width, #[verifier::truncate] (fl1 as i32));
        let ry: i64 = area.y as i64 + split as i64 + half as i64;
        rest = Rect::new(area.x, #[verifier::truncate] (ry as i32), area.width, #[verifier::truncate] (rl1 as i32));
    }
    assert(first == bsp_first(area, horizontal, half as int, split as int));
    assert(rest == bsp_rest(area, horizontal, half as int, split as int));
    results.push((handles[from], first));
    let ghost mid = results@;
    bsp_split(handles, from + 1, rest, !horizontal, gap, scale, results);
    proof {
        let out = results@.skip(start.len() as int);
        assert(results@.take(mid.len() as int) == mid);
        assert(results@.take(start.len() as int) =~= start) by {
            assert(mid.take(start.len() as int) =~= start);
        }
        assert(out[0] == mid[start.len() as int]);
        assert(out.drop_first() =~= results@.skip(mid.len() as int));
        assert(hs.drop_first() =~= handles@.skip(from + 1));
        assert(hs[0] == handles@[from as int]);
        assert(call_ensures(*scale, (split_length(area, horizontal),), split));
    }
}

/// Binary Space Partitioning layout.
///
/// Recursively splits the available space, alternating between
/// horizontal and vertical splits; each window in turn takes the share
/// of the remaining space that `scale` gives it.
///
/// For example, with 3 windows on a 1920x1080 screen and half shares:
/// ```text
/// +-----------+-----------+
/// |           |     2     |
/// |     1     +-----------+
/// |           |     3     |
/// +-----------+-----------+
/// ```
pub fn bsp_arrange<F: Fn(i32) -> i32>(handles: &[usize], work_area: &Rect, gap: i32, scale: &F) -> (r: Vec<
    (usize, Rect),
>)
    requires
        scale_ok(*scale),
    ensures
        is_bsp_arrangement(*scale, handles@, padded_area(*work_area, gap), true, gap, r@),
{
    let mut results: Vec<(usize, Rect)> = Vec::new();
    if handles.len() == 0 {
        return results;
    }
    let padded = pad_work_area(work_area, gap);
    bsp_split(handles, 0, padded, true, gap, scale, &mut results);
    assert(handles@.skip(0) =~= handles@);
    assert(results@.skip(0) =~= results@);
    results
}

/// Every window of a stack keeps its handle and order, spans the width
/// of the stack area and is at least one pixel high; the last one
/// reaches the bottom of the stack area.
pub proof fn lemma_stack_shape(hs: Seq<usize>, area: Rect, half: int)
    requires
        1 <= area.width,
        1 <= area.height <= layout_limit() * 3,
        -layout_limit() * 2 <= area.y <= layout_limit() * 2,
        hs.len() * (abs_int(half) + 1) <= layout_limit(),
    ensures
        stack_tiles(hs, area, half).len() == hs.len(),
        forall|i: int|
            0 <= i < hs.len() ==> {
                let t = #[trigger] stack_tiles(hs, area, half)[i];
                &&& t.0 == hs[i]
                &&& t.1.x == area.x
                &&& t.1.width == area.width
                &&& t.1.height >= 1
            },
        hs.len() >= 1 ==> ({
            let last = stack_tiles(hs, area, half)[hs.len() - 1].1;
            &&& last.y + last.height >= area.y + area.height
            &&& last.y < area.y + area.height ==> last.y + last.height == area.y + area.height
        }),
{
    let n = hs.len() as int;
    assert forall|i: int| 0 <= i < n implies {
        let t = #[trigger] stack_tiles(hs, area, half)[i];
        &&& t.0 == hs[i]
        &&& t.1.x == area.x
        &&& t.1.width == area.width
        &&& t.1.height >= 1
        &&& t.1.y == area.y + i * (slot_height(area, half, n) + half)
        &&& (i == n - 1 ==> t.1.height == max_int(area.y + area.height - t.1.y, 1))
    } by {
        lemma_stack_offset(area.height as int, half, n, i);
        assert(abs_int(half) * n <= n * (abs_int(half) + 1)) by (nonlinear_arith)
            requires abs_int(half) >= 0, n >= 1;
        assert(abs_int(half) <= abs_int(half) * n) by (nonlinear_arith)
            requires abs_int(half) >= 0, n >= 1;
    }
}

/// BSP arrangements of an area that stays inside `i32` keep every handle
/// in order and give every window at least one pixel in each direction.
proof fn lemma_bsp_shape_in<F: Fn(i32) -> i32>(
    scale: F,
    handles: Seq<usize>,
    area: Rect,
    horizontal: bool,
    gap: i32,
    out: Seq<(usize, Rect)>,
)
    requires
        is_bsp_arrangement(scale, handles, area, horizontal, gap, out),
        scale_ok(scale),
        handles.len() >= 1,
        bsp_area_ok(area, handles.len() - 1, div_trunc(gap as int, 2)),
    ensures
        out.len() == handles.len(),
        forall|i: int| 0 <= i < out.len() ==> (#[trigger] out[i]).0 == handles[i],
        forall|i: int| 0 <= i < out.len() ==> (#[trigger] out[i]).1.width >= 1 && out[i].1.height >= 1,
    decreases handles.len(),
{
    if handles.len() >= 2 {
        let half = div_trunc(gap as int, 2);
        let split = choose|split: i32|
            #![trigger call_ensures(scale, (split_length(area, horizontal),), split)]
            {
                &&& call_ensures(scale, (split_length(area, horizontal),), split)
                &&& out.len() >= 1
                &&& out[0] == (handles[0], bsp_first(area, horizontal, half, split as int))
                &&& is_bsp_arrangement(
                    scale,
                    handles.drop_first(),
                    bsp_rest(area, horizontal, half, split as int),
                    !horizontal,
                    gap,
                    out.drop_first(),
                )
            };
        let k = handles.len() - 1;
        let g = abs_int(half);
        assert((k - 1) * (g + 1) == k * (g + 1) - (g + 1)) by (nonlinear_arith);
        assert((k - 1) * g == k * g - g) by (nonlinear_arith);
        assert(k * (g + 1) >= g + 1) by (nonlinear_arith)
            requires k >= 1, g >= 0;
        assert(k * g >= g) by (nonlinear_arith)
            requires k >= 1, g >= 0;
        lemma_bsp_shape_in(
            scale,
            handles.drop_first(),
            bsp_rest(area, horizontal, half, split as int),
            !horizontal,
            gap,
            out.drop_first(),
        );
        assert forall|i: int| 0 < i < out.len() implies (#[trigger] out[i]).0 == handles[i] && out[i].1.width >= 1
            && out[i].1.height >= 1 by {
            assert(out[i] == out.drop_first()[i - 1]);
        }
    }
}

/// The BSP layout keeps every handle in order and gives every window at
/// least one pixel in each direction, however large the gap.
pub proof fn lemma_bsp_layout_shape<F: Fn(i32) -> i32>(
    scale: F,
    handles: Seq<usize>,
    work_area: Rect,
    gap: i32,
    out: Seq<(usize, Rect)>,
)
    requires
        layout_inputs_ok(handles.len(), work_area, gap),
        scale_ok(scale),
        is_bsp_arrangement(scale, handles, padded_area(work_area, gap), true, gap, out),
    ensures
        out.len() == handles.len(),
        forall|i: int| 0 <= i < out.len() ==> (#[trigger] out[i]).0 == handles[i],
        forall|i: int| 0 <= i < out.len() ==> (#[trigger] out[i]).1.width >= 1 && out[i].1.height >= 1,
{
    if handles.len() >= 1 {
        let g = abs_int(div_trunc(gap as int, 2));
        assert((handles.len() - 1) * (g + 1) <= handles.len() * (g + 1)) by (nonlinear_arith)
            requires g >= 0, handles.len() >= 1;
        assert((handles.len() - 1) * g <= (handles.len() - 1) * (g + 1)) by (nonlinear_arith)
            requires g >= 0, handles.len() >= 1;
        lemma_bsp_shape_in(scale, handles, padded_area(work_area, gap), true, gap, out);
    }
}

/// The vertical-stack layout keeps every handle in order and gives every
/// window at least one pixel in each direction, however large the gap;
/// the stack ends at the bottom of the padded area.
pub proof fn lemma_vstack_shape(handles: Seq<usize>, work_area: Rect, gap: i32, share: int)
    requires
        handles.len() >= 1,
        layout_inputs_ok(handles.len(), work_area, gap),
        0 <= share <= padded_area(work_area, gap).width,
    ensures
        ({
            let p = padded_area(work_area, gap);
            let out = vstack_tiles(handles, p, gap, share);
            &&& out.len() == handles.len()
            &&& forall|i: int| 0 <= i < out.len() ==> (#[trigger] out[i]).0 == handles[i]
            &&& forall|i: int| 0 <= i < out.len() ==> (#[trigger] out[i]).1.width >= 1 && out[i].1.height >= 1
            &&& out[out.len() - 1].1.y + out[out.len() - 1].1.height >= p.y + p.height
        }),
{
    let p = padded_area(work_area, gap);
    let out = vstack_tiles(handles, p, gap, share);
    if handles.len() >= 2 {
        let half = div_trunc(gap as int, 2);
        let area = side_pane(p, half, share);
        assert((handles.len() - 1) * (abs_int(half) + 1) <= handles.len() * (abs_int(half) + 1))
            by (nonlinear_arith)
            requires abs_int(half) >= 0, handles.len() >= 1;
        assert(handles.skip(1).len() == handles.len() - 1);
        lemma_stack_shape(handles.skip(1), area, half);
        assert forall|i: int| 0 < i < out.len() implies (#[trigger] out[i]).0 == handles[i] && out[i].1.width >= 1
            && out[i].1.height >= 1 by {
            assert(out[i] == stack_tiles(handles.skip(1), area, half)[i - 1]);
        }
        assert(out[out.len() - 1] == stack_tiles(handles.skip(1), area, half)[handles.len() - 2]);
    }
}

/// With three or more windows, the three-column layout puts the first
/// window in the center with the full share, then the windows at odd
/// positions down the left stack and those at even positions down the
/// right stack; every stacked window is at least one pixel in each
/// direction and both stacks end at the bottom of the padded area.
pub proof fn lemma_three_column_shape(handles: Seq<usize>, work_area: Rect, gap: i32, share: int)
    requires
        handles.len() >= 3,
        layout_inputs_ok(handles.len(), work_area, gap),
        0 <= share <= padded_area(work_area, gap).width,
    ensures
        ({
            let p = padded_area(work_area, gap);
            let out = three_column_tiles(handles, p, gap, share);
            let nl = (handles.len() / 2) as int;
            let nr = (handles.len() - 1) / 2;
            &&& out.len() == handles.len()
            &&& out[0].0 == handles[0]
            &&& out[0].1.width == share
            &&& out[0].1.height == p.height
            &&& forall|i: int| 0 <= i < nl ==> (#[trigger] out[1 + i]).0 == handles[1 + 2 * i]
            &&& forall|i: int| 0 <= i < nr ==> (#[trigger] out[1 + nl + i]).0 == handles[2 + 2 * i]
            &&& forall|i: int| 1 <= i < out.len() ==> (#[trigger] out[i]).1.width >= 1 && out[i].1.height >= 1
            &&& out[nl].1.y + out[nl].1.height >= p.y + p.height
            &&& out[out.len() - 1].1.y + out[out.len() - 1].1.height >= p.y + p.height
        }),
{
    let p = padded_area(work_area, gap);
    let out = three_column_tiles(handles, p, gap, share);
    let half = div_trunc(gap as int, 2);
    let rest = handles.skip(1);
    let side_w = div_trunc(p.width - share - half * 2, 2);
    let master_x = p.x + side_w + half;
    let right_x = master_x + share + half;
    let left_area = Rect { x: p.x, y: p.y, width: max_int(side_w, 1) as i32, height: p.height };
    let right_area = Rect {
        x: right_x as i32,
        y: p.y,
        width: max_int(p.x + p.width - right_x, 1) as i32,
        height: p.height,
    };
    let l = stack_tiles(evens(rest), left_area, half);
    let r = stack_tiles(odds(rest), right_area, half);
    assert(evens(rest).len() * (abs_int(half) + 1) <= handles.len() * (abs_int(half) + 1)) by (nonlinear_arith)
        requires evens(rest).len() <= handles.len(), abs_int(half) >= 0;
    assert(odds(rest).len() * (abs_int(half) + 1) <= handles.len() * (abs_int(half) + 1)) by (nonlinear_arith)
        requires odds(rest).len() <= handles.len(), abs_int(half) >= 0;
    lemma_stack_shape(evens(rest), left_area, half);
    lemma_stack_shape(odds(rest), right_area, half);
    let nl = (handles.len() / 2) as int;
    assert(evens(rest).len() == nl);
    assert forall|i: int| 0 <= i < nl implies (#[trigger] out[1 + i]).0 == handles[1 + 2 * i] by {
        assert(out[1 + i] == l[i]);
    }
    assert forall|i: int| 0 <= i < (handles.len() - 1) / 2 implies (#[trigger] out[1 + nl + i]).0 == handles[2 + 2 * i] by {
        assert(out[1 + nl + i] == r[i]);
    }
    assert forall|i: int| 1 <= i < out.len() implies (#[trigger] out[i]).1.width >= 1 && out[i].1.height >= 1 by {
        if i < 1 + nl {
            assert(out[i] == l[i - 1]);
        } else {
            assert(out[i] == r[i - 1 - nl]);
        }
    }
    assert(out[nl] == l[nl - 1]);
    assert(out[out.len() - 1] == r[odds(rest).len() - 1]);
}


/// The handles of a run of tiles, in order.
pub open spec fn tile_handles(tiles: Seq<(usize, Rect)>) -> Seq<usize> {
    tiles.map_values(|t: (usize, Rect)| t.0)
}

/// A stack holds its handles in order.
proof fn lemma_stack_handles(hs: Seq<usize>, area: Rect, half: int)
    ensures
        tile_handles(stack_tiles(hs, area, half)) == hs,
{
    assert(tile_handles(stack_tiles(hs, area, half)) =~= hs);
}

/// Splitting a sequence into the elements at even and at odd positions
/// loses and adds nothing.
proof fn lemma_evens_odds_multiset(s: Seq<usize>)
    ensures
        (evens(s) + odds(s)).to_multiset() == s.to_multiset(),
    decreases s.len(),
{
    broadcast use vstd::seq_lib::lemma_multiset_commutative;
    broadcast use vstd::multiset::group_multiset_axioms;

    if s.len() <= 1 {
        assert(evens(s) + odds(s) =~= s);
    } else {
        let t = s.skip(2);
        lemma_evens_odds_multiset(t);
        let a = seq![s[0]];
        let b = seq![s[1]];
        assert(evens(s) =~= a + evens(t));
        assert(odds(s) =~= b + odds(t));
        assert(s =~= a + (b + t));
        assert((a + evens(t)).to_multiset() =~= a.to_multiset().add(evens(t).to_multiset()));
        assert((b + odds(t)).to_multiset() =~= b.to_multiset().add(odds(t).to_multiset()));
        assert((evens(t) + odds(t)).to_multiset() =~= evens(t).to_multiset().add(odds(t).to_multiset()));
        assert((b + t).to_multiset() =~= b.to_multiset().add(t.to_multiset()));
        assert((a + (b + t)).to_multiset() =~= a.to_multiset().add((b + t).to_multiset()));
        assert(((a + evens(t)) + (b + odds(t))).to_multiset() =~= (a + evens(t)).to_multiset().add(
            (b + odds(t)).to_multiset(),
        ));
        assert((evens(s) + odds(s)).to_multiset() =~= s.to_multiset());
    }
}

/// The vertical-stack layout holds the handles it was given, in order.
pub proof fn lemma_vstack_keeps_order(handles: Seq<usize>, p: Rect, gap: i32, share: int)
    requires
        handles.len() >= 1,
    ensures
        tile_handles(vstack_tiles(handles, p, gap, share)) == handles,
{
    if handles.len() >= 2 {
        let half = div_trunc(gap as int, 2);
        let st = stack_tiles(handles.skip(1), side_pane(p, half, share), half);
        lemma_stack_handles(handles.skip(1), side_pane(p, half, share), half);
        let out = vstack_tiles(handles, p, gap, share);
        assert forall|i: int| 1 <= i < handles.len() implies tile_handles(out)[i] == handles[i] by {
            assert(out[i] == st[i - 1]);
            assert(tile_handles(st)[i - 1] == st[i - 1].0);
        }
    }
    assert(tile_handles(vstack_tiles(handles, p, gap, share)) =~= handles);
}

/// The three-column layout places every window exactly once: its tiles
/// hold the handles it was given, each as often as given.
pub proof fn lemma_three_column_places_each(handles: Seq<usize>, p: Rect, gap: i32, share: int)
    requires
        handles.len() >= 1,
    ensures
        tile_handles(three_column_tiles(handles, p, gap, share)).to_multiset() == handles.to_multiset(),
{
    broadcast use vstd::seq_lib::lemma_multiset_commutative;

    let out = three_column_tiles(handles, p, gap, share);
    if handles.len() <= 2 {
        assert(tile_handles(out) =~= handles);
    } else {
        let half = div_trunc(gap as int, 2);
        let side_w = div_trunc(p.width - share - half * 2, 2);
        let master_x = p.x + side_w + half;
        let right_x = master_x + share + half;
        let left_area = Rect { x: p.x, y: p.y, width: max_int(side_w, 1) as i32, height: p.height };
        let right_area = Rect {
            x: right_x as i32,
            y: p.y,
            width: max_int(p.x + p.width - right_x, 1) as i32,
            height: p.height,
        };
        let rest = handles.skip(1);
        let l = stack_tiles(evens(rest), left_area, half);
        let r = stack_tiles(odds(rest), right_area, half);
        lemma_stack_handles(evens(rest), left_area, half);
        lemma_stack_handles(odds(rest), right_area, half);
        lemma_evens_odds_multiset(rest);
        let a = seq![handles[0]];
        assert(tile_handles(out) =~= a + (evens(rest) + odds(rest)));
        assert(handles =~= a + rest);
        assert((a + (evens(rest) + odds(rest))).to_multiset() =~= a.to_multiset().add(
            (evens(rest) + odds(rest)).to_multiset(),
        ));
        assert((a + rest).to_multiset() =~= a.to_multiset().add(rest.to_multiset()));
    }
}


/// A BSP arrangement holds its handles in order.
proof fn lemma_bsp_keeps_order<F: Fn(i32) -> i32>(
    scale: F,
    handles: Seq<usize>,
    area: Rect,
    horizontal: bool,
    gap: i32,
    out: Seq<(usize, Rect)>,
)
    requires
        is_bsp_arrangement(scale, handles, area, horizontal, gap, out),
    ensures
        tile_handles(out) == handles,
    decreases handles.len(),
{
    if handles.len() >= 2 {
        let half = div_trunc(gap as int, 2);
        let split = choose|split: i32|
            #![trigger call_ensures(scale, (split_length(area, horizontal),), split)]
            {
                &&& call_ensures(scale, (split_length(area, horizontal),), split)
                &&& out.len() >= 1
                &&& out[0] == (handles[0], bsp_first(area, horizontal, half, split as int))
                &&& is_bsp_arrangement(
                    scale,
                    handles.drop_first(),
                    bsp_rest(area, horizontal, half, split as int),
                    !horizontal,
                    gap,
                    out.drop_first(),
                )
            };
        lemma_bsp_keeps_order(
            scale,
            handles.drop_first(),
            bsp_rest(area, horizontal, half, split as int),
            !horizontal,
            gap,
            out.drop_first(),
        );
        assert forall|i: int| 1 <= i < out.len() implies tile_handles(out)[i] == handles[i] by {
            assert(out[i] == out.drop_first()[i - 1]);
            assert(tile_handles(out.drop_first())[i - 1] == handles.drop_first()[i - 1]);
        }
    }
    assert(tile_handles(out) =~= handles);
}

/// Binary Space Partitioning layout: splits the area in two, gives the
/// first window its share of the split, and arranges the rest in what
/// remains, alternating between horizontal and vertical splits.
///
/// `scale` gives the first window's share of a length: the configured
/// split ratio applied to it.
pub struct BspLayout<F: Fn(i32) -> i32> {
    gap: i32,
    scale: F,
}

/// A master pane on the left and a vertical stack on the right; `scale`
/// gives the master pane's share of the width.
pub struct VerticalStackLayout<F: Fn(i32) -> i32> {
    gap: i32,
    scale: F,
}

/// A master pane in the center with stacks on both sides; `scale` gives
/// the master pane's share of the width.
pub struct ThreeColumnLayout<F: Fn(i32) -> i32> {
    gap: i32,
    scale: F,
}

impl<F: Fn(i32) -> i32> BspLayout<F> {
    #[verifier::type_invariant]
    spec fn scale_is_ok(self) -> bool {
        scale_ok(self.scale)
    }

    /// The gap in pixels between windows.
    pub closed spec fn spec_gap(&self) -> i32 {
        self.gap
    }

    /// The function that gives the first window's share of a length.
    pub closed spec fn spec_scale(&self) -> F {
        self.scale
    }

    /// A BSP layout with `gap` pixels between windows and `scale` giving
    /// the first window's share of each split.
    pub fn new(gap: i32, scale: F) -> (l: Self)
        requires
            scale_ok(scale),
        ensures
            l.spec_gap() == gap,
            l.spec_scale() == scale,
    {
        BspLayout { gap, scale }
    }

    /// The gap in pixels between windows.
    pub fn gap(&self) -> (g: i32)
        ensures
            g == self.spec_gap(),
    {
        self.gap
    }
}

impl<F: Fn(i32) -> i32> VerticalStackLayout<F> {
    #[verifier::type_invariant]
    spec fn scale_is_ok(self) -> bool {
        scale_ok(self.scale)
    }

    /// The gap in pixels between windows.
    pub closed spec fn spec_gap(&self) -> i32 {
        self.gap
    }

    /// The function that gives the master pane's share of the width.
    pub closed spec fn spec_scale(&self) -> F {
        self.scale
    }

    /// A vertical-stack layout with `gap` pixels between windows and
    /// `scale` giving the master pane's share of the width.
    pub fn new(gap: i32, scale: F) -> (l: Self)
        requires
            scale_ok(scale),
        ensures
            l.spec_gap() == gap,
            l.spec_scale() == scale,
    {
        VerticalStackLayout { gap, scale }
    }

    /// The gap in pixels between windows.
    pub fn gap(&self) -> (g: i32)
        ensures
            g == self.spec_gap(),
    {
        self.gap
    }
}

impl<F: Fn(i32) -> i32> ThreeColumnLayout<F> {
    #[verifier::type_invariant]
    spec fn scale_is_ok(self) -> bool {
        scale_ok(self.scale)
    }

    /// The gap in pixels between windows.
    pub closed spec fn spec_gap(&self) -> i32 {
        self.gap
    }

    /// The function that gives the master pane's share of the width.
    pub closed spec fn spec_scale(&self) -> F {
        self.scale
    }

    /// A three-column layout with `gap` pixels between windows and
    /// `scale` giving the master pane's share of the width.
    pub fn new(gap: i32, scale: F) -> (l: Self)
        requires
            scale_ok(scale),
        ensures
            l.spec_gap() == gap,
            l.spec_scale() == scale,
    {
        ThreeColumnLayout { gap, scale }
    }

    /// The gap in pixels between windows.
    pub fn gap(&self) -> (g: i32)
        ensures
            g == self.spec_gap(),
    {
        self.gap
    }
}

/// The vertical-stack arrangement of `handles` in `work_area`, whatever
/// share of the width `scale` gives the master pane.
pub open spec fn is_vstack_arrangement<F: Fn(i32) -> i32>(
    scale: F,
    handles: Seq<usize>,
    work_area: Rect,
    gap: i32,
    tiles: Seq<(usize, Rect)>,
) -> bool {
    let p = padded_area(work_area, gap);
    &&& handles.len() == 0 ==> tiles.len() == 0
    &&& handles.len() == 1 ==> tiles == seq![(handles[0], p)]
    &&& handles.len() >= 2 ==> exists|share: i32|
        call_ensures(scale, (p.width,), share) && tiles == vstack_tiles(handles, p, gap, share as int)
}

/// The three-column arrangement of `handles` in `work_area`, whatever
/// share of the width `scale` gives the master pane.
pub open spec fn is_three_column_arrangement<F: Fn(i32) -> i32>(
    scale: F,
    handles: Seq<usize>,
    work_area: Rect,
    gap: i32,
    tiles: Seq<(usize, Rect)>,
) -> bool {
    let p = padded_area(work_area, gap);
    &&& handles.len() == 0 ==> tiles.len() == 0
    &&& handles.len() == 1 ==> tiles == seq![(handles[0], p)]
    &&& handles.len() >= 2 ==> exists|share: i32|
        call_ensures(scale, (p.width,), share) && tiles == three_column_tiles(handles, p, gap, share as int)
}

impl<F: Fn(i32) -> i32> Layout for BspLayout<F> {
    open spec fn arranges(&self, handles: Seq<usize>, work_area: Rect, tiles: Seq<(usize, Rect)>) -> bool {
        is_bsp_arrangement(self.spec_scale(), handles, padded_area(work_area, self.spec_gap()), true, self.spec_gap(), tiles)
    }

    fn apply(&self, handles: &[usize], work_area: &Rect) -> (r: Vec<(usize, Rect)>) {
        proof {
            use_type_invariant(self);
        }
        let r = bsp_arrange(handles, work_area, self.gap, &self.scale);
        proof {
            lemma_bsp_keeps_order(self.scale, handles@, padded_area(*work_area, self.gap), true, self.gap, r@);
            assert(r@.map_values(|p: (usize, Rect)| p.0) == tile_handles(r@));
        }
        r
    }
}

impl<F: Fn(i32) -> i32> Layout for VerticalStackLayout<F> {
    open spec fn arranges(&self, handles: Seq<usize>, work_area: Rect, tiles: Seq<(usize, Rect)>) -> bool {
        is_vstack_arrangement(self.spec_scale(), handles, work_area, self.spec_gap(), tiles)
    }

    fn apply(&self, handles: &[usize], work_area: &Rect) -> (r: Vec<(usize, Rect)>) {
        proof {
            use_type_invariant(self);
        }
        let r = vertical_stack_arrange(handles, work_area, self.gap, &self.scale);
        proof {
            if handles@.len() >= 2 {
                let p = padded_area(*work_area, self.gap);
                let share = choose|share: i32|
                    call_ensures(self.scale, (p.width,), share) && r@ == vstack_tiles(handles@, p, self.gap, share as int);
                lemma_vstack_keeps_order(handles@, p, self.gap, share as int);
            }
            assert(r@.map_values(|p: (usize, Rect)| p.0) == tile_handles(r@));
            assert(tile_handles(r@) =~= handles@);
        }
        r
    }
}

impl<F: Fn(i32) -> i32> Layout for ThreeColumnLayout<F> {
    open spec fn arranges(&self, handles: Seq<usize>, work_area: Rect, tiles: Seq<(usize, Rect)>) -> bool {
        is_three_column_arrangement(self.spec_scale(), handles, work_area, self.spec_gap(), tiles)
    }

    fn apply(&self, handles: &[usize], work_area: &Rect) -> (r: Vec<(usize, Rect)>) {
        proof {
            use_type_invariant(self);
        }
        let r = three_column_arrange(handles, work_area, self.gap, &self.scale);
        proof {
            if handles@.len() >= 2 {
                let p = padded_area(*work_area, self.gap);
                let share = choose|share: i32|
                    call_ensures(self.scale, (p.width,), share) && r@ == three_column_tiles(handles@, p, self.gap, share as int);
                lemma_three_column_places_each(handles@, p, self.gap, share as int);
            } else {
                assert(tile_handles(r@) =~= handles@);
            }
            assert(r@.map_values(|p: (usize, Rect)| p.0) == tile_handles(r@));
        }
        r
    }
}


/// Tiles `k` and `k + 1` of a BSP arrangement whose first split is
/// horizontal when `first_horizontal` holds: side by side (same top, the
/// later one not to the left) when the split at `k` is horizontal, that
/// is when `k` is even exactly if the first split is; stacked (same left
/// edge, the later one not above) otherwise. The "not to the left / not
/// above" parts hold for gaps that are not negative; and unless window `k`
/// was squeezed to a single pixel across the split, two half gaps
/// separate it from window `k + 1`.
pub open spec fn bsp_neighbours(out: Seq<(usize, Rect)>, k: int, first_horizontal: bool, gap: i32) -> bool {
    let half = div_trunc(gap as int, 2);
    if (k % 2 == 0) == first_horizontal {
        &&& out[k + 1].1.y == out[k].1.y
        &&& gap >= 0 ==> out[k + 1].1.x >= out[k].1.x
        &&& out[k].1.width > 1 ==> out[k + 1].1.x == out[k].1.x + out[k].1.width + 2 * half
    } else {
        &&& out[k + 1].1.x == out[k].1.x
        &&& gap >= 0 ==> out[k + 1].1.y >= out[k].1.y
        &&& out[k].1.height > 1 ==> out[k + 1].1.y == out[k].1.y + out[k].1.height + 2 * half
    }
}

/// In a BSP arrangement of an area that stays inside `i32`, the first
/// window sits at the top-left corner of the area and the split direction
/// alternates at every window: the split at window `k` is horizontal
/// exactly when `k` has the parity of a horizontal first split.
proof fn lemma_bsp_alternates_in<F: Fn(i32) -> i32>(
    scale: F,
    handles: Seq<usize>,
    area: Rect,
    horizontal: bool,
    gap: i32,
    out: Seq<(usize, Rect)>,
)
    requires
        is_bsp_arrangement(scale, handles, area, horizontal, gap, out),
        scale_ok(scale),
        handles.len() >= 1,
        bsp_area_ok(area, handles.len() - 1, div_trunc(gap as int, 2)),
    ensures
        out.len() == handles.len(),
        out[0].1.x == area.x,
        out[0].1.y == area.y,
        forall|k: int|
            0 <= k < out.len() - 1 ==> #[trigger] bsp_neighbours(out, k, horizontal, gap),
    decreases handles.len(),
{
    lemma_bsp_shape_in(scale, handles, area, horizontal, gap, out);
    if handles.len() >= 2 {
        let half = div_trunc(gap as int, 2);
        let split = choose|split: i32|
            #![trigger call_ensures(scale, (split_length(area, horizontal),), split)]
            {
                &&& call_ensures(scale, (split_length(area, horizontal),), split)
                &&& out.len() >= 1
                &&& out[0] == (handles[0], bsp_first(area, horizontal, half, split as int))
                &&& is_bsp_arrangement(
                    scale,
                    handles.drop_first(),
                    bsp_rest(area, horizontal, half, split as int),
                    !horizontal,
                    gap,
                    out.drop_first(),
                )
            };
        let k = handles.len() - 1;
        let g = abs_int(half);
        assert((k - 1) * (g + 1) == k * (g + 1) - (g + 1)) by (nonlinear_arith);
        assert((k - 1) * g == k * g - g) by (nonlinear_arith);
        assert(k * (g + 1) >= g + 1) by (nonlinear_arith)
            requires k >= 1, g >= 0;
        assert(k * g >= g) by (nonlinear_arith)
            requires k >= 1, g >= 0;
        assert(gap >= 0 ==> half >= 0);
        let rest = bsp_rest(area, horizontal, half, split as int);
        let tail = out.drop_first();
        lemma_bsp_alternates_in(scale, handles.drop_first(), rest, !horizontal, gap, tail);
        assert(bsp_neighbours(out, 0, horizontal, gap)) by {
            assert(out[1] == tail[0]);
        }
        assert forall|j: int| 0 <= j < out.len() - 1 implies #[trigger] bsp_neighbours(out, j, horizontal, gap) by {
            if j >= 1 {
                assert(out[j] == tail[j - 1]);
                assert(out[j + 1] == tail[j]);
                assert(bsp_neighbours(tail, j - 1, !horizontal, gap));
            }
        }
    }
}

/// The BSP layout starts with a horizontal split and alternates: windows
/// `k` and `k + 1` sit side by side (same top) when `k` is even and one
/// above the other (same left edge) when `k` is odd, on any work area whose
/// coordinates stay inside `i32`.
pub proof fn lemma_bsp_alternates<F: Fn(i32) -> i32>(
    scale: F,
    handles: Seq<usize>,
    work_area: Rect,
    gap: i32,
    out: Seq<(usize, Rect)>,
)
    requires
        layout_inputs_ok(handles.len(), work_area, gap),
        scale_ok(scale),
        is_bsp_arrangement(scale, handles, padded_area(work_area, gap), true, gap, out),
    ensures
        out.len() == handles.len(),
        handles.len() >= 1 ==> out[0].1.x == padded_area(work_area, gap).x && out[0].1.y == padded_area(
            work_area,
            gap,
        ).y,
        forall|k: int| 0 <= k < out.len() - 1 ==> #[trigger] bsp_neighbours(out, k, true, gap),
{
    if handles.len() >= 1 {
        let g = abs_int(div_trunc(gap as int, 2));
        assert((handles.len() - 1) * (g + 1) <= handles.len() * (g + 1)) by (nonlinear_arith)
            requires g >= 0, handles.len() >= 1;
        assert((handles.len() - 1) * g <= (handles.len() - 1) * (g + 1)) by (nonlinear_arith)
            requires g >= 0, handles.len() >= 1;
        lemma_bsp_alternates_in(scale, handles, padded_area(work_area, gap), true, gap, out);
    }
}


/// The width of each side column of a three-column layout of the padded
/// area `p` whose master pane is `share` pixels wide: what the width
/// leaves after the master pane and a gap on each side of it, halved.
pub open spec fn side_column_width(p: Rect, half: int, share: int) -> int {
    div_trunc(p.width - share - half * 2, 2)
}

/// With three or more windows, the three-column layout puts the master
/// pane `share` pixels wide over the full height, one side column's width
/// and a half gap in from the left; every left-stack window is one side
/// column wide at the left edge and ends a half gap before the master
/// pane; every right-stack window starts a half gap after the master pane
/// and reaches the right edge; and, when the master pane and its gaps fit,
/// the right column is as wide as the left one or one pixel wider. This
/// holds for gaps that are not negative on any work area whose coordinates
/// stay inside `i32`.
pub proof fn lemma_three_column_columns(handles: Seq<usize>, work_area: Rect, gap: i32, share: int)
    requires
        handles.len() >= 3,
        layout_inputs_ok(handles.len(), work_area, gap),
        0 <= share <= padded_area(work_area, gap).width,
        gap >= 0,
    ensures
        ({
            let p = padded_area(work_area, gap);
            let half = div_trunc(gap as int, 2);
            let side = side_column_width(p, half, share);
            let out = three_column_tiles(handles, p, gap, share);
            let m = out[0].1;
            let nl = (handles.len() / 2) as int;
            &&& out.len() == handles.len()
            &&& m.x == p.x + side + half
            &&& m.y == p.y
            &&& m.width == share
            &&& m.height == p.height
            &&& forall|i: int|
                1 <= i <= nl ==> {
                    &&& (#[trigger] out[i]).1.x == p.x
                    &&& out[i].1.width == max_int(side, 1)
                    &&& side >= 1 ==> out[i].1.x + out[i].1.width + half == m.x
                }
            &&& forall|i: int|
                nl < i < out.len() ==> {
                    &&& (#[trigger] out[i]).1.x == m.x + m.width + half
                    &&& out[i].1.x + out[i].1.width == max_int(p.x + p.width, out[i].1.x + 1)
                }
            &&& share + half * 2 <= p.width ==> p.x + p.width - (m.x + m.width + half) - side == (p.width - share
                - half * 2) % 2
        }),
{
    let p = padded_area(work_area, gap);
    let out = three_column_tiles(handles, p, gap, share);
    let half = div_trunc(gap as int, 2);
    let rest = handles.skip(1);
    let side_w = div_trunc(p.width - share - half * 2, 2);
    let master_x = p.x + side_w + half;
    let right_x = master_x + share + half;
    let left_area = Rect { x: p.x, y: p.y, width: max_int(side_w, 1) as i32, height: p.height };
    let right_area = Rect {
        x: right_x as i32,
        y: p.y,
        width: max_int(p.x + p.width - right_x, 1) as i32,
        height: p.height,
    };
    let l = stack_tiles(evens(rest), left_area, half);
    let r = stack_tiles(odds(rest), right_area, half);
    let nl = (handles.len() / 2) as int;
    assert(evens(rest).len() == nl);
    assert(0 <= half <= gap);
    assert(p.width - share - half * 2 >= 0 ==> side_w * 2 <= p.width - share - half * 2 < side_w * 2 + 2);
    assert(p.width - share - half * 2 < 0 ==> side_w * 2 >= p.width - share - half * 2 > side_w * 2 - 2);
    assert(-layout_limit() * 4 <= master_x <= layout_limit() * 4);
    assert(-layout_limit() * 4 <= right_x <= layout_limit() * 4);
    assert(out.len() == handles.len());
    assert(out[0].1.x == master_x);
    assert(out[0].1.width == share);
    let a = p.width - share - half * 2;
    assert(a >= 0 ==> a == 2 * (a / 2) + a % 2) by (nonlinear_arith);
    assert forall|i: int| 1 <= i <= nl implies {
        &&& (#[trigger] out[i]).1.x == p.x
        &&& out[i].1.width == max_int(side_w, 1)
        &&& side_w >= 1 ==> out[i].1.x + out[i].1.width + half == out[0].1.x
    } by {
        assert(out[i] == l[i - 1]);
    }
    assert forall|i: int| nl < i < out.len() implies {
        &&& (#[trigger] out[i]).1.x == out[0].1.x + out[0].1.width + half
        &&& out[i].1.x + out[i].1.width == max_int(p.x + p.width, out[i].1.x + 1)
    } by {
        assert(out[i] == r[i - 1 - nl]);
    }
}


/// A stack of windows with room for each to be at least one pixel high
/// shares the height out evenly: the first window starts at the top of the
/// area, each next one starts a half gap below the one before, all but the
/// last are equally high, and the last reaches the bottom of the area,
/// taking at most one extra pixel per window of what does not divide.
pub proof fn lemma_stack_even(hs: Seq<usize>, area: Rect, half: int)
    requires
        hs.len() >= 1,
        half >= 0,
        hs.len() + (hs.len() - 1) * half <= area.height <= layout_limit() * 3,
        -layout_limit() * 2 <= area.y <= layout_limit() * 2,
        hs.len() * (half + 1) <= layout_limit(),
    ensures
        ({
            let t = stack_tiles(hs, area, half);
            let n = hs.len() as int;
            &&& t.len() == n
            &&& t[0].1.y == area.y
            &&& forall|i: int| 0 <= i < n - 1 ==> (#[trigger] t[i + 1]).1.y == t[i].1.y + t[i].1.height + half
            &&& forall|i: int| 0 <= i < n - 1 ==> (#[trigger] t[i]).1.height == t[0].1.height
            &&& t[n - 1].1.y + t[n - 1].1.height == area.y + area.height
            &&& n >= 2 ==> t[0].1.height <= t[n - 1].1.height < t[0].1.height + n
        }),
{
    let n = hs.len() as int;
    let h = area.height as int;
    let num = h - half * (n - 1);
    let slot = slot_height(area, half, n);
    assert(num >= n) by (nonlinear_arith)
        requires num == h - half * (n - 1), n + (n - 1) * half <= h;
    assert(slot == num / n);
    assert(n * slot <= num < n * slot + n) by (nonlinear_arith)
        requires slot == num / n, num >= n, n >= 1;
    assert(slot >= 1) by (nonlinear_arith)
        requires slot == num / n, num >= n, n >= 1;
    let t = stack_tiles(hs, area, half);
    assert forall|i: int| 0 <= i < n implies {
        &&& (#[trigger] t[i]).1.y == area.y + i * (slot + half)
        &&& i < n - 1 ==> t[i].1.height == slot
        &&& i == n - 1 ==> t[i].1.height == h - i * (slot + half)
    } by {
        assert(0 <= i * (slot + half) <= (n - 1) * (slot + half)) by (nonlinear_arith)
            requires 0 <= i < n, slot + half >= 0;
        assert((n - 1) * (slot + half) == n * slot - slot + half * (n - 1)) by (nonlinear_arith);
        assert(slot <= layout_limit() * 3) by (nonlinear_arith)
            requires slot == num / n, num <= layout_limit() * 3, n >= 1, num >= 0;
    }
    assert forall|i: int| 0 <= i < n - 1 implies (#[trigger] t[i + 1]).1.y == t[i].1.y + t[i].1.height + half by {
        assert(t[i + 1].1.y == area.y + (i + 1) * (slot + half));
        assert(t[i].1.y == area.y + i * (slot + half));
        assert((i + 1) * (slot + half) == i * (slot + half) + slot + half) by (nonlinear_arith);
    }
    assert forall|i: int| 0 <= i < n - 1 implies (#[trigger] t[i]).1.height == t[0].1.height by {
        assert(t[i].1.height == slot);
        assert(t[0].1.height == slot);
    }
    assert(t[0].1.y == area.y + 0 * (slot + half));
    assert((n - 1) * (slot + half) == n * slot - slot + half * (n - 1)) by (nonlinear_arith);
}


/// With two or more windows, the vertical-stack layout puts the master
/// pane at the top-left corner over the full height, `share` pixels wide
/// less a half gap; every stacked window starts a half gap after the
/// master's share and reaches the right edge, so that a full gap separates
/// it from the master pane whenever the master is wider than the half gap.
/// This holds for gaps that are not negative on any work area whose
/// coordinates stay inside `i32`.
pub proof fn lemma_vstack_columns(handles: Seq<usize>, work_area: Rect, gap: i32, share: int)
    requires
        handles.len() >= 2,
        layout_inputs_ok(handles.len(), work_area, gap),
        0 <= share <= padded_area(work_area, gap).width,
        gap >= 0,
    ensures
        ({
            let p = padded_area(work_area, gap);
            let half = div_trunc(gap as int, 2);
            let out = vstack_tiles(handles, p, gap, share);
            let m = out[0].1;
            &&& out.len() == handles.len()
            &&& m.x == p.x
            &&& m.y == p.y
            &&& m.width == max_int(share - half, 1)
            &&& m.height == p.height
            &&& forall|i: int|
                1 <= i < out.len() ==> {
                    &&& (#[trigger] out[i]).1.x == p.x + share + half
                    &&& out[i].1.x + out[i].1.width == max_int(p.x + p.width, out[i].1.x + 1)
                    &&& share - half >= 1 ==> m.x + m.width + half * 2 == out[i].1.x
                }
        }),
{
    let p = padded_area(work_area, gap);
    let half = div_trunc(gap as int, 2);
    let out = vstack_tiles(handles, p, gap, share);
    let st = stack_tiles(handles.skip(1), side_pane(p, half, share), half);
    assert(0 <= half <= gap);
    assert forall|i: int| 1 <= i < out.len() implies {
        &&& (#[trigger] out[i]).1.x == p.x + share + half
        &&& out[i].1.x + out[i].1.width == max_int(p.x + p.width, out[i].1.x + 1)
        &&& share - half >= 1 ==> out[0].1.x + out[0].1.width + half * 2 == out[i].1.x
    } by {
        assert(out[i] == st[i - 1]);
    }
}


/// The windows `from..to` of `out` are stacked evenly over the full
/// height of `p`: the first starts at the top, each next one starts a half
/// gap below the one before, all but the last are equally high, and the
/// last reaches the bottom.
pub open spec fn stacked_over(out: Seq<(usize, Rect)>, from: int, to: int, p: Rect, half: int) -> bool {
    &&& out[from].1.y == p.y
    &&& forall|i: int| from <= i < to - 1 ==> (#[trigger] out[i + 1]).1.y == out[i].1.y + out[i].1.height + half
    &&& forall|i: int| from <= i < to - 1 ==> (#[trigger] out[i]).1.height == out[from].1.height
    &&& out[to - 1].1.y + out[to - 1].1.height == p.y + p.height
}

proof fn lemma_stacked_over_slice(out: Seq<(usize, Rect)>, from: int, t: Seq<(usize, Rect)>, p: Rect, half: int)
    requires
        0 <= from,
        t.len() >= 1,
        from + t.len() <= out.len(),
        forall|i: int| 0 <= i < t.len() ==> out[from + i] == #[trigger] t[i],
        t[0].1.y == p.y,
        forall|i: int| 0 <= i < t.len() - 1 ==> (#[trigger] t[i + 1]).1.y == t[i].1.y + t[i].1.height + half,
        forall|i: int| 0 <= i < t.len() - 1 ==> (#[trigger] t[i]).1.height == t[0].1.height,
        t[t.len() - 1].1.y + t[t.len() - 1].1.height == p.y + p.height,
    ensures
        stacked_over(out, from, from + t.len(), p, half),
{
    assert(out[from] == t[0]);
    assert forall|i: int| from <= i < from + t.len() - 1 implies (#[trigger] out[i + 1]).1.y == out[i].1.y
        + out[i].1.height + half by {
        assert(out[i] == t[i - from]);
        assert(out[i + 1] == t[i - from + 1]);
    }
    assert forall|i: int| from <= i < from + t.len() - 1 implies (#[trigger] out[i]).1.height
        == out[from].1.height by {
        assert(out[i] == t[i - from]);
    }
    assert(out[from + t.len() - 1] == t[t.len() - 1]);
}

/// With three or more windows and room for each to be at least one pixel
/// high, the three-column layout stacks the windows at odd positions
/// evenly down the left column and those at even positions down the right
/// column, each stack over the full height, for gaps that are not
/// negative on any work area whose coordinates stay inside `i32`.
pub proof fn lemma_three_column_stacks(handles: Seq<usize>, work_area: Rect, gap: i32, share: int)
    requires
        handles.len() >= 3,
        layout_inputs_ok(handles.len(), work_area, gap),
        0 <= share <= padded_area(work_area, gap).width,
        gap >= 0,
        handles.len() * (div_trunc(gap as int, 2) + 1) <= padded_area(work_area, gap).height,
    ensures
        ({
            let p = padded_area(work_area, gap);
            let half = div_trunc(gap as int, 2);
            let out = three_column_tiles(handles, p, gap, share);
            let nl = (handles.len() / 2) as int;
            &&& stacked_over(out, 1, 1 + nl, p, half)
            &&& stacked_over(out, 1 + nl, handles.len() as int, p, half)
        }),
{
    let p = padded_area(work_area, gap);
    let out = three_column_tiles(handles, p, gap, share);
    let half = div_trunc(gap as int, 2);
    let rest = handles.skip(1);
    let side_w = div_trunc(p.width - share - half * 2, 2);
    let master_x = p.x + side_w + half;
    let right_x = master_x + share + half;
    let left_area = Rect { x: p.x, y: p.y, width: max_int(side_w, 1) as i32, height: p.height };
    let right_area = Rect {
        x: right_x as i32,
        y: p.y,
        width: max_int(p.x + p.width - right_x, 1) as i32,
        height: p.height,
    };
    let l = stack_tiles(evens(rest), left_area, half);
    let r = stack_tiles(odds(rest), right_area, half);
    let n = handles.len() as int;
    let nl = (handles.len() / 2) as int;
    assert(0 <= half <= gap);
    assert(evens(rest).len() == nl);
    assert(odds(rest).len() == n - 1 - nl);
    assert(nl * (half + 1) <= n * (half + 1)) by (nonlinear_arith)
        requires 0 <= nl <= n, half >= 0;
    assert((n - 1 - nl) * (half + 1) <= n * (half + 1)) by (nonlinear_arith)
        requires 0 <= n - 1 - nl <= n, half >= 0;
    assert(n * (half + 1) <= n * (abs_int(half) + 1));
    let kl = nl;
    let kr = n - 1 - nl;
    assert(kl + (kl - 1) * half <= kl * (half + 1)) by (nonlinear_arith)
        requires half >= 0;
    assert(kr + (kr - 1) * half <= kr * (half + 1)) by (nonlinear_arith)
        requires half >= 0;
    lemma_stack_even(evens(rest), left_area, half);
    lemma_stack_even(odds(rest), right_area, half);
    assert forall|i: int| 0 <= i < l.len() implies out[1 + i] == #[trigger] l[i] by {}
    assert forall|i: int| 0 <= i < r.len() implies out[1 + nl + i] == #[trigger] r[i] by {}
    lemma_stacked_over_slice(out, 1, l, p, half);
    lemma_stacked_over_slice(out, 1 + nl, r, p, half);
}

/// With two or more windows and room for each stacked one to be at least
/// one pixel high, the vertical-stack layout stacks every window after the
/// master evenly over the full height, for gaps that are not negative on
/// any work area whose coordinates stay inside `i32`.
pub proof fn lemma_vstack_stacks(handles: Seq<usize>, work_area: Rect, gap: i32, share: int)
    requires
        handles.len() >= 2,
        layout_inputs_ok(handles.len(), work_area, gap),
        0 <= share <= padded_area(work_area, gap).width,
        gap >= 0,
        handles.len() * (div_trunc(gap as int, 2) + 1) <= padded_area(work_area, gap).height,
    ensures
        stacked_over(
            vstack_tiles(handles, padded_area(work_area, gap), gap, share),
            1,
            handles.len() as int,
            padded_area(work_area, gap),
            div_trunc(gap as int, 2),
        ),
{
    let p = padded_area(work_area, gap);
    let half = div_trunc(gap as int, 2);
    let out = vstack_tiles(handles, p, gap, share);
    let area = side_pane(p, half, share);
    let st = stack_tiles(handles.skip(1), area, half);
    let n = handles.len() as int;
    assert(0 <= half <= gap);
    assert((n - 1) * (half + 1) <= n * (half + 1)) by (nonlinear_arith)
        requires n >= 1, half >= 0;
    assert((n - 1) + (n - 2) * half <= (n - 1) * (half + 1)) by (nonlinear_arith)
        requires half >= 0;
    lemma_stack_even(handles.skip(1), area, half);
    assert forall|i: int| 0 <= i < st.len() implies out[1 + i] == #[trigger] st[i] by {}
    lemma_stacked_over_slice(out, 1, st, p, half);
}


/// A single window fills the padded work area, in every layout.
pub proof fn lemma_one_window_fills<F: Fn(i32) -> i32>(
    scale: F,
    handles: Seq<usize>,
    work_area: Rect,
    gap: i32,
    share: int,
    out: Seq<(usize, Rect)>,
)
    requires
        handles.len() == 1,
        is_bsp_arrangement(scale, handles, padded_area(work_area, gap), true, gap, out),
    ensures
        out == seq![(handles[0], padded_area(work_area, gap))],
        vstack_tiles(handles, padded_area(work_area, gap), gap, share) == seq![(handles[0], padded_area(work_area, gap))],
        three_column_tiles(handles, padded_area(work_area, gap), gap, share) == seq![
            (handles[0], padded_area(work_area, gap)),
        ],
{
}

/// With two windows the three-column layout is the vertical stack: the
/// master on the left and the other window to its right (on any work area
/// whose coordinates stay inside `i32`).
pub proof fn lemma_three_column_two_is_vstack(handles: Seq<usize>, work_area: Rect, gap: i32, share: int)
    requires
        handles.len() == 2,
        layout_inputs_ok(2, work_area, gap),
    ensures
        three_column_tiles(handles, padded_area(work_area, gap), gap, share) == vstack_tiles(
            handles,
            padded_area(work_area, gap),
            gap,
            share,
        ),
{
    let p = padded_area(work_area, gap);
    let half = div_trunc(gap as int, 2);
    let area = side_pane(p, half, share);
    let st = stack_tiles(handles.skip(1), area, half);
    assert(p.height >= 1);
    assert(stack_tile(area, half, 1, 0) == area);
    assert(st[0] == (handles[1], area));
    assert(vstack_tiles(handles, p, gap, share) =~= three_column_tiles(handles, p, gap, share));
}
} // verus!
