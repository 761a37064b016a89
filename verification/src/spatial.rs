//! Spatial navigation helpers for tiled windows.
//!
//! These are pure functions over `(handle, Rect)` slices. The core
//! algorithm is the same for all four directions: filter candidates in
//! the requested direction that share perpendicular space, then pick
//! the physically nearest one by edge distance.

use vstd::prelude::*;
use crate::action::Direction;
use crate::rect::{max_int, Rect};

verus! {

pub open spec fn is_horizontal(d: Direction) -> bool {
    d is Left || d is Right
}

pub open spec fn is_positive(d: Direction) -> bool {
    d is Right || d is Down
}

/// The center of `r` lies beyond the center of `focused` in direction `d`.
pub open spec fn is_beyond(r: Rect, focused: Rect, d: Direction) -> bool {
    match d {
        Direction::Right => r.spec_center_x() > focused.spec_center_x(),
        Direction::Left => r.spec_center_x() < focused.spec_center_x(),
        Direction::Down => r.spec_center_y() > focused.spec_center_y(),
        Direction::Up => r.spec_center_y() < focused.spec_center_y(),
    }
}

/// `r` shares space with `focused` across the axis of travel.
pub open spec fn shares_span(r: Rect, focused: Rect, d: Direction) -> bool {
    if is_horizontal(d) {
        focused.spec_vertical_overlap(r) > 0
    } else {
        focused.spec_horizontal_overlap(r) > 0
    }
}

pub open spec fn is_candidate(r: Rect, focused: Rect, d: Direction) -> bool {
    is_beyond(r, focused, d) && shares_span(r, focused, d)
}

/// Gap between the facing edges of `focused` and `r` in direction `d`.
pub open spec fn edge_distance(r: Rect, focused: Rect, d: Direction) -> int {
    match d {
        Direction::Right => r.x - focused.right(),
        Direction::Left => focused.x - r.right(),
        Direction::Down => r.y - focused.bottom(),
        Direction::Up => focused.y - r.bottom(),
    }
}

/// The ranking of a candidate: nearest edge first, then the topmost
/// (horizontal travel) or leftmost (vertical travel) center.
pub open spec fn neighbor_key(r: Rect, focused: Rect, d: Direction) -> (int, int) {
    (
        max_int(edge_distance(r, focused, d), 0),
        if is_horizontal(d) {
            r.spec_center_y()
        } else {
            r.spec_center_x()
        },
    )
}

/// Lexicographic order on pairs of integers.
pub open spec fn key_lt(a: (int, int), b: (int, int)) -> bool {
    a.0 < b.0 || (a.0 == b.0 && a.1 < b.1)
}

/// Position `i` holds the first candidate of least rank.
pub open spec fn is_nearest(positions: Seq<(usize, Rect)>, focused: Rect, d: Direction, i: int) -> bool {
    &&& 0 <= i < positions.len()
    &&& is_candidate(positions[i].1, focused, d)
    &&& forall|j: int|
        0 <= j < positions.len() && is_candidate(#[trigger] positions[j].1, focused, d) ==> !key_lt(
            neighbor_key(positions[j].1, focused, d),
            neighbor_key(positions[i].1, focused, d),
        )
    &&& forall|j: int|
        0 <= j < i && is_candidate(#[trigger] positions[j].1, focused, d) ==> key_lt(
            neighbor_key(positions[i].1, focused, d),
            neighbor_key(positions[j].1, focused, d),
        )
}

pub open spec fn has_candidate(positions: Seq<(usize, Rect)>, focused: Rect, d: Direction) -> bool {
    exists|j: int| 0 <= j < positions.len() && is_candidate(#[trigger] positions[j].1, focused, d)
}

/// At most one position is the first candidate of least rank.
pub proof fn lemma_nearest_unique(positions: Seq<(usize, Rect)>, focused: Rect, d: Direction, i: int, k: int)
    requires
        is_nearest(positions, focused, d, i),
        is_nearest(positions, focused, d, k),
    ensures
        i == k,
{
    if i < k {
        assert(key_lt(neighbor_key(positions[i].1, focused, d), neighbor_key(positions[k].1, focused, d)) == false);
    } else if k < i {
        assert(key_lt(neighbor_key(positions[k].1, focused, d), neighbor_key(positions[i].1, focused, d)) == false);
    }
}

/// The horizontal center of `r`, computed without overflow.
fn center_x_wide(r: &Rect) -> (c: i64)
    ensures
        c == r.spec_center_x(),
{
    r.x as i64 + (r.width as i64) / 2
}

/// The vertical center of `r`, computed without overflow.
fn center_y_wide(r: &Rect) -> (c: i64)
    ensures
        c == r.spec_center_y(),
{
    r.y as i64 + (r.height as i64) / 2
}

fn is_candidate_exec(r: &Rect, focused: &Rect, d: Direction) -> (b: bool)
    ensures
        b == is_candidate(*r, *focused, d),
{
    let beyond = match d {
        Direction::Right => center_x_wide(r) > center_x_wide(focused),
        Direction::Left => center_x_wide(r) < center_x_wide(focused),
        Direction::Down => center_y_wide(r) > center_y_wide(focused),
        Direction::Up => center_y_wide(r) < center_y_wide(focused),
    };
    if !beyond {
        return false;
    }
    let (a0, a1, b0, b1) = match d {
        Direction::Left | Direction::Right => (
            focused.y as i64,
            focused.y as i64 + focused.height as i64,
            r.y as i64,
            r.y as i64 + r.height as i64,
        ),
        _ => (focused.x as i64, focused.x as i64 + focused.width as i64, r.x as i64, r.x as i64 + r.width as i64),
    };
    let lo = if a0 >= b0 { a0 } else { b0 };
    let hi = if a1 <= b1 { a1 } else { b1 };
    hi - lo > 0
}

fn neighbor_key_exec(r: &Rect, focused: &Rect, d: Direction) -> (k: (i64, i64))
    ensures
        k.0 as int == neighbor_key(*r, *focused, d).0,
        k.1 as int == neighbor_key(*r, *focused, d).1,
{
    let edge: i64 = match d {
        Direction::Right => r.x as i64 - (focused.x as i64 + focused.width as i64),
        Direction::Left => focused.x as i64 - (r.x as i64 + r.width as i64),
        Direction::Down => r.y as i64 - (focused.y as i64 + focused.height as i64),
        Direction::Up => focused.y as i64 - (r.y as i64 + r.height as i64),
    };
    let dist = if edge >= 0 { edge } else { 0 };
    let tie = match d {
        Direction::Left | Direction::Right => center_y_wide(r),
        _ => center_x_wide(r),
    };
    (dist, tie)
}

fn key_lt_exec(a: (i64, i64), b: (i64, i64)) -> (r: bool)
    ensures
        r == key_lt((a.0 as int, a.1 as int), (b.0 as int, b.1 as int)),
{
    a.0 < b.0 || (a.0 == b.0 && a.1 < b.1)
}

/// Finds the nearest neighbor in the given direction.
///
/// 1. Filter candidates whose center is beyond `focused` in the
///    requested direction, and that share perpendicular space.
/// 2. Pick the closest by edge distance (gap between touching edges).
/// 3. Break ties by the perpendicular axis (topmost for horizontal,
///    leftmost for vertical); among equal ranks the earliest wins.
pub fn find_neighbor(positions: &[(usize, Rect)], focused: &Rect, direction: Direction) -> (r: Option<usize>)
    ensures
        r is None <==> !has_candidate(positions@, *focused, direction),
        r matches Some(h) ==> exists|i: int|
            is_nearest(positions@, *focused, direction, i) && (#[trigger] positions@[i]).0 == h,
{
    let mut best: Option<usize> = None;
    let mut best_key: (i64, i64) = (0, 0);
    let mut j: usize = 0;
    while j < positions.len()
        invariant
            0 <= j <= positions.len(),
            best is None ==> forall|k: int| 0 <= k < j ==> !is_candidate(#[trigger] positions@[k].1, *focused, direction),
            best matches Some(b) ==> {
                &&& b < j
                &&& is_candidate(positions@[b as int].1, *focused, direction)
                &&& best_key.0 as int == neighbor_key(positions@[b as int].1, *focused, direction).0
                &&& best_key.1 as int == neighbor_key(positions@[b as int].1, *focused, direction).1
                &&& forall|k: int| 0 <= k < j && is_candidate(#[trigger] positions@[k].1, *focused, direction) ==> !key_lt(
                    neighbor_key(positions@[k].1, *focused, direction),
                    neighbor_key(positions@[b as int].1, *focused, direction),
                )
                &&& forall|k: int| 0 <= k < b && is_candidate(#[trigger] positions@[k].1, *focused, direction) ==> key_lt(
                    neighbor_key(positions@[b as int].1, *focused, direction),
                    neighbor_key(positions@[k].1, *focused, direction),
                )
            },
        decreases positions.len() - j,
    {
        let r = &positions[j].1;
        if is_candidate_exec(r, focused, direction) {
            let k = neighbor_key_exec(r, focused, direction);
            match best {
                None => {
                    best = Some(j);
                    best_key = k;
                },
                Some(_) => {
                    if key_lt_exec(k, best_key) {
                        best = Some(j);
                        best_key = k;
                    }
                },
            }
        }
        j = j + 1;
    }
    match best {
        None => {
            proof {
                if has_candidate(positions@, *focused, direction) {
                    let k = choose|k: int| 0 <= k < positions@.len() && is_candidate(#[trigger] positions@[k].1, *focused, direction);
                    assert(!is_candidate(positions@[k].1, *focused, direction));
                }
            }
            None
        },
        Some(b) => {
            assert(is_nearest(positions@, *focused, direction, b as int));
            assert(has_candidate(positions@, *focused, direction)) by {
                assert(0 <= b < positions@.len() && is_candidate(positions@[b as int].1, *focused, direction));
            }
            Some(positions[b].0)
        },
    }
}

/// The ranking used when entering a monitor: topmost center first, then
/// the center closest to the side the focus comes from.
pub open spec fn entry_key(r: Rect, d: Direction) -> (int, int) {
    (-r.spec_center_y(), if is_positive(d) {
        -r.spec_center_x()
    } else {
        r.spec_center_x()
    })
}

/// Position `i` holds the last window of greatest entry rank.
pub open spec fn is_entry(positions: Seq<(usize, Rect)>, d: Direction, i: int) -> bool {
    &&& 0 <= i < positions.len()
    &&& forall|j: int|
        0 <= j < positions.len() ==> !key_lt(entry_key(positions[i].1, d), entry_key(#[trigger] positions[j].1, d))
    &&& forall|j: int|
        i < j < positions.len() ==> key_lt(entry_key(#[trigger] positions[j].1, d), entry_key(positions[i].1, d))
}

/// At most one position is the last window of greatest entry rank.
pub proof fn lemma_entry_unique(positions: Seq<(usize, Rect)>, d: Direction, i: int, k: int)
    requires
        is_entry(positions, d, i),
        is_entry(positions, d, k),
    ensures
        i == k,
{
    if i < k {
        assert(key_lt(entry_key(positions[k].1, d), entry_key(positions[i].1, d)));
    } else if k < i {
        assert(key_lt(entry_key(positions[i].1, d), entry_key(positions[k].1, d)));
    }
}

fn entry_key_exec(r: &Rect, d: Direction) -> (k: (i64, i64))
    ensures
        k.0 as int == entry_key(*r, d).0,
        k.1 as int == entry_key(*r, d).1,
{
    let x = match d {
        Direction::Right | Direction::Down => -center_x_wide(r),
        _ => center_x_wide(r),
    };
    (-center_y_wide(r), x)
}

/// Finds the best window to focus when entering a monitor.
///
/// Picks the topmost window first, breaking ties by the edge closest
/// to the direction of travel (leftmost when entering from the left,
/// rightmost when entering from the right); among equal ranks the
/// last one wins.
pub fn find_entry(positions: &[(usize, Rect)], direction: Direction) -> (r: Option<usize>)
    ensures
        r is None <==> positions@.len() == 0,
        r matches Some(h) ==> exists|i: int| is_entry(positions@, direction, i) && (#[trigger] positions@[i]).0 == h,
{
    if positions.len() == 0 {
        return None;
    }
    let mut best: usize = 0;
    let mut best_key = entry_key_exec(&positions[0].1, direction);
    let mut j: usize = 1;
    while j < positions.len()
        invariant
            1 <= j <= positions.len(),
            best < j,
            best_key.0 as int == entry_key(positions@[best as int].1, direction).0,
            best_key.1 as int == entry_key(positions@[best as int].1, direction).1,
            forall|k: int|
                0 <= k < j ==> !key_lt(entry_key(positions@[best as int].1, direction), entry_key(#[trigger] positions@[k].1, direction)),
            forall|k: int|
                best < k < j ==> key_lt(entry_key(#[trigger] positions@[k].1, direction), entry_key(positions@[best as int].1, direction)),
        decreases positions.len() - j,
    {
        let k = entry_key_exec(&positions[j].1, direction);
        if !key_lt_exec(k, best_key) {
            best = j;
            best_key = k;
        }
        j = j + 1;
    }
    assert(is_entry(positions@, direction, best as int));
    Some(positions[best].0)
}

} // verus!
