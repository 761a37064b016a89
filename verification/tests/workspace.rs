use mosaico_core::layout::BspLayout;
use mosaico_core::{Layout, Rect, Workspace};

/// A BSP layout with the given gap and split ratio.
fn bsp_layout(gap: i32, ratio: f64) -> BspLayout<impl Fn(i32) -> i32> {
    BspLayout::new(gap, move |w: i32| (w as f64 * ratio) as i32)
}

#[test]
fn add_and_remove_windows() {
    // Arrange
    let mut ws = Workspace::new();

    // Act
    assert!(ws.add(1));
    assert!(ws.add(2));
    assert!(!ws.add(1)); // duplicate

    // Assert
    assert_eq!(ws.len(), 2);
    assert!(ws.contains(1));
    assert!(ws.remove(1));
    assert_eq!(ws.len(), 1);
    assert!(!ws.contains(1));
}

#[test]
fn insert_at_position() {
    let mut ws = Workspace::new();
    ws.add(1);
    ws.add(2);

    // Insert at front
    assert!(ws.insert(0, 3));
    assert_eq!(ws.handles(), &[3, 1, 2]);

    // Duplicate rejected
    assert!(!ws.insert(0, 1));

    // Index clamped to len
    assert!(ws.insert(100, 4));
    assert_eq!(ws.handles(), &[3, 1, 2, 4]);
}

#[test]
fn compute_layout_delegates_to_layout() {
    // Arrange
    let mut ws = Workspace::new();
    ws.add(100);
    ws.add(200);
    let layout = bsp_layout(0, 0.5);
    let area = Rect::new(0, 0, 1920, 1080);

    // Act
    let positions = ws.compute_layout(&layout, &area);

    // Assert
    assert_eq!(positions.len(), 2);
    assert_eq!(positions[0].0, 100);
    assert_eq!(positions[1].0, 200);
}


#[test]
fn add_then_remove_restores_handles() {
    let mut ws = Workspace::new();
    ws.add(10);
    ws.add(20);
    let before = ws.handles().to_vec();
    assert!(ws.add(30));
    assert!(ws.remove(30));
    assert_eq!(ws.handles(), before.as_slice());

    assert!(ws.insert(1, 40));
    assert_eq!(ws.handles(), &[10, 40, 20]);
    assert!(ws.remove(40));
    assert_eq!(ws.handles(), before.as_slice());
}

#[test]
fn remove_unknown_window_changes_nothing() {
    let mut ws = Workspace::default();
    ws.add(1);
    assert!(!ws.remove(2));
    assert_eq!(ws.handles(), &[1]);
    assert!(ws.remove(1));
    assert!(ws.is_empty());
}

#[test]
fn swap_twice_is_identity() {
    let mut ws = Workspace::new();
    ws.add(1);
    ws.add(2);
    ws.add(3);
    ws.swap(0, 2);
    assert_eq!(ws.handles(), &[3, 2, 1]);
    ws.swap(0, 2);
    assert_eq!(ws.handles(), &[1, 2, 3]);
    // Out-of-range indices are ignored.
    ws.swap(0, 3);
    assert_eq!(ws.handles(), &[1, 2, 3]);
}

#[test]
fn index_of_and_contains() {
    let mut ws = Workspace::new();
    ws.add(7);
    ws.add(9);
    assert_eq!(ws.index_of(9), Some(1));
    assert_eq!(ws.index_of(8), None);
    assert!(ws.contains(7));
    assert!(!ws.contains(8));
    assert_eq!(ws.len(), 2);
}

#[test]
fn monocle_state_is_independent_of_handles() {
    let mut ws = Workspace::new();
    assert!(!ws.monocle());
    assert_eq!(ws.monocle_window(), None);
    ws.add(5);
    ws.set_monocle(true);
    ws.set_monocle_window(Some(5));
    assert!(ws.monocle());
    assert_eq!(ws.monocle_window(), Some(5));
    assert_eq!(ws.handles(), &[5]);
    ws.set_monocle(false);
    assert!(!ws.monocle());
    assert_eq!(ws.monocle_window(), Some(5));
}

#[test]
fn compute_layout_returns_what_the_layout_gives_for_the_area() {
    let mut ws = Workspace::new();
    ws.add(7);
    ws.add(8);
    ws.add(9);
    let layout = bsp_layout(8, 0.5);
    let area = Rect::new(100, 50, 1600, 900);
    let positions = ws.compute_layout(&layout, &area);
    assert_eq!(positions, layout.apply(ws.handles(), &area));
    assert_ne!(positions, layout.apply(ws.handles(), &Rect::new(0, 0, 1, 1)));
}
