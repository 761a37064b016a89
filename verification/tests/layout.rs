use mosaico_core::layout::{bsp_arrange, three_column_arrange, vertical_stack_arrange, LayoutKind};
use mosaico_core::{Layout, Rect};

/// Scales a length by a ratio the way the configured layouts do.
fn scale_by(ratio: f64) -> impl Fn(i32) -> i32 {
    move |w: i32| (w as f64 * ratio) as i32
}

struct BspLayout {
    gap: i32,
    ratio: f64,
}

impl Default for BspLayout {
    fn default() -> Self {
        Self { gap: 8, ratio: 0.5 }
    }
}

impl BspLayout {
    fn apply(&self, handles: &[usize], work_area: &Rect) -> Vec<(usize, Rect)> {
        mosaico_core::layout::BspLayout::new(self.gap, scale_by(self.ratio)).apply(handles, work_area)
    }
}

struct VerticalStackLayout {
    gap: i32,
    ratio: f64,
}

impl Default for VerticalStackLayout {
    fn default() -> Self {
        Self { gap: 8, ratio: 0.5 }
    }
}

impl VerticalStackLayout {
    fn apply(&self, handles: &[usize], work_area: &Rect) -> Vec<(usize, Rect)> {
        mosaico_core::layout::VerticalStackLayout::new(self.gap, scale_by(self.ratio)).apply(handles, work_area)
    }
}

struct ThreeColumnLayout {
    gap: i32,
    ratio: f64,
}

impl Default for ThreeColumnLayout {
    fn default() -> Self {
        Self { gap: 8, ratio: 0.5 }
    }
}

impl ThreeColumnLayout {
    fn apply(&self, handles: &[usize], work_area: &Rect) -> Vec<(usize, Rect)> {
        mosaico_core::layout::ThreeColumnLayout::new(self.gap, scale_by(self.ratio)).apply(handles, work_area)
    }
}

// -- BSP tests --

#[test]
fn tests_single_window_fills_work_area() {
    let layout = BspLayout { gap: 0, ratio: 0.5 };
    let area = Rect::new(0, 0, 1920, 1080);
    let result = layout.apply(&[1], &area);

    assert_eq!(result.len(), 1);
    assert_eq!(result[0], (1, Rect::new(0, 0, 1920, 1080)));
}

#[test]
fn tests_two_windows_split_horizontally() {
    let layout = BspLayout { gap: 0, ratio: 0.5 };
    let area = Rect::new(0, 0, 1920, 1080);
    let result = layout.apply(&[1, 2], &area);

    assert_eq!(result.len(), 2);
    assert_eq!(result[0], (1, Rect::new(0, 0, 960, 1080)));
    assert_eq!(result[1], (2, Rect::new(960, 0, 960, 1080)));
}

#[test]
fn tests_three_windows_bsp_split() {
    let layout = BspLayout { gap: 0, ratio: 0.5 };
    let area = Rect::new(0, 0, 1920, 1080);
    let result = layout.apply(&[1, 2, 3], &area);

    assert_eq!(result.len(), 3);
    assert_eq!(result[0], (1, Rect::new(0, 0, 960, 1080)));
    assert_eq!(result[1], (2, Rect::new(960, 0, 960, 540)));
    assert_eq!(result[2], (3, Rect::new(960, 540, 960, 540)));
}

#[test]
fn tests_empty_handles_returns_empty() {
    let layout = BspLayout::default();
    let area = Rect::new(0, 0, 1920, 1080);
    assert!(layout.apply(&[], &area).is_empty());
}

#[test]
fn tests_large_gap_never_produces_negative_dimensions() {
    let layout = BspLayout {
        gap: 500,
        ratio: 0.5,
    };
    let area = Rect::new(0, 0, 200, 200);
    let result = layout.apply(&[1, 2], &area);

    for (_hwnd, rect) in &result {
        assert!(rect.width > 0, "width was {}", rect.width);
        assert!(rect.height > 0, "height was {}", rect.height);
    }
}

// -- LayoutKind tests --

#[test]
fn tests_layout_kind_cycles() {
    assert_eq!(LayoutKind::Bsp.next(), LayoutKind::VerticalStack);
    assert_eq!(LayoutKind::VerticalStack.next(), LayoutKind::ThreeColumn);
    assert_eq!(LayoutKind::ThreeColumn.next(), LayoutKind::Bsp);
}

#[test]
fn tests_layout_kind_names() {
    assert_eq!(LayoutKind::Bsp.name(), "BSP");
    assert_eq!(LayoutKind::VerticalStack.name(), "VStack");
    assert_eq!(LayoutKind::ThreeColumn.name(), "3Col");
}

// -- VerticalStack tests --

#[test]
fn tests_vstack_single_window_fills_work_area() {
    let layout = VerticalStackLayout { gap: 0, ratio: 0.5 };
    let area = Rect::new(0, 0, 1920, 1080);
    let result = layout.apply(&[1], &area);

    assert_eq!(result.len(), 1);
    assert_eq!(result[0], (1, Rect::new(0, 0, 1920, 1080)));
}

#[test]
fn tests_vstack_two_windows_master_and_stack() {
    let layout = VerticalStackLayout { gap: 0, ratio: 0.5 };
    let area = Rect::new(0, 0, 1920, 1080);
    let result = layout.apply(&[1, 2], &area);

    assert_eq!(result.len(), 2);
    assert_eq!(result[0], (1, Rect::new(0, 0, 960, 1080)));
    assert_eq!(result[1], (2, Rect::new(960, 0, 960, 1080)));
}

#[test]
fn tests_vstack_three_windows_stack_splits_equally() {
    let layout = VerticalStackLayout { gap: 0, ratio: 0.5 };
    let area = Rect::new(0, 0, 1920, 1080);
    let result = layout.apply(&[1, 2, 3], &area);

    assert_eq!(result.len(), 3);
    assert_eq!(result[0], (1, Rect::new(0, 0, 960, 1080)));
    assert_eq!(result[1], (2, Rect::new(960, 0, 960, 540)));
    assert_eq!(result[2], (3, Rect::new(960, 540, 960, 540)));
}

#[test]
fn tests_vstack_five_windows() {
    let layout = VerticalStackLayout { gap: 0, ratio: 0.5 };
    let area = Rect::new(0, 0, 1920, 1080);
    let result = layout.apply(&[1, 2, 3, 4, 5], &area);

    assert_eq!(result.len(), 5);
    assert_eq!(result[0].1.width, 960);
    assert_eq!(result[0].1.height, 1080);
    for r in &result[1..] {
        assert_eq!(r.1.width, 960);
    }
    let stack_top = result[1].1.y;
    let stack_bottom = result[4].1.y + result[4].1.height;
    assert_eq!(stack_bottom - stack_top, 1080);
}

#[test]
fn tests_vstack_empty_returns_empty() {
    let layout = VerticalStackLayout::default();
    let area = Rect::new(0, 0, 1920, 1080);
    assert!(layout.apply(&[], &area).is_empty());
}

// -- ThreeColumn tests --

#[test]
fn three_col_single_window_fills_area() {
    let layout = ThreeColumnLayout { gap: 0, ratio: 0.5 };
    let area = Rect::new(0, 0, 1920, 1080);
    let result = layout.apply(&[1], &area);

    assert_eq!(result.len(), 1);
    assert_eq!(result[0], (1, Rect::new(0, 0, 1920, 1080)));
}

#[test]
fn three_col_two_windows_master_and_right() {
    let layout = ThreeColumnLayout { gap: 0, ratio: 0.5 };
    let area = Rect::new(0, 0, 1920, 1080);
    let result = layout.apply(&[1, 2], &area);

    assert_eq!(result.len(), 2);
    assert_eq!(result[0], (1, Rect::new(0, 0, 960, 1080)));
    assert_eq!(result[1], (2, Rect::new(960, 0, 960, 1080)));
}

#[test]
fn three_col_three_windows_center_master() {
    let layout = ThreeColumnLayout { gap: 0, ratio: 0.5 };
    let area = Rect::new(0, 0, 1920, 1080);
    let result = layout.apply(&[1, 2, 3], &area);

    assert_eq!(result.len(), 3);
    assert_eq!(result[0].0, 1);
    assert_eq!(result[0].1.width, 960);
    assert_eq!(result[1].0, 2);
    assert!(result[1].1.x < result[0].1.x);
    assert_eq!(result[2].0, 3);
    assert!(result[2].1.x > result[0].1.x);
}

#[test]
fn three_col_five_windows_alternates_sides() {
    let layout = ThreeColumnLayout { gap: 0, ratio: 0.5 };
    let area = Rect::new(0, 0, 1920, 1080);
    let result = layout.apply(&[1, 2, 3, 4, 5], &area);

    assert_eq!(result.len(), 5);
    assert_eq!(result[0].0, 1);
    assert_eq!(result[1].0, 2);
    assert_eq!(result[2].0, 4);
    assert_eq!(result[3].0, 3);
    assert_eq!(result[4].0, 5);
    let left_bottom = result[2].1.y + result[2].1.height;
    assert_eq!(left_bottom, 1080);
    let right_bottom = result[4].1.y + result[4].1.height;
    assert_eq!(right_bottom, 1080);
}

#[test]
fn three_col_empty_returns_empty() {
    let layout = ThreeColumnLayout::default();
    let area = Rect::new(0, 0, 1920, 1080);
    assert!(layout.apply(&[], &area).is_empty());
}

#[test]
fn layout_single_window_fills_work_area() {
    // Arrange
    let layout = BspLayout { gap: 0, ratio: 0.5 };
    let area = Rect::new(0, 0, 1920, 1080);

    // Act
    let result = layout.apply(&[1], &area);

    // Assert
    assert_eq!(result.len(), 1);
    assert_eq!(result[0], (1, Rect::new(0, 0, 1920, 1080)));
}

#[test]
fn layout_two_windows_split_horizontally() {
    // Arrange
    let layout = BspLayout { gap: 0, ratio: 0.5 };
    let area = Rect::new(0, 0, 1920, 1080);

    // Act
    let result = layout.apply(&[1, 2], &area);

    // Assert
    assert_eq!(result.len(), 2);
    assert_eq!(result[0], (1, Rect::new(0, 0, 960, 1080)));
    assert_eq!(result[1], (2, Rect::new(960, 0, 960, 1080)));
}

#[test]
fn layout_three_windows_bsp_split() {
    // Arrange
    let layout = BspLayout { gap: 0, ratio: 0.5 };
    let area = Rect::new(0, 0, 1920, 1080);

    // Act
    let result = layout.apply(&[1, 2, 3], &area);

    // Assert — first split horizontal, second vertical
    assert_eq!(result.len(), 3);
    assert_eq!(result[0], (1, Rect::new(0, 0, 960, 1080)));
    assert_eq!(result[1], (2, Rect::new(960, 0, 960, 540)));
    assert_eq!(result[2], (3, Rect::new(960, 540, 960, 540)));
}

#[test]
fn layout_empty_handles_returns_empty() {
    // Arrange
    let layout = BspLayout::default();
    let area = Rect::new(0, 0, 1920, 1080);

    // Act
    let result = layout.apply(&[], &area);

    // Assert
    assert!(result.is_empty());
}

#[test]
fn layout_large_gap_never_produces_negative_dimensions() {
    // Arrange — gap is larger than the work area
    let layout = BspLayout {
        gap: 500,
        ratio: 0.5,
    };
    let area = Rect::new(0, 0, 200, 200);

    // Act
    let result = layout.apply(&[1, 2], &area);

    // Assert — all dimensions must be positive
    for (_hwnd, rect) in &result {
        assert!(rect.width > 0, "width was {}", rect.width);
        assert!(rect.height > 0, "height was {}", rect.height);
    }
}

// -- LayoutKind tests --

#[test]
fn layout_layout_kind_names() {
    assert_eq!(LayoutKind::Bsp.name(), "BSP");
    assert_eq!(LayoutKind::VerticalStack.name(), "VStack");
}

// -- VerticalStack tests --

#[test]
fn layout_vstack_single_window_fills_work_area() {
    let layout = VerticalStackLayout { gap: 0, ratio: 0.5 };
    let area = Rect::new(0, 0, 1920, 1080);
    let result = layout.apply(&[1], &area);

    assert_eq!(result.len(), 1);
    assert_eq!(result[0], (1, Rect::new(0, 0, 1920, 1080)));
}

#[test]
fn layout_vstack_two_windows_master_and_stack() {
    let layout = VerticalStackLayout { gap: 0, ratio: 0.5 };
    let area = Rect::new(0, 0, 1920, 1080);
    let result = layout.apply(&[1, 2], &area);

    assert_eq!(result.len(), 2);
    assert_eq!(result[0], (1, Rect::new(0, 0, 960, 1080)));
    assert_eq!(result[1], (2, Rect::new(960, 0, 960, 1080)));
}

#[test]
fn layout_vstack_three_windows_stack_splits_equally() {
    let layout = VerticalStackLayout { gap: 0, ratio: 0.5 };
    let area = Rect::new(0, 0, 1920, 1080);
    let result = layout.apply(&[1, 2, 3], &area);

    assert_eq!(result.len(), 3);
    assert_eq!(result[0], (1, Rect::new(0, 0, 960, 1080)));
    assert_eq!(result[1], (2, Rect::new(960, 0, 960, 540)));
    assert_eq!(result[2], (3, Rect::new(960, 540, 960, 540)));
}

#[test]
fn layout_vstack_five_windows() {
    let layout = VerticalStackLayout { gap: 0, ratio: 0.5 };
    let area = Rect::new(0, 0, 1920, 1080);
    let result = layout.apply(&[1, 2, 3, 4, 5], &area);

    assert_eq!(result.len(), 5);
    // Master takes left half
    assert_eq!(result[0].1.width, 960);
    assert_eq!(result[0].1.height, 1080);
    // Stack windows all have same width
    for r in &result[1..] {
        assert_eq!(r.1.width, 960);
    }
    // Stack windows cover full height
    let stack_top = result[1].1.y;
    let stack_bottom = result[4].1.y + result[4].1.height;
    assert_eq!(stack_bottom - stack_top, 1080);
}

#[test]
fn layout_vstack_empty_returns_empty() {
    let layout = VerticalStackLayout::default();
    let area = Rect::new(0, 0, 1920, 1080);
    assert!(layout.apply(&[], &area).is_empty());
}

#[test]
fn negative_gap_overlaps_windows() {
    let layout = BspLayout { gap: -10, ratio: 0.5 };
    let area = Rect::new(0, 0, 1920, 1080);
    let result = layout.apply(&[1, 2], &area);
    // The padded area grows by 10 on each side; the halves overlap by 10.
    assert_eq!(result[0], (1, Rect::new(-10, -10, 975, 1100)));
    assert_eq!(result[1], (2, Rect::new(955, -10, 975, 1100)));

    let stack = VerticalStackLayout { gap: -4, ratio: 0.5 };
    let result = stack.apply(&[1, 2, 3], &area);
    assert_eq!(result.len(), 3);
    for (_, r) in &result {
        assert!(r.width > 0 && r.height > 0);
    }
    let bottom = result[2].1.y + result[2].1.height;
    assert_eq!(bottom, 1084);
}

#[test]
fn gap_shrinks_every_window() {
    let layout = BspLayout { gap: 8, ratio: 0.5 };
    let area = Rect::new(0, 0, 1920, 1080);
    let result = layout.apply(&[1, 2, 3], &area);
    assert_eq!(result[0], (1, Rect::new(8, 8, 948, 1064)));
    assert_eq!(result[1], (2, Rect::new(964, 8, 948, 528)));
    assert_eq!(result[2], (3, Rect::new(964, 544, 948, 528)));
}

#[test]
fn wide_work_area_lays_out_exactly() {
    let layout = BspLayout { gap: 8, ratio: 0.5 };
    let area = Rect::new(0, 0, 1 << 29, 1080);
    let result = layout.apply(&[1, 2], &area);
    assert_eq!(result[0], (1, Rect::new(8, 8, 268_435_444, 1064)));
    assert_eq!(result[1], (2, Rect::new(268_435_460, 8, 268_435_444, 1064)));
    let stack = VerticalStackLayout { gap: 8, ratio: 0.5 };
    let result = stack.apply(&[1, 2, 3], &Rect::new(1 << 30, 0, 1 << 29, 1080));
    assert_eq!(result.len(), 3);
    assert_eq!(result[2].1.y + result[2].1.height, 1072);
}

#[test]
fn three_column_places_every_window_once() {
    let area = Rect::new(0, 0, 1920, 1080);
    for n in 1..=9usize {
        let handles: Vec<usize> = (1..=n).collect();
        let result = three_column_arrange(&handles, &area, 8, &scale_by(0.5));
        let mut placed: Vec<usize> = result.iter().map(|(h, _)| *h).collect();
        placed.sort();
        assert_eq!(placed, handles);
    }
}
