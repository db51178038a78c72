use lint_lang::layout::selector_sections;
use lint_lang::layout::{band_height, band_margin, centered_rect, Area};
use ratatui::layout::{Constraint, Direction, Layout, Rect};

#[test]
fn band_keeps_two_rows_free_and_three_rows_at_least() {
    assert_eq!(band_height(10, 40), 10);
    assert_eq!(band_height(50, 40), 38);
    assert_eq!(band_height(1, 40), 3);
    assert_eq!(band_height(10, 1), 3);
    assert_eq!(band_margin(40, 10), 15);
    assert_eq!(band_margin(2, 3), 0);
}

#[test]
fn centered_band_matches_the_layout_solver() {
    let area = Area { x: 0, y: 0, width: 100, height: 40 };
    let r = centered_rect(88, 12, area);
    let rows = Layout::default()
        .direction(Direction::Vertical)
        .constraints([Constraint::Length(14), Constraint::Length(12), Constraint::Min(0)])
        .split(Rect::new(0, 0, 100, 40));
    let cols = Layout::default()
        .direction(Direction::Horizontal)
        .constraints([Constraint::Percentage(6), Constraint::Percentage(88), Constraint::Percentage(6)])
        .split(rows[1]);
    assert_eq!((r.x, r.y, r.width, r.height), (cols[1].x, cols[1].y, cols[1].width, cols[1].height));
    assert_eq!(r.height, 12);
    assert!(r.y > 0 && r.width < 100);
}

#[test]
fn selector_sections_stack_inside_the_band() {
    let band = Area { x: 6, y: 10, width: 88, height: 20 };
    let (head, list, foot) = selector_sections(band);
    assert_eq!((head.y, head.height), (10, 3));
    assert_eq!((foot.y, foot.height), (28, 2));
    assert_eq!((list.y, list.height), (13, 15));
    assert!(head.x == 6 && list.width == 88 && foot.width == 88);
}

#[test]
fn centered_band_is_placed_exactly() {
    let area = Area { x: 0, y: 0, width: 100, height: 40 };
    let r = centered_rect(88, 12, area);
    assert_eq!((r.x, r.y, r.width, r.height), (6, 14, 88, 12));
}

#[test]
fn centered_band_rounds_the_column_edges() {
    let area = Area { x: 10, y: 5, width: 50, height: 20 };
    let r = centered_rect(87, 30, area);
    // rows: 18 high (two rows kept free), one row down
    assert_eq!((r.y, r.height), (6, 18));
    // columns: 6% of 50 is 3; 93% of 50 is 46.5, rounded up to 47
    assert_eq!((r.x, r.width), (13, 44));
    let cols = Layout::default()
        .direction(Direction::Horizontal)
        .constraints([Constraint::Percentage(6), Constraint::Percentage(87), Constraint::Percentage(6)])
        .split(Rect::new(10, 6, 50, 18));
    assert_eq!((cols[1].x, cols[1].width), (13, 44));
}

#[test]
fn centered_band_on_a_tiny_screen_stays_inside() {
    let area = Area { x: 0, y: 0, width: 10, height: 3 };
    let r = centered_rect(88, 12, area);
    assert_eq!((r.y, r.height), (0, 3));
    assert!(r.x + r.width <= 10);
}

#[test]
fn selector_sections_on_the_smallest_band() {
    let band = Area { x: 0, y: 4, width: 30, height: 8 };
    let (head, list, foot) = selector_sections(band);
    assert_eq!((head.y, head.height), (4, 3));
    assert_eq!((list.y, list.height), (7, 3));
    assert_eq!((foot.y, foot.height), (10, 2));
}
