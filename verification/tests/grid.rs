use aurora::geometry::{Point, Rectangle, Size, Transform};
use aurora::grid::{thumbnail_grid, MAX_ELEMENTS_PER_ROW, PREVIEW_PADDING};
use aurora::layout::LayoutError;
use aurora::output::{Mode, Output};
use aurora::renderer::{space_preview_elements, PreviewElement};
use aurora::shell::{MappedWindow, WindowElement};

fn cell(x: i32, y: i32, w: i32, h: i32) -> Rectangle {
    Rectangle::new(Point::new(x, y), Size::new(w, h))
}

fn mapped(id: u64) -> MappedWindow {
    MappedWindow {
        window: WindowElement { id, alive: true, bbox: cell(0, 0, 100, 100) },
        location: Point::new(0, 0),
    }
}

fn columns_and_rows(cells: &[Rectangle]) -> (usize, usize) {
    let mut xs: Vec<i32> = cells.iter().map(|c| c.loc.x).collect();
    let mut ys: Vec<i32> = cells.iter().map(|c| c.loc.y).collect();
    xs.sort();
    xs.dedup();
    ys.sort();
    ys.dedup();
    (xs.len(), ys.len())
}

#[test]
fn defaults_of_the_grid() {
    assert_eq!(PREVIEW_PADDING, 10);
    assert_eq!(MAX_ELEMENTS_PER_ROW, 4);
}

#[test]
fn five_previews_on_full_hd() {
    let cells = thumbnail_grid(5, Size::new(1920, 1080), 10, 4).unwrap();
    assert_eq!(
        cells,
        vec![
            cell(10, 10, 460, 520),
            cell(480, 10, 460, 520),
            cell(950, 10, 460, 520),
            cell(1420, 10, 460, 520),
            cell(10, 540, 460, 520),
        ]
    );
}

#[test]
fn one_preview_fills_the_output_less_the_padding() {
    assert_eq!(thumbnail_grid(1, Size::new(1920, 1080), 10, 4).unwrap(), vec![cell(10, 10, 1900, 1060)]);
}

#[test]
fn no_preview_for_no_element() {
    assert_eq!(thumbnail_grid(0, Size::new(1920, 1080), 10, 4), Ok(Vec::new()));
    assert_eq!(thumbnail_grid(0, Size::new(i32::MAX, i32::MIN), i32::MAX, 1), Ok(Vec::new()));
}

#[test]
fn up_to_four_previews_stand_in_one_row() {
    for n in 1..=4usize {
        let cells = thumbnail_grid(n, Size::new(1920, 1080), 10, 4).unwrap();
        assert_eq!(cells.len(), n);
        assert_eq!(columns_and_rows(&cells), (n, 1));
    }
}

#[test]
fn five_to_eight_previews_stand_in_two_rows_of_four() {
    for n in 5..=8usize {
        let cells = thumbnail_grid(n, Size::new(1920, 1080), 10, 4).unwrap();
        assert_eq!(cells.len(), n);
        assert_eq!(columns_and_rows(&cells), (4, 2));
    }
}

#[test]
fn nine_previews_take_three_rows() {
    let cells = thumbnail_grid(9, Size::new(1920, 1080), 10, 4).unwrap();
    assert_eq!(columns_and_rows(&cells), (4, 3));
    assert_eq!(cells[8], cell(10, 710, 460, 340));
}

#[test]
fn shares_are_rounded_to_the_nearest_unit() {
    // 1000 / 3 = 333.3 and 1001 / 2 = 500.5, which rounds away from zero.
    let cells = thumbnail_grid(3, Size::new(1000, 100), 0, 4).unwrap();
    assert_eq!(cells, vec![cell(0, 0, 333, 100), cell(333, 0, 333, 100), cell(666, 0, 333, 100)]);
    let cells = thumbnail_grid(2, Size::new(1001, 100), 0, 4).unwrap();
    assert_eq!(cells, vec![cell(0, 0, 501, 100), cell(501, 0, 501, 100)]);
    let cells = thumbnail_grid(2, Size::new(1001, 101), 1, 1).unwrap();
    assert_eq!(cells, vec![cell(1, 1, 999, 49), cell(1, 51, 999, 49)]);
}

#[test]
fn share_of_a_negative_size_rounds_away_from_zero() {
    let cells = thumbnail_grid(2, Size::new(-3, -5), 0, 2).unwrap();
    assert_eq!(cells, vec![cell(0, 0, -2, -5), cell(-2, 0, -2, -5)]);
}

#[test]
fn other_limits_of_a_row() {
    let cells = thumbnail_grid(3, Size::new(100, 90), 5, 2).unwrap();
    assert_eq!(cells, vec![cell(5, 5, 40, 35), cell(50, 5, 40, 35), cell(5, 45, 40, 35)]);
    let cells = thumbnail_grid(3, Size::new(100, 90), 5, 1).unwrap();
    assert_eq!(cells, vec![cell(5, 5, 90, 20), cell(5, 30, 90, 20), cell(5, 55, 90, 20)]);
}

#[test]
fn cells_do_not_overlap_and_stay_within_the_output() {
    for n in 1..=13usize {
        for (w, h) in [(1920, 1080), (1366, 768), (801, 601), (333, 777)] {
            let cells = thumbnail_grid(n, Size::new(w, h), 10, 4).unwrap();
            for (i, a) in cells.iter().enumerate() {
                assert!(a.size.w >= 0 && a.size.h >= 0);
                assert!(a.loc.x >= 10 && a.loc.y >= 10);
                assert!(a.loc.x + a.size.w <= w - 10);
                assert!(a.loc.y + a.size.h <= h - 10);
                for b in cells.iter().skip(i + 1) {
                    let apart = a.loc.x + a.size.w <= b.loc.x
                        || b.loc.x + b.size.w <= a.loc.x
                        || a.loc.y + a.size.h <= b.loc.y
                        || b.loc.y + b.size.h <= a.loc.y;
                    assert!(apart);
                    assert!(!a.overlaps(*b));
                }
            }
        }
    }
}

#[test]
fn without_padding_a_cell_can_leave_the_output() {
    let cells = thumbnail_grid(2, Size::new(3, 10), 0, 4).unwrap();
    assert_eq!(cells, vec![cell(0, 0, 2, 10), cell(2, 0, 2, 10)]);
}

#[test]
fn grid_beyond_the_range_of_coordinates_is_refused() {
    assert_eq!(thumbnail_grid(1, Size::new(1920, 1080), i32::MAX, 4), Err(LayoutError::Overflow));
    assert_eq!(thumbnail_grid(2, Size::new(i32::MIN, 0), 10, 1), Err(LayoutError::Overflow));
    assert_eq!(thumbnail_grid(4, Size::new(100, 100), i32::MIN / 2, 4), Err(LayoutError::Overflow));
    assert!(thumbnail_grid(4, Size::new(i32::MAX, i32::MAX), 10, 4).is_ok());
}

#[test]
fn previews_follow_the_order_of_the_windows() {
    let space = vec![mapped(11), mapped(12), mapped(13), mapped(14), mapped(15)];
    let output =
        Output::new(Point::new(0, 0), Some(Mode { size: Size::new(1920, 1080), refresh: 60_000 }), Transform::Normal, 1);
    let previews = space_preview_elements(&space, &output).unwrap();
    assert_eq!(
        previews,
        vec![
            PreviewElement { window: 11, constrain: cell(10, 10, 460, 520) },
            PreviewElement { window: 12, constrain: cell(480, 10, 460, 520) },
            PreviewElement { window: 13, constrain: cell(950, 10, 460, 520) },
            PreviewElement { window: 14, constrain: cell(1420, 10, 460, 520) },
            PreviewElement { window: 15, constrain: cell(10, 540, 460, 520) },
        ]
    );
}

#[test]
fn previews_go_by_the_logical_size_of_the_output() {
    let space = vec![mapped(1), mapped(2)];
    let turned =
        Output::new(Point::new(50, 50), Some(Mode { size: Size::new(2160, 3840), refresh: 60_000 }), Transform::_90, 2);
    let previews = space_preview_elements(&space, &turned).unwrap();
    assert_eq!(
        previews,
        vec![
            PreviewElement { window: 1, constrain: cell(10, 10, 940, 1060) },
            PreviewElement { window: 2, constrain: cell(960, 10, 940, 1060) },
        ]
    );
}

#[test]
fn previews_on_an_output_without_mode_have_no_room() {
    let blank = Output::new(Point::new(0, 0), None, Transform::Normal, 1);
    let previews = space_preview_elements(&vec![mapped(1)], &blank).unwrap();
    assert_eq!(previews, vec![PreviewElement { window: 1, constrain: cell(10, 10, -20, -20) }]);
    assert_eq!(space_preview_elements(&Vec::new(), &blank), Ok(Vec::new()));
}
