use niri_screencast::ui::picker::grid::{
    card_grid_dimensions, card_layout, count_rows, effective_scroll_row, CardCell, PanelGrid,
};

const CARD_GAP: f64 = 14.;
const CARD_MIN_WIDTH: f64 = 260.;
const CARD_SINGLE_MAX_WIDTH: f64 = 640.;
const CARD_FOOTER_HEIGHT: f64 = 48.;
const CARD_MIN_PREVIEW_HEIGHT: f64 = 96.;

/// The padding, the top of the cards and the space below them.
fn metrics(height: f64) -> (f64, f64, f64) {
    if height < 520. {
        (12., 124., 8.)
    } else {
        (24., 198., 24.)
    }
}

/// What a panel of the given size leaves room for.
fn grid(width: f64, height: f64) -> PanelGrid {
    let (padding, top, bottom) = metrics(height);
    let available_width = (width - padding * 2.).max(1.);
    let available_height = (height - top - bottom).max(1.);
    let card_min_height = CARD_MIN_PREVIEW_HEIGHT + CARD_FOOTER_HEIGHT + 12.;
    let fits = |rows: f64| available_height >= card_min_height * rows + CARD_GAP * (rows - 1.);
    PanelGrid {
        columns_by_width: ((available_width + CARD_GAP) / (CARD_MIN_WIDTH + CARD_GAP)).floor()
            as usize,
        fits_two_rows: fits(2.),
        fits_three_rows: fits(3.),
    }
}

/// Where the cards stand on a panel of the given size: their candidate, and x, y, width, height.
fn rects(
    width: f64,
    height: f64,
    count: usize,
    selected: usize,
    scroll_row: usize,
) -> Vec<(usize, [f64; 4])> {
    let (padding, top, bottom) = metrics(height);
    let grid = grid(width, height);
    let cells = card_layout(&grid, count, selected, scroll_row);
    let (columns, rows) = card_grid_dimensions(&grid, count);
    let rows = rows.min(count_rows(count, columns));
    let available_width = (width - padding * 2.).max(1.);
    let available_height = (height - top - bottom).max(1.);
    let mut card_width = (available_width - CARD_GAP * (columns - 1) as f64) / columns as f64;
    if count == 1 {
        card_width = card_width.min(CARD_SINGLE_MAX_WIDTH);
    }
    let max_height = (available_height - CARD_GAP * (rows - 1) as f64) / rows as f64;
    let card_height = (card_width * 9. / 16. + CARD_FOOTER_HEIGHT + 16.)
        .max(CARD_MIN_PREVIEW_HEIGHT + CARD_FOOTER_HEIGHT + 12.)
        .min(max_height)
        .max(1.);
    cells
        .iter()
        .map(|cell| {
            let in_row = cell.row_count as f64;
            let row_width = card_width * in_row + CARD_GAP * (in_row - 1.);
            let x = padding
                + (available_width - row_width) / 2.
                + (card_width + CARD_GAP) * cell.column as f64;
            let y = top + (card_height + CARD_GAP) * cell.row as f64;
            (cell.index, [x, y, card_width, card_height])
        })
        .collect()
}

fn preview_height(rect: [f64; 4]) -> f64 {
    (rect[3] - CARD_FOOTER_HEIGHT - 12.).max(1.)
}

#[test]
fn single_candidate_is_centered() {
    let layout = rects(1040., 760., 1, 0, 0);
    let rect = layout[0].1;

    assert!((rect[0] + rect[2] / 2. - 1040. / 2.).abs() < 0.001);
}

#[test]
fn incomplete_rows_are_centered() {
    let layout = rects(1040., 760., 5, 0, 0);

    assert_eq!(layout.len(), 5);
    assert!(layout[3].1[0] > layout[0].1[0]);
    assert_eq!(layout[3].1[1], layout[4].1[1]);
}

#[test]
fn nine_candidates_fit_and_larger_lists_scroll() {
    let layout = rects(1040., 760., 9, 0, 0);
    assert_eq!(layout.len(), 9);
    assert_eq!(layout[8].0, 8);

    let layout = rects(1040., 760., 10, 9, 0);
    assert_eq!(layout.len(), 7);
    assert_eq!(layout[0].0, 3);
    assert!(layout.iter().any(|(index, _)| *index == 9));
}

#[test]
fn narrow_panels_reduce_the_column_count() {
    let layout = rects(600., 760., 6, 0, 0);

    assert_eq!(layout.len(), 6);
}

#[test]
fn short_panels_use_one_visible_row() {
    let layout = rects(600., 312., 6, 0, 0);

    assert_eq!(layout.len(), 2);
    assert!(preview_height(layout[0].1) >= CARD_MIN_PREVIEW_HEIGHT);
}

#[test]
fn medium_panels_only_use_rows_that_fit_the_minimum_preview_height() {
    let layout = rects(1040., 672., 9, 0, 0);

    assert_eq!(layout.len(), 6);
    assert!(preview_height(layout[0].1) >= CARD_MIN_PREVIEW_HEIGHT);
}

#[test]
fn narrow_panels_preserve_the_minimum_preview_height() {
    let layout = rects(192., 752., 9, 0, 0);

    assert_eq!(layout.len(), 3);
    assert!(preview_height(layout[0].1) >= CARD_MIN_PREVIEW_HEIGHT);
}

#[test]
fn manual_scroll_does_not_snap_back_to_the_selection() {
    let layout = rects(1040., 760., 12, 3, 1);

    assert_eq!(layout[0].0, 3);
    assert!(!layout.iter().any(|(index, _)| *index == 0));
}

#[test]
fn columns_follow_the_number_of_candidates() {
    let wide = PanelGrid {
        columns_by_width: 10,
        fits_two_rows: true,
        fits_three_rows: true,
    };
    let columns: Vec<usize> = [0, 1, 2, 4, 5, 100]
        .iter()
        .map(|count| card_grid_dimensions(&wide, *count).0)
        .collect();
    assert_eq!(columns, [3, 1, 2, 2, 3, 3]);
    let none = PanelGrid {
        columns_by_width: 0,
        fits_two_rows: false,
        fits_three_rows: false,
    };
    assert_eq!(card_grid_dimensions(&none, 9), (1, 1));
}

#[test]
fn cells_know_their_place() {
    let grid = PanelGrid {
        columns_by_width: 3,
        fits_two_rows: true,
        fits_three_rows: false,
    };
    let cells = card_layout(&grid, 8, 7, 0);
    assert_eq!(
        cells[0],
        CardCell {
            index: 3,
            row: 0,
            column: 0,
            row_count: 3
        }
    );
    assert_eq!(
        cells[4],
        CardCell {
            index: 7,
            row: 1,
            column: 1,
            row_count: 2
        }
    );
    assert_eq!(cells.len(), 5);
    assert!(card_layout(&grid, 0, 0, 0).is_empty());
}

#[test]
fn the_view_moves_as_little_as_needed() {
    // Ten cards in three columns take four rows.
    assert_eq!(count_rows(10, 3), 4);
    assert_eq!(effective_scroll_row(10, 0, 3, 2, 9), 0);
    assert_eq!(effective_scroll_row(10, 9, 3, 2, 9), 2);
    assert_eq!(effective_scroll_row(10, 9, 3, 2, 0), 2);
    assert_eq!(effective_scroll_row(10, 4, 3, 2, 1), 1);
    assert_eq!(effective_scroll_row(10, 99, 3, 2, 0), 2);
    assert_eq!(effective_scroll_row(0, 0, 3, 2, 5), 0);
}
