//! The grid of cards: how many fit, which ones are shown, and in which cell each stands.

use vstd::prelude::*;

verus! {

/// The largest number of cards side by side.
pub const CARD_MAX_COLUMNS: usize = 3;

/// The largest number of rows of cards.
pub const CARD_MAX_ROWS: usize = 3;

/// What the size of the panel leaves room for.
#[derive(Clone, Copy, Debug, PartialEq, Eq, Structural)]
pub struct PanelGrid {
    /// How many cards of the minimum width fit side by side.
    pub columns_by_width: usize,
    /// Whether two rows of the minimum height fit.
    pub fits_two_rows: bool,
    /// Whether three rows of the minimum height fit.
    pub fits_three_rows: bool,
}

impl PanelGrid {
    /// How many columns `count` cards are laid out in.
    pub open spec fn columns(self, count: nat) -> nat {
        let room: nat = if self.columns_by_width < 1 {
            1
        } else if self.columns_by_width > CARD_MAX_COLUMNS {
            CARD_MAX_COLUMNS as nat
        } else {
            self.columns_by_width as nat
        };
        let desired: nat = if count == 1 {
            1
        } else if 2 <= count <= 4 {
            2
        } else {
            3
        };
        if desired < room {
            desired
        } else {
            room
        }
    }

    /// How many rows fit. One is always shown.
    pub open spec fn rows(self) -> nat {
        if self.fits_three_rows {
            3
        } else if self.fits_two_rows {
            2
        } else {
            1
        }
    }
}

/// How many columns `count` cards are laid out in, and how many rows fit.
pub fn card_grid_dimensions(grid: &PanelGrid, count: usize) -> (r: (usize, usize))
    ensures
        r.0 == grid.columns(count as nat),
        r.1 == grid.rows(),
        1 <= r.0 <= CARD_MAX_COLUMNS,
        1 <= r.1 <= CARD_MAX_ROWS,
{
    let room: usize = if grid.columns_by_width < 1 {
        1
    } else if grid.columns_by_width > CARD_MAX_COLUMNS {
        CARD_MAX_COLUMNS
    } else {
        grid.columns_by_width
    };
    let desired: usize = if count == 1 {
        1
    } else if 2 <= count && count <= 4 {
        2
    } else {
        3
    };
    let columns: usize = if desired < room {
        desired
    } else {
        room
    };
    let rows: usize = if grid.fits_three_rows {
        3
    } else if grid.fits_two_rows {
        2
    } else {
        1
    };
    (columns, rows)
}

/// How many rows `count` cards take.
pub open spec fn rows_for(count: nat, columns: nat) -> nat {
    if count % columns == 0 {
        count / columns
    } else {
        count / columns + 1
    }
}

/// The last row that the view can start at.
pub open spec fn last_start(count: nat, columns: nat, rows: nat) -> nat {
    if rows_for(count, columns) > rows {
        (rows_for(count, columns) - rows) as nat
    } else {
        0
    }
}

/// The row that card `index` stands in, where indices past the end count as the last card.
pub open spec fn row_of(index: nat, count: nat, columns: nat) -> nat {
    if index < count {
        index / columns
    } else {
        (count - 1) as nat / columns
    }
}

/// The first visible row: the wanted one, moved as little as needed so that the view does not
/// run past the end and the selected card is visible.
pub open spec fn first_row(
    count: nat,
    selected: nat,
    columns: nat,
    rows: nat,
    wanted: nat,
) -> nat {
    let last = last_start(count, columns, rows);
    let start = if wanted < last {
        wanted
    } else {
        last
    };
    let row = row_of(selected, count, columns);
    if count == 0 {
        start
    } else if row < start {
        row
    } else if row >= start + rows {
        if row + 1 - rows < last {
            (row + 1 - rows) as nat
        } else {
            last
        }
    } else {
        start
    }
}

/// A quotient and its remainder give the number back.
pub(crate) proof fn quotient_bounds(n: nat, d: nat)
    requires
        d > 0,
    ensures
        n / d <= n,
        n == d * (n / d) + n % d,
        0 <= n % d < d,
{
    vstd::arithmetic::div_mod::lemma_fundamental_div_mod(n as int, d as int);
    vstd::arithmetic::div_mod::lemma_mod_bound(n as int, d as int);
    assert(n / d <= n) by (nonlinear_arith)
        requires
            d > 0,
    ;
}

proof fn quotient_is_monotone(a: nat, b: nat, d: nat)
    requires
        a <= b,
        d > 0,
    ensures
        a / d <= b / d,
{
    vstd::arithmetic::div_mod::lemma_div_is_ordered(a as int, b as int, d as int);
}

/// The last card stands in the last row.
pub(crate) proof fn rows_bound(count: nat, columns: nat)
    requires
        columns > 0,
        count > 0,
    ensures
        (count - 1) as nat / columns + 1 == rows_for(count, columns),
        rows_for(count, columns) <= count,
{
    let q = count / columns;
    let r = count % columns;
    quotient_bounds(count, columns);
    if r == 0 {
        assert(q > 0) by (nonlinear_arith)
            requires
                count == columns * q + r,
                r == 0,
                count > 0,
        ;
        assert((count - 1) == columns * (q - 1) + (columns - 1)) by (nonlinear_arith)
            requires
                count == columns * q + r,
                r == 0,
        ;
        vstd::arithmetic::div_mod::lemma_fundamental_div_mod_converse(
            count - 1,
            columns as int,
            q - 1,
            columns - 1,
        );
    } else {
        assert((count - 1) == columns * q + (r - 1)) by (nonlinear_arith)
            requires
                count == columns * q + r,
        ;
        vstd::arithmetic::div_mod::lemma_fundamental_div_mod_converse(
            count - 1,
            columns as int,
            q as int,
            r - 1,
        );
        assert(q <= count - 1) by (nonlinear_arith)
            requires
                count == columns * q + r,
                r >= 1,
                columns >= 1,
        ;
    }
}

/// How many rows `count` cards take.
pub fn count_rows(count: usize, columns: usize) -> (r: usize)
    requires
        columns > 0,
    ensures
        r == rows_for(count as nat, columns as nat),
        r <= count,
{
    proof {
        if count > 0 {
            rows_bound(count as nat, columns as nat);
        }
        quotient_bounds(count as nat, columns as nat);
    }
    if count % columns == 0 {
        count / columns
    } else {
        count / columns + 1
    }
}

/// The first visible row.
pub fn effective_scroll_row(
    candidate_count: usize,
    selected: usize,
    columns: usize,
    visible_rows: usize,
    scroll_row: usize,
) -> (row: usize)
    requires
        columns > 0,
    ensures
        row == first_row(
            candidate_count as nat,
            selected as nat,
            columns as nat,
            visible_rows as nat,
            scroll_row as nat,
        ),
{
    let total_rows: usize = count_rows(candidate_count, columns);
    let max_scroll_row: usize = if total_rows > visible_rows {
        total_rows - visible_rows
    } else {
        0
    };
    let start: usize = if scroll_row < max_scroll_row {
        scroll_row
    } else {
        max_scroll_row
    };
    if candidate_count == 0 {
        return start;
    }
    let selected: usize = if selected < candidate_count {
        selected
    } else {
        candidate_count - 1
    };
    let selected_row: usize = selected / columns;
    proof {
        rows_bound(candidate_count as nat, columns as nat);
        quotient_is_monotone(
            selected as nat,
            (candidate_count - 1) as nat,
            columns as nat,
        );
    }
    if selected_row < start {
        selected_row
    } else if selected_row >= start + visible_rows {
        let row: usize = selected_row + 1 - visible_rows;
        if row < max_scroll_row {
            row
        } else {
            max_scroll_row
        }
    } else {
        start
    }
}

/// The cell that a visible card stands in.
#[derive(Clone, Copy, Debug, PartialEq, Eq, Structural)]
pub struct CardCell {
    /// Which candidate the card shows.
    pub index: usize,
    /// The visible row, from the top.
    pub row: usize,
    /// The column, from the left.
    pub column: usize,
    /// How many cards stand in this row.
    pub row_count: usize,
}

/// The first visible card.
pub open spec fn first_card(grid: PanelGrid, count: nat, selected: nat, wanted: nat) -> nat {
    first_row(count, selected, grid.columns(count), grid.rows(), wanted) * grid.columns(count)
}

/// How many cards are visible.
pub open spec fn visible_cards(grid: PanelGrid, count: nat, selected: nat, wanted: nat) -> nat {
    let left = count - first_card(grid, count, selected, wanted);
    let room = grid.rows() * grid.columns(count);
    if count == 0 {
        0
    } else if left < room {
        left as nat
    } else {
        room
    }
}

/// The cell of the visible card `k` out of `visible` cards, of which the first one shows the
/// candidate `first`.
pub open spec fn cell_at(k: nat, first: nat, visible: nat, columns: nat) -> CardCell {
    let in_row = visible - k / columns * columns;
    CardCell {
        index: (first + k) as usize,
        row: (k / columns) as usize,
        column: (k % columns) as usize,
        row_count: if in_row < columns {
            in_row as usize
        } else {
            columns as usize
        },
    }
}

/// The cells of the visible cards, in order.
pub open spec fn layout(grid: PanelGrid, count: nat, selected: nat, wanted: nat) -> Seq<CardCell> {
    let visible = visible_cards(grid, count, selected, wanted);
    let first = first_card(grid, count, selected, wanted);
    Seq::new(visible, |k: int| cell_at(k as nat, first, visible, grid.columns(count)))
}

/// Wherever the view is wanted, the row of the selected card is visible and the view does not run
/// past the last row.
pub proof fn first_row_shows_selection(
    count: nat,
    selected: nat,
    columns: nat,
    rows: nat,
    wanted: nat,
)
    requires
        columns > 0,
        rows > 0,
        count > 0,
    ensures
        ({
            let row = row_of(selected, count, columns);
            let start = first_row(count, selected, columns, rows, wanted);
            &&& start <= row < start + rows
            &&& start <= last_start(count, columns, rows)
            &&& row < rows_for(count, columns)
        }),
{
    rows_bound(count, columns);
    if selected < count {
        quotient_is_monotone(selected, (count - 1) as nat, columns);
    }
}

/// A row that exists starts before the end of the cards.
pub(crate) proof fn existing_rows_hold_cards(row: nat, count: nat, columns: nat)
    requires
        columns > 0,
        row < rows_for(count, columns),
    ensures
        row * columns < count,
{
    quotient_bounds(count, columns);
    let q = count / columns;
    let r = count % columns;
    assert(row * columns < count) by (nonlinear_arith)
        requires
            count == columns * q + r,
            0 <= r,
            row < q || (r > 0 && row <= q),
            columns > 0,
    ;
}

/// The visible cards: consecutive candidates, with the selected one among them.
pub fn card_layout(
    grid: &PanelGrid,
    candidate_count: usize,
    selected: usize,
    scroll_row: usize,
) -> (cells: Vec<CardCell>)
    ensures
        cells@ == layout(
            *grid,
            candidate_count as nat,
            selected as nat,
            scroll_row as nat,
        ),
        forall|k: int| 0 <= k < cells@.len() ==> (#[trigger] cells@[k]).index < candidate_count,
{
    let mut cells: Vec<CardCell> = Vec::new();
    if candidate_count == 0 {
        return cells;
    }
    let (columns, max_rows) = card_grid_dimensions(grid, candidate_count);
    let total_rows: usize = count_rows(candidate_count, columns);
    let visible_rows: usize = if total_rows < max_rows {
        total_rows
    } else {
        max_rows
    };
    let last: usize = candidate_count - 1;
    let selected_card: usize = if selected < last {
        selected
    } else {
        last
    };
    let start: usize = effective_scroll_row(
        candidate_count,
        selected_card,
        columns,
        visible_rows,
        scroll_row,
    );
    let ghost count = candidate_count as nat;
    let ghost visible = visible_cards(*grid, count, selected as nat, scroll_row as nat);
    proof {
        first_row_shows_selection(
            count,
            selected as nat,
            columns as nat,
            max_rows as nat,
            scroll_row as nat,
        );
        rows_bound(count, columns as nat);
        quotient_bounds(count, columns as nat);
        assert(start == first_row(
            count,
            selected as nat,
            columns as nat,
            max_rows as nat,
            scroll_row as nat,
        ));
        existing_rows_hold_cards(start as nat, count, columns as nat);
    }
    let first_index: usize = start * columns;
    let left: usize = candidate_count - first_index;
    assert(visible_rows * columns <= 9) by (nonlinear_arith)
        requires
            visible_rows <= 3,
            columns <= 3,
    ;
    let room: usize = visible_rows * columns;
    let visible_count: usize = if left < room {
        left
    } else {
        room
    };
    assert(visible_count == visible) by {
        if total_rows < max_rows {
            let q = count / (columns as nat);
            let r = count % (columns as nat);
            assert(total_rows * columns >= count) by (nonlinear_arith)
                requires
                    count == columns * q + r,
                    0 <= r < columns,
                    r == 0 ==> total_rows == q,
                    r != 0 ==> total_rows == q + 1,
            ;
            assert(max_rows * columns >= total_rows * columns) by (nonlinear_arith)
                requires
                    max_rows >= total_rows,
            ;
            assert(start == 0);
        }
    }
    for local_index in 0..visible_count
        invariant
            candidate_count > 0,
            count == candidate_count,
            visible_count == visible,
            visible == visible_cards(*grid, count, selected as nat, scroll_row as nat),
            columns == grid.columns(count),
            1 <= columns <= 3,
            first_index == first_card(*grid, count, selected as nat, scroll_row as nat),
            first_index + visible_count <= candidate_count,
            cells@.len() == local_index,
            forall|k: int|
                0 <= k < local_index ==> #[trigger] cells@[k] == cell_at(
                    k as nat,
                    first_index as nat,
                    visible,
                    columns as nat,
                ),
            forall|k: int|
                0 <= k < local_index ==> (#[trigger] cells@[k]).index < candidate_count,
    {
        let row: usize = local_index / columns;
        let column: usize = local_index % columns;
        proof {
            quotient_bounds(local_index as nat, columns as nat);
            assert(row * columns <= local_index) by (nonlinear_arith)
                requires
                    local_index == columns * row + column,
                    column >= 0,
            ;
        }
        let row_start: usize = row * columns;
        let in_row: usize = visible_count - row_start;
        let row_count: usize = if in_row < columns {
            in_row
        } else {
            columns
        };
        cells.push(CardCell { index: first_index + local_index, row, column, row_count });
    }
    cells
}

/// A view that shows the selected card already stays where it was scrolled to.
pub proof fn scrolling_does_not_snap_back(
    count: nat,
    selected: nat,
    columns: nat,
    rows: nat,
    wanted: nat,
)
    requires
        columns > 0,
        count > 0,
        wanted <= last_start(count, columns, rows),
        wanted <= row_of(selected, count, columns) < wanted + rows,
    ensures
        first_row(count, selected, columns, rows, wanted) == wanted,
{
}

/// The card of the selected candidate is among the visible ones.
pub proof fn selected_card_is_visible(
    grid: PanelGrid,
    count: nat,
    selected: nat,
    wanted: nat,
)
    requires
        selected < count <= usize::MAX,
    ensures
        ({
            let cells = layout(grid, count, selected, wanted);
            exists|k: int| 0 <= k < cells.len() && (#[trigger] cells[k]).index == selected
        }),
{
    let columns = grid.columns(count);
    let rows = grid.rows();
    let start = first_row(count, selected, columns, rows, wanted);
    first_row_shows_selection(count, selected, columns, rows, wanted);
    quotient_bounds(selected, columns);
    let q = selected / columns;
    let r = selected % columns;
    let first = first_card(grid, count, selected, wanted);
    assert(first <= selected) by (nonlinear_arith)
        requires
            first == start * columns,
            selected == columns * q + r,
            start <= q,
            r >= 0,
    ;
    assert(selected - first < rows * columns) by (nonlinear_arith)
        requires
            first == start * columns,
            selected == columns * q + r,
            q < start + rows,
            r < columns,
    ;
    let k = selected - first;
    assert(layout(grid, count, selected, wanted)[k].index == selected);
}

/// Where all rows fit, every candidate has a card.
pub proof fn all_cards_are_visible_where_they_fit(
    grid: PanelGrid,
    count: nat,
    selected: nat,
    wanted: nat,
)
    requires
        count <= usize::MAX,
        rows_for(count, grid.columns(count)) <= grid.rows(),
    ensures
        ({
            let cells = layout(grid, count, selected, wanted);
            &&& cells.len() == count
            &&& forall|k: int| 0 <= k < count ==> (#[trigger] cells[k]).index == k
        }),
{
    let cells = layout(grid, count, selected, wanted);
    if count > 0 {
        let columns = grid.columns(count);
        let rows = grid.rows();
        let q = count / columns;
        let r = count % columns;
        first_row_shows_selection(count, selected, columns, rows, wanted);
        quotient_bounds(count, columns);
        assert(rows * columns >= count) by (nonlinear_arith)
            requires
                count == columns * q + r,
                0 <= r < columns,
                r == 0 ==> rows >= q,
                r != 0 ==> rows >= q + 1,
        ;
        let start = first_row(count, selected, columns, rows, wanted);
        assert(start * columns == 0) by (nonlinear_arith)
            requires
                start == 0,
        ;
    }
}

/// At most nine cards are visible.
pub proof fn at_most_nine_cards_are_visible(
    grid: PanelGrid,
    count: nat,
    selected: nat,
    wanted: nat,
)
    ensures
        layout(grid, count, selected, wanted).len() <= 9,
{
    let columns = grid.columns(count);
    let rows = grid.rows();
    if count > 0 {
        first_row_shows_selection(count, selected, columns, rows, wanted);
        existing_rows_hold_cards(
            first_row(count, selected, columns, rows, wanted),
            count,
            columns,
        );
    }
    assert(rows * columns <= 9) by (nonlinear_arith)
        requires
            rows <= 3,
            columns <= 3,
    ;
}

} // verus!
