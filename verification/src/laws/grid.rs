//! The grid of cards: how many columns and rows it has, which cards it shows, and where each stands.

use vstd::prelude::*;

use crate::ui::picker::grid::{
    existing_rows_hold_cards, first_card, first_row, first_row_shows_selection, last_start, layout,
    quotient_bounds, row_of, rows_bound, rows_for, visible_cards, PanelGrid,
};

verus! {

/// On a wide panel one card stands alone, up to four stand in two columns, and more in three. A
/// narrower panel has as many columns as fit, at least one and at most those of a wide one.
pub proof fn columns_suit_the_number_of_cards(grid: PanelGrid, count: nat)
    ensures
        grid.columns_by_width >= 3 && count == 1 ==> grid.columns(count) == 1,
        grid.columns_by_width >= 3 && 2 <= count <= 4 ==> grid.columns(count) == 2,
        grid.columns_by_width >= 3 && count >= 5 ==> grid.columns(count) == 3,
        1 <= grid.columns(count) <= 3,
        grid.columns_by_width >= 1 ==> grid.columns(count) <= grid.columns_by_width,
        ({
            let wide = (PanelGrid { columns_by_width: 3, ..grid }).columns(count);
            &&& grid.columns(count) <= wide
            &&& grid.columns(count) < wide ==> grid.columns(count) == 1 || grid.columns(count)
                == grid.columns_by_width
            &&& grid.columns_by_width >= wide ==> grid.columns(count) == wide
        }),
{
}

/// As many rows are shown as fit, up to three, and always one.
pub proof fn as_many_rows_as_fit(grid: PanelGrid)
    ensures
        grid.rows() == 3 <==> grid.fits_three_rows,
        grid.rows() == 2 <==> grid.fits_two_rows && !grid.fits_three_rows,
        1 <= grid.rows() <= 3,
{
}

/// The rows hold all cards, and with one row less they would not.
pub proof fn rows_are_as_many_as_needed(count: nat, columns: nat)
    requires
        columns > 0,
    ensures
        count <= rows_for(count, columns) * columns,
        count > 0 ==> (rows_for(count, columns) - 1) * columns < count,
        count == 0 ==> rows_for(count, columns) == 0,
{
    quotient_bounds(count, columns);
    let q = count / columns;
    let r = count % columns;
    let n = rows_for(count, columns);
    assert(count <= n * columns) by (nonlinear_arith)
        requires
            count == columns * q + r,
            r == 0 ==> n == q,
            r != 0 ==> n == q + 1,
            r < columns,
    ;
    if count > 0 {
        rows_bound(count, columns);
        existing_rows_hold_cards((n - 1) as nat, count, columns);
    } else {
        assert(q == 0 && r == 0) by (nonlinear_arith)
            requires
                0 == columns * q + r,
                columns > 0,
                q >= 0,
                r >= 0,
        ;
    }
}

/// The cards stand in rows of as many as the grid has columns: the candidate of a card is found
/// from its row and its column. A row is full, unless it is the last one that is visible.
pub proof fn cards_stand_in_rows(grid: PanelGrid, count: nat, selected: nat, wanted: nat, k: int)
    requires
        count <= usize::MAX,
        0 <= k < layout(grid, count, selected, wanted).len(),
    ensures
        ({
            let cells = layout(grid, count, selected, wanted);
            let columns = grid.columns(count);
            let cell = cells[k];
            &&& cells[0].row == 0 && cells[0].column == 0
            &&& cell.index == cells[0].index + cell.row * columns + cell.column
            &&& cell.index == cells[0].index + k
            &&& cell.index < count
            &&& cell.column < cell.row_count <= columns
            &&& cell.row < grid.rows()
            &&& k - cell.column + cell.row_count <= cells.len()
            &&& cell.row_count < columns ==> k - cell.column + cell.row_count == cells.len()
            &&& cells[0].index as int % columns as int == 0
        }),
{
    let columns = grid.columns(count);
    let rows = grid.rows();
    let first = first_card(grid, count, selected, wanted);
    let start = first_row(count, selected, columns, rows, wanted);
    let visible = visible_cards(grid, count, selected, wanted);
    first_row_shows_selection(count, selected, columns, rows, wanted);
    existing_rows_hold_cards(start, count, columns);
    quotient_bounds(k as nat, columns);
    quotient_bounds(0, columns);
    let q = k / columns as int;
    let r = k % columns as int;
    assert(q * columns == columns * q) by (nonlinear_arith);
    assert(q < rows) by (nonlinear_arith)
        requires
            k == columns * q + r,
            r >= 0,
            k < rows * columns,
            columns > 0,
    ;
    assert(0int / columns as int == 0 && 0int % columns as int == 0) by (nonlinear_arith)
        requires
            columns > 0,
    ;
    vstd::arithmetic::div_mod::lemma_mod_multiples_basic(start as int, columns as int);
    assert(first == start * columns);
    assert(layout(grid, count, selected, wanted)[0].index == first);
    assert(layout(grid, count, selected, wanted)[0].row == 0);
}

/// The visible cards stand in different cells, whatever the number of columns, and show different
/// candidates.
pub proof fn visible_cards_stand_apart(
    grid: PanelGrid,
    count: nat,
    selected: nat,
    wanted: nat,
    a: int,
    b: int,
)
    requires
        count <= usize::MAX,
        0 <= a < layout(grid, count, selected, wanted).len(),
        0 <= b < layout(grid, count, selected, wanted).len(),
        a != b,
    ensures
        ({
            let cells = layout(grid, count, selected, wanted);
            &&& cells[a].row != cells[b].row || cells[a].column != cells[b].column
            &&& cells[a].index != cells[b].index
        }),
{
    cards_stand_in_rows(grid, count, selected, wanted, a);
    cards_stand_in_rows(grid, count, selected, wanted, b);
}

/// The view holds as many cards as there is room for, or all that are left, and it holds the
/// selected one.
pub proof fn views_are_filled(grid: PanelGrid, count: nat, selected: nat, wanted: nat)
    requires
        selected < count <= usize::MAX,
    ensures
        ({
            let cells = layout(grid, count, selected, wanted);
            let room = grid.rows() * grid.columns(count);
            &&& 0 < cells.len() <= room
            &&& cells[0].index + cells.len() <= count
            &&& cells.len() < room ==> cells[0].index + cells.len() == count
            &&& cells[0].index <= selected < cells[0].index + cells.len()
        }),
{
    let columns = grid.columns(count);
    let rows = grid.rows();
    let start = first_row(count, selected, columns, rows, wanted);
    first_row_shows_selection(count, selected, columns, rows, wanted);
    existing_rows_hold_cards(start, count, columns);
    crate::ui::picker::grid::selected_card_is_visible(grid, count, selected, wanted);
    let cells = layout(grid, count, selected, wanted);
    let k = choose|k: int| 0 <= k < cells.len() && (#[trigger] cells[k]).index == selected;
    cards_stand_in_rows(grid, count, selected, wanted, k);
}

/// The view moves as little as needed: of the rows that it could start at with the selected card
/// visible, and without running past the last row, it starts at the one nearest to the wanted one.
pub proof fn views_move_as_little_as_needed(
    grid: PanelGrid,
    count: nat,
    selected: nat,
    wanted: nat,
    other: nat,
)
    requires
        selected < count <= usize::MAX,
        other * grid.columns(count) <= selected < (other + grid.rows()) * grid.columns(count),
        other == 0 || (other + grid.rows() - 1) * grid.columns(count) < count,
    ensures
        ({
            let cells = layout(grid, count, selected, wanted);
            let start = first_row(count, selected, grid.columns(count), grid.rows(), wanted);
            &&& cells[0].index == start * grid.columns(count)
            &&& start * grid.columns(count) <= selected < (start + grid.rows()) * grid.columns(
                count,
            )
            &&& start == 0 || (start + grid.rows() - 1) * grid.columns(count) < count
            &&& (if start <= wanted {
                wanted - start
            } else {
                start - wanted
            }) <= (if other <= wanted {
                wanted - other
            } else {
                other - wanted
            })
        }),
{
    let columns = grid.columns(count);
    let rows = grid.rows();
    let start = first_row(count, selected, columns, rows, wanted);
    let last = last_start(count, columns, rows);
    let total = rows_for(count, columns);
    first_row_shows_selection(count, selected, columns, rows, wanted);
    existing_rows_hold_cards(start, count, columns);
    views_are_filled(grid, count, selected, wanted);
    rows_are_as_many_as_needed(count, columns);
    quotient_bounds(selected, columns);
    let q = selected / columns;
    let r = selected % columns;
    assert(row_of(selected, count, columns) == q);
    assert(other <= q) by (nonlinear_arith)
        requires
            other * columns <= selected,
            selected == columns * q + r,
            r < columns,
    ;
    assert(q < other + rows) by (nonlinear_arith)
        requires
            selected < (other + rows) * columns,
            selected == columns * q + r,
            r >= 0,
    ;
    if other > 0 {
        assert(other + rows - 1 < total) by (nonlinear_arith)
            requires
                (other + rows - 1) * columns < count,
                count <= total * columns,
                columns > 0,
        ;
    }
    assert(other <= last);
    assert(start * columns <= selected) by (nonlinear_arith)
        requires
            start <= q,
            selected == columns * q + r,
            r >= 0,
    ;
    assert(selected < (start + rows) * columns) by (nonlinear_arith)
        requires
            q < start + rows,
            selected == columns * q + r,
            r < columns,
    ;
    if start > 0 {
        existing_rows_hold_cards((start + rows - 1) as nat, count, columns);
    }
}

/// A selection past the end counts as the last card, and without cards nothing is visible.
pub proof fn selections_past_the_end_count_as_the_last_card(
    grid: PanelGrid,
    count: nat,
    selected: nat,
    wanted: nat,
)
    ensures
        layout(grid, 0, selected, wanted).len() == 0,
        count > 0 && selected >= count ==> layout(grid, count, selected, wanted) == layout(
            grid,
            count,
            (count - 1) as nat,
            wanted,
        ),
{
}

} // verus!
