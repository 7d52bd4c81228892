//! A picker on the screen: the candidates, what is selected, and how input changes that.

use vstd::prelude::*;

use crate::dbus::niri_portal_screen_cast::{fault_for, PickSourcesRequest};
use crate::dbus::picker_options::PickerPersistMode;
use crate::dbus::target::{StreamTargetId, Target};
use crate::ui::i18n::Messages;
use crate::ui::picker::candidate::{HitTarget, PickerCandidate, PickerView};
use crate::ui::picker::grid::{
    card_grid_dimensions, card_layout, count_rows, effective_scroll_row, existing_rows_hold_cards,
    first_row, first_row_shows_selection, last_start, layout, quotient_bounds, row_of, rows_bound,
    rows_for, scrolling_does_not_snap_back, CardCell, PanelGrid,
};

verus! {

/// A picker that answers a request.
#[derive(Debug)]
pub struct OpenPicker {
    pub request: PickSourcesRequest,
    /// The output that the picker is shown on.
    pub output: u64,
    pub displays: Vec<PickerCandidate>,
    pub windows: Vec<PickerCandidate>,
    pub view: PickerView,
    pub selected_display: Option<usize>,
    pub selected_window: Option<usize>,
    pub window_scroll_row: usize,
    /// The part of a row that was scrolled without moving the view, as the bits of a double.
    pub window_scroll_remainder: u64,
    pub remember: bool,
    pub hovered: HitTarget,
    pub messages: Messages,
}

/// Whether a list with `len` entries has its selection: one of the entries, if there are any.
pub open spec fn selection_fits(selected: Option<usize>, len: nat) -> bool {
    match selected {
        Some(i) => i < len,
        None => len == 0,
    }
}

/// The candidates that are not the given window.
pub open spec fn without_window(windows: Seq<PickerCandidate>, id: u64) -> Seq<PickerCandidate>
    decreases windows.len(),
{
    if windows.len() == 0 {
        windows
    } else {
        let rest = without_window(windows.drop_last(), id);
        if windows.last().target@ == Target::Window(id) {
            rest
        } else {
            rest.push(windows.last())
        }
    }
}

/// Where a view that starts at row `old` starts after scrolling by `steps` rows.
pub open spec fn scrolled_row(old: nat, steps: int, last: nat) -> nat {
    if steps > 0 {
        if old + steps < last {
            (old + steps) as nat
        } else {
            last
        }
    } else if old + steps > 0 {
        (old + steps) as nat
    } else {
        0
    }
}

/// The card in the given row and column, or the last card where there is none.
pub open spec fn card_in(row: nat, column: nat, count: nat, columns: nat) -> nat {
    if row * columns + column < count {
        row * columns + column
    } else {
        (count - 1) as nat
    }
}

/// The selected card after the view moved to start at `start`: the selection moves, within its
/// column, to the nearest visible row.
pub open spec fn selection_in_view(
    selected: nat,
    start: nat,
    count: nat,
    columns: nat,
    rows: nat,
) -> nat {
    if selected / columns < start {
        card_in(start, selected % columns, count, columns)
    } else if selected / columns >= start + rows {
        card_in((start + rows - 1) as nat, selected % columns, count, columns)
    } else {
        selected
    }
}

/// The place `delta` steps from `current` in a ring of `len` places.
fn step_around(current: usize, delta: isize, len: usize) -> (next: usize)
    requires
        len > 0,
    ensures
        next == (current + delta) % (len as int),
        next < len,
{
    let sum: i128 = current as i128 + delta as i128;
    if sum >= 0 {
        let next: u128 = sum as u128 % len as u128;
        next as usize
    } else {
        let behind: u128 = (-sum) as u128;
        let back: u128 = behind % len as u128;
        proof {
            let n = len as int;
            let q = behind as int / n;
            vstd::arithmetic::div_mod::lemma_fundamental_div_mod(behind as int, n);
            if back == 0 {
                assert(sum == n * (-q) + 0) by (nonlinear_arith)
                    requires
                        -sum == n * q + back,
                        back == 0,
                ;
                vstd::arithmetic::div_mod::lemma_fundamental_div_mod_converse(
                    sum as int,
                    n,
                    -q,
                    0,
                );
            } else {
                assert(sum == n * (-q - 1) + (n - back)) by (nonlinear_arith)
                    requires
                        -sum == n * q + back,
                ;
                vstd::arithmetic::div_mod::lemma_fundamental_div_mod_converse(
                    sum as int,
                    n,
                    -q - 1,
                    n - back,
                );
            }
        }
        if back == 0 {
            0
        } else {
            len - back as usize
        }
    }
}

impl OpenPicker {
    /// The candidates that are shown.
    pub open spec fn shown(self) -> Seq<PickerCandidate> {
        match self.view {
            PickerView::Window => self.windows@,
            PickerView::Display => self.displays@,
        }
    }

    /// The selection among the candidates that are shown.
    pub open spec fn selection(self) -> Option<usize> {
        match self.view {
            PickerView::Window => self.selected_window,
            PickerView::Display => self.selected_display,
        }
    }

    /// The picker with another selection.
    pub open spec fn with_selection(self, selected: usize) -> OpenPicker {
        match self.view {
            PickerView::Window => OpenPicker { selected_window: Some(selected), ..self },
            PickerView::Display => OpenPicker { selected_display: Some(selected), ..self },
        }
    }

    /// What holds of every picker that takes input: there is something to pick.
    pub open spec fn wf(self) -> bool {
        self.wf_lists() && self.shown().len() > 0
    }

    /// What holds of every picker on the screen: both lists have their selection, and only sources
    /// that the client asked for are offered.
    pub open spec fn wf_lists(self) -> bool {
        &&& selection_fits(self.selected_display, self.displays@.len())
        &&& selection_fits(self.selected_window, self.windows@.len())
        &&& !self.request.options.multiple
        &&& self.displays@.len() > 0 ==> self.request.options.source_types.monitor
        &&& self.windows@.len() > 0 ==> self.request.options.source_types.window
        &&& self.remember ==> self.request.options.persist_mode != PickerPersistMode::Never
    }

    /// Whether the displays are outputs and the windows are windows.
    pub open spec fn sorted_by_kind(self) -> bool {
        &&& forall|i: int|
            0 <= i < self.displays@.len() ==> (#[trigger] self.displays@[i]).target is Output
        &&& forall|i: int|
            0 <= i < self.windows@.len() ==> (#[trigger] self.windows@[i]).target is Window
    }

    /// The selected one of the candidates that are shown.
    pub open spec fn choice(self) -> Target {
        self.shown()[self.selection()->0 as int].target@
    }

    /// How long the choice is to be remembered.
    pub open spec fn chosen_persist_mode(self) -> PickerPersistMode {
        if self.remember {
            self.request.options.persist_mode
        } else {
            PickerPersistMode::Never
        }
    }

    /// The visible cards.
    pub open spec fn cards(self, grid: PanelGrid) -> Seq<CardCell> {
        layout(
            grid,
            self.shown().len(),
            match self.selection() {
                Some(selected) => selected as nat,
                None => 0,
            },
            self.window_scroll_row as nat,
        )
    }

    /// The picker after the selection moved by `delta`, around the end of the list.
    pub open spec fn after_move(self, delta: int) -> OpenPicker {
        let current = match self.selection() {
            Some(selected) => selected as int,
            None => 0,
        };
        OpenPicker {
            hovered: HitTarget::Nothing,
            ..self.with_selection(((current + delta) % (self.shown().len() as int)) as usize)
        }
    }

    /// The row that the windows are shown from.
    pub open spec fn window_row(self, grid: PanelGrid) -> nat {
        let count = self.windows@.len();
        first_row(
            count,
            self.window_selection(),
            grid.columns(count),
            grid.rows(),
            self.window_scroll_row as nat,
        )
    }

    /// The selected window.
    pub open spec fn window_selection(self) -> nat {
        match self.selected_window {
            Some(selected) => selected as nat,
            None => 0,
        }
    }

    /// The row that the windows are shown from after scrolling by `steps` rows.
    pub open spec fn window_row_after(self, steps: int, grid: PanelGrid) -> nat {
        let count = self.windows@.len();
        scrolled_row(
            self.window_row(grid),
            steps,
            last_start(count, grid.columns(count), grid.rows()),
        )
    }

    /// The picker after the list of windows was scrolled by `steps` rows.
    pub open spec fn after_scroll(self, steps: int, grid: PanelGrid) -> OpenPicker {
        let count = self.windows@.len();
        let start = self.window_row_after(steps, grid);
        OpenPicker {
            window_scroll_row: start as usize,
            selected_window: Some(
                selection_in_view(
                    self.window_selection(),
                    start,
                    count,
                    grid.columns(count),
                    grid.rows(),
                ) as usize,
            ),
            hovered: HitTarget::Nothing,
            ..self
        }
    }

    /// The view that the other tab shows, if it has candidates.
    pub open spec fn other_view(self) -> Option<PickerView> {
        match self.view {
            PickerView::Window => if self.displays@.len() > 0 {
                Some(PickerView::Display)
            } else {
                None
            },
            PickerView::Display => if self.windows@.len() > 0 {
                Some(PickerView::Window)
            } else {
                None
            },
        }
    }

    /// The candidates that are shown.
    pub fn candidates(&self) -> (r: &Vec<PickerCandidate>)
        ensures
            r@ == self.shown(),
    {
        match self.view {
            PickerView::Window => &self.windows,
            PickerView::Display => &self.displays,
        }
    }

    /// The selection among the candidates that are shown.
    pub fn selected(&self) -> (r: Option<usize>)
        ensures
            r == self.selection(),
    {
        match self.view {
            PickerView::Window => self.selected_window,
            PickerView::Display => self.selected_display,
        }
    }

    /// Changes the selection among the candidates that are shown.
    pub fn set_selected(&mut self, selected: usize)
        ensures
            *final(self) == old(self).with_selection(selected),
    {
        match self.view {
            PickerView::Window => {
                self.selected_window = Some(selected);
            },
            PickerView::Display => {
                self.selected_display = Some(selected);
            },
        }
    }

    /// The selected one of the candidates that are shown.
    pub fn selected_candidate(&self) -> (r: Option<&PickerCandidate>)
        ensures
            match r {
                Some(candidate) => self.selection() is Some && self.selection()->0
                    < self.shown().len() && *candidate == self.shown()[self.selection()->0 as int],
                None => self.selection() is None || self.selection()->0 >= self.shown().len(),
            },
    {
        let candidates = self.candidates();
        match self.selected() {
            Some(selected) => {
                if selected < candidates.len() {
                    Some(&candidates[selected])
                } else {
                    None
                }
            },
            None => None,
        }
    }

    /// The visible cards.
    pub fn card_cells(&self, grid: &PanelGrid) -> (cells: Vec<CardCell>)
        ensures
            cells@ == self.cards(*grid),
            forall|k: int|
                0 <= k < cells@.len() ==> (#[trigger] cells@[k]).index < self.shown().len(),
    {
        let selected: usize = match self.selected() {
            Some(selected) => selected,
            None => 0,
        };
        card_layout(grid, self.candidates().len(), selected, self.window_scroll_row)
    }

    /// Moves the selection by `delta`, around the end of the list.
    pub fn move_selection(&mut self, delta: isize)
        requires
            old(self).wf(),
        ensures
            final(self).wf(),
            *final(self) == old(self).after_move(delta as int),
    {
        let len: usize = self.candidates().len();
        let current: usize = match self.selected() {
            Some(selected) => selected,
            None => 0,
        };
        let next: usize = step_around(current, delta, len);
        self.set_selected(next);
        self.hovered = HitTarget::Nothing;
    }

    /// Scrolls the list of windows by `steps` rows. What was scrolled less than a row is kept.
    pub fn scroll(&mut self, steps: isize, remainder: u64, grid: &PanelGrid) -> (moved: bool)
        requires
            old(self).wf(),
            old(self).view == PickerView::Window,
        ensures
            final(self).wf(),
            ({
                let picker = OpenPicker { window_scroll_remainder: remainder, ..*old(self) };
                &&& moved == (picker.window_row_after(steps as int, *grid) != picker.window_row(
                    *grid,
                ))
                &&& *final(self) == (if moved {
                    picker.after_scroll(steps as int, *grid)
                } else {
                    picker
                })
            }),
    {
        self.window_scroll_remainder = remainder;
        let count: usize = self.windows.len();
        let (columns, rows) = card_grid_dimensions(grid, count);
        let selected: usize = match self.selected_window {
            Some(selected) => selected,
            None => 0,
        };
        let old_row: usize = effective_scroll_row(
            count,
            selected,
            columns,
            rows,
            self.window_scroll_row,
        );
        let total: usize = count_rows(count, columns);
        let last: usize = if total > rows {
            total - rows
        } else {
            0
        };
        proof {
            first_row_shows_selection(
                count as nat,
                selected as nat,
                columns as nat,
                rows as nat,
                self.window_scroll_row as nat,
            );
        }
        let new_row: usize = if steps > 0 {
            if (steps as usize) < last - old_row {
                old_row + steps as usize
            } else {
                last
            }
        } else {
            let back: u128 = (-(steps as i128)) as u128;
            if back < old_row as u128 {
                old_row - back as usize
            } else {
                0
            }
        };
        assert(new_row == self.window_row_after(steps as int, *grid));
        if new_row == old_row {
            return false;
        }
        let selected_row: usize = selected / columns;
        let selected_column: usize = selected % columns;
        proof {
            rows_bound(count as nat, columns as nat);
            quotient_bounds(selected as nat, columns as nat);
            existing_rows_hold_cards(new_row as nat, count as nat, columns as nat);
            existing_rows_hold_cards((new_row + rows - 1) as nat, count as nat, columns as nat);
        }
        self.window_scroll_row = new_row;
        if selected_row < new_row {
            self.selected_window = Some(card_at(new_row, selected_column, count, columns));
        } else if selected_row >= new_row + rows {
            self.selected_window = Some(
                card_at(new_row + rows - 1, selected_column, count, columns),
            );
        } else {
            self.selected_window = Some(selected);
        }
        self.hovered = HitTarget::Nothing;
        true
    }
}

/// What became of a picker that a window was removed from.
#[derive(Clone, Copy, Debug, PartialEq, Eq, Structural)]
pub enum WindowRemoval {
    /// The window was not offered.
    NotOffered,
    /// The same list is shown, without the window.
    Removed,
    /// The window was the last one, and the displays are shown now.
    ShowsDisplays,
    /// The window was the last source.
    NothingLeft,
}

impl OpenPicker {
    /// The picker without the given window. The list of windows starts over.
    pub open spec fn after_removal(self, id: u64) -> OpenPicker {
        let left = without_window(self.windows@, id);
        OpenPicker {
            selected_window: if left.len() > 0 {
                Some(0)
            } else {
                None
            },
            window_scroll_row: 0,
            window_scroll_remainder: 0,
            hovered: HitTarget::Nothing,
            view: if self.view == PickerView::Window && left.len() == 0 && self.displays@.len()
                > 0 {
                PickerView::Display
            } else {
                self.view
            },
            ..self
        }
    }

    /// What becomes of the picker when the given window is removed.
    pub open spec fn removal(self, id: u64) -> WindowRemoval {
        let left = without_window(self.windows@, id);
        if left.len() == self.windows@.len() {
            WindowRemoval::NotOffered
        } else if self.view == PickerView::Window && left.len() == 0 {
            if self.displays@.len() == 0 {
                WindowRemoval::NothingLeft
            } else {
                WindowRemoval::ShowsDisplays
            }
        } else {
            WindowRemoval::Removed
        }
    }

    /// Removes a window that disappeared.
    pub fn remove_window(&mut self, id: u64) -> (r: WindowRemoval)
        requires
            old(self).wf(),
        ensures
            r == old(self).removal(id),
            match r {
                WindowRemoval::NotOffered => *final(self) == *old(self),
                _ => final(self).windows@ == without_window(old(self).windows@, id)
                    && *final(self) == (OpenPicker {
                    windows: final(self).windows,
                    ..old(self).after_removal(id)
                }),
            },
            final(self).wf_lists(),
            r != WindowRemoval::NothingLeft ==> final(self).wf(),
    {
        let target = StreamTargetId::Window { id };
        let mut left: Vec<PickerCandidate> = Vec::new();
        assert(self.windows@.take(0) =~= Seq::<PickerCandidate>::empty());
        for i in 0..self.windows.len()
            invariant
                target@ == Target::Window(id),
                left@ == without_window(self.windows@.take(i as int), id),
                left@.len() <= i,
        {
            let ghost seen = self.windows@.take(i + 1);
            assert(seen.drop_last() =~= self.windows@.take(i as int));
            assert(seen.last() == self.windows@[i as int]);
            if !self.windows[i].target.same(&target) {
                left.push(self.windows[i].clone());
            }
        }
        assert(self.windows@.take(self.windows@.len() as int) =~= self.windows@);
        if left.len() == self.windows.len() {
            return WindowRemoval::NotOffered;
        }
        self.windows = left;
        self.hovered = HitTarget::Nothing;
        self.selected_window = if self.windows.len() > 0 {
            Some(0)
        } else {
            None
        };
        self.window_scroll_row = 0;
        self.window_scroll_remainder = 0;
        if self.view == PickerView::Window && self.windows.len() == 0 {
            if self.displays.len() == 0 {
                return WindowRemoval::NothingLeft;
            }
            self.view = PickerView::Display;
            return WindowRemoval::ShowsDisplays;
        }
        WindowRemoval::Removed
    }
}

/// A window that was removed is not offered any more, and every other candidate still is.
pub proof fn removed_window_is_gone(windows: Seq<PickerCandidate>, id: u64, candidate: PickerCandidate)
    ensures
        without_window(windows, id).contains(candidate) <==> windows.contains(candidate)
            && candidate.target@ != Target::Window(id),
    decreases windows.len(),
{
    if windows.len() > 0 {
        let head = windows.drop_last();
        let rest = without_window(head, id);
        removed_window_is_gone(head, id, candidate);
        assert(windows =~= head.push(windows.last()));
        assert(windows.contains(candidate) <==> head.contains(candidate) || candidate
            == windows.last()) by {
            if head.contains(candidate) {
                let i = choose|i: int| 0 <= i < head.len() && head[i] == candidate;
                assert(windows[i] == candidate);
            }
            assert(windows[windows.len() - 1] == windows.last());
        }
        if windows.last().target@ != Target::Window(id) {
            let more = rest.push(windows.last());
            assert(more.contains(candidate) <==> rest.contains(candidate) || candidate
                == windows.last()) by {
                if rest.contains(candidate) {
                    let i = choose|i: int| 0 <= i < rest.len() && rest[i] == candidate;
                    assert(more[i] == candidate);
                }
                assert(more[rest.len() as int] == windows.last());
            }
        }
    }
}

proof fn card_in_row(row: nat, column: nat, count: nat, columns: nat)
    requires
        columns > 0,
        column < columns,
        row < rows_for(count, columns),
    ensures
        card_in(row, column, count, columns) < count,
        card_in(row, column, count, columns) / columns == row,
{
    existing_rows_hold_cards(row, count, columns);
    let card = row * columns + column;
    if card < count {
        vstd::arithmetic::div_mod::lemma_fundamental_div_mod_converse(
            card as int,
            columns as int,
            row as int,
            column as int,
        );
    } else {
        // The last card stands in this row: the row begins before it, and ends after it.
        rows_bound(count, columns);
        quotient_bounds((count - 1) as nat, columns);
        let q = (count - 1) as nat / columns;
        let r = (count - 1) as nat % columns;
        assert(q <= row) by (nonlinear_arith)
            requires
                count - 1 == columns * q + r,
                r >= 0,
                row * columns + column >= count,
                column < columns,
                columns > 0,
        ;
    }
}

/// The list of windows stays where it was scrolled to: the selection moves along and is visible,
/// so that the view does not snap back to it.
pub proof fn scrolled_view_stays(picker: OpenPicker, steps: int, grid: PanelGrid)
    requires
        picker.wf(),
        picker.view == PickerView::Window,
        picker.windows@.len() <= usize::MAX,
    ensures
        ({
            let after = picker.after_scroll(steps, grid);
            &&& after.window_row(grid) == picker.window_row_after(steps, grid)
            &&& after.window_selection() < after.windows@.len()
        }),
{
    let count = picker.windows@.len();
    let columns = grid.columns(count);
    let rows = grid.rows();
    let selected = picker.window_selection();
    let start = picker.window_row_after(steps, grid);
    let last = last_start(count, columns, rows);
    first_row_shows_selection(count, selected, columns, rows, picker.window_scroll_row as nat);
    rows_bound(count, columns);
    quotient_bounds(selected, columns);
    assert(start <= last);
    if selected / columns < start {
        card_in_row(start, selected % columns, count, columns);
    } else if selected / columns >= start + rows {
        card_in_row((start + rows - 1) as nat, selected % columns, count, columns);
    }
    let moved = selection_in_view(selected, start, count, columns, rows);
    scrolling_does_not_snap_back(count, moved, columns, rows, start);
}

/// What the user confirms passes the check that a selection is held against, if the lists of
/// candidates hold what they are named for.
pub proof fn confirmed_choice_is_valid(picker: OpenPicker)
    requires
        picker.wf(),
        picker.sorted_by_kind(),
    ensures
        fault_for(
            picker.request.options,
            seq![picker.choice()],
            picker.chosen_persist_mode(),
        ) is None,
{
    crate::dbus::niri_portal_screen_cast::selection_is_valid_iff(
        picker.request.options.source_types,
        picker.request.options.multiple,
        picker.request.options.persist_mode,
        seq![picker.choice()],
        picker.chosen_persist_mode(),
    );
    let i = picker.selection()->0 as int;
    match picker.view {
        PickerView::Window => {
            assert(picker.windows@[i].target is Window);
        },
        PickerView::Display => {
            assert(picker.displays@[i].target is Output);
        },
    }
}

/// The card in the given row and column, or the last card where there is none.
fn card_at(row: usize, column: usize, count: usize, columns: usize) -> (card: usize)
    requires
        row * columns < count,
    ensures
        card == card_in(row as nat, column as nat, count as nat, columns as nat),
        card < count,
{
    let first: usize = row * columns;
    if column < count - first {
        first + column
    } else {
        count - 1
    }
}

} // verus!
