//! The picker: how it opens, what input does to it, and what it is answered with.

use vstd::prelude::*;

use crate::dbus::niri_portal_screen_cast::{PickSourcesReply, PickSourcesRequest, Reply};
use crate::dbus::target::{targets_of, StreamTargetId, Target};
use crate::ui::i18n::Messages;
use crate::ui::picker::candidate::{
    first_hit, hit_at, labels, ControlHits, HitTarget, PickerCandidate, PickerRenderVariant,
    PickerView,
};
use crate::ui::picker::grid::{
    existing_rows_hold_cards, first_row_shows_selection, last_start, quotient_bounds, rows_bound,
    rows_for, PanelGrid,
};
use crate::ui::picker::open_picker::{
    card_in, without_window, OpenPicker,
};
use crate::ui::picker::picker_ui::{
    after_press, is_removal, opened, PickerUiState, ScreenCastPickerUi,
};

verus! {

/// Whoever confirms gets what is selected in the list that is shown: the answer goes to the channel
/// of the request and holds one source, the window with the selected index if the windows are
/// shown, and the output with the selected index if the displays are. It is remembered for as long
/// as the client asked, if the user wants that, and else not at all.
pub proof fn confirmed_source_is_the_selected_one<B, E>(
    before: ScreenCastPickerUi<B, E>,
    after: ScreenCastPickerUi<B, E>,
    settled: bool,
    i: usize,
)
    requires
        before.state is Open,
        ({
            let picker = before.state->Open_picker;
            after.answers(
                before,
                Reply::Selected(seq![picker.choice()], picker.chosen_persist_mode()),
                settled,
            )
        }),
    ensures
        ({
            let picker = before.state->Open_picker;
            let sent = after.replies@[before.replies@.len() as int];
            let selection = sent.message->Selected_0;
            &&& after.replies@.len() == before.replies@.len() + 1
            &&& forall|j: int|
                0 <= j < before.replies@.len() ==> after.replies@[j] == before.replies@[j]
            &&& sent.reply == picker.request.reply
            &&& sent.message is Selected
            &&& selection.sources@.len() == 1
            &&& picker.view is Window && picker.selected_window == Some(i) && i
                < picker.windows@.len() ==> selection.sources@[0]@ == picker.windows@[i as int].target@
            &&& picker.view is Display && picker.selected_display == Some(i) && i
                < picker.displays@.len() ==> selection.sources@[0]@
                == picker.displays@[i as int].target@
            &&& picker.remember ==> selection.persist_mode == picker.request.options.persist_mode
            &&& !picker.remember ==> selection.persist_mode is Never
        }),
{
    let picker = before.state->Open_picker;
    let sent = after.replies@[before.replies@.len() as int];
    assert(after.replies@.last() == sent);
    assert forall|j: int| 0 <= j < before.replies@.len() implies after.replies@[j]
        == before.replies@[j] by {
        assert(after.replies@.drop_last()[j] == after.replies@[j]);
    }
    let sources = sent.message->Selected_0.sources@;
    assert(targets_of(sources).len() == 1);
    assert(targets_of(sources)[0] == sources[0]@);
}

/// Two targets are the same exactly if they are outputs of the same name or windows with the same
/// id.
pub proof fn targets_are_told_apart(a: StreamTargetId, b: StreamTargetId)
    ensures
        a@ == b@ <==> {
            ||| a is Output && b is Output && a->Output_name@ == b->Output_name@
            ||| a is Window && b is Window && a->Window_id == b->Window_id
        },
        a is Window ==> a@ == Target::Window(a->Window_id),
        a is Output ==> a@ == Target::Output(a->Output_name@),
{
}

/// The answer to a request keeps apart what was picked, that it was cancelled, and why it failed.
pub proof fn answers_are_told_apart(a: PickSourcesReply, b: PickSourcesReply)
    ensures
        a@ == b@ ==> (a is Selected <==> b is Selected) && (a is Cancelled <==> b is Cancelled)
            && (a is Failed <==> b is Failed),
        a is Selected && a@ == b@ ==> a->Selected_0.persist_mode == b->Selected_0.persist_mode
            && a->Selected_0.sources@.len() == b->Selected_0.sources@.len(),
        a is Selected && a@ == b@ ==> forall|i: int|
            0 <= i < a->Selected_0.sources@.len() ==> (#[trigger] a->Selected_0.sources@[i])@
                == b->Selected_0.sources@[i]@,
        a is Failed && a@ == b@ ==> a->Failed_0@ == b->Failed_0@,
{
    if a is Selected && a@ == b@ {
        let x = a->Selected_0.sources@;
        let y = b->Selected_0.sources@;
        assert(targets_of(x) == targets_of(y));
        assert(targets_of(x).len() == x.len() && targets_of(y).len() == y.len());
        assert forall|i: int| 0 <= i < x.len() implies (#[trigger] x[i])@ == y[i]@ by {
            assert(targets_of(x)[i] == x[i]@);
            assert(targets_of(y)[i] == y[i]@);
        }
    }
}

/// Pressing a candidate and then confirming answers with that candidate, in either list: the press
/// selects it, and changes nothing of the other list.
pub proof fn pressed_candidates_are_confirmed(picker: OpenPicker, i: usize)
    ensures
        ({
            let pressed = after_press(picker, HitTarget::Candidate(i));
            let after = pressed->0;
            &&& picker.view is Window ==> (pressed is Some <==> i < picker.windows@.len())
            &&& picker.view is Display ==> (pressed is Some <==> i < picker.displays@.len())
            &&& pressed is Some ==> {
                &&& after.view == picker.view
                &&& after.windows == picker.windows && after.displays == picker.displays
                &&& after.request == picker.request && after.output == picker.output
                &&& after.remember == picker.remember
                &&& after.window_scroll_row == picker.window_scroll_row
                &&& after.hovered == HitTarget::Candidate(i)
            }
            &&& pressed is Some && picker.view is Window ==> {
                &&& after.selected_window == Some(i)
                &&& after.selected_display == picker.selected_display
                &&& after.choice() == picker.windows@[i as int].target@
            }
            &&& pressed is Some && picker.view is Display ==> {
                &&& after.selected_display == Some(i)
                &&& after.selected_window == picker.selected_window
                &&& after.choice() == picker.displays@[i as int].target@
            }
        }),
{
}

/// Pressing a tab shows its list, if it holds something, and changes no selection. A press on
/// nothing does nothing.
pub proof fn pressed_tabs_show_their_list(picker: OpenPicker)
    ensures
        ({
            let pressed = after_press(picker, HitTarget::WindowTab);
            &&& pressed is Some <==> picker.windows@.len() > 0
            &&& pressed is Some ==> pressed->0.view is Window && pressed->0 == (OpenPicker {
                view: pressed->0.view,
                hovered: HitTarget::WindowTab,
                ..picker
            })
        }),
        ({
            let pressed = after_press(picker, HitTarget::DisplayTab);
            &&& pressed is Some <==> picker.displays@.len() > 0
            &&& pressed is Some ==> pressed->0.view is Display && pressed->0 == (OpenPicker {
                view: pressed->0.view,
                hovered: HitTarget::DisplayTab,
                ..picker
            })
        }),
        after_press(picker, HitTarget::Nothing) is None,
{
}

/// The other list can be shown exactly if it holds something, and going to the other list and back
/// ends where it began.
pub proof fn the_other_list_is_the_other_one(picker: OpenPicker, other: OpenPicker)
    ensures
        picker.other_view() != Some(picker.view),
        picker.view is Window ==> (picker.other_view() is Some <==> picker.displays@.len() > 0),
        picker.view is Display ==> (picker.other_view() is Some <==> picker.windows@.len() > 0),
        picker.wf() && picker.other_view() is Some && other == (OpenPicker {
            view: picker.other_view()->0,
            ..picker
        }) ==> other.other_view() == Some(picker.view),
{
}

/// Moving the selection by some steps moves it that far in the list that is shown, around its end,
/// and nowhere else.
pub proof fn moves_go_around_the_list(picker: OpenPicker, delta: int)
    requires
        picker.wf(),
        picker.windows@.len() <= usize::MAX,
        picker.displays@.len() <= usize::MAX,
    ensures
        ({
            let after = picker.after_move(delta);
            let windows = picker.windows@.len() as int;
            let displays = picker.displays@.len() as int;
            &&& after.view == picker.view
            &&& after.windows == picker.windows && after.displays == picker.displays
            &&& after.request == picker.request && after.remember == picker.remember
            &&& picker.view is Window ==> {
                &&& picker.selected_window is Some && after.selected_window is Some
                &&& after.selected_window->0 < windows
                &&& (picker.selected_window->0 + delta - after.selected_window->0) % windows == 0
                &&& 0 <= picker.selected_window->0 + delta < windows ==> after.selected_window->0
                    == picker.selected_window->0 + delta
                &&& picker.selected_window->0 + delta == windows ==> after.selected_window->0 == 0
                &&& picker.selected_window->0 + delta == -1 ==> after.selected_window->0 == windows
                    - 1
                &&& after.selected_display == picker.selected_display
            }
            &&& picker.view is Display ==> {
                &&& picker.selected_display is Some && after.selected_display is Some
                &&& after.selected_display->0 < displays
                &&& (picker.selected_display->0 + delta - after.selected_display->0) % displays
                    == 0
                &&& 0 <= picker.selected_display->0 + delta < displays
                    ==> after.selected_display->0 == picker.selected_display->0 + delta
                &&& picker.selected_display->0 + delta == displays ==> after.selected_display->0
                    == 0
                &&& picker.selected_display->0 + delta == -1 ==> after.selected_display->0
                    == displays - 1
                &&& after.selected_window == picker.selected_window
            }
        }),
{
    let n = if picker.view is Window {
        picker.windows@.len() as int
    } else {
        picker.displays@.len() as int
    };
    let at = if picker.view is Window {
        picker.selected_window->0 as int
    } else {
        picker.selected_display->0 as int
    };
    goes_around(at, delta, n);
}

proof fn goes_around(at: int, delta: int, n: int)
    requires
        n > 0,
        0 <= at < n,
    ensures
        0 <= (at + delta) % n < n,
        (at + delta - (at + delta) % n) % n == 0,
        0 <= at + delta < n ==> (at + delta) % n == at + delta,
        at + delta == n ==> (at + delta) % n == 0,
        at + delta == -1 ==> (at + delta) % n == n - 1,
{
    let s = at + delta;
    vstd::arithmetic::div_mod::lemma_fundamental_div_mod(s, n);
    vstd::arithmetic::div_mod::lemma_mod_bound(s, n);
    let q = s / n;
    assert(s - s % n == q * n) by (nonlinear_arith)
        requires
            s == n * q + s % n,
    ;
    vstd::arithmetic::div_mod::lemma_mod_multiples_basic(q, n);
    if 0 <= s < n {
        vstd::arithmetic::div_mod::lemma_small_mod(s as nat, n as nat);
    }
    if s == n {
        vstd::arithmetic::div_mod::lemma_mod_self_0(n);
    }
    if s == -1 {
        assert(-1 == n * (-1) + (n - 1)) by (nonlinear_arith);
        vstd::arithmetic::div_mod::lemma_fundamental_div_mod_converse(-1, n, -1, n - 1);
    }
}

/// Scrolling moves the list of windows by the given number of rows, but not past its ends.
pub proof fn scrolling_moves_the_list_by_rows(picker: OpenPicker, steps: int, grid: PanelGrid)
    requires
        picker.wf(),
        picker.view is Window,
        picker.windows@.len() <= usize::MAX,
    ensures
        ({
            let count = picker.windows@.len();
            let columns = grid.columns(count);
            let row = picker.window_row(grid);
            let to = picker.window_row_after(steps, grid);
            let after = picker.after_scroll(steps, grid);
            &&& after.window_scroll_row == to
            &&& steps == 0 ==> to == row
            &&& steps > 0 ==> row <= to <= row + steps
            &&& steps < 0 ==> row + steps <= to <= row
            &&& to == row + steps || (steps < 0 && to == 0) || (steps > 0 && (to + grid.rows())
                * columns >= count)
            &&& to == 0 || (to + grid.rows() - 1) * columns < count
            &&& after.windows == picker.windows && after.displays == picker.displays
            &&& after.view == picker.view && after.selected_display == picker.selected_display
            &&& after.request == picker.request && after.remember == picker.remember
        }),
{
    let count = picker.windows@.len();
    let columns = grid.columns(count);
    let rows = grid.rows();
    let to = picker.window_row_after(steps, grid);
    let last = last_start(count, columns, rows);
    first_row_shows_selection(
        count,
        picker.window_selection(),
        columns,
        rows,
        picker.window_scroll_row as nat,
    );
    rows_bound(count, columns);
    crate::laws::grid::rows_are_as_many_as_needed(count, columns);
    if to > 0 {
        existing_rows_hold_cards((to + rows - 1) as nat, count, columns);
    }
    if to == last {
        let total = rows_for(count, columns);
        assert((to + rows) * columns >= total * columns) by (nonlinear_arith)
            requires
                to + rows >= total,
        ;
    }
}

/// After scrolling, the selected window is one that is visible. It is the one that was selected, if
/// that is still visible, and else one of the nearest visible row, in the same column if that row
/// has a window there.
pub proof fn scrolling_takes_the_selection_along(picker: OpenPicker, steps: int, grid: PanelGrid)
    requires
        picker.wf(),
        picker.view is Window,
        picker.windows@.len() <= usize::MAX,
    ensures
        ({
            let count = picker.windows@.len();
            let columns = grid.columns(count);
            let rows = grid.rows();
            let old = picker.selected_window->0;
            let after = picker.after_scroll(steps, grid);
            let new = after.selected_window->0;
            let start = after.window_scroll_row;
            &&& picker.selected_window is Some && after.selected_window is Some
            &&& new < count
            &&& start * columns <= new < (start + rows) * columns
            &&& start * columns <= old < (start + rows) * columns ==> new == old
            &&& old < start * columns ==> new < (start + 1) * columns
            &&& old >= (start + rows) * columns ==> new >= (start + rows - 1) * columns
            &&& new as int % columns as int == old as int % columns as int || new == count - 1
        }),
{
    let count = picker.windows@.len();
    let columns = grid.columns(count);
    let rows = grid.rows();
    let old = picker.selected_window->0 as nat;
    let start = picker.window_row_after(steps, grid);
    let last = last_start(count, columns, rows);
    first_row_shows_selection(count, old, columns, rows, picker.window_scroll_row as nat);
    rows_bound(count, columns);
    quotient_bounds(old, columns);
    let q = old / columns;
    let r = old % columns;
    assert(start <= last);
    assert(start * columns <= old <==> start <= q) by (nonlinear_arith)
        requires
            old == columns * q + r,
            0 <= r < columns,
    ;
    assert(old < (start + rows) * columns <==> q < start + rows) by (nonlinear_arith)
        requires
            old == columns * q + r,
            0 <= r < columns,
    ;
    if q < start {
        lands_in_row(start, r, count, columns);
        assert((start + rows) * columns >= (start + 1) * columns) by (nonlinear_arith)
            requires
                rows >= 1,
        ;
    } else if q >= start + rows {
        let row = (start + rows - 1) as nat;
        lands_in_row(row, r, count, columns);
        assert(start * columns <= row * columns) by (nonlinear_arith)
            requires
                start <= row,
        ;
        assert((row + 1) * columns == (start + rows) * columns) by (nonlinear_arith)
            requires
                row + 1 == start + rows,
        ;
    }
}

proof fn lands_in_row(row: nat, column: nat, count: nat, columns: nat)
    requires
        columns > 0,
        column < columns,
        row < rows_for(count, columns),
    ensures
        ({
            let card = card_in(row, column, count, columns);
            &&& card < count
            &&& row * columns <= card < (row + 1) * columns
            &&& card % columns == column || card == count - 1
        }),
{
    existing_rows_hold_cards(row, count, columns);
    let card = row * columns + column;
    assert((row + 1) * columns == row * columns + columns) by (nonlinear_arith);
    assert(row * columns == columns * row) by (nonlinear_arith);
    vstd::arithmetic::div_mod::lemma_fundamental_div_mod_converse(
        card as int,
        columns as int,
        row as int,
        column as int,
    );
}

/// A picker opens exactly if none is on the screen, one source is asked for, and there is a source
/// of a kind that is asked for. Else the answer says which of that was not so.
pub proof fn pickers_open_iff(
    closed: bool,
    request: PickSourcesRequest,
    output: u64,
    displays: Vec<PickerCandidate>,
    windows: Vec<PickerCandidate>,
    messages: Messages,
    r: Result<OpenPicker, Seq<char>>,
)
    requires
        opened(closed, request, output, displays, windows, messages, r),
    ensures
        ({
            let types = request.options.source_types;
            let something = (types.monitor && displays@.len() > 0) || (types.window
                && windows@.len() > 0);
            &&& r is Ok <==> closed && !request.options.multiple && something
            &&& !closed ==> r->Err_0 == "screen cast picker is already open"@
            &&& closed && request.options.multiple ==> r->Err_0
                == "multiple source selection is not implemented yet"@
            &&& closed && !request.options.multiple && !something ==> r->Err_0
                == "no matching screen cast sources are available"@
        }),
{
}

/// A picker that opens offers exactly the sources of the kinds that are asked for, in order. It
/// shows the displays if there are any, has the first entry of each list selected, and has the
/// selection remembered if the client asks for that.
pub proof fn pickers_offer_what_is_asked_for(
    request: PickSourcesRequest,
    output: u64,
    displays: Vec<PickerCandidate>,
    windows: Vec<PickerCandidate>,
    messages: Messages,
    picker: OpenPicker,
)
    requires
        opened(true, request, output, displays, windows, messages, Ok(picker)),
    ensures
        request.options.source_types.monitor ==> picker.displays@ == displays@,
        request.options.source_types.window ==> picker.windows@ == windows@,
        !request.options.source_types.monitor ==> picker.displays@.len() == 0,
        !request.options.source_types.window ==> picker.windows@.len() == 0,
        picker.view is Display <==> picker.displays@.len() > 0,
        picker.displays@.len() > 0 ==> picker.selected_display == Some(0usize),
        picker.windows@.len() > 0 ==> picker.selected_window == Some(0usize),
        picker.displays@.len() == 0 ==> picker.selected_display is None,
        picker.windows@.len() == 0 ==> picker.selected_window is None,
        picker.remember <==> !(request.options.persist_mode is Never),
        picker.request == request,
        picker.output == output,
        picker.messages == messages,
        picker.window_scroll_row == 0,
        picker.window_scroll_remainder == 0,
        picker.hovered is Nothing,
{
}

/// The choice is never remembered longer than the client asked, and not at all if the user does not
/// want it.
pub proof fn choices_are_remembered_as_wanted(picker: OpenPicker)
    ensures
        picker.remember ==> picker.chosen_persist_mode() == picker.request.options.persist_mode,
        !picker.remember ==> picker.chosen_persist_mode() is Never,
{
}

/// Removing a window keeps the other candidates, in their order.
pub proof fn other_windows_stay_in_order(windows: Seq<PickerCandidate>, id: u64)
    ensures
        without_window(windows, id) == windows.filter(
            |candidate: PickerCandidate|
                !(candidate.target is Window && candidate.target->Window_id == id),
        ),
    decreases windows.len(),
{
    reveal(Seq::filter);
    if windows.len() > 0 {
        other_windows_stay_in_order(windows.drop_last(), id);
        targets_are_told_apart(windows.last().target, StreamTargetId::Window { id });
    }
}

proof fn filtered_whole(windows: Seq<PickerCandidate>, id: u64)
    ensures
        without_window(windows, id).len() <= windows.len(),
        without_window(windows, id).len() == windows.len() <==> forall|i: int|
            0 <= i < windows.len() ==> (#[trigger] windows[i]).target@ != Target::Window(id),
    decreases windows.len(),
{
    if windows.len() > 0 {
        let head = windows.drop_last();
        filtered_whole(head, id);
        if without_window(windows, id).len() == windows.len() {
            assert forall|i: int| 0 <= i < windows.len() implies (#[trigger] windows[i]).target@
                != Target::Window(id) by {
                if i < head.len() {
                    assert(head[i].target@ != Target::Window(id));
                }
            }
        }
        if forall|i: int|
            0 <= i < windows.len() ==> (#[trigger] windows[i]).target@ != Target::Window(id) {
            assert forall|i: int| 0 <= i < head.len() implies (#[trigger] head[i]).target@
                != Target::Window(id) by {
                assert(windows[i].target@ != Target::Window(id));
            }
            assert(windows[windows.len() - 1].target@ != Target::Window(id));
        }
    }
}

/// A window that disappears matters exactly if it is offered. The displays are shown instead if it
/// was the last window of the list that was shown, and without displays nothing is left.
pub proof fn removals_matter_iff_the_window_is_offered(picker: OpenPicker, id: u64)
    ensures
        picker.removal(id) is NotOffered <==> forall|i: int|
            0 <= i < picker.windows@.len() ==> !((#[trigger] picker.windows@[i]).target is Window
                && picker.windows@[i].target->Window_id == id),
        picker.removal(id) is NothingLeft ==> picker.view is Window && picker.displays@.len() == 0,
        picker.removal(id) is ShowsDisplays ==> picker.view is Window && picker.displays@.len() > 0,
        picker.removal(id) is NothingLeft || picker.removal(id) is ShowsDisplays ==> forall|i: int|
            0 <= i < picker.windows@.len() ==> (#[trigger] picker.windows@[i]).target is Window
                && picker.windows@[i].target->Window_id == id,
        picker.removal(id) is Removed ==> picker.view is Display || exists|i: int|
            0 <= i < picker.windows@.len() && !((#[trigger] picker.windows@[i]).target is Window
                && picker.windows@[i].target->Window_id == id),
{
    let windows = picker.windows@;
    filtered_whole(windows, id);
    let left = without_window(windows, id);
    assert forall|i: int| 0 <= i < windows.len() implies ((#[trigger] windows[i]).target@
        == Target::Window(id) <==> windows[i].target is Window && windows[i].target->Window_id
        == id) by {
        targets_are_told_apart(windows[i].target, StreamTargetId::Window { id });
    }
    assert forall|i: int|
        0 <= i < windows.len() && (#[trigger] windows[i]).target@ != Target::Window(
            id,
        ) implies left.len() > 0 by {
        crate::ui::picker::open_picker::removed_window_is_gone(windows, id, windows[i]);
        assert(left.contains(windows[i]));
    }
    if left.len() > 0 {
        crate::ui::picker::open_picker::removed_window_is_gone(windows, id, left[0]);
        assert(left.contains(left[0]));
        let i = choose|i: int| 0 <= i < windows.len() && windows[i] == left[0];
        assert(windows[i].target@ != Target::Window(id));
    }
}

/// A picker that lost a window starts its list of windows over: the first window that is left is
/// selected, and the list is shown from its start. The displays and the request stay.
pub proof fn removals_start_the_list_over(before: OpenPicker, id: u64, after: OpenPicker)
    requires
        is_removal(before, id, after),
    ensures
        after.windows@ == before.windows@.filter(
            |candidate: PickerCandidate|
                !(candidate.target is Window && candidate.target->Window_id == id),
        ),
        after.windows@.len() > 0 ==> after.selected_window == Some(0usize),
        after.windows@.len() == 0 ==> after.selected_window is None,
        after.window_scroll_row == 0,
        after.window_scroll_remainder == 0,
        after.hovered is Nothing,
        after.displays == before.displays,
        after.selected_display == before.selected_display,
        after.request == before.request,
        after.output == before.output,
        after.remember == before.remember,
        after.messages == before.messages,
        before.view is Display ==> after.view is Display,
        before.view is Window ==> (after.view is Display <==> after.windows@.len() == 0
            && before.displays@.len() > 0),
{
    other_windows_stay_in_order(before.windows@, id);
}

/// A picker is on the screen until it has disappeared, and takes input until it is answered.
/// Changing it changes nothing else of the state.
pub proof fn pickers_take_input_until_they_are_answered(
    picker: OpenPicker,
    other: OpenPicker,
    animating: bool,
)
    ensures
        (PickerUiState::Open { picker, animating }).on_screen() == Some(picker),
        (PickerUiState::Open { picker, animating }).taking_input() == Some(picker),
        (PickerUiState::Closing { picker }).on_screen() == Some(picker),
        (PickerUiState::Closing { picker }).taking_input() is None,
        PickerUiState::Closed.on_screen() is None,
        PickerUiState::Closed.taking_input() is None,
        (PickerUiState::Open { picker, animating }).with_picker(other) == (PickerUiState::Open {
            picker: other,
            animating,
        }),
{
}

/// An answer ends a picker that takes input: it goes to the channel of the request, after those
/// that were given before, and the picker disappears, or is gone at once with all its renderings.
pub proof fn answers_end_the_picker<B, E>(
    before: ScreenCastPickerUi<B, E>,
    after: ScreenCastPickerUi<B, E>,
    message: Reply,
    settled: bool,
    output: u64,
    variant: PickerRenderVariant,
)
    requires
        after.answers(before, message, settled),
    ensures
        before.state is Open,
        after.replies@.len() == before.replies@.len() + 1,
        after.replies@.last().reply == before.state->Open_picker.request.reply,
        after.replies@.last().message@ == message,
        after.state !is Open,
        settled ==> after.state is Closed && !after.panels.of(variant).contains_key(output)
            && after.frozen_backdrop is None && after.window_previews.element is None,
        !settled ==> after.state is Closing && after.state->Closing_picker
            == before.state->Open_picker && after.frozen_backdrop == before.frozen_backdrop,
{
}

/// Input that changes the picker has every panel drawn anew, and answers nothing.
pub proof fn changes_are_drawn<B, E>(
    before: ScreenCastPickerUi<B, E>,
    after: ScreenCastPickerUi<B, E>,
    output: u64,
    variant: PickerRenderVariant,
)
    ensures
        after.redraws(before) || after.redraws_with_previews(before) ==> {
            &&& !after.panels.of(variant).contains_key(output)
            &&& after.replies == before.replies
            &&& after.frozen_backdrop == before.frozen_backdrop
            &&& after.window_previews.element == before.window_previews.element
        },
        after.redraws_with_previews(before) ==> after.window_previews.last_refresh is None
            && after.display_preview_last_refresh is None,
        after.redraws(before) ==> after.window_previews.last_refresh
            == before.window_previews.last_refresh && after.display_preview_last_refresh
            == before.display_preview_last_refresh,
{
}

/// A position on a card hits the candidate of that card, the first one if there are several; on no
/// card it hits nothing.
pub proof fn cards_are_hit_where_they_are(cards: Seq<(usize, bool)>)
    ensures
        match first_hit(cards) {
            HitTarget::Candidate(index) => exists|k: int|
                0 <= k < cards.len() && (#[trigger] cards[k]).1 && cards[k].0 == index
                    && forall|j: int| 0 <= j < k ==> !(#[trigger] cards[j]).1,
            HitTarget::Nothing => forall|j: int| 0 <= j < cards.len() ==> !(#[trigger] cards[j]).1,
            _ => false,
        },
    decreases cards.len(),
{
    if cards.len() > 0 {
        let rest = cards.drop_first();
        cards_are_hit_where_they_are(rest);
        if cards[0].1 {
            assert(cards[0].0 == cards.first().0);
        } else {
            match first_hit(cards) {
                HitTarget::Candidate(index) => {
                    let k = choose|k: int|
                        0 <= k < rest.len() && (#[trigger] rest[k]).1 && rest[k].0 == index
                            && forall|j: int| 0 <= j < k ==> !(#[trigger] rest[j]).1;
                    assert(cards[k + 1] == rest[k]);
                    assert forall|j: int| 0 <= j < k + 1 implies !(#[trigger] cards[j]).1 by {
                        if j > 0 {
                            assert(rest[j - 1] == cards[j]);
                        }
                    }
                },
                _ => {
                    assert forall|j: int| 0 <= j < cards.len() implies !(#[trigger] cards[j]).1 by {
                        if j > 0 {
                            assert(rest[j - 1] == cards[j]);
                        }
                    }
                },
            }
        }
    }
}

/// A control is hit only where it is, and before any card. A position that is in no control hits
/// what the cards say.
pub proof fn controls_are_hit_where_they_are(controls: ControlHits, cards: Seq<(usize, bool)>)
    ensures
        ({
            let hit = hit_at(controls, cards);
            let remember = controls.remember == Some(true);
            &&& hit is Cancel <==> controls.cancel
            &&& hit is Share <==> controls.share && !controls.cancel
            &&& hit is Remember <==> remember && !controls.cancel && !controls.share
            &&& hit is WindowTab <==> controls.window_tab && !controls.cancel && !controls.share
                && !remember
            &&& hit is DisplayTab <==> controls.display_tab && !controls.cancel && !controls.share
                && !remember && !controls.window_tab
            &&& !controls.cancel && !controls.share && !remember && !controls.window_tab
                && !controls.display_tab ==> hit == first_hit(cards)
        }),
{
    cards_are_hit_where_they_are(cards);
}

/// The card of a candidate that is not blocked carries its title and its subtitle; without a
/// subtitle it says what kind of source it is. That of a blocked one carries neither.
pub proof fn cards_carry_their_texts(candidate: PickerCandidate, messages: Messages)
    ensures
        labels(candidate, false, messages).title == candidate.title@,
        candidate.subtitle is Some ==> labels(candidate, false, messages).subtitle
            == candidate.subtitle->0@,
        candidate.subtitle is None && candidate.target is Output ==> labels(
            candidate,
            false,
            messages,
        ).subtitle == messages.display@,
        candidate.subtitle is None && candidate.target is Window ==> labels(
            candidate,
            false,
            messages,
        ).subtitle == messages.window@,
        labels(candidate, true, messages).title == messages.protected_window@,
        labels(candidate, true, messages).subtitle == messages.hidden_from_screen_share@,
{
}

/// Selecting an entry of the list that is shown changes the selection of that list, and nothing
/// else.
pub proof fn selecting_changes_the_list_that_is_shown(picker: OpenPicker, i: usize)
    ensures
        ({
            let after = picker.with_selection(i);
            &&& picker.view is Window ==> after == (OpenPicker {
                selected_window: Some(i),
                ..picker
            })
            &&& picker.view is Display ==> after == (OpenPicker {
                selected_display: Some(i),
                ..picker
            })
            &&& picker.view is Window ==> picker.shown() == picker.windows@ && picker.selection()
                == picker.selected_window
            &&& picker.view is Display ==> picker.shown() == picker.displays@ && picker.selection()
                == picker.selected_display
        }),
{
}

/// A picker that takes input has a selection in the list that is shown, and offers only what was
/// asked for.
pub proof fn there_is_always_something_selected(picker: OpenPicker)
    requires
        picker.wf(),
    ensures
        picker.view is Window ==> picker.selected_window is Some && picker.selected_window->0
            < picker.windows@.len(),
        picker.view is Display ==> picker.selected_display is Some && picker.selected_display->0
            < picker.displays@.len(),
        picker.windows@.len() > 0 ==> picker.request.options.source_types.window,
        picker.displays@.len() > 0 ==> picker.request.options.source_types.monitor,
        !picker.request.options.multiple,
{
}

/// A picker that is gone leaves no rendering behind.
pub proof fn nothing_is_left_of_a_picker_that_is_gone<B, E>(
    before: ScreenCastPickerUi<B, E>,
    after: ScreenCastPickerUi<B, E>,
    output: u64,
    variant: PickerRenderVariant,
    name: Seq<char>,
)
    requires
        after.is_gone(before),
    ensures
        after.state is Closed,
        after.replies == before.replies,
        !after.panels.of(variant).contains_key(output),
        !after.display_previews.previews@.contains_key(name),
        after.display_preview_last_refresh is None,
        after.window_previews.key is None && after.window_previews.element is None
            && after.window_previews.last_refresh is None,
        after.frozen_backdrop is None,
{
}

/// What is shown on an output: nothing without a picker, or once its output is gone; on other
/// outputs than its own only what darkens the screen; and on its own nothing without a rendering of
/// the panel.
pub proof fn pickers_are_shown_on_their_output<B, E>(
    ui: ScreenCastPickerUi<B, E>,
    picker: OpenPicker,
    animating: bool,
    output: u64,
    host_alive: bool,
    variant: PickerRenderVariant,
    grid: PanelGrid,
)
    ensures
        ({
            let layers = ui.layers_on(output, host_alive, variant, grid);
            let shown = ui.state == (PickerUiState::Open { picker, animating }) || ui.state == (
            PickerUiState::Closing { picker });
            &&& ui.state is Closed ==> layers.len() == 0
            &&& !host_alive ==> layers.len() == 0
            &&& shown && host_alive && picker.output != output ==> layers.len() == 1 && layers[0]
                is Backdrop
            &&& shown && picker.output == output && !ui.panels.of(variant).contains_key(output)
                ==> layers.len() == 0
            &&& shown && host_alive && picker.output == output && ui.panels.of(
                variant,
            ).contains_key(output) ==> layers == ui.content_layers(picker, grid)
            &&& shown ==> (ui.hosted_by(output) <==> picker.output == output)
            &&& ui.state is Closed ==> !ui.hosted_by(output)
            &&& shown ==> (ui.shows_on(output, picker.view) <==> picker.output == output)
            &&& shown && picker.view is Window ==> !ui.shows_on(output, PickerView::Display)
            &&& shown && picker.view is Display ==> !ui.shows_on(output, PickerView::Window)
        }),
{
}

} // verus!
