//! Previews and the panel: what is rendered, when, and what it must not show.

use vstd::prelude::*;
use vstd::std_specs::cmp::PartialEqSpec;

use crate::dbus::target::StreamTargetId;
use crate::double::{is_number, same_number};
use crate::ui::picker::candidate::{HitTarget, PickerCandidate, PickerRenderVariant, PickerView};
use crate::ui::picker::frame::{
    background_layers, display_layers, kinds, outputs_in, shows_output, windows_in, LayerKind,
};
use crate::ui::picker::grid::{CardCell, PanelGrid};
use crate::ui::picker::open_picker::OpenPicker;
use crate::ui::picker::panel::{
    asking_app, blocked_ids, blocked_in, button_fill, card_fill, is_blocked, is_card, tab_fill,
    CardModel, PanelCaches, PanelKey, PanelKeyValue,
};
use crate::ui::picker::picker_ui::{Layer, ScreenCastPickerUi};
use crate::ui::picker::previews::{
    bounds_of, card_output, card_window, merged, preview_item, preview_items, refresh_due,
    requested_names, saturated, window_with_id, CardPreview, DisplayPreviewRequest, DisplayPreviews,
    PhysicalRect, PreviewKey, WindowInfo, WindowPreviewCache, WindowPreviewCacheItem,
    WindowPreviewCacheKey,
};

verus! {

/// Previews are rendered again once a thirtieth of a second went by, and at once if they were never
/// rendered. A clock that went back renders nothing.
pub proof fn previews_are_due_after_a_frame(last: u128, now: u128)
    ensures
        refresh_due(None, now),
        refresh_due(Some(last), now) <==> now >= last + 33_333_333,
        !refresh_due(Some(last), last),
        now < last ==> !refresh_due(Some(last), now),
{
}

/// The rectangle around two others is the smallest one: it lies in every rectangle that holds both,
/// unless it is too large for its edges or its size to fit.
pub proof fn rectangles_are_merged_tightly(a: PhysicalRect, b: PhysicalRect, around: PhysicalRect)
    requires
        a.width >= 0 && a.height >= 0,
        b.width >= 0 && b.height >= 0,
        a.x + a.width <= i32::MAX && a.y + a.height <= i32::MAX,
        b.x + b.width <= i32::MAX && b.y + b.height <= i32::MAX,
        around.x <= a.x && around.x <= b.x,
        around.y <= a.y && around.y <= b.y,
        a.x + a.width <= around.x + around.width && b.x + b.width <= around.x + around.width,
        a.y + a.height <= around.y + around.height && b.y + b.height <= around.y + around.height,
    ensures
        ({
            let m = merged(a, b);
            &&& around.x <= m.x <= a.x && m.x <= b.x
            &&& around.y <= m.y <= a.y && m.y <= b.y
            &&& a.x + a.width <= m.x + m.width && b.x + b.width <= m.x + m.width <= around.x
                + around.width
            &&& a.y + a.height <= m.y + m.height && b.y + b.height <= m.y + m.height <= around.y
                + around.height
        }),
{
}

/// A window is found by its id: it is one of the windows, it has the id, and none before it has.
/// Nothing is found only if no window has the id.
pub proof fn windows_are_found_by_id(windows: Seq<WindowInfo>, id: u64)
    ensures
        match window_with_id(windows, id) {
            Some(window) => exists|i: int|
                0 <= i < windows.len() && #[trigger] windows[i] == window && window.id == id
                    && forall|j: int| 0 <= j < i ==> (#[trigger] windows[j]).id != id,
            None => forall|j: int| 0 <= j < windows.len() ==> (#[trigger] windows[j]).id != id,
        },
    decreases windows.len(),
{
    if windows.len() > 0 {
        let rest = windows.drop_first();
        windows_are_found_by_id(rest, id);
        if windows[0].id == id {
            assert(windows[0] == window_with_id(windows, id)->0);
        } else {
            match window_with_id(windows, id) {
                Some(window) => {
                    let i = choose|i: int|
                        0 <= i < rest.len() && #[trigger] rest[i] == window && window.id == id
                            && forall|j: int| 0 <= j < i ==> (#[trigger] rest[j]).id != id;
                    assert(windows[i + 1] == window);
                    assert forall|j: int| 0 <= j < i + 1 implies (#[trigger] windows[j]).id
                        != id by {
                        if j > 0 {
                            assert(rest[j - 1] == windows[j]);
                        }
                    }
                },
                None => {
                    assert forall|j: int| 0 <= j < windows.len() implies (#[trigger] windows[j]).id
                        != id by {
                        if j > 0 {
                            assert(rest[j - 1] == windows[j]);
                        }
                    }
                },
            }
        }
    }
}

/// A card stands for the window or for the output that its candidate is, and never for both.
pub proof fn cards_stand_for_their_candidate(candidates: Seq<PickerCandidate>, index: usize)
    ensures
        index < candidates.len() && candidates[index as int].target is Window ==> card_window(
            candidates,
            index,
        ) == Some(candidates[index as int].target->Window_id) && card_output(candidates, index)
            is None,
        index < candidates.len() && candidates[index as int].target is Output ==> card_output(
            candidates,
            index,
        ) == Some(candidates[index as int].target->Output_name@) && card_window(candidates, index)
            is None,
        index >= candidates.len() ==> card_window(candidates, index) is None && card_output(
            candidates,
            index,
        ) is None,
{
}

/// The preview of a card shows the card's window, with the size that the window has, where the card
/// is. A window that is gone or that has no size has no preview.
pub proof fn previews_show_the_window_of_the_card(
    card: CardPreview,
    candidates: Seq<PickerCandidate>,
    windows: Seq<WindowInfo>,
    i: int,
)
    requires
        card.index < candidates.len(),
        candidates[card.index as int].target is Window,
        0 <= i < windows.len(),
        windows[i].id == candidates[card.index as int].target->Window_id,
        forall|j: int| 0 <= j < i ==> (#[trigger] windows[j]).id != windows[i].id,
    ensures
        ({
            let item = preview_item(card, candidates, windows);
            &&& item is Some <==> windows[i].width > 0 && windows[i].height > 0
            &&& item is Some ==> {
                &&& item->0.id == windows[i].id
                &&& item->0.source_width == windows[i].width
                &&& item->0.source_height == windows[i].height
                &&& item->0.bounds == card.bounds
                &&& item->0.blocked == windows[i].blocked
            }
        }),
{
    let id = windows[i].id;
    windows_are_found_by_id(windows, id);
    let window = window_with_id(windows, id)->0;
    let k = choose|k: int|
        0 <= k < windows.len() && #[trigger] windows[k] == window && window.id == id
            && forall|j: int| 0 <= j < k ==> (#[trigger] windows[j]).id != id;
    assert(k == i);
}

/// A card of an output, and one whose window is gone, have no window preview.
pub proof fn other_cards_have_no_window_preview(
    card: CardPreview,
    candidates: Seq<PickerCandidate>,
    windows: Seq<WindowInfo>,
)
    requires
        card.index < candidates.len(),
        candidates[card.index as int].target is Output || forall|j: int|
            0 <= j < windows.len() ==> (#[trigger] windows[j]).id
                != candidates[card.index as int].target->Window_id,
    ensures
        preview_item(card, candidates, windows) is None,
{
    if candidates[card.index as int].target is Window {
        windows_are_found_by_id(windows, candidates[card.index as int].target->Window_id);
    }
}

/// The window previews are those of the cards, in order: each card that has one adds it, and nothing
/// else does.
pub proof fn previews_follow_the_cards(
    cards: Seq<CardPreview>,
    candidates: Seq<PickerCandidate>,
    windows: Seq<WindowInfo>,
    n: nat,
)
    requires
        n < cards.len(),
    ensures
        preview_items(cards, candidates, windows, 0).len() == 0,
        preview_item(cards[n as int], candidates, windows) is Some ==> preview_items(
            cards,
            candidates,
            windows,
            n + 1,
        ) == preview_items(cards, candidates, windows, n).push(
            preview_item(cards[n as int], candidates, windows)->0,
        ),
        preview_item(cards[n as int], candidates, windows) is None ==> preview_items(
            cards,
            candidates,
            windows,
            n + 1,
        ) == preview_items(cards, candidates, windows, n),
{
}

/// The window previews are rendered into a rectangle that holds each of them, if all of them lie in
/// one that fits.
pub proof fn previews_lie_in_their_bounds(
    items: Seq<WindowPreviewCacheItem>,
    around: PhysicalRect,
)
    requires
        around.x + around.width <= i32::MAX && around.y + around.height <= i32::MAX,
        forall|i: int|
            0 <= i < items.len() ==> {
                let r = (#[trigger] items[i]).bounds;
                &&& r.width >= 0 && r.height >= 0
                &&& around.x <= r.x && r.x + r.width <= around.x + around.width
                &&& around.y <= r.y && r.y + r.height <= around.y + around.height
            },
    ensures
        bounds_of(items) is Some <==> items.len() > 0,
        items.len() > 0 ==> {
            let m = bounds_of(items)->0;
            &&& m.width >= 0 && m.height >= 0
            &&& around.x <= m.x && m.x + m.width <= around.x + around.width
            &&& around.y <= m.y && m.y + m.height <= around.y + around.height
            &&& forall|i: int|
                0 <= i < items.len() ==> {
                    let r = (#[trigger] items[i]).bounds;
                    &&& m.x <= r.x && r.x + r.width <= m.x + m.width
                    &&& m.y <= r.y && r.y + r.height <= m.y + m.height
                }
        },
        items.len() == 1 ==> bounds_of(items)->0 == items[0].bounds,
    decreases items.len(),
{
    if items.len() > 0 {
        let head = items.drop_last();
        assert forall|i: int| 0 <= i < head.len() implies {
            let r = (#[trigger] head[i]).bounds;
            &&& r.width >= 0 && r.height >= 0
            &&& around.x <= r.x && r.x + r.width <= around.x + around.width
            &&& around.y <= r.y && r.y + r.height <= around.y + around.height
        } by {
            assert(head[i] == items[i]);
        }
        previews_lie_in_their_bounds(head, around);
        assert(items.last() == items[items.len() - 1]);
        if head.len() > 0 {
            rectangles_are_merged_tightly(bounds_of(head)->0, items.last().bounds, around);
            let m = bounds_of(items)->0;
            assert forall|i: int| 0 <= i < items.len() implies {
                let r = (#[trigger] items[i]).bounds;
                &&& m.x <= r.x && r.x + r.width <= m.x + m.width
                &&& m.y <= r.y && r.y + r.height <= m.y + m.height
            } by {
                if i < head.len() {
                    assert(head[i] == items[i]);
                }
            }
        }
    }
}

/// The names that are asked for are those of the requests.
pub proof fn requests_ask_for_their_names(requests: Seq<DisplayPreviewRequest>, name: Seq<char>)
    ensures
        requested_names(requests).contains(name) <==> exists|i: int|
            0 <= i < requests.len() && (#[trigger] requests[i]).name@ == name,
{
    let names = requests.map_values(|request: DisplayPreviewRequest| request.name@);
    if exists|i: int| 0 <= i < requests.len() && (#[trigger] requests[i]).name@ == name {
        let i = choose|i: int| 0 <= i < requests.len() && (#[trigger] requests[i]).name@ == name;
        assert(names[i] == name);
    }
    if names.contains(name) {
        let i = choose|i: int| 0 <= i < names.len() && names[i] == name;
        assert(requests[i].name@ == name);
    }
}

/// The previews of outputs that are asked for are those of the cells that show an output, in order.
pub proof fn output_previews_follow_the_cells(
    candidates: Seq<PickerCandidate>,
    cells: Seq<CardCell>,
    n: nat,
)
    requires
        n < cells.len(),
        cells[n as int].index < candidates.len(),
    ensures
        outputs_in(candidates, cells, 0).len() == 0,
        windows_in(candidates, cells, 0).len() == 0,
        ({
            let target = candidates[cells[n as int].index as int].target;
            &&& target is Output ==> outputs_in(candidates, cells, n + 1) == outputs_in(
                candidates,
                cells,
                n,
            ).push((target->Output_name@, cells[n as int])) && windows_in(candidates, cells, n + 1)
                == windows_in(candidates, cells, n)
            &&& target is Window ==> windows_in(candidates, cells, n + 1) == windows_in(
                candidates,
                cells,
                n,
            ).push(target->Window_id) && outputs_in(candidates, cells, n + 1) == outputs_in(
                candidates,
                cells,
                n,
            )
        }),
{
}

/// An output is shown exactly if the candidate of a visible card is that output.
pub proof fn outputs_are_shown_by_their_cards(
    candidates: Seq<PickerCandidate>,
    cells: Seq<CardCell>,
    name: Seq<char>,
)
    ensures
        shows_output(candidates, cells, name) <==> exists|k: int|
            0 <= k < cells.len() && (#[trigger] cells[k]).index < candidates.len()
                && candidates[cells[k].index as int].target is Output
                && candidates[cells[k].index as int].target->Output_name@ == name,
{
    if shows_output(candidates, cells, name) {
        let k = choose|k: int|
            0 <= k < cells.len() && card_output(candidates, (#[trigger] cells[k]).index) == Some(
                name,
            );
        assert(cells[k].index < candidates.len());
    }
    if exists|k: int|
        0 <= k < cells.len() && (#[trigger] cells[k]).index < candidates.len()
            && candidates[cells[k].index as int].target is Output
            && candidates[cells[k].index as int].target->Output_name@ == name {
        let k = choose|k: int|
            0 <= k < cells.len() && (#[trigger] cells[k]).index < candidates.len()
                && candidates[cells[k].index as int].target is Output
                && candidates[cells[k].index as int].target->Output_name@ == name;
        assert(card_output(candidates, cells[k].index) == Some(name));
    }
}

/// The preview of an output is shown on the card of that output, if it was rendered, and nothing
/// else is shown of it.
pub proof fn rendered_previews_are_shown<E>(
    candidates: Seq<PickerCandidate>,
    cells: Seq<CardCell>,
    previews: DisplayPreviews<E>,
    n: nat,
)
    requires
        n < cells.len(),
        cells[n as int].index < candidates.len(),
    ensures
        display_layers(candidates, cells, previews, 0).len() == 0,
        ({
            let target = candidates[cells[n as int].index as int].target;
            let rendered = target is Output && previews.previews@.contains_key(
                target->Output_name@,
            ) && previews.previews@[target->Output_name@] is Some;
            &&& rendered ==> display_layers(candidates, cells, previews, n + 1) == display_layers(
                candidates,
                cells,
                previews,
                n,
            ).push(LayerKind::DisplayPreview(n as int, target->Output_name@))
            &&& !rendered ==> display_layers(candidates, cells, previews, n + 1)
                == display_layers(candidates, cells, previews, n)
        }),
{
}

/// On its own output the picker is a stack: the panel on top, then the previews, then one
/// background for each visible card, in order, and below all of it what darkens the screen.
pub proof fn layers_are_stacked_in_order<B, E>(
    ui: ScreenCastPickerUi<B, E>,
    picker: OpenPicker,
    grid: PanelGrid,
)
    ensures
        ({
            let layers = ui.content_layers(picker, grid);
            let cells = picker.cards(grid).len() as int;
            let n = layers.len() as int;
            &&& n >= cells + 2
            &&& layers[0] is Panel
            &&& layers[n - 1] is Backdrop
            &&& forall|k: int|
                0 <= k < cells ==> #[trigger] layers[n - 1 - cells + k]
                    == LayerKind::PreviewBackground(k)
            &&& picker.view is Window && ui.window_previews.element is Some ==> n == cells + 3
                && layers[1] is WindowPreviews
            &&& picker.view is Window && ui.window_previews.element is None ==> n == cells + 2
            &&& picker.view is Display ==> layers.subrange(1, n - 1 - cells) == display_layers(
                match picker.view {
                    PickerView::Window => picker.windows@,
                    PickerView::Display => picker.displays@,
                },
                picker.cards(grid),
                ui.display_previews,
                picker.cards(grid).len(),
            )
        }),
{
    let layers = ui.content_layers(picker, grid);
    let cells = picker.cards(grid);
    let backgrounds = background_layers(cells.len());
    let n = layers.len() as int;
    assert forall|k: int| 0 <= k < cells.len() implies #[trigger] layers[n - 1 - cells.len() + k]
        == LayerKind::PreviewBackground(k) by {
        assert(backgrounds[k] == LayerKind::PreviewBackground(k));
    }
    if picker.view is Display {
        let previews = display_layers(picker.shown(), cells, ui.display_previews, cells.len());
        assert(layers.subrange(1, n - 1 - cells.len()) =~= previews);
    }
}

/// Two keys of window previews agree exactly if their scales are the same number and their items
/// are the same, in order.
pub proof fn preview_keys_agree_iff(a: PreviewKey, b: PreviewKey)
    ensures
        a.agrees_with(b) <==> same_number(a.scale, b.scale) && a.items.len() == b.items.len()
            && forall|i: int| 0 <= i < a.items.len() ==> a.items[i] == b.items[i],
{
    if a.items.len() == b.items.len() && forall|i: int|
        0 <= i < a.items.len() ==> a.items[i] == b.items[i] {
        assert(a.items =~= b.items);
    }
}

/// Two keys of a panel agree exactly if all their measures and colors are the same numbers, and the
/// same windows are blocked.
pub proof fn panel_keys_agree_iff(a: PanelKeyValue, b: PanelKeyValue)
    ensures
        a.agrees_with(b) <==> {
            &&& same_number(a.scale, b.scale)
            &&& same_number(a.width, b.width)
            &&& same_number(a.height, b.height)
            &&& a.palette.len() == b.palette.len()
            &&& forall|i: int|
                0 <= i < a.palette.len() ==> same_number(#[trigger] a.palette[i], b.palette[i])
            &&& a.blocked_window_ids =~= b.blocked_window_ids
        },
{
}

/// Doubles are the same number if their bits are the same and they are numbers, or if they are the
/// two zeros; what is no number is the same as nothing.
pub proof fn doubles_are_compared_as_numbers(a: u64, b: u64)
    ensures
        same_number(0, 0x8000_0000_0000_0000),
        a == b && (a <= 0x7ff0_0000_0000_0000 || 0x8000_0000_0000_0000 <= a
            <= 0xfff0_0000_0000_0000) ==> same_number(a, b),
        same_number(a, b) && a != b ==> (a == 0 && b == 0x8000_0000_0000_0000) || (a
            == 0x8000_0000_0000_0000 && b == 0),
        0x7ff0_0000_0000_0000 < a < 0x8000_0000_0000_0000 ==> !same_number(a, b),
        a > 0xfff0_0000_0000_0000 ==> !same_number(a, b),
        is_number(a) <==> same_number(a, a),
{
}

/// The one action that counts stands out: only the primary button has the accent color, what is
/// under the pointer looks different from what is not, and the list that is shown and the card that
/// is selected are marked.
pub proof fn fills_say_what_is_active(hovered: bool, enabled: bool)
    ensures
        button_fill(true, false) is Accent,
        button_fill(true, true) is AccentHover,
        button_fill(false, false) is Surface,
        button_fill(false, true) is SurfaceHover,
        tab_fill(true, hovered, enabled) is SurfaceActive,
        tab_fill(false, true, true) is SurfaceHover,
        tab_fill(false, hovered, false) is Surface,
        tab_fill(false, false, enabled) is Surface,
        card_fill(true, hovered) is SurfaceActive,
        card_fill(false, true) is SurfaceHover,
        card_fill(false, false) is Surface,
{
}

/// Exactly the windows whose ids are listed are blocked. Outputs never are.
pub proof fn listed_windows_are_blocked(target: StreamTargetId, blocked: Seq<u64>)
    ensures
        target is Output ==> !is_blocked(target, blocked),
        target is Window ==> (is_blocked(target, blocked) <==> exists|i: int|
            0 <= i < blocked.len() && #[trigger] blocked[i] == target->Window_id),
{
}

/// A card shows the candidate of its cell: its title and its subtitle, and whether it is the
/// selected one of its list. Of a blocked window it shows neither.
pub proof fn cards_show_the_candidate_of_their_cell(
    card: CardModel,
    cell: CardCell,
    picker: OpenPicker,
    blocked: Seq<u64>,
)
    requires
        is_card(card, cell, picker, blocked),
    ensures
        ({
            let candidate = match picker.view {
                PickerView::Window => picker.windows@[cell.index as int],
                PickerView::Display => picker.displays@[cell.index as int],
            };
            let hidden = candidate.target is Window && blocked.contains(
                candidate.target->Window_id,
            );
            &&& card.cell == cell
            &&& !hidden ==> card.title@ == candidate.title@
            &&& !hidden && candidate.subtitle is Some ==> card.subtitle@ == candidate.subtitle->0@
            &&& hidden ==> card.title@ == picker.messages.protected_window@ && card.subtitle@
                == picker.messages.hidden_from_screen_share@
            &&& picker.view is Window ==> (card.selected <==> picker.selected_window == Some(
                cell.index,
            ))
            &&& picker.view is Display ==> (card.selected <==> picker.selected_display == Some(
                cell.index,
            ))
            &&& card.selected ==> card.fill is SurfaceActive
            &&& !card.selected ==> (card.fill is SurfaceHover <==> picker.hovered
                == HitTarget::Candidate(cell.index))
        }),
{
}

proof fn listed_iff_blocked(
    cells: Seq<CardCell>,
    picker: OpenPicker,
    windows: Seq<WindowInfo>,
    n: nat,
    id: u64,
)
    requires
        n <= cells.len(),
    ensures
        blocked_in(cells, picker, windows, n).contains(id) <==> exists|k: int|
            0 <= k < n && card_window(picker.shown(), (#[trigger] cells[k]).index) == Some(id)
                && window_with_id(windows, id) is Some && window_with_id(windows, id)->0.blocked,
    decreases n,
{
    let now = blocked_in(cells, picker, windows, n);
    if n > 0 {
        let before = blocked_in(cells, picker, windows, (n - 1) as nat);
        listed_iff_blocked(cells, picker, windows, (n - 1) as nat, id);
        let last = card_window(picker.shown(), cells[n - 1].index);
        if last is Some && window_with_id(windows, last->0) is Some && window_with_id(
            windows,
            last->0,
        )->0.blocked {
            vstd::seq_lib::lemma_seq_contains_after_push(before, last->0, id);
            if last->0 == id {
                assert(card_window(picker.shown(), cells[n - 1].index) == Some(id));
            }
        }
        if before.contains(id) {
            let k = choose|k: int|
                0 <= k < n - 1 && card_window(picker.shown(), (#[trigger] cells[k]).index) == Some(
                    id,
                ) && window_with_id(windows, id) is Some && window_with_id(windows, id)->0.blocked;
            assert(card_window(picker.shown(), cells[k].index) == Some(id));
        }
    }
}

/// For a screen cast exactly the visible windows are blocked that the compositor hides from screen
/// casts. Where the user sees the panel, none is.
pub proof fn hidden_windows_are_blocked(
    picker: OpenPicker,
    grid: PanelGrid,
    windows: Seq<WindowInfo>,
    id: u64,
)
    ensures
        blocked_ids(picker, grid, PickerRenderVariant::Output, windows).len() == 0,
        blocked_ids(picker, grid, PickerRenderVariant::Screencast, windows).contains(id) <==> {
            &&& exists|k: int|
                0 <= k < picker.cards(grid).len() && card_window(
                    match picker.view {
                        PickerView::Window => picker.windows@,
                        PickerView::Display => picker.displays@,
                    },
                    (#[trigger] picker.cards(grid)[k]).index,
                ) == Some(id)
            &&& exists|i: int|
                0 <= i < windows.len() && (#[trigger] windows[i]).id == id && windows[i].blocked
                    && forall|j: int| 0 <= j < i ==> (#[trigger] windows[j]).id != id
        },
{
    let cells = picker.cards(grid);
    listed_iff_blocked(cells, picker, windows, cells.len(), id);
    windows_are_found_by_id(windows, id);
    if window_with_id(windows, id) is Some {
        let window = window_with_id(windows, id)->0;
        let i = choose|i: int|
            0 <= i < windows.len() && #[trigger] windows[i] == window && window.id == id
                && forall|j: int| 0 <= j < i ==> (#[trigger] windows[j]).id != id;
        assert(windows[i].id == id);
        assert forall|k: int|
            0 <= k < windows.len() && (#[trigger] windows[k]).id == id && (forall|j: int|
                0 <= j < k ==> (#[trigger] windows[j]).id != id) implies k == i by {}
    }
    if exists|k: int|
        0 <= k < cells.len() && card_window(picker.shown(), (#[trigger] cells[k]).index) == Some(
            id,
        ) && window_with_id(windows, id) is Some && window_with_id(windows, id)->0.blocked {
        let k = choose|k: int|
            0 <= k < cells.len() && card_window(picker.shown(), (#[trigger] cells[k]).index)
                == Some(id);
        assert(card_window(picker.shown(), picker.cards(grid)[k].index) == Some(id));
    }
}

/// An app is named to the user by its id, unless that is empty.
pub proof fn apps_are_named_by_their_id(app_id: Seq<char>)
    ensures
        app_id.len() > 0 ==> asking_app(app_id) == Some(app_id),
        asking_app(Seq::empty()) is None,
{
}

/// A rendering of the panel is kept for an output and a variant, and used exactly if what it was
/// rendered from agrees with what is asked for.
pub proof fn renderings_are_used_for_what_they_were_made_for<B>(
    caches: PanelCaches<B>,
    output: u64,
    key: PanelKeyValue,
)
    ensures
        caches.of(PickerRenderVariant::Output) == caches.for_output@,
        caches.of(PickerRenderVariant::Screencast) == caches.for_screencast@,
        caches.is_fresh(output, PickerRenderVariant::Output, key) <==> caches.for_output@.contains_key(
            output,
        ) && caches.for_output@[output].key@.agrees_with(key),
        caches.is_fresh(output, PickerRenderVariant::Screencast, key)
            <==> caches.for_screencast@.contains_key(output)
            && caches.for_screencast@[output].key@.agrees_with(key),
        caches.is_blank() ==> !caches.for_output@.contains_key(output)
            && !caches.for_screencast@.contains_key(output),
{
}

/// Keys are what they are made of, and compare by it.
pub proof fn keys_are_what_they_are_made_of(
    one: PanelKey,
    other: PanelKey,
    a: WindowPreviewCacheKey,
    b: WindowPreviewCacheKey,
)
    ensures
        one@.scale == one.scale && one@.width == one.width && one@.height == one.height,
        one@.palette == one.palette@ && one@.blocked_window_ids == one.blocked_window_ids@,
        one.eq_spec(&other) <==> one@.agrees_with(other@),
        a@.scale == a.scale && a@.items == a.items@,
        a.eq_spec(&b) <==> a@.agrees_with(b@),
{
}

/// The previews of windows are kept for the key that they were rendered from.
pub proof fn previews_are_kept_for_their_key<E>(
    cache: WindowPreviewCache<E>,
    previews: DisplayPreviews<E>,
    key: PreviewKey,
    name: Seq<char>,
)
    ensures
        cache.has_key(key) <==> cache.key is Some && cache.key->0@.agrees_with(key),
        cache.is_blank() <==> cache.key is None && cache.element is None && cache.last_refresh
            is None,
        previews.has(name) <==> previews.previews@.contains_key(name) && previews.previews@[name]
            is Some,
{
}

/// The edges of the rectangle around two others are the outermost of their edges, where an edge that
/// does not fit is moved to where it does. That holds of rectangles with a negative size too.
pub proof fn merged_edges_are_the_outermost(a: PhysicalRect, b: PhysicalRect)
    requires
        i32::MIN <= a.x + a.width <= i32::MAX && i32::MIN <= a.y + a.height <= i32::MAX,
        i32::MIN <= b.x + b.width <= i32::MAX && i32::MIN <= b.y + b.height <= i32::MAX,
    ensures
        ({
            let m = merged(a, b);
            &&& m.x <= a.x && m.x <= b.x && m.x <= a.x + a.width && m.x <= b.x + b.width
            &&& m.x == a.x || m.x == b.x || m.x == a.x + a.width || m.x == b.x + b.width
            &&& m.y <= a.y && m.y <= b.y && m.y <= a.y + a.height && m.y <= b.y + b.height
            &&& m.y == a.y || m.y == b.y || m.y == a.y + a.height || m.y == b.y + b.height
            &&& m.width >= 0 && m.height >= 0
            &&& m.width < i32::MAX ==> {
                let right = m.x + m.width;
                &&& right >= a.x && right >= b.x && right >= a.x + a.width && right >= b.x + b.width
                &&& right == a.x || right == b.x || right == a.x + a.width || right == b.x + b.width
            }
            &&& m.height < i32::MAX ==> {
                let bottom = m.y + m.height;
                &&& bottom >= a.y && bottom >= b.y && bottom >= a.y + a.height && bottom >= b.y
                    + b.height
                &&& bottom == a.y || bottom == b.y || bottom == a.y + a.height || bottom == b.y
                    + b.height
            }
        }),
{
}

/// A number that does not fit becomes the nearest one that does.
pub proof fn numbers_that_do_not_fit_are_moved(n: int, rect: PhysicalRect)
    ensures
        i32::MIN <= n <= i32::MAX ==> saturated(n) == n,
        n > i32::MAX ==> saturated(n) == i32::MAX,
        n < i32::MIN ==> saturated(n) == i32::MIN,
        rect.right() == saturated(rect.x + rect.width),
        rect.bottom() == saturated(rect.y + rect.height),
{
}

/// A layer is of the kind that it is, on the card that it is on.
pub proof fn layers_are_what_they_are(layers: Seq<Layer>, i: int)
    requires
        0 <= i < layers.len(),
    ensures
        kinds(layers).len() == layers.len(),
        layers[i] is Panel <==> kinds(layers)[i] is Panel,
        layers[i] is WindowPreviews <==> kinds(layers)[i] is WindowPreviews,
        layers[i] is Backdrop <==> kinds(layers)[i] is Backdrop,
        layers[i] is DisplayPreview ==> kinds(layers)[i] == LayerKind::DisplayPreview(
            layers[i]->DisplayPreview_card as int,
            layers[i]->name@,
        ),
        layers[i] is PreviewBackground ==> kinds(layers)[i] == LayerKind::PreviewBackground(
            layers[i]->PreviewBackground_card as int,
        ),
{
}

} // verus!
