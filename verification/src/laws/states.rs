//! What holds of every state, and what stays as it was.

use vstd::prelude::*;

use crate::assoc::Owned;
use crate::dbus::freedesktop_portal::found_again;
use crate::dbus::mutter_screen_cast::{Session, StreamTarget};
use crate::dbus::niri_portal_screen_cast::{
    cancels, CancelledPick, PickSourcesResults, PickerRequestId, PickerRequestState, Reply,
};
use crate::dbus::outputs::OutputInfo;
use crate::dbus::portal_backend::{fails_start, CastStart, FailedStart, ScreenCastBackend};
use crate::dbus::selection_tokens::SelectionGrant;
use crate::dbus::target::Target;
use crate::ui::i18n::{Catalog, Messages};
use crate::ui::picker::grid::PanelGrid;
use crate::ui::picker::open_picker::OpenPicker;
use crate::ui::picker::picker_ui::{PickerUiState, ScreenCastPickerUi};
use crate::ui::picker::previews::{contains_rect, PhysicalRect};

verus! {

/// A picker is sound if each of its lists has a selection exactly if there is something in it, if
/// one source is asked for, and if it offers and remembers no more than what is asked for. To take
/// input it also needs something in the list that is shown.
pub proof fn pickers_are_sound_iff(picker: OpenPicker)
    ensures
        picker.wf_lists() <==> {
            &&& picker.selected_display is None ==> picker.displays@.len() == 0
            &&& picker.selected_display is Some ==> picker.selected_display->0
                < picker.displays@.len()
            &&& picker.selected_window is None ==> picker.windows@.len() == 0
            &&& picker.selected_window is Some ==> picker.selected_window->0
                < picker.windows@.len()
            &&& !picker.request.options.multiple
            &&& picker.displays@.len() == 0 || picker.request.options.source_types.monitor
            &&& picker.windows@.len() == 0 || picker.request.options.source_types.window
            &&& picker.request.options.persist_mode is Never ==> !picker.remember
        },
        picker.view is Display ==> (picker.wf() <==> picker.wf_lists() && picker.displays@.len()
            > 0),
        picker.view is Window ==> (picker.wf() <==> picker.wf_lists() && picker.windows@.len()
            > 0),
{
}

/// Lists are sorted by kind exactly if every display is an output and every window is a window.
pub proof fn lists_are_sorted_iff(picker: OpenPicker, i: int)
    ensures
        picker.sorted_by_kind() && 0 <= i < picker.displays@.len() ==> picker.displays@[i].target
            is Output,
        picker.sorted_by_kind() && 0 <= i < picker.windows@.len() ==> picker.windows@[i].target
            is Window,
        (forall|j: int|
            0 <= j < picker.displays@.len() ==> (#[trigger] picker.displays@[j]).target !is Window)
            && (forall|j: int|
            0 <= j < picker.windows@.len() ==> (#[trigger] picker.windows@[j]).target !is Output)
            ==> picker.sorted_by_kind(),
{
}

/// Without a selection the first card counts as selected.
pub proof fn the_first_card_stands_in_for_a_selection(
    picker: OpenPicker,
    first: OpenPicker,
    grid: PanelGrid,
    delta: int,
)
    requires
        picker.view is Window,
        picker.selected_window is None,
        first == (OpenPicker { selected_window: Some(0), ..picker }),
    ensures
        picker.window_selection() == 0,
        picker.cards(grid) == first.cards(grid),
        picker.after_move(delta) == first.after_move(delta),
{
}

/// What is on the screen: a picker that takes input, or one that is disappearing.
pub proof fn pickers_stay_on_the_screen_while_they_disappear(
    state: PickerUiState,
    picker: OpenPicker,
    animating: bool,
)
    ensures
        state is Closed <==> state.on_screen() is None,
        (PickerUiState::Open { picker, animating }).on_screen() == Some(picker),
        (PickerUiState::Closing { picker }).on_screen() == Some(picker),
        state is Closed ==> state.wf(),
        (PickerUiState::Open { picker, animating }).wf() <==> picker.wf(),
        (PickerUiState::Closing { picker }).wf() <==> picker.wf_lists(),
{
}

/// The whole is sound exactly if the picker on the screen and the kept previews are.
pub proof fn the_whole_is_sound_iff<B, E>(ui: ScreenCastPickerUi<B, E>)
    ensures
        ui.wf() <==> ui.state.wf() && ui.display_previews.previews.wf(),
{
}

/// Input that changes the picker drops the renderings of the panel and keeps all others; where the
/// previews are due at once, only the times of their last rendering go.
pub proof fn input_keeps_the_previews<B, E>(
    before: ScreenCastPickerUi<B, E>,
    after: ScreenCastPickerUi<B, E>,
)
    ensures
        after.keeps_previews(before) || after.redraws(before) || after.redraws_with_previews(before)
            ==> {
            &&& after.display_previews == before.display_previews
            &&& after.window_previews.key == before.window_previews.key
            &&& after.window_previews.element == before.window_previews.element
            &&& after.frozen_backdrop == before.frozen_backdrop
            &&& after.replies == before.replies
        },
        after.keeps_previews(before) ==> after.window_previews == before.window_previews
            && after.display_preview_last_refresh == before.display_preview_last_refresh,
{
}

/// A picker that is answered and has time to disappear is drawn as before until it is gone, and no
/// earlier answer changes.
pub proof fn answered_pickers_are_drawn_as_before<B, E>(
    before: ScreenCastPickerUi<B, E>,
    after: ScreenCastPickerUi<B, E>,
    message: Reply,
    settled: bool,
    i: int,
)
    requires
        after.answers(before, message, settled),
    ensures
        0 <= i < before.replies@.len() ==> after.replies@[i] == before.replies@[i],
        !settled ==> {
            &&& after.panels == before.panels
            &&& after.display_previews == before.display_previews
            &&& after.display_preview_last_refresh == before.display_preview_last_refresh
            &&& after.window_previews == before.window_previews
            &&& after.frozen_backdrop == before.frozen_backdrop
        },
{
    if 0 <= i < before.replies@.len() {
        assert(after.replies@.drop_last()[i] == after.replies@[i]);
    }
}

/// A picker stops taking input only with one more answer, on the channel of its request. Else
/// nothing is answered, and never does an earlier answer change.
pub proof fn no_request_goes_unanswered<B, E>(
    before: ScreenCastPickerUi<B, E>,
    after: ScreenCastPickerUi<B, E>,
    i: int,
)
    requires
        after.answers_what_it_drops(before),
    ensures
        before.state is Open && after.state !is Open ==> after.replies@.len()
            == before.replies@.len() + 1 && after.replies@[before.replies@.len() as int].reply
            == before.state->Open_picker.request.reply,
        before.state !is Open || after.state is Open ==> after.replies == before.replies,
        0 <= i < before.replies@.len() ==> after.replies@[i] == before.replies@[i],
{
    if before.state is Open && after.state !is Open && 0 <= i < before.replies@.len() {
        assert(after.replies@.drop_last()[i] == after.replies@[i]);
    }
}

/// Only outputs that stand in the layout are recorded, under the session that the stream belongs
/// to.
pub proof fn recorded_outputs_stand_in_the_layout(
    session: Session,
    output: OutputInfo,
    id: u64,
    i: int,
)
    ensures
        StreamTarget::Output(output).wf() <==> output.logical is Some,
        (StreamTarget::Window { id }).wf(),
        session.wf() && 0 <= i < session.streams@.len() ==> {
            let stream = session.streams@[i];
            &&& stream.session_id == session.id
            &&& stream.target matches StreamTarget::Output(recorded) ==> recorded.logical is Some
        },
        session.streams@.len() == 0 ==> session.wf(),
{
}

/// A name owns what carries it, and a token belongs to the client that it was issued to.
pub proof fn names_own_what_carries_them(name: String, grant: SelectionGrant, owner: Seq<char>)
    ensures
        name.owned_by(owner) <==> name@ == owner,
        grant.owned_by(owner) <==> grant@.sender == owner,
{
}

/// Results that grant nothing hold nothing.
pub proof fn results_that_grant_nothing_are_empty(results: PickSourcesResults)
    ensures
        results.is_blank() <==> results.sources is None && results.persist_mode is None
            && results.selection_token is None,
{
}

/// A cancellation that finds no request leaves everything as it was.
pub proof fn vain_cancellations_change_nothing(
    before: PickerRequestState,
    id: PickerRequestId,
    r: Option<CancelledPick>,
    after: PickerRequestState,
)
    requires
        cancels(before, id, r, after),
        before.pending is None || before.pending->0.id@ != id@,
    ensures
        r is None,
        after == before,
{
}

/// There are never more streams than sources, and there may be as many.
pub proof fn streams_are_no_more_than_sources(cast: CastStart)
    ensures
        cast.wf() <==> !(cast.streams@.len() > cast.chosen.sources@.len()),
        cast.complete() ==> cast.wf(),
{
}

/// A start that fails uses up no session number.
pub proof fn failed_starts_count_no_session(
    before: ScreenCastBackend,
    path: Seq<char>,
    cast: u64,
    failed: FailedStart,
    after: ScreenCastBackend,
)
    requires
        fails_start(before, path, cast, failed, after),
    ensures
        after.session_counter == before.session_counter,
{
}

/// Messages say which catalog they are from.
pub proof fn messages_say_their_catalog(messages: Messages, catalog: Catalog)
    requires
        messages.speaks(catalog),
    ensures
        messages.catalog == catalog,
{
}

/// A rectangle may be empty in both directions, and one rectangle lies within another exactly if
/// each of its edges does. (Edges that cannot be told count as the last that can.)
pub proof fn rectangles_lie_within_each_other_by_their_edges(
    outer: PhysicalRect,
    inner: PhysicalRect,
)
    ensures
        inner.wf() <==> !(inner.width < 0) && !(inner.height < 0),
        inner.wf() && inner.x + inner.width <= i32::MAX && inner.y + inner.height <= i32::MAX ==> (
        contains_rect(outer, inner) <==> {
            &&& inner.x >= outer.x
            &&& inner.y >= outer.y
            &&& inner.x + inner.width <= outer.x + outer.width
            &&& inner.y + inner.height <= outer.y + outer.height
        }),
{
}

/// Windows are not found again, nor are outputs whose names are gone.
pub proof fn only_outputs_are_found_again(outputs: Seq<OutputInfo>, name: Seq<char>, id: u64)
    ensures
        !found_again(Target::Window(id), outputs),
        outputs.len() == 0 ==> !found_again(Target::Output(name), outputs),
        found_again(Target::Output(name), outputs) ==> exists|i: int|
            0 <= i < outputs.len() && (#[trigger] outputs[i]).name@ == name,
{
    if found_again(Target::Output(name), outputs) {
        crate::laws::outputs::outputs_are_found_by_name(outputs, name);
    }
}

} // verus!
