//! The picker as the compositor drives it: requests open it, input changes it, and every request
//! is answered.

use vstd::prelude::*;

use crate::dbus::niri_portal_screen_cast::{
    OutgoingReply, PickSourcesReply, PickSourcesRequest, PickerRequestId, PickerSelection, Reply,
    SentReply,
};
use crate::dbus::picker_options::{PickerPersistMode, PickerSourceTypes};
use crate::dbus::target::{targets_of, StreamTargetId};
use crate::ui::i18n::Messages;
use crate::ui::picker::candidate::{HitTarget, PickerCandidate, PickerView};
use crate::ui::picker::grid::PanelGrid;
use crate::ui::picker::open_picker::{OpenPicker, WindowRemoval};
use crate::ui::picker::panel::PanelCaches;
use crate::ui::picker::previews::{DisplayPreviews, WindowPreviewCache};

verus! {

/// What is on the screen.
#[derive(Debug)]
pub enum PickerUiState {
    Closed,
    /// A picker takes input. `animating` says whether it is still appearing.
    Open { picker: OpenPicker, animating: bool },
    /// A picker was answered and is disappearing.
    Closing { picker: OpenPicker },
}

impl PickerUiState {
    /// The picker that is on the screen.
    pub open spec fn on_screen(self) -> Option<OpenPicker> {
        match self {
            PickerUiState::Closed => None,
            PickerUiState::Open { picker, .. } => Some(picker),
            PickerUiState::Closing { picker } => Some(picker),
        }
    }

    /// The picker that takes input.
    pub open spec fn taking_input(self) -> Option<OpenPicker> {
        match self {
            PickerUiState::Open { picker, .. } => Some(picker),
            _ => None,
        }
    }

    /// The state with another picker.
    pub open spec fn with_picker(self, picker: OpenPicker) -> PickerUiState {
        match self {
            PickerUiState::Closed => PickerUiState::Closed,
            PickerUiState::Open { animating, .. } => PickerUiState::Open { picker, animating },
            PickerUiState::Closing { .. } => PickerUiState::Closing { picker },
        }
    }

    /// A picker that takes input has something to pick; both kinds of pickers have sound lists.
    pub open spec fn wf(self) -> bool {
        match self {
            PickerUiState::Closed => true,
            PickerUiState::Open { picker, .. } => picker.wf(),
            PickerUiState::Closing { picker } => picker.wf_lists(),
        }
    }

    /// The picker that takes input.
    pub fn open(&self) -> (r: Option<&OpenPicker>)
        ensures
            match r {
                Some(picker) => self.taking_input() == Some(*picker),
                None => self.taking_input() is None,
            },
    {
        match self {
            PickerUiState::Open { picker, .. } => Some(picker),
            _ => None,
        }
    }

    /// The picker that is on the screen.
    pub fn visible(&self) -> (r: Option<&OpenPicker>)
        ensures
            match r {
                Some(picker) => self.on_screen() == Some(*picker),
                None => self.on_screen() is None,
            },
    {
        match self {
            PickerUiState::Open { picker, .. } => Some(picker),
            PickerUiState::Closing { picker } => Some(picker),
            PickerUiState::Closed => None,
        }
    }

    /// How much of the picker shows, where `animated` is what its animation says.
    pub fn progress(&self, animated: Progress) -> (r: Progress)
        ensures
            r == (match *self {
                PickerUiState::Closed => Progress::Hidden,
                PickerUiState::Open { animating, .. } => if animating {
                    animated
                } else {
                    Progress::Shown
                },
                PickerUiState::Closing { .. } => animated,
            }),
    {
        match self {
            PickerUiState::Closed => Progress::Hidden,
            PickerUiState::Open { animating, .. } => {
                if *animating {
                    animated
                } else {
                    Progress::Shown
                }
            },
            PickerUiState::Closing { .. } => animated,
        }
    }
}

/// How much of the picker shows.
#[derive(Clone, Copy, Debug, PartialEq, Eq, Structural)]
pub enum Progress {
    /// Nothing.
    Hidden,
    /// It is between nothing and all.
    Partial,
    /// All of it.
    Shown,
}

/// How a frame of the picker comes about.
#[derive(Clone, Copy, Debug, PartialEq, Eq, Structural)]
pub enum RenderPlan {
    /// Nothing is rendered.
    Skip,
    /// Only what the screen looked like before.
    FrozenBackdrop,
    /// The contents, faded by the progress, over what the screen looked like before.
    Contents,
    /// The contents as one image that is faded, over what the screen looked like before.
    Transition,
}

/// What the screen looked like when the picker opened, as the user saw it and as screen casts saw
/// it.
#[derive(Debug)]
pub struct FrozenBackdrop<B> {
    pub output: u64,
    pub for_output: B,
    pub for_screencast: B,
}

/// A part of the picker's contents, from the top.
#[derive(Debug, PartialEq, Eq)]
pub enum Layer {
    /// The panel.
    Panel,
    /// The previews of the windows.
    WindowPreviews,
    /// The preview of an output, on the visible card `card`.
    DisplayPreview { card: usize, name: String },
    /// What is behind the preview of the visible card `card`.
    PreviewBackground { card: usize },
    /// What darkens the screen.
    Backdrop,
}

/// The picker. `B` is what renderings of the panel are kept as, and `E` what previews are kept as.
///
/// Answers are put into `replies`, for the caller to send.
#[derive(Debug)]
pub struct ScreenCastPickerUi<B, E> {
    pub state: PickerUiState,
    pub panels: PanelCaches<B>,
    pub display_previews: DisplayPreviews<E>,
    pub display_preview_last_refresh: Option<u128>,
    pub window_previews: WindowPreviewCache<E>,
    pub frozen_backdrop: Option<FrozenBackdrop<B>>,
    pub replies: Vec<OutgoingReply>,
}

/// The view that a picker with these lists opens with: displays come first.
pub open spec fn first_view(displays: nat, windows: nat) -> Option<PickerView> {
    if displays > 0 {
        Some(PickerView::Display)
    } else if windows > 0 {
        Some(PickerView::Window)
    } else {
        None
    }
}

/// The picker that answers `request`, or why there is none: the picker offers what was asked for
/// out of `displays` and `windows`.
pub open spec fn opened(
    closed: bool,
    request: PickSourcesRequest,
    output: u64,
    displays: Vec<PickerCandidate>,
    windows: Vec<PickerCandidate>,
    messages: Messages,
    r: Result<OpenPicker, Seq<char>>,
) -> bool {
    let types = request.options.source_types;
    let offered_displays = if types.monitor {
        displays@
    } else {
        Seq::empty()
    };
    let offered_windows = if types.window {
        windows@
    } else {
        Seq::empty()
    };
    let view = first_view(offered_displays.len(), offered_windows.len());
    if !closed {
        r == Err::<OpenPicker, Seq<char>>("screen cast picker is already open"@)
    } else if request.options.multiple {
        r == Err::<OpenPicker, Seq<char>>("multiple source selection is not implemented yet"@)
    } else if view is None {
        r == Err::<OpenPicker, Seq<char>>("no matching screen cast sources are available"@)
    } else {
        &&& r is Ok
        &&& r->Ok_0.displays@ == offered_displays
        &&& r->Ok_0.windows@ == offered_windows
        &&& r->Ok_0 == (OpenPicker {
            request,
            output,
            displays: r->Ok_0.displays,
            windows: r->Ok_0.windows,
            view: view->0,
            selected_display: if offered_displays.len() > 0 {
                Some(0)
            } else {
                None
            },
            selected_window: if offered_windows.len() > 0 {
                Some(0)
            } else {
                None
            },
            window_scroll_row: 0,
            window_scroll_remainder: 0,
            remember: request.options.persist_mode != PickerPersistMode::Never,
            hovered: HitTarget::Nothing,
            messages,
        })
    }
}

impl<B, E> ScreenCastPickerUi<B, E> {
    /// What holds of the picker at all times.
    pub open spec fn wf(self) -> bool {
        &&& self.state.wf()
        &&& self.display_previews.previews.wf()
    }

    /// Whether no rendering is kept.
    pub open spec fn caches_blank(self) -> bool {
        &&& self.panels.is_blank()
        &&& self.display_previews.previews@ == Map::<Seq<char>, Option<E>>::empty()
        &&& self.display_preview_last_refresh is None
        &&& self.window_previews.is_blank()
        &&& self.frozen_backdrop is None
    }

    /// Whether the previews, the backdrop and the answers are those of `before`.
    pub open spec fn keeps_previews(self, before: Self) -> bool {
        &&& self.display_previews == before.display_previews
        &&& self.display_preview_last_refresh == before.display_preview_last_refresh
        &&& self.window_previews == before.window_previews
        &&& self.frozen_backdrop == before.frozen_backdrop
        &&& self.replies == before.replies
    }

    /// Whether nothing but the picker and the renderings of the panel differ from `before`, and
    /// the panel has to be rendered anew.
    pub open spec fn redraws(self, before: Self) -> bool {
        self.panels.is_blank() && self.keeps_previews(before)
    }

    /// As [`Self::redraws`], and the previews are due at once.
    pub open spec fn redraws_with_previews(self, before: Self) -> bool {
        &&& self.panels.is_blank()
        &&& self.display_previews == before.display_previews
        &&& self.display_preview_last_refresh is None
        &&& self.window_previews == (WindowPreviewCache {
            last_refresh: None,
            ..before.window_previews
        })
        &&& self.frozen_backdrop == before.frozen_backdrop
        &&& self.replies == before.replies
    }

    /// Whether `self` is what `before` becomes when the picker that takes input is answered with
    /// `message`. Where it has no time to disappear, it is gone at once.
    pub open spec fn answers(self, before: Self, message: Reply, settled: bool) -> bool {
        &&& before.state is Open
        &&& self.replies@.len() == before.replies@.len() + 1
        &&& self.replies@.drop_last() == before.replies@
        &&& self.replies@.last()@ == (SentReply {
            channel: before.state->Open_picker.request.reply,
            message,
        })
        &&& if settled {
            self.state is Closed && self.caches_blank()
        } else {
            &&& self.state == (PickerUiState::Closing { picker: before.state->Open_picker })
            &&& self.panels == before.panels
            &&& self.display_previews == before.display_previews
            &&& self.display_preview_last_refresh == before.display_preview_last_refresh
            &&& self.window_previews == before.window_previews
            &&& self.frozen_backdrop == before.frozen_backdrop
        }
    }

    /// Whether `self` is what `before` becomes when a picker that was answered is gone.
    pub open spec fn is_gone(self, before: Self) -> bool {
        self.state is Closed && self.caches_blank() && self.replies == before.replies
    }

    /// Whether, between `before` and `self`, a picker stopped taking input only with one answer on
    /// the channel of its request, and nothing else was answered.
    pub open spec fn answers_what_it_drops(self, before: Self) -> bool {
        if before.state is Open && self.state !is Open {
            &&& self.replies@.len() == before.replies@.len() + 1
            &&& self.replies@.drop_last() == before.replies@
            &&& self.replies@.last().reply == before.state->Open_picker.request.reply
        } else {
            self.replies == before.replies
        }
    }

    /// A picker that is not on the screen.
    pub fn new() -> (ui: Self)
        ensures
            ui.wf(),
            ui.state is Closed,
            ui.caches_blank(),
            ui.replies@.len() == 0,
    {
        ScreenCastPickerUi {
            state: PickerUiState::Closed,
            panels: PanelCaches::new(),
            display_previews: DisplayPreviews::new(),
            display_preview_last_refresh: None,
            window_previews: WindowPreviewCache::new(),
            frozen_backdrop: None,
            replies: Vec::new(),
        }
    }

    /// Hands out the answers that were not sent yet.
    pub fn take_replies(&mut self) -> (sent: Vec<OutgoingReply>)
        ensures
            sent == old(self).replies,
            final(self).replies@.len() == 0,
            *final(self) == (ScreenCastPickerUi { replies: final(self).replies, ..*old(self) }),
    {
        let mut sent: Vec<OutgoingReply> = Vec::new();
        std::mem::swap(&mut sent, &mut self.replies);
        sent
    }

    /// Whether the picker is on the screen.
    pub fn is_open(&self) -> (r: bool)
        ensures
            r == (self.state !is Closed),
    {
        self.is_visible()
    }

    /// Whether the picker is on the screen.
    pub fn is_visible(&self) -> (r: bool)
        ensures
            r == (self.state !is Closed),
    {
        match self.state {
            PickerUiState::Closed => false,
            _ => true,
        }
    }

    /// The output of the picker that takes input.
    pub fn output(&self) -> (r: Option<u64>)
        ensures
            r == (match self.state.taking_input() {
                Some(picker) => Some(picker.output),
                None => None,
            }),
    {
        match self.state.open() {
            Some(picker) => Some(picker.output),
            None => None,
        }
    }

    /// Whether a picker is on the given output.
    pub open spec fn hosted_by(self, output: u64) -> bool {
        self.state.on_screen() is Some && self.state.on_screen()->0.output == output
    }

    /// Whether a picker is on the given output.
    pub fn is_host_output(&self, output: u64) -> (r: bool)
        ensures
            r == self.hosted_by(output),
    {
        match self.state.visible() {
            Some(picker) => picker.output == output,
            None => false,
        }
    }

    fn invalidate(&mut self)
        ensures
            final(self).redraws(*old(self)),
            final(self).state == old(self).state,
    {
        self.panels.clear();
    }

    fn invalidate_preview_refresh(&mut self)
        ensures
            *final(self) == (ScreenCastPickerUi {
                display_preview_last_refresh: None,
                window_previews: WindowPreviewCache {
                    last_refresh: None,
                    ..old(self).window_previews
                },
                ..*old(self)
            }),
    {
        self.display_preview_last_refresh = None;
        self.window_previews.last_refresh = None;
    }

    fn clear_caches(&mut self)
        ensures
            final(self).display_previews.previews.wf(),
            final(self).caches_blank(),
            final(self).state == old(self).state,
            final(self).replies == old(self).replies,
    {
        self.panels.clear();
        self.display_previews.clear();
        self.display_preview_last_refresh = None;
        self.window_previews.clear();
        self.frozen_backdrop = None;
    }

    /// Opens the picker for a request, on the given output. `frozen_backdrop` is what the screen
    /// looks like to the user and to screen casts.
    ///
    /// A request that cannot be shown is answered at once.
    pub fn open(
        &mut self,
        request: PickSourcesRequest,
        output: u64,
        displays: Vec<PickerCandidate>,
        windows: Vec<PickerCandidate>,
        frozen_backdrop: Option<(B, B)>,
        messages: Messages,
    ) -> (shown: bool)
        requires
            old(self).wf(),
        ensures
            final(self).wf(),
            exists|r: Result<OpenPicker, Seq<char>>| #[trigger]
                opened(
                    old(self).state is Closed,
                    request,
                    output,
                    displays,
                    windows,
                    messages,
                    r,
                ) && match r {
                    Ok(picker) => {
                        &&& shown
                        &&& final(self).state == (PickerUiState::Open { picker, animating: true })
                        &&& final(self).replies == old(self).replies
                        &&& final(self).frozen_backdrop == (match frozen_backdrop {
                            Some((for_output, for_screencast)) => Some(
                                FrozenBackdrop { output, for_output, for_screencast },
                            ),
                            None => None,
                        })
                        &&& (ScreenCastPickerUi {
                            frozen_backdrop: None,
                            ..*final(self)
                        }).caches_blank()
                    },
                    Err(text) => {
                        &&& !shown
                        &&& final(self).replies@.drop_last() == old(self).replies@
                        &&& final(self).replies@.len() == old(self).replies@.len() + 1
                        &&& final(self).replies@.last()@ == (SentReply {
                            channel: request.reply,
                            message: Reply::Failed(text),
                        })
                        &&& *final(self) == (ScreenCastPickerUi {
                            replies: final(self).replies,
                            ..*old(self)
                        })
                    },
                },
    {
        let ghost closed = self.state is Closed;
        if self.is_visible() {
            self.replies.push(request.fail("screen cast picker is already open"));
            assert(self.replies@.drop_last() =~= old(self).replies@);
            assert(opened(
                closed,
                request,
                output,
                displays,
                windows,
                messages,
                Err("screen cast picker is already open"@),
            ));
            return false;
        }
        if request.options.multiple {
            self.replies.push(request.fail("multiple source selection is not implemented yet"));
            assert(self.replies@.drop_last() =~= old(self).replies@);
            assert(opened(
                closed,
                request,
                output,
                displays,
                windows,
                messages,
                Err("multiple source selection is not implemented yet"@),
            ));
            return false;
        }
        let allow_display = request.options.source_types.contains(PickerSourceTypes::monitors());
        let allow_window = request.options.source_types.contains(PickerSourceTypes::windows());
        let offered_displays = if allow_display {
            displays
        } else {
            Vec::new()
        };
        let offered_windows = if allow_window {
            windows
        } else {
            Vec::new()
        };
        let view = if offered_displays.len() > 0 {
            PickerView::Display
        } else if offered_windows.len() > 0 {
            PickerView::Window
        } else {
            self.replies.push(request.fail("no matching screen cast sources are available"));
            assert(self.replies@.drop_last() =~= old(self).replies@);
            assert(opened(
                closed,
                request,
                output,
                displays,
                windows,
                messages,
                Err("no matching screen cast sources are available"@),
            ));
            return false;
        };
        let remember = match request.options.persist_mode {
            PickerPersistMode::Never => false,
            _ => true,
        };
        let selected_display: Option<usize> = if offered_displays.len() > 0 {
            Some(0)
        } else {
            None
        };
        let selected_window: Option<usize> = if offered_windows.len() > 0 {
            Some(0)
        } else {
            None
        };
        let picker = OpenPicker {
            request,
            output,
            displays: offered_displays,
            windows: offered_windows,
            view,
            selected_display,
            selected_window,
            window_scroll_row: 0,
            window_scroll_remainder: 0,
            remember,
            hovered: HitTarget::Nothing,
            messages,
        };
        self.clear_caches();
        self.frozen_backdrop = match frozen_backdrop {
            Some((for_output, for_screencast)) => Some(
                FrozenBackdrop { output, for_output, for_screencast },
            ),
            None => None,
        };
        assert(opened(closed, request, output, displays, windows, messages, Ok(picker)));
        self.state = PickerUiState::Open { picker, animating: true };
        true
    }

    /// Answers the picker that takes input. `settled` says whether it has no time to disappear.
    fn finish(&mut self, reply: PickSourcesReply, settled: bool) -> (done: bool)
        requires
            old(self).wf() || (old(self).state is Open && old(self).state->Open_picker.wf_lists()
                && old(self).display_previews.previews.wf()),
        ensures
            final(self).wf(),
            done == (old(self).state is Open),
            if done {
                final(self).answers(*old(self), reply@, settled)
            } else {
                *final(self) == *old(self)
            },
    {
        let mut state = PickerUiState::Closed;
        std::mem::swap(&mut state, &mut self.state);
        match state {
            PickerUiState::Open { picker, animating: _ } => {
                self.replies.push(OutgoingReply { reply: picker.request.reply, message: reply });
                assert(self.replies@.drop_last() =~= old(self).replies@);
                if settled {
                    self.clear_caches();
                } else {
                    self.state = PickerUiState::Closing { picker };
                }
                true
            },
            other => {
                self.state = other;
                false
            },
        }
    }

    /// Cancels the picker that takes input.
    pub fn cancel(&mut self, settled: bool) -> (done: bool)
        requires
            old(self).wf(),
        ensures
            final(self).wf(),
            done == (old(self).state is Open),
            if done {
                final(self).answers(*old(self), Reply::Cancelled, settled)
            } else {
                *final(self) == *old(self)
            },
            final(self).answers_what_it_drops(*old(self)),
    {
        self.finish(PickSourcesReply::Cancelled, settled)
    }

    /// Cancels the picker that takes input, if it answers the request `id`.
    pub fn cancel_request(&mut self, id: &PickerRequestId, settled: bool) -> (done: bool)
        requires
            old(self).wf(),
        ensures
            final(self).wf(),
            done == (old(self).state is Open && old(self).state->Open_picker.request.id@ == id@),
            if done {
                final(self).answers(*old(self), Reply::Cancelled, settled)
            } else {
                *final(self) == *old(self)
            },
            final(self).answers_what_it_drops(*old(self)),
    {
        let matches = match self.state.open() {
            Some(picker) => picker.request.id.same(id),
            None => false,
        };
        if !matches {
            return false;
        }
        self.cancel(settled)
    }

    /// Answers with the selection.
    pub fn confirm(&mut self, settled: bool) -> (done: bool)
        requires
            old(self).wf(),
        ensures
            final(self).wf(),
            done == (old(self).state is Open),
            if done {
                final(self).answers(
                    *old(self),
                    Reply::Selected(
                        seq![old(self).state->Open_picker.choice()],
                        old(self).state->Open_picker.chosen_persist_mode(),
                    ),
                    settled,
                )
            } else {
                *final(self) == *old(self)
            },
            final(self).answers_what_it_drops(*old(self)),
    {
        let (target, persist_mode) = match self.state.open() {
            Some(picker) => {
                let persist_mode = if picker.remember {
                    picker.request.options.persist_mode
                } else {
                    PickerPersistMode::Never
                };
                match picker.selected_candidate() {
                    Some(candidate) => (candidate.target.clone(), persist_mode),
                    None => {
                        return false;
                    },
                }
            },
            None => {
                return false;
            },
        };
        let ghost choice = target@;
        let mut sources: Vec<StreamTargetId> = Vec::new();
        sources.push(target);
        assert(targets_of(sources@) =~= seq![choice]);
        self.finish(
            PickSourcesReply::Selected(PickerSelection { sources, persist_mode }),
            settled,
        )
    }

    /// Moves the selection by `delta`, around the end of the list.
    pub fn move_selection(&mut self, delta: isize) -> (moved: bool)
        requires
            old(self).wf(),
        ensures
            final(self).wf(),
            moved == (old(self).state is Open),
            if moved {
                &&& final(self).state == old(self).state.with_picker(
                    old(self).state->Open_picker.after_move(delta as int),
                )
                &&& final(self).redraws(*old(self))
            } else {
                *final(self) == *old(self)
            },
            final(self).answers_what_it_drops(*old(self)),
    {
        match &mut self.state {
            PickerUiState::Open { picker, .. } => {
                picker.move_selection(delta);
            },
            _ => {
                return false;
            },
        }
        self.invalidate();
        true
    }

    /// Scrolls the list of windows by `steps` rows; `remainder` is what was scrolled less than a
    /// row. Without a grid the output is gone, and nothing happens.
    pub fn scroll_window(
        &mut self,
        steps: isize,
        remainder: u64,
        grid: Option<PanelGrid>,
    ) -> (moved: bool)
        requires
            old(self).wf(),
        ensures
            final(self).wf(),
            match (old(self).state.taking_input(), grid) {
                (Some(picker), Some(grid)) => if picker.view == PickerView::Window {
                    let kept = OpenPicker { window_scroll_remainder: remainder, ..picker };
                    &&& moved == (kept.window_row_after(steps as int, grid) != kept.window_row(
                        grid,
                    ))
                    &&& final(self).state == old(self).state.with_picker(
                        if moved {
                            kept.after_scroll(steps as int, grid)
                        } else {
                            kept
                        },
                    )
                    &&& if moved {
                        final(self).redraws(*old(self))
                    } else {
                        final(self).panels == old(self).panels && final(self).keeps_previews(
                            *old(self),
                        )
                    }
                } else {
                    !moved && *final(self) == *old(self)
                },
                _ => !moved && *final(self) == *old(self),
            },
            final(self).answers_what_it_drops(*old(self)),
    {
        let grid = match grid {
            Some(grid) => grid,
            None => {
                return false;
            },
        };
        let moved = match &mut self.state {
            PickerUiState::Open { picker, .. } => {
                if picker.view != PickerView::Window {
                    return false;
                }
                picker.scroll(steps, remainder, &grid)
            },
            _ => {
                return false;
            },
        };
        if moved {
            self.invalidate();
        }
        moved
    }

    /// What was scrolled less than a row, as the bits of a double.
    pub fn scroll_remainder(&self) -> (r: u64)
        ensures
            r == (match self.state.taking_input() {
                Some(picker) => picker.window_scroll_remainder,
                None => 0,
            }),
    {
        match self.state.open() {
            Some(picker) => picker.window_scroll_remainder,
            None => 0,
        }
    }

    /// Shows the other list, if it has candidates.
    pub fn toggle_view(&mut self) -> (changed: bool)
        requires
            old(self).wf(),
        ensures
            final(self).wf(),
            changed == (old(self).state is Open && old(self).state->Open_picker.other_view()
                is Some),
            if changed {
                &&& final(self).state == old(self).state.with_picker(
                    OpenPicker {
                        view: old(self).state->Open_picker.other_view()->0,
                        hovered: HitTarget::Nothing,
                        ..old(self).state->Open_picker
                    },
                )
                &&& final(self).redraws_with_previews(*old(self))
            } else {
                *final(self) == *old(self)
            },
            final(self).answers_what_it_drops(*old(self)),
    {
        match &mut self.state {
            PickerUiState::Open { picker, .. } => {
                let next = match picker.view {
                    PickerView::Window => {
                        if picker.displays.len() == 0 {
                            return false;
                        }
                        PickerView::Display
                    },
                    PickerView::Display => {
                        if picker.windows.len() == 0 {
                            return false;
                        }
                        PickerView::Window
                    },
                };
                picker.view = next;
                picker.hovered = HitTarget::Nothing;
            },
            _ => {
                return false;
            },
        }
        self.invalidate_preview_refresh();
        self.invalidate();
        true
    }

    /// Changes whether the selection is remembered, where the client wants that.
    pub fn toggle_remember(&mut self) -> (changed: bool)
        requires
            old(self).wf(),
        ensures
            final(self).wf(),
            changed == (old(self).state is Open
                && old(self).state->Open_picker.request.options.persist_mode
                != PickerPersistMode::Never),
            if changed {
                &&& final(self).state == old(self).state.with_picker(
                    OpenPicker {
                        remember: !old(self).state->Open_picker.remember,
                        ..old(self).state->Open_picker
                    },
                )
                &&& final(self).redraws(*old(self))
            } else {
                *final(self) == *old(self)
            },
            final(self).answers_what_it_drops(*old(self)),
    {
        match &mut self.state {
            PickerUiState::Open { picker, .. } => {
                if picker.request.options.persist_mode == PickerPersistMode::Never {
                    return false;
                }
                picker.remember = !picker.remember;
            },
            _ => {
                return false;
            },
        }
        self.invalidate();
        true
    }
}

/// What a press on `hit` does to a picker that is not answered by it.
pub open spec fn after_press(picker: OpenPicker, hit: HitTarget) -> Option<OpenPicker> {
    match hit {
        HitTarget::WindowTab => if picker.windows@.len() > 0 {
            Some(OpenPicker { view: PickerView::Window, hovered: hit, ..picker })
        } else {
            None
        },
        HitTarget::DisplayTab => if picker.displays@.len() > 0 {
            Some(OpenPicker { view: PickerView::Display, hovered: hit, ..picker })
        } else {
            None
        },
        HitTarget::Candidate(index) => if index < picker.shown().len() {
            Some(OpenPicker { hovered: hit, ..picker.with_selection(index) })
        } else {
            None
        },
        _ => None,
    }
}

impl<B, E> ScreenCastPickerUi<B, E> {
    /// Tells the picker that the pointer moved on an output. `hit` is what it is over there, if
    /// the picker is on that output.
    pub fn pointer_motion(&mut self, output: u64, hit: HitTarget) -> (changed: bool)
        requires
            old(self).wf(),
        ensures
            final(self).wf(),
            match old(self).state.taking_input() {
                Some(picker) => {
                    let over = if picker.output == output {
                        hit
                    } else {
                        HitTarget::Nothing
                    };
                    &&& changed == (picker.hovered != over)
                    &&& if changed {
                        &&& final(self).state == old(self).state.with_picker(
                            OpenPicker { hovered: over, ..picker },
                        )
                        &&& final(self).redraws(*old(self))
                    } else {
                        *final(self) == *old(self)
                    }
                },
                None => !changed && *final(self) == *old(self),
            },
            final(self).answers_what_it_drops(*old(self)),
    {
        match &mut self.state {
            PickerUiState::Open { picker, .. } => {
                let over = if picker.output == output {
                    hit
                } else {
                    HitTarget::Nothing
                };
                if picker.hovered == over {
                    return false;
                }
                picker.hovered = over;
            },
            _ => {
                return false;
            },
        }
        self.invalidate();
        true
    }

    fn select(&mut self, index: usize) -> (done: bool)
        requires
            old(self).wf(),
            old(self).state is Open,
        ensures
            final(self).wf(),
            match after_press(old(self).state->Open_picker, HitTarget::Candidate(index)) {
                Some(after) => done && final(self).state == old(self).state.with_picker(after)
                    && final(self).redraws(*old(self)),
                None => !done && *final(self) == *old(self),
            },
    {
        match &mut self.state {
            PickerUiState::Open { picker, .. } => {
                if index >= picker.candidates().len() {
                    return false;
                }
                picker.set_selected(index);
                picker.hovered = HitTarget::Candidate(index);
            },
            _ => {
                return false;
            },
        }
        self.invalidate();
        true
    }

    fn show(&mut self, view: PickerView) -> (done: bool)
        requires
            old(self).wf(),
            old(self).state is Open,
        ensures
            final(self).wf(),
            ({
                let tab = match view {
                    PickerView::Window => HitTarget::WindowTab,
                    PickerView::Display => HitTarget::DisplayTab,
                };
                match after_press(old(self).state->Open_picker, tab) {
                    Some(after) => done && final(self).state == old(self).state.with_picker(after)
                        && final(self).redraws_with_previews(*old(self)),
                    None => !done && *final(self) == *old(self),
                }
            }),
    {
        match &mut self.state {
            PickerUiState::Open { picker, .. } => {
                match view {
                    PickerView::Window => {
                        if picker.windows.len() == 0 {
                            return false;
                        }
                        picker.hovered = HitTarget::WindowTab;
                    },
                    PickerView::Display => {
                        if picker.displays.len() == 0 {
                            return false;
                        }
                        picker.hovered = HitTarget::DisplayTab;
                    },
                }
                picker.view = view;
            },
            _ => {
                return false;
            },
        }
        self.invalidate_preview_refresh();
        self.invalidate();
        true
    }

    /// Tells the picker about a press on an output. `hit` is what it is on there, if the picker is
    /// on that output. A press on another output cancels.
    pub fn pointer_activate(&mut self, output: u64, hit: HitTarget, settled: bool) -> (done: bool)
        requires
            old(self).wf(),
        ensures
            final(self).wf(),
            match old(self).state.taking_input() {
                Some(picker) => if picker.output != output || hit == HitTarget::Cancel {
                    done && final(self).answers(*old(self), Reply::Cancelled, settled)
                } else if hit == HitTarget::Share {
                    done && final(self).answers(
                        *old(self),
                        Reply::Selected(seq![picker.choice()], picker.chosen_persist_mode()),
                        settled,
                    )
                } else if hit == HitTarget::Remember {
                    &&& done == (picker.request.options.persist_mode != PickerPersistMode::Never)
                    &&& if done {
                        &&& final(self).state == old(self).state.with_picker(
                            OpenPicker { remember: !picker.remember, ..picker },
                        )
                        &&& final(self).redraws(*old(self))
                    } else {
                        *final(self) == *old(self)
                    }
                } else {
                    match after_press(picker, hit) {
                        Some(after) => {
                            &&& done
                            &&& final(self).state == old(self).state.with_picker(after)
                            &&& if hit is Candidate {
                                final(self).redraws(*old(self))
                            } else {
                                final(self).redraws_with_previews(*old(self))
                            }
                        },
                        None => !done && *final(self) == *old(self),
                    }
                },
                None => !done && *final(self) == *old(self),
            },
            final(self).answers_what_it_drops(*old(self)),
    {
        let elsewhere = match self.state.open() {
            Some(picker) => picker.output != output,
            None => {
                return false;
            },
        };
        if elsewhere {
            return self.cancel(settled);
        }
        match hit {
            HitTarget::Cancel => self.cancel(settled),
            HitTarget::Share => self.confirm(settled),
            HitTarget::Remember => self.toggle_remember(),
            HitTarget::WindowTab => self.show(PickerView::Window),
            HitTarget::DisplayTab => self.show(PickerView::Display),
            HitTarget::Candidate(index) => self.select(index),
            HitTarget::Nothing => false,
        }
    }

    /// Tells the picker that a window disappeared. A picker that has nothing left to offer fails.
    pub fn remove_window(&mut self, id: u64, settled: bool) -> (changed: bool)
        requires
            old(self).wf(),
        ensures
            final(self).wf(),
            match old(self).state.taking_input() {
                Some(picker) => {
                    &&& changed == (picker.removal(id) != WindowRemoval::NotOffered)
                    &&& if changed {
                        exists|after: OpenPicker|
                            {
                                &&& #[trigger] is_removal(picker, id, after)
                                &&& match picker.removal(id) {
                                    WindowRemoval::NothingLeft => final(self).answers(
                                        (ScreenCastPickerUi {
                                            state: old(self).state.with_picker(after),
                                            ..*old(self)
                                        }),
                                        Reply::Failed(
                                            "all matching screen cast sources disappeared"@,
                                        ),
                                        settled,
                                    ),
                                    WindowRemoval::ShowsDisplays => {
                                        &&& final(self).state == old(self).state.with_picker(after)
                                        &&& final(self).redraws_with_previews(*old(self))
                                    },
                                    _ => final(self).state == old(self).state.with_picker(after)
                                        && final(self).redraws(*old(self)),
                                }
                            }
                    } else {
                        *final(self) == *old(self)
                    }
                },
                None => !changed && *final(self) == *old(self),
            },
            final(self).answers_what_it_drops(*old(self)),
    {
        let removal = match &mut self.state {
            PickerUiState::Open { picker, .. } => picker.remove_window(id),
            _ => {
                return false;
            },
        };
        let ghost before = old(self).state->Open_picker;
        let ghost after = self.state->Open_picker;
        match removal {
            WindowRemoval::NotOffered => false,
            WindowRemoval::NothingLeft => {
                assert(is_removal(before, id, after));
                self.finish(
                    PickSourcesReply::Failed(
                        "all matching screen cast sources disappeared".to_owned(),
                    ),
                    settled,
                )
            },
            WindowRemoval::ShowsDisplays => {
                assert(is_removal(before, id, after));
                self.invalidate_preview_refresh();
                self.invalidate();
                true
            },
            WindowRemoval::Removed => {
                assert(is_removal(before, id, after));
                self.invalidate();
                true
            },
        }
    }

    /// Takes the picker off the screen at once. A picker that takes input is cancelled.
    pub fn cancel_immediately(&mut self) -> (done: bool)
        requires
            old(self).wf(),
        ensures
            final(self).wf(),
            done == (old(self).state !is Closed),
            match old(self).state {
                PickerUiState::Closed => *final(self) == *old(self),
                PickerUiState::Open { .. } => final(self).answers(
                    *old(self),
                    Reply::Cancelled,
                    true,
                ),
                PickerUiState::Closing { .. } => final(self).is_gone(*old(self)),
            },
            final(self).answers_what_it_drops(*old(self)),
    {
        let mut state = PickerUiState::Closed;
        std::mem::swap(&mut state, &mut self.state);
        match state {
            PickerUiState::Closed => false,
            PickerUiState::Open { picker, animating: _ } => {
                self.replies.push(
                    OutgoingReply {
                        reply: picker.request.reply,
                        message: PickSourcesReply::Cancelled,
                    },
                );
                assert(self.replies@.drop_last() =~= old(self).replies@);
                self.clear_caches();
                true
            },
            PickerUiState::Closing { picker: _ } => {
                self.clear_caches();
                true
            },
        }
    }

    /// Tells the picker how far its animation is. When it has disappeared, it is gone.
    pub fn advance_animations(&mut self, done: bool) -> (closed: bool)
        requires
            old(self).wf(),
        ensures
            final(self).wf(),
            closed == (done && old(self).state is Closing),
            match old(self).state {
                PickerUiState::Closed => *final(self) == *old(self),
                PickerUiState::Open { picker, animating } => *final(self) == (ScreenCastPickerUi {
                    state: PickerUiState::Open { picker, animating: animating && !done },
                    ..*old(self)
                }),
                PickerUiState::Closing { .. } => if done {
                    final(self).is_gone(*old(self))
                } else {
                    *final(self) == *old(self)
                },
            },
            final(self).answers_what_it_drops(*old(self)),
    {
        let closed = match &mut self.state {
            PickerUiState::Open { animating, .. } => {
                if done {
                    *animating = false;
                }
                false
            },
            PickerUiState::Closing { .. } => done,
            PickerUiState::Closed => false,
        };
        if closed {
            self.state = PickerUiState::Closed;
            self.clear_caches();
        }
        closed
    }

    /// Whether the output has to be rendered again soon. `done` says whether the animation, if
    /// there is one, is over. A picker that stands still keeps its own output going, for the
    /// previews.
    pub fn are_animations_ongoing(&self, output: u64, done: bool) -> (r: bool)
        ensures
            r == (match self.state {
                PickerUiState::Closed => false,
                PickerUiState::Open { picker, animating } => if animating {
                    !done
                } else {
                    picker.output == output
                },
                PickerUiState::Closing { .. } => !done,
            }),
    {
        match &self.state {
            PickerUiState::Open { picker, animating } => {
                if *animating {
                    !done
                } else {
                    picker.output == output
                }
            },
            PickerUiState::Closing { .. } => !done,
            PickerUiState::Closed => false,
        }
    }
}

/// A request is answered once: after its answer, nothing is answered until another request opens
/// the picker.
pub proof fn requests_are_answered_once<B, E>(
    before: ScreenCastPickerUi<B, E>,
    after: ScreenCastPickerUi<B, E>,
    message: Reply,
    settled: bool,
)
    requires
        after.answers(before, message, settled),
    ensures
        forall|later: ScreenCastPickerUi<B, E>, again: Reply, at_once: bool|
            !later.answers(after, again, at_once),
{
}

/// Whether `after` is the picker without the given window.
pub open spec fn is_removal(before: OpenPicker, id: u64, after: OpenPicker) -> bool {
    &&& after.windows@ == crate::ui::picker::open_picker::without_window(before.windows@, id)
    &&& after == (OpenPicker { windows: after.windows, ..before.after_removal(id) })
}

} // verus!
