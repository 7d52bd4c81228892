//! What a frame of the picker shows: which previews are rendered, and the layers of the picture.

use vstd::prelude::*;

use crate::dbus::target::StreamTargetId;
use crate::text::same_text;
use crate::ui::picker::candidate::{
    PickerCandidate, PickerRenderVariant, PickerView, RenderTarget,
};
use crate::ui::picker::grid::{CardCell, PanelGrid};
use crate::ui::picker::open_picker::OpenPicker;
use crate::ui::picker::panel::{PanelCache, PanelKey};
use crate::ui::picker::picker_ui::{Layer, Progress, RenderPlan, ScreenCastPickerUi};
use crate::ui::picker::previews::{
    card_output, card_window, preview_refresh_due, refresh_due, requested_names,
    DisplayPreviewRequest, DisplayPreviews, WindowPreviewCache, WindowPreviewCacheKey,
};

verus! {

/// The output previews that the first `n` cells ask for, in order.
pub open spec fn outputs_in(
    candidates: Seq<PickerCandidate>,
    cells: Seq<CardCell>,
    n: nat,
) -> Seq<(Seq<char>, CardCell)>
    decreases n,
{
    if n == 0 {
        Seq::empty()
    } else {
        let before = outputs_in(candidates, cells, (n - 1) as nat);
        match card_output(candidates, cells[n - 1].index) {
            Some(name) => before.push((name, cells[n - 1])),
            None => before,
        }
    }
}

/// The windows that the first `n` cells show, in order.
pub open spec fn windows_in(
    candidates: Seq<PickerCandidate>,
    cells: Seq<CardCell>,
    n: nat,
) -> Seq<u64>
    decreases n,
{
    if n == 0 {
        Seq::empty()
    } else {
        let before = windows_in(candidates, cells, (n - 1) as nat);
        match card_window(candidates, cells[n - 1].index) {
            Some(id) => before.push(id),
            None => before,
        }
    }
}

/// Whether one of the cells shows the output with the given name.
pub open spec fn shows_output(
    candidates: Seq<PickerCandidate>,
    cells: Seq<CardCell>,
    name: Seq<char>,
) -> bool {
    exists|k: int|
        0 <= k < cells.len() && card_output(candidates, (#[trigger] cells[k]).index) == Some(name)
}

/// A [`Layer`] as a mathematical value.
pub enum LayerKind {
    Panel,
    WindowPreviews,
    DisplayPreview(int, Seq<char>),
    PreviewBackground(int),
    Backdrop,
}

impl View for Layer {
    type V = LayerKind;

    open spec fn view(&self) -> LayerKind {
        match self {
            Layer::Panel => LayerKind::Panel,
            Layer::WindowPreviews => LayerKind::WindowPreviews,
            Layer::DisplayPreview { card, name } => LayerKind::DisplayPreview(*card as int, name@),
            Layer::PreviewBackground { card } => LayerKind::PreviewBackground(*card as int),
            Layer::Backdrop => LayerKind::Backdrop,
        }
    }
}

/// The layers as mathematical values.
pub open spec fn kinds(layers: Seq<Layer>) -> Seq<LayerKind> {
    Seq::new(layers.len(), |i: int| layers[i]@)
}

/// The layers with the previews of outputs on the first `n` cells: those that were rendered.
pub open spec fn display_layers<E>(
    candidates: Seq<PickerCandidate>,
    cells: Seq<CardCell>,
    previews: DisplayPreviews<E>,
    n: nat,
) -> Seq<LayerKind>
    decreases n,
{
    if n == 0 {
        Seq::empty()
    } else {
        let before = display_layers(candidates, cells, previews, (n - 1) as nat);
        match card_output(candidates, cells[n - 1].index) {
            Some(name) => if previews.has(name) {
                before.push(LayerKind::DisplayPreview(n - 1, name))
            } else {
                before
            },
            None => before,
        }
    }
}

/// The layers behind the previews of `n` cells.
pub open spec fn background_layers(n: nat) -> Seq<LayerKind> {
    Seq::new(n, |k: int| LayerKind::PreviewBackground(k))
}

impl<B, E> ScreenCastPickerUi<B, E> {
    /// Whether a picker on the given output shows the given list.
    pub open spec fn shows_on(self, output: u64, view: PickerView) -> bool {
        self.hosted_by(output) && self.state.on_screen()->0.view == view
    }

    /// The layers of the picker on its own output, from the top.
    pub open spec fn content_layers(self, picker: OpenPicker, grid: PanelGrid) -> Seq<LayerKind> {
        let cells = picker.cards(grid);
        let previews = match picker.view {
            PickerView::Window => if self.window_previews.element is Some {
                seq![LayerKind::WindowPreviews]
            } else {
                Seq::empty()
            },
            PickerView::Display => display_layers(
                picker.shown(),
                cells,
                self.display_previews,
                cells.len(),
            ),
        };
        seq![LayerKind::Panel] + previews + background_layers(cells.len())
            + seq![LayerKind::Backdrop]
    }

    /// The layers on an output, from the top. `host_alive` says whether the output of the picker
    /// is still there.
    pub open spec fn layers_on(
        self,
        output: u64,
        host_alive: bool,
        variant: PickerRenderVariant,
        grid: PanelGrid,
    ) -> Seq<LayerKind> {
        match self.state.on_screen() {
            None => Seq::empty(),
            Some(picker) => if !host_alive {
                Seq::empty()
            } else if picker.output != output {
                seq![LayerKind::Backdrop]
            } else if !self.panels.of(variant).contains_key(output) {
                Seq::empty()
            } else {
                self.content_layers(picker, grid)
            },
        }
    }

    fn picker_on(&self, output: u64, view: PickerView) -> (r: Option<&OpenPicker>)
        ensures
            match r {
                Some(picker) => self.shows_on(output, view) && self.state.on_screen() == Some(
                    *picker,
                ),
                None => !self.shows_on(output, view),
            },
    {
        match self.state.visible() {
            Some(picker) => {
                if picker.output == output && picker.view == view {
                    Some(picker)
                } else {
                    None
                }
            },
            None => None,
        }
    }

    /// The output previews that a picker on the given output needs.
    pub fn display_preview_requests(&self, output: u64, grid: &PanelGrid) -> (r: Vec<
        DisplayPreviewRequest,
    >)
        ensures
            Seq::new(r@.len(), |i: int| (r@[i].name@, r@[i].cell)) == (if self.shows_on(
                output,
                PickerView::Display,
            ) {
                let picker = self.state.on_screen()->0;
                outputs_in(picker.shown(), picker.cards(*grid), picker.cards(*grid).len())
            } else {
                Seq::empty()
            }),
    {
        let mut requests: Vec<DisplayPreviewRequest> = Vec::new();
        let picker = match self.picker_on(output, PickerView::Display) {
            Some(picker) => picker,
            None => {
                return requests;
            },
        };
        let cells = picker.card_cells(grid);
        let candidates = picker.candidates();
        for k in 0..cells.len()
            invariant
                candidates@ == picker.shown(),
                forall|j: int|
                    0 <= j < cells@.len() ==> (#[trigger] cells@[j]).index < candidates@.len(),
                Seq::new(requests@.len(), |i: int| (requests@[i].name@, requests@[i].cell))
                    == outputs_in(candidates@, cells@, k as nat),
        {
            let index: usize = cells[k].index;
            if let StreamTargetId::Output { name } = &candidates[index].target {
                let ghost before = requests@;
                requests.push(DisplayPreviewRequest { name: name.clone(), cell: cells[k] });
                assert(Seq::new(requests@.len(), |i: int| (requests@[i].name@, requests@[i].cell))
                    =~= Seq::new(before.len(), |i: int| (before[i].name@, before[i].cell)).push(
                    (name@, cells@[k as int]),
                ));
            }
        }
        requests
    }

    /// Whether the output previews are rendered at `now`.
    pub fn display_previews_due(&self, output: u64, now: u128) -> (due: bool)
        ensures
            due == (self.shows_on(output, PickerView::Display) && refresh_due(
                self.display_preview_last_refresh,
                now,
            )),
    {
        self.picker_on(output, PickerView::Display).is_some() && preview_refresh_due(
            self.display_preview_last_refresh,
            now,
        )
    }

    /// Notes that the output previews were rendered at `now`.
    pub fn mark_display_previews_refreshed(&mut self, now: u128)
        ensures
            *final(self) == (ScreenCastPickerUi {
                display_preview_last_refresh: Some(now),
                ..*old(self)
            }),
    {
        self.display_preview_last_refresh = Some(now);
    }

    fn previews_output(picker: &OpenPicker, name: &str, grid: &PanelGrid) -> (r: bool)
        ensures
            r == shows_output(picker.shown(), picker.cards(*grid), name@),
    {
        let cells = picker.card_cells(grid);
        let candidates = picker.candidates();
        for k in 0..cells.len()
            invariant
                candidates@ == picker.shown(),
                cells@ == picker.cards(*grid),
                forall|j: int|
                    0 <= j < cells@.len() ==> (#[trigger] cells@[j]).index < candidates@.len(),
                forall|j: int|
                    0 <= j < k ==> card_output(candidates@, (#[trigger] cells@[j]).index) != Some(
                        name@,
                    ),
        {
            let index: usize = cells[k].index;
            if let StreamTargetId::Output { name: shown } = &candidates[index].target {
                if same_text(shown.as_str(), name) {
                    assert(card_output(candidates@, cells@[k as int].index) == Some(name@));
                    return true;
                }
            }
        }
        false
    }

    /// Whether a picker on the given output previews that very output.
    pub fn is_display_previewing_host(&self, output: u64, output_name: &str, grid: &PanelGrid) -> (r:
        bool)
        ensures
            r == (self.shows_on(output, PickerView::Display) && shows_output(
                self.state.on_screen()->0.shown(),
                self.state.on_screen()->0.cards(*grid),
                output_name@,
            )),
    {
        match self.picker_on(output, PickerView::Display) {
            Some(picker) => Self::previews_output(picker, output_name, grid),
            None => false,
        }
    }

    /// The windows that a picker on the given output previews.
    pub fn host_window_preview_ids(&self, output: u64, grid: &PanelGrid) -> (ids: Vec<u64>)
        ensures
            ids@ == (if self.shows_on(output, PickerView::Window) {
                let picker = self.state.on_screen()->0;
                windows_in(picker.shown(), picker.cards(*grid), picker.cards(*grid).len())
            } else {
                Seq::empty()
            }),
    {
        let mut ids: Vec<u64> = Vec::new();
        let picker = match self.picker_on(output, PickerView::Window) {
            Some(picker) => picker,
            None => {
                return ids;
            },
        };
        let cells = picker.card_cells(grid);
        let candidates = picker.candidates();
        for k in 0..cells.len()
            invariant
                candidates@ == picker.shown(),
                forall|j: int|
                    0 <= j < cells@.len() ==> (#[trigger] cells@[j]).index < candidates@.len(),
                ids@ == windows_in(candidates@, cells@, k as nat),
        {
            let index: usize = cells[k].index;
            if let StreamTargetId::Window { id } = &candidates[index].target {
                ids.push(*id);
            }
        }
        ids
    }

    /// Begins a frame of output previews: those that are not asked for are dropped, and the others
    /// have to be rendered again.
    pub fn begin_display_preview_frame(&mut self, requests: &Vec<DisplayPreviewRequest>)
        requires
            old(self).wf(),
        ensures
            final(self).wf(),
            *final(self) == (ScreenCastPickerUi {
                display_previews: final(self).display_previews,
                ..*old(self)
            }),
            final(self).display_previews.previews@ == Map::<Seq<char>, Option<E>>::new(
                |name: Seq<char>|
                    old(self).display_previews.previews@.contains_key(name) && requested_names(
                        requests@,
                    ).contains(name),
                |name: Seq<char>| None,
            ),
    {
        self.display_previews.begin_frame(requests);
    }

    /// Notes the rendering of an output's preview, or that it failed.
    pub fn update_display_preview(&mut self, name: &str, element: Option<E>)
        requires
            old(self).wf(),
        ensures
            final(self).wf(),
            *final(self) == (ScreenCastPickerUi {
                display_previews: final(self).display_previews,
                ..*old(self)
            }),
            final(self).display_previews.previews@ == old(self).display_previews.previews@.insert(
                name@,
                element,
            ),
    {
        self.display_previews.update(name, element);
    }

    /// The output of a picker that previews the output `source`, if that is another one. Without a
    /// grid the output of the picker is gone.
    pub fn preview_host_for_source(
        &self,
        source: u64,
        source_name: &str,
        grid: Option<PanelGrid>,
    ) -> (r: Option<u64>)
        ensures
            r == (match (self.state.on_screen(), grid) {
                (Some(picker), Some(grid)) => if picker.view == PickerView::Display
                    && picker.output != source && shows_output(
                    picker.shown(),
                    picker.cards(grid),
                    source_name@,
                ) {
                    Some(picker.output)
                } else {
                    None
                },
                _ => None,
            }),
    {
        let grid = match grid {
            Some(grid) => grid,
            None => {
                return None;
            },
        };
        match self.state.visible() {
            Some(picker) => {
                if picker.view == PickerView::Display && picker.output != source
                    && Self::previews_output(picker, source_name, &grid) {
                    Some(picker.output)
                } else {
                    None
                }
            },
            None => None,
        }
    }

    /// How a frame of an output comes about. `host_alive` says whether the output of the picker is
    /// still there, and `animated` how much of the picker its animation shows.
    pub fn render(&self, output: u64, host_alive: bool, animated: Progress) -> (plan: RenderPlan)
        ensures
            plan == (match self.state.on_screen() {
                None => RenderPlan::Skip,
                Some(picker) => {
                    let progress = if self.state is Open && !self.state->animating {
                        Progress::Shown
                    } else {
                        animated
                    };
                    if !host_alive {
                        RenderPlan::Skip
                    } else if progress == Progress::Hidden {
                        RenderPlan::FrozenBackdrop
                    } else if picker.output != output || progress == Progress::Shown {
                        RenderPlan::Contents
                    } else {
                        RenderPlan::Transition
                    }
                },
            }),
    {
        let picker = match self.state.visible() {
            Some(picker) => picker,
            None => {
                return RenderPlan::Skip;
            },
        };
        if !host_alive {
            return RenderPlan::Skip;
        }
        match self.state.progress(animated) {
            Progress::Hidden => RenderPlan::FrozenBackdrop,
            Progress::Shown => RenderPlan::Contents,
            Progress::Partial => {
                if picker.output != output {
                    RenderPlan::Contents
                } else {
                    RenderPlan::Transition
                }
            },
        }
    }

    /// What stands in for the contents as one image: nothing if the image was rendered, and else
    /// only what darkens the screen.
    pub fn transition_fallback(rendered: bool) -> (layer: Option<Layer>)
        ensures
            layer == (if rendered {
                None
            } else {
                Some(Layer::Backdrop)
            }),
    {
        if rendered {
            None
        } else {
            Some(Layer::Backdrop)
        }
    }

    /// What the screen of an output looked like when the picker opened there. Screen casts get
    /// their own picture.
    pub fn render_frozen_backdrop(&self, output: u64, target: RenderTarget) -> (r: Option<&B>)
        ensures
            match r {
                Some(buffer) => {
                    &&& self.frozen_backdrop is Some
                    &&& self.frozen_backdrop->0.output == output
                    &&& *buffer == (if target == RenderTarget::Screencast {
                        self.frozen_backdrop->0.for_screencast
                    } else {
                        self.frozen_backdrop->0.for_output
                    })
                },
                None => self.frozen_backdrop is None || self.frozen_backdrop->0.output != output,
            },
    {
        match &self.frozen_backdrop {
            Some(backdrop) => {
                if backdrop.output != output {
                    None
                } else if target == RenderTarget::Screencast {
                    Some(&backdrop.for_screencast)
                } else {
                    Some(&backdrop.for_output)
                }
            },
            None => None,
        }
    }

    /// Whether the panel has to be drawn for an output before its contents are shown. Renderings
    /// for outputs that are not `alive` any more are dropped, and so is one that cannot be used.
    pub fn prepare_panel(
        &mut self,
        output: u64,
        variant: PickerRenderVariant,
        key: &PanelKey,
        alive: &Vec<u64>,
    ) -> (stale: bool)
        requires
            old(self).wf(),
        ensures
            final(self).wf(),
            *final(self) == (ScreenCastPickerUi { panels: final(self).panels, ..*old(self) }),
            ({
                let kept = old(self).panels.of(variant).restrict(alive@.to_set());
                &&& stale == !(kept.contains_key(output) && kept[output].key@.agrees_with(key@))
                &&& final(self).panels.of(variant) == (if stale {
                    kept.remove(output)
                } else {
                    kept
                })
            }),
            forall|other: PickerRenderVariant|
                other != variant ==> #[trigger] final(self).panels.of(other) == old(
                    self,
                ).panels.of(other).restrict(alive@.to_set()),
    {
        self.panels.retain_outputs(alive);
        self.panels.take_stale(output, variant, key)
    }

    /// Keeps what drawing the panel for an output led to: its rendering, or nothing if it could
    /// not be drawn.
    pub fn panel_drawn(
        &mut self,
        output: u64,
        variant: PickerRenderVariant,
        key: PanelKey,
        drawn: Option<B>,
    )
        requires
            old(self).wf(),
        ensures
            final(self).wf(),
            *final(self) == (ScreenCastPickerUi { panels: final(self).panels, ..*old(self) }),
            match drawn {
                Some(buffer) => final(self).panels.of(variant) == old(self).panels.of(
                    variant,
                ).insert(output, (PanelCache { key, buffer })),
                None => final(self).panels == old(self).panels,
            },
            forall|other: PickerRenderVariant|
                other != variant ==> #[trigger] final(self).panels.of(other) == old(
                    self,
                ).panels.of(other),
    {
        if let Some(buffer) = drawn {
            self.panels.insert(output, variant, PanelCache { key, buffer });
        }
    }

    /// Whether the window previews are rendered at `now`. Without a panel to show them on they are
    /// left alone.
    pub fn window_previews_due(
        &mut self,
        output: u64,
        variant: PickerRenderVariant,
        key: WindowPreviewCacheKey,
        now: u128,
    ) -> (due: bool)
        requires
            old(self).wf(),
        ensures
            final(self).wf(),
            *final(self) == (ScreenCastPickerUi {
                window_previews: final(self).window_previews,
                ..*old(self)
            }),
            if old(self).shows_on(output, PickerView::Window) && old(self).panels.of(
                variant,
            ).contains_key(output) {
                let before = old(self).window_previews;
                let after = final(self).window_previews;
                let same = before.has_key(key@);
                &&& due == (!same || refresh_due(before.last_refresh, now))
                &&& after.key == (if same {
                    before.key
                } else {
                    Some(key)
                })
                &&& after.element == (if same {
                    before.element
                } else {
                    None
                })
                &&& after.last_refresh == (if due {
                    Some(now)
                } else {
                    before.last_refresh
                })
            } else {
                !due && final(self).window_previews == old(self).window_previews
            },
    {
        if self.picker_on(output, PickerView::Window).is_none() || self.panels.get(
            output,
            variant,
        ).is_none() {
            return false;
        }
        self.window_previews.should_refresh(key, now)
    }

    /// Keeps what rendering the window previews led to. If it failed, the old rendering stays.
    pub fn window_previews_rendered(&mut self, rendered: Option<E>)
        requires
            old(self).wf(),
        ensures
            final(self).wf(),
            *final(self) == (ScreenCastPickerUi {
                window_previews: (WindowPreviewCache {
                    element: if rendered is Some {
                        rendered
                    } else {
                        old(self).window_previews.element
                    },
                    ..old(self).window_previews
                }),
                ..*old(self)
            }),
    {
        if rendered.is_some() {
            self.window_previews.element = rendered;
        }
    }

    /// The layers of the picker's contents on an output, from the top. On other outputs than its
    /// own, the picker only darkens the screen. Nothing is shown once the output of the picker is
    /// gone, nor on that output without a rendering of the panel.
    pub fn render_contents(
        &self,
        output: u64,
        host_alive: bool,
        variant: PickerRenderVariant,
        grid: &PanelGrid,
    ) -> (layers: Vec<Layer>)
        requires
            self.wf(),
        ensures
            kinds(layers@) == self.layers_on(output, host_alive, variant, *grid),
    {
        let mut layers: Vec<Layer> = Vec::new();
        let picker = match self.state.visible() {
            Some(picker) => picker,
            None => {
                return layers;
            },
        };
        if !host_alive {
            return layers;
        }
        if picker.output != output {
            layers.push(Layer::Backdrop);
            assert(kinds(layers@) =~= seq![LayerKind::Backdrop]);
            return layers;
        }
        if self.panels.get(output, variant).is_none() {
            return layers;
        }
        layers.push(Layer::Panel);
        let ghost panel = seq![LayerKind::Panel];
        assert(kinds(layers@) =~= panel);
        let cells = picker.card_cells(grid);
        let candidates = picker.candidates();
        let ghost previews = match picker.view {
            PickerView::Window => if self.window_previews.element is Some {
                seq![LayerKind::WindowPreviews]
            } else {
                Seq::empty()
            },
            PickerView::Display => display_layers(
                picker.shown(),
                cells@,
                self.display_previews,
                cells@.len(),
            ),
        };
        match picker.view {
            PickerView::Window => {
                if self.window_previews.element.is_some() {
                    layers.push(Layer::WindowPreviews);
                }
                assert(kinds(layers@) =~= panel + previews);
            },
            PickerView::Display => {
                assert(kinds(layers@) =~= panel + display_layers(
                    candidates@,
                    cells@,
                    self.display_previews,
                    0,
                ));
                for k in 0..cells.len()
                    invariant
                        self.wf(),
                        forall|j: int|
                            0 <= j < cells@.len() ==> (#[trigger] cells@[j]).index
                                < candidates@.len(),
                        kinds(layers@) == panel + display_layers(
                            candidates@,
                            cells@,
                            self.display_previews,
                            k as nat,
                        ),
                {
                    let index: usize = cells[k].index;
                    if let StreamTargetId::Output { name } = &candidates[index].target {
                        if self.display_previews.get(name).is_some() {
                            let ghost before = kinds(layers@);
                            layers.push(Layer::DisplayPreview { card: k, name: name.clone() });
                            assert(kinds(layers@) =~= before.push(
                                LayerKind::DisplayPreview(k as int, name@),
                            ));
                        }
                    }
                    assert(kinds(layers@) =~= panel + display_layers(
                        candidates@,
                        cells@,
                        self.display_previews,
                        (k + 1) as nat,
                    ));
                }
            },
        }
        assert(kinds(layers@) =~= panel + previews + background_layers(0));
        for k in 0..cells.len()
            invariant
                kinds(layers@) == panel + previews + background_layers(k as nat),
        {
            let ghost before = kinds(layers@);
            layers.push(Layer::PreviewBackground { card: k });
            assert(kinds(layers@) =~= before.push(LayerKind::PreviewBackground(k as int)));
            assert(kinds(layers@) =~= panel + previews + background_layers((k + 1) as nat));
        }
        let ghost before = kinds(layers@);
        layers.push(Layer::Backdrop);
        assert(kinds(layers@) =~= before + seq![LayerKind::Backdrop]);
        layers
    }
}

/// Where the panel has to be drawn and cannot be, nothing of the picker is shown on its output.
/// `after` is what is left of `before` then: the renderings for the outputs in `alive`, without the
/// one that could not be used.
pub proof fn undrawn_panels_show_nothing<B, E>(
    before: ScreenCastPickerUi<B, E>,
    after: ScreenCastPickerUi<B, E>,
    output: u64,
    host_alive: bool,
    variant: PickerRenderVariant,
    alive: Set<u64>,
    grid: PanelGrid,
)
    requires
        before.hosted_by(output),
        after == (ScreenCastPickerUi { panels: after.panels, ..before }),
        after.panels.of(variant) == before.panels.of(variant).restrict(alive).remove(output),
    ensures
        after.layers_on(output, host_alive, variant, grid).len() == 0,
{
}

/// Where the panel was drawn, it is the top layer on the picker's output, and what darkens the
/// screen the bottom one.
pub proof fn drawn_panels_are_on_top<B, E>(
    ui: ScreenCastPickerUi<B, E>,
    output: u64,
    variant: PickerRenderVariant,
    grid: PanelGrid,
)
    requires
        ui.hosted_by(output),
        ui.panels.of(variant).contains_key(output),
    ensures
        ui.layers_on(output, true, variant, grid).first() == LayerKind::Panel,
        ui.layers_on(output, true, variant, grid).last() == LayerKind::Backdrop,
{
}

} // verus!
