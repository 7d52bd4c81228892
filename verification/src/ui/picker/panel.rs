//! What stands on the panel, and the renderings of it that are kept.

use std::collections::HashMap;
use vstd::prelude::*;

use crate::dbus::picker_options::PickerPersistMode;
use crate::dbus::target::StreamTargetId;
use crate::double::{number_eq, numbers_eq, same_number, same_numbers};
use crate::text::same_text;
use crate::ui::picker::candidate::{
    candidate_labels, labels, HitTarget, PickerRenderVariant, PickerView,
};
use crate::ui::picker::grid::{CardCell, PanelGrid};
use crate::ui::picker::open_picker::OpenPicker;
use crate::ui::picker::previews::{card_window, find_window, window_with_id, WindowInfo};

verus! {

broadcast use vstd::std_specs::hash::group_hash_axioms;

/// What an area of the panel is filled with.
#[derive(Clone, Copy, Debug, PartialEq, Eq, Structural)]
pub enum Fill {
    Accent,
    AccentHover,
    Surface,
    SurfaceHover,
    SurfaceActive,
}

/// A button. The label of a primary one stands on the accent color.
#[derive(Clone, Copy, Debug, PartialEq, Eq)]
pub struct ButtonModel {
    pub label: &'static str,
    pub fill: Fill,
    pub primary: bool,
}

/// A tab.
#[derive(Clone, Copy, Debug, PartialEq, Eq)]
pub struct TabModel {
    pub label: &'static str,
    pub fill: Fill,
    pub enabled: bool,
}

/// The control that has the selection remembered.
#[derive(Clone, Copy, Debug, PartialEq, Eq)]
pub struct RememberModel {
    pub label: &'static str,
    pub checked: bool,
}

/// A card. The border of the selected one has the accent color.
#[derive(Debug, PartialEq, Eq)]
pub struct CardModel {
    pub cell: CardCell,
    pub fill: Fill,
    pub selected: bool,
    pub title: String,
    pub subtitle: String,
}

/// What stands on the panel.
#[derive(Debug, PartialEq, Eq)]
pub struct PanelModel {
    pub cancel: ButtonModel,
    pub share: ButtonModel,
    pub title: &'static str,
    pub description: String,
    /// Absent where the client wants nothing remembered.
    pub remember: Option<RememberModel>,
    pub window_tab: TabModel,
    pub display_tab: TabModel,
    pub cards: Vec<CardModel>,
}

/// What a button is filled with.
pub open spec fn button_fill(primary: bool, hovered: bool) -> Fill {
    match (primary, hovered) {
        (true, true) => Fill::AccentHover,
        (true, false) => Fill::Accent,
        (false, true) => Fill::SurfaceHover,
        (false, false) => Fill::Surface,
    }
}

/// What a tab is filled with.
pub open spec fn tab_fill(active: bool, hovered: bool, enabled: bool) -> Fill {
    if active {
        Fill::SurfaceActive
    } else if hovered && enabled {
        Fill::SurfaceHover
    } else {
        Fill::Surface
    }
}

/// What a card is filled with.
pub open spec fn card_fill(selected: bool, hovered: bool) -> Fill {
    if selected {
        Fill::SurfaceActive
    } else if hovered {
        Fill::SurfaceHover
    } else {
        Fill::Surface
    }
}

fn button(label: &'static str, hovered: bool, primary: bool) -> (r: ButtonModel)
    ensures
        r == (ButtonModel { label, fill: button_fill(primary, hovered), primary }),
{
    let fill = if primary {
        if hovered {
            Fill::AccentHover
        } else {
            Fill::Accent
        }
    } else {
        if hovered {
            Fill::SurfaceHover
        } else {
            Fill::Surface
        }
    };
    ButtonModel { label, fill, primary }
}

fn tab(label: &'static str, active: bool, hovered: bool, enabled: bool) -> (r: TabModel)
    ensures
        r == (TabModel { label, fill: tab_fill(active, hovered, enabled), enabled }),
{
    let fill = if active {
        Fill::SurfaceActive
    } else if hovered && enabled {
        Fill::SurfaceHover
    } else {
        Fill::Surface
    };
    TabModel { label, fill, enabled }
}

/// Whether the candidate is a window that is blocked.
pub open spec fn is_blocked(target: StreamTargetId, blocked: Seq<u64>) -> bool {
    match target {
        StreamTargetId::Window { id } => blocked.contains(id),
        StreamTargetId::Output { .. } => false,
    }
}

fn has_number(list: &Vec<u64>, n: u64) -> (r: bool)
    ensures
        r == list@.contains(n),
{
    for i in 0..list.len()
        invariant
            forall|j: int| 0 <= j < i ==> list@[j] != n,
    {
        if list[i] == n {
            return true;
        }
    }
    false
}

fn blocked_target(target: &StreamTargetId, blocked: &Vec<u64>) -> (r: bool)
    ensures
        r == is_blocked(*target, blocked@),
{
    match target {
        StreamTargetId::Window { id } => has_number(blocked, *id),
        StreamTargetId::Output { .. } => false,
    }
}

/// Whether `card` is what the picker shows in `cell`, while the given windows are blocked.
pub open spec fn is_card(
    card: CardModel,
    cell: CardCell,
    picker: OpenPicker,
    blocked: Seq<u64>,
) -> bool {
    let candidate = picker.shown()[cell.index as int];
    let texts = labels(candidate, is_blocked(candidate.target, blocked), picker.messages);
    &&& card.cell == cell
    &&& card.selected == (picker.selection() == Some(cell.index))
    &&& card.fill == card_fill(
        card.selected,
        picker.hovered == HitTarget::Candidate(cell.index),
    )
    &&& card.title@ == texts.title
    &&& card.subtitle@ == texts.subtitle
}

/// The app that asks, as the user reads about it. An empty name is no name.
pub open spec fn asking_app(app_id: Seq<char>) -> Option<Seq<char>> {
    if app_id.len() == 0 {
        None
    } else {
        Some(app_id)
    }
}

fn card(picker: &OpenPicker, cell: CardCell, blocked: &Vec<u64>) -> (r: CardModel)
    requires
        cell.index < picker.shown().len(),
    ensures
        is_card(r, cell, *picker, blocked@),
{
    let candidate = &picker.candidates()[cell.index];
    let is_blocked = blocked_target(&candidate.target, blocked);
    let selected = match picker.selected() {
        Some(index) => index == cell.index,
        None => false,
    };
    let hovered = match picker.hovered {
        HitTarget::Candidate(index) => index == cell.index,
        _ => false,
    };
    let (title, subtitle) = candidate_labels(candidate, is_blocked, &picker.messages);
    let fill = if selected {
        Fill::SurfaceActive
    } else if hovered {
        Fill::SurfaceHover
    } else {
        Fill::Surface
    };
    CardModel { cell, fill, selected, title: title.to_owned(), subtitle: subtitle.to_owned() }
}

fn cards(picker: &OpenPicker, cells: &Vec<CardCell>, blocked: &Vec<u64>) -> (r: Vec<CardModel>)
    requires
        forall|k: int|
            0 <= k < cells@.len() ==> (#[trigger] cells@[k]).index < picker.shown().len(),
    ensures
        r@.len() == cells@.len(),
        forall|k: int|
            0 <= k < cells@.len() ==> is_card(#[trigger] r@[k], cells@[k], *picker, blocked@),
{
    let mut r: Vec<CardModel> = Vec::new();
    for k in 0..cells.len()
        invariant
            r@.len() == k,
            forall|j: int|
                0 <= j < cells@.len() ==> (#[trigger] cells@[j]).index < picker.shown().len(),
            forall|j: int|
                0 <= j < k ==> is_card(#[trigger] r@[j], cells@[j], *picker, blocked@),
    {
        r.push(card(picker, cells[k], blocked));
    }
    r
}

/// Whether `hovered` is the given part of the picker.
fn over(hovered: HitTarget, part: HitTarget) -> (r: bool)
    ensures
        r == (hovered == part),
{
    hovered == part
}

/// What stands on the panel of a picker, while the given windows are blocked.
pub fn panel_model(picker: &OpenPicker, grid: &PanelGrid, blocked: &Vec<u64>) -> (model: PanelModel)
    ensures
        model.cancel == (ButtonModel {
            label: picker.messages.cancel,
            fill: button_fill(false, picker.hovered == HitTarget::Cancel),
            primary: false,
        }),
        model.share == (ButtonModel {
            label: picker.messages.share,
            fill: button_fill(true, picker.hovered == HitTarget::Share),
            primary: true,
        }),
        model.title == picker.messages.share_screen,
        model.description@ == picker.messages.description(
            asking_app(picker.request.options.app_id@),
        ),
        model.remember == (if picker.request.options.persist_mode == PickerPersistMode::Never {
            None
        } else {
            Some(
                RememberModel {
                    label: picker.messages.remember_selection,
                    checked: picker.remember,
                },
            )
        }),
        model.window_tab == (TabModel {
            label: picker.messages.window,
            fill: tab_fill(
                picker.view == PickerView::Window,
                picker.hovered == HitTarget::WindowTab,
                picker.windows@.len() > 0,
            ),
            enabled: picker.windows@.len() > 0,
        }),
        model.display_tab == (TabModel {
            label: picker.messages.display,
            fill: tab_fill(
                picker.view == PickerView::Display,
                picker.hovered == HitTarget::DisplayTab,
                picker.displays@.len() > 0,
            ),
            enabled: picker.displays@.len() > 0,
        }),
        model.cards@.len() == picker.cards(*grid).len(),
        forall|k: int|
            0 <= k < model.cards@.len() ==> is_card(
                #[trigger] model.cards@[k],
                picker.cards(*grid)[k],
                *picker,
                blocked@,
            ),
{
    let cells = picker.card_cells(grid);
    let app_id = picker.request.options.app_id.as_str();
    let description = if same_text(app_id, "") {
        proof {
            reveal_strlit("");
            assert(app_id@.len() == 0);
        }
        picker.messages.share_description(None)
    } else {
        proof {
            reveal_strlit("");
            if app_id@.len() == 0 {
                assert(app_id@ =~= ""@);
            }
        }
        picker.messages.share_description(Some(app_id))
    };
    let remember = match picker.request.options.persist_mode {
        PickerPersistMode::Never => None,
        _ => Some(
            RememberModel {
                label: picker.messages.remember_selection,
                checked: picker.remember,
            },
        ),
    };
    PanelModel {
        cancel: button(
            picker.messages.cancel,
            over(picker.hovered, HitTarget::Cancel),
            false,
        ),
        share: button(picker.messages.share, over(picker.hovered, HitTarget::Share), true),
        title: picker.messages.share_screen,
        description,
        remember,
        window_tab: tab(
            picker.messages.window,
            picker.view == PickerView::Window,
            over(picker.hovered, HitTarget::WindowTab),
            picker.windows.len() > 0,
        ),
        display_tab: tab(
            picker.messages.display,
            picker.view == PickerView::Display,
            over(picker.hovered, HitTarget::DisplayTab),
            picker.displays.len() > 0,
        ),
        cards: cards(picker, &cells, blocked),
    }
}

/// The blocked windows among the first `n` cells: those that the compositor hides from screen
/// casts.
pub open spec fn blocked_in(
    cells: Seq<CardCell>,
    picker: OpenPicker,
    windows: Seq<WindowInfo>,
    n: nat,
) -> Seq<u64>
    decreases n,
{
    if n == 0 {
        Seq::empty()
    } else {
        let before = blocked_in(cells, picker, windows, (n - 1) as nat);
        match card_window(picker.shown(), cells[n - 1].index) {
            Some(id) => match window_with_id(windows, id) {
                Some(window) => if window.blocked {
                    before.push(id)
                } else {
                    before
                },
                None => before,
            },
            None => before,
        }
    }
}

/// The windows on the panel that must not be recognizable: none where the user sees it.
pub open spec fn blocked_ids(
    picker: OpenPicker,
    grid: PanelGrid,
    variant: PickerRenderVariant,
    windows: Seq<WindowInfo>,
) -> Seq<u64> {
    match variant {
        PickerRenderVariant::Screencast => blocked_in(
            picker.cards(grid),
            picker,
            windows,
            picker.cards(grid).len(),
        ),
        PickerRenderVariant::Output => Seq::empty(),
    }
}

/// The windows on the panel that must not be recognizable: none where the user sees it.
pub fn blocked_window_ids(
    picker: &OpenPicker,
    grid: &PanelGrid,
    variant: PickerRenderVariant,
    windows: &Vec<WindowInfo>,
) -> (ids: Vec<u64>)
    ensures
        ids@ == blocked_ids(*picker, *grid, variant, windows@),
{
    let mut ids: Vec<u64> = Vec::new();
    match variant {
        PickerRenderVariant::Output => {},
        PickerRenderVariant::Screencast => {
            let cells = picker.card_cells(grid);
            let candidates = picker.candidates();
            for k in 0..cells.len()
                invariant
                    cells@ == picker.cards(*grid),
                    candidates@ == picker.shown(),
                    forall|j: int|
                        0 <= j < cells@.len() ==> (#[trigger] cells@[j]).index
                            < picker.shown().len(),
                    ids@ == blocked_in(cells@, *picker, windows@, k as nat),
            {
                let index: usize = cells[k].index;
                if let StreamTargetId::Window { id } = &candidates[index].target {
                    if let Some(window) = find_window(windows, *id) {
                        if window.blocked {
                            ids.push(*id);
                        }
                    }
                }
            }
        },
    }
    ids
}

proof fn blocked_cells_are_listed(
    cells: Seq<CardCell>,
    picker: OpenPicker,
    windows: Seq<WindowInfo>,
    n: nat,
    k: int,
)
    requires
        0 <= k < n,
        card_window(picker.shown(), cells[k].index) is Some,
        window_with_id(windows, card_window(picker.shown(), cells[k].index)->0) is Some,
        window_with_id(windows, card_window(picker.shown(), cells[k].index)->0)->0.blocked,
    ensures
        blocked_in(cells, picker, windows, n).contains(
            card_window(picker.shown(), cells[k].index)->0,
        ),
    decreases n,
{
    let id = card_window(picker.shown(), cells[k].index)->0;
    let before = blocked_in(cells, picker, windows, (n - 1) as nat);
    let now = blocked_in(cells, picker, windows, n);
    if k == n - 1 {
        assert(now[before.len() as int] == id);
    } else {
        blocked_cells_are_listed(cells, picker, windows, (n - 1) as nat, k);
        let j = choose|j: int| 0 <= j < before.len() && before[j] == id;
        assert(now[j] == id);
    }
}

/// On a panel that is rendered for a screen cast, the card of a window that is hidden from screen
/// casts says nothing about the window.
pub proof fn hidden_windows_are_not_exposed(
    picker: OpenPicker,
    grid: PanelGrid,
    windows: Seq<WindowInfo>,
    card: CardModel,
    k: int,
)
    requires
        0 <= k < picker.cards(grid).len(),
        card_window(picker.shown(), picker.cards(grid)[k].index) is Some,
        ({
            let window = window_with_id(
                windows,
                card_window(picker.shown(), picker.cards(grid)[k].index)->0,
            );
            window is Some && window->0.blocked
        }),
        is_card(
            card,
            picker.cards(grid)[k],
            picker,
            blocked_ids(picker, grid, PickerRenderVariant::Screencast, windows),
        ),
    ensures
        card.title@ == picker.messages.protected_window@,
        card.subtitle@ == picker.messages.hidden_from_screen_share@,
{
    blocked_cells_are_listed(
        picker.cards(grid),
        picker,
        windows,
        picker.cards(grid).len(),
        k,
    );
}

/// What a rendering of the panel depends on, besides the picker. Numbers with a fraction are kept
/// as the bits of a double, and the palette as the bits of its components.
#[derive(Debug)]
pub struct PanelKey {
    pub scale: u64,
    pub width: u64,
    pub height: u64,
    pub palette: Vec<u64>,
    pub blocked_window_ids: Vec<u64>,
}

/// A [`PanelKey`] as a mathematical value.
pub struct PanelKeyValue {
    pub scale: u64,
    pub width: u64,
    pub height: u64,
    pub palette: Seq<u64>,
    pub blocked_window_ids: Seq<u64>,
}

impl View for PanelKey {
    type V = PanelKeyValue;

    open spec fn view(&self) -> PanelKeyValue {
        PanelKeyValue {
            scale: self.scale,
            width: self.width,
            height: self.height,
            palette: self.palette@,
            blocked_window_ids: self.blocked_window_ids@,
        }
    }
}

fn same_ids(a: &Vec<u64>, b: &Vec<u64>) -> (r: bool)
    ensures
        r == (a@ == b@),
{
    if a.len() != b.len() {
        return false;
    }
    for i in 0..a.len()
        invariant
            a@.len() == b@.len(),
            forall|j: int| 0 <= j < i ==> a@[j] == b@[j],
    {
        if a[i] != b[i] {
            return false;
        }
    }
    assert(a@ =~= b@);
    true
}

impl PanelKeyValue {
    /// Whether a rendering from one key is one from the other: the scale, the size and the palette
    /// hold the same numbers, and the same windows are blocked.
    pub open spec fn agrees_with(self, other: PanelKeyValue) -> bool {
        &&& same_number(self.scale, other.scale)
        &&& same_number(self.width, other.width)
        &&& same_number(self.height, other.height)
        &&& same_numbers(self.palette, other.palette)
        &&& self.blocked_window_ids == other.blocked_window_ids
    }
}

impl PanelKey {
    /// Whether a rendering from one key is one from the other.
    pub fn same(&self, other: &PanelKey) -> (r: bool)
        ensures
            r == self@.agrees_with(other@),
    {
        number_eq(self.scale, other.scale) && number_eq(self.width, other.width) && number_eq(
            self.height,
            other.height,
        ) && numbers_eq(&self.palette, &other.palette) && same_ids(
            &self.blocked_window_ids,
            &other.blocked_window_ids,
        )
    }
}

impl PartialEq for PanelKey {
    fn eq(&self, other: &Self) -> (r: bool) {
        self.same(other)
    }
}

impl vstd::std_specs::cmp::PartialEqSpecImpl for PanelKey {
    open spec fn obeys_eq_spec() -> bool {
        true
    }

    open spec fn eq_spec(&self, other: &Self) -> bool {
        self@.agrees_with(other@)
    }
}

/// A rendering of the panel, and what it was rendered from. `B` is what a rendering is kept as.
#[derive(Debug)]
pub struct PanelCache<B> {
    pub key: PanelKey,
    pub buffer: B,
}

/// The renderings of the panel that are kept: one for each output and variant.
#[derive(Debug)]
pub struct PanelCaches<B> {
    pub for_output: HashMap<u64, PanelCache<B>>,
    pub for_screencast: HashMap<u64, PanelCache<B>>,
}

/// Drops the entries whose keys are not in `keys`.
fn keep_only<V>(map: &mut HashMap<u64, V>, keys: &Vec<u64>)
    ensures
        final(map)@ == old(map)@.restrict(keys@.to_set()),
{
    let mut kept: HashMap<u64, V> = HashMap::new();
    for i in 0..keys.len()
        invariant
            kept@ == old(map)@.restrict(keys@.take(i as int).to_set()),
            map@ == old(map)@.remove_keys(keys@.take(i as int).to_set()),
    {
        let ghost seen = keys@.take(i as int);
        assert(keys@.take(i + 1) =~= seen.push(keys@[i as int]));
        proof {
            seen.lemma_push_to_set_commute(keys@[i as int]);
        }
        match map.remove(&keys[i]) {
            Some(value) => {
                let _ = kept.insert(keys[i], value);
            },
            None => {},
        }
        assert(kept@ =~= old(map)@.restrict(keys@.take(i + 1).to_set()));
        assert(map@ =~= old(map)@.remove_keys(keys@.take(i + 1).to_set()));
    }
    assert(keys@.take(keys@.len() as int) =~= keys@);
    *map = kept;
}

impl<B> PanelCaches<B> {
    /// Whether nothing is kept.
    pub open spec fn is_blank(self) -> bool {
        &&& self.for_output@ == Map::<u64, PanelCache<B>>::empty()
        &&& self.for_screencast@ == Map::<u64, PanelCache<B>>::empty()
    }

    /// The renderings of a variant, by output.
    pub open spec fn of(self, variant: PickerRenderVariant) -> Map<u64, PanelCache<B>> {
        match variant {
            PickerRenderVariant::Output => self.for_output@,
            PickerRenderVariant::Screencast => self.for_screencast@,
        }
    }

    /// Whether the rendering for an output can be used: it was rendered from `key`.
    pub open spec fn is_fresh(
        self,
        output: u64,
        variant: PickerRenderVariant,
        key: PanelKeyValue,
    ) -> bool {
        self.of(variant).contains_key(output) && self.of(variant)[output].key@.agrees_with(key)
    }

    /// Nothing is kept.
    pub fn new() -> (r: Self)
        ensures
            r.is_blank(),
    {
        PanelCaches { for_output: HashMap::new(), for_screencast: HashMap::new() }
    }

    /// Forgets all renderings.
    pub fn clear(&mut self)
        ensures
            final(self).is_blank(),
    {
        self.for_output.clear();
        self.for_screencast.clear();
    }

    /// Forgets the renderings for outputs that are gone.
    pub fn retain_outputs(&mut self, alive: &Vec<u64>)
        ensures
            final(self).for_output@ == old(self).for_output@.restrict(alive@.to_set()),
            final(self).for_screencast@ == old(self).for_screencast@.restrict(alive@.to_set()),
    {
        keep_only(&mut self.for_output, alive);
        keep_only(&mut self.for_screencast, alive);
    }

    /// Whether the panel has to be rendered anew for an output. A rendering that cannot be used is
    /// dropped.
    pub fn take_stale(
        &mut self,
        output: u64,
        variant: PickerRenderVariant,
        key: &PanelKey,
    ) -> (stale: bool)
        ensures
            stale == !old(self).is_fresh(output, variant, key@),
            final(self).of(variant) == (if stale {
                old(self).of(variant).remove(output)
            } else {
                old(self).of(variant)
            }),
            forall|other: PickerRenderVariant|
                other != variant ==> #[trigger] final(self).of(other) == old(self).of(other),
    {
        let fresh = match self.get(output, variant) {
            Some(cache) => cache.key.same(key),
            None => false,
        };
        if fresh {
            return false;
        }
        match variant {
            PickerRenderVariant::Output => {
                let _ = self.for_output.remove(&output);
            },
            PickerRenderVariant::Screencast => {
                let _ = self.for_screencast.remove(&output);
            },
        }
        true
    }

    /// Keeps a rendering of the panel for an output.
    pub fn insert(
        &mut self,
        output: u64,
        variant: PickerRenderVariant,
        cache: PanelCache<B>,
    )
        ensures
            final(self).of(variant) == old(self).of(variant).insert(output, cache),
            forall|other: PickerRenderVariant|
                other != variant ==> #[trigger] final(self).of(other) == old(self).of(other),
    {
        match variant {
            PickerRenderVariant::Output => {
                let _ = self.for_output.insert(output, cache);
            },
            PickerRenderVariant::Screencast => {
                let _ = self.for_screencast.insert(output, cache);
            },
        }
    }

    /// The rendering of the panel for an output.
    pub fn get(&self, output: u64, variant: PickerRenderVariant) -> (r: Option<&PanelCache<B>>)
        ensures
            match r {
                Some(cache) => self.of(variant).contains_key(output) && *cache == self.of(
                    variant,
                )[output],
                None => !self.of(variant).contains_key(output),
            },
    {
        match variant {
            PickerRenderVariant::Output => self.for_output.get(&output),
            PickerRenderVariant::Screencast => self.for_screencast.get(&output),
        }
    }
}

} // verus!
