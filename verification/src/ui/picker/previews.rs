//! When the previews of windows and displays are rendered again, and what is kept of them.

use vstd::prelude::*;

use crate::assoc::Assoc;
use crate::dbus::target::StreamTargetId;
use crate::double::{number_eq, same_number};
use crate::ui::picker::candidate::PickerCandidate;
use crate::ui::picker::grid::CardCell;

verus! {

/// The shortest time between two renderings of the same previews, in nanoseconds: a thirtieth of
/// a second.
pub const PREVIEW_FRAME_INTERVAL: u128 = 1_000_000_000 / 30;

/// Whether previews that were last rendered at `last_refresh` are rendered again at `now`. Times
/// are in nanoseconds.
pub open spec fn refresh_due(last_refresh: Option<u128>, now: u128) -> bool {
    match last_refresh {
        Some(last) => now - last >= PREVIEW_FRAME_INTERVAL,
        None => true,
    }
}

/// Whether previews that were last rendered at `last_refresh` are rendered again at `now`. Times
/// are in nanoseconds.
pub fn preview_refresh_due(last_refresh: Option<u128>, now: u128) -> (due: bool)
    ensures
        due == refresh_due(last_refresh, now),
{
    match last_refresh {
        Some(last) => now >= last && now - last >= PREVIEW_FRAME_INTERVAL,
        None => true,
    }
}

/// Renderings that each came when they were due span at least the frame interval between any two
/// neighbours, so there are at most thirty-one of them within a second.
pub proof fn refreshes_are_capped(times: Seq<u128>)
    requires
        times.len() > 0,
        forall|i: int|
            0 < i < times.len() ==> refresh_due(Some(times[i - 1]), #[trigger] times[i]),
    ensures
        times.last() - times[0] >= (times.len() - 1) * PREVIEW_FRAME_INTERVAL,
        times.last() - times[0] <= 1_000_000_000 ==> times.len() <= 31,
    decreases times.len(),
{
    if times.len() > 1 {
        let head = times.drop_last();
        assert forall|i: int| 0 < i < head.len() implies refresh_due(
            Some(head[i - 1]),
            #[trigger] head[i],
        ) by {
            assert(refresh_due(Some(times[i - 1]), times[i]));
        }
        refreshes_are_capped(head);
        assert(refresh_due(Some(times[times.len() - 2]), times[times.len() - 1]));
        assert((times.len() - 1) * PREVIEW_FRAME_INTERVAL == (head.len() - 1)
            * PREVIEW_FRAME_INTERVAL + PREVIEW_FRAME_INTERVAL) by (nonlinear_arith)
            requires
                times.len() == head.len() + 1,
        ;
    }
}

/// A rectangle in physical pixels.
#[derive(Clone, Copy, Debug, PartialEq, Eq, Structural)]
pub struct PhysicalRect {
    pub x: i32,
    pub y: i32,
    pub width: i32,
    pub height: i32,
}

/// `n`, or the nearest number to it that fits.
pub open spec fn saturated(n: int) -> int {
    if n > i32::MAX {
        i32::MAX as int
    } else if n < i32::MIN {
        i32::MIN as int
    } else {
        n
    }
}

impl PhysicalRect {
    /// Whether the size is not negative.
    pub open spec fn wf(self) -> bool {
        self.width >= 0 && self.height >= 0
    }

    /// The right edge.
    pub open spec fn right(self) -> int {
        saturated(self.x + self.width)
    }

    /// The bottom edge.
    pub open spec fn bottom(self) -> int {
        saturated(self.y + self.height)
    }
}

/// The smaller of two numbers.
pub open spec fn least(a: int, b: int) -> int {
    if a < b {
        a
    } else {
        b
    }
}

/// The larger of two numbers.
pub open spec fn greatest(a: int, b: int) -> int {
    if a > b {
        a
    } else {
        b
    }
}

/// The smallest rectangle around the corners of `a` and `b`, as far as its edges and its size fit.
pub open spec fn merged(a: PhysicalRect, b: PhysicalRect) -> PhysicalRect {
    let left = least(least(a.x as int, a.right()), least(b.x as int, b.right()));
    let top = least(least(a.y as int, a.bottom()), least(b.y as int, b.bottom()));
    let right = greatest(greatest(a.x as int, a.right()), greatest(b.x as int, b.right()));
    let bottom = greatest(greatest(a.y as int, a.bottom()), greatest(b.y as int, b.bottom()));
    PhysicalRect {
        x: left as i32,
        y: top as i32,
        width: saturated(right - left) as i32,
        height: saturated(bottom - top) as i32,
    }
}

fn saturate(n: i64) -> (r: i32)
    ensures
        r == saturated(n as int),
{
    if n > i32::MAX as i64 {
        i32::MAX
    } else if n < i32::MIN as i64 {
        i32::MIN
    } else {
        n as i32
    }
}

fn smaller(a: i32, b: i32) -> (r: i32)
    ensures
        r == least(a as int, b as int),
{
    if a < b {
        a
    } else {
        b
    }
}

fn larger(a: i32, b: i32) -> (r: i32)
    ensures
        r == greatest(a as int, b as int),
{
    if a > b {
        a
    } else {
        b
    }
}

/// The smallest rectangle around the corners of `a` and `b`, as far as its edges and its size fit.
pub fn merge_rects(a: PhysicalRect, b: PhysicalRect) -> (r: PhysicalRect)
    ensures
        r == merged(a, b),
{
    let a_right: i32 = saturate(a.x as i64 + a.width as i64);
    let b_right: i32 = saturate(b.x as i64 + b.width as i64);
    let a_bottom: i32 = saturate(a.y as i64 + a.height as i64);
    let b_bottom: i32 = saturate(b.y as i64 + b.height as i64);
    let left: i32 = smaller(smaller(a.x, a_right), smaller(b.x, b_right));
    let top: i32 = smaller(smaller(a.y, a_bottom), smaller(b.y, b_bottom));
    let right: i32 = larger(larger(a.x, a_right), larger(b.x, b_right));
    let bottom: i32 = larger(larger(a.y, a_bottom), larger(b.y, b_bottom));
    PhysicalRect {
        x: left,
        y: top,
        width: saturate(right as i64 - left as i64),
        height: saturate(bottom as i64 - top as i64),
    }
}

/// Whether `inner` lies in `outer`.
pub open spec fn contains_rect(outer: PhysicalRect, inner: PhysicalRect) -> bool {
    &&& outer.x <= inner.x
    &&& outer.y <= inner.y
    &&& inner.right() <= outer.x + outer.width
    &&& inner.bottom() <= outer.y + outer.height
}

/// A rectangle around two others contains both, unless it is too large for its size to fit.
pub proof fn merged_rect_contains_both(a: PhysicalRect, b: PhysicalRect)
    requires
        a.wf(),
        b.wf(),
        a.right() - b.x <= i32::MAX && b.right() - a.x <= i32::MAX,
        a.bottom() - b.y <= i32::MAX && b.bottom() - a.y <= i32::MAX,
    ensures
        merged(a, b).wf(),
        contains_rect(merged(a, b), a),
        contains_rect(merged(a, b), b),
{
}

/// What a window's preview depends on.
#[derive(Clone, Copy, Debug, PartialEq, Eq, Structural)]
pub struct WindowPreviewCacheItem {
    pub id: u64,
    pub source_width: i32,
    pub source_height: i32,
    pub bounds: PhysicalRect,
    pub blocked: bool,
}

/// What the rendered window previews depend on. `scale` is the scale of the output as the bits of
/// a double.
#[derive(Debug)]
pub struct WindowPreviewCacheKey {
    pub scale: u64,
    pub items: Vec<WindowPreviewCacheItem>,
}

/// A [`WindowPreviewCacheKey`] as a mathematical value.
pub struct PreviewKey {
    pub scale: u64,
    pub items: Seq<WindowPreviewCacheItem>,
}

impl View for WindowPreviewCacheKey {
    type V = PreviewKey;

    open spec fn view(&self) -> PreviewKey {
        PreviewKey { scale: self.scale, items: self.items@ }
    }
}

impl Clone for WindowPreviewCacheKey {
    fn clone(&self) -> (r: Self)
        ensures
            r@ == self@,
    {
        let mut items: Vec<WindowPreviewCacheItem> = Vec::new();
        for i in 0..self.items.len()
            invariant
                items@ == self.items@.take(i as int),
        {
            items.push(self.items[i]);
        }
        assert(items@ =~= self.items@);
        WindowPreviewCacheKey { scale: self.scale, items }
    }
}

impl PreviewKey {
    /// Whether previews that were rendered from one key show what the other one asks for: the
    /// scales are the same number, and the items are the same.
    pub open spec fn agrees_with(self, other: PreviewKey) -> bool {
        same_number(self.scale, other.scale) && self.items == other.items
    }
}

impl WindowPreviewCacheKey {
    /// Whether previews that were rendered from one key show what the other one asks for.
    pub fn same(&self, other: &WindowPreviewCacheKey) -> (r: bool)
        ensures
            r == self@.agrees_with(other@),
    {
        if !number_eq(self.scale, other.scale) || self.items.len() != other.items.len() {
            return false;
        }
        for i in 0..self.items.len()
            invariant
                self.items@.len() == other.items@.len(),
                forall|j: int| 0 <= j < i ==> self.items@[j] == other.items@[j],
        {
            if self.items[i] != other.items[i] {
                return false;
            }
        }
        assert(self.items@ =~= other.items@);
        true
    }
}

impl PartialEq for WindowPreviewCacheKey {
    fn eq(&self, other: &Self) -> (r: bool) {
        self.same(other)
    }
}

impl vstd::std_specs::cmp::PartialEqSpecImpl for WindowPreviewCacheKey {
    open spec fn obeys_eq_spec() -> bool {
        true
    }

    open spec fn eq_spec(&self, other: &Self) -> bool {
        self@.agrees_with(other@)
    }
}

/// The rendered window previews, and what they were rendered from. `E` is what a rendering is
/// kept as.
#[derive(Debug)]
pub struct WindowPreviewCache<E> {
    pub key: Option<WindowPreviewCacheKey>,
    pub element: Option<E>,
    pub last_refresh: Option<u128>,
}

impl<E> WindowPreviewCache<E> {
    /// Whether the previews were rendered from `key`.
    pub open spec fn has_key(self, key: PreviewKey) -> bool {
        self.key is Some && self.key->0@.agrees_with(key)
    }

    /// Whether nothing is cached.
    pub open spec fn is_blank(self) -> bool {
        self.key is None && self.element is None && self.last_refresh is None
    }

    /// Nothing is cached.
    pub fn new() -> (cache: Self)
        ensures
            cache.is_blank(),
    {
        WindowPreviewCache { key: None, element: None, last_refresh: None }
    }

    /// Notes what the previews are rendered from, and drops the rendering if that changed.
    pub fn update_key(&mut self, key: WindowPreviewCacheKey) -> (changed: bool)
        ensures
            changed == !old(self).has_key(key@),
            *final(self) == (if changed {
                WindowPreviewCache {
                    key: Some(key),
                    element: None,
                    last_refresh: old(self).last_refresh,
                }
            } else {
                *old(self)
            }),
    {
        if let Some(current) = &self.key {
            if current.same(&key) {
                return false;
            }
        }
        self.element = None;
        self.key = Some(key);
        true
    }

    /// Whether the previews are rendered at `now`: at once if what they show changed, else when a
    /// frame interval went by.
    pub fn should_refresh(&mut self, key: WindowPreviewCacheKey, now: u128) -> (refresh: bool)
        ensures
            refresh == (!old(self).has_key(key@) || refresh_due(old(self).last_refresh, now)),
            final(self).key == (if old(self).has_key(key@) {
                old(self).key
            } else {
                Some(key)
            }),
            final(self).element == (if old(self).has_key(key@) {
                old(self).element
            } else {
                None
            }),
            final(self).last_refresh == (if refresh {
                Some(now)
            } else {
                old(self).last_refresh
            }),
    {
        let key_changed = self.update_key(key);
        if !key_changed && !preview_refresh_due(self.last_refresh, now) {
            return false;
        }
        self.last_refresh = Some(now);
        true
    }

    /// Forgets the previews.
    pub fn clear(&mut self)
        ensures
            final(self).is_blank(),
    {
        self.key = None;
        self.element = None;
        self.last_refresh = None;
    }
}

/// A window as the compositor knows it: its size, and whether it is hidden from screen casts.
#[derive(Clone, Copy, Debug, PartialEq, Eq, Structural)]
pub struct WindowInfo {
    pub id: u64,
    pub width: i32,
    pub height: i32,
    pub blocked: bool,
}

/// The first window with the given id.
pub open spec fn window_with_id(windows: Seq<WindowInfo>, id: u64) -> Option<WindowInfo>
    decreases windows.len(),
{
    if windows.len() == 0 {
        None
    } else if windows.first().id == id {
        Some(windows.first())
    } else {
        window_with_id(windows.drop_first(), id)
    }
}

/// The first window with the given id.
pub fn find_window(windows: &Vec<WindowInfo>, id: u64) -> (r: Option<WindowInfo>)
    ensures
        r == window_with_id(windows@, id),
{
    assert(windows@.skip(0) =~= windows@);
    for i in 0..windows.len()
        invariant
            window_with_id(windows@, id) == window_with_id(windows@.skip(i as int), id),
    {
        let ghost rest = windows@.skip(i as int);
        assert(rest.first() == windows@[i as int]);
        assert(rest.drop_first() =~= windows@.skip(i + 1));
        if windows[i].id == id {
            return Some(windows[i]);
        }
    }
    None
}

/// A visible card: which candidate it shows, and where its preview is in physical pixels.
#[derive(Clone, Copy, Debug, PartialEq, Eq, Structural)]
pub struct CardPreview {
    pub index: usize,
    pub bounds: PhysicalRect,
}

/// The window that a candidate of the card stands for.
pub open spec fn card_window(candidates: Seq<PickerCandidate>, index: usize) -> Option<u64> {
    if index < candidates.len() {
        match candidates[index as int].target {
            StreamTargetId::Window { id } => Some(id),
            StreamTargetId::Output { .. } => None,
        }
    } else {
        None
    }
}

/// The output that a candidate of the card stands for.
pub open spec fn card_output(candidates: Seq<PickerCandidate>, index: usize) -> Option<Seq<char>> {
    if index < candidates.len() {
        match candidates[index as int].target {
            StreamTargetId::Window { .. } => None,
            StreamTargetId::Output { name } => Some(name@),
        }
    } else {
        None
    }
}

/// What the preview of one card shows: the card's window, if it is there and has a size.
pub open spec fn preview_item(
    card: CardPreview,
    candidates: Seq<PickerCandidate>,
    windows: Seq<WindowInfo>,
) -> Option<WindowPreviewCacheItem> {
    match card_window(candidates, card.index) {
        Some(id) => match window_with_id(windows, id) {
            Some(window) => if window.width <= 0 || window.height <= 0 {
                None
            } else {
                Some(
                    WindowPreviewCacheItem {
                        id,
                        source_width: window.width,
                        source_height: window.height,
                        bounds: card.bounds,
                        blocked: window.blocked,
                    },
                )
            },
            None => None,
        },
        None => None,
    }
}

/// What the previews of the first `n` cards show.
pub open spec fn preview_items(
    cards: Seq<CardPreview>,
    candidates: Seq<PickerCandidate>,
    windows: Seq<WindowInfo>,
    n: nat,
) -> Seq<WindowPreviewCacheItem>
    decreases n,
{
    if n == 0 {
        Seq::empty()
    } else {
        let before = preview_items(cards, candidates, windows, (n - 1) as nat);
        match preview_item(cards[n - 1], candidates, windows) {
            Some(item) => before.push(item),
            None => before,
        }
    }
}

/// The rectangle around the bounds of the items.
pub open spec fn bounds_of(items: Seq<WindowPreviewCacheItem>) -> Option<PhysicalRect>
    decreases items.len(),
{
    if items.len() == 0 {
        None
    } else {
        match bounds_of(items.drop_last()) {
            Some(bounds) => Some(merged(bounds, items.last().bounds)),
            None => Some(items.last().bounds),
        }
    }
}

/// The window previews to render: what each of them shows, and the rectangle around them.
#[derive(Debug, PartialEq, Eq)]
pub struct WindowPreviewPlan {
    pub items: Vec<WindowPreviewCacheItem>,
    pub bounds: Option<PhysicalRect>,
}

/// Which window previews the cards show.
pub fn window_preview_plan(
    cards: &Vec<CardPreview>,
    candidates: &Vec<PickerCandidate>,
    windows: &Vec<WindowInfo>,
) -> (plan: WindowPreviewPlan)
    ensures
        plan.items@ == preview_items(cards@, candidates@, windows@, cards@.len()),
        plan.bounds == bounds_of(plan.items@),
{
    let mut items: Vec<WindowPreviewCacheItem> = Vec::new();
    let mut bounds: Option<PhysicalRect> = None;
    for i in 0..cards.len()
        invariant
            items@ == preview_items(cards@, candidates@, windows@, i as nat),
            bounds == bounds_of(items@),
    {
        let card = cards[i];
        if card.index < candidates.len() {
            if let StreamTargetId::Window { id } = &candidates[card.index].target {
                if let Some(window) = find_window(windows, *id) {
                    if window.width > 0 && window.height > 0 {
                        let ghost before = items@;
                        items.push(
                            WindowPreviewCacheItem {
                                id: *id,
                                source_width: window.width,
                                source_height: window.height,
                                bounds: card.bounds,
                                blocked: window.blocked,
                            },
                        );
                        assert(items@.drop_last() =~= before);
                        bounds = match bounds {
                            Some(around) => Some(merge_rects(around, card.bounds)),
                            None => Some(card.bounds),
                        };
                    }
                }
            }
        }
    }
    WindowPreviewPlan { items, bounds }
}

/// A request to render the preview of an output for a card.
#[derive(Debug, PartialEq, Eq)]
pub struct DisplayPreviewRequest {
    pub name: String,
    pub cell: CardCell,
}

/// The rendered previews of outputs, by the name of the output. `E` is what a rendering is kept
/// as; an output whose rendering failed has none.
#[derive(Debug)]
pub struct DisplayPreviews<E> {
    pub previews: Assoc<String, Option<E>>,
}

/// The names that are asked for.
pub open spec fn requested_names(requests: Seq<DisplayPreviewRequest>) -> Set<Seq<char>> {
    requests.map_values(|request: DisplayPreviewRequest| request.name@).to_set()
}

impl<E> DisplayPreviews<E> {
    /// No previews.
    pub fn new() -> (r: Self)
        ensures
            r.previews.wf(),
            r.previews@ == Map::<Seq<char>, Option<E>>::empty(),
    {
        DisplayPreviews { previews: Assoc::new() }
    }

    /// Begins a frame: previews that are not asked for are dropped, and the others have to be
    /// rendered again.
    pub fn begin_frame(&mut self, requests: &Vec<DisplayPreviewRequest>)
        requires
            old(self).previews.wf(),
        ensures
            final(self).previews.wf(),
            final(self).previews@ == Map::<Seq<char>, Option<E>>::new(
                |name: Seq<char>|
                    old(self).previews@.contains_key(name) && requested_names(
                        requests@,
                    ).contains(name),
                |name: Seq<char>| None,
            ),
    {
        let mut kept: Assoc<String, Option<E>> = Assoc::new();
        let ghost names = requests@.map_values(|request: DisplayPreviewRequest| request.name@);
        let ghost known = self.previews@;
        for i in 0..requests.len()
            invariant
                known == self.previews@,
                self.previews.wf(),
                kept.wf(),
                names == requests@.map_values(|request: DisplayPreviewRequest| request.name@),
                forall|name: Seq<char>| #[trigger]
                    kept@.contains_key(name) <==> known.contains_key(name) && names.take(
                        i as int,
                    ).contains(name),
                forall|name: Seq<char>| kept@.contains_key(name) ==> kept@[name] is None,
        {
            let name = &requests[i].name;
            proof {
                let before = names.take(i as int);
                let after = names.take(i + 1);
                assert(after =~= before.push(name@));
                assert forall|other: Seq<char>|
                    after.contains(other) <==> before.contains(other) || other == name@ by {
                    if before.contains(other) {
                        let j = choose|j: int| 0 <= j < before.len() && before[j] == other;
                        assert(after[j] == other);
                    }
                    assert(after[i as int] == name@);
                }
            }
            if self.previews.contains_key(name) {
                kept.insert(name.clone(), None);
            }
        }
        assert(names.take(names.len() as int) =~= names);
        self.previews = kept;
        proof {
            let goal = Map::<Seq<char>, Option<E>>::new(
                |name: Seq<char>|
                    old(self).previews@.contains_key(name) && requested_names(
                        requests@,
                    ).contains(name),
                |name: Seq<char>| None,
            );
            assert forall|name: Seq<char>|
                self.previews@.contains_key(name) <==> goal.contains_key(name) by {
                assert(requested_names(requests@).contains(name) <==> names.contains(name));
            }
            assert(self.previews@ =~= goal);
        }
    }

    /// Notes the rendering of an output's preview, or that it failed.
    pub fn update(&mut self, name: &str, element: Option<E>)
        requires
            old(self).previews.wf(),
        ensures
            final(self).previews.wf(),
            final(self).previews@ == old(self).previews@.insert(name@, element),
    {
        self.previews.insert(name.to_owned(), element);
    }

    /// Whether there is a rendering of the output's preview.
    pub open spec fn has(self, name: Seq<char>) -> bool {
        self.previews@.contains_key(name) && self.previews@[name] is Some
    }

    /// The rendering of an output's preview.
    pub fn get(&self, name: &String) -> (r: Option<&E>)
        requires
            self.previews.wf(),
        ensures
            match r {
                Some(element) => self.has(name@) && *element == self.previews@[name@]->0,
                None => !self.has(name@),
            },
    {
        match self.previews.get(name) {
            Some(Some(element)) => Some(element),
            _ => None,
        }
    }

    /// Forgets the previews.
    pub fn clear(&mut self)
        ensures
            final(self).previews.wf(),
            final(self).previews@ == Map::<Seq<char>, Option<E>>::empty(),
    {
        self.previews.clear();
    }
}

} // verus!
