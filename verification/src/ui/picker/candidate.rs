//! What the picker offers, and how it is labelled.

use vstd::prelude::*;

use crate::dbus::target::StreamTargetId;
use crate::ui::i18n::Messages;

verus! {

/// A source that the user can pick.
#[derive(Debug, PartialEq, Eq)]
pub struct PickerCandidate {
    pub target: StreamTargetId,
    pub title: String,
    pub subtitle: Option<String>,
}

impl Clone for PickerCandidate {
    fn clone(&self) -> (r: Self)
        ensures
            r == *self,
    {
        PickerCandidate {
            target: self.target.clone(),
            title: self.title.clone(),
            subtitle: match &self.subtitle {
                Some(subtitle) => Some(subtitle.clone()),
                None => None,
            },
        }
    }
}

impl PickerCandidate {
    /// The candidate for an output.
    pub fn monitor(name: String, title: String, subtitle: Option<String>) -> (r: PickerCandidate)
        ensures
            r == (PickerCandidate { target: StreamTargetId::Output { name }, title, subtitle }),
    {
        PickerCandidate { target: StreamTargetId::Output { name }, title, subtitle }
    }

    /// The candidate for a window. A window without a title gets one from `messages`.
    pub fn window(
        id: u64,
        title: Option<String>,
        app_id: Option<String>,
        messages: &Messages,
    ) -> (r: PickerCandidate)
        ensures
            r.target == (StreamTargetId::Window { id }),
            r.title@ == (match title {
                Some(title) => title@,
                None => messages.untitled_window@,
            }),
            r.subtitle == app_id,
    {
        PickerCandidate {
            target: StreamTargetId::Window { id },
            title: match title {
                Some(title) => title,
                None => messages.untitled_window.to_owned(),
            },
            subtitle: app_id,
        }
    }
}

/// The two labels of a candidate's card.
pub struct Labels {
    pub title: Seq<char>,
    pub subtitle: Seq<char>,
}

/// What stands on the card of a candidate. A blocked candidate gets the same labels as every
/// other blocked one.
pub open spec fn labels(candidate: PickerCandidate, blocked: bool, messages: Messages) -> Labels {
    if blocked {
        Labels {
            title: messages.protected_window@,
            subtitle: messages.hidden_from_screen_share@,
        }
    } else {
        Labels {
            title: candidate.title@,
            subtitle: match candidate.subtitle {
                Some(subtitle) => subtitle@,
                None => match candidate.target {
                    StreamTargetId::Output { .. } => messages.display@,
                    StreamTargetId::Window { .. } => messages.window@,
                },
            },
        }
    }
}

/// The title and the subtitle that stand on the card of a candidate.
pub fn candidate_labels<'a>(
    candidate: &'a PickerCandidate,
    blocked: bool,
    messages: &'a Messages,
) -> (r: (&'a str, &'a str))
    ensures
        r.0@ == labels(*candidate, blocked, *messages).title,
        r.1@ == labels(*candidate, blocked, *messages).subtitle,
{
    if blocked {
        return (messages.protected_window, messages.hidden_from_screen_share);
    }
    let fallback_subtitle = match &candidate.target {
        StreamTargetId::Output { .. } => messages.display,
        StreamTargetId::Window { .. } => messages.window,
    };
    let subtitle = match &candidate.subtitle {
        Some(subtitle) => subtitle.as_str(),
        None => fallback_subtitle,
    };
    (candidate.title.as_str(), subtitle)
}

/// The labels of a blocked candidate say nothing about it.
pub proof fn blocked_labels_expose_nothing(
    one: PickerCandidate,
    other: PickerCandidate,
    messages: Messages,
)
    ensures
        labels(one, true, messages) == labels(other, true, messages),
{
}

/// The list of candidates that is shown.
#[derive(Clone, Copy, Debug, PartialEq, Eq, Structural)]
pub enum PickerView {
    Window,
    Display,
}

/// A part of the picker that the pointer can be over.
#[derive(Clone, Copy, Debug, PartialEq, Eq, Structural)]
pub enum HitTarget {
    Nothing,
    Cancel,
    Share,
    Remember,
    WindowTab,
    DisplayTab,
    Candidate(usize),
}

/// Which controls a position lies in.
#[derive(Clone, Copy, Debug, PartialEq, Eq, Structural)]
pub struct ControlHits {
    pub cancel: bool,
    pub share: bool,
    /// Absent where the control is not shown.
    pub remember: Option<bool>,
    pub window_tab: bool,
    pub display_tab: bool,
}

/// The candidate of the first card that a position lies in.
pub open spec fn first_hit(cards: Seq<(usize, bool)>) -> HitTarget
    decreases cards.len(),
{
    if cards.len() == 0 {
        HitTarget::Nothing
    } else if cards.first().1 {
        HitTarget::Candidate(cards.first().0)
    } else {
        first_hit(cards.drop_first())
    }
}

/// What a position lies in. Controls come before cards.
pub open spec fn hit_at(controls: ControlHits, cards: Seq<(usize, bool)>) -> HitTarget {
    if controls.cancel {
        HitTarget::Cancel
    } else if controls.share {
        HitTarget::Share
    } else if controls.remember == Some(true) {
        HitTarget::Remember
    } else if controls.window_tab {
        HitTarget::WindowTab
    } else if controls.display_tab {
        HitTarget::DisplayTab
    } else {
        first_hit(cards)
    }
}

fn card_hit(cards: &Vec<(usize, bool)>) -> (hit: HitTarget)
    ensures
        hit == first_hit(cards@),
{
    assert(cards@.skip(0) =~= cards@);
    for i in 0..cards.len()
        invariant
            first_hit(cards@) == first_hit(cards@.skip(i as int)),
    {
        let ghost rest = cards@.skip(i as int);
        assert(rest.first() == cards@[i as int]);
        assert(rest.drop_first() =~= cards@.skip(i + 1));
        if cards[i].1 {
            return HitTarget::Candidate(cards[i].0);
        }
    }
    HitTarget::Nothing
}

/// What a position lies in, given for each visible card its candidate and whether the position
/// lies in it.
pub fn hit_test(controls: &ControlHits, cards: &Vec<(usize, bool)>) -> (hit: HitTarget)
    ensures
        hit == hit_at(*controls, cards@),
{
    if controls.cancel {
        return HitTarget::Cancel;
    }
    if controls.share {
        return HitTarget::Share;
    }
    if let Some(true) = controls.remember {
        return HitTarget::Remember;
    }
    if controls.window_tab {
        return HitTarget::WindowTab;
    }
    if controls.display_tab {
        return HitTarget::DisplayTab;
    }
    card_hit(cards)
}

/// Where a frame goes.
#[derive(Clone, Copy, Debug, PartialEq, Eq, Structural)]
pub enum RenderTarget {
    Output,
    Screencast,
    ScreenCapture,
}

/// How the picker is rendered: as the user sees it, or without what is hidden from screen casts.
#[derive(Clone, Copy, Debug, PartialEq, Eq, Hash, Structural)]
pub enum PickerRenderVariant {
    Output,
    Screencast,
}

impl PickerRenderVariant {
    /// The variant for a target: only screen casts get their own.
    pub fn from_target(target: RenderTarget) -> (r: PickerRenderVariant)
        ensures
            r == (if target == RenderTarget::Screencast {
                PickerRenderVariant::Screencast
            } else {
                PickerRenderVariant::Output
            }),
    {
        match target {
            RenderTarget::Screencast => PickerRenderVariant::Screencast,
            RenderTarget::Output => PickerRenderVariant::Output,
            RenderTarget::ScreenCapture => PickerRenderVariant::Output,
        }
    }
}

} // verus!
