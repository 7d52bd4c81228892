use niri_screencast::dbus::niri_portal_screen_cast::{
    validate_selection, OutgoingReply, PickSourcesReply, PickSourcesRequest, PickerRequestId,
};
use niri_screencast::dbus::picker_options::{
    PickerCursorMode, PickerOptions, PickerPersistMode, PickerSourceTypes,
};
use niri_screencast::dbus::target::StreamTargetId;
use niri_screencast::ui::i18n::en_us;
use niri_screencast::ui::picker::candidate::{
    candidate_labels, hit_test, ControlHits, HitTarget, PickerCandidate, PickerRenderVariant,
    PickerView, RenderTarget,
};
use niri_screencast::ui::picker::grid::PanelGrid;
use niri_screencast::ui::picker::panel::{
    blocked_window_ids, panel_model, Fill, PanelCache, PanelCaches, PanelKey,
};
use niri_screencast::ui::picker::picker_ui::{
    Layer, PickerUiState, Progress, RenderPlan, ScreenCastPickerUi,
};
use niri_screencast::ui::picker::previews::{WindowInfo, WindowPreviewCacheKey};

type Ui = ScreenCastPickerUi<u8, u8>;

const HOST: u64 = 5;

fn grid() -> PanelGrid {
    PanelGrid {
        columns_by_width: 3,
        fits_two_rows: true,
        fits_three_rows: false,
    }
}

fn request(types: PickerSourceTypes, persist_mode: PickerPersistMode) -> PickSourcesRequest {
    PickSourcesRequest {
        id: PickerRequestId {
            sender: ":1.1".to_owned(),
            handle: "/request/1".to_owned(),
        },
        options: PickerOptions {
            app_id: "org.example.App".to_owned(),
            source_types: types,
            multiple: false,
            cursor_mode: PickerCursorMode::Hidden,
            persist_mode,
        },
        reply: 9,
    }
}

fn both() -> PickerSourceTypes {
    PickerSourceTypes::monitors().union(PickerSourceTypes::windows())
}

fn displays(n: usize) -> Vec<PickerCandidate> {
    (0..n)
        .map(|i| {
            PickerCandidate::monitor(format!("DP-{i}"), format!("Display {i}"), None)
        })
        .collect()
}

fn windows(n: u64) -> Vec<PickerCandidate> {
    (0..n)
        .map(|i| {
            PickerCandidate::window(
                i,
                Some(format!("Title {i}")),
                Some(format!("app{i}")),
                &en_us::messages(),
            )
        })
        .collect()
}

fn opened(n_displays: usize, n_windows: u64) -> Ui {
    let mut ui = Ui::new();
    assert!(ui.open(
        request(both(), PickerPersistMode::Persistent),
        HOST,
        displays(n_displays),
        windows(n_windows),
        Some((1, 2)),
        en_us::messages(),
    ));
    ui
}

fn view(ui: &Ui) -> PickerView {
    ui.state.visible().unwrap().view
}

fn selected(ui: &Ui) -> Option<usize> {
    ui.state.visible().unwrap().selected()
}

#[test]
fn screencast_uses_a_separate_picker_render_variant() {
    assert_eq!(
        PickerRenderVariant::from_target(RenderTarget::Output),
        PickerRenderVariant::Output
    );
    assert_eq!(
        PickerRenderVariant::from_target(RenderTarget::ScreenCapture),
        PickerRenderVariant::Output
    );
    assert_eq!(
        PickerRenderVariant::from_target(RenderTarget::Screencast),
        PickerRenderVariant::Screencast
    );
}

#[test]
fn blocked_window_labels_do_not_expose_metadata() {
    let messages = en_us::messages();
    let candidate = PickerCandidate::window(
        1,
        Some(String::from("Secret title")),
        Some(String::from("secret.app")),
        &messages,
    );

    let (title, subtitle) = candidate_labels(&candidate, true, &messages);

    assert_eq!(title, messages.protected_window);
    assert_eq!(subtitle, messages.hidden_from_screen_share);
    assert_ne!(title, candidate.title);
    assert_ne!(subtitle, candidate.subtitle.as_deref().unwrap());
}

#[test]
fn labels_fall_back_to_the_kind_of_source() {
    let messages = en_us::messages();
    let window = PickerCandidate::window(1, None, None, &messages);
    assert_eq!(
        candidate_labels(&window, false, &messages),
        ("Untitled window", "Window")
    );
    let monitor = PickerCandidate::monitor("DP-1".to_owned(), "Dell".to_owned(), None);
    assert_eq!(
        candidate_labels(&monitor, false, &messages),
        ("Dell", "Display")
    );
    let named = PickerCandidate::monitor("DP-1".to_owned(), "a".to_owned(), Some("b".to_owned()));
    assert_eq!(candidate_labels(&named, false, &messages), ("a", "b"));
}

#[test]
fn displays_are_shown_first() {
    assert_eq!(view(&opened(1, 1)), PickerView::Display);
    assert_eq!(view(&opened(0, 1)), PickerView::Window);
}

#[test]
fn requests_that_cannot_be_shown_fail() {
    let failed = |ui: &mut Ui| {
        let replies = ui.take_replies();
        assert_eq!(replies.len(), 1);
        assert_eq!(replies[0].reply, 9);
        match &replies[0].message {
            PickSourcesReply::Failed(text) => text.clone(),
            _ => panic!("not a failure"),
        }
    };
    let mut open = opened(1, 1);
    assert!(!open.open(
        request(both(), PickerPersistMode::Never),
        HOST,
        displays(1),
        windows(1),
        None,
        en_us::messages(),
    ));
    assert_eq!(failed(&mut open), "screen cast picker is already open");

    let mut ui = Ui::new();
    let mut several = request(both(), PickerPersistMode::Never);
    several.options.multiple = true;
    assert!(!ui.open(several, HOST, displays(1), vec![], None, en_us::messages()));
    assert_eq!(
        failed(&mut ui),
        "multiple source selection is not implemented yet"
    );

    assert!(!ui.open(
        request(PickerSourceTypes::windows(), PickerPersistMode::Never),
        HOST,
        displays(1),
        vec![],
        None,
        en_us::messages(),
    ));
    assert_eq!(
        failed(&mut ui),
        "no matching screen cast sources are available"
    );
    assert!(!ui.is_open());
}

#[test]
fn only_requested_kinds_are_offered() {
    let mut ui = Ui::new();
    assert!(ui.open(
        request(PickerSourceTypes::windows(), PickerPersistMode::Never),
        HOST,
        displays(3),
        windows(2),
        None,
        en_us::messages(),
    ));
    let picker = ui.state.visible().unwrap();
    assert!(picker.displays.is_empty());
    assert_eq!(picker.windows.len(), 2);
    assert!(!picker.remember);
    assert!(!ui.toggle_remember());
    assert!(!ui.toggle_view());
}

#[test]
fn confirming_answers_with_the_selection() {
    let mut ui = opened(3, 0);
    let options = ui.state.visible().unwrap().request.options.clone();
    assert!(ui.move_selection(-1));
    assert_eq!(selected(&ui), Some(2));
    assert!(ui.confirm(false));
    assert!(matches!(ui.state, PickerUiState::Closing { .. }));
    let mut replies = ui.take_replies();
    let selection = match replies.remove(0).message {
        PickSourcesReply::Selected(selection) => selection,
        _ => panic!("not a selection"),
    };
    assert_eq!(
        selection.sources,
        vec![StreamTargetId::Output {
            name: "DP-2".to_owned()
        }]
    );
    assert_eq!(selection.persist_mode, PickerPersistMode::Persistent);
    assert!(validate_selection(&options, selection).is_ok());

    // The request was answered: nothing else is.
    assert!(!ui.confirm(false));
    assert!(!ui.cancel(false));
    assert!(!ui.move_selection(1));
    assert!(!ui.toggle_view());
    assert!(ui.take_replies().is_empty());
}

#[test]
fn an_unchecked_box_is_not_remembered() {
    let mut ui = opened(1, 0);
    assert!(ui.toggle_remember());
    assert!(ui.confirm(true));
    assert!(!ui.is_visible());
    match ui.take_replies().remove(0).message {
        PickSourcesReply::Selected(selection) => {
            assert_eq!(selection.persist_mode, PickerPersistMode::Never)
        }
        _ => panic!("not a selection"),
    }
}

#[test]
fn cancelling_answers_once() {
    let mut ui = opened(1, 1);
    let other = PickerRequestId {
        sender: ":1.2".to_owned(),
        handle: "/request/1".to_owned(),
    };
    assert!(!ui.cancel_request(&other, false));
    let id = PickerRequestId {
        sender: ":1.1".to_owned(),
        handle: "/request/1".to_owned(),
    };
    assert!(ui.cancel_request(&id, false));
    assert!(!ui.cancel_request(&id, false));
    assert_eq!(
        ui.take_replies(),
        vec![OutgoingReply {
            reply: 9,
            message: PickSourcesReply::Cancelled
        }]
    );
    assert!(ui.cancel_immediately());
    assert!(ui.take_replies().is_empty());
    assert!(!ui.cancel_immediately());

    let mut ui = opened(1, 1);
    assert!(ui.cancel_immediately());
    assert_eq!(ui.take_replies().len(), 1);
}

#[test]
fn the_selection_moves_around_the_end() {
    let mut ui = opened(3, 0);
    assert!(ui.move_selection(4));
    assert_eq!(selected(&ui), Some(1));
    assert!(ui.move_selection(-5));
    assert_eq!(selected(&ui), Some(2));
    assert!(ui.move_selection(isize::MIN));
    assert!(selected(&ui).unwrap() < 3);
    assert!(!Ui::new().move_selection(1));
}

#[test]
fn scrolling_takes_the_selection_along() {
    let mut ui = opened(0, 20);
    // Twenty windows in three columns take seven rows, two of which are visible.
    assert!(ui.scroll_window(1, 0, Some(grid())));
    let picker = ui.state.visible().unwrap();
    assert_eq!(picker.window_scroll_row, 1);
    assert_eq!(picker.selected_window, Some(3));
    let cells = picker.card_cells(&grid());
    assert_eq!(cells[0].index, 3);
    assert_eq!(cells.len(), 6);

    assert!(ui.scroll_window(100, 0, Some(grid())));
    let picker = ui.state.visible().unwrap();
    assert_eq!(picker.window_scroll_row, 5);
    assert_eq!(picker.selected_window, Some(15));
    assert!(!ui.scroll_window(1, 0, Some(grid())));

    assert!(ui.move_selection(4));
    assert_eq!(selected(&ui), Some(19));
    assert!(ui.scroll_window(-2, 0, Some(grid())));
    let picker = ui.state.visible().unwrap();
    assert_eq!(picker.window_scroll_row, 3);
    // The selection stays in its column, in the last visible row.
    assert_eq!(picker.selected_window, Some(13));
    assert!(ui.scroll_window(isize::MIN, 0, Some(grid())));
    assert_eq!(ui.state.visible().unwrap().window_scroll_row, 0);
}

#[test]
fn scrolling_less_than_a_row_is_kept() {
    let mut ui = opened(0, 20);
    let half = 0.5f64.to_bits();
    assert!(!ui.scroll_window(0, half, Some(grid())));
    assert_eq!(ui.scroll_remainder(), half);
    assert!(!ui.scroll_window(3, 0, None));
    assert_eq!(ui.scroll_remainder(), half);

    let mut ui = opened(1, 20);
    assert!(!ui.scroll_window(3, half, Some(grid())));
    assert_eq!(ui.scroll_remainder(), 0);
}

#[test]
fn tabs_switch_the_list() {
    let mut ui = opened(1, 2);
    ui.mark_display_previews_refreshed(7);
    ui.window_previews.last_refresh = Some(7);
    assert!(ui.toggle_view());
    assert_eq!(view(&ui), PickerView::Window);
    assert_eq!(ui.display_preview_last_refresh, None);
    assert_eq!(ui.window_previews.last_refresh, None);
    assert!(ui.pointer_activate(HOST, HitTarget::DisplayTab, false));
    assert_eq!(view(&ui), PickerView::Display);
    assert!(ui.pointer_activate(HOST, HitTarget::WindowTab, false));
    assert_eq!(view(&ui), PickerView::Window);
    assert!(!opened(1, 0).pointer_activate(HOST, HitTarget::WindowTab, false));
}

#[test]
fn the_pointer_hovers_and_activates() {
    let mut ui = opened(3, 0);
    assert!(ui.pointer_motion(HOST, HitTarget::Share));
    assert!(!ui.pointer_motion(HOST, HitTarget::Share));
    assert!(ui.pointer_motion(HOST + 1, HitTarget::Share));
    assert_eq!(
        ui.state.visible().unwrap().hovered,
        HitTarget::Nothing
    );
    assert!(ui.pointer_activate(HOST, HitTarget::Candidate(2), false));
    assert_eq!(selected(&ui), Some(2));
    assert!(!ui.pointer_activate(HOST, HitTarget::Candidate(3), false));
    assert!(!ui.pointer_activate(HOST, HitTarget::Nothing, false));
    assert!(ui.pointer_activate(HOST, HitTarget::Remember, false));
    assert!(!ui.state.visible().unwrap().remember);
    assert!(ui.pointer_activate(HOST, HitTarget::Share, false));
    assert!(matches!(
        ui.take_replies()[0].message,
        PickSourcesReply::Selected(_)
    ));

    let mut ui = opened(1, 0);
    assert!(ui.pointer_activate(HOST + 1, HitTarget::Share, false));
    assert!(matches!(
        ui.take_replies()[0].message,
        PickSourcesReply::Cancelled
    ));
}

#[test]
fn controls_are_hit_before_cards() {
    let nothing = ControlHits {
        cancel: false,
        share: false,
        remember: None,
        window_tab: false,
        display_tab: false,
    };
    let cards = vec![(4, false), (5, true), (6, true)];
    assert_eq!(hit_test(&nothing, &cards), HitTarget::Candidate(5));
    assert_eq!(hit_test(&nothing, &vec![(4, false)]), HitTarget::Nothing);
    let tab = ControlHits {
        display_tab: true,
        ..nothing
    };
    assert_eq!(hit_test(&tab, &cards), HitTarget::DisplayTab);
    let tab = ControlHits {
        window_tab: true,
        ..tab
    };
    assert_eq!(hit_test(&tab, &cards), HitTarget::WindowTab);
    let remember = ControlHits {
        remember: Some(true),
        ..tab
    };
    assert_eq!(hit_test(&remember, &cards), HitTarget::Remember);
    let share = ControlHits {
        share: true,
        ..remember
    };
    assert_eq!(hit_test(&share, &cards), HitTarget::Share);
    let cancel = ControlHits {
        cancel: true,
        ..share
    };
    assert_eq!(hit_test(&cancel, &cards), HitTarget::Cancel);
}

#[test]
fn windows_that_disappear_are_removed() {
    let mut ui = opened(1, 2);
    assert!(ui.toggle_view());
    assert!(ui.move_selection(1));
    assert!(!ui.remove_window(7, false));
    assert!(ui.remove_window(1, false));
    assert_eq!(selected(&ui), Some(0));
    assert!(ui.remove_window(0, false));
    assert_eq!(view(&ui), PickerView::Display);
    assert!(ui.take_replies().is_empty());

    let mut ui = opened(0, 1);
    assert!(ui.remove_window(0, false));
    assert_eq!(
        ui.take_replies(),
        vec![OutgoingReply {
            reply: 9,
            message: PickSourcesReply::Failed(
                "all matching screen cast sources disappeared".to_owned()
            )
        }]
    );
    assert!(matches!(ui.state, PickerUiState::Closing { .. }));
}

#[test]
fn animations_end() {
    let mut ui = opened(1, 0);
    assert!(ui.are_animations_ongoing(HOST + 1, false));
    assert!(!ui.advance_animations(false));
    assert!(!ui.advance_animations(true));
    assert!(ui.are_animations_ongoing(HOST, true));
    assert!(!ui.are_animations_ongoing(HOST + 1, true));
    assert!(ui.cancel(false));
    assert!(ui.are_animations_ongoing(HOST + 1, false));
    assert!(!ui.advance_animations(false));
    assert!(ui.advance_animations(true));
    assert!(!ui.is_visible());
    assert!(!ui.are_animations_ongoing(HOST, false));
}

#[test]
fn frames_are_planned() {
    let mut ui = opened(1, 0);
    assert_eq!(
        ui.render(HOST, true, Progress::Hidden),
        RenderPlan::FrozenBackdrop
    );
    assert_eq!(
        ui.render(HOST, true, Progress::Partial),
        RenderPlan::Transition
    );
    assert_eq!(
        ui.render(HOST + 1, true, Progress::Partial),
        RenderPlan::Contents
    );
    assert_eq!(ui.render(HOST, true, Progress::Shown), RenderPlan::Contents);
    assert_eq!(ui.render(HOST, false, Progress::Shown), RenderPlan::Skip);
    ui.advance_animations(true);
    assert_eq!(
        ui.render(HOST, true, Progress::Hidden),
        RenderPlan::Contents
    );
    assert_eq!(Ui::new().render(HOST, true, Progress::Shown), RenderPlan::Skip);

    assert_eq!(Ui::transition_fallback(true), None);
    assert_eq!(Ui::transition_fallback(false), Some(Layer::Backdrop));
    assert_eq!(
        ui.render_frozen_backdrop(HOST, RenderTarget::Output),
        Some(&1)
    );
    assert_eq!(
        ui.render_frozen_backdrop(HOST, RenderTarget::Screencast),
        Some(&2)
    );
    assert_eq!(
        ui.render_frozen_backdrop(HOST + 1, RenderTarget::Output),
        None
    );
}

fn panel_key(scale: f64) -> PanelKey {
    PanelKey {
        scale: scale.to_bits(),
        width: 1600f64.to_bits(),
        height: 900f64.to_bits(),
        palette: vec![],
        blocked_window_ids: vec![],
    }
}

#[test]
fn layers_are_stacked() {
    let output = PickerRenderVariant::Output;
    let draw = |ui: &mut Ui| {
        assert!(ui.prepare_panel(HOST, output, &panel_key(1.), &vec![HOST]));
        ui.panel_drawn(HOST, output, panel_key(1.), Some(7));
    };
    let layers = |ui: &Ui, on: u64| ui.render_contents(on, true, output, &grid());
    let mut ui = opened(2, 1);
    draw(&mut ui);
    assert_eq!(layers(&ui, HOST + 1), vec![Layer::Backdrop]);
    ui.update_display_preview("DP-1", Some(3));
    assert_eq!(
        layers(&ui, HOST),
        vec![
            Layer::Panel,
            Layer::DisplayPreview {
                card: 1,
                name: "DP-1".to_owned()
            },
            Layer::PreviewBackground { card: 0 },
            Layer::PreviewBackground { card: 1 },
            Layer::Backdrop,
        ]
    );
    assert!(ui.toggle_view());
    draw(&mut ui);
    assert_eq!(
        layers(&ui, HOST),
        vec![
            Layer::Panel,
            Layer::PreviewBackground { card: 0 },
            Layer::Backdrop,
        ]
    );
    ui.window_previews_rendered(Some(4));
    assert_eq!(
        layers(&ui, HOST)[1],
        Layer::WindowPreviews
    );
    assert!(layers(&Ui::new(), HOST).is_empty());
}

#[test]
fn nothing_is_shown_without_a_panel_or_its_output() {
    let output = PickerRenderVariant::Output;
    let cast = PickerRenderVariant::Screencast;
    let mut ui = opened(2, 1);
    let layers = |ui: &Ui, variant| ui.render_contents(HOST, true, variant, &grid());
    assert!(layers(&ui, output).is_empty());

    // The panel could not be drawn.
    assert!(ui.prepare_panel(HOST, output, &panel_key(1.), &vec![HOST]));
    ui.panel_drawn(HOST, output, panel_key(1.), None);
    assert!(layers(&ui, output).is_empty());
    assert_eq!(
        ui.render_contents(HOST + 1, true, output, &grid()),
        vec![Layer::Backdrop]
    );

    assert!(ui.prepare_panel(HOST, output, &panel_key(1.), &vec![HOST]));
    ui.panel_drawn(HOST, output, panel_key(1.), Some(7));
    assert_eq!(layers(&ui, output)[0], Layer::Panel);
    assert!(layers(&ui, cast).is_empty());
    assert!(!ui.prepare_panel(HOST, output, &panel_key(1.), &vec![HOST]));

    // The output of the picker is gone.
    assert!(ui.render_contents(HOST, false, output, &grid()).is_empty());
    assert!(ui.render_contents(HOST + 1, false, output, &grid()).is_empty());

    // What was drawn cannot be used any more, and drawing it anew fails.
    assert!(ui.prepare_panel(HOST, output, &panel_key(2.), &vec![HOST]));
    ui.panel_drawn(HOST, output, panel_key(2.), None);
    assert!(layers(&ui, output).is_empty());

    ui.panel_drawn(HOST, output, panel_key(2.), Some(8));
    assert!(ui.prepare_panel(HOST, output, &panel_key(2.), &vec![HOST + 1]));
}

#[test]
fn window_previews_wait_for_the_panel() {
    let output = PickerRenderVariant::Output;
    let key = |scale: f64| WindowPreviewCacheKey {
        scale: scale.to_bits(),
        items: vec![],
    };
    let mut ui = opened(0, 1);
    assert!(!ui.window_previews_due(HOST, output, key(1.), 5));
    assert!(ui.window_previews.key.is_none());
    ui.panel_drawn(HOST, output, panel_key(1.), Some(7));
    assert!(!ui.window_previews_due(HOST + 1, output, key(1.), 5));
    assert!(ui.window_previews_due(HOST, output, key(1.), 5));
    ui.window_previews_rendered(Some(4));
    assert!(!ui.window_previews_due(HOST, output, key(1.), 6));
    ui.window_previews_rendered(None);
    assert_eq!(ui.window_previews.element, Some(4));
    assert!(ui.window_previews_due(HOST, output, key(2.), 7));
    assert_eq!(ui.window_previews.element, None);

    let mut displays = opened(1, 0);
    displays.panel_drawn(HOST, output, panel_key(1.), Some(7));
    assert!(!displays.window_previews_due(HOST, output, key(1.), 5));
}

#[test]
fn previews_are_asked_for() {
    let mut ui = opened(2, 3);
    let requests = ui.display_preview_requests(HOST, &grid());
    assert_eq!(requests.len(), 2);
    assert_eq!(requests[1].name, "DP-1");
    assert_eq!(requests[1].cell.column, 1);
    assert!(ui.display_preview_requests(HOST + 1, &grid()).is_empty());
    assert!(ui.host_window_preview_ids(HOST, &grid()).is_empty());
    assert!(ui.display_previews_due(HOST, 5));
    ui.mark_display_previews_refreshed(5);
    assert!(!ui.display_previews_due(HOST, 6));
    assert!(!ui.display_previews_due(HOST + 1, u128::MAX));

    assert!(ui.is_display_previewing_host(HOST, "DP-0", &grid()));
    assert!(!ui.is_display_previewing_host(HOST, "DP-7", &grid()));
    assert_eq!(
        ui.preview_host_for_source(6, "DP-1", Some(grid())),
        Some(HOST)
    );
    assert_eq!(ui.preview_host_for_source(HOST, "DP-1", Some(grid())), None);
    assert_eq!(ui.preview_host_for_source(6, "DP-7", Some(grid())), None);
    assert_eq!(ui.preview_host_for_source(6, "DP-1", None), None);

    ui.begin_display_preview_frame(&requests);
    assert_eq!(ui.display_previews.get(&"DP-0".to_owned()), None);

    assert!(ui.toggle_view());
    assert_eq!(ui.host_window_preview_ids(HOST, &grid()), vec![0, 1, 2]);
    assert!(ui.display_preview_requests(HOST, &grid()).is_empty());
    assert!(!ui.display_previews_due(HOST, 5));
    assert!(!ui.is_display_previewing_host(HOST, "DP-0", &grid()));
    assert_eq!(ui.output(), Some(HOST));
    assert!(ui.is_host_output(HOST));
    assert!(!ui.is_host_output(HOST + 1));
}

#[test]
fn panels_hide_blocked_windows_from_screen_casts() {
    let mut ui = opened(0, 2);
    ui.pointer_motion(HOST, HitTarget::Candidate(1));
    let picker = ui.state.visible().unwrap();
    let window = |id, blocked| WindowInfo {
        id,
        width: 1,
        height: 1,
        blocked,
    };
    let infos = vec![window(0, false), window(1, true)];
    let seen = blocked_window_ids(picker, &grid(), PickerRenderVariant::Output, &infos);
    assert!(seen.is_empty());
    let blocked = blocked_window_ids(picker, &grid(), PickerRenderVariant::Screencast, &infos);
    assert_eq!(blocked, vec![1]);

    let model = panel_model(picker, &grid(), &blocked);
    assert_eq!(model.cards[0].title, "Title 0");
    assert_eq!(model.cards[0].subtitle, "app0");
    assert!(model.cards[0].selected);
    assert_eq!(model.cards[0].fill, Fill::SurfaceActive);
    assert_eq!(model.cards[1].title, "Protected window");
    assert_eq!(model.cards[1].subtitle, "Hidden from screen sharing");
    assert_eq!(model.cards[1].fill, Fill::SurfaceHover);
    assert_eq!(model.title, "Share Screen");
    assert_eq!(
        model.description,
        "org.example.App wants to share your screen. Choose what you would like to share."
    );
    assert_eq!(model.cancel.fill, Fill::Surface);
    assert_eq!(model.share.fill, Fill::Accent);
    assert!(model.share.primary);
    assert!(model.remember.unwrap().checked);
    assert_eq!(model.window_tab.fill, Fill::SurfaceActive);
    assert!(!model.display_tab.enabled);

    let model = panel_model(picker, &grid(), &seen);
    assert_eq!(model.cards[1].title, "Title 1");
}

#[test]
fn controls_light_up_under_the_pointer() {
    let mut ui = opened(1, 1);
    let model = |ui: &Ui| panel_model(ui.state.visible().unwrap(), &grid(), &vec![]);
    ui.pointer_motion(HOST, HitTarget::Share);
    assert_eq!(model(&ui).share.fill, Fill::AccentHover);
    ui.pointer_motion(HOST, HitTarget::Cancel);
    assert_eq!(model(&ui).cancel.fill, Fill::SurfaceHover);
    ui.pointer_motion(HOST, HitTarget::WindowTab);
    assert_eq!(model(&ui).window_tab.fill, Fill::SurfaceHover);
    ui.pointer_motion(HOST, HitTarget::DisplayTab);
    assert_eq!(model(&ui).display_tab.fill, Fill::SurfaceActive);

    let mut ui = Ui::new();
    let mut plain = request(both(), PickerPersistMode::Never);
    plain.options.app_id = String::new();
    ui.open(plain, HOST, displays(1), vec![], None, en_us::messages());
    assert!(model(&ui).remember.is_none());
    assert_eq!(
        model(&ui).description,
        "An app wants to share your screen. Choose what you would like to share."
    );
}

#[test]
fn panels_are_rendered_anew_when_they_are_stale() {
    let key = |scale, blocked: Vec<u64>| PanelKey {
        scale,
        width: 1,
        height: 2,
        palette: vec![3],
        blocked_window_ids: blocked,
    };
    let mut panels: PanelCaches<u8> = PanelCaches::new();
    let output = PickerRenderVariant::Output;
    let cast = PickerRenderVariant::Screencast;
    assert!(panels.take_stale(HOST, output, &key(1, vec![])));
    panels.insert(
        HOST,
        output,
        PanelCache {
            key: key(1, vec![]),
            buffer: 7,
        },
    );
    assert!(!panels.take_stale(HOST, output, &key(1, vec![])));
    assert!(panels.take_stale(HOST, cast, &key(1, vec![])));
    assert!(panels.take_stale(HOST + 1, output, &key(1, vec![])));
    assert_eq!(panels.get(HOST, output).unwrap().buffer, 7);
    panels.retain_outputs(&vec![HOST]);
    assert!(panels.get(HOST, output).is_some());
    assert!(panels.take_stale(HOST, output, &key(1, vec![5])));
    assert!(panels.get(HOST, output).is_none());
    panels.insert(
        HOST,
        cast,
        PanelCache {
            key: key(2, vec![]),
            buffer: 8,
        },
    );
    assert!(panels.take_stale(HOST, cast, &key(1, vec![])));
    panels.insert(
        HOST,
        cast,
        PanelCache {
            key: key(2, vec![]),
            buffer: 8,
        },
    );
    panels.retain_outputs(&vec![]);
    assert!(panels.get(HOST, cast).is_none());
}

#[test]
fn panel_keys_compare_their_measures_as_numbers() {
    let key = |scale: f64, width: f64, color: f64| PanelKey {
        scale: scale.to_bits(),
        width: width.to_bits(),
        height: 900f64.to_bits(),
        palette: vec![color.to_bits()],
        blocked_window_ids: vec![4],
    };
    assert_eq!(key(1., 2., 0.), key(1., 2., -0.));
    assert_eq!(key(1., 0., 3.), key(1., -0., 3.));
    assert_ne!(key(1., 2., 3.), key(1., 2., -3.));
    assert_ne!(key(f64::NAN, 2., 3.), key(f64::NAN, 2., 3.));
    assert_ne!(key(1., 2., f64::NAN), key(1., 2., f64::NAN));

    let mut panels: PanelCaches<u8> = PanelCaches::new();
    let output = PickerRenderVariant::Output;
    panels.insert(
        HOST,
        output,
        PanelCache {
            key: key(1., 2., 0.),
            buffer: 7,
        },
    );
    assert!(!panels.take_stale(HOST, output, &key(1., 2., -0.)));
    assert!(panels.take_stale(HOST, output, &key(1., 2., f64::NAN)));
}

#[test]
fn input_drops_the_rendered_panel() {
    let mut ui = opened(2, 0);
    ui.panels.insert(
        HOST,
        PickerRenderVariant::Output,
        PanelCache {
            key: PanelKey {
                scale: 1,
                width: 1,
                height: 1,
                palette: vec![],
                blocked_window_ids: vec![],
            },
            buffer: 7,
        },
    );
    assert!(ui.move_selection(1));
    assert!(ui.panels.get(HOST, PickerRenderVariant::Output).is_none());
}
