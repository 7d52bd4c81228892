use niri_screencast::dbus::bus::{
    disappeared_client, sender_from_header, BusError, RESPONSE_CANCELLED, RESPONSE_ERROR,
    RESPONSE_SUCCESS,
};
use niri_screencast::dbus::niri_portal_screen_cast::{
    source_result, validate_selection, BegunPick, PickSettled, PickSourcesReply, PickerRequestId,
    PickerRequestState, PickerSelection, PortalScreenCast, StartedPick,
};
use niri_screencast::dbus::picker_options::{
    PickSourcesOptionsDict, PickerCursorMode, PickerOptions, PickerPersistMode, PickerSourceTypes,
};
use niri_screencast::dbus::selection_tokens::{
    ConsumeTokenError, DrawnToken, SelectionTokens, SELECTION_TOKEN_LEN,
};
use niri_screencast::dbus::target::{StreamTargetId, TargetSet};

fn id(sender: &str, handle: &str) -> PickerRequestId {
    PickerRequestId {
        sender: sender.to_owned(),
        handle: handle.to_owned(),
    }
}

fn valid_options() -> PickSourcesOptionsDict {
    PickSourcesOptionsDict {
        types: Some(PickerSourceTypes::monitors().bits()),
        ..Default::default()
    }
}

fn shown(begun: BegunPick) -> StartedPick {
    match begun {
        BegunPick::Show(started) => started,
        BegunPick::Answer(response, _) => panic!("answered with {response}"),
    }
}

fn output(name: &str) -> StreamTargetId {
    StreamTargetId::Output {
        name: name.to_owned(),
    }
}

fn options(types: u32, multiple: bool, persist_mode: u32) -> PickerOptions {
    PickerOptions::try_from(PickSourcesOptionsDict {
        app_id: None,
        types: Some(types),
        multiple: Some(multiple),
        cursor_mode: None,
        persist_mode: Some(persist_mode),
    })
    .unwrap()
}

#[test]
fn validates_picker_options() {
    let defaults = PickerOptions::try_from(PickSourcesOptionsDict::default()).unwrap();
    assert_eq!(defaults.source_types, PickerSourceTypes::monitors());
    assert!(!defaults.multiple);
    assert!(defaults.app_id.is_empty());
    assert_eq!(defaults.cursor_mode, PickerCursorMode::Hidden);
    assert_eq!(defaults.persist_mode, PickerPersistMode::Never);

    let mut options = valid_options();
    options.types = Some(0);
    assert_eq!(
        PickerOptions::try_from(options).unwrap_err(),
        "types must include at least one source type"
    );

    let mut options = valid_options();
    options.types = Some(4);
    assert_eq!(
        PickerOptions::try_from(options).unwrap_err(),
        "types contains unsupported source type bits"
    );

    let mut options = valid_options();
    options.cursor_mode = Some(3);
    assert!(PickerOptions::try_from(options).is_err());

    let mut options = valid_options();
    options.persist_mode = Some(3);
    assert!(PickerOptions::try_from(options).is_err());

    let options = PickerOptions::try_from(valid_options()).unwrap();
    assert_eq!(options.source_types, PickerSourceTypes::monitors());
    assert!(!options.multiple);
    assert!(options.app_id.is_empty());
    assert_eq!(options.cursor_mode, PickerCursorMode::Hidden);
    assert_eq!(options.persist_mode, PickerPersistMode::Never);
}

#[test]
fn option_errors_name_the_option() {
    let mut options = valid_options();
    options.cursor_mode = Some(3);
    assert_eq!(
        PickerOptions::try_from(options).unwrap_err(),
        "cursor-mode must be hidden (1), embedded (2), or metadata (4)"
    );
    let mut options = valid_options();
    options.persist_mode = Some(3);
    assert_eq!(
        PickerOptions::try_from(options).unwrap_err(),
        "persist-mode must be none (0), transient (1), or persistent (2)"
    );
    assert_eq!(PickerCursorMode::try_from(4).unwrap().value(), 4);
    assert_eq!(PickerPersistMode::try_from(2).unwrap().value(), 2);
}

#[test]
fn only_one_picker_request_can_be_pending() {
    let mut state = PickerRequestState::new();
    let first = id(":1.1", "/request/1");
    let second = id(":1.2", "/request/2");

    assert!(state.begin(first.clone(), 1));
    assert!(!state.begin(second.clone(), 2));
    assert!(state.complete(&first));
    assert!(state.begin(second, 2));
}

#[test]
fn cancellation_matches_sender_and_handle_exactly_once() {
    let mut state = PickerRequestState::new();
    let request = id(":1.1", "/request/1");
    let wrong_sender = id(":1.2", "/request/1");
    let wrong_handle = id(":1.1", "/request/2");

    assert!(state.begin(request.clone(), 7));
    assert!(state.cancel(&wrong_sender).is_none());
    assert!(state.cancel(&wrong_handle).is_none());

    let sent = state.cancel(&request).unwrap();
    assert_eq!(sent.reply, 7);
    assert!(matches!(sent.message, PickSourcesReply::Cancelled));
    assert!(state.cancel(&request).is_none());
    assert!(!state.complete(&request));
}

#[test]
fn cancellation_wins_over_an_uncommitted_picker_reply() {
    let mut portal = PortalScreenCast::new();
    let started = portal
        .pick_sources(
            Some(":1.1".to_owned()),
            "/request/1".to_owned(),
            valid_options(),
            7,
        )
        .map(shown)
        .unwrap();
    let mut active = started.active;
    let reply = PickSourcesReply::Selected(PickerSelection {
        sources: vec![output("DP-1")],
        persist_mode: PickerPersistMode::Never,
    });
    let cancelled = portal.cancel_request(&id(":1.1", "/request/1")).unwrap();
    assert_eq!(cancelled.reply.reply, 7);
    assert!(matches!(
        cancelled.reply.message,
        PickSourcesReply::Cancelled
    ));

    let (response, results) = portal
        .finish_pick(&mut active, &started.options, reply)
        .unwrap();
    assert_eq!(response, RESPONSE_CANCELLED);
    assert!(results.selection_token.is_none());
    assert!(portal.cancel_request(&id(":1.1", "/request/1")).is_none());
}

#[test]
fn selection_tokens_are_sender_bound_and_one_use() {
    let mut tokens = SelectionTokens::new();
    let owner = id(":1.1", "/request/1").sender;
    let other = id(":1.2", "/request/2").sender;
    let targets = vec![output("DP-1")];
    let token = tokens.issue(&owner, &targets).unwrap();

    assert_eq!(
        tokens.consume(&other, &token).unwrap_err(),
        ConsumeTokenError::Invalid
    );
    assert_eq!(
        tokens
            .consume(&owner, &[0; SELECTION_TOKEN_LEN - 1])
            .unwrap_err(),
        ConsumeTokenError::InvalidLength
    );

    let grant = tokens.consume(&owner, &token).unwrap();
    assert_eq!(grant, TargetSet::collect(&targets));
    assert_eq!(
        tokens.consume(&owner, &token).unwrap_err(),
        ConsumeTokenError::Invalid
    );
}

#[test]
fn tokens_are_random() {
    let mut tokens = SelectionTokens::new();
    let targets = vec![output("DP-1")];
    let one = tokens.issue(":1.1", &targets).unwrap();
    let other = tokens.issue(":1.1", &targets).unwrap();
    assert_eq!(one.len(), SELECTION_TOKEN_LEN);
    assert_ne!(one, vec![0; SELECTION_TOKEN_LEN]);
    assert_ne!(one, other);
}

#[test]
fn tokens_in_use_are_not_granted_again() {
    let mut tokens = SelectionTokens::new();
    let targets = vec![output("DP-1")];
    assert!(tokens.grant(vec![5; SELECTION_TOKEN_LEN], ":1.1", &targets));
    assert!(!tokens.grant(vec![5; SELECTION_TOKEN_LEN], ":1.2", &targets));
    assert!(tokens
        .consume(":1.1", &[5; SELECTION_TOKEN_LEN])
        .is_ok());
}

#[test]
fn draws_go_on_while_the_token_is_in_use() {
    let mut tokens = SelectionTokens::new();
    let targets = vec![output("DP-1")];
    let used = vec![5; SELECTION_TOKEN_LEN];
    let fresh = vec![6; SELECTION_TOKEN_LEN];

    let drawn = tokens.settle_draw(used.clone(), 0, ":1.1", &targets);
    assert!(matches!(drawn, DrawnToken::Issued(token) if token == used));
    let other = vec![output("DP-2")];
    let drawn = tokens.settle_draw(used.clone(), 1, ":1.2", &other);
    assert!(matches!(drawn, DrawnToken::DrawAgain));
    let drawn = tokens.settle_draw(used.clone(), 0, ":1.2", &other);
    assert!(matches!(drawn, DrawnToken::Exhausted));
    let drawn = tokens.settle_draw(fresh.clone(), 0, ":1.2", &other);
    assert!(matches!(drawn, DrawnToken::Issued(token) if token == fresh));

    assert_eq!(
        tokens.consume(":1.1", &used).unwrap(),
        TargetSet::collect(&targets)
    );
    assert_eq!(
        tokens.consume(":1.2", &fresh).unwrap(),
        TargetSet::collect(&other)
    );
}

#[test]
fn tokens_die_with_their_client() {
    let mut tokens = SelectionTokens::new();
    let targets = vec![output("DP-1")];
    let gone = tokens.issue(":1.1", &targets).unwrap();
    let kept = tokens.issue(":1.2", &targets).unwrap();
    tokens.remove_sender(":1.1");
    assert!(tokens.consume(":1.1", &gone).is_err());
    assert!(tokens.consume(":1.2", &kept).is_ok());
}

#[test]
fn picked_sources_are_described_and_granted() {
    let mut portal = PortalScreenCast::new();
    let started = portal
        .pick_sources(
            Some(":1.1".to_owned()),
            "/request/1".to_owned(),
            PickSourcesOptionsDict {
                app_id: Some("org.example.App".to_owned()),
                types: Some(3),
                multiple: Some(true),
                cursor_mode: Some(4),
                persist_mode: Some(2),
            },
            7,
        )
        .map(shown)
        .unwrap();
    assert_eq!(started.request.reply, 7);
    assert_eq!(started.request.options, started.options);
    assert_eq!(started.options.app_id, "org.example.App");
    assert_eq!(started.options.cursor_mode, PickerCursorMode::Metadata);

    let busy = portal
        .pick_sources(
            Some(":1.2".to_owned()),
            "/request/2".to_owned(),
            valid_options(),
            8,
        )
        .unwrap();
    match busy {
        BegunPick::Answer(response, results) => {
            assert_eq!(response, RESPONSE_ERROR);
            assert!(results.sources.is_none() && results.persist_mode.is_none());
            assert!(results.selection_token.is_none());
        }
        BegunPick::Show(_) => panic!("another request is pending"),
    }
    let pending = portal.requests.pending.as_ref().unwrap();
    assert_eq!((&pending.id, pending.reply), (&id(":1.1", "/request/1"), 7));

    let mut active = started.active;
    let (response, results) = portal
        .finish_pick(
            &mut active,
            &started.options,
            PickSourcesReply::Selected(PickerSelection {
                sources: vec![output("DP-1"), StreamTargetId::Window { id: 5 }],
                persist_mode: PickerPersistMode::Transient,
            }),
        )
        .unwrap();
    assert_eq!(response, RESPONSE_SUCCESS);
    assert!(!active.active);
    assert_eq!(results.persist_mode, Some(1));
    let sources = results.sources.unwrap();
    assert_eq!(sources[0], source_result(output("DP-1")));
    assert_eq!(sources[0].0, 1);
    assert_eq!(sources[0].1.connector.as_deref(), Some("DP-1"));
    assert_eq!(sources[1].0, 2);
    assert_eq!(sources[1].1.window_id, Some(5));
    let token = results.selection_token.unwrap();
    let granted = portal.tokens.consume(":1.1", &token).unwrap();
    assert_eq!(granted.len(), 2);
    assert!(granted.contains(&StreamTargetId::Window { id: 5 }));
    assert!(!granted.contains(&StreamTargetId::Window { id: 6 }));
}

#[test]
fn invalid_selections_are_refused() {
    let select = |sources: Vec<StreamTargetId>, persist_mode| PickerSelection {
        sources,
        persist_mode,
    };
    let never = PickerPersistMode::Never;
    assert_eq!(
        validate_selection(&options(1, false, 0), select(vec![], never)).unwrap_err(),
        "selection is empty"
    );
    assert_eq!(
        validate_selection(
            &options(1, false, 0),
            select(vec![output("A"), output("B")], never)
        )
        .unwrap_err(),
        "multiple sources were selected when multiple is false"
    );
    assert_eq!(
        validate_selection(
            &options(1, false, 1),
            select(vec![output("A")], PickerPersistMode::Persistent)
        )
        .unwrap_err(),
        "selection persist mode exceeds the requested mode"
    );
    assert_eq!(
        validate_selection(
            &options(1, false, 0),
            select(vec![StreamTargetId::Window { id: 1 }], never)
        )
        .unwrap_err(),
        "selection contains a source type that was not requested"
    );
    assert_eq!(
        validate_selection(
            &options(2, false, 0),
            select(vec![output("A")], never)
        )
        .unwrap_err(),
        "selection contains a source type that was not requested"
    );
    assert_eq!(
        validate_selection(
            &options(1, true, 0),
            select(vec![output("A"), output("B"), output("A")], never)
        )
        .unwrap_err(),
        "selection contains duplicate sources"
    );
    let (sources, mode) = validate_selection(
        &options(3, true, 2),
        select(vec![output("A"), output("B")], PickerPersistMode::Transient),
    )
    .unwrap();
    assert_eq!(sources, vec![output("A"), output("B")]);
    assert_eq!(mode, PickerPersistMode::Transient);
}

#[test]
fn replies_settle_the_request() {
    let pick = |reply: PickSourcesReply| {
        let mut portal = PortalScreenCast::new();
        let started = portal
            .pick_sources(
                Some(":1.1".to_owned()),
                "/request/1".to_owned(),
                valid_options(),
                7,
            )
            .map(shown)
            .unwrap();
        let mut active = started.active;
        let settled = portal.settle(&mut active, &started.options, reply);
        assert!(portal.requests.pending.is_none());
        settled
    };
    assert_eq!(
        pick(PickSourcesReply::Cancelled),
        PickSettled::Respond(RESPONSE_CANCELLED)
    );
    assert_eq!(
        pick(PickSourcesReply::Failed("no".to_owned())),
        PickSettled::Respond(RESPONSE_ERROR)
    );
    assert_eq!(
        pick(PickSourcesReply::Selected(PickerSelection {
            sources: vec![],
            persist_mode: PickerPersistMode::Never,
        })),
        PickSettled::Respond(RESPONSE_ERROR)
    );
    assert_eq!(
        pick(PickSourcesReply::Selected(PickerSelection {
            sources: vec![output("DP-1")],
            persist_mode: PickerPersistMode::Never,
        })),
        PickSettled::Accept(vec![output("DP-1")], PickerPersistMode::Never)
    );
}

#[test]
fn picker_failures_are_reported() {
    let mut portal = PortalScreenCast::new();
    assert_eq!(
        portal
            .pick_sources(None, "/request/1".to_owned(), valid_options(), 1)
            .unwrap_err(),
        BusError::Failed("D-Bus call has no sender".to_owned())
    );
    let mut bad = valid_options();
    bad.types = Some(0);
    assert_eq!(
        portal
            .pick_sources(None, "/request/1".to_owned(), bad, 1)
            .unwrap_err(),
        BusError::InvalidArgs("types must include at least one source type".to_owned())
    );
    let mut active = portal
        .pick_sources(
            Some(":1.1".to_owned()),
            "/request/1".to_owned(),
            valid_options(),
            1,
        )
        .map(shown)
        .unwrap()
        .active;
    assert_eq!(
        portal.picker_unreachable(&mut active, "gone"),
        BusError::Failed("error sending picker request to niri: gone".to_owned())
    );
    assert!(portal.requests.pending.is_none());
    let mut active = portal
        .pick_sources(
            Some(":1.1".to_owned()),
            "/request/1".to_owned(),
            valid_options(),
            1,
        )
        .map(shown)
        .unwrap()
        .active;
    assert_eq!(
        portal.reply_lost(&mut active, "gone"),
        BusError::Failed("picker reply channel closed: gone".to_owned())
    );
    assert!(portal.requests.pending.is_none());
}

#[test]
fn abandoned_calls_cancel_their_request() {
    let mut portal = PortalScreenCast::new();
    let mut active = portal
        .pick_sources(
            Some(":1.1".to_owned()),
            "/request/1".to_owned(),
            valid_options(),
            3,
        )
        .map(shown)
        .unwrap()
        .active;
    let cancelled = active.abandon(&mut portal.requests).unwrap();
    assert_eq!(cancelled.reply.reply, 3);
    assert_eq!(cancelled.id, id(":1.1", "/request/1"));
    assert!(active.abandon(&mut portal.requests).is_none());
}

#[test]
fn cancelling_needs_a_sender() {
    let mut portal = PortalScreenCast::new();
    let _ = portal.pick_sources(
        Some(":1.1".to_owned()),
        "/request/1".to_owned(),
        valid_options(),
        3,
    );
    assert!(portal.cancel(None, "/request/1".to_owned()).is_err());
    assert!(portal
        .cancel(Some(":1.2".to_owned()), "/request/1".to_owned())
        .unwrap()
        .is_none());
    assert!(portal
        .cancel(Some(":1.1".to_owned()), "/request/1".to_owned())
        .unwrap()
        .is_some());
    assert_eq!(PortalScreenCast::version(), 1);
}

#[test]
fn clients_that_leave_are_forgotten() {
    let mut portal = PortalScreenCast::new();
    let token = portal.tokens.issue(":1.1", &vec![output("DP-1")]).unwrap();
    let _ = portal.pick_sources(
        Some(":1.1".to_owned()),
        "/request/1".to_owned(),
        valid_options(),
        3,
    );
    assert!(portal.client_disconnected(":1.9").is_none());
    let cancelled = portal.client_disconnected(":1.1").unwrap();
    assert_eq!(cancelled.reply.reply, 3);
    assert!(portal.tokens.consume(":1.1", &token).is_err());
}

#[test]
fn senders_and_owners_are_read_from_the_bus() {
    assert_eq!(
        sender_from_header(Some(":1.1".to_owned())).unwrap(),
        ":1.1"
    );
    assert!(sender_from_header(None).is_err());
    assert_eq!(
        disappeared_client(Some(":1.1".to_owned()), None).as_deref(),
        Some(":1.1")
    );
    assert!(disappeared_client(None, None).is_none());
    assert!(disappeared_client(Some(":1.1".to_owned()), Some(":1.2".to_owned())).is_none());
}

#[test]
fn sets_of_targets_have_no_order() {
    let one = TargetSet::collect(&vec![output("DP-1"), output("DP-2"), output("DP-1")]);
    let other = TargetSet::collect(&vec![output("DP-2"), output("DP-1")]);
    assert_eq!(one.len(), 2);
    assert_eq!(one, other);
    assert_ne!(one, TargetSet::collect(&vec![output("DP-1")]));
    assert_ne!(
        one,
        TargetSet::collect(&vec![output("DP-1"), output("DP-3")])
    );
}
