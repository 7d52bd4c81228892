use niri_screencast::dbus::bus::{
    BusError, ExportOutcome, RESPONSE_CANCELLED, RESPONSE_ERROR, RESPONSE_SUCCESS,
};
use niri_screencast::dbus::freedesktop_portal::{
    parse_select_options, resolve_restored_monitors, serialize_restore_data, stream_properties,
    SelectSourcesOptions, SelectedOptions,
};
use niri_screencast::dbus::mutter_screen_cast::{CursorMode, NodeIdSink, ScreenCastToNiri};
use niri_screencast::dbus::niri_portal_screen_cast::{
    PickSourcesReply, PickerRequestId, PickerSelection,
};
use niri_screencast::dbus::outputs::{monitor_match_string, LogicalOutput, OutputInfo};
use niri_screencast::dbus::picker_options::{
    PickerCursorMode, PickerPersistMode, PickerSourceTypes,
};
use niri_screencast::dbus::portal_backend::{
    picker_unreachable, request_exported, CastStart, CloseAction, PickOutcome, Request,
    ScreenCastBackend, Session, StartCall, StartResults, StartStep,
};
use niri_screencast::dbus::restore_data::{
    build_restore_data, parse_restore_data, RestoredSelection, RESTORE_FORMAT_VERSION,
    SOURCE_TYPE_MONITOR, SOURCE_TYPE_WINDOW,
};
use niri_screencast::dbus::target::StreamTargetId;
use zbus::zvariant::Value;

const RESTORE_VENDOR: &str = "SHORINNIRI";

fn output(name: &str, make: &str, model: &str, serial: Option<&str>) -> OutputInfo {
    OutputInfo {
        name: name.to_owned(),
        make: make.to_owned(),
        model: model.to_owned(),
        serial: serial.map(str::to_owned),
        logical: None,
    }
}

fn enabled(name: &str, serial: &str) -> OutputInfo {
    let mut output = output(name, "Dell", "U2720Q", Some(serial));
    output.logical = Some(LogicalOutput {
        x: 1,
        y: 2,
        width: 300,
        height: 400,
    });
    output
}

fn target(name: &str) -> StreamTargetId {
    StreamTargetId::Output {
        name: name.to_owned(),
    }
}

fn owner() -> Option<String> {
    Some(":1.1".to_owned())
}

fn backend() -> ScreenCastBackend {
    let mut backend = ScreenCastBackend::new();
    backend
        .create_session(
            ":1.1".to_owned(),
            "/session/1".to_owned(),
            11,
            ExportOutcome::Added,
        )
        .unwrap();
    backend
}

fn begin(backend: &mut ScreenCastBackend, outputs: &Vec<OutputInfo>) -> (StartCall, StartStep) {
    backend
        .start(
            owner(),
            "/request/1".to_owned(),
            "/session/1".to_owned(),
            "org.example.App".to_owned(),
            outputs,
            21,
        )
        .unwrap()
}

#[test]
fn match_string_follows_shorinniri_rules() {
    assert_eq!(
        monitor_match_string(&output("DP-1", "Dell", "U2720Q", Some("ABC123"))),
        "Dell:U2720Q:ABC123"
    );
    assert_eq!(
        monitor_match_string(&output("DP-1", "Dell", "U2720Q", None)),
        "Dell:U2720Q:DP-1"
    );
    assert_eq!(
        monitor_match_string(&output("Virtual-1", "unknown", "unknown", Some("unknown"))),
        "Virtual-1"
    );
}

#[test]
fn restore_data_roundtrips() {
    let monitors = vec!["Dell:U2720Q:ABC123".to_owned(), "DP-2".to_owned()];
    let (vendor, version, inner) = build_restore_data(123, 456, &monitors);

    assert_eq!(vendor, RESTORE_VENDOR);
    assert_eq!(inner.value_signature().to_string(), "(xxa(uuv))");

    let parsed = parse_restore_data(&vendor, version, &inner).unwrap();
    assert_eq!(
        parsed,
        RestoredSelection {
            creation_time: 123,
            monitors,
        }
    );
}

#[test]
fn restore_data_rejects_unknown_vendors_and_windows() {
    let inner = Value::from((
        1i64,
        2i64,
        vec![(
            0u32,
            SOURCE_TYPE_MONITOR,
            Value::new(Value::from("DP-1")),
        )],
    ));
    assert_eq!(parse_restore_data("KDE", RESTORE_FORMAT_VERSION, &inner), None);
    assert_eq!(parse_restore_data(RESTORE_VENDOR, 2, &inner), None);
    assert!(parse_restore_data("GNOME", RESTORE_FORMAT_VERSION, &inner).is_some());
    assert!(parse_restore_data(RESTORE_VENDOR, RESTORE_FORMAT_VERSION, &inner).is_some());

    let window_inner = Value::from((
        1i64,
        2i64,
        vec![(
            0u32,
            SOURCE_TYPE_WINDOW,
            Value::new(Value::from(("app", "title"))),
        )],
    ));
    assert_eq!(
        parse_restore_data(RESTORE_VENDOR, RESTORE_FORMAT_VERSION, &window_inner),
        None
    );
}

#[test]
fn restore_data_is_read_through_variants() {
    let inner = Value::from((
        7i64,
        2i64,
        vec![(3u32, SOURCE_TYPE_MONITOR, Value::from("DP-1"))],
    ));
    let parse = |value: &Value<'_>| parse_restore_data(RESTORE_VENDOR, 1, value);
    let expected = RestoredSelection {
        creation_time: 7,
        monitors: vec!["DP-1".to_owned()],
    };
    assert_eq!(parse(&inner), Some(expected.clone()));
    let once = Value::new(inner);
    assert_eq!(parse(&once), Some(expected.clone()));
    let twice = Value::new(once);
    assert_eq!(parse(&twice), Some(expected));
    let thrice = Value::new(twice);
    assert_eq!(parse(&thrice), None);
}

#[test]
fn malformed_restore_data_is_ignored() {
    let parse = |value: Value<'_>| parse_restore_data(RESTORE_VENDOR, 1, &value);
    let monitor = || {
        vec![(
            0u32,
            SOURCE_TYPE_MONITOR,
            Value::new(Value::from("DP-1")),
        )]
    };
    let nothing: Vec<(u32, u32, Value<'_>)> = vec![];
    assert_eq!(parse(Value::from("text")), None);
    assert_eq!(parse(Value::from((1i64, monitor()))), None);
    assert_eq!(parse(Value::from((1u32, 2i64, monitor()))), None);
    assert_eq!(parse(Value::from((1i64, 2u32, monitor()))), None);
    assert_eq!(parse(Value::from((1i64, 2i64, 3u32))), None);
    assert_eq!(parse(Value::from((1i64, 2i64, nothing))), None);
    assert_eq!(parse(Value::from((1i64, 2i64, vec![1u32]))), None);
    assert_eq!(parse(Value::from((1i64, 2i64, vec![(1u32, 1u32)]))), None);
    assert_eq!(
        parse(Value::from((1i64, 2i64, vec![(1i64, 1u32, Value::from("a"))]))),
        None
    );
    assert_eq!(
        parse(Value::from((1i64, 2i64, vec![(1u32, 1i64, Value::from("a"))]))),
        None
    );
    assert_eq!(
        parse(Value::from((1i64, 2i64, vec![(1u32, 1u32, Value::from(5u32))]))),
        None
    );
    assert!(parse(Value::from((1i64, 2i64, vec![(1u32, 1u32, Value::from("a"))]))).is_some());
}

#[test]
fn select_options_parse_and_validate() {
    let defaults = parse_select_options(SelectSourcesOptions::default()).unwrap();
    assert_eq!(defaults.source_types, PickerSourceTypes::monitors());
    assert!(!defaults.multiple);
    assert_eq!(defaults.cursor_mode, CursorMode::Hidden);
    assert_eq!(defaults.persist_mode, PickerPersistMode::Never);
    assert!(defaults.restore.is_none());

    let options = SelectSourcesOptions {
        types: Some(3),
        multiple: Some(true),
        cursor_mode: Some(PickerCursorMode::Metadata.value()),
        persist_mode: Some(2),
        restore_data: None,
    };
    let parsed = parse_select_options(options).unwrap();
    assert_eq!(
        parsed.source_types,
        PickerSourceTypes::monitors().union(PickerSourceTypes::windows())
    );
    assert!(parsed.multiple);
    assert_eq!(parsed.cursor_mode, CursorMode::Metadata);
    assert_eq!(parsed.persist_mode, PickerPersistMode::Persistent);

    let bad = SelectSourcesOptions {
        types: Some(8),
        ..Default::default()
    };
    assert!(parse_select_options(bad).is_err());

    let bad = SelectSourcesOptions {
        cursor_mode: Some(3),
        ..Default::default()
    };
    assert!(parse_select_options(bad).is_err());
}

#[test]
fn select_option_errors_name_the_option() {
    let parse = |types, cursor_mode, persist_mode| {
        parse_select_options(SelectSourcesOptions {
            types,
            multiple: None,
            cursor_mode,
            persist_mode,
            restore_data: None,
        })
        .unwrap_err()
    };
    assert_eq!(parse(Some(8), None, None), "invalid source types 8");
    assert_eq!(parse(Some(0), None, None), "invalid source types 0");
    assert_eq!(
        parse(None, Some(0), None),
        "cursor-mode must be hidden (1), embedded (2), or metadata (4)"
    );
    assert_eq!(
        parse(None, None, Some(3)),
        "persist-mode must be none (0), transient (1), or persistent (2)"
    );
}

#[test]
fn remembered_selections_are_restored() {
    let outputs = vec![enabled("DP-1", "A"), enabled("DP-2", "B")];
    let sources = vec![target("DP-2"), target("DP-1")];
    let (vendor, version, value) =
        serialize_restore_data(&sources, None, &outputs, 99).unwrap();
    let selected = parse_select_options(SelectSourcesOptions {
        types: None,
        multiple: Some(true),
        cursor_mode: None,
        persist_mode: Some(2),
        restore_data: Some((vendor, version, value)),
    })
    .unwrap();
    let restore = selected.restore.clone().unwrap();
    assert_eq!(restore.creation_time, 99);
    assert_eq!(restore.monitors, vec!["Dell:U2720Q:B", "Dell:U2720Q:A"]);
    assert_eq!(
        resolve_restored_monitors(&selected, &restore, &outputs),
        Some(sources)
    );

    // A disabled or missing output, or a client that wants something else, is not restored.
    let mut disabled = outputs.clone();
    disabled[0].logical = None;
    assert_eq!(resolve_restored_monitors(&selected, &restore, &disabled), None);
    assert_eq!(resolve_restored_monitors(&selected, &restore, &vec![]), None);
    let mut single = selected.clone();
    single.multiple = false;
    assert_eq!(resolve_restored_monitors(&single, &restore, &outputs), None);
    let mut windows = selected.clone();
    windows.source_types = PickerSourceTypes::windows();
    assert_eq!(resolve_restored_monitors(&windows, &restore, &outputs), None);
    let empty = RestoredSelection {
        creation_time: 0,
        monitors: vec![],
    };
    assert_eq!(resolve_restored_monitors(&selected, &empty, &outputs), None);
}

#[test]
fn windows_are_not_remembered() {
    let outputs = vec![enabled("DP-1", "A")];
    let sources = vec![target("DP-1"), StreamTargetId::Window { id: 1 }];
    assert!(serialize_restore_data(&sources, None, &outputs, 1).is_none());
    assert!(serialize_restore_data(&vec![target("DP-9")], None, &outputs, 1).is_none());
}

#[test]
fn streams_are_described() {
    let outputs = vec![enabled("DP-1", "A"), output("DP-2", "a", "b", None)];
    let properties = stream_properties(&target("DP-1"), &outputs);
    assert_eq!(properties.position, Some((1, 2)));
    assert_eq!(properties.size, Some((300, 400)));
    assert_eq!(properties.source_type, Some(1));
    assert_eq!(stream_properties(&target("DP-2"), &outputs).size, None);
    assert_eq!(stream_properties(&target("DP-3"), &outputs).position, None);
    let properties = stream_properties(&StreamTargetId::Window { id: 1 }, &outputs);
    assert_eq!(properties.source_type, Some(2));
    assert_eq!(properties.position, None);
}

#[test]
fn sessions_are_numbered() {
    let mut backend = ScreenCastBackend::new();
    let create = |backend: &mut ScreenCastBackend, outcome| {
        backend.create_session(":1.1".to_owned(), "/s".to_owned(), 1, outcome)
    };
    let (response, results) = create(&mut backend, ExportOutcome::Added).unwrap();
    assert_eq!(response, RESPONSE_SUCCESS);
    assert_eq!(results.session_id.as_deref(), Some("niri-0"));
    assert_eq!(
        create(&mut backend, ExportOutcome::Exists).unwrap_err(),
        BusError::Failed("session path already exists".to_owned())
    );
    assert_eq!(
        create(&mut backend, ExportOutcome::Failed("why".to_owned())).unwrap_err(),
        BusError::Failed("error creating session object: why".to_owned())
    );
    let (_, results) = create(&mut backend, ExportOutcome::Added).unwrap();
    assert_eq!(results.session_id.as_deref(), Some("niri-1"));
    assert_eq!(ScreenCastBackend::version(), 4);
    assert_eq!(ScreenCastBackend::available_source_types(), 3);
    assert_eq!(ScreenCastBackend::available_cursor_modes(), 7);
}

#[test]
fn calls_on_sessions_are_checked() {
    let mut backend = backend();
    let mut select = |sender: Option<&str>, handle: &str, types| {
        backend.select_sources(
            sender.map(str::to_owned),
            handle.to_owned(),
            SelectSourcesOptions {
                types,
                ..Default::default()
            },
        )
    };
    assert_eq!(
        select(None, "/session/1", Some(8)).unwrap_err(),
        BusError::Failed("D-Bus call has no sender".to_owned())
    );
    assert_eq!(select(Some(":1.2"), "/x", Some(8)).unwrap(), RESPONSE_ERROR);
    assert_eq!(
        select(Some(":1.1"), "/x", None).unwrap_err(),
        BusError::Failed("no such session".to_owned())
    );
    assert_eq!(
        select(Some(":1.2"), "/session/1", None).unwrap_err(),
        BusError::AccessDenied("session belongs to another D-Bus client".to_owned())
    );
    assert_eq!(
        select(Some(":1.1"), "/session/1", Some(3)).unwrap(),
        RESPONSE_SUCCESS
    );

    let (call, _) = begin(&mut backend, &vec![]);
    assert_eq!(call.closed, 11);
    assert_eq!(call.select.source_types.bits(), 3);
    assert_eq!(
        backend
            .select_sources(
                owner(),
                "/session/1".to_owned(),
                SelectSourcesOptions::default()
            )
            .unwrap_err(),
        BusError::Failed("session was already started".to_owned())
    );
    assert!(backend
        .start(
            owner(),
            "/request/2".to_owned(),
            "/session/1".to_owned(),
            String::new(),
            &vec![],
            1
        )
        .is_err());
}

#[test]
fn the_user_picks_without_restore_data() {
    let mut backend = backend();
    let (call, step) = begin(&mut backend, &vec![]);
    let request = match step {
        StartStep::Pick(request) => request,
        StartStep::Restored(_) => panic!("nothing to restore"),
    };
    let id = PickerRequestId {
        sender: ":1.1".to_owned(),
        handle: "/request/1".to_owned(),
    };
    assert_eq!(request.id, id);
    assert_eq!(request.reply, 21);
    assert_eq!(request.options.app_id, "org.example.App");
    assert_eq!(request.options.source_types, PickerSourceTypes::monitors());

    let response = |outcome| {
        let decision = call.picked(outcome);
        let (response, results) = decision.result.unwrap_err();
        assert!(results.streams.is_none() && results.persist_mode.is_none());
        assert!(results.restore_data.is_none());
        (decision.cancel, response)
    };
    assert_eq!(
        response(PickOutcome::SessionClosed),
        (Some(id), RESPONSE_CANCELLED)
    );
    assert_eq!(response(PickOutcome::ReplyLost), (None, RESPONSE_CANCELLED));
    assert_eq!(
        response(PickOutcome::Replied(PickSourcesReply::Cancelled)),
        (None, RESPONSE_CANCELLED)
    );
    assert_eq!(
        response(PickOutcome::Replied(PickSourcesReply::Failed(
            "x".to_owned()
        ))),
        (None, RESPONSE_ERROR)
    );
    assert_eq!(
        response(PickOutcome::Replied(PickSourcesReply::Selected(
            PickerSelection {
                sources: vec![],
                persist_mode: PickerPersistMode::Never,
            }
        ))),
        (None, RESPONSE_ERROR)
    );
    let chosen = call
        .picked(PickOutcome::Replied(PickSourcesReply::Selected(
            PickerSelection {
                sources: vec![target("DP-1")],
                persist_mode: PickerPersistMode::Never,
            },
        )))
        .result
        .unwrap();
    assert_eq!(chosen.sources, vec![target("DP-1")]);
    assert_eq!(chosen.creation_time, None);
    assert_eq!(
        picker_unreachable("x"),
        BusError::Failed("error sending picker request to niri: x".to_owned())
    );
}

#[test]
fn a_start_casts_every_source() {
    let outputs = vec![enabled("DP-1", "A")];
    let mut backend = backend();
    let data = build_restore_data(5, 6, &vec!["Dell:U2720Q:A".to_owned()]);
    backend
        .select_sources(
            owner(),
            "/session/1".to_owned(),
            SelectSourcesOptions {
                types: Some(1),
                multiple: None,
                cursor_mode: Some(2),
                persist_mode: Some(1),
                restore_data: Some(data),
            },
        )
        .unwrap();
    let (call, step) = begin(&mut backend, &outputs);
    let chosen = match step {
        StartStep::Restored(chosen) => chosen,
        StartStep::Pick(_) => panic!("the selection was remembered"),
    };
    assert_eq!(chosen.creation_time, Some(5));
    assert!(backend.register_cast(&call, 77).is_ok());

    let mut cast = CastStart::new(chosen, 77, call.select.cursor_mode);
    assert!(!cast.is_complete());
    match cast.next_message(8, 9) {
        ScreenCastToNiri::StartCast {
            session_id,
            stream_id,
            target: started,
            cursor_mode,
            node_sink,
        } => {
            assert_eq!(session_id, 77);
            assert_eq!(stream_id, 8);
            assert_eq!(started, target("DP-1"));
            assert_eq!(cursor_mode, CursorMode::Embedded);
            assert_eq!(node_sink, NodeIdSink::Channel(9));
        }
        _ => panic!("not a start"),
    }
    cast.node_added(123, &outputs);
    assert!(cast.is_complete());
    let (response, results) = cast.finish(&outputs, 50);
    assert_eq!(response, RESPONSE_SUCCESS);
    assert_eq!(results.persist_mode, Some(1));
    let streams = results.streams.unwrap();
    assert_eq!(streams[0].0, 123);
    assert_eq!(streams[0].1.size, Some((300, 400)));
    let (vendor, version, value) = results.restore_data.unwrap();
    assert_eq!(value, build_restore_data(5, 50, &vec!["Dell:U2720Q:A".to_owned()]).2);
    assert_eq!(
        parse_restore_data(&vendor, version, &value).unwrap().creation_time,
        5
    );

    // Closing the session stops its cast, once.
    let session = Session {
        path: "/session/1".to_owned(),
    };
    let closed = session.close(&mut backend).unwrap();
    assert_eq!(closed.closed, 11);
    assert!(matches!(
        closed.message,
        Some(ScreenCastToNiri::StopCast { session_id: 77 })
    ));
    assert!(session.close(&mut backend).is_none());
    assert!(backend.cast_paths.get(&77).is_none());
    assert_eq!(Session::version(), 1);
}

#[test]
fn nothing_is_remembered_unless_asked_for() {
    let outputs = vec![enabled("DP-1", "A")];
    let mut backend = backend();
    let (call, _) = begin(&mut backend, &outputs);
    let chosen = call
        .picked(PickOutcome::Replied(PickSourcesReply::Selected(
            PickerSelection {
                sources: vec![target("DP-1")],
                persist_mode: PickerPersistMode::Never,
            },
        )))
        .result
        .unwrap();
    let mut cast = CastStart::new(chosen, 1, CursorMode::Hidden);
    cast.node_added(2, &outputs);
    let (_, results) = cast.finish(&outputs, 50);
    assert!(results.restore_data.is_none());
    assert_eq!(results.persist_mode, Some(0));
    assert!(StartResults::blank().streams.is_none());
}

#[test]
fn failed_starts_are_undone() {
    let mut backend = backend();
    let (call, _) = begin(&mut backend, &vec![]);
    assert!(backend.register_cast(&call, 77).is_ok());
    assert_eq!(
        backend.cast_paths.get(&77).map(String::as_str),
        Some("/session/1")
    );
    let failed = backend.fail_start(&"/session/1".to_owned(), 77);
    assert!(matches!(
        failed.message,
        ScreenCastToNiri::StopCast { session_id: 77 }
    ));
    let closed = failed.closed.unwrap();
    assert_eq!(closed.closed, 11);
    assert!(closed.message.is_none());
    let (response, results) = failed.answer;
    assert_eq!(response, RESPONSE_ERROR);
    assert!(results.streams.is_none() && results.persist_mode.is_none());
    assert!(results.restore_data.is_none());
    assert!(backend.cast_paths.get(&77).is_none());
    assert!(backend.sessions.get(&"/session/1".to_owned()).is_none());

    // The session is closed: nothing is left to close, and no cast can be noted for it.
    let session = Session {
        path: "/session/1".to_owned(),
    };
    assert!(session.do_close(&mut backend, true).is_none());
    let (response, results) = backend.register_cast(&call, 78).unwrap_err();
    assert_eq!(response, RESPONSE_CANCELLED);
    assert!(results.streams.is_none());
    assert!(backend.cast_paths.get(&78).is_none());
}

#[test]
fn a_failed_start_of_a_closed_session_only_stops_the_cast() {
    let mut backend = backend();
    let (call, _) = begin(&mut backend, &vec![]);
    assert!(backend.register_cast(&call, 77).is_ok());
    let session = Session {
        path: "/session/1".to_owned(),
    };
    assert!(session.close_from_compositor(&mut backend).unwrap().message.is_none());
    let failed = backend.fail_start(&"/session/1".to_owned(), 77);
    assert!(failed.closed.is_none());
    assert!(matches!(
        failed.message,
        ScreenCastToNiri::StopCast { session_id: 77 }
    ));
    assert_eq!(failed.answer.0, RESPONSE_ERROR);
}

#[test]
fn sessions_without_a_cast_have_nothing_to_stop() {
    let mut backend = backend();
    let session = Session {
        path: "/session/1".to_owned(),
    };
    let closed = session.do_close(&mut backend, true).unwrap();
    assert_eq!(closed.closed, 11);
    assert!(closed.message.is_none());
}

#[test]
fn sessions_of_a_client_are_found() {
    let mut backend = backend();
    backend
        .create_session(
            ":1.2".to_owned(),
            "/session/2".to_owned(),
            12,
            ExportOutcome::Added,
        )
        .unwrap();
    assert_eq!(
        backend.sessions_of(&":1.2".to_owned()),
        vec!["/session/2".to_owned()]
    );
    assert!(backend.sessions_of(&":1.3".to_owned()).is_empty());
}

#[test]
fn requests_act_once_when_closed() {
    let mut request = Request::new(CloseAction::CancelScreenshot);
    assert!(matches!(
        request.close(),
        Some(CloseAction::CancelScreenshot)
    ));
    assert!(request.close().is_none());
    assert!(request_exported(&ExportOutcome::Added));
    assert!(!request_exported(&ExportOutcome::Exists));
    assert!(!request_exported(&ExportOutcome::Failed(String::new())));
}

#[test]
fn default_selection_is_one_output() {
    let selected = SelectedOptions::default();
    assert_eq!(selected.source_types, PickerSourceTypes::monitors());
    assert_eq!(selected.picker_cursor_mode, PickerCursorMode::Hidden);
    assert!(selected.restore.is_none());
}

#[test]
fn casts_lead_to_their_sessions_until_they_are_closed() {
    let mut backend = backend();
    backend
        .create_session(
            ":1.2".to_owned(),
            "/session/2".to_owned(),
            12,
            ExportOutcome::Added,
        )
        .unwrap();
    let (call, _) = begin(&mut backend, &vec![]);
    assert!(backend.register_cast(&call, 77).is_ok());
    let (other, _) = backend
        .start(
            Some(":1.2".to_owned()),
            "/request/2".to_owned(),
            "/session/2".to_owned(),
            String::new(),
            &vec![],
            22,
        )
        .unwrap();
    assert!(backend.register_cast(&other, 78).is_ok());

    let session = Session {
        path: "/session/1".to_owned(),
    };
    let closed = session.close(&mut backend).unwrap();
    assert_eq!(closed.closed, 11);
    assert!(matches!(
        closed.message,
        Some(ScreenCastToNiri::StopCast { session_id: 77 })
    ));
    assert!(backend.cast_paths.get(&77).is_none());
    assert_eq!(
        backend.cast_paths.get(&78).map(String::as_str),
        Some("/session/2")
    );
    assert!(session.close(&mut backend).is_none());
    assert!(backend.cast_paths.get(&78).is_some());
}
