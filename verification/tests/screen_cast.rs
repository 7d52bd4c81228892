use niri_screencast::dbus::bus::{BusError, ExportOutcome};
use niri_screencast::dbus::mutter_screen_cast::{
    target_is_authorized, CreateSessionProperties, CursorMode, NodeIdSink, ScreenCast,
    ScreenCastToNiri, Session, StreamTarget,
};
use niri_screencast::dbus::outputs::{LogicalOutput, OutputInfo};
use niri_screencast::dbus::target::{StreamTargetId, TargetSet};

fn output(name: &str, logical: Option<LogicalOutput>) -> OutputInfo {
    OutputInfo {
        name: name.to_owned(),
        make: "Dell".to_owned(),
        model: "U2720Q".to_owned(),
        serial: None,
        logical,
    }
}

fn outputs() -> Vec<OutputInfo> {
    vec![
        output(
            "DP-1",
            Some(LogicalOutput {
                x: -10,
                y: 20,
                width: 1920,
                height: 1080,
            }),
        ),
        output("DP-2", None),
    ]
}

fn owner() -> Option<String> {
    Some(":1.1".to_owned())
}

fn session(targets: Option<TargetSet>) -> Session {
    Session::new(3, ":1.1".to_owned(), targets)
}

#[test]
fn tokenless_sessions_are_unrestricted_but_token_sessions_are_not() {
    let monitor = StreamTargetId::Output {
        name: "DP-1".to_owned(),
    };
    let window = StreamTargetId::Window { id: 10 };
    let authorized = TargetSet::collect(&vec![monitor.clone()]);

    assert!(target_is_authorized(None, &monitor));
    assert!(target_is_authorized(None, &window));
    assert!(target_is_authorized(Some(&authorized), &monitor));
    assert!(!target_is_authorized(Some(&authorized), &window));
}

#[test]
fn sessions_record_outputs_and_windows() {
    let mut session = session(None);
    let target = session.record_monitor(owner(), "DP-1", &outputs()).unwrap();
    let stream = session.new_stream(8, target, Some(CursorMode::Metadata));
    let parameters = stream.parameters();
    assert_eq!(parameters.position, Some((-10, 20)));
    assert_eq!(parameters.size, Some((1920, 1080)));
    assert_eq!(
        session.add_stream(stream, ExportOutcome::Added).unwrap(),
        "/org/gnome/Mutter/ScreenCast/Stream/u8"
    );

    let target = session.record_window(owner(), 42).unwrap();
    assert_eq!(target, StreamTarget::Window { id: 42 });
    let stream = session.new_stream(9, target, None);
    assert_eq!(stream.cursor_mode, CursorMode::Hidden);
    assert_eq!(stream.parameters().size, None);
    session.add_stream(stream, ExportOutcome::Added).unwrap();

    let messages = session.start(owner()).unwrap();
    assert_eq!(messages.len(), 2);
    match &messages[0] {
        ScreenCastToNiri::StartCast {
            session_id,
            stream_id,
            target,
            cursor_mode,
            node_sink,
        } => {
            assert_eq!(*session_id, 3);
            assert_eq!(*stream_id, 8);
            assert_eq!(
                *target,
                StreamTargetId::Output {
                    name: "DP-1".to_owned()
                }
            );
            assert_eq!(*cursor_mode, CursorMode::Metadata);
            assert_eq!(
                *node_sink,
                NodeIdSink::MutterSignal("/org/gnome/Mutter/ScreenCast/Stream/u8".to_owned())
            );
        }
        _ => panic!("not a start"),
    }
    assert!(matches!(
        &messages[1],
        ScreenCastToNiri::StartCast {
            stream_id: 9,
            target: StreamTargetId::Window { id: 42 },
            ..
        }
    ));

    // Streams start once.
    assert!(session.start(owner()).unwrap().is_empty());
}

#[test]
fn recording_is_refused_with_a_reason() {
    let session = session(Some(TargetSet::collect(&vec![StreamTargetId::Output {
        name: "DP-2".to_owned(),
    }])));
    assert_eq!(
        session.record_monitor(None, "DP-1", &outputs()).unwrap_err(),
        BusError::Failed("D-Bus call has no sender".to_owned())
    );
    assert_eq!(
        session
            .record_monitor(Some(":1.2".to_owned()), "DP-1", &outputs())
            .unwrap_err(),
        BusError::AccessDenied("screen cast session belongs to another D-Bus client".to_owned())
    );
    assert_eq!(
        session
            .record_monitor(owner(), "DP-1", &outputs())
            .unwrap_err(),
        BusError::AccessDenied("target was not authorized by the screen cast picker".to_owned())
    );
    assert_eq!(
        session
            .record_monitor(owner(), "DP-2", &outputs())
            .unwrap_err(),
        BusError::Failed("monitor is disabled".to_owned())
    );
    assert_eq!(
        session.record_monitor(owner(), "DP-2", &vec![]).unwrap_err(),
        BusError::Failed("no such monitor".to_owned())
    );
    assert!(session.record_window(owner(), 1).is_err());
}

#[test]
fn failed_exports_add_no_stream() {
    let mut session = session(None);
    let stream = session.new_stream(8, StreamTarget::Window { id: 1 }, None);
    assert_eq!(
        session.add_stream(stream, ExportOutcome::Exists).unwrap_err(),
        BusError::Failed("stream path already exists".to_owned())
    );
    let stream = session.new_stream(8, StreamTarget::Window { id: 1 }, None);
    assert_eq!(
        session
            .add_stream(stream, ExportOutcome::Failed("why".to_owned()))
            .unwrap_err(),
        BusError::Failed("error creating stream object: why".to_owned())
    );
    assert!(session.streams.is_empty());
}

#[test]
fn sessions_stop_once() {
    let mut session = session(None);
    let stream = session.new_stream(8, StreamTarget::Window { id: 1 }, None);
    session.add_stream(stream, ExportOutcome::Added).unwrap();
    assert!(session.stop(Some(":1.2".to_owned())).is_err());
    let actions = session.stop(owner()).unwrap().unwrap();
    assert!(matches!(
        actions.message,
        ScreenCastToNiri::StopCast { session_id: 3 }
    ));
    assert_eq!(actions.streams.len(), 1);
    assert!(session.stop_from_compositor().is_none());
    assert_eq!(
        session.record_window(owner(), 1).unwrap_err(),
        BusError::Failed("screen cast session is closed".to_owned())
    );
    assert!(session.start(owner()).is_err());
}

#[test]
fn tokens_restrict_the_sessions_that_use_them() {
    let mut cast = ScreenCast::new();
    let targets = vec![StreamTargetId::Window { id: 5 }];
    let token = cast.portal.tokens.issue(":1.1", &targets).unwrap();

    let with_token = |token: Vec<u8>| CreateSessionProperties {
        remote_desktop_session_id: None,
        selection_token: Some(token),
    };
    assert_eq!(
        cast.create_session(Some(":1.2".to_owned()), with_token(token.clone()))
            .unwrap_err(),
        BusError::AccessDenied("invalid selection-token".to_owned())
    );
    assert_eq!(
        cast.create_session(owner(), with_token(vec![1])).unwrap_err(),
        BusError::InvalidArgs("selection-token has an invalid length".to_owned())
    );
    let grant = cast
        .create_session(owner(), with_token(token.clone()))
        .unwrap();
    let session = Session::new(4, grant.owner, grant.authorized_targets);
    assert!(session.record_window(owner(), 5).is_ok());
    assert!(session.record_window(owner(), 6).is_err());
    assert!(cast.create_session(owner(), with_token(token)).is_err());

    let grant = cast
        .create_session(owner(), CreateSessionProperties::default())
        .unwrap();
    assert!(grant.authorized_targets.is_none());
    assert_eq!(
        cast.create_session(
            owner(),
            CreateSessionProperties {
                remote_desktop_session_id: Some("1".to_owned()),
                selection_token: None,
            }
        )
        .unwrap_err(),
        BusError::Failed("there are no remote desktop sessions".to_owned())
    );
    assert_eq!(
        cast.create_session(None, CreateSessionProperties::default())
            .unwrap_err(),
        BusError::Failed("D-Bus call has no sender".to_owned())
    );
}

#[test]
fn sessions_are_found_by_their_owner() {
    let mut cast = ScreenCast::new();
    let mine = Session::new(1, ":1.1".to_owned(), None);
    let other = Session::new(2, ":1.2".to_owned(), None);
    let also_mine = Session::new(30, ":1.1".to_owned(), None);
    assert_eq!(
        cast.add_session(&mine, ExportOutcome::Added).unwrap(),
        "/org/gnome/Mutter/ScreenCast/Session/u1"
    );
    cast.add_session(&other, ExportOutcome::Added).unwrap();
    assert_eq!(
        cast.add_session(&also_mine, ExportOutcome::Added).unwrap(),
        "/org/gnome/Mutter/ScreenCast/Session/u30"
    );
    assert_eq!(
        cast.add_session(&mine, ExportOutcome::Exists).unwrap_err(),
        BusError::Failed("session path already exists".to_owned())
    );
    assert_eq!(
        cast.add_session(&mine, ExportOutcome::Failed("why".to_owned()))
            .unwrap_err(),
        BusError::Failed("error creating session object: why".to_owned())
    );

    let mut gone = cast.client_disconnected(&":1.1".to_owned()).sessions;
    gone.sort();
    assert_eq!(gone, vec![1, 30]);
    cast.remove_session(1);
    assert_eq!(cast.sessions_of(&":1.1".to_owned()), vec![30]);
    assert_eq!(ScreenCast::version(), 4);
}

#[test]
fn large_sizes_wrap_as_signed_numbers() {
    let session = session(None);
    let wide = vec![output(
        "DP-1",
        Some(LogicalOutput {
            x: 0,
            y: 0,
            width: 4294967295,
            height: 2,
        }),
    )];
    let target = session.record_monitor(owner(), "DP-1", &wide).unwrap();
    let stream = session.new_stream(1, target, None);
    assert_eq!(stream.parameters().size, Some((-1, 2)));
}
