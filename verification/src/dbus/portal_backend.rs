//! The calls of the built-in portal backend: its sessions, and the steps of starting a cast.

use std::collections::HashMap;
use vstd::prelude::*;
use zbus::zvariant::Value;

use crate::assoc::{lists_owned, names, Assoc, Owned};
use crate::dbus::bus::{
    sender_from_header, BusError, ExportOutcome, Fault, RESPONSE_CANCELLED, RESPONSE_ERROR,
    RESPONSE_SUCCESS,
};
use crate::dbus::freedesktop_portal::{
    default_selected, parse_select_options, properties_of, remembered_texts, remembers, resolved,
    resolve_restored_monitors, serialize_restore_data, stream_properties, SelectSourcesOptions,
    Selected, SelectedOptions, StreamProperties,
};
use crate::dbus::gnome_shell_screenshot::{file_uri, uri_of, ScreenshotPortalError};
use crate::dbus::mutter_screen_cast::{CursorMode, NodeIdSink, ScreenCastToNiri};
use crate::dbus::niri_portal_screen_cast::{
    validate_selection, PickSourcesReply, PickSourcesRequest, PickerRequestId,
};
use crate::dbus::outputs::OutputInfo;
use crate::dbus::picker_options::{or_default, PickerOptions, PickerPersistMode};
use crate::dbus::target::{targets_of, StreamTargetId, Target};
use crate::text::{decimal, numbered, same_text};

verus! {

broadcast use vstd::std_specs::hash::group_hash_axioms;

/// The state of a session.
#[derive(Debug)]
pub struct SessionState {
    pub owner: String,
    pub select: Option<SelectedOptions>,
    pub cast_session: Option<u64>,
    pub started: bool,
    /// The number of the channel whose closing wakes up a pending start.
    pub closed: u64,
}

impl Owned for SessionState {
    open spec fn owned_by(&self, owner: Seq<char>) -> bool {
        self.owner@ == owner
    }

    fn belongs_to(&self, owner: &str) -> (r: bool) {
        same_text(self.owner.as_str(), owner)
    }
}

/// The screen cast part of the backend.
#[derive(Debug)]
pub struct ScreenCastBackend {
    /// The sessions, by the path of their objects.
    pub sessions: Assoc<String, SessionState>,
    /// The paths of the sessions, by the number of their casts.
    pub cast_paths: HashMap<u64, String>,
    pub session_counter: u64,
}

/// What a new session is answered with.
#[derive(Debug, PartialEq, Eq)]
pub struct CreateSessionResults {
    pub session_id: Option<String>,
}

/// A start that is under way.
#[derive(Debug)]
pub struct StartCall {
    pub id: PickerRequestId,
    pub session_handle: String,
    pub select: SelectedOptions,
    /// The number of the channel whose closing ends the start.
    pub closed: u64,
}

/// What will be cast, and what is remembered of it.
#[derive(Debug)]
pub struct ChosenSources {
    pub sources: Vec<StreamTargetId>,
    pub persist_mode: PickerPersistMode,
    /// When the selection was made, if it was restored.
    pub creation_time: Option<i64>,
}

/// How a start goes on.
#[derive(Debug)]
pub enum StartStep {
    /// A remembered selection is used.
    Restored(ChosenSources),
    /// The user picks.
    Pick(PickSourcesRequest),
}

/// How the picking ended.
#[derive(Debug)]
pub enum PickOutcome {
    /// The picker answered.
    Replied(PickSourcesReply),
    /// The picker went away without an answer.
    ReplyLost,
    /// The session was closed first.
    SessionClosed,
}

/// What the end of the picking means: sources to cast, or what the start is answered with.
#[derive(Debug)]
pub struct PickDecision {
    /// The request that the picker has to drop.
    pub cancel: Option<PickerRequestId>,
    pub result: Result<ChosenSources, (u32, StartResults)>,
}

/// What has to happen when a session is closed.
#[derive(Debug)]
pub struct ClosedSession {
    /// The number of the channel to close.
    pub closed: u64,
    pub message: Option<ScreenCastToNiri>,
}

/// What has to happen when a start failed.
#[derive(Debug)]
pub struct FailedStart {
    /// The message that stops the cast.
    pub message: ScreenCastToNiri,
    /// What has to happen because the session is closed, if it was not closed before.
    pub closed: Option<ClosedSession>,
    /// What the start is answered with.
    pub answer: (u32, StartResults),
}

/// Why a call of `sender` on a session is refused, if it is: only the client that created it may
/// use a session, and only until it is started.
pub open spec fn session_fault(
    sessions: Map<Seq<char>, SessionState>,
    sender: Option<String>,
    session_handle: Seq<char>,
) -> Option<Fault> {
    match sender {
        None => Some(Fault::Failed("D-Bus call has no sender"@)),
        Some(sender) => if !sessions.contains_key(session_handle) {
            Some(Fault::Failed("no such session"@))
        } else if sessions[session_handle].owner@ != sender@ {
            Some(Fault::AccessDenied("session belongs to another D-Bus client"@))
        } else if sessions[session_handle].started {
            Some(Fault::Failed("session was already started"@))
        } else {
            None
        },
    }
}

/// What was selected for a session, or what a client gets that selected nothing.
pub open spec fn selected_or_default(select: Option<SelectedOptions>) -> Selected {
    match select {
        Some(select) => select@,
        None => default_selected(),
    }
}

/// The targets that a start uses without asking the user, if it does.
pub open spec fn restored_targets(select: Selected, outputs: Seq<OutputInfo>) -> Option<
    Seq<Target>,
> {
    match select.restore {
        Some(restore) => resolved(
            select.source_types,
            select.multiple,
            restore.monitors,
            outputs,
        ),
        None => None,
    }
}

/// Whether `options` are those of a picker request for what was selected.
pub open spec fn picks_for(options: PickerOptions, select: Selected) -> bool {
    &&& options.source_types == select.source_types
    &&& options.multiple == select.multiple
    &&& options.cursor_mode == select.picker_cursor_mode
    &&& options.persist_mode == select.persist_mode
}

/// What is wrong with a selection as the answer for what was selected.
pub open spec fn picked_fault(
    select: Selected,
    targets: Seq<Target>,
    persist_mode: PickerPersistMode,
) -> Option<Seq<char>> {
    crate::dbus::niri_portal_screen_cast::selection_fault(
        select.source_types,
        select.multiple,
        select.persist_mode,
        targets,
        persist_mode,
    )
}

impl ScreenCastBackend {
    /// No session is listed twice.
    pub open spec fn wf(self) -> bool {
        self.sessions.wf()
    }

    /// The version of the interface.
    pub fn version() -> (v: u32)
        ensures
            v == 4,
    {
        4
    }

    /// The kinds of sources that can be cast: outputs and windows.
    pub fn available_source_types() -> (bits: u32)
        ensures
            bits == 3,
    {
        3
    }

    /// The cursor modes that casts can have: hidden, embedded and metadata.
    pub fn available_cursor_modes() -> (bits: u32)
        ensures
            bits == 7,
    {
        7
    }

    /// A backend without sessions.
    pub fn new() -> (r: ScreenCastBackend)
        ensures
            r.wf(),
            r.sessions@ == Map::<Seq<char>, SessionState>::empty(),
            r.cast_paths@ == Map::<u64, String>::empty(),
            r.session_counter == 0,
    {
        ScreenCastBackend {
            sessions: Assoc::new(),
            cast_paths: HashMap::new(),
            session_counter: 0,
        }
    }

    /// Takes in a session whose object was to be exported.
    pub fn create_session(
        &mut self,
        owner: String,
        session_handle: String,
        closed: u64,
        outcome: ExportOutcome,
    ) -> (r: Result<(u32, CreateSessionResults), BusError>)
        requires
            old(self).wf(),
        ensures
            final(self).wf(),
            final(self).cast_paths == old(self).cast_paths,
            match outcome {
                ExportOutcome::Added => {
                    &&& r is Ok
                    &&& r->Ok_0.0 == RESPONSE_SUCCESS
                    &&& r->Ok_0.1.session_id is Some
                    &&& r->Ok_0.1.session_id->0@ == "niri-"@ + decimal(
                        old(self).session_counter as nat,
                    )
                    &&& final(self).session_counter == old(self).session_counter.wrapping_add(1)
                    &&& final(self).sessions@ == old(self).sessions@.insert(
                        session_handle@,
                        (SessionState {
                            owner,
                            select: None,
                            cast_session: None,
                            started: false,
                            closed,
                        }),
                    )
                },
                ExportOutcome::Exists => r is Err && r->Err_0@ == Fault::Failed(
                    "session path already exists"@,
                ) && *final(self) == *old(self),
                ExportOutcome::Failed(why) => r is Err && r->Err_0@ == Fault::Failed(
                    "error creating session object: "@ + why@,
                ) && *final(self) == *old(self),
            },
    {
        match outcome {
            ExportOutcome::Added => {},
            ExportOutcome::Exists => {
                return Err(BusError::failed("session path already exists"));
            },
            ExportOutcome::Failed(why) => {
                return Err(
                    BusError::failed_because("error creating session object: ", why.as_str()),
                );
            },
        }
        let state = SessionState {
            owner,
            select: None,
            cast_session: None,
            started: false,
            closed,
        };
        self.sessions.insert(session_handle, state);
        let n: u64 = self.session_counter;
        self.session_counter = n.wrapping_add(1);
        Ok((RESPONSE_SUCCESS, CreateSessionResults { session_id: Some(numbered("niri-", n)) }))
    }

    fn check_session(&self, sender: Option<String>, session_handle: &String) -> (r: Result<
        String,
        BusError,
    >)
        requires
            self.wf(),
        ensures
            match session_fault(self.sessions@, sender, session_handle@) {
                Some(fault) => r is Err && r->Err_0@ == fault,
                None => r == Ok::<String, BusError>(sender->0),
            },
    {
        let sender = match sender_from_header(sender) {
            Ok(sender) => sender,
            Err(err) => {
                return Err(err);
            },
        };
        match self.sessions.get(session_handle) {
            Some(state) => {
                if state.owner != sender {
                    return Err(BusError::access_denied("session belongs to another D-Bus client"));
                }
                if state.started {
                    return Err(BusError::failed("session was already started"));
                }
            },
            None => {
                return Err(BusError::failed("no such session"));
            },
        }
        Ok(sender)
    }

    /// Notes what a client asks for. Options that make no sense are answered with
    /// [`RESPONSE_ERROR`].
    pub fn select_sources(
        &mut self,
        sender: Option<String>,
        session_handle: String,
        options: SelectSourcesOptions,
    ) -> (r: Result<u32, BusError>)
        requires
            old(self).wf(),
        ensures
            final(self).wf(),
            final(self).cast_paths == old(self).cast_paths,
            final(self).session_counter == old(self).session_counter,
            if sender is None {
                &&& r is Err && r->Err_0@ == Fault::Failed("D-Bus call has no sender"@)
                &&& final(self).sessions@ == old(self).sessions@
            } else if options.fault() is Some {
                &&& r == Ok::<u32, BusError>(RESPONSE_ERROR)
                &&& final(self).sessions@ == old(self).sessions@
            } else {
                match session_fault(old(self).sessions@, sender, session_handle@) {
                    Some(fault) => {
                        &&& r is Err && r->Err_0@ == fault
                        &&& final(self).sessions@ == old(self).sessions@
                    },
                    None => {
                        let before = old(self).sessions@[session_handle@];
                        let after = final(self).sessions@[session_handle@];
                        &&& r == Ok::<u32, BusError>(RESPONSE_SUCCESS)
                        &&& after.select is Some && options.asks_for(after.select->0@)
                        &&& after == (SessionState { select: after.select, ..before })
                        &&& final(self).sessions@ == old(self).sessions@.insert(
                            session_handle@,
                            after,
                        )
                    },
                }
            },
    {
        if sender.is_none() {
            return Err(BusError::failed("D-Bus call has no sender"));
        }
        let select = match parse_select_options(options) {
            Ok(select) => select,
            Err(_) => {
                return Ok(RESPONSE_ERROR);
            },
        };
        match self.check_session(sender, &session_handle) {
            Ok(_) => {},
            Err(err) => {
                return Err(err);
            },
        }
        let ghost before = self.sessions@;
        let ghost handle = session_handle@;
        match self.sessions.remove(&session_handle) {
            Some(state) => {
                let state = SessionState {
                    owner: state.owner,
                    select: Some(select),
                    cast_session: state.cast_session,
                    started: state.started,
                    closed: state.closed,
                };
                self.sessions.insert(session_handle, state);
                assert(before.remove(handle).insert(handle, state) =~= before.insert(
                    handle,
                    state,
                ));
                Ok(RESPONSE_SUCCESS)
            },
            None => Ok(RESPONSE_ERROR),
        }
    }

    /// Begins to start a session: a remembered selection is used if it still stands for outputs,
    /// and else the user picks. `reply` is the number of the channel for the answer of the picker.
    pub fn start(
        &mut self,
        sender: Option<String>,
        handle: String,
        session_handle: String,
        app_id: String,
        outputs: &Vec<OutputInfo>,
        reply: u64,
    ) -> (r: Result<(StartCall, StartStep), BusError>)
        requires
            old(self).wf(),
        ensures
            final(self).wf(),
            final(self).cast_paths == old(self).cast_paths,
            final(self).session_counter == old(self).session_counter,
            match session_fault(old(self).sessions@, sender, session_handle@) {
                Some(fault) => {
                    &&& r is Err && r->Err_0@ == fault
                    &&& final(self).sessions@ == old(self).sessions@
                },
                None => {
                    let before = old(self).sessions@[session_handle@];
                    &&& final(self).sessions@ == old(self).sessions@.insert(
                        session_handle@,
                        (SessionState { started: true, ..before }),
                    )
                    &&& r is Ok
                    &&& begins(
                        r->Ok_0.0,
                        r->Ok_0.1,
                        before,
                        (PickerRequestId { sender: sender->0, handle }),
                        session_handle@,
                        app_id,
                        outputs@,
                        reply,
                    )
                },
            },
    {
        let sender = match self.check_session(sender, &session_handle) {
            Ok(sender) => sender,
            Err(err) => {
                return Err(err);
            },
        };
        let ghost before = self.sessions@;
        let ghost path = session_handle@;
        let state = match self.sessions.remove(&session_handle) {
            Some(state) => state,
            None => {
                return Err(BusError::failed("no such session"));
            },
        };
        let select = match &state.select {
            Some(select) => select.clone(),
            None => SelectedOptions::default(),
        };
        let closed: u64 = state.closed;
        let state = SessionState {
            owner: state.owner,
            select: state.select,
            cast_session: state.cast_session,
            started: true,
            closed: state.closed,
        };
        self.sessions.insert(session_handle.clone(), state);
        assert(before.remove(path).insert(path, state) =~= before.insert(path, state));
        let restored = match &select.restore {
            Some(restore) => match resolve_restored_monitors(&select, restore, outputs) {
                Some(sources) => Some(
                    ChosenSources {
                        sources,
                        persist_mode: select.persist_mode,
                        creation_time: Some(restore.creation_time),
                    },
                ),
                None => None,
            },
            None => None,
        };
        let id = PickerRequestId { sender, handle };
        let step = match restored {
            Some(chosen) => StartStep::Restored(chosen),
            None => StartStep::Pick(
                PickSourcesRequest {
                    id: id.clone(),
                    options: PickerOptions {
                        app_id,
                        source_types: select.source_types,
                        multiple: select.multiple,
                        cursor_mode: select.picker_cursor_mode,
                        persist_mode: select.persist_mode,
                    },
                    reply,
                },
            ),
        };
        Ok((StartCall { id, session_handle, select, closed }, step))
    }

    /// Notes the number of the cast of a session that is being started. If the session was closed
    /// meanwhile, the error is what the start is answered with.
    pub fn register_cast(&mut self, call: &StartCall, cast_session: u64) -> (r: Result<
        (),
        (u32, StartResults),
    >)
        requires
            old(self).wf(),
        ensures
            final(self).wf(),
            final(self).session_counter == old(self).session_counter,
            if old(self).sessions@.contains_key(call.session_handle@) {
                &&& r is Ok
                &&& final(self).sessions@ == old(self).sessions@.insert(
                    call.session_handle@,
                    (SessionState {
                        cast_session: Some(cast_session),
                        ..old(self).sessions@[call.session_handle@]
                    }),
                )
                &&& final(self).cast_paths@ == old(self).cast_paths@.insert(
                    cast_session,
                    call.session_handle,
                )
            } else {
                &&& unsuccessful(r, RESPONSE_CANCELLED)
                &&& final(self).sessions@ == old(self).sessions@
                &&& final(self).cast_paths@ == old(self).cast_paths@.remove(cast_session)
            },
    {
        let ghost before = self.sessions@;
        let ghost path = call.session_handle@;
        match self.sessions.remove(&call.session_handle) {
            Some(state) => {
                let state = SessionState {
                    owner: state.owner,
                    select: state.select,
                    cast_session: Some(cast_session),
                    started: state.started,
                    closed: state.closed,
                };
                self.sessions.insert(call.session_handle.clone(), state);
                assert(before.remove(path).insert(path, state) =~= before.insert(path, state));
                let _ = self.cast_paths.insert(cast_session, call.session_handle.clone());
                Ok(())
            },
            None => {
                assert(before.remove(path) =~= before);
                let _ = self.cast_paths.remove(&cast_session);
                Err((RESPONSE_CANCELLED, StartResults::blank()))
            },
        }
    }

    /// Gives up a start whose cast failed: the cast is stopped, and the session is closed with it.
    pub fn fail_start(&mut self, session_handle: &String, cast_session: u64) -> (failed:
        FailedStart)
        requires
            old(self).wf(),
        ensures
            final(self).wf(),
            fails_start(*old(self), session_handle@, cast_session, failed, *final(self)),
    {
        let _ = self.cast_paths.remove(&cast_session);
        let session = Session { path: session_handle.clone() };
        let closed = session.do_close(self, false);
        FailedStart {
            message: ScreenCastToNiri::StopCast { session_id: cast_session },
            closed,
            answer: (RESPONSE_ERROR, StartResults::blank()),
        }
    }

    /// The paths of a client's sessions, each once, in some order.
    pub fn sessions_of(&self, owner: &String) -> (paths: Vec<String>)
        requires
            self.wf(),
        ensures
            lists_owned(names(paths@), self.sessions@, owner@),
    {
        self.sessions.keys_of(owner.as_str())
    }
}

/// Whether the start of a session in the given state goes on with `step`.
pub open spec fn begins(
    call: StartCall,
    step: StartStep,
    state: SessionState,
    id: PickerRequestId,
    session_handle: Seq<char>,
    app_id: String,
    outputs: Seq<OutputInfo>,
    reply: u64,
) -> bool {
    let select = selected_or_default(state.select);
    &&& call.id == id
    &&& call.session_handle@ == session_handle
    &&& call.select@ == select
    &&& call.closed == state.closed
    &&& match restored_targets(select, outputs) {
        Some(targets) => {
            &&& step is Restored
            &&& targets_of(step->Restored_0.sources@) == targets
            &&& step->Restored_0.persist_mode == select.persist_mode
            &&& step->Restored_0.creation_time == Some(select.restore->0.creation_time)
        },
        None => {
            &&& step is Pick
            &&& step->Pick_0.id == id
            &&& step->Pick_0.options.app_id == app_id
            &&& picks_for(step->Pick_0.options, select)
            &&& step->Pick_0.reply == reply
        },
    }
}

/// The error for a picker request that could not be sent; `why` says what went wrong.
pub fn picker_unreachable(why: &str) -> (err: BusError)
    ensures
        err@ == Fault::Failed("error sending picker request to niri: "@ + why@),
{
    BusError::failed_because("error sending picker request to niri: ", why)
}

impl StartCall {
    /// What the end of the picking means. A selection that does not answer what was asked for ends
    /// the start with [`RESPONSE_ERROR`].
    pub fn picked(&self, outcome: PickOutcome) -> (r: PickDecision)
        ensures
            match outcome {
                PickOutcome::SessionClosed => r.cancel == Some(self.id)
                    && unsuccessful(r.result, RESPONSE_CANCELLED),
                PickOutcome::ReplyLost => r.cancel is None
                    && unsuccessful(r.result, RESPONSE_CANCELLED),
                PickOutcome::Replied(PickSourcesReply::Cancelled) => r.cancel is None
                    && unsuccessful(r.result, RESPONSE_CANCELLED),
                PickOutcome::Replied(PickSourcesReply::Failed(_)) => r.cancel is None
                    && unsuccessful(r.result, RESPONSE_ERROR),
                PickOutcome::Replied(PickSourcesReply::Selected(selection)) => r.cancel is None
                    && if picked_fault(
                    self.select@,
                    targets_of(selection.sources@),
                    selection.persist_mode,
                ) is Some {
                    unsuccessful(r.result, RESPONSE_ERROR)
                } else {
                    &&& r.result is Ok
                    &&& r.result->Ok_0 == (ChosenSources {
                        sources: selection.sources,
                        persist_mode: selection.persist_mode,
                        creation_time: None,
                    })
                },
            },
    {
        let selection = match outcome {
            PickOutcome::SessionClosed => {
                return PickDecision {
                    cancel: Some(self.id.clone()),
                    result: Err((RESPONSE_CANCELLED, StartResults::blank())),
                };
            },
            PickOutcome::ReplyLost => {
                return PickDecision {
                    cancel: None,
                    result: Err((RESPONSE_CANCELLED, StartResults::blank())),
                };
            },
            PickOutcome::Replied(PickSourcesReply::Cancelled) => {
                return PickDecision {
                    cancel: None,
                    result: Err((RESPONSE_CANCELLED, StartResults::blank())),
                };
            },
            PickOutcome::Replied(PickSourcesReply::Failed(_)) => {
                return PickDecision {
                    cancel: None,
                    result: Err((RESPONSE_ERROR, StartResults::blank())),
                };
            },
            PickOutcome::Replied(PickSourcesReply::Selected(selection)) => selection,
        };
        let options = PickerOptions {
            app_id: String::new(),
            source_types: self.select.source_types,
            multiple: self.select.multiple,
            cursor_mode: self.select.picker_cursor_mode,
            persist_mode: self.select.persist_mode,
        };
        let result = match validate_selection(&options, selection) {
            Ok((sources, persist_mode)) => Ok(
                ChosenSources { sources, persist_mode, creation_time: None },
            ),
            Err(_) => Err((RESPONSE_ERROR, StartResults::blank())),
        };
        PickDecision { cancel: None, result }
    }
}

/// Whether a step of a start ended it with the response `code` and no results.
pub open spec fn unsuccessful<T>(r: Result<T, (u32, StartResults)>, code: u32) -> bool {
    r matches Err((response, results)) && response == code && results.is_blank()
}

/// The casts of a session that is being started. The streams are those whose node is known.
#[derive(Debug)]
pub struct CastStart {
    pub chosen: ChosenSources,
    pub cast_session: u64,
    pub cursor_mode: CursorMode,
    pub streams: Vec<(u32, StreamProperties)>,
}

/// What a successful start is answered with. The restore data is its vendor, its version and its
/// value.
#[derive(Debug, Default)]
pub struct StartResults {
    pub streams: Option<Vec<(u32, StreamProperties)>>,
    pub persist_mode: Option<u32>,
    pub restore_data: Option<(String, u32, Value<'static>)>,
}

impl StartResults {
    /// Whether the results are those of a start that did not succeed.
    pub open spec fn is_blank(self) -> bool {
        self.streams is None && self.persist_mode is None && self.restore_data is None
    }

    /// What a start is answered with that did not succeed.
    pub fn blank() -> (r: StartResults)
        ensures
            r.is_blank(),
    {
        StartResults { streams: None, persist_mode: None, restore_data: None }
    }
}

impl CastStart {
    /// There are no more streams than sources.
    pub open spec fn wf(self) -> bool {
        self.streams@.len() <= self.chosen.sources@.len()
    }

    /// Begins to start the casts.
    pub fn new(chosen: ChosenSources, cast_session: u64, cursor_mode: CursorMode) -> (r: CastStart)
        ensures
            r.wf(),
            r.chosen == chosen,
            r.cast_session == cast_session,
            r.cursor_mode == cursor_mode,
            r.streams@.len() == 0,
    {
        CastStart { chosen, cast_session, cursor_mode, streams: Vec::new() }
    }

    /// Whether every cast was started.
    pub open spec fn complete(self) -> bool {
        self.streams@.len() == self.chosen.sources@.len()
    }

    /// Whether every cast was started.
    pub fn is_complete(&self) -> (r: bool)
        ensures
            r == self.complete(),
    {
        self.streams.len() == self.chosen.sources.len()
    }

    /// The message that starts the next cast. `channel` is the number of the channel that the node
    /// goes to.
    pub fn next_message(&self, stream_id: u64, channel: u64) -> (message: ScreenCastToNiri)
        requires
            self.wf(),
            !self.complete(),
        ensures
            message == (ScreenCastToNiri::StartCast {
                session_id: self.cast_session,
                stream_id,
                target: self.chosen.sources@[self.streams@.len() as int],
                cursor_mode: self.cursor_mode,
                node_sink: NodeIdSink::Channel(channel),
            }),
    {
        let next: usize = self.streams.len();
        ScreenCastToNiri::StartCast {
            session_id: self.cast_session,
            stream_id,
            target: self.chosen.sources[next].clone(),
            cursor_mode: self.cursor_mode,
            node_sink: NodeIdSink::Channel(channel),
        }
    }

    /// Notes the node of the cast that was started last.
    pub fn node_added(&mut self, node_id: u32, outputs: &Vec<OutputInfo>)
        requires
            old(self).wf(),
            !old(self).complete(),
        ensures
            final(self).wf(),
            *final(self) == (CastStart { streams: final(self).streams, ..*old(self) }),
            final(self).streams@ == old(self).streams@.push(
                (
                    node_id,
                    properties_of(
                        old(self).chosen.sources@[old(self).streams@.len() as int]@,
                        outputs@,
                    ),
                ),
            ),
    {
        let next: usize = self.streams.len();
        let properties = stream_properties(&self.chosen.sources[next], outputs);
        self.streams.push((node_id, properties));
    }

    /// What the client is answered with when every cast was started at `now`, in microseconds.
    pub fn finish(self, outputs: &Vec<OutputInfo>, now: i64) -> (r: (u32, StartResults))
        requires
            self.complete(),
        ensures
            r.0 == RESPONSE_SUCCESS,
            r.1.streams == Some(self.streams),
            r.1.persist_mode == Some(self.chosen.persist_mode.number()),
            ({
                let texts = remembered_texts(
                    targets_of(self.chosen.sources@),
                    outputs@,
                    self.chosen.sources@.len(),
                );
                if self.chosen.persist_mode == PickerPersistMode::Never || texts is None {
                    r.1.restore_data is None
                } else {
                    remembers(
                        r.1.restore_data,
                        or_default(self.chosen.creation_time, now),
                        now,
                        texts->0,
                    )
                }
            }),
    {
        let restore_data = if self.chosen.persist_mode.value() > PickerPersistMode::Never.value() {
            serialize_restore_data(
                &self.chosen.sources,
                self.chosen.creation_time,
                outputs,
                now,
            )
        } else {
            None
        };
        (
            RESPONSE_SUCCESS,
            StartResults {
                streams: Some(self.streams),
                persist_mode: Some(self.chosen.persist_mode.value()),
                restore_data,
            },
        )
    }
}

/// The object of a session.
#[derive(Debug)]
pub struct Session {
    pub path: String,
}

/// Closing a session leaves `left_sessions` and `left_casts` of these sessions and casts, and asks
/// for `actions`: the first close forgets the session and its cast, and later ones do nothing.
/// Where `send_stop` says so, the compositor is told to stop the cast.
pub open spec fn closing(
    sessions: Map<Seq<char>, SessionState>,
    casts: Map<u64, String>,
    path: Seq<char>,
    send_stop: bool,
    actions: Option<ClosedSession>,
    left_sessions: Map<Seq<char>, SessionState>,
    left_casts: Map<u64, String>,
) -> bool {
    &&& left_sessions == sessions.remove(path)
    &&& match actions {
        None => !sessions.contains_key(path) && left_casts == casts,
        Some(actions) => {
            &&& sessions.contains_key(path)
            &&& actions.closed == sessions[path].closed
            &&& match sessions[path].cast_session {
                Some(cast_session) => {
                    &&& left_casts == casts.remove(cast_session)
                    &&& actions.message == (if send_stop {
                        Some(ScreenCastToNiri::StopCast { session_id: cast_session })
                    } else {
                        None
                    })
                },
                None => left_casts == casts && actions.message is None,
            }
        },
    }
}

/// Closing a session leads from `before` to `after` and asks for `actions`.
pub open spec fn closes(
    before: ScreenCastBackend,
    path: Seq<char>,
    send_stop: bool,
    actions: Option<ClosedSession>,
    after: ScreenCastBackend,
) -> bool {
    &&& after.session_counter == before.session_counter
    &&& closing(
        before.sessions@,
        before.cast_paths@,
        path,
        send_stop,
        actions,
        after.sessions@,
        after.cast_paths@,
    )
}

/// Giving up the start of a session leads from `before` to `after` and asks for `failed`: its cast
/// is forgotten and stopped, the session is closed, and the client learns that the start failed.
pub open spec fn fails_start(
    before: ScreenCastBackend,
    path: Seq<char>,
    cast_session: u64,
    failed: FailedStart,
    after: ScreenCastBackend,
) -> bool {
    &&& failed.message == (ScreenCastToNiri::StopCast { session_id: cast_session })
    &&& failed.answer.0 == RESPONSE_ERROR
    &&& failed.answer.1.is_blank()
    &&& after.session_counter == before.session_counter
    &&& closing(
        before.sessions@,
        before.cast_paths@.remove(cast_session),
        path,
        false,
        failed.closed,
        after.sessions@,
        after.cast_paths@,
    )
}

impl Session {
    /// The version of the interface.
    pub fn version() -> (v: u32)
        ensures
            v == 1,
    {
        1
    }

    /// Closes the session on behalf of a client.
    pub fn close(&self, backend: &mut ScreenCastBackend) -> (actions: Option<ClosedSession>)
        requires
            old(backend).wf(),
        ensures
            final(backend).wf(),
            closes(*old(backend), self.path@, true, actions, *final(backend)),
    {
        self.do_close(backend, true)
    }

    /// Closes the session on behalf of the compositor, which stopped the cast already.
    pub fn close_from_compositor(&self, backend: &mut ScreenCastBackend) -> (actions: Option<
        ClosedSession,
    >)
        requires
            old(backend).wf(),
        ensures
            final(backend).wf(),
            closes(*old(backend), self.path@, false, actions, *final(backend)),
    {
        self.do_close(backend, false)
    }

    /// Closes the session; `send_stop` says whether the compositor has to be told to stop the cast.
    /// Without a result the session was closed before. Else its channel is to be closed, the
    /// message to be sent, the closing to be announced and the object to be removed.
    pub fn do_close(&self, backend: &mut ScreenCastBackend, send_stop: bool) -> (actions: Option<
        ClosedSession,
    >)
        requires
            old(backend).wf(),
        ensures
            final(backend).wf(),
            closes(*old(backend), self.path@, send_stop, actions, *final(backend)),
    {
        let state = match backend.sessions.remove(&self.path) {
            Some(state) => state,
            None => {
                return None;
            },
        };
        let message = match state.cast_session {
            Some(cast_session) => {
                let _ = backend.cast_paths.remove(&cast_session);
                if send_stop {
                    Some(ScreenCastToNiri::StopCast { session_id: cast_session })
                } else {
                    None
                }
            },
            None => None,
        };
        Some(ClosedSession { closed: state.closed, message })
    }
}

/// Closing a session that is listed takes it and its cast off the lists, wakes up its pending start
/// and stops its cast if that is asked for; the other sessions stay. Closing one that is not listed
/// changes nothing.
pub proof fn closing_ends_the_session(
    before: ScreenCastBackend,
    path: Seq<char>,
    send_stop: bool,
    actions: Option<ClosedSession>,
    after: ScreenCastBackend,
)
    requires
        closes(before, path, send_stop, actions, after),
    ensures
        actions is Some <==> before.sessions@.contains_key(path),
        !after.sessions@.contains_key(path),
        forall|other: Seq<char>| #[trigger]
            before.sessions@.contains_key(other) && other != path
                ==> after.sessions@.contains_key(other) && after.sessions@[other]
                == before.sessions@[other],
        before.sessions@.contains_key(path) ==> {
            let session = before.sessions@[path];
            &&& actions->0.closed == session.closed
            &&& session.cast_session is Some ==> !after.cast_paths@.contains_key(
                session.cast_session->0,
            )
            &&& actions->0.message is Some <==> send_stop && session.cast_session is Some
            &&& actions->0.message is Some ==> actions->0.message->0 == (
            ScreenCastToNiri::StopCast { session_id: session.cast_session->0 })
        },
        !before.sessions@.contains_key(path) ==> after.sessions@ == before.sessions@
            && after.cast_paths@ == before.cast_paths@,
{
    if !before.sessions@.contains_key(path) {
        assert(before.sessions@.remove(path) =~= before.sessions@);
    }
}

/// A session is closed once: closing it again does nothing, and calls on it are refused.
pub proof fn sessions_close_once(
    before: ScreenCastBackend,
    path: Seq<char>,
    send_stop: bool,
    actions: Option<ClosedSession>,
    after: ScreenCastBackend,
    send_again: bool,
    again: Option<ClosedSession>,
    later: ScreenCastBackend,
)
    requires
        closes(before, path, send_stop, actions, after),
        closes(after, path, send_again, again, later),
    ensures
        again is None,
        later.sessions@ == after.sessions@,
        later.cast_paths@ == after.cast_paths@,
        forall|sender: Option<String>| session_fault(after.sessions@, sender, path) is Some,
{
    assert(after.sessions@.remove(path) =~= after.sessions@);
}

/// A session is started once: after its start, starting it again and selecting other sources are
/// refused.
pub proof fn sessions_start_once(
    before: Map<Seq<char>, SessionState>,
    path: Seq<char>,
    after: Map<Seq<char>, SessionState>,
)
    requires
        before.contains_key(path),
        after == before.insert(path, (SessionState { started: true, ..before[path] })),
    ensures
        forall|sender: Option<String>| session_fault(after, sender, path) is Some,
{
}

/// Whether every cast leads to a session that it is the cast of.
pub open spec fn casts_have_sessions(
    sessions: Map<Seq<char>, SessionState>,
    cast_paths: Map<u64, String>,
) -> bool {
    forall|cast: u64|
        #![trigger cast_paths.contains_key(cast)]
        cast_paths.contains_key(cast) ==> {
            &&& sessions.contains_key(cast_paths[cast]@)
            &&& sessions[cast_paths[cast]@].cast_session == Some(cast)
        }
}

/// Creating a session, selecting sources and starting it leave each cast with its session, and so
/// does noting the cast of a session that has none yet.
pub proof fn casts_keep_their_sessions(
    sessions: Map<Seq<char>, SessionState>,
    cast_paths: Map<u64, String>,
    path: String,
    state: SessionState,
    cast: u64,
)
    requires
        casts_have_sessions(sessions, cast_paths),
        state.cast_session is None,
        sessions.contains_key(path@) ==> sessions[path@].cast_session is None,
    ensures
        casts_have_sessions(sessions.insert(path@, state), cast_paths),
        casts_have_sessions(
            sessions.insert(path@, (SessionState { cast_session: Some(cast), ..state })),
            cast_paths.insert(cast, path),
        ),
        casts_have_sessions(sessions, cast_paths.remove(cast)),
{
}

/// Closing a session leaves each cast with its session, and no cast leads to the session that was
/// closed.
pub proof fn closed_sessions_have_no_cast(
    before: ScreenCastBackend,
    path: Seq<char>,
    send_stop: bool,
    actions: Option<ClosedSession>,
    after: ScreenCastBackend,
)
    requires
        casts_have_sessions(before.sessions@, before.cast_paths@),
        closes(before, path, send_stop, actions, after),
    ensures
        casts_have_sessions(after.sessions@, after.cast_paths@),
        forall|cast: u64|
            #![trigger after.cast_paths@.contains_key(cast)]
            after.cast_paths@.contains_key(cast) ==> after.cast_paths@[cast]@ != path,
{
    closing_keeps_the_other_casts(
        before.sessions@,
        before.cast_paths@,
        path,
        send_stop,
        actions,
        after.sessions@,
        after.cast_paths@,
    );
}

proof fn closing_keeps_the_other_casts(
    sessions: Map<Seq<char>, SessionState>,
    casts: Map<u64, String>,
    path: Seq<char>,
    send_stop: bool,
    actions: Option<ClosedSession>,
    left_sessions: Map<Seq<char>, SessionState>,
    left_casts: Map<u64, String>,
)
    requires
        casts_have_sessions(sessions, casts),
        closing(sessions, casts, path, send_stop, actions, left_sessions, left_casts),
    ensures
        casts_have_sessions(left_sessions, left_casts),
        forall|cast: u64|
            #![trigger left_casts.contains_key(cast)]
            left_casts.contains_key(cast) ==> left_casts[cast]@ != path,
{
    assert forall|cast: u64|
        #![trigger left_casts.contains_key(cast)]
        left_casts.contains_key(cast) implies {
        &&& left_sessions.contains_key(left_casts[cast]@)
        &&& left_sessions[left_casts[cast]@].cast_session == Some(cast)
    } by {
        assert(casts.contains_key(cast));
    }
}

/// A failed start invalidates its session: no cast leads to it any more, calls on it are refused,
/// and closing it again does nothing. The other casts keep their sessions.
pub proof fn failed_starts_end_the_session(
    before: ScreenCastBackend,
    path: Seq<char>,
    cast_session: u64,
    failed: FailedStart,
    after: ScreenCastBackend,
)
    requires
        casts_have_sessions(before.sessions@, before.cast_paths@),
        fails_start(before, path, cast_session, failed, after),
    ensures
        casts_have_sessions(after.sessions@, after.cast_paths@),
        !after.cast_paths@.contains_key(cast_session),
        forall|cast: u64|
            #![trigger after.cast_paths@.contains_key(cast)]
            after.cast_paths@.contains_key(cast) ==> after.cast_paths@[cast]@ != path,
        forall|sender: Option<String>| session_fault(after.sessions@, sender, path) is Some,
        forall|send_stop: bool, again: Option<ClosedSession>, later: ScreenCastBackend| #[trigger]
            closes(after, path, send_stop, again, later) ==> again is None,
{
    closing_keeps_the_other_casts(
        before.sessions@,
        before.cast_paths@.remove(cast_session),
        path,
        false,
        failed.closed,
        after.sessions@,
        after.cast_paths@,
    );
}

/// What closing a request does.
#[derive(Debug)]
pub enum CloseAction {
    /// The picker drops the request.
    CancelPick(PickerRequestId),
    /// The screenshot is cancelled.
    CancelScreenshot,
}

/// The object of a request that can be closed.
#[derive(Debug)]
pub struct Request {
    pub on_close: Option<CloseAction>,
}

impl Request {
    /// A request with what closing it does.
    pub fn new(on_close: CloseAction) -> (r: Request)
        ensures
            r.on_close == Some(on_close),
    {
        Request { on_close: Some(on_close) }
    }

    /// Closes the request. Only the first time something happens.
    pub fn close(&mut self) -> (action: Option<CloseAction>)
        ensures
            action == old(self).on_close,
            final(self).on_close is None,
    {
        self.on_close.take()
    }
}

/// Whether the object of a request is there and has to be removed when the request is over. The
/// request goes on without its object.
pub fn request_exported(outcome: &ExportOutcome) -> (r: bool)
    ensures
        r == (*outcome is Added),
{
    match outcome {
        ExportOutcome::Added => true,
        _ => false,
    }
}

/// What a screenshot is answered with.
#[derive(Debug, Default, PartialEq, Eq)]
pub struct ScreenshotResults {
    pub uri: Option<String>,
}

/// What picking a color is answered with.
#[derive(Debug, Default, PartialEq, Eq)]
pub struct PickColorResults<C> {
    pub color: Option<C>,
}

/// The screenshot part of the backend.
#[derive(Debug)]
pub struct ScreenshotBackend {}

impl ScreenshotBackend {
    /// The version of the interface.
    pub fn version() -> (v: u32)
        ensures
            v == 2,
    {
        2
    }

    /// The error for a screenshot that could not be asked for; `why` says what went wrong.
    pub fn screenshot_unreachable(why: &str) -> (err: BusError)
        ensures
            err@ == Fault::Failed("error sending screenshot request to niri: "@ + why@),
    {
        BusError::failed_because("error sending screenshot request to niri: ", why)
    }

    /// What the answer to a request for a screenshot amounts to; without one the channel was
    /// closed. The path is absolute.
    pub fn screenshot(received: Option<Result<Vec<u8>, ScreenshotPortalError>>) -> (r: (
        u32,
        ScreenshotResults,
    ))
        ensures
            match received {
                Some(Ok(path)) => r.0 == RESPONSE_SUCCESS && r.1.uri is Some && r.1.uri->0@
                    == uri_of(path@),
                Some(Err(ScreenshotPortalError::Cancelled)) => r.0 == RESPONSE_CANCELLED
                    && r.1.uri is None,
                Some(Err(ScreenshotPortalError::Failed(_))) => r.0 == RESPONSE_ERROR && r.1.uri
                    is None,
                None => r.0 == RESPONSE_ERROR && r.1.uri is None,
            },
    {
        match received {
            Some(Ok(path)) => (
                RESPONSE_SUCCESS,
                ScreenshotResults { uri: Some(file_uri(path.as_slice())) },
            ),
            Some(Err(ScreenshotPortalError::Cancelled)) => (
                RESPONSE_CANCELLED,
                ScreenshotResults { uri: None },
            ),
            Some(Err(ScreenshotPortalError::Failed(_))) => (
                RESPONSE_ERROR,
                ScreenshotResults { uri: None },
            ),
            None => (RESPONSE_ERROR, ScreenshotResults { uri: None }),
        }
    }

    /// The error for a color that could not be asked for; `why` says what went wrong.
    pub fn color_unreachable(why: &str) -> (err: BusError)
        ensures
            err@ == Fault::Failed("error sending pick color request to niri: "@ + why@),
    {
        BusError::failed_because("error sending pick color request to niri: ", why)
    }

    /// What the answer to a request for a color amounts to; without one the channel was closed.
    pub fn pick_color<C>(received: Option<Option<C>>) -> (r: (u32, PickColorResults<C>))
        ensures
            r == (match received {
                Some(Some(color)) => (RESPONSE_SUCCESS, PickColorResults { color: Some(color) }),
                Some(None) => (RESPONSE_CANCELLED, PickColorResults { color: None }),
                None => (RESPONSE_ERROR, PickColorResults { color: None }),
            }),
    {
        match received {
            Some(Some(color)) => (RESPONSE_SUCCESS, PickColorResults { color: Some(color) }),
            Some(None) => (RESPONSE_CANCELLED, PickColorResults { color: None }),
            None => (RESPONSE_ERROR, PickColorResults { color: None }),
        }
    }
}

} // verus!
