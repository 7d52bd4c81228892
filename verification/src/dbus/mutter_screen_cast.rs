//! The screen cast service: clients create sessions, record outputs and windows in them, and get
//! streams of what is recorded.

use std::collections::HashMap;
use vstd::prelude::*;

use crate::assoc::{lists_owned, owned_keys};
use crate::dbus::bus::{sender_from_header, BusError, ExportOutcome, Fault};
use crate::dbus::niri_portal_screen_cast::{
    cancels, CancelledPick, PickSourcesRequest, PickerRequestId, PortalScreenCast,
};
use crate::dbus::outputs::{find_output, output_named, OutputInfo};
use crate::dbus::selection_tokens::{
    after_consume, consumed_targets, without_sender, ConsumeTokenError, Grant,
};
use crate::dbus::target::{StreamTargetId, Target, TargetSet};
use crate::text::{decimal, numbered, numbering_is_injective};

verus! {

broadcast use vstd::std_specs::hash::group_hash_axioms;

/// How the cursor shows up in a stream.
#[derive(Debug, Clone, Copy, PartialEq, Eq, Structural)]
pub enum CursorMode {
    Hidden,
    Embedded,
    Metadata,
}

impl Default for CursorMode {
    fn default() -> (r: CursorMode)
        ensures
            r == CursorMode::Hidden,
    {
        CursorMode::Hidden
    }
}

/// The cursor mode, or the default one if none is given.
pub open spec fn cursor_or_default(mode: Option<CursorMode>) -> CursorMode {
    match mode {
        Some(mode) => mode,
        None => CursorMode::Hidden,
    }
}

/// Where the node id of a stream goes once the stream exists.
#[derive(Debug, PartialEq, Eq)]
pub enum NodeIdSink {
    /// A signal of the stream object at this path.
    MutterSignal(String),
    /// The channel with this number.
    Channel(u64),
}

/// What the services ask of the compositor.
#[derive(Debug)]
pub enum ScreenCastToNiri {
    PickSources(PickSourcesRequest),
    CancelPickSources(PickerRequestId),
    StartCast {
        session_id: u64,
        stream_id: u64,
        target: StreamTargetId,
        cursor_mode: CursorMode,
        node_sink: NodeIdSink,
    },
    StopCast { session_id: u64 },
}

/// What a stream records.
#[derive(Debug, PartialEq, Eq)]
pub enum StreamTarget {
    Output(OutputInfo),
    Window { id: u64 },
}

impl StreamTarget {
    /// The target that the stream records.
    pub open spec fn target(self) -> Target {
        match self {
            StreamTarget::Output(output) => Target::Output(output.name@),
            StreamTarget::Window { id } => Target::Window(id),
        }
    }

    /// Only outputs that stand in the layout are recorded.
    pub open spec fn wf(self) -> bool {
        match self {
            StreamTarget::Output(output) => output.logical is Some,
            StreamTarget::Window { .. } => true,
        }
    }

    /// The target that the stream records.
    pub fn make_id(&self) -> (id: StreamTargetId)
        ensures
            id@ == self.target(),
    {
        match self {
            StreamTarget::Output(output) => StreamTargetId::Output { name: output.name.clone() },
            StreamTarget::Window { id } => StreamTargetId::Window { id: *id },
        }
    }
}

/// Where a stream stands in the layout, and how large it is there. A window stands nowhere.
#[derive(Debug, Clone, Copy, PartialEq, Eq)]
pub struct StreamParameters {
    pub position: Option<(i32, i32)>,
    pub size: Option<(i32, i32)>,
}

/// What a client learns about a stream of `target`. Sizes are sent as signed numbers.
pub open spec fn parameters_of(target: StreamTarget) -> StreamParameters {
    match target {
        StreamTarget::Output(output) => match output.logical {
            Some(logical) => StreamParameters {
                position: Some((logical.x, logical.y)),
                size: Some((logical.width as i32, logical.height as i32)),
            },
            None => StreamParameters { position: None, size: None },
        },
        StreamTarget::Window { .. } => StreamParameters { position: None, size: None },
    }
}

/// The path of the object of a session.
pub open spec fn session_path(id: u64) -> Seq<char> {
    "/org/gnome/Mutter/ScreenCast/Session/u"@ + decimal(id as nat)
}

/// The path of the object of a stream.
pub open spec fn stream_path(id: u64) -> Seq<char> {
    "/org/gnome/Mutter/ScreenCast/Stream/u"@ + decimal(id as nat)
}

/// Different sessions have different paths, and so have different streams.
pub proof fn paths_are_distinct(a: u64, b: u64)
    ensures
        session_path(a) == session_path(b) ==> a == b,
        stream_path(a) == stream_path(b) ==> a == b,
{
    if session_path(a) == session_path(b) {
        numbering_is_injective(
            "/org/gnome/Mutter/ScreenCast/Session/u"@,
            a as nat,
            b as nat,
        );
    }
    if stream_path(a) == stream_path(b) {
        numbering_is_injective("/org/gnome/Mutter/ScreenCast/Stream/u"@, a as nat, b as nat);
    }
}

/// A stream of a session.
#[derive(Debug)]
pub struct Stream {
    pub id: u64,
    pub session_id: u64,
    pub target: StreamTarget,
    pub cursor_mode: CursorMode,
    pub was_started: bool,
}

/// Whether `message` asks the compositor to start the stream.
pub open spec fn starts(message: ScreenCastToNiri, stream: Stream) -> bool {
    match message {
        ScreenCastToNiri::StartCast { session_id, stream_id, target, cursor_mode, node_sink } => {
            &&& session_id == stream.session_id
            &&& stream_id == stream.id
            &&& target@ == stream.target.target()
            &&& cursor_mode == stream.cursor_mode
            &&& node_sink matches NodeIdSink::MutterSignal(path) && path@ == stream_path(stream.id)
        },
        _ => false,
    }
}

impl Stream {
    /// A stream that was not started yet.
    pub fn new(id: u64, session_id: u64, target: StreamTarget, cursor_mode: CursorMode) -> (stream:
        Stream)
        ensures
            stream == (Stream { id, session_id, target, cursor_mode, was_started: false }),
    {
        Stream { id, session_id, target, cursor_mode, was_started: false }
    }

    /// The path of the stream's object.
    pub fn path(&self) -> (path: String)
        ensures
            path@ == stream_path(self.id),
    {
        numbered("/org/gnome/Mutter/ScreenCast/Stream/u", self.id)
    }

    /// Starts the stream, unless it was started before. The result is the message to send.
    pub fn start(&mut self) -> (message: Option<ScreenCastToNiri>)
        ensures
            *final(self) == (Stream { was_started: true, ..*old(self) }),
            match message {
                Some(message) => !old(self).was_started && starts(message, *old(self)),
                None => old(self).was_started,
            },
    {
        if self.was_started {
            return None;
        }
        self.was_started = true;
        Some(
            ScreenCastToNiri::StartCast {
                session_id: self.session_id,
                stream_id: self.id,
                target: self.target.make_id(),
                cursor_mode: self.cursor_mode,
                node_sink: NodeIdSink::MutterSignal(self.path()),
            },
        )
    }

    /// Where the stream stands in the layout. Sizes are sent as signed numbers.
    pub fn parameters(&self) -> (r: StreamParameters)
        requires
            self.target.wf(),
        ensures
            match self.target {
                StreamTarget::Output(output) => {
                    let logical = output.logical->0;
                    &&& r.position == Some((logical.x, logical.y))
                    &&& r.size == Some((logical.width as i32, logical.height as i32))
                },
                StreamTarget::Window { .. } => r.position is None && r.size is None,
            },
            r == parameters_of(self.target),
    {
        match &self.target {
            StreamTarget::Output(output) => match output.logical {
                Some(logical) => StreamParameters {
                    position: Some((logical.x, logical.y)),
                    size: Some((logical.width as i32, logical.height as i32)),
                },
                None => StreamParameters { position: None, size: None },
            },
            StreamTarget::Window { .. } => StreamParameters { position: None, size: None },
        }
    }
}

/// Whether a session may record `target`: a session without a list of targets may record anything.
pub open spec fn authorized(targets: Option<TargetSet>, target: Target) -> bool {
    match targets {
        Some(targets) => targets@.contains(target),
        None => true,
    }
}

/// Whether a session may record `target`.
pub fn target_is_authorized(authorized_targets: Option<&TargetSet>, target: &StreamTargetId) -> (r:
    bool)
    ensures
        r == (match authorized_targets {
            Some(targets) => targets@.contains(target@),
            None => true,
        }),
{
    match authorized_targets {
        Some(targets) => targets.contains(target),
        None => true,
    }
}

/// A session of a client.
#[derive(Debug)]
pub struct Session {
    pub id: u64,
    pub owner: String,
    pub streams: Vec<Stream>,
    pub stopped: bool,
    pub authorized_targets: Option<TargetSet>,
}

/// What has to happen when a session stops: its end is signalled, the compositor is told, and its
/// objects are removed.
#[derive(Debug)]
pub struct StopActions {
    pub message: ScreenCastToNiri,
    pub streams: Vec<Stream>,
}

/// Why a call of `sender` on a session is refused, if it is.
pub open spec fn call_fault(session: Session, sender: Option<String>) -> Option<Fault> {
    match sender {
        None => Some(Fault::Failed("D-Bus call has no sender"@)),
        Some(sender) => if sender@ != session.owner@ {
            Some(Fault::AccessDenied("screen cast session belongs to another D-Bus client"@))
        } else {
            None
        },
    }
}

/// Why a session does not record `target` for `sender`, if it does not.
pub open spec fn record_fault(session: Session, sender: Option<String>, target: Target) -> Option<
    Fault,
> {
    match call_fault(session, sender) {
        Some(fault) => Some(fault),
        None => if session.stopped {
            Some(Fault::Failed("screen cast session is closed"@))
        } else if !authorized(session.authorized_targets, target) {
            Some(Fault::AccessDenied("target was not authorized by the screen cast picker"@))
        } else {
            None
        },
    }
}

/// Why a session does not record the output named `connector` for `sender`, if it does not.
pub open spec fn record_monitor_fault(
    session: Session,
    sender: Option<String>,
    connector: Seq<char>,
    outputs: Seq<OutputInfo>,
) -> Option<Fault> {
    match record_fault(session, sender, Target::Output(connector)) {
        Some(fault) => Some(fault),
        None => match output_named(outputs, connector) {
            None => Some(Fault::Failed("no such monitor"@)),
            Some(output) => if output.logical is None {
                Some(Fault::Failed("monitor is disabled"@))
            } else {
                None
            },
        },
    }
}

/// The streams of a session after it was started.
pub open spec fn started(streams: Seq<Stream>) -> Seq<Stream> {
    Seq::new(streams.len(), |i: int| Stream { was_started: true, ..streams[i] })
}

/// Whether `messages` ask to start those of the first `n` streams that were not started yet, in
/// order.
pub open spec fn starts_each(messages: Seq<ScreenCastToNiri>, streams: Seq<Stream>, n: nat) -> bool
    decreases n,
{
    if n == 0 {
        messages.len() == 0
    } else if streams[n - 1].was_started {
        starts_each(messages, streams, (n - 1) as nat)
    } else {
        &&& messages.len() > 0
        &&& starts(messages.last(), streams[n - 1])
        &&& starts_each(messages.drop_last(), streams, (n - 1) as nat)
    }
}

/// A stream is started once: starting a session again asks for nothing.
pub proof fn streams_start_once(streams: Seq<Stream>, messages: Seq<ScreenCastToNiri>, n: nat)
    requires
        n <= streams.len(),
        starts_each(messages, started(streams), n),
    ensures
        messages.len() == 0,
    decreases n,
{
    if n > 0 {
        streams_start_once(streams, messages, (n - 1) as nat);
    }
}

impl Session {
    /// Every stream of the session belongs to it and records what the session may record.
    pub open spec fn wf(self) -> bool {
        forall|i: int|
            0 <= i < self.streams@.len() ==> {
                &&& (#[trigger] self.streams@[i]).session_id == self.id
                &&& self.streams@[i].target.wf()
                &&& authorized(self.authorized_targets, self.streams@[i].target.target())
            }
    }

    /// A session without streams.
    pub fn new(id: u64, owner: String, authorized_targets: Option<TargetSet>) -> (session: Session)
        ensures
            session.wf(),
            session.id == id,
            session.owner == owner,
            session.authorized_targets == authorized_targets,
            session.streams@.len() == 0,
            !session.stopped,
    {
        Session { id, owner, streams: Vec::new(), stopped: false, authorized_targets }
    }

    /// The path of the session's object.
    pub fn path(&self) -> (path: String)
        ensures
            path@ == session_path(self.id),
    {
        numbered("/org/gnome/Mutter/ScreenCast/Session/u", self.id)
    }

    fn ensure_owner(&self, sender: Option<String>) -> (r: Result<(), BusError>)
        ensures
            match call_fault(*self, sender) {
                Some(fault) => r is Err && r->Err_0@ == fault,
                None => r is Ok,
            },
    {
        let sender = match sender_from_header(sender) {
            Ok(sender) => sender,
            Err(err) => {
                return Err(err);
            },
        };
        if sender != self.owner {
            return Err(
                BusError::access_denied("screen cast session belongs to another D-Bus client"),
            );
        }
        Ok(())
    }

    fn ensure_open(&self) -> (r: Result<(), BusError>)
        ensures
            if self.stopped {
                r is Err && r->Err_0@ == Fault::Failed("screen cast session is closed"@)
            } else {
                r is Ok
            },
    {
        if self.stopped {
            return Err(BusError::failed("screen cast session is closed"));
        }
        Ok(())
    }

    fn authorize_target(&self, target: &StreamTargetId) -> (r: Result<(), BusError>)
        ensures
            if authorized(self.authorized_targets, target@) {
                r is Ok
            } else {
                r is Err && r->Err_0@ == Fault::AccessDenied(
                    "target was not authorized by the screen cast picker"@,
                )
            },
    {
        if !target_is_authorized(self.authorized_targets.as_ref(), target) {
            return Err(
                BusError::access_denied("target was not authorized by the screen cast picker"),
            );
        }
        Ok(())
    }

    /// Starts the streams that were not started yet. The result are the messages to send.
    pub fn start(&mut self, sender: Option<String>) -> (r: Result<Vec<ScreenCastToNiri>, BusError>)
        requires
            old(self).wf(),
        ensures
            final(self).wf(),
            match call_fault(*old(self), sender) {
                Some(fault) => r is Err && r->Err_0@ == fault && *final(self) == *old(self),
                None => if old(self).stopped {
                    r is Err && r->Err_0@ == Fault::Failed("screen cast session is closed"@)
                        && *final(self) == *old(self)
                } else {
                    &&& r is Ok
                    &&& starts_each(r->Ok_0@, old(self).streams@, old(self).streams@.len())
                    &&& final(self).streams@ == started(old(self).streams@)
                    &&& *final(self) == (Session { streams: final(self).streams, ..*old(self) })
                },
            },
    {
        match self.ensure_owner(sender) {
            Ok(_) => {},
            Err(err) => {
                return Err(err);
            },
        }
        match self.ensure_open() {
            Ok(_) => {},
            Err(err) => {
                return Err(err);
            },
        }
        let ghost before = self.streams@;
        let mut messages: Vec<ScreenCastToNiri> = Vec::new();
        let count: usize = self.streams.len();
        for i in 0..count
            invariant
                count == before.len(),
                self.streams@.len() == before.len(),
                starts_each(messages@, before, i as nat),
                forall|j: int|
                    0 <= j < i ==> self.streams@[j] == (Stream { was_started: true, ..before[j] }),
                forall|j: int| i <= j < before.len() ==> self.streams@[j] == before[j],
                *self == (Session { streams: self.streams, ..*old(self) }),
        {
            let ghost sent = messages@;
            let message = self.streams[i].start();
            if let Some(message) = message {
                messages.push(message);
                assert(messages@.drop_last() =~= sent);
            }
        }
        assert(self.streams@ =~= started(before));
        Ok(messages)
    }

    /// Checks whether the output named `connector` can be recorded for `sender`.
    pub fn record_monitor(
        &self,
        sender: Option<String>,
        connector: &str,
        outputs: &Vec<OutputInfo>,
    ) -> (r: Result<StreamTarget, BusError>)
        ensures
            match record_monitor_fault(*self, sender, connector@, outputs@) {
                Some(fault) => r is Err && r->Err_0@ == fault,
                None => r == Ok::<StreamTarget, BusError>(
                    StreamTarget::Output(output_named(outputs@, connector@)->0),
                ),
            },
    {
        match self.ensure_owner(sender) {
            Ok(_) => {},
            Err(err) => {
                return Err(err);
            },
        }
        match self.ensure_open() {
            Ok(_) => {},
            Err(err) => {
                return Err(err);
            },
        }
        match self.authorize_target(&StreamTargetId::Output { name: connector.to_owned() }) {
            Ok(_) => {},
            Err(err) => {
                return Err(err);
            },
        }
        let output = match find_output(outputs, connector) {
            Some(output) => output,
            None => {
                return Err(BusError::failed("no such monitor"));
            },
        };
        if output.logical.is_none() {
            return Err(BusError::failed("monitor is disabled"));
        }
        Ok(StreamTarget::Output(output.clone()))
    }

    /// Checks whether a window can be recorded for `sender`.
    pub fn record_window(&self, sender: Option<String>, window_id: u64) -> (r: Result<
        StreamTarget,
        BusError,
    >)
        ensures
            match record_fault(*self, sender, Target::Window(window_id)) {
                Some(fault) => r is Err && r->Err_0@ == fault,
                None => r == Ok::<StreamTarget, BusError>(StreamTarget::Window { id: window_id }),
            },
    {
        match self.ensure_owner(sender) {
            Ok(_) => {},
            Err(err) => {
                return Err(err);
            },
        }
        match self.ensure_open() {
            Ok(_) => {},
            Err(err) => {
                return Err(err);
            },
        }
        match self.authorize_target(&StreamTargetId::Window { id: window_id }) {
            Ok(_) => {},
            Err(err) => {
                return Err(err);
            },
        }
        Ok(StreamTarget::Window { id: window_id })
    }

    /// The stream that records `target` under the number `stream_id`.
    pub fn new_stream(
        &self,
        stream_id: u64,
        target: StreamTarget,
        cursor_mode: Option<CursorMode>,
    ) -> (stream: Stream)
        ensures
            stream == (Stream {
                id: stream_id,
                session_id: self.id,
                target,
                cursor_mode: cursor_or_default(cursor_mode),
                was_started: false,
            }),
    {
        let cursor_mode = match cursor_mode {
            Some(mode) => mode,
            None => CursorMode::default(),
        };
        Stream::new(stream_id, self.id, target, cursor_mode)
    }

    /// Takes in a stream whose object was to be exported. The result is the path of the object.
    pub fn add_stream(&mut self, stream: Stream, outcome: ExportOutcome) -> (r: Result<
        String,
        BusError,
    >)
        requires
            old(self).wf(),
            stream.session_id == old(self).id,
            stream.target.wf(),
            authorized(old(self).authorized_targets, stream.target.target()),
        ensures
            final(self).wf(),
            match outcome {
                ExportOutcome::Added => {
                    &&& r is Ok && r->Ok_0@ == stream_path(stream.id)
                    &&& final(self).streams@ == old(self).streams@.push(stream)
                    &&& *final(self) == (Session { streams: final(self).streams, ..*old(self) })
                },
                ExportOutcome::Exists => r is Err && r->Err_0@ == Fault::Failed(
                    "stream path already exists"@,
                ) && *final(self) == *old(self),
                ExportOutcome::Failed(why) => r is Err && r->Err_0@ == Fault::Failed(
                    "error creating stream object: "@ + why@,
                ) && *final(self) == *old(self),
            },
    {
        match outcome {
            ExportOutcome::Added => {
                let path = stream.path();
                self.streams.push(stream);
                Ok(path)
            },
            ExportOutcome::Exists => Err(BusError::failed("stream path already exists")),
            ExportOutcome::Failed(why) => Err(
                BusError::failed_because("error creating stream object: ", why.as_str()),
            ),
        }
    }

    /// Stops the session on behalf of `sender`.
    pub fn stop(&mut self, sender: Option<String>) -> (r: Result<Option<StopActions>, BusError>)
        ensures
            match call_fault(*old(self), sender) {
                Some(fault) => r is Err && r->Err_0@ == fault && *final(self) == *old(self),
                None => r is Ok && stops(*old(self), r->Ok_0, *final(self)),
            },
    {
        match self.ensure_owner(sender) {
            Ok(_) => {},
            Err(err) => {
                return Err(err);
            },
        }
        Ok(self.stop_internal())
    }

    /// Stops the session on behalf of the compositor.
    pub fn stop_from_compositor(&mut self) -> (actions: Option<StopActions>)
        ensures
            stops(*old(self), actions, *final(self)),
    {
        self.stop_internal()
    }

    /// Stops the session, unless it was stopped before.
    pub fn stop_internal(&mut self) -> (actions: Option<StopActions>)
        ensures
            stops(*old(self), actions, *final(self)),
    {
        if self.stopped {
            return None;
        }
        self.stopped = true;
        let mut streams: Vec<Stream> = Vec::new();
        std::mem::swap(&mut streams, &mut self.streams);
        Some(StopActions { message: ScreenCastToNiri::StopCast { session_id: self.id }, streams })
    }
}

/// Stopping a session leads from `before` to `after` and asks for `actions`: the first stop takes
/// all streams and tells the compositor, and later ones do nothing.
pub open spec fn stops(before: Session, actions: Option<StopActions>, after: Session) -> bool {
    match actions {
        Some(actions) => {
            &&& !before.stopped
            &&& actions.message == (ScreenCastToNiri::StopCast { session_id: before.id })
            &&& actions.streams == before.streams
            &&& after.streams@.len() == 0
            &&& after == (Session { stopped: true, streams: after.streams, ..before })
        },
        None => before.stopped && after == before,
    }
}

/// A session stops once: after a stop, another one does nothing, and nothing is recorded.
pub proof fn sessions_stop_once(
    before: Session,
    actions: Option<StopActions>,
    after: Session,
    again: Option<StopActions>,
    later: Session,
)
    requires
        stops(before, actions, after),
        stops(after, again, later),
    ensures
        again is None,
        later == after,
        forall|sender: Option<String>, target: Target|
            record_fault(after, sender, target) is Some,
{
}

/// What a client says about the session that it wants.
#[derive(Debug, Default)]
pub struct CreateSessionProperties {
    pub remote_desktop_session_id: Option<String>,
    pub selection_token: Option<Vec<u8>>,
}

/// Who a new session belongs to, and what it may record.
#[derive(Debug)]
pub struct SessionGrant {
    pub owner: String,
    pub authorized_targets: Option<TargetSet>,
}

/// Why a session is not created, if it is not.
pub open spec fn create_fault(
    sender: Option<String>,
    properties: CreateSessionProperties,
    tokens: Map<Seq<u8>, Grant>,
) -> Option<Fault> {
    if properties.remote_desktop_session_id is Some {
        Some(Fault::Failed("there are no remote desktop sessions"@))
    } else {
        match sender {
            None => Some(Fault::Failed("D-Bus call has no sender"@)),
            Some(sender) => match properties.selection_token {
                None => None,
                Some(token) => match consumed_targets(tokens, sender@, token@) {
                    Ok(_) => None,
                    Err(ConsumeTokenError::InvalidLength) => Some(
                        Fault::InvalidArgs("selection-token has an invalid length"@),
                    ),
                    Err(ConsumeTokenError::Invalid) => Some(
                        Fault::AccessDenied("invalid selection-token"@),
                    ),
                },
            },
        }
    }
}

/// What happens when a client leaves the bus: its picker request is cancelled, and its sessions
/// are stopped.
#[derive(Debug)]
pub struct ClientGone {
    pub cancelled: Option<CancelledPick>,
    pub sessions: Vec<u64>,
}

/// The screen cast service. `sessions` says who owns each session.
#[derive(Debug)]
pub struct ScreenCast {
    pub portal: PortalScreenCast,
    pub sessions: HashMap<u64, String>,
}

impl ScreenCast {
    /// No token is listed twice.
    pub open spec fn wf(self) -> bool {
        self.portal.tokens.wf()
    }

    /// The version of the interface.
    pub fn version() -> (v: i32)
        ensures
            v == 4,
    {
        4
    }

    /// A service without sessions.
    pub fn new() -> (r: ScreenCast)
        ensures
            r.wf(),
            r.portal.requests.pending is None,
            r.portal.tokens@ == Map::<Seq<u8>, Grant>::empty(),
            r.sessions@ == Map::<u64, String>::empty(),
    {
        ScreenCast { portal: PortalScreenCast::new(), sessions: HashMap::new() }
    }

    /// Checks whether `sender` may create a session. A selection token is used up, and the session
    /// may then record only what the token stands for.
    pub fn create_session(
        &mut self,
        sender: Option<String>,
        properties: CreateSessionProperties,
    ) -> (r: Result<SessionGrant, BusError>)
        requires
            old(self).wf(),
        ensures
            final(self).wf(),
            final(self).sessions == old(self).sessions,
            final(self).portal.requests == old(self).portal.requests,
            final(self).portal.tokens@ == (if properties.remote_desktop_session_id is None
                && sender is Some && properties.selection_token is Some {
                after_consume(
                    old(self).portal.tokens@,
                    sender->0@,
                    properties.selection_token->0@,
                )
            } else {
                old(self).portal.tokens@
            }),
            match create_fault(sender, properties, old(self).portal.tokens@) {
                Some(fault) => r is Err && r->Err_0@ == fault,
                None => {
                    &&& r is Ok
                    &&& r->Ok_0.owner == sender->0
                    &&& match properties.selection_token {
                        Some(token) => r->Ok_0.authorized_targets is Some
                            && r->Ok_0.authorized_targets->0@ == consumed_targets(
                            old(self).portal.tokens@,
                            sender->0@,
                            token@,
                        )->Ok_0,
                        None => r->Ok_0.authorized_targets is None,
                    }
                },
            },
    {
        if properties.remote_desktop_session_id.is_some() {
            return Err(BusError::failed("there are no remote desktop sessions"));
        }
        let owner = match sender_from_header(sender) {
            Ok(owner) => owner,
            Err(err) => {
                return Err(err);
            },
        };
        let authorized_targets = match properties.selection_token {
            Some(token) => {
                match self.portal.tokens.consume(owner.as_str(), token.as_slice()) {
                    Ok(targets) => Some(targets),
                    Err(ConsumeTokenError::InvalidLength) => {
                        return Err(
                            BusError::invalid_args("selection-token has an invalid length"),
                        );
                    },
                    Err(ConsumeTokenError::Invalid) => {
                        return Err(BusError::access_denied("invalid selection-token"));
                    },
                }
            },
            None => None,
        };
        Ok(SessionGrant { owner, authorized_targets })
    }

    /// Takes in a session whose object was to be exported. The result is the path of the object.
    pub fn add_session(&mut self, session: &Session, outcome: ExportOutcome) -> (r: Result<
        String,
        BusError,
    >)
        requires
            old(self).wf(),
        ensures
            final(self).wf(),
            final(self).portal == old(self).portal,
            match outcome {
                ExportOutcome::Added => {
                    &&& r is Ok && r->Ok_0@ == session_path(session.id)
                    &&& final(self).sessions@ == old(self).sessions@.insert(
                        session.id,
                        session.owner,
                    )
                },
                ExportOutcome::Exists => r is Err && r->Err_0@ == Fault::Failed(
                    "session path already exists"@,
                ) && final(self).sessions@ == old(self).sessions@,
                ExportOutcome::Failed(why) => r is Err && r->Err_0@ == Fault::Failed(
                    "error creating session object: "@ + why@,
                ) && final(self).sessions@ == old(self).sessions@,
            },
    {
        match outcome {
            ExportOutcome::Added => {
                let _ = self.sessions.insert(session.id, session.owner.clone());
                Ok(session.path())
            },
            ExportOutcome::Exists => Err(BusError::failed("session path already exists")),
            ExportOutcome::Failed(why) => Err(
                BusError::failed_because("error creating session object: ", why.as_str()),
            ),
        }
    }

    /// Forgets a session whose object was removed.
    pub fn remove_session(&mut self, id: u64)
        requires
            old(self).wf(),
        ensures
            final(self).wf(),
            final(self).portal == old(self).portal,
            final(self).sessions@ == old(self).sessions@.remove(id),
    {
        let _ = self.sessions.remove(&id);
    }

    /// The sessions of a client, each once, in some order.
    pub fn sessions_of(&self, owner: &String) -> (ids: Vec<u64>)
        ensures
            lists_owned(ids@, self.sessions@, owner@),
    {
        owned_keys(&self.sessions, owner.as_str())
    }

    /// Forgets a client that left the bus.
    pub fn client_disconnected(&mut self, owner: &String) -> (gone: ClientGone)
        requires
            old(self).wf(),
        ensures
            final(self).wf(),
            final(self).sessions == old(self).sessions,
            lists_owned(gone.sessions@, old(self).sessions@, owner@),
            final(self).portal.tokens@ == without_sender(old(self).portal.tokens@, owner@),
            if old(self).portal.requests.pending is Some
                && old(self).portal.requests.pending->0.id.sender@ == owner@ {
                gone.cancelled is Some && cancels(
                    old(self).portal.requests,
                    old(self).portal.requests.pending->0.id,
                    gone.cancelled,
                    final(self).portal.requests,
                )
            } else {
                gone.cancelled is None && final(self).portal.requests == old(self).portal.requests
            },
    {
        let cancelled = self.portal.client_disconnected(owner.as_str());
        let sessions = self.sessions_of(owner);
        ClientGone { cancelled, sessions }
    }
}

/// A session that was created with a selection token records only what the user picked: whatever
/// it records is one of the targets that the token was granted for.
pub proof fn token_sessions_record_only_what_was_picked(
    sender: Option<String>,
    properties: CreateSessionProperties,
    tokens: Map<Seq<u8>, Grant>,
    session: Session,
    caller: Option<String>,
    target: Target,
)
    requires
        properties.selection_token is Some,
        create_fault(sender, properties, tokens) is None,
        session.authorized_targets is Some,
        session.authorized_targets->0@ == consumed_targets(
            tokens,
            sender->0@,
            properties.selection_token->0@,
        )->Ok_0,
        record_fault(session, caller, target) is None,
    ensures
        tokens.contains_key(properties.selection_token->0@),
        tokens[properties.selection_token->0@].sender == sender->0@,
        tokens[properties.selection_token->0@].targets.contains(target),
{
}

} // verus!
