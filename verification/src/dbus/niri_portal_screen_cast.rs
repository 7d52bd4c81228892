//! The private picker service: it has the user pick sources on behalf of a client and hands the
//! client a token that proves the choice.

use vstd::prelude::*;

use crate::dbus::bus::{
    sender_from_header, BusError, Fault, RESPONSE_CANCELLED, RESPONSE_ERROR, RESPONSE_SUCCESS,
};
use crate::dbus::picker_options::{
    PickSourcesOptionsDict, PickerOptions, PickerPersistMode, PickerSourceTypes,
};
use crate::dbus::selection_tokens::{
    without_sender, Grant, IssueTokenError, SelectionTokens, SELECTION_TOKEN_LEN,
};
use crate::dbus::target::{list_contains, targets_of, StreamTargetId, Target};

verus! {

/// Names a picker request: the client that made it and the handle that the client chose.
#[derive(Debug, PartialEq, Eq)]
pub struct PickerRequestId {
    pub sender: String,
    pub handle: String,
}

/// A [`PickerRequestId`] as a mathematical value.
pub struct RequestKey {
    pub sender: Seq<char>,
    pub handle: Seq<char>,
}

impl View for PickerRequestId {
    type V = RequestKey;

    open spec fn view(&self) -> RequestKey {
        RequestKey { sender: self.sender@, handle: self.handle@ }
    }
}

impl Clone for PickerRequestId {
    fn clone(&self) -> (r: Self)
        ensures
            r == *self,
    {
        PickerRequestId { sender: self.sender.clone(), handle: self.handle.clone() }
    }
}

impl PickerRequestId {
    /// Whether both name the same request.
    pub fn same(&self, other: &PickerRequestId) -> (r: bool)
        ensures
            r == (self@ == other@),
    {
        self.sender == other.sender && self.handle == other.handle
    }
}

/// What the user picked.
#[derive(Debug, PartialEq, Eq)]
pub struct PickerSelection {
    pub sources: Vec<StreamTargetId>,
    pub persist_mode: PickerPersistMode,
}

/// How a picker request ended.
#[derive(Debug, PartialEq, Eq)]
pub enum PickSourcesReply {
    Selected(PickerSelection),
    Cancelled,
    Failed(String),
}

/// A [`PickSourcesReply`] as a mathematical value.
pub enum Reply {
    Selected(Seq<Target>, PickerPersistMode),
    Cancelled,
    Failed(Seq<char>),
}

impl View for PickSourcesReply {
    type V = Reply;

    open spec fn view(&self) -> Reply {
        match self {
            PickSourcesReply::Selected(selection) => Reply::Selected(
                targets_of(selection.sources@),
                selection.persist_mode,
            ),
            PickSourcesReply::Cancelled => Reply::Cancelled,
            PickSourcesReply::Failed(message) => Reply::Failed(message@),
        }
    }
}

/// A request to show the picker. `reply` is the number of the channel that waits for the answer.
#[derive(Debug)]
pub struct PickSourcesRequest {
    pub id: PickerRequestId,
    pub options: PickerOptions,
    pub reply: u64,
}

/// An answer and the number of the channel that it goes to.
#[derive(Debug, PartialEq, Eq)]
pub struct OutgoingReply {
    pub reply: u64,
    pub message: PickSourcesReply,
}

/// An [`OutgoingReply`] as a mathematical value.
pub struct SentReply {
    pub channel: u64,
    pub message: Reply,
}

impl View for OutgoingReply {
    type V = SentReply;

    open spec fn view(&self) -> SentReply {
        SentReply { channel: self.reply, message: self.message@ }
    }
}

impl PickSourcesRequest {
    /// Answers the request with a failure.
    pub fn fail(self, message: &str) -> (sent: OutgoingReply)
        ensures
            sent@ == (SentReply { channel: self.reply, message: Reply::Failed(message@) }),
    {
        OutgoingReply { reply: self.reply, message: PickSourcesReply::Failed(message.to_owned()) }
    }
}

/// Whether a client that accepts `types` accepts `target`.
pub open spec fn target_allowed(types: PickerSourceTypes, target: Target) -> bool {
    match target {
        Target::Output(_) => types.monitor,
        Target::Window(_) => types.window,
    }
}

/// What is wrong with the first `n` of the selected targets: the first target that the client
/// did not ask for or that occurred before it decides.
pub open spec fn targets_fault(types: PickerSourceTypes, targets: Seq<Target>, n: nat) -> Option<
    Seq<char>,
>
    decreases n,
{
    if n == 0 {
        None
    } else {
        let i = n - 1;
        match targets_fault(types, targets, i as nat) {
            Some(text) => Some(text),
            None => if !target_allowed(types, targets[i]) {
                Some("selection contains a source type that was not requested"@)
            } else if targets.take(i).contains(targets[i]) {
                Some("selection contains duplicate sources"@)
            } else {
                None
            },
        }
    }
}

/// What is wrong with a selection for a request with the given options, if anything is.
pub open spec fn selection_fault(
    types: PickerSourceTypes,
    multiple: bool,
    requested: PickerPersistMode,
    targets: Seq<Target>,
    persist_mode: PickerPersistMode,
) -> Option<Seq<char>> {
    if targets.len() == 0 {
        Some("selection is empty"@)
    } else if !multiple && targets.len() != 1 {
        Some("multiple sources were selected when multiple is false"@)
    } else if persist_mode.number() > requested.number() {
        Some("selection persist mode exceeds the requested mode"@)
    } else {
        targets_fault(types, targets, targets.len())
    }
}

/// What is wrong with `targets` as the answer to a request with these options.
pub open spec fn fault_for(
    options: PickerOptions,
    targets: Seq<Target>,
    persist_mode: PickerPersistMode,
) -> Option<Seq<char>> {
    selection_fault(
        options.source_types,
        options.multiple,
        options.persist_mode,
        targets,
        persist_mode,
    )
}

proof fn fault_stays(types: PickerSourceTypes, targets: Seq<Target>, n: nat, m: nat)
    requires
        n <= m,
        targets_fault(types, targets, n) is Some,
    ensures
        targets_fault(types, targets, m) == targets_fault(types, targets, n),
    decreases m,
{
    if n < m {
        fault_stays(types, targets, n, (m - 1) as nat);
    }
}

/// Holds a selection against the request that it answers.
pub fn validate_selection(options: &PickerOptions, selection: PickerSelection) -> (r: Result<
    (Vec<StreamTargetId>, PickerPersistMode),
    &'static str,
>)
    ensures
        match fault_for(*options, targets_of(selection.sources@), selection.persist_mode) {
            Some(text) => r is Err && r->Err_0@ == text,
            None => r == Ok::<_, &'static str>((selection.sources, selection.persist_mode)),
        },
{
    if selection.sources.len() == 0 {
        return Err("selection is empty");
    }
    if !options.multiple && selection.sources.len() != 1 {
        return Err("multiple sources were selected when multiple is false");
    }
    if selection.persist_mode.value() > options.persist_mode.value() {
        return Err("selection persist mode exceeds the requested mode");
    }
    let ghost targets = targets_of(selection.sources@);
    let mut unique: Vec<StreamTargetId> = Vec::new();
    assert(targets_of(unique@) =~= targets.take(0));
    for i in 0..selection.sources.len()
        invariant
            targets == targets_of(selection.sources@),
            targets_of(unique@) == targets.take(i as int),
            targets_fault(options.source_types, targets, i as nat) is None,
            targets.len() > 0,
            !(!options.multiple && targets.len() != 1),
            selection.persist_mode.number() <= options.persist_mode.number(),
    {
        let source = &selection.sources[i];
        let allowed = match source {
            StreamTargetId::Output { .. } => options.source_types.contains(
                PickerSourceTypes::monitors(),
            ),
            StreamTargetId::Window { .. } => options.source_types.contains(
                PickerSourceTypes::windows(),
            ),
        };
        assert(allowed == target_allowed(options.source_types, targets[i as int]));
        if !allowed {
            proof {
                fault_stays(options.source_types, targets, (i + 1) as nat, targets.len());
            }
            return Err("selection contains a source type that was not requested");
        }
        if list_contains(&unique, source) {
            proof {
                fault_stays(options.source_types, targets, (i + 1) as nat, targets.len());
            }
            return Err("selection contains duplicate sources");
        }
        let ghost before = unique@;
        unique.push(source.clone());
        assert(targets_of(unique@) =~= targets_of(before).push(targets[i as int]));
        assert(targets.take(i as int).push(targets[i as int]) =~= targets.take(i + 1));
    }
    Ok((selection.sources, selection.persist_mode))
}

/// How one picked source is described to the client.
#[derive(Debug, PartialEq, Eq)]
pub struct PickerSourceProperties {
    pub connector: Option<String>,
    pub window_id: Option<u64>,
}

/// One entry of the list of picked sources as a mathematical value.
pub struct SourceEntry {
    pub kind: u32,
    pub connector: Option<Seq<char>>,
    pub window_id: Option<u64>,
}

/// The entry that describes `target`: its kind, and its connector or its window id.
pub open spec fn entry_for(target: Target) -> SourceEntry {
    match target {
        Target::Output(name) => SourceEntry { kind: 1, connector: Some(name), window_id: None },
        Target::Window(id) => SourceEntry { kind: 2, connector: None, window_id: Some(id) },
    }
}

/// What an entry of the list of picked sources holds.
pub open spec fn entry_view(entry: (u32, PickerSourceProperties)) -> SourceEntry {
    SourceEntry {
        kind: entry.0,
        connector: crate::text::opt_text(entry.1.connector),
        window_id: entry.1.window_id,
    }
}

/// The entry that describes a picked source.
pub fn source_result(source: StreamTargetId) -> (entry: (u32, PickerSourceProperties))
    ensures
        entry_view(entry) == entry_for(source@),
{
    match source {
        StreamTargetId::Output { name } => (
            PickerSourceTypes::monitors().bits(),
            PickerSourceProperties { connector: Some(name), window_id: None },
        ),
        StreamTargetId::Window { id } => (
            PickerSourceTypes::windows().bits(),
            PickerSourceProperties { connector: None, window_id: Some(id) },
        ),
    }
}

/// The results of a picker request as they go onto the bus.
#[derive(Debug, Default, PartialEq, Eq)]
pub struct PickSourcesResults {
    pub sources: Option<Vec<(u32, PickerSourceProperties)>>,
    pub persist_mode: Option<u32>,
    pub selection_token: Option<Vec<u8>>,
}

impl PickSourcesResults {
    /// Whether the results are those of a request that granted nothing.
    pub open spec fn is_blank(self) -> bool {
        self.sources is None && self.persist_mode is None && self.selection_token is None
    }

    /// Whether the results describe `targets` in order, with the given mode and token.
    pub open spec fn describes(
        self,
        targets: Seq<Target>,
        persist_mode: PickerPersistMode,
        token: Seq<u8>,
    ) -> bool {
        &&& self.sources is Some
        &&& self.sources->0@.len() == targets.len()
        &&& forall|i: int|
            0 <= i < targets.len() ==> entry_view(#[trigger] self.sources->0@[i]) == entry_for(
                targets[i],
            )
        &&& self.persist_mode == Some(persist_mode.number())
        &&& self.selection_token is Some
        &&& self.selection_token->0@ == token
    }

    /// The results of a request that granted nothing.
    pub fn blank() -> (r: PickSourcesResults)
        ensures
            r.is_blank(),
    {
        PickSourcesResults { sources: None, persist_mode: None, selection_token: None }
    }

    /// The results of a request that granted `sources` under `token`.
    pub fn granted(
        sources: &Vec<StreamTargetId>,
        persist_mode: PickerPersistMode,
        token: Vec<u8>,
    ) -> (r: PickSourcesResults)
        ensures
            r.describes(targets_of(sources@), persist_mode, token@),
    {
        let mut entries: Vec<(u32, PickerSourceProperties)> = Vec::new();
        for i in 0..sources.len()
            invariant
                entries@.len() == i,
                forall|j: int|
                    0 <= j < i ==> entry_view(#[trigger] entries@[j]) == entry_for(sources@[j]@),
        {
            entries.push(source_result(sources[i].clone()));
        }
        PickSourcesResults {
            sources: Some(entries),
            persist_mode: Some(persist_mode.value()),
            selection_token: Some(token),
        }
    }
}

/// A picker request that was not answered yet.
#[derive(Debug)]
pub struct PendingPickerRequest {
    pub id: PickerRequestId,
    pub reply: u64,
}

/// The picker request that is pending, if one is. There is at most one.
#[derive(Debug)]
pub struct PickerRequestState {
    pub pending: Option<PendingPickerRequest>,
}

impl PickerRequestState {
    /// Whether the request `key` is the pending one.
    pub open spec fn is_pending(self, key: RequestKey) -> bool {
        self.pending is Some && self.pending->0.id@ == key
    }

    /// No request is pending.
    pub fn new() -> (state: PickerRequestState)
        ensures
            state.pending is None,
    {
        PickerRequestState { pending: None }
    }

    /// Makes `id` the pending request, unless another one is pending.
    pub fn begin(&mut self, id: PickerRequestId, reply: u64) -> (begun: bool)
        ensures
            begun == (old(self).pending is None),
            begun ==> final(self).pending == Some(PendingPickerRequest { id, reply }),
            !begun ==> *final(self) == *old(self),
    {
        if self.pending.is_some() {
            return false;
        }
        self.pending = Some(PendingPickerRequest { id, reply });
        true
    }

    /// Whether the request `id` is the pending one.
    fn matches(&self, id: &PickerRequestId) -> (r: bool)
        ensures
            r == self.is_pending(id@),
    {
        match &self.pending {
            Some(pending) => pending.id.same(id),
            None => false,
        }
    }

    /// Settles the request `id`, if it is the pending one.
    pub fn complete(&mut self, id: &PickerRequestId) -> (done: bool)
        ensures
            done == old(self).is_pending(id@),
            final(self).pending == (if done {
                None
            } else {
                old(self).pending
            }),
    {
        if !self.matches(id) {
            return false;
        }
        self.pending = None;
        true
    }

    /// Cancels the request `id`, if it is the pending one, and returns the answer to send.
    pub fn cancel(&mut self, id: &PickerRequestId) -> (sent: Option<OutgoingReply>)
        ensures
            match sent {
                Some(sent) => old(self).is_pending(id@) && sent@ == (SentReply {
                    channel: old(self).pending->0.reply,
                    message: Reply::Cancelled,
                }) && final(self).pending is None,
                None => !old(self).is_pending(id@) && *final(self) == *old(self),
            },
    {
        if !self.matches(id) {
            return None;
        }
        match self.pending.take() {
            Some(pending) => Some(
                OutgoingReply { reply: pending.reply, message: PickSourcesReply::Cancelled },
            ),
            None => None,
        }
    }

    /// The pending request, if `sender` made it.
    pub fn pending_for_sender(&self, sender: &str) -> (r: Option<PickerRequestId>)
        ensures
            r == (if self.pending is Some && self.pending->0.id.sender@ == sender@ {
                Some(self.pending->0.id)
            } else {
                None
            }),
    {
        match &self.pending {
            Some(pending) => {
                if crate::text::same_text(pending.id.sender.as_str(), sender) {
                    Some(pending.id.clone())
                } else {
                    None
                }
            },
            None => None,
        }
    }
}

/// The claim of a call in progress on the pending request.
#[derive(Debug)]
pub struct ActivePickerRequest {
    pub id: PickerRequestId,
    pub active: bool,
}

/// A request that was cancelled: the answer for the caller, and the request that the picker has
/// to drop.
#[derive(Debug)]
pub struct CancelledPick {
    pub reply: OutgoingReply,
    pub id: PickerRequestId,
}

impl ActivePickerRequest {
    /// Gives up the claim, and settles the request if it is still the pending one.
    pub fn complete(&mut self, requests: &mut PickerRequestState) -> (done: bool)
        ensures
            done == (old(self).active && old(requests).is_pending(old(self).id@)),
            *final(self) == (ActivePickerRequest { active: false, ..*old(self) }),
            final(requests).pending == (if done {
                None
            } else {
                old(requests).pending
            }),
    {
        if !self.active {
            return false;
        }
        self.active = false;
        requests.complete(&self.id)
    }

    /// What happens when the call goes away: a claim that was not given up cancels the request.
    pub fn abandon(&mut self, requests: &mut PickerRequestState) -> (r: Option<CancelledPick>)
        ensures
            *final(self) == (ActivePickerRequest { active: false, ..*old(self) }),
            match r {
                Some(cancelled) => {
                    &&& old(self).active && old(requests).is_pending(old(self).id@)
                    &&& cancelled.id == old(self).id
                    &&& cancelled.reply@ == (SentReply {
                        channel: old(requests).pending->0.reply,
                        message: Reply::Cancelled,
                    })
                    &&& final(requests).pending is None
                },
                None => {
                    &&& !(old(self).active && old(requests).is_pending(old(self).id@))
                    &&& *final(requests) == *old(requests)
                },
            },
    {
        if !self.active {
            return None;
        }
        self.active = false;
        match requests.cancel(&self.id) {
            Some(reply) => Some(CancelledPick { reply, id: self.id.clone() }),
            None => None,
        }
    }
}

/// A picker request that has to be shown.
#[derive(Debug)]
pub struct StartedPick {
    pub active: ActivePickerRequest,
    pub options: PickerOptions,
    pub request: PickSourcesRequest,
}

/// How a call for the picker goes on.
#[derive(Debug)]
pub enum BegunPick {
    /// The request has to be shown.
    Show(StartedPick),
    /// The call ends with this response and these results.
    Answer(u32, PickSourcesResults),
}

/// What the answer of the picker means for the caller.
#[derive(Debug, PartialEq, Eq)]
pub enum PickSettled {
    /// The call ends with this response and no results.
    Respond(u32),
    /// The user picked these sources.
    Accept(Vec<StreamTargetId>, PickerPersistMode),
}

/// What the answer `reply` means for a caller with these options, while the request is pending.
pub open spec fn settles_as(options: PickerOptions, reply: PickSourcesReply) -> PickSettled {
    match reply {
        PickSourcesReply::Selected(selection) => match fault_for(
            options,
            targets_of(selection.sources@),
            selection.persist_mode,
        ) {
            Some(_) => PickSettled::Respond(RESPONSE_ERROR),
            None => PickSettled::Accept(selection.sources, selection.persist_mode),
        },
        PickSourcesReply::Cancelled => PickSettled::Respond(RESPONSE_CANCELLED),
        PickSourcesReply::Failed(_) => PickSettled::Respond(RESPONSE_ERROR),
    }
}

/// What the answer `reply` means for a caller with these options. An answer to a request that is
/// not pending any more counts as a cancellation.
pub open spec fn settles_while(
    pending: bool,
    options: PickerOptions,
    reply: PickSourcesReply,
) -> PickSettled {
    if pending {
        settles_as(options, reply)
    } else {
        PickSettled::Respond(RESPONSE_CANCELLED)
    }
}

/// The text of an error of the random number source, as `getrandom::Error` displays it. The
/// operating system may word it, so nothing is promised of the text.
#[verifier::external_body]
fn random_error_text(err: &getrandom::Error) -> (text: String) {
    format!("{err}")
}

/// The picker service.
#[derive(Debug)]
pub struct PortalScreenCast {
    pub requests: PickerRequestState,
    pub tokens: SelectionTokens,
}

impl PortalScreenCast {
    /// The version of the interface.
    pub fn version() -> (v: u32)
        ensures
            v == 1,
    {
        1
    }

    /// A service without requests and tokens.
    pub fn new() -> (portal: PortalScreenCast)
        ensures
            portal.requests.pending is None,
            portal.tokens.wf(),
            portal.tokens@ == Map::<Seq<u8>, Grant>::empty(),
    {
        PortalScreenCast { requests: PickerRequestState::new(), tokens: SelectionTokens::new() }
    }

    /// Begins a picker request.
    ///
    /// Without an error, the result is the request to show, or what the call is answered with
    /// because another request is pending.
    pub fn pick_sources(
        &mut self,
        sender: Option<String>,
        request_handle: String,
        options: PickSourcesOptionsDict,
        reply: u64,
    ) -> (r: Result<BegunPick, BusError>)
        ensures
            final(self).tokens == old(self).tokens,
            match options.fault() {
                Some(text) => r is Err && r->Err_0@ == Fault::InvalidArgs(text) && *final(self)
                    == *old(self),
                None => if sender is None {
                    r is Err && r->Err_0@ == Fault::Failed("D-Bus call has no sender"@)
                        && *final(self) == *old(self)
                } else if old(self).requests.pending is Some {
                    &&& r is Ok && r->Ok_0 is Answer
                    &&& r->Ok_0->Answer_0 == RESPONSE_ERROR
                    &&& r->Ok_0->Answer_1.is_blank()
                    &&& *final(self) == *old(self)
                } else {
                    &&& r is Ok && r->Ok_0 is Show
                    &&& r->Ok_0->Show_0.active == (ActivePickerRequest {
                        id: (PickerRequestId { sender: sender->0, handle: request_handle }),
                        active: true,
                    })
                    &&& r->Ok_0->Show_0.request == (PickSourcesRequest {
                        id: r->Ok_0->Show_0.active.id,
                        options: r->Ok_0->Show_0.options,
                        reply,
                    })
                    &&& r->Ok_0->Show_0.options.follows(options)
                    &&& final(self).requests.pending == Some(
                        PendingPickerRequest { id: r->Ok_0->Show_0.active.id, reply },
                    )
                },
            },
    {
        let options = match PickerOptions::try_from(options) {
            Ok(options) => options,
            Err(err) => {
                return Err(BusError::invalid_args(err));
            },
        };
        let sender = match sender_from_header(sender) {
            Ok(sender) => sender,
            Err(err) => {
                return Err(err);
            },
        };
        let id = PickerRequestId { sender, handle: request_handle };
        if !self.requests.begin(id.clone(), reply) {
            return Ok(BegunPick::Answer(RESPONSE_ERROR, PickSourcesResults::blank()));
        }
        let active = ActivePickerRequest { id: id.clone(), active: true };
        let request = PickSourcesRequest { id, options: options.clone(), reply };
        Ok(BegunPick::Show(StartedPick { active, options, request }))
    }

    /// The error for the caller when the request cannot be handed to the picker; `why` says what
    /// went wrong. The request is settled.
    pub fn picker_unreachable(&mut self, active: &mut ActivePickerRequest, why: &str) -> (err:
        BusError)
        ensures
            err@ == Fault::Failed("error sending picker request to niri: "@ + why@),
            *final(active) == (ActivePickerRequest { active: false, ..*old(active) }),
            final(self).tokens == old(self).tokens,
            final(self).requests.pending == (if old(active).active
                && old(self).requests.is_pending(old(active).id@) {
                None
            } else {
                old(self).requests.pending
            }),
    {
        let _ = active.complete(&mut self.requests);
        BusError::failed_because("error sending picker request to niri: ", why)
    }

    /// The error for the caller when the picker went away without an answer; `why` says how. The
    /// request is settled.
    pub fn reply_lost(&mut self, active: &mut ActivePickerRequest, why: &str) -> (err: BusError)
        ensures
            err@ == Fault::Failed("picker reply channel closed: "@ + why@),
            *final(active) == (ActivePickerRequest { active: false, ..*old(active) }),
            final(self).tokens == old(self).tokens,
            final(self).requests.pending == (if old(active).active
                && old(self).requests.is_pending(old(active).id@) {
                None
            } else {
                old(self).requests.pending
            }),
    {
        let _ = active.complete(&mut self.requests);
        BusError::failed_because("picker reply channel closed: ", why)
    }

    /// Settles the request with the answer of the picker.
    ///
    /// An answer to a request that is no longer pending counts as a cancellation.
    pub fn settle(
        &mut self,
        active: &mut ActivePickerRequest,
        options: &PickerOptions,
        reply: PickSourcesReply,
    ) -> (r: PickSettled)
        ensures
            r == settles_while(
                old(active).active && old(self).requests.is_pending(old(active).id@),
                *options,
                reply,
            ),
            *final(active) == (ActivePickerRequest { active: false, ..*old(active) }),
            final(self).tokens == old(self).tokens,
            final(self).requests.pending == (if old(active).active
                && old(self).requests.is_pending(old(active).id@) {
                None
            } else {
                old(self).requests.pending
            }),
    {
        if !active.complete(&mut self.requests) {
            return PickSettled::Respond(RESPONSE_CANCELLED);
        }
        match reply {
            PickSourcesReply::Selected(selection) => match validate_selection(options, selection) {
                Ok((sources, persist_mode)) => PickSettled::Accept(sources, persist_mode),
                Err(_) => PickSettled::Respond(RESPONSE_ERROR),
            },
            PickSourcesReply::Cancelled => PickSettled::Respond(RESPONSE_CANCELLED),
            PickSourcesReply::Failed(_) => PickSettled::Respond(RESPONSE_ERROR),
        }
    }

    /// Ends the call with what the answer of the picker means; picked sources are granted to the
    /// caller under a fresh token.
    pub fn finish_pick(
        &mut self,
        active: &mut ActivePickerRequest,
        options: &PickerOptions,
        reply: PickSourcesReply,
    ) -> (r: Result<(u32, PickSourcesResults), BusError>)
        requires
            old(self).tokens.wf(),
        ensures
            final(self).tokens.wf(),
            *final(active) == (ActivePickerRequest { active: false, ..*old(active) }),
            final(self).requests.pending == (if old(active).active
                && old(self).requests.is_pending(old(active).id@) {
                None
            } else {
                old(self).requests.pending
            }),
            ({
                let settled = settles_while(
                    old(active).active && old(self).requests.is_pending(old(active).id@),
                    *options,
                    reply,
                );
                match settled {
                    PickSettled::Respond(code) => r is Ok && r->Ok_0.0 == code
                        && r->Ok_0.1.is_blank() && final(self).tokens@ == old(self).tokens@,
                    PickSettled::Accept(sources, persist_mode) => match r {
                        Ok((code, results)) => {
                            &&& code == RESPONSE_SUCCESS
                            &&& results.selection_token is Some
                            &&& results.selection_token->0@.len() == SELECTION_TOKEN_LEN
                            &&& results.describes(
                                targets_of(sources@),
                                persist_mode,
                                results.selection_token->0@,
                            )
                            &&& !old(self).tokens@.contains_key(results.selection_token->0@)
                            &&& final(self).tokens@ == old(self).tokens@.insert(
                                results.selection_token->0@,
                                (Grant {
                                    sender: old(active).id.sender@,
                                    targets: targets_of(sources@).to_set(),
                                }),
                            )
                        },
                        Err(err) => {
                            &&& exists|why: Seq<char>|
                                err@ == Fault::Failed(
                                    #[trigger] ("error generating selection token: "@ + why),
                                )
                            &&& final(self).tokens@ == old(self).tokens@
                        },
                    },
                }
            }),
    {
        match self.settle(active, options, reply) {
            PickSettled::Respond(code) => Ok((code, PickSourcesResults::blank())),
            PickSettled::Accept(sources, persist_mode) => {
                match self.tokens.issue(active.id.sender.as_str(), &sources) {
                    Ok(token) => Ok(
                        (
                            RESPONSE_SUCCESS,
                            PickSourcesResults::granted(&sources, persist_mode, token),
                        ),
                    ),
                    Err(err) => {
                        let why = match err {
                            IssueTokenError::Random(err) => random_error_text(&err),
                            IssueTokenError::Exhausted => "every token is in use".to_owned(),
                        };
                        Err(
                            BusError::failed_because(
                                "error generating selection token: ",
                                why.as_str(),
                            ),
                        )
                    },
                }
            },
        }
    }

    /// Cancels a request on behalf of the client that made it.
    pub fn cancel(&mut self, sender: Option<String>, request_handle: String) -> (r: Result<
        Option<CancelledPick>,
        BusError,
    >)
        ensures
            final(self).tokens == old(self).tokens,
            match sender {
                None => r is Err && r->Err_0@ == Fault::Failed("D-Bus call has no sender"@)
                    && *final(self) == *old(self),
                Some(sender) => {
                    let id = PickerRequestId { sender, handle: request_handle };
                    &&& r is Ok
                    &&& cancels(old(self).requests, id, r->Ok_0, final(self).requests)
                },
            },
    {
        let sender = match sender_from_header(sender) {
            Ok(sender) => sender,
            Err(err) => {
                return Err(err);
            },
        };
        let id = PickerRequestId { sender, handle: request_handle };
        Ok(self.cancel_request(&id))
    }

    /// Cancels the request `id`, if it is the pending one.
    pub fn cancel_request(&mut self, id: &PickerRequestId) -> (r: Option<CancelledPick>)
        ensures
            final(self).tokens == old(self).tokens,
            cancels(old(self).requests, *id, r, final(self).requests),
    {
        match self.requests.cancel(id) {
            Some(reply) => Some(CancelledPick { reply, id: id.clone() }),
            None => None,
        }
    }

    /// Forgets a client that left the bus: its tokens die and its request is cancelled.
    pub fn client_disconnected(&mut self, sender: &str) -> (r: Option<CancelledPick>)
        requires
            old(self).tokens.wf(),
        ensures
            final(self).tokens.wf(),
            final(self).tokens@ == without_sender(old(self).tokens@, sender@),
            if old(self).requests.pending is Some && old(self).requests.pending->0.id.sender@
                == sender@ {
                r is Some && cancels(
                    old(self).requests,
                    old(self).requests.pending->0.id,
                    r,
                    final(self).requests,
                )
            } else {
                r is None && final(self).requests == old(self).requests
            },
    {
        self.tokens.remove_sender(sender);
        match self.requests.pending_for_sender(sender) {
            Some(id) => self.cancel_request(&id),
            None => None,
        }
    }
}

/// Cancelling the request `id` leads from `before` to `after` and has the effect `r`: only the
/// pending request can be cancelled, it is answered on its channel, and then none is pending.
pub open spec fn cancels(
    before: PickerRequestState,
    id: PickerRequestId,
    r: Option<CancelledPick>,
    after: PickerRequestState,
) -> bool {
    match r {
        Some(cancelled) => {
            &&& before.is_pending(id@)
            &&& cancelled.id == id
            &&& cancelled.reply@ == (SentReply {
                channel: before.pending->0.reply,
                message: Reply::Cancelled,
            })
            &&& after.pending is None
        },
        None => !before.is_pending(id@) && after == before,
    }
}

/// A selection passes the check exactly if it is not empty, holds one source unless several were
/// asked for, is remembered no longer than asked for, holds only kinds that were asked for, and
/// holds no source twice.
pub proof fn selection_is_valid_iff(
    types: PickerSourceTypes,
    multiple: bool,
    requested: PickerPersistMode,
    targets: Seq<Target>,
    persist_mode: PickerPersistMode,
)
    ensures
        selection_fault(types, multiple, requested, targets, persist_mode) is None <==> {
            &&& targets.len() > 0
            &&& multiple || targets.len() == 1
            &&& persist_mode.number() <= requested.number()
            &&& forall|i: int| 0 <= i < targets.len() ==> target_allowed(types, targets[i])
            &&& targets.no_duplicates()
        },
{
    targets_are_valid_iff(types, targets, targets.len());
    assert(targets.take(targets.len() as int) =~= targets);
}

proof fn targets_are_valid_iff(types: PickerSourceTypes, targets: Seq<Target>, n: nat)
    requires
        n <= targets.len(),
    ensures
        targets_fault(types, targets, n) is None <==> {
            &&& forall|i: int| 0 <= i < n ==> target_allowed(types, targets[i])
            &&& targets.take(n as int).no_duplicates()
        },
    decreases n,
{
    if n > 0 {
        let i = n - 1;
        targets_are_valid_iff(types, targets, i as nat);
        let head = targets.take(i);
        let more = targets.take(n as int);
        assert(more =~= head.push(targets[i]));
        if targets_fault(types, targets, n) is None {
            assert(more.no_duplicates()) by {
                assert forall|a: int, b: int|
                    0 <= a < more.len() && 0 <= b < more.len() && a != b implies more[a]
                    != more[b] by {
                    if a < i && b < i {
                        assert(head[a] != head[b]);
                    } else if a < i {
                        assert(head.contains(head[a]));
                    } else {
                        assert(head.contains(head[b]));
                    }
                }
            }
        }
        if more.no_duplicates() {
            assert(head.no_duplicates()) by {
                assert forall|a: int, b: int|
                    0 <= a < head.len() && 0 <= b < head.len() && a != b implies head[a]
                    != head[b] by {
                    assert(more[a] == head[a] && more[b] == head[b]);
                }
            }
            if head.contains(targets[i]) {
                let a = choose|a: int| 0 <= a < head.len() && head[a] == targets[i];
                assert(more[a] == more[i]);
            }
        }
    }
}

/// At most one request is pending.
pub proof fn only_one_request_is_pending(
    state: PickerRequestState,
    one: RequestKey,
    other: RequestKey,
)
    requires
        state.is_pending(one),
        state.is_pending(other),
    ensures
        one == other,
{
}

/// A cancelled request stays cancelled: neither cancelling nor completing it again does anything,
/// so its caller is answered once.
pub proof fn cancellation_happens_once(
    before: PickerRequestState,
    id: PickerRequestId,
    r: Option<CancelledPick>,
    after: PickerRequestState,
)
    requires
        cancels(before, id, r, after),
        r is Some,
    ensures
        forall|key: RequestKey| !after.is_pending(key),
{
}

/// A cancellation wins over an answer that was not settled yet: whatever the picker answered, the
/// caller of a cancelled request learns that it was cancelled.
pub proof fn cancellation_wins_over_reply(
    before: PickerRequestState,
    r: Option<CancelledPick>,
    after: PickerRequestState,
    active: ActivePickerRequest,
    options: PickerOptions,
    reply: PickSourcesReply,
)
    requires
        cancels(before, active.id, r, after),
        r is Some,
    ensures
        settles_while(
            active.active && after.is_pending(active.id@),
            options,
            reply,
        ) == PickSettled::Respond(RESPONSE_CANCELLED),
{
}

} // verus!
