//! The services: who may record what, and how requests for the picker are answered.

use vstd::prelude::*;
use vstd::std_specs::cmp::PartialEqSpec;

use crate::assoc::{lists_owned, without_owned, Owned};
use crate::dbus::bus::{
    BusError, Fault, RESPONSE_CANCELLED, RESPONSE_ERROR, RESPONSE_SUCCESS,
};
use crate::dbus::freedesktop_portal::properties_of;
use crate::dbus::mutter_screen_cast::{
    authorized, call_fault, create_fault, cursor_or_default, parameters_of, record_fault,
    record_monitor_fault, session_path, started, starts, starts_each, stops, stream_path,
    CreateSessionProperties, CursorMode, ScreenCastToNiri, Session, StopActions, Stream, StreamTarget,
};
use crate::dbus::niri_portal_screen_cast::{
    cancels, entry_for, entry_view, fault_for, selection_fault, settles_as, settles_while,
    target_allowed, targets_fault, CancelledPick, OutgoingReply, PickSettled, PickSourcesReply,
    PickSourcesResults, PickerRequestId, PickerRequestState, PickerSourceProperties, Reply,
};
use crate::dbus::outputs::{output_named, OutputInfo};
use crate::dbus::picker_options::{PickerOptions, PickerPersistMode, PickerSourceTypes};
use crate::dbus::selection_tokens::{
    after_consume, consumed_targets, without_sender, Grant,
};
use crate::dbus::target::{targets_of, StreamTargetId, Target, TargetSet};

verus! {

/// A token is accepted exactly if it has the length of a token, was issued and not used yet, and is
/// used by the client that it was issued to. It gives the targets that it was issued for.
pub proof fn tokens_are_accepted_iff(
    grants: Map<Seq<u8>, Grant>,
    sender: Seq<char>,
    token: Seq<u8>,
)
    ensures
        consumed_targets(grants, sender, token) is Ok <==> token.len() == 32
            && grants.contains_key(token) && grants[token].sender == sender,
        consumed_targets(grants, sender, token) is Ok ==> consumed_targets(
            grants,
            sender,
            token,
        )->Ok_0 == grants[token].targets,
        token.len() != 32 ==> consumed_targets(grants, sender, token)->Err_0 is InvalidLength,
        token.len() == 32 && consumed_targets(grants, sender, token) is Err ==> consumed_targets(
            grants,
            sender,
            token,
        )->Err_0 is Invalid,
{
}

/// Using a token takes that token away if it is accepted, and nothing else, whoever uses it.
pub proof fn using_a_token_leaves_the_others(
    grants: Map<Seq<u8>, Grant>,
    sender: Seq<char>,
    token: Seq<u8>,
    other: Seq<u8>,
)
    ensures
        other != token ==> (after_consume(grants, sender, token).contains_key(other)
            <==> grants.contains_key(other)),
        other != token && grants.contains_key(other) ==> after_consume(grants, sender, token)[other]
            == grants[other],
        after_consume(grants, sender, token).contains_key(token) <==> grants.contains_key(token)
            && !(token.len() == 32 && grants[token].sender == sender),
        after_consume(grants, sender, token).contains_key(token) ==> after_consume(
            grants,
            sender,
            token,
        )[token] == grants[token],
{
}

/// A client that leaves takes its own tokens with it, and no others.
pub proof fn clients_take_their_tokens_along(
    grants: Map<Seq<u8>, Grant>,
    gone: Seq<char>,
    token: Seq<u8>,
)
    ensures
        without_sender(grants, gone).contains_key(token) <==> grants.contains_key(token)
            && grants[token].sender != gone,
        without_sender(grants, gone).contains_key(token) ==> without_sender(grants, gone)[token]
            == grants[token],
{
}

/// What a client owns is listed once each, and exactly that is dropped when it leaves.
pub proof fn owners_keep_their_own<Q, V: Owned>(
    keys: Seq<Q>,
    map: Map<Q, V>,
    owner: Seq<char>,
    key: Q,
)
    requires
        lists_owned(keys, map, owner),
    ensures
        (exists|i: int| 0 <= i < keys.len() && keys[i] == key) <==> map.contains_key(key)
            && map[key].owned_by(owner),
        forall|i: int, j: int| 0 <= i < j < keys.len() ==> keys[i] != keys[j],
        without_owned(map, owner).contains_key(key) <==> map.contains_key(key)
            && !map[key].owned_by(owner),
        without_owned(map, owner).contains_key(key) ==> without_owned(map, owner)[key] == map[key],
{
    if exists|i: int| 0 <= i < keys.len() && keys[i] == key {
        assert(keys.contains(key));
    }
    if map.contains_key(key) && map[key].owned_by(owner) {
        assert(keys.contains(key));
    }
}

/// An output is picked only if outputs were asked for, and a window only if windows were.
pub proof fn kinds_are_picked_as_asked_for(types: PickerSourceTypes, name: Seq<char>, id: u64)
    ensures
        target_allowed(types, Target::Output(name)) <==> types.monitor,
        target_allowed(types, Target::Window(id)) <==> types.window,
{
}

/// A selection that is refused is refused for the first thing that is wrong with it: that it is
/// empty, that it holds several sources where one was asked for, or that it is to be remembered for
/// longer than asked for.
pub proof fn selections_are_refused_with_a_reason(
    types: PickerSourceTypes,
    multiple: bool,
    requested: PickerPersistMode,
    targets: Seq<Target>,
    persist_mode: PickerPersistMode,
)
    ensures
        ({
            let fault = selection_fault(types, multiple, requested, targets, persist_mode);
            let longer = (requested is Never && !(persist_mode is Never)) || (requested is Transient
                && persist_mode is Persistent);
            let several = !multiple && targets.len() > 1;
            &&& targets.len() == 0 ==> fault == Some("selection is empty"@)
            &&& several ==> fault == Some("multiple sources were selected when multiple is false"@)
            &&& targets.len() > 0 && !several && longer ==> fault == Some(
                "selection persist mode exceeds the requested mode"@,
            )
            &&& targets.len() > 0 && !several && !longer ==> fault == targets_fault(
                types,
                targets,
                targets.len(),
            )
        }),
{
}

/// Of the sources of a selection the first bad one decides: one of a kind that was not asked for, or
/// one that occurred before.
pub proof fn the_first_bad_source_decides(
    types: PickerSourceTypes,
    targets: Seq<Target>,
    i: int,
    n: nat,
)
    requires
        0 <= i < n <= targets.len(),
        forall|j: int|
            0 <= j < i ==> {
                &&& (#[trigger] targets[j]) is Output ==> types.monitor
                &&& targets[j] is Window ==> types.window
            },
        forall|j: int, k: int| 0 <= j < k < i ==> targets[j] != targets[k],
    ensures
        targets[i] is Output && !types.monitor ==> targets_fault(types, targets, n) == Some(
            "selection contains a source type that was not requested"@,
        ),
        targets[i] is Window && !types.window ==> targets_fault(types, targets, n) == Some(
            "selection contains a source type that was not requested"@,
        ),
        (targets[i] is Output ==> types.monitor) && (targets[i] is Window ==> types.window) && (
        exists|j: int| 0 <= j < i && targets[j] == targets[i]) ==> targets_fault(types, targets, n)
            == Some("selection contains duplicate sources"@),
    decreases n,
{
    if n > i + 1 {
        the_first_bad_source_decides(types, targets, i, (n - 1) as nat);
    } else {
        no_fault_before(types, targets, i as nat);
        if exists|j: int| 0 <= j < i && targets[j] == targets[i] {
            let j = choose|j: int| 0 <= j < i && targets[j] == targets[i];
            assert(targets.take(i)[j] == targets[i]);
        }
    }
}

proof fn no_fault_before(types: PickerSourceTypes, targets: Seq<Target>, n: nat)
    requires
        n <= targets.len(),
        forall|j: int|
            0 <= j < n ==> {
                &&& (#[trigger] targets[j]) is Output ==> types.monitor
                &&& targets[j] is Window ==> types.window
            },
        forall|j: int, k: int| 0 <= j < k < n ==> targets[j] != targets[k],
    ensures
        targets_fault(types, targets, n) is None,
    decreases n,
{
    if n > 0 {
        no_fault_before(types, targets, (n - 1) as nat);
        assert(targets[n - 1] == targets[n - 1]);
        let head = targets.take(n - 1);
        if head.contains(targets[n - 1]) {
            let j = choose|j: int| 0 <= j < head.len() && head[j] == targets[n - 1];
            assert(targets[j] == targets[n - 1]);
        }
    }
}

/// A client learns which source was picked: the kind of an output is one and it comes with its
/// connector, the kind of a window is two and it comes with its id, and neither comes with the
/// other.
pub proof fn picked_sources_are_described(
    target: Target,
    entry: (u32, PickerSourceProperties),
)
    requires
        entry_view(entry) == entry_for(target),
    ensures
        target is Output ==> entry.0 == 1 && entry.1.connector is Some && entry.1.connector->0@
            == target->Output_0 && entry.1.window_id is None,
        target is Window ==> entry.0 == 2 && entry.1.connector is None && entry.1.window_id == Some(
            target->Window_0,
        ),
{
}

/// The results of a request describe every picked source in order, say for how long the choice is
/// remembered, and carry the token.
pub proof fn results_describe_every_source(
    results: PickSourcesResults,
    targets: Seq<Target>,
    persist_mode: PickerPersistMode,
    token: Seq<u8>,
    i: int,
)
    requires
        results.describes(targets, persist_mode, token),
    ensures
        results.sources is Some && results.sources->0@.len() == targets.len(),
        0 <= i < targets.len() && targets[i] is Output ==> results.sources->0@[i].0 == 1
            && results.sources->0@[i].1.connector is Some && results.sources->0@[i].1.connector->0@
            == targets[i]->Output_0,
        0 <= i < targets.len() && targets[i] is Window ==> results.sources->0@[i].0 == 2
            && results.sources->0@[i].1.window_id == Some(targets[i]->Window_0),
        persist_mode is Never ==> results.persist_mode == Some(0u32),
        persist_mode is Transient ==> results.persist_mode == Some(1u32),
        persist_mode is Persistent ==> results.persist_mode == Some(2u32),
        results.selection_token is Some && results.selection_token->0@ == token,
{
    if 0 <= i < targets.len() {
        picked_sources_are_described(targets[i], results.sources->0@[i]);
    }
}

/// A caller whose request is pending gets what the user picked, if it is what was asked for, and
/// else learns that the request failed, or that it was cancelled. One whose request is not pending
/// any more learns that it was cancelled.
pub proof fn callers_learn_how_the_picking_ended(options: PickerOptions, reply: PickSourcesReply)
    ensures
        settles_while(false, options, reply) == PickSettled::Respond(1),
        settles_while(true, options, reply) == settles_as(options, reply),
        reply is Cancelled ==> settles_as(options, reply) == PickSettled::Respond(1),
        reply is Failed ==> settles_as(options, reply) == PickSettled::Respond(2),
        reply is Selected ==> {
            let selection = reply->Selected_0;
            let fault = selection_fault(
                options.source_types,
                options.multiple,
                options.persist_mode,
                targets_of(selection.sources@),
                selection.persist_mode,
            );
            &&& fault is Some ==> settles_as(options, reply) == PickSettled::Respond(2)
            &&& fault is None ==> settles_as(options, reply) == PickSettled::Accept(
                selection.sources,
                selection.persist_mode,
            )
        },
{
}

/// A selection is held against the options of its request, each against the one that it is about.
pub proof fn selections_are_held_against_their_request(
    options: PickerOptions,
    targets: Seq<Target>,
    persist_mode: PickerPersistMode,
)
    ensures
        fault_for(options, targets, persist_mode) == selection_fault(
            options.source_types,
            options.multiple,
            options.persist_mode,
            targets,
            persist_mode,
        ),
{
}

/// Only the client that made a request can cancel it, and only by the handle that it chose. The
/// caller is answered on its channel, and afterwards no request is pending. Any other cancellation
/// changes nothing.
pub proof fn requests_are_cancelled_by_their_client(
    before: PickerRequestState,
    id: PickerRequestId,
    r: Option<CancelledPick>,
    after: PickerRequestState,
)
    requires
        cancels(before, id, r, after),
    ensures
        r is Some <==> before.pending is Some && before.pending->0.id.sender@ == id.sender@
            && before.pending->0.id.handle@ == id.handle@,
        r is Some ==> r->0.id == id && r->0.reply.reply == before.pending->0.reply
            && r->0.reply.message is Cancelled && after.pending is None,
        r is None ==> after.pending == before.pending,
{
}

/// A session starts those of its streams that were not started: each of them is asked for.
pub proof fn every_new_stream_is_started(
    messages: Seq<ScreenCastToNiri>,
    streams: Seq<Stream>,
    n: nat,
    i: int,
) -> (m: int)
    requires
        0 <= i < n <= streams.len(),
        starts_each(messages, streams, n),
        !streams[i].was_started,
    ensures
        0 <= m < messages.len(),
        starts(messages[m], streams[i]),
    decreases n,
{
    if i == n - 1 {
        messages.len() - 1
    } else if streams[n - 1].was_started {
        every_new_stream_is_started(messages, streams, (n - 1) as nat, i)
    } else {
        let head = messages.drop_last();
        let m = every_new_stream_is_started(head, streams, (n - 1) as nat, i);
        assert(messages[m] == head[m]);
        m
    }
}

/// A session starts nothing but those of its streams that were not started.
pub proof fn only_new_streams_are_started(
    messages: Seq<ScreenCastToNiri>,
    streams: Seq<Stream>,
    n: nat,
    m: int,
) -> (i: int)
    requires
        n <= streams.len(),
        starts_each(messages, streams, n),
        0 <= m < messages.len(),
    ensures
        0 <= i < n,
        !streams[i].was_started,
        starts(messages[m], streams[i]),
    decreases n,
{
    if streams[n - 1].was_started {
        only_new_streams_are_started(messages, streams, (n - 1) as nat, m)
    } else if m == messages.len() - 1 {
        n - 1
    } else {
        let head = messages.drop_last();
        assert(messages[m] == head[m]);
        only_new_streams_are_started(head, streams, (n - 1) as nat, m)
    }
}

/// The streams of a session that was never started are started once each, in order.
pub proof fn new_sessions_start_their_streams_in_order(
    messages: Seq<ScreenCastToNiri>,
    streams: Seq<Stream>,
    n: nat,
)
    requires
        n <= streams.len(),
        starts_each(messages, streams, n),
        forall|i: int| 0 <= i < n ==> !(#[trigger] streams[i]).was_started,
    ensures
        messages.len() == n,
        forall|i: int| 0 <= i < n ==> starts(#[trigger] messages[i], streams[i]),
    decreases n,
{
    if n > 0 {
        assert(!streams[n - 1].was_started);
        let head = messages.drop_last();
        new_sessions_start_their_streams_in_order(head, streams, (n - 1) as nat);
        assert forall|i: int| 0 <= i < n implies starts(#[trigger] messages[i], streams[i]) by {
            if i < n - 1 {
                assert(head[i] == messages[i]);
            }
        }
    }
}

/// A stream is started with its own numbers and its own cursor mode, on what it records, and its
/// node is signalled by its own object.
pub proof fn streams_are_started_as_they_are(message: ScreenCastToNiri, stream: Stream)
    requires
        starts(message, stream),
    ensures
        message is StartCast,
        message->StartCast_session_id == stream.session_id,
        message->stream_id == stream.id,
        message->cursor_mode == stream.cursor_mode,
        stream.target is Output ==> message->target is Output && message->target->Output_name@
            == stream.target->Output_0.name@,
        stream.target is Window ==> message->target is Window && message->target->Window_id
            == stream.target->Window_id,
        message->node_sink is MutterSignal && message->node_sink->MutterSignal_0@ == stream_path(
            stream.id,
        ),
{
}

/// After a start every stream is started, and is else what it was.
pub proof fn started_streams_stay_what_they_were(streams: Seq<Stream>, i: int)
    requires
        0 <= i < streams.len(),
    ensures
        started(streams).len() == streams.len(),
        started(streams)[i].was_started,
        started(streams)[i].id == streams[i].id,
        started(streams)[i].session_id == streams[i].session_id,
        started(streams)[i].target == streams[i].target,
        started(streams)[i].cursor_mode == streams[i].cursor_mode,
{
}

/// The objects of sessions and of streams have paths of their own.
pub proof fn objects_have_paths_of_their_own(session: u64, stream: u64)
    ensures
        session_path(session) != stream_path(stream),
        session_path(session).take(38) == "/org/gnome/Mutter/ScreenCast/Session/u"@,
        stream_path(stream).take(37) == "/org/gnome/Mutter/ScreenCast/Stream/u"@,
{
    reveal_strlit("/org/gnome/Mutter/ScreenCast/Session/u");
    reveal_strlit("/org/gnome/Mutter/ScreenCast/Stream/u");
    let a = session_path(session);
    let b = stream_path(stream);
    assert(a.take(38) =~= "/org/gnome/Mutter/ScreenCast/Session/u"@);
    assert(b.take(37) =~= "/org/gnome/Mutter/ScreenCast/Stream/u"@);
    assert(a[30] == a.take(38)[30] && b[30] == b.take(37)[30]);
}

/// A session records a source exactly if its owner asks, it is not closed, and it may record
/// anything or that very source. Else the answer says which of that was not so.
pub proof fn sources_are_recorded_iff(session: Session, sender: Option<String>, target: Target)
    ensures
        ({
            let fault = record_fault(session, sender, target);
            let owned = sender is Some && sender->0@ == session.owner@;
            let allowed = session.authorized_targets is None
                || session.authorized_targets->0@.contains(target);
            &&& fault is None <==> owned && !session.stopped && allowed
            &&& sender is None ==> fault == Some(Fault::Failed("D-Bus call has no sender"@))
            &&& sender is Some && !owned ==> fault == Some(
                Fault::AccessDenied("screen cast session belongs to another D-Bus client"@),
            )
            &&& owned && session.stopped ==> fault == Some(
                Fault::Failed("screen cast session is closed"@),
            )
            &&& owned && !session.stopped && !allowed ==> fault == Some(
                Fault::AccessDenied("target was not authorized by the screen cast picker"@),
            )
            &&& call_fault(session, sender) is None <==> owned
            &&& sender is None ==> call_fault(session, sender) == Some(
                Fault::Failed("D-Bus call has no sender"@),
            )
            &&& sender is Some && !owned ==> call_fault(session, sender) == Some(
                Fault::AccessDenied("screen cast session belongs to another D-Bus client"@),
            )
            &&& authorized(session.authorized_targets, target) <==> allowed
        }),
{
}

/// An output is recorded exactly if the session records it, it is there, and it is enabled.
pub proof fn outputs_are_recorded_iff(
    session: Session,
    sender: Option<String>,
    connector: Seq<char>,
    outputs: Seq<OutputInfo>,
)
    ensures
        ({
            let fault = record_monitor_fault(session, sender, connector, outputs);
            let refused = record_fault(session, sender, Target::Output(connector));
            let there = exists|i: int|
                0 <= i < outputs.len() && (#[trigger] outputs[i]).name@ == connector;
            let enabled = exists|i: int|
                0 <= i < outputs.len() && (#[trigger] outputs[i]).name@ == connector
                    && outputs[i].logical is Some && forall|j: int|
                    0 <= j < i ==> (#[trigger] outputs[j]).name@ != connector;
            &&& refused is Some ==> fault == refused
            &&& refused is None && !there ==> fault == Some(Fault::Failed("no such monitor"@))
            &&& refused is None && there && !enabled ==> fault == Some(
                Fault::Failed("monitor is disabled"@),
            )
            &&& refused is None && enabled ==> fault is None
        }),
{
    crate::laws::outputs::outputs_are_found_by_name(outputs, connector);
    if output_named(outputs, connector) is Some {
        let found = output_named(outputs, connector)->0;
        let k = choose|k: int|
            0 <= k < outputs.len() && #[trigger] outputs[k] == found && found.name@ == connector
                && forall|j: int| 0 <= j < k ==> (#[trigger] outputs[j]).name@ != connector;
        assert(outputs[k].name@ == connector);
        assert forall|i: int|
            0 <= i < outputs.len() && (#[trigger] outputs[i]).name@ == connector && (forall|j: int|
                0 <= j < i ==> (#[trigger] outputs[j]).name@ != connector) implies i == k by {}
    }
}

/// A session is created exactly if no remote desktop session is asked for, a client asks, and the
/// token that it brings, if it brings one, is accepted.
pub proof fn sessions_are_created_iff(
    sender: Option<String>,
    properties: CreateSessionProperties,
    tokens: Map<Seq<u8>, Grant>,
)
    ensures
        ({
            let fault = create_fault(sender, properties, tokens);
            let token = properties.selection_token->0@;
            let plain = properties.remote_desktop_session_id is None;
            let good = token.len() == 32 && tokens.contains_key(token) && tokens[token].sender
                == sender->0@;
            &&& fault is None <==> plain && sender is Some && (properties.selection_token is None
                || good)
            &&& !plain ==> fault == Some(Fault::Failed("there are no remote desktop sessions"@))
            &&& plain && sender is None ==> fault == Some(
                Fault::Failed("D-Bus call has no sender"@),
            )
            &&& plain && sender is Some && properties.selection_token is Some && token.len() != 32
                ==> fault == Some(Fault::InvalidArgs("selection-token has an invalid length"@))
            &&& plain && sender is Some && properties.selection_token is Some && token.len() == 32
                && !good ==> fault == Some(Fault::AccessDenied("invalid selection-token"@))
        }),
{
}

/// A session that stops gives up all its streams and has the compositor stop it by its own number;
/// one that is stopped already does neither.
pub proof fn stopping_ends_the_session(
    before: Session,
    actions: Option<StopActions>,
    after: Session,
)
    requires
        stops(before, actions, after),
    ensures
        actions is Some <==> !before.stopped,
        after.stopped,
        after.id == before.id && after.owner == before.owner,
        actions is Some ==> actions->0.message is StopCast
            && actions->0.message->StopCast_session_id == before.id && actions->0.streams
            == before.streams && after.streams@.len() == 0,
        actions is None ==> after == before,
{
}

/// Both screen cast services say the same about a stream of an enabled output: where it stands, and
/// how wide and how high it is.
pub proof fn both_services_describe_an_output_alike(outputs: Seq<OutputInfo>, k: int)
    requires
        0 <= k < outputs.len(),
        outputs[k].logical is Some,
        forall|j: int| 0 <= j < k ==> (#[trigger] outputs[j]).name@ != outputs[k].name@,
    ensures
        ({
            let one = parameters_of(StreamTarget::Output(outputs[k]));
            let other = properties_of(Target::Output(outputs[k].name@), outputs);
            let size = one.size->0;
            let position = one.position->0;
            &&& one.size == other.size
            &&& one.position == other.position
            &&& one.size is Some && one.position is Some
            &&& size.0 == outputs[k].logical->0.width as i32
            &&& size.1 == outputs[k].logical->0.height as i32
            &&& position.0 == outputs[k].logical->0.x
            &&& position.1 == outputs[k].logical->0.y
        }),
{
    crate::laws::outputs::output_streams_have_the_size_of_the_output(outputs, k);
}

/// A stream of a window stands nowhere.
pub proof fn windows_stand_nowhere(id: u64)
    ensures
        parameters_of(StreamTarget::Window { id }).size is None,
        parameters_of(StreamTarget::Window { id }).position is None,
{
}

/// A stream records the output or the window that it was made for.
pub proof fn streams_record_what_they_were_made_for(output: OutputInfo, id: u64)
    ensures
        StreamTarget::Output(output).target() == Target::Output(output.name@),
        (StreamTarget::Window { id }).target() == Target::Window(id),
        StreamTarget::Output(output).wf() <==> output.logical is Some,
        (StreamTarget::Window { id }).wf(),
{
}

/// The cursor is hidden unless the client says otherwise.
pub proof fn the_cursor_is_hidden_by_default(mode: CursorMode)
    ensures
        cursor_or_default(None) is Hidden,
        cursor_or_default(Some(mode)) == mode,
{
}

/// Errors keep their kind and their text.
pub proof fn errors_keep_their_text(a: BusError, b: BusError)
    ensures
        a is Failed ==> a@ == Fault::Failed(a->Failed_0@),
        a is AccessDenied ==> a@ == Fault::AccessDenied(a->AccessDenied_0@),
        a is InvalidArgs ==> a@ == Fault::InvalidArgs(a->InvalidArgs_0@),
{
}

/// The targets of a list are those of its entries, in order.
pub proof fn targets_are_in_order(list: Seq<StreamTargetId>, i: int)
    ensures
        targets_of(list).len() == list.len(),
        0 <= i < list.len() && list[i] is Output ==> targets_of(list)[i] == Target::Output(
            list[i]->Output_name@,
        ),
        0 <= i < list.len() && list[i] is Window ==> targets_of(list)[i] == Target::Window(
            list[i]->Window_id,
        ),
{
}

/// Two sets of targets are equal exactly if they hold the same targets.
pub proof fn sets_are_equal_iff_they_hold_the_same(a: TargetSet, b: TargetSet)
    ensures
        a.eq_spec(&b) <==> forall|target: Target| a@.contains(target) <==> b@.contains(target),
{
    if forall|target: Target| a@.contains(target) <==> b@.contains(target) {
        assert(a@ =~= b@);
    }
}

/// The request that is pending is the one with the same sender and the same handle.
pub proof fn pending_requests_are_known_by_sender_and_handle(
    state: PickerRequestState,
    id: PickerRequestId,
)
    ensures
        state.is_pending(id@) <==> state.pending is Some && state.pending->0.id.sender@
            == id.sender@ && state.pending->0.id.handle@ == id.handle@,
{
}

/// An answer that goes out keeps its channel and its message.
pub proof fn answers_keep_their_channel(sent: OutgoingReply)
    ensures
        sent@.channel == sent.reply,
        sent@.message == sent.message@,
        sent.message is Cancelled ==> sent@.message is Cancelled,
        sent.message is Failed ==> sent@.message == Reply::Failed(sent.message->Failed_0@),
        sent.message is Selected ==> sent@.message == Reply::Selected(
            targets_of(sent.message->Selected_0.sources@),
            sent.message->Selected_0.persist_mode,
        ),
{
}

/// Every stream of a session belongs to it, and records something that the session may record.
pub proof fn streams_stay_within_what_was_picked(session: Session, i: int)
    requires
        session.wf(),
        0 <= i < session.streams@.len(),
        session.authorized_targets is Some,
    ensures
        session.streams@[i].session_id == session.id,
        session.streams@[i].target is Output ==> session.authorized_targets->0@.contains(
            Target::Output(session.streams@[i].target->Output_0.name@),
        ),
        session.streams@[i].target is Window ==> session.authorized_targets->0@.contains(
            Target::Window(session.streams@[i].target->Window_id),
        ),
{
}

/// The responses have the numbers that the desktop portals agreed on.
pub proof fn responses_are_numbered()
    ensures
        RESPONSE_SUCCESS == 0,
        RESPONSE_CANCELLED == 1,
        RESPONSE_ERROR == 2,
{
}

} // verus!
