//! The portal backend: its sessions, what a start does, and what is remembered of it.

use vstd::prelude::*;
use zbus::zvariant::Value;

use crate::assoc::Owned;
use crate::dbus::bus::Fault;
use crate::dbus::freedesktop_portal::{
    default_selected, remembers, resolved, Selected, SelectedOptions,
};
use crate::dbus::niri_portal_screen_cast::{selection_fault, PickerRequestId};
use crate::dbus::outputs::OutputInfo;
use crate::dbus::picker_options::{PickerOptions, PickerPersistMode};
use crate::dbus::portal_backend::{
    begins, casts_have_sessions, closes, fails_start, picked_fault, picks_for, restored_targets,
    selected_or_default, session_fault, unsuccessful, CastStart, ClosedSession, FailedStart,
    ScreenCastBackend, SessionState, StartCall, StartResults, StartStep,
};
use crate::dbus::restore_data::{
    monitor_streams, parsed, peeled, readable, restored, selection_tree, stream_monitor,
    stream_monitors, stream_tree, texts_of, tree_of, RestoredSelection, Tree,
};
use crate::dbus::target::{targets_of, Target};

verus! {

/// A session can be used exactly by the client that created it, and until it is started. Else the
/// answer says why it cannot.
pub proof fn sessions_are_used_by_their_owner(
    sessions: Map<Seq<char>, SessionState>,
    sender: Option<String>,
    path: Seq<char>,
)
    ensures
        ({
            let fault = session_fault(sessions, sender, path);
            let listed = sessions.contains_key(path);
            let owned = sender is Some && sessions[path].owner@ == sender->0@;
            &&& fault is None <==> listed && owned && !sessions[path].started
            &&& sender is None ==> fault == Some(Fault::Failed("D-Bus call has no sender"@))
            &&& sender is Some && !listed ==> fault == Some(Fault::Failed("no such session"@))
            &&& sender is Some && listed && !owned ==> fault == Some(
                Fault::AccessDenied("session belongs to another D-Bus client"@),
            )
            &&& listed && owned && sessions[path].started ==> fault == Some(
                Fault::Failed("session was already started"@),
            )
        }),
{
}

/// A session belongs to the client that created it, and a name to the client that it names.
pub proof fn sessions_belong_to_their_owner(
    state: SessionState,
    name: String,
    client: Seq<char>,
)
    ensures
        state.owned_by(client) <==> state.owner@ == client,
        name.owned_by(client) <==> name@ == client,
{
}

/// A start uses a remembered selection exactly if there is one that still stands for outputs that
/// the client accepts, and has the user pick otherwise, for just what the client selected.
pub proof fn starts_restore_or_ask(
    call: StartCall,
    step: StartStep,
    state: SessionState,
    id: PickerRequestId,
    session_handle: Seq<char>,
    app_id: String,
    outputs: Seq<OutputInfo>,
    reply: u64,
)
    requires
        begins(call, step, state, id, session_handle, app_id, outputs, reply),
        state.select is Some,
    ensures
        call.id == id,
        call.session_handle@ == session_handle,
        call.closed == state.closed,
        ({
            let select = state.select->0;
            let targets = resolved(
                select.source_types,
                select.multiple,
                texts_of(select.restore->0.monitors@),
                outputs,
            );
            &&& call.select.cursor_mode == select.cursor_mode
            &&& call.select.persist_mode == select.persist_mode
            &&& step is Restored <==> select.restore is Some && targets is Some
            &&& step is Restored ==> {
                &&& targets_of(step->Restored_0.sources@) == targets->0
                &&& step->Restored_0.persist_mode == select.persist_mode
                &&& step->Restored_0.creation_time == Some(select.restore->0.creation_time)
            }
            &&& step is Pick ==> {
                let asked = step->Pick_0.options;
                &&& step->Pick_0.id == id
                &&& step->Pick_0.reply == reply
                &&& asked.app_id == app_id
                &&& asked.source_types == select.source_types
                &&& asked.multiple == select.multiple
                &&& asked.cursor_mode == select.picker_cursor_mode
                &&& asked.persist_mode == select.persist_mode
            }
        }),
{
}

/// A start of a session for which nothing was selected has the user pick one output.
pub proof fn starts_ask_for_an_output_by_default(
    call: StartCall,
    step: StartStep,
    state: SessionState,
    id: PickerRequestId,
    session_handle: Seq<char>,
    app_id: String,
    outputs: Seq<OutputInfo>,
    reply: u64,
)
    requires
        begins(call, step, state, id, session_handle, app_id, outputs, reply),
        state.select is None,
    ensures
        step is Pick,
        step->Pick_0.id == id,
        step->Pick_0.reply == reply,
        step->Pick_0.options.app_id == app_id,
        step->Pick_0.options.source_types.monitor && !step->Pick_0.options.source_types.window,
        !step->Pick_0.options.multiple,
        step->Pick_0.options.cursor_mode is Hidden,
        step->Pick_0.options.persist_mode is Never,
        call.select.cursor_mode is Hidden,
{
}

/// What was selected counts, with all its parts.
pub proof fn selections_are_kept_whole(select: SelectedOptions, outputs: Seq<OutputInfo>)
    ensures
        selected_or_default(Some(select)).source_types == select.source_types,
        selected_or_default(Some(select)).multiple == select.multiple,
        selected_or_default(Some(select)).cursor_mode == select.cursor_mode,
        selected_or_default(Some(select)).picker_cursor_mode == select.picker_cursor_mode,
        selected_or_default(Some(select)).persist_mode == select.persist_mode,
        selected_or_default(None) == default_selected(),
        select.restore is Some <==> selected_or_default(Some(select)).restore is Some,
        select.restore is Some ==> selected_or_default(Some(select)).restore->0.creation_time
            == select.restore->0.creation_time && selected_or_default(
            Some(select),
        ).restore->0.monitors == texts_of(select.restore->0.monitors@),
        select.restore is None ==> restored_targets(select@, outputs) is None,
{
}

/// What the user picks is held against what the client selected.
pub proof fn picks_are_held_against_the_selection(
    options: PickerOptions,
    select: Selected,
    targets: Seq<Target>,
    persist_mode: PickerPersistMode,
)
    ensures
        picked_fault(select, targets, persist_mode) == selection_fault(
            select.source_types,
            select.multiple,
            select.persist_mode,
            targets,
            persist_mode,
        ),
        picks_for(options, select) ==> options.source_types == select.source_types
            && options.multiple == select.multiple && options.cursor_mode
            == select.picker_cursor_mode && options.persist_mode == select.persist_mode,
{
}

/// A start that does not succeed is answered with the response and with nothing else.
pub proof fn unsuccessful_starts_say_nothing(r: Result<(), (u32, StartResults)>, code: u32)
    requires
        unsuccessful(r, code),
    ensures
        r is Err,
        ({
            let (response, results) = r->Err_0;
            &&& response == code
            &&& results.streams is None
            &&& results.persist_mode is None
            &&& results.restore_data is None
        }),
{
}

/// A start is complete once there is a stream for every source.
pub proof fn starts_are_complete_with_all_streams(cast: CastStart)
    ensures
        cast.complete() <==> cast.streams@.len() == cast.chosen.sources@.len(),
        cast.wf() && !cast.complete() ==> cast.streams@.len() < cast.chosen.sources@.len(),
{
}

/// The texts of a list are those of its strings, in order.
pub proof fn texts_are_in_order(strings: Seq<String>, selection: RestoredSelection)
    ensures
        texts_of(strings).len() == strings.len(),
        forall|i: int| 0 <= i < strings.len() ==> #[trigger] texts_of(strings)[i] == strings[i]@,
        selection@.creation_time == selection.creation_time,
        selection@.monitors == texts_of(selection.monitors@),
{
}

/// Restore data can be read exactly if it is in the first version of the format, of one of the two
/// vendors that share it.
pub proof fn restore_data_is_readable_iff(vendor: Seq<char>, version: u32, tree: Tree)
    ensures
        readable(vendor, version) <==> version == 1 && (vendor == "SHORINNIRI"@ || vendor
            == "GNOME"@),
        version != 1 ==> parsed(vendor, version, tree) is None,
        vendor != "SHORINNIRI"@ && vendor != "GNOME"@ ==> parsed(vendor, version, tree) is None,
        version == 1 && (vendor == "SHORINNIRI"@ || vendor == "GNOME"@) ==> parsed(
            vendor,
            version,
            tree,
        ) == restored(tree),
{
}

/// One variant is taken off a value that is in one.
pub proof fn variants_are_taken_off(tree: Tree)
    ensures
        peeled(Tree::Variant(Box::new(tree))) == tree,
        !(tree is Variant) ==> peeled(tree) == tree,
{
}

/// A stream is of a monitor exactly if it has three fields: a number, the number one for monitors,
/// and the text of the monitor, all of it with or without variants around it.
pub proof fn streams_are_of_monitors_iff(fields: Seq<Tree>)
    ensures
        stream_monitor(Tree::Structure(fields)) is Some <==> {
            &&& fields.len() == 3
            &&& peeled(fields[0]) is U32
            &&& peeled(fields[1]) == Tree::U32(1)
            &&& peeled(peeled(fields[2])) is Str
        },
        stream_monitor(Tree::Structure(fields)) is Some ==> stream_monitor(Tree::Structure(fields))
            == Some(peeled(peeled(fields[2]))->Str_0),
        stream_monitor(Tree::Variant(Box::new(Tree::Structure(fields)))) == stream_monitor(
            Tree::Structure(fields),
        ),
{
    assert(peeled(peeled(Tree::Structure(fields))) == Tree::Structure(fields));
    assert(peeled(Tree::Variant(Box::new(Tree::Structure(fields)))) == Tree::Structure(fields));
}

proof fn each_stream_is_read(streams: Seq<Tree>, n: nat)
    requires
        n <= streams.len(),
    ensures
        match stream_monitors(streams, n) {
            Some(monitors) => monitors.len() == n && forall|i: int|
                0 <= i < n ==> stream_monitor(#[trigger] streams[i]) == Some(monitors[i]),
            None => exists|i: int| 0 <= i < n && stream_monitor(#[trigger] streams[i]) is None,
        },
    decreases n,
{
    if n > 0 {
        each_stream_is_read(streams, (n - 1) as nat);
        if stream_monitor(streams[n - 1]) is None {
            assert(streams[n - 1] == streams[n - 1]);
        }
    }
}

/// A selection is restored exactly if it has two times and at least one stream, and each of its
/// streams is of a monitor. It is restored with the time that it was made at, the first of the two,
/// and with the texts of its monitors, in order.
pub proof fn values_are_restored_iff(fields: Seq<Tree>, streams: Seq<Tree>)
    requires
        fields.len() == 3,
        peeled(fields[2]) == Tree::Array(streams),
    ensures
        ({
            let r = restored(Tree::Structure(fields));
            &&& r is Some <==> {
                &&& peeled(fields[0]) is I64
                &&& peeled(fields[1]) is I64
                &&& streams.len() > 0
                &&& forall|i: int|
                    0 <= i < streams.len() ==> stream_monitor(#[trigger] streams[i]) is Some
            }
            &&& r is Some ==> {
                &&& r->0.creation_time == peeled(fields[0])->I64_0
                &&& r->0.monitors.len() == streams.len()
                &&& forall|i: int|
                    0 <= i < streams.len() ==> stream_monitor(#[trigger] streams[i]) == Some(
                        r->0.monitors[i],
                    )
            }
        }),
{
    each_stream_is_read(streams, streams.len());
    assert(peeled(peeled(Tree::Structure(fields))) == Tree::Structure(fields));
}

/// What has another shape is not restored.
pub proof fn other_values_are_not_restored(fields: Seq<Tree>, text: Seq<char>, n: i64)
    ensures
        fields.len() != 3 ==> restored(Tree::Structure(fields)) is None,
        fields.len() == 3 && !(peeled(fields[2]) is Array) ==> restored(Tree::Structure(fields))
            is None,
        restored(Tree::Str(text)) is None,
        restored(Tree::I64(n)) is None,
        restored(Tree::Array(fields)) is None,
        restored(Tree::Other) is None,
{
    assert(peeled(peeled(Tree::Structure(fields))) == Tree::Structure(fields));
}

/// A selection is written as its two times and its streams. A stream is written as a number of its
/// own, the number one for monitors, and the text of the monitor in two variants.
pub proof fn selections_are_written_as(
    creation_time: i64,
    last_used_time: i64,
    monitors: Seq<Seq<char>>,
    i: int,
)
    requires
        0 <= i < monitors.len() <= u32::MAX,
    ensures
        ({
            let tree = selection_tree(creation_time, last_used_time, monitor_streams(monitors));
            let fields = tree->Structure_0;
            let streams = fields[2]->Array_0;
            let stream = streams[i]->Structure_0;
            &&& tree is Structure && fields.len() == 3
            &&& fields[0] == Tree::I64(creation_time)
            &&& fields[1] == Tree::I64(last_used_time)
            &&& fields[2] is Array && streams.len() == monitors.len()
            &&& streams[i] is Structure && stream.len() == 3
            &&& stream[0] is U32 && stream[0]->U32_0 == i
            &&& stream[1] == Tree::U32(1)
            &&& stream[2] is Variant && peeled(stream[2]) is Variant && peeled(peeled(stream[2]))
                == Tree::Str(monitors[i])
        }),
{
    let written = monitor_streams(monitors);
    let streams = Seq::new(written.len(), |j: int| stream_tree(written[j]));
    assert(streams[i] == stream_tree(written[i]));
    assert(written[i].2 == monitors[i]);
}

/// Restore data carries the name of its vendor and the version of its format, and can be read back.
pub proof fn restore_data_is_signed(
    data: Option<(String, u32, Value<'static>)>,
    creation_time: i64,
    now: i64,
    texts: Seq<Seq<char>>,
)
    requires
        remembers(data, creation_time, now, texts),
        texts.len() > 0,
    ensures
        data is Some,
        ({
            let (vendor, version, value) = data->0;
            let back = parsed(vendor@, version, tree_of(&value));
            &&& vendor@ == "SHORINNIRI"@
            &&& version == 1
            &&& back is Some
            &&& back->0.creation_time == creation_time
            &&& back->0.monitors == texts
        }),
{
    crate::dbus::restore_data::restore_data_is_read_back(creation_time, now, texts);
}

/// Closing a session takes its own cast off the list, and no other; no session but this one is
/// touched.
pub proof fn closing_takes_only_its_own_cast(
    before: ScreenCastBackend,
    path: Seq<char>,
    send_stop: bool,
    actions: Option<ClosedSession>,
    after: ScreenCastBackend,
    cast: u64,
    other: Seq<char>,
)
    requires
        closes(before, path, send_stop, actions, after),
    ensures
        ({
            let own = before.sessions@.contains_key(path) && before.sessions@[path].cast_session
                == Some(cast);
            &&& after.cast_paths@.contains_key(cast) <==> before.cast_paths@.contains_key(cast)
                && !own
            &&& after.cast_paths@.contains_key(cast) ==> after.cast_paths@[cast]
                == before.cast_paths@[cast]
            &&& after.sessions@.contains_key(other) <==> before.sessions@.contains_key(other)
                && other != path
            &&& after.sessions@.contains_key(other) ==> after.sessions@[other]
                == before.sessions@[other]
            &&& after.session_counter == before.session_counter
        }),
{
}

/// A start that fails stops its cast, takes it off the list, closes the session with it and nothing
/// else, and is answered with the response for a failure and no results.
pub proof fn failed_starts_are_undone(
    before: ScreenCastBackend,
    path: Seq<char>,
    cast: u64,
    failed: FailedStart,
    after: ScreenCastBackend,
    other: Seq<char>,
    other_cast: u64,
)
    requires
        fails_start(before, path, cast, failed, after),
    ensures
        failed.message is StopCast && failed.message->StopCast_session_id == cast,
        !after.cast_paths@.contains_key(cast),
        !after.sessions@.contains_key(path),
        failed.closed is Some <==> before.sessions@.contains_key(path),
        failed.closed is Some ==> failed.closed->0.closed == before.sessions@[path].closed
            && failed.closed->0.message is None,
        other != path ==> (after.sessions@.contains_key(other) <==> before.sessions@.contains_key(
            other,
        )),
        other != path && before.sessions@.contains_key(other) ==> after.sessions@[other]
            == before.sessions@[other],
        other_cast != cast && before.cast_paths@.contains_key(other_cast) && !(
        before.sessions@.contains_key(path) && before.sessions@[path].cast_session == Some(
            other_cast,
        )) ==> after.cast_paths@.contains_key(other_cast) && after.cast_paths@[other_cast]
            == before.cast_paths@[other_cast],
        ({
            let (response, results) = failed.answer;
            &&& response == 2
            &&& results.streams is None
            &&& results.persist_mode is None
            &&& results.restore_data is None
        }),
{
}

/// Every cast on the list leads to a session whose cast it is.
pub proof fn casts_lead_to_their_session(
    sessions: Map<Seq<char>, SessionState>,
    casts: Map<u64, String>,
    cast: u64,
)
    requires
        casts_have_sessions(sessions, casts),
        casts.contains_key(cast),
    ensures
        sessions.contains_key(casts[cast]@),
        sessions[casts[cast]@].cast_session == Some(cast),
{
}

} // verus!
