//! What is remembered of a selection, in the form that is handed to the portal for safekeeping.

use vstd::prelude::*;
use zbus::zvariant::{Array, Structure, Value};

use crate::text::same_text;

verus! {

/// The number of the source type for outputs.
pub const SOURCE_TYPE_MONITOR: u32 = 1;

/// The number of the source type for windows.
pub const SOURCE_TYPE_WINDOW: u32 = 2;

/// The version of the format.
pub const RESTORE_FORMAT_VERSION: u32 = 1;

/// A value of the bus.
#[verifier::external_type_specification]
#[verifier::external_body]
pub struct ExValue<'a>(zbus::zvariant::Value<'a>);

/// What a value of the bus holds, as far as restore data goes.
pub enum Tree {
    I64(i64),
    U32(u32),
    Str(Seq<char>),
    Variant(Box<Tree>),
    Structure(Seq<Tree>),
    Array(Seq<Tree>),
    Other,
}

/// What a value of the bus holds.
pub uninterp spec fn tree_of(value: &Value<'_>) -> Tree;

/// What each value of a list holds.
pub open spec fn trees_of(values: Seq<Value<'_>>) -> Seq<Tree> {
    Seq::new(values.len(), |i: int| tree_of(&values[i]))
}

/// What is inside a variant, or the value itself if it is none.
pub open spec fn peeled(tree: Tree) -> Tree {
    match tree {
        Tree::Variant(inner) => *inner,
        other => other,
    }
}

/// The variant arm of `zbus::zvariant::Value`: the value inside a variant, or the value itself.
#[verifier::external_body]
fn unwrap_variant<'a>(value: &'a Value<'a>) -> (inner: &'a Value<'a>)
    ensures
        tree_of(inner) == peeled(tree_of(value)),
{
    match value {
        Value::Value(inner) => inner,
        other => other,
    }
}

/// `Value::downcast_ref` to a signed number of 64 bits, with or without a variant around it.
#[verifier::external_body]
fn downcast_i64(value: &Value<'_>) -> (r: Option<i64>)
    ensures
        r == (match peeled(tree_of(value)) {
            Tree::I64(n) => Some(n),
            _ => None,
        }),
{
    value.downcast_ref::<i64>().ok()
}

/// `Value::downcast_ref` to an unsigned number of 32 bits, with or without a variant around it.
#[verifier::external_body]
fn downcast_u32(value: &Value<'_>) -> (r: Option<u32>)
    ensures
        r == (match peeled(tree_of(value)) {
            Tree::U32(n) => Some(n),
            _ => None,
        }),
{
    value.downcast_ref::<u32>().ok()
}

/// `Value::downcast_ref` to a string, with or without a variant around it.
#[verifier::external_body]
fn downcast_str<'a>(value: &'a Value<'a>) -> (r: Option<&'a str>)
    ensures
        match peeled(tree_of(value)) {
            Tree::Str(text) => r is Some && r->0@ == text,
            _ => r is None,
        },
{
    value.downcast_ref::<&str>().ok()
}

/// `Value::downcast_ref` to a structure, with or without a variant around it, and
/// `Structure::fields`: the fields in order.
#[verifier::external_body]
fn downcast_structure<'a>(value: &'a Value<'a>) -> (r: Option<&'a [Value<'a>]>)
    ensures
        match peeled(tree_of(value)) {
            Tree::Structure(fields) => r is Some && trees_of(r->0@) == fields,
            _ => r is None,
        },
{
    value.downcast_ref::<&Structure<'_>>().ok().map(|structure| structure.fields())
}

/// `Value::downcast_ref` to an array, with or without a variant around it, and the items that the
/// array dereferences to, in order.
#[verifier::external_body]
fn downcast_array<'a>(value: &'a Value<'a>) -> (r: Option<&'a [Value<'a>]>)
    ensures
        match peeled(tree_of(value)) {
            Tree::Array(items) => r is Some && trees_of(r->0@) == items,
            _ => r is None,
        },
{
    value.downcast_ref::<&Array<'_>>().ok().map(|array| array.inner())
}

/// What a stream of a selection looks like: a number of its own, its source type, and the text that
/// it is found again by, in two variants.
pub open spec fn stream_tree(stream: (u32, u32, Seq<char>)) -> Tree {
    Tree::Structure(
        seq![
            Tree::U32(stream.0),
            Tree::U32(stream.1),
            Tree::Variant(Box::new(Tree::Variant(Box::new(Tree::Str(stream.2))))),
        ],
    )
}

/// What a selection looks like: when it was made, when it was last used, and its streams.
pub open spec fn selection_tree(
    creation_time: i64,
    last_used_time: i64,
    streams: Seq<(u32, u32, Seq<char>)>,
) -> Tree {
    Tree::Structure(
        seq![
            Tree::I64(creation_time),
            Tree::I64(last_used_time),
            Tree::Array(Seq::new(streams.len(), |i: int| stream_tree(streams[i]))),
        ],
    )
}

/// `Value::from` on tuples, vectors, numbers and strings, and `Value::new`, which puts a value into
/// a variant: a tuple becomes a structure, whose fields are put into a variant once more if they
/// are values already, and a vector becomes an array.
#[verifier::external_body]
fn selection_value(
    creation_time: i64,
    last_used_time: i64,
    streams: Vec<(u32, u32, String)>,
) -> (value: Value<'static>)
    ensures
        tree_of(&value) == selection_tree(
            creation_time,
            last_used_time,
            Seq::new(streams@.len(), |i: int| (streams@[i].0, streams@[i].1, streams@[i].2@)),
        ),
{
    let streams: Vec<(u32, u32, Value<'static>)> = streams
        .into_iter()
        .map(|(id, kind, text)| (id, kind, Value::new(Value::from(text))))
        .collect();
    Value::from((creation_time, last_used_time, streams))
}

/// A selection that was remembered.
#[derive(Debug, PartialEq, Eq)]
pub struct RestoredSelection {
    pub creation_time: i64,
    /// The texts that the monitors are found again by, in stream order.
    pub monitors: Vec<String>,
}

impl Clone for RestoredSelection {
    fn clone(&self) -> (r: Self)
        ensures
            r@ == self@,
    {
        let mut monitors: Vec<String> = Vec::new();
        for i in 0..self.monitors.len()
            invariant
                texts_of(monitors@) == texts_of(self.monitors@).take(i as int),
        {
            let ghost before = monitors@;
            monitors.push(self.monitors[i].clone());
            assert(texts_of(monitors@) =~= texts_of(before).push(self.monitors@[i as int]@));
            assert(texts_of(self.monitors@).take(i + 1) =~= texts_of(self.monitors@).take(
                i as int,
            ).push(self.monitors@[i as int]@));
        }
        assert(texts_of(monitors@) =~= texts_of(self.monitors@));
        RestoredSelection { creation_time: self.creation_time, monitors }
    }
}

/// The texts of a list of strings.
pub open spec fn texts_of(strings: Seq<String>) -> Seq<Seq<char>> {
    Seq::new(strings.len(), |i: int| strings[i]@)
}

/// A [`RestoredSelection`] as a mathematical value.
pub struct Restored {
    pub creation_time: i64,
    pub monitors: Seq<Seq<char>>,
}

impl View for RestoredSelection {
    type V = Restored;

    open spec fn view(&self) -> Restored {
        Restored { creation_time: self.creation_time, monitors: texts_of(self.monitors@) }
    }
}

/// The monitor that a stream was of. Streams of windows, and what does not look like a stream, are
/// of none.
pub open spec fn stream_monitor(stream: Tree) -> Option<Seq<char>> {
    match peeled(peeled(stream)) {
        Tree::Structure(fields) => if fields.len() == 3 && peeled(fields[0]) is U32 && peeled(
            fields[1],
        ) == Tree::U32(SOURCE_TYPE_MONITOR) {
            match peeled(peeled(fields[2])) {
                Tree::Str(text) => Some(text),
                _ => None,
            }
        } else {
            None
        },
        _ => None,
    }
}

/// The monitors that the first `n` streams were of, if each was of one.
pub open spec fn stream_monitors(streams: Seq<Tree>, n: nat) -> Option<Seq<Seq<char>>>
    decreases n,
{
    if n == 0 {
        Some(Seq::empty())
    } else {
        match (stream_monitors(streams, (n - 1) as nat), stream_monitor(streams[n - 1])) {
            (Some(before), Some(monitor)) => Some(before.push(monitor)),
            _ => None,
        }
    }
}

/// The selection that a value stands for, if it stands for one: it is of at least one monitor, and
/// of nothing else.
pub open spec fn restored(tree: Tree) -> Option<Restored> {
    match peeled(peeled(tree)) {
        Tree::Structure(fields) => if fields.len() == 3 {
            match (peeled(fields[0]), peeled(fields[1]), peeled(fields[2])) {
                (Tree::I64(creation_time), Tree::I64(_), Tree::Array(streams)) => match stream_monitors(
                    streams,
                    streams.len(),
                ) {
                    Some(monitors) => if monitors.len() > 0 {
                        Some(Restored { creation_time, monitors })
                    } else {
                        None
                    },
                    None => None,
                },
                _ => None,
            }
        } else {
            None
        },
        _ => None,
    }
}

/// Whether restore data of this vendor and version can be read. Two vendors share the format.
pub open spec fn readable(vendor: Seq<char>, version: u32) -> bool {
    (vendor == "SHORINNIRI"@ || vendor == "GNOME"@) && version == RESTORE_FORMAT_VERSION
}

/// The selection that restore data stands for, if it stands for one that can be read.
pub open spec fn parsed(vendor: Seq<char>, version: u32, tree: Tree) -> Option<Restored> {
    if readable(vendor, version) {
        restored(tree)
    } else {
        None
    }
}

proof fn unreadable_stream_spoils_all(streams: Seq<Tree>, n: nat, m: nat)
    requires
        n <= m,
        stream_monitors(streams, n) is None,
    ensures
        stream_monitors(streams, m) is None,
    decreases m,
{
    if n < m {
        unreadable_stream_spoils_all(streams, n, (m - 1) as nat);
    }
}

fn parse_stream(stream: &Value<'_>) -> (r: Option<String>)
    ensures
        match stream_monitor(tree_of(stream)) {
            Some(text) => r is Some && r->0@ == text,
            None => r is None,
        },
{
    let stream = unwrap_variant(stream);
    let fields = match downcast_structure(stream) {
        Some(fields) => fields,
        None => {
            return None;
        },
    };
    if fields.len() != 3 {
        return None;
    }
    let ghost trees = trees_of(fields@);
    assert(trees[0] == tree_of(&fields@[0]));
    assert(trees[1] == tree_of(&fields@[1]));
    assert(trees[2] == tree_of(&fields@[2]));
    if downcast_u32(&fields[0]).is_none() {
        return None;
    }
    match downcast_u32(&fields[1]) {
        Some(source_type) => {
            if source_type != SOURCE_TYPE_MONITOR {
                return None;
            }
        },
        None => {
            return None;
        },
    }
    let data = unwrap_variant(&fields[2]);
    match downcast_str(data) {
        Some(text) => Some(text.to_owned()),
        None => None,
    }
}

fn parse_streams(streams: &[Value<'_>]) -> (r: Option<Vec<String>>)
    ensures
        match stream_monitors(trees_of(streams@), streams@.len()) {
            Some(monitors) => r is Some && texts_of(r->0@) == monitors,
            None => r is None,
        },
{
    let mut monitors: Vec<String> = Vec::new();
    let ghost trees = trees_of(streams@);
    assert(texts_of(monitors@) =~= Seq::<Seq<char>>::empty());
    for i in 0..streams.len()
        invariant
            trees == trees_of(streams@),
            stream_monitors(trees, i as nat) == Some(texts_of(monitors@)),
    {
        assert(trees[i as int] == tree_of(&streams@[i as int]));
        match parse_stream(&streams[i]) {
            Some(monitor) => {
                let ghost before = monitors@;
                monitors.push(monitor);
                assert(texts_of(monitors@) =~= texts_of(before).push(monitor@));
            },
            None => {
                proof {
                    unreadable_stream_spoils_all(trees, (i + 1) as nat, streams@.len());
                }
                return None;
            },
        }
    }
    Some(monitors)
}

/// The selection that restore data stands for. Data of other vendors or versions, malformed data,
/// and selections with other sources than monitors stand for none; the user picks again then.
pub fn parse_restore_data(vendor: &str, version: u32, inner: &Value<'_>) -> (r: Option<
    RestoredSelection,
>)
    ensures
        match parsed(vendor@, version, tree_of(inner)) {
            Some(selection) => r is Some && r->0@ == selection,
            None => r is None,
        },
{
    if !(same_text(vendor, "SHORINNIRI") || same_text(vendor, "GNOME")) || version
        != RESTORE_FORMAT_VERSION {
        return None;
    }
    let inner = unwrap_variant(inner);
    let fields = match downcast_structure(inner) {
        Some(fields) => fields,
        None => {
            return None;
        },
    };
    if fields.len() != 3 {
        return None;
    }
    let ghost trees = trees_of(fields@);
    assert(trees[0] == tree_of(&fields@[0]));
    assert(trees[1] == tree_of(&fields@[1]));
    assert(trees[2] == tree_of(&fields@[2]));
    let creation_time = match downcast_i64(&fields[0]) {
        Some(creation_time) => creation_time,
        None => {
            return None;
        },
    };
    if downcast_i64(&fields[1]).is_none() {
        return None;
    }
    let streams = match downcast_array(&fields[2]) {
        Some(streams) => streams,
        None => {
            return None;
        },
    };
    let monitors = match parse_streams(streams) {
        Some(monitors) => monitors,
        None => {
            return None;
        },
    };
    if monitors.len() == 0 {
        return None;
    }
    Some(RestoredSelection { creation_time, monitors })
}

/// The streams of a selection of monitors.
pub open spec fn monitor_streams(monitors: Seq<Seq<char>>) -> Seq<(u32, u32, Seq<char>)> {
    Seq::new(monitors.len(), |i: int| (i as u32, SOURCE_TYPE_MONITOR, monitors[i]))
}

/// The restore data for a selection of monitors: the vendor, the version and the value.
pub fn build_restore_data(
    creation_time: i64,
    last_used_time: i64,
    monitors: &Vec<String>,
) -> (r: (String, u32, Value<'static>))
    ensures
        r.0@ == "SHORINNIRI"@,
        r.1 == RESTORE_FORMAT_VERSION,
        tree_of(&r.2) == selection_tree(
            creation_time,
            last_used_time,
            monitor_streams(texts_of(monitors@)),
        ),
{
    let mut streams: Vec<(u32, u32, String)> = Vec::new();
    let ghost goal = monitor_streams(texts_of(monitors@));
    for i in 0..monitors.len()
        invariant
            streams@.len() == i,
            goal == monitor_streams(texts_of(monitors@)),
            forall|j: int|
                0 <= j < i ==> ((#[trigger] streams@[j]).0, streams@[j].1, streams@[j].2@)
                    == goal[j],
    {
        streams.push((i as u32, SOURCE_TYPE_MONITOR, monitors[i].clone()));
    }
    assert(Seq::new(streams@.len(), |i: int| (streams@[i].0, streams@[i].1, streams@[i].2@))
        =~= goal);
    (
        "SHORINNIRI".to_owned(),
        RESTORE_FORMAT_VERSION,
        selection_value(creation_time, last_used_time, streams),
    )
}

proof fn built_streams_are_read_back(monitors: Seq<Seq<char>>, streams: Seq<Tree>, n: nat)
    requires
        n <= monitors.len(),
        streams == Seq::new(
            monitor_streams(monitors).len(),
            |i: int| stream_tree(monitor_streams(monitors)[i]),
        ),
    ensures
        stream_monitors(streams, n) == Some(monitors.take(n as int)),
    decreases n,
{
    if n == 0 {
        assert(monitors.take(0) =~= Seq::<Seq<char>>::empty());
    } else {
        built_streams_are_read_back(monitors, streams, (n - 1) as nat);
        assert(streams[n - 1] == stream_tree(monitor_streams(monitors)[n - 1]));
        assert(stream_monitor(streams[n - 1]) == Some(monitors[n - 1]));
        assert(monitors.take(n as int) =~= monitors.take(n - 1).push(monitors[n - 1]));
    }
}

/// What is remembered is restored: reading the restore data that was built for a selection of
/// monitors gives the selection back.
pub proof fn restore_data_is_read_back(
    creation_time: i64,
    last_used_time: i64,
    monitors: Seq<Seq<char>>,
)
    requires
        monitors.len() > 0,
    ensures
        parsed(
            "SHORINNIRI"@,
            RESTORE_FORMAT_VERSION,
            selection_tree(creation_time, last_used_time, monitor_streams(monitors)),
        ) == Some(Restored { creation_time, monitors }),
{
    let streams = Seq::new(
        monitor_streams(monitors).len(),
        |i: int| stream_tree(monitor_streams(monitors)[i]),
    );
    built_streams_are_read_back(monitors, streams, monitors.len());
    assert(monitors.take(monitors.len() as int) =~= monitors);
}

/// A selection that holds a window is not restored.
pub proof fn windows_are_not_restored(
    creation_time: i64,
    last_used_time: i64,
    streams: Seq<(u32, u32, Seq<char>)>,
    i: int,
)
    requires
        0 <= i < streams.len(),
        streams[i].1 == SOURCE_TYPE_WINDOW,
    ensures
        restored(selection_tree(creation_time, last_used_time, streams)) is None,
{
    let trees = Seq::new(streams.len(), |i: int| stream_tree(streams[i]));
    assert(trees[i] == stream_tree(streams[i]));
    assert(stream_monitor(trees[i]) is None);
    assert(stream_monitors(trees, (i + 1) as nat) is None);
    unreadable_stream_spoils_all(trees, (i + 1) as nat, trees.len());
}

} // verus!
