//! What clients of the desktop portal ask for, and what is remembered of their selections.

use vstd::prelude::*;
use zbus::zvariant::Value;

use crate::dbus::mutter_screen_cast::CursorMode;
use crate::dbus::outputs::{
    find_matching_output, find_output, match_text, monitor_match_string, output_matching,
    output_named, OutputInfo,
};
use crate::dbus::picker_options::{
    or_default, PickerCursorMode, PickerPersistMode, PickerSourceTypes,
};
use crate::dbus::restore_data::{
    build_restore_data, monitor_streams, parse_restore_data, parsed, restore_data_is_read_back,
    selection_tree, texts_of, tree_of, Restored, RestoredSelection, RESTORE_FORMAT_VERSION,
    SOURCE_TYPE_MONITOR, SOURCE_TYPE_WINDOW,
};
use crate::dbus::target::{targets_of, StreamTargetId, Target};
use crate::text::{decimal, numbered};

verus! {

/// What a client asks for when it selects sources, as it comes off the bus. The restore data is
/// its vendor, its version and its value.
#[derive(Debug, Default)]
pub struct SelectSourcesOptions {
    pub types: Option<u32>,
    pub multiple: Option<bool>,
    pub cursor_mode: Option<u32>,
    pub persist_mode: Option<u32>,
    pub restore_data: Option<(String, u32, Value<'static>)>,
}

/// What a client asked for when it selected sources.
#[derive(Debug, PartialEq, Eq)]
pub struct SelectedOptions {
    pub source_types: PickerSourceTypes,
    pub multiple: bool,
    pub cursor_mode: CursorMode,
    pub picker_cursor_mode: PickerCursorMode,
    pub persist_mode: PickerPersistMode,
    pub restore: Option<RestoredSelection>,
}

/// A [`SelectedOptions`] as a mathematical value.
pub struct Selected {
    pub source_types: PickerSourceTypes,
    pub multiple: bool,
    pub cursor_mode: CursorMode,
    pub picker_cursor_mode: PickerCursorMode,
    pub persist_mode: PickerPersistMode,
    pub restore: Option<Restored>,
}

impl View for SelectedOptions {
    type V = Selected;

    open spec fn view(&self) -> Selected {
        Selected {
            source_types: self.source_types,
            multiple: self.multiple,
            cursor_mode: self.cursor_mode,
            picker_cursor_mode: self.picker_cursor_mode,
            persist_mode: self.persist_mode,
            restore: match self.restore {
                Some(restore) => Some(restore@),
                None => None,
            },
        }
    }
}

impl Clone for SelectedOptions {
    fn clone(&self) -> (r: Self)
        ensures
            r@ == self@,
    {
        SelectedOptions {
            source_types: self.source_types,
            multiple: self.multiple,
            cursor_mode: self.cursor_mode,
            picker_cursor_mode: self.picker_cursor_mode,
            persist_mode: self.persist_mode,
            restore: match &self.restore {
                Some(restore) => Some(restore.clone()),
                None => None,
            },
        }
    }
}

/// What a client gets that asked for nothing in particular: one output, without the cursor, and
/// nothing remembered.
pub open spec fn default_selected() -> Selected {
    Selected {
        source_types: PickerSourceTypes { monitor: true, window: false },
        multiple: false,
        cursor_mode: CursorMode::Hidden,
        picker_cursor_mode: PickerCursorMode::Hidden,
        persist_mode: PickerPersistMode::Never,
        restore: None,
    }
}

impl Default for SelectedOptions {
    fn default() -> (r: SelectedOptions)
        ensures
            r@ == default_selected(),
    {
        SelectedOptions {
            source_types: PickerSourceTypes::monitors(),
            multiple: false,
            cursor_mode: CursorMode::Hidden,
            picker_cursor_mode: PickerCursorMode::Hidden,
            persist_mode: PickerPersistMode::Never,
            restore: None,
        }
    }
}

/// The cursor mode of a cast for the mode that a client asked for.
pub open spec fn cast_cursor_mode(mode: PickerCursorMode) -> CursorMode {
    match mode {
        PickerCursorMode::Hidden => CursorMode::Hidden,
        PickerCursorMode::Embedded => CursorMode::Embedded,
        PickerCursorMode::Metadata => CursorMode::Metadata,
    }
}

impl SelectSourcesOptions {
    /// What is wrong with the options, if anything is.
    pub open spec fn fault(self) -> Option<Seq<char>> {
        let types = or_default(self.types, SOURCE_TYPE_MONITOR);
        let cursor_mode = or_default(self.cursor_mode, 1);
        let persist_mode = or_default(self.persist_mode, 0);
        if types == 0 || types > 3 {
            Some("invalid source types "@ + decimal(types as nat))
        } else if cursor_mode != 1 && cursor_mode != 2 && cursor_mode != 4 {
            Some("cursor-mode must be hidden (1), embedded (2), or metadata (4)"@)
        } else if persist_mode > 2 {
            Some("persist-mode must be none (0), transient (1), or persistent (2)"@)
        } else {
            None
        }
    }

    /// Whether `selected` is what these options ask for.
    pub open spec fn asks_for(self, selected: Selected) -> bool {
        &&& selected.source_types.mask() == or_default(self.types, SOURCE_TYPE_MONITOR)
        &&& selected.multiple == or_default(self.multiple, false)
        &&& selected.picker_cursor_mode.number() == or_default(self.cursor_mode, 1)
        &&& selected.cursor_mode == cast_cursor_mode(selected.picker_cursor_mode)
        &&& selected.persist_mode.number() == or_default(self.persist_mode, 0)
        &&& selected.restore == (match self.restore_data {
            Some((vendor, version, inner)) => parsed(vendor@, version, tree_of(&inner)),
            None => None,
        })
    }
}

/// Checks what a client asks for and fills in the defaults. Restore data that cannot be used is
/// ignored.
pub fn parse_select_options(options: SelectSourcesOptions) -> (r: Result<SelectedOptions, String>)
    ensures
        match options.fault() {
            Some(text) => r is Err && r->Err_0@ == text,
            None => r is Ok && options.asks_for(r->Ok_0@),
        },
{
    let types: u32 = options.types.unwrap_or(SOURCE_TYPE_MONITOR);
    let source_types = match PickerSourceTypes::from_bits(types) {
        Some(source_types) => source_types,
        None => {
            return Err(numbered("invalid source types ", types as u64));
        },
    };
    if source_types.is_empty() {
        return Err(numbered("invalid source types ", types as u64));
    }
    let picker_cursor_mode = match PickerCursorMode::try_from(options.cursor_mode.unwrap_or(1)) {
        Ok(mode) => mode,
        Err(err) => {
            return Err(err.to_owned());
        },
    };
    let cursor_mode = match picker_cursor_mode {
        PickerCursorMode::Hidden => CursorMode::Hidden,
        PickerCursorMode::Embedded => CursorMode::Embedded,
        PickerCursorMode::Metadata => CursorMode::Metadata,
    };
    let persist_mode = match PickerPersistMode::try_from(options.persist_mode.unwrap_or(0)) {
        Ok(mode) => mode,
        Err(err) => {
            return Err(err.to_owned());
        },
    };
    let restore = match &options.restore_data {
        Some((vendor, version, inner)) => parse_restore_data(vendor.as_str(), *version, inner),
        None => None,
    };
    Ok(
        SelectedOptions {
            source_types,
            multiple: options.multiple.unwrap_or(false),
            cursor_mode,
            picker_cursor_mode,
            persist_mode,
            restore,
        },
    )
}

/// The outputs that the first `n` texts stand for, if each stands for one.
pub open spec fn outputs_matching(
    texts: Seq<Seq<char>>,
    outputs: Seq<OutputInfo>,
    n: nat,
) -> Option<Seq<Target>>
    decreases n,
{
    if n == 0 {
        Some(Seq::empty())
    } else {
        match (outputs_matching(texts, outputs, (n - 1) as nat), output_matching(
            outputs,
            texts[n - 1],
        )) {
            (Some(before), Some(output)) => Some(before.push(Target::Output(output.name@))),
            _ => None,
        }
    }
}

/// The targets that a remembered selection stands for, where the client accepts them: it asks for
/// outputs, and for several if there are several.
pub open spec fn resolved(
    source_types: PickerSourceTypes,
    multiple: bool,
    monitors: Seq<Seq<char>>,
    outputs: Seq<OutputInfo>,
) -> Option<Seq<Target>> {
    if !source_types.monitor || monitors.len() == 0 || (!multiple && monitors.len() != 1) {
        None
    } else {
        outputs_matching(monitors, outputs, monitors.len())
    }
}

proof fn missing_output_spoils_all(
    texts: Seq<Seq<char>>,
    outputs: Seq<OutputInfo>,
    n: nat,
    m: nat,
)
    requires
        n <= m,
        outputs_matching(texts, outputs, n) is None,
    ensures
        outputs_matching(texts, outputs, m) is None,
    decreases m,
{
    if n < m {
        missing_output_spoils_all(texts, outputs, n, (m - 1) as nat);
    }
}

/// The targets that a remembered selection stands for. Without a result the user picks again.
pub fn resolve_restored_monitors(
    select: &SelectedOptions,
    restore: &RestoredSelection,
    outputs: &Vec<OutputInfo>,
) -> (r: Option<Vec<StreamTargetId>>)
    ensures
        match resolved(
            select.source_types,
            select.multiple,
            texts_of(restore.monitors@),
            outputs@,
        ) {
            Some(targets) => r is Some && targets_of(r->0@) == targets,
            None => r is None,
        },
{
    if !select.source_types.contains(PickerSourceTypes::monitors()) {
        return None;
    }
    if restore.monitors.len() == 0 {
        return None;
    }
    if !select.multiple && restore.monitors.len() != 1 {
        return None;
    }
    match_monitors(&restore.monitors, outputs)
}

fn match_monitors(monitors: &Vec<String>, outputs: &Vec<OutputInfo>) -> (r: Option<
    Vec<StreamTargetId>,
>)
    ensures
        match outputs_matching(texts_of(monitors@), outputs@, monitors@.len()) {
            Some(targets) => r is Some && targets_of(r->0@) == targets,
            None => r is None,
        },
{
    let ghost texts = texts_of(monitors@);
    let mut sources: Vec<StreamTargetId> = Vec::new();
    assert(targets_of(sources@) =~= Seq::<Target>::empty());
    for i in 0..monitors.len()
        invariant
            texts == texts_of(monitors@),
            outputs_matching(texts, outputs@, i as nat) == Some(targets_of(sources@)),
    {
        assert(texts[i as int] == monitors@[i as int]@);
        match find_matching_output(outputs, monitors[i].as_str()) {
            Some(output) => {
                let ghost before = sources@;
                sources.push(StreamTargetId::Output { name: output.name.clone() });
                assert(targets_of(sources@) =~= targets_of(before).push(
                    Target::Output(output.name@),
                ));
            },
            None => {
                proof {
                    missing_output_spoils_all(texts, outputs@, (i + 1) as nat, monitors@.len());
                }
                return None;
            },
        }
    }
    Some(sources)
}

/// What a client learns about a stream.
#[derive(Debug, Clone, Copy, PartialEq, Eq)]
pub struct StreamProperties {
    pub position: Option<(i32, i32)>,
    pub size: Option<(i32, i32)>,
    pub source_type: Option<u32>,
}

/// What a client learns about a stream of `target`. Sizes are sent as signed numbers.
pub open spec fn properties_of(target: Target, outputs: Seq<OutputInfo>) -> StreamProperties {
    match target {
        Target::Output(name) => {
            let logical = match output_named(outputs, name) {
                Some(output) => output.logical,
                None => None,
            };
            StreamProperties {
                position: match logical {
                    Some(logical) => Some((logical.x, logical.y)),
                    None => None,
                },
                size: match logical {
                    Some(logical) => Some((logical.width as i32, logical.height as i32)),
                    None => None,
                },
                source_type: Some(SOURCE_TYPE_MONITOR),
            }
        },
        Target::Window(_) => StreamProperties {
            position: None,
            size: None,
            source_type: Some(SOURCE_TYPE_WINDOW),
        },
    }
}

/// What a client learns about a stream of `target`.
pub fn stream_properties(target: &StreamTargetId, outputs: &Vec<OutputInfo>) -> (r: StreamProperties)
    ensures
        r == properties_of(target@, outputs@),
{
    match target {
        StreamTargetId::Output { name } => {
            let logical = match find_output(outputs, name.as_str()) {
                Some(output) => output.logical,
                None => None,
            };
            match logical {
                Some(logical) => StreamProperties {
                    position: Some((logical.x, logical.y)),
                    size: Some((logical.width as i32, logical.height as i32)),
                    source_type: Some(SOURCE_TYPE_MONITOR),
                },
                None => StreamProperties {
                    position: None,
                    size: None,
                    source_type: Some(SOURCE_TYPE_MONITOR),
                },
            }
        },
        StreamTargetId::Window { .. } => StreamProperties {
            position: None,
            size: None,
            source_type: Some(SOURCE_TYPE_WINDOW),
        },
    }
}

/// The texts that the first `n` targets are found again by, if each is an output that is there.
pub open spec fn remembered_texts(
    targets: Seq<Target>,
    outputs: Seq<OutputInfo>,
    n: nat,
) -> Option<Seq<Seq<char>>>
    decreases n,
{
    if n == 0 {
        Some(Seq::empty())
    } else {
        match (remembered_texts(targets, outputs, (n - 1) as nat), targets[n - 1]) {
            (Some(before), Target::Output(name)) => match output_named(outputs, name) {
                Some(output) => Some(before.push(match_text(output))),
                None => None,
            },
            _ => None,
        }
    }
}

proof fn unremembered_target_spoils_all(
    targets: Seq<Target>,
    outputs: Seq<OutputInfo>,
    n: nat,
    m: nat,
)
    requires
        n <= m,
        remembered_texts(targets, outputs, n) is None,
    ensures
        remembered_texts(targets, outputs, m) is None,
    decreases m,
{
    if n < m {
        unremembered_target_spoils_all(targets, outputs, n, (m - 1) as nat);
    }
}

fn monitor_texts(sources: &Vec<StreamTargetId>, outputs: &Vec<OutputInfo>) -> (r: Option<
    Vec<String>,
>)
    ensures
        match remembered_texts(targets_of(sources@), outputs@, sources@.len()) {
            Some(texts) => r is Some && texts_of(r->0@) == texts,
            None => r is None,
        },
{
    let ghost targets = targets_of(sources@);
    let mut monitors: Vec<String> = Vec::new();
    assert(texts_of(monitors@) =~= Seq::<Seq<char>>::empty());
    for i in 0..sources.len()
        invariant
            targets == targets_of(sources@),
            remembered_texts(targets, outputs@, i as nat) == Some(texts_of(monitors@)),
    {
        assert(targets[i as int] == sources@[i as int]@);
        let output = match &sources[i] {
            StreamTargetId::Output { name } => find_output(outputs, name.as_str()),
            StreamTargetId::Window { .. } => None,
        };
        match output {
            Some(output) => {
                let ghost before = monitors@;
                let text = monitor_match_string(output);
                monitors.push(text);
                assert(texts_of(monitors@) =~= texts_of(before).push(text@));
            },
            None => {
                proof {
                    unremembered_target_spoils_all(targets, outputs@, (i + 1) as nat, targets.len());
                }
                return None;
            },
        }
    }
    Some(monitors)
}

/// Whether `data` is the restore data for the outputs that the texts stand for.
pub open spec fn remembers(
    data: Option<(String, u32, Value<'static>)>,
    creation_time: i64,
    now: i64,
    texts: Seq<Seq<char>>,
) -> bool {
    match data {
        Some((vendor, version, value)) => {
            &&& vendor@ == "SHORINNIRI"@
            &&& version == RESTORE_FORMAT_VERSION
            &&& tree_of(&value) == selection_tree(creation_time, now, monitor_streams(texts))
        },
        None => false,
    }
}

/// The restore data for a selection that is used at `now`, in microseconds. A selection that was
/// restored keeps the time of its creation.
///
/// Only selections of outputs have restore data: a window is not recognized again.
pub fn serialize_restore_data(
    sources: &Vec<StreamTargetId>,
    creation_time: Option<i64>,
    outputs: &Vec<OutputInfo>,
    now: i64,
) -> (r: Option<(String, u32, Value<'static>)>)
    ensures
        match remembered_texts(targets_of(sources@), outputs@, sources@.len()) {
            Some(texts) => remembers(r, or_default(creation_time, now), now, texts),
            None => r is None,
        },
{
    let monitors = match monitor_texts(sources, outputs) {
        Some(monitors) => monitors,
        None => {
            return None;
        },
    };
    Some(build_restore_data(creation_time.unwrap_or(now), now, &monitors))
}

proof fn remembered_outputs_match(
    targets: Seq<Target>,
    texts: Seq<Seq<char>>,
    outputs: Seq<OutputInfo>,
    n: nat,
)
    requires
        n <= targets.len(),
        remembered_texts(targets, outputs, targets.len()) == Some(texts),
        forall|i: int| 0 <= i < targets.len() ==> #[trigger] found_again(targets[i], outputs),
    ensures
        remembered_texts(targets, outputs, n) is Some,
        remembered_texts(targets, outputs, n)->0.len() == n,
        outputs_matching(
            remembered_texts(targets, outputs, n)->0,
            outputs,
            n,
        ) == Some(targets.take(n as int)),
    decreases n,
{
    if remembered_texts(targets, outputs, n) is None {
        unremembered_target_spoils_all(targets, outputs, n, targets.len());
    }
    if n == 0 {
        assert(targets.take(0) =~= Seq::<Target>::empty());
    } else {
        remembered_outputs_match(targets, texts, outputs, (n - 1) as nat);
        assert(found_again(targets[n - 1], outputs));
        let before = remembered_texts(targets, outputs, (n - 1) as nat)->0;
        let now = remembered_texts(targets, outputs, n)->0;
        outputs_matching_looks_at_a_prefix(before, now, outputs, (n - 1) as nat);
        assert(targets.take(n as int) =~= targets.take(n - 1).push(targets[n - 1]));
    }
}

proof fn outputs_matching_looks_at_a_prefix(
    a: Seq<Seq<char>>,
    b: Seq<Seq<char>>,
    outputs: Seq<OutputInfo>,
    n: nat,
)
    requires
        n <= a.len(),
        n <= b.len(),
        forall|i: int| 0 <= i < n ==> a[i] == b[i],
    ensures
        outputs_matching(a, outputs, n) == outputs_matching(b, outputs, n),
    decreases n,
{
    if n > 0 {
        outputs_matching_looks_at_a_prefix(a, b, outputs, (n - 1) as nat);
    }
}

/// Whether the output `target` is the first enabled one with its make, model and serial.
pub open spec fn found_again(target: Target, outputs: Seq<OutputInfo>) -> bool {
    match target {
        Target::Output(name) => match output_named(outputs, name) {
            Some(output) => match output_matching(outputs, match_text(output)) {
                Some(found) => found.name@ == name,
                None => false,
            },
            None => false,
        },
        Target::Window(_) => false,
    }
}

/// A remembered selection of outputs is restored without asking: its restore data is read back,
/// and stands for the same outputs, if they are still enabled and can be told apart.
pub proof fn remembered_selection_is_restored(
    targets: Seq<Target>,
    outputs: Seq<OutputInfo>,
    creation_time: i64,
    now: i64,
    source_types: PickerSourceTypes,
    multiple: bool,
)
    requires
        targets.len() > 0,
        multiple || targets.len() == 1,
        source_types.monitor,
        forall|i: int| 0 <= i < targets.len() ==> #[trigger] found_again(targets[i], outputs),
    ensures
        remembered_texts(targets, outputs, targets.len()) is Some,
        ({
            let texts = remembered_texts(targets, outputs, targets.len())->0;
            let data = selection_tree(creation_time, now, monitor_streams(texts));
            let back = parsed("SHORINNIRI"@, RESTORE_FORMAT_VERSION, data);
            &&& back == Some(Restored { creation_time, monitors: texts })
            &&& resolved(source_types, multiple, back->0.monitors, outputs) == Some(targets)
        }),
{
    outputs_are_remembered(targets, outputs, targets.len());
    let texts = remembered_texts(targets, outputs, targets.len())->0;
    remembered_outputs_match(targets, texts, outputs, targets.len());
    restore_data_is_read_back(creation_time, now, texts);
    assert(targets.take(targets.len() as int) =~= targets);
}

proof fn outputs_are_remembered(targets: Seq<Target>, outputs: Seq<OutputInfo>, n: nat)
    requires
        n <= targets.len(),
        forall|i: int| 0 <= i < targets.len() ==> #[trigger] found_again(targets[i], outputs),
    ensures
        remembered_texts(targets, outputs, n) is Some,
    decreases n,
{
    if n > 0 {
        outputs_are_remembered(targets, outputs, (n - 1) as nat);
        assert(found_again(targets[n - 1], outputs));
    }
}

/// A selection that holds a window is not remembered.
pub proof fn windows_are_not_remembered(targets: Seq<Target>, outputs: Seq<OutputInfo>, i: int)
    requires
        0 <= i < targets.len(),
        targets[i] is Window,
    ensures
        remembered_texts(targets, outputs, targets.len()) is None,
{
    assert(remembered_texts(targets, outputs, (i + 1) as nat) is None);
    unremembered_target_spoils_all(targets, outputs, (i + 1) as nat, targets.len());
}

} // verus!
