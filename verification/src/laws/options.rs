//! Options: what the numbers on the bus stand for, and what a client gets that says nothing.

use vstd::prelude::*;
use vstd::std_specs::convert::TryFromSpec;

use crate::dbus::freedesktop_portal::{
    cast_cursor_mode, default_selected, SelectSourcesOptions, Selected,
};
use crate::dbus::picker_options::{
    or_default, PickSourcesOptionsDict, PickerCursorMode, PickerOptions, PickerPersistMode,
    PickerSourceTypes,
};
use crate::dbus::restore_data::{parsed, tree_of};
use crate::text::decimal;

verus! {

/// The kinds of sources are bits: the first one stands for outputs and the second one for windows.
pub proof fn kinds_are_bits(types: PickerSourceTypes, other: PickerSourceTypes)
    ensures
        types.mask() <= 3,
        types.monitor <==> types.mask() % 2 == 1,
        types.window <==> types.mask() >= 2,
        types.mask() == other.mask() ==> types == other,
        types.includes(other) <==> (other.monitor ==> types.monitor) && (other.window
            ==> types.window),
        types.includes(types),
{
}

/// The cursor modes are bits of their own.
pub proof fn cursor_modes_are_bits(one: PickerCursorMode, other: PickerCursorMode)
    ensures
        one is Hidden <==> one.number() == 1,
        one is Embedded <==> one.number() == 2,
        one is Metadata <==> one.number() == 4,
        one.number() == other.number() ==> one == other,
{
}

/// The modes of remembering are numbered by how long they remember.
pub proof fn modes_are_numbered_by_length(one: PickerPersistMode, other: PickerPersistMode)
    ensures
        one is Never <==> one.number() == 0,
        one is Transient <==> one.number() == 1,
        one is Persistent <==> one.number() == 2,
        one.number() == other.number() ==> one == other,
{
}

/// A cast shows the cursor as the client asked.
pub proof fn casts_show_the_cursor_as_asked(mode: PickerCursorMode)
    ensures
        cast_cursor_mode(mode) is Hidden <==> mode is Hidden,
        cast_cursor_mode(mode) is Embedded <==> mode is Embedded,
        cast_cursor_mode(mode) is Metadata <==> mode is Metadata,
{
}

/// What is given counts, and the default only where nothing is.
pub proof fn defaults_fill_in<T>(value: T, default: T)
    ensures
        or_default(Some(value), default) == value,
        or_default(None, default) == default,
{
}

/// The options of a picker request are good exactly if each of them is absent or one of the numbers
/// that stand for something. Else the answer names the first bad one.
pub proof fn picker_options_are_good_iff(options: PickSourcesOptionsDict)
    ensures
        ({
            let types = options.types is None || options.types == Some(1u32) || options.types
                == Some(2u32) || options.types == Some(3u32);
            let cursor = options.cursor_mode is None || options.cursor_mode == Some(1u32)
                || options.cursor_mode == Some(2u32) || options.cursor_mode == Some(4u32);
            let persist = options.persist_mode is None || options.persist_mode == Some(0u32)
                || options.persist_mode == Some(1u32) || options.persist_mode == Some(2u32);
            &&& options.fault() is None <==> types && cursor && persist
            &&& options.types == Some(0u32) ==> options.fault() == Some(
                "types must include at least one source type"@,
            )
            &&& !types && options.types != Some(0u32) ==> options.fault() == Some(
                "types contains unsupported source type bits"@,
            )
            &&& types && !cursor ==> options.fault() == Some(
                "cursor-mode must be hidden (1), embedded (2), or metadata (4)"@,
            )
            &&& types && cursor && !persist ==> options.fault() == Some(
                "persist-mode must be none (0), transient (1), or persistent (2)"@,
            )
        }),
{
}

/// A picker request asks for what its options say; where they say nothing, for one output without
/// the cursor, with nothing remembered.
pub proof fn picker_options_are_taken_as_given(
    options: PickerOptions,
    dict: PickSourcesOptionsDict,
)
    requires
        options.follows(dict),
    ensures
        dict.app_id is Some ==> options.app_id@ == dict.app_id->0@,
        dict.app_id is None ==> options.app_id@.len() == 0,
        dict.types is None ==> options.source_types.monitor && !options.source_types.window,
        dict.types == Some(1u32) ==> options.source_types.monitor && !options.source_types.window,
        dict.types == Some(2u32) ==> !options.source_types.monitor && options.source_types.window,
        dict.types == Some(3u32) ==> options.source_types.monitor && options.source_types.window,
        dict.multiple is Some ==> options.multiple == dict.multiple->0,
        dict.multiple is None ==> !options.multiple,
        dict.cursor_mode is None || dict.cursor_mode == Some(1u32) ==> options.cursor_mode
            is Hidden,
        dict.cursor_mode == Some(2u32) ==> options.cursor_mode is Embedded,
        dict.cursor_mode == Some(4u32) ==> options.cursor_mode is Metadata,
        dict.persist_mode is None || dict.persist_mode == Some(0u32) ==> options.persist_mode
            is Never,
        dict.persist_mode == Some(1u32) ==> options.persist_mode is Transient,
        dict.persist_mode == Some(2u32) ==> options.persist_mode is Persistent,
{
}

/// The options of a portal client are good exactly if each of them is absent or one of the numbers
/// that stand for something. Else the answer names the first bad one.
pub proof fn portal_options_are_good_iff(options: SelectSourcesOptions)
    ensures
        ({
            let types = options.types is None || options.types == Some(1u32) || options.types
                == Some(2u32) || options.types == Some(3u32);
            let cursor = options.cursor_mode is None || options.cursor_mode == Some(1u32)
                || options.cursor_mode == Some(2u32) || options.cursor_mode == Some(4u32);
            let persist = options.persist_mode is None || options.persist_mode == Some(0u32)
                || options.persist_mode == Some(1u32) || options.persist_mode == Some(2u32);
            &&& options.fault() is None <==> types && cursor && persist
            &&& !types ==> options.fault() == Some(
                "invalid source types "@ + decimal(options.types->0 as nat),
            )
            &&& types && !cursor ==> options.fault() == Some(
                "cursor-mode must be hidden (1), embedded (2), or metadata (4)"@,
            )
            &&& types && cursor && !persist ==> options.fault() == Some(
                "persist-mode must be none (0), transient (1), or persistent (2)"@,
            )
        }),
{
}

/// A portal client gets what its options say; where they say nothing, one output without the
/// cursor, with nothing remembered and nothing restored.
pub proof fn portal_options_are_taken_as_given(options: SelectSourcesOptions, selected: Selected)
    requires
        options.asks_for(selected),
    ensures
        options.types is None ==> selected.source_types.monitor && !selected.source_types.window,
        options.types == Some(1u32) ==> selected.source_types.monitor
            && !selected.source_types.window,
        options.types == Some(2u32) ==> !selected.source_types.monitor
            && selected.source_types.window,
        options.types == Some(3u32) ==> selected.source_types.monitor
            && selected.source_types.window,
        options.multiple is Some ==> selected.multiple == options.multiple->0,
        options.multiple is None ==> !selected.multiple,
        options.cursor_mode is None || options.cursor_mode == Some(1u32)
            ==> selected.picker_cursor_mode is Hidden && selected.cursor_mode is Hidden,
        options.cursor_mode == Some(2u32) ==> selected.picker_cursor_mode is Embedded
            && selected.cursor_mode is Embedded,
        options.cursor_mode == Some(4u32) ==> selected.picker_cursor_mode is Metadata
            && selected.cursor_mode is Metadata,
        options.persist_mode is None || options.persist_mode == Some(0u32) ==> selected.persist_mode
            is Never,
        options.persist_mode == Some(1u32) ==> selected.persist_mode is Transient,
        options.persist_mode == Some(2u32) ==> selected.persist_mode is Persistent,
        options.restore_data is None ==> selected.restore is None,
        options.restore_data matches Some((vendor, version, value)) ==> selected.restore == parsed(
            vendor@,
            version,
            tree_of(&value),
        ),
{
}

/// A client that selected nothing gets what one gets whose options say nothing.
pub proof fn selecting_nothing_is_asking_for_the_default(
    options: SelectSourcesOptions,
    selected: Selected,
)
    requires
        options.types is None && options.multiple is None && options.cursor_mode is None
            && options.persist_mode is None && options.restore_data is None,
    ensures
        options.fault() is None,
        options.asks_for(selected) <==> selected == default_selected(),
        default_selected().source_types.monitor && !default_selected().source_types.window,
        !default_selected().multiple,
        default_selected().cursor_mode is Hidden,
        default_selected().picker_cursor_mode is Hidden,
        default_selected().persist_mode is Never,
        default_selected().restore is None,
{
}

/// A number off the bus stands for a mode exactly if it is the number of that mode.
pub proof fn numbers_stand_for_their_mode(n: u32)
    ensures
        PickerCursorMode::try_from_spec(n) is Ok <==> n == 1 || n == 2 || n == 4,
        PickerCursorMode::try_from_spec(n) is Ok ==> PickerCursorMode::try_from_spec(
            n,
        )->Ok_0.number() == n,
        PickerCursorMode::try_from_spec(n) is Err ==> PickerCursorMode::try_from_spec(n)->Err_0@
            == "cursor-mode must be hidden (1), embedded (2), or metadata (4)"@,
        PickerPersistMode::try_from_spec(n) is Ok <==> n <= 2,
        PickerPersistMode::try_from_spec(n) is Ok ==> PickerPersistMode::try_from_spec(
            n,
        )->Ok_0.number() == n,
        PickerPersistMode::try_from_spec(n) is Err ==> PickerPersistMode::try_from_spec(n)->Err_0@
            == "persist-mode must be none (0), transient (1), or persistent (2)"@,
{
}

} // verus!
