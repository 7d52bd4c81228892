//! Outputs: how they are found by name, recognized again, and described to clients.

use vstd::prelude::*;

use crate::dbus::freedesktop_portal::{
    outputs_matching, properties_of, remembered_texts, resolved,
};
use crate::dbus::outputs::{match_text, output_matching, output_named, OutputInfo};
use crate::dbus::picker_options::PickerSourceTypes;
use crate::dbus::target::Target;

verus! {

/// An output is found by its name: it is one of the outputs, it has the name, and none before it
/// has. Nothing is found only if no output has the name.
pub proof fn outputs_are_found_by_name(outputs: Seq<OutputInfo>, name: Seq<char>)
    ensures
        match output_named(outputs, name) {
            Some(output) => exists|i: int|
                0 <= i < outputs.len() && #[trigger] outputs[i] == output && output.name@ == name
                    && forall|j: int| 0 <= j < i ==> (#[trigger] outputs[j]).name@ != name,
            None => forall|j: int| 0 <= j < outputs.len() ==> (#[trigger] outputs[j]).name@ != name,
        },
    decreases outputs.len(),
{
    if outputs.len() > 0 {
        let rest = outputs.drop_first();
        outputs_are_found_by_name(rest, name);
        if outputs[0].name@ == name {
            assert(outputs[0] == output_named(outputs, name)->0);
        } else {
            assert forall|j: int| 0 <= j < rest.len() implies rest[j] == outputs[j + 1] by {}
            match output_named(outputs, name) {
                Some(output) => {
                    let i = choose|i: int|
                        0 <= i < rest.len() && #[trigger] rest[i] == output && output.name@ == name
                            && forall|j: int| 0 <= j < i ==> (#[trigger] rest[j]).name@ != name;
                    assert(outputs[i + 1] == output);
                    assert forall|j: int| 0 <= j < i + 1 implies (#[trigger] outputs[j]).name@
                        != name by {
                        if j > 0 {
                            assert(rest[j - 1].name@ != name);
                        }
                    }
                },
                None => {
                    assert forall|j: int| 0 <= j < outputs.len() implies (#[trigger] outputs[j]).name@
                        != name by {
                        if j > 0 {
                            assert(rest[j - 1].name@ != name);
                        }
                    }
                },
            }
        }
    }
}

/// A monitor is recognized by its make, its model and its serial, where its connector stands in for
/// a serial that it does not have. One of which nothing is known is recognized by its connector.
pub proof fn monitors_are_recognized_by_identity(output: OutputInfo)
    ensures
        output.serial is Some && output.make@ != "unknown"@ ==> match_text(output) == output.make@
            + ":"@ + output.model@ + ":"@ + output.serial->0@,
        output.serial is Some && output.model@ != "unknown"@ ==> match_text(output) == output.make@
            + ":"@ + output.model@ + ":"@ + output.serial->0@,
        output.serial is Some && output.serial->0@ != "unknown"@ ==> match_text(output)
            == output.make@ + ":"@ + output.model@ + ":"@ + output.serial->0@,
        output.serial is None && !(output.make@ == "unknown"@ && output.model@ == "unknown"@
            && output.name@ == "unknown"@) ==> match_text(output) == output.make@ + ":"@
            + output.model@ + ":"@ + output.name@,
        output.serial is Some && output.make@ == "unknown"@ && output.model@ == "unknown"@
            && output.serial->0@ == "unknown"@ ==> match_text(output) == output.name@,
        output.serial is None && output.make@ == "unknown"@ && output.model@ == "unknown"@
            && output.name@ == "unknown"@ ==> match_text(output) == output.name@,
{
}

/// The connector of a monitor with a serial does not matter for recognizing it, and neither does
/// where it stands.
pub proof fn monitors_are_recognized_on_other_connectors(one: OutputInfo, other: OutputInfo)
    requires
        one.make@ == other.make@,
        one.model@ == other.model@,
        one.serial is Some,
        other.serial is Some,
        one.serial->0@ == other.serial->0@,
        one.make@ != "unknown"@ || one.model@ != "unknown"@ || one.serial->0@ != "unknown"@,
    ensures
        match_text(one) == match_text(other),
{
}

/// Monitors of the same make and model are told apart by their serials.
pub proof fn monitors_of_a_kind_are_told_apart(one: OutputInfo, other: OutputInfo)
    requires
        one.make@ == other.make@,
        one.model@ == other.model@,
        one.make@ != "unknown"@ || one.model@ != "unknown"@,
        one.serial is Some,
        other.serial is Some,
        one.serial->0@ != other.serial->0@,
    ensures
        match_text(one) != match_text(other),
{
    let head = one.make@ + ":"@ + one.model@ + ":"@;
    let n = head.len() as int;
    assert(match_text(one) =~= head + one.serial->0@);
    assert(match_text(other) =~= head + other.serial->0@);
    assert(match_text(one).skip(n) =~= one.serial->0@);
    assert(match_text(other).skip(n) =~= other.serial->0@);
}

/// What a text is recognized as is an enabled output whose text it is, and the first such one.
/// Nothing is recognized only if no enabled output has the text.
pub proof fn outputs_are_recognized_by_their_text(outputs: Seq<OutputInfo>, text: Seq<char>)
    ensures
        match output_matching(outputs, text) {
            Some(output) => {
                &&& output.logical is Some
                &&& match_text(output) == text
                &&& exists|i: int|
                    0 <= i < outputs.len() && #[trigger] outputs[i] == output && forall|j: int|
                        0 <= j < i ==> !((#[trigger] outputs[j]).logical is Some && match_text(
                            outputs[j],
                        ) == text)
            },
            None => forall|j: int|
                0 <= j < outputs.len() ==> !((#[trigger] outputs[j]).logical is Some && match_text(
                    outputs[j],
                ) == text),
        },
    decreases outputs.len(),
{
    if outputs.len() > 0 {
        let rest = outputs.drop_first();
        outputs_are_recognized_by_their_text(rest, text);
        if outputs[0].logical is Some && match_text(outputs[0]) == text {
            assert(outputs[0] == output_matching(outputs, text)->0);
        } else {
            match output_matching(outputs, text) {
                Some(output) => {
                    let i = choose|i: int|
                        0 <= i < rest.len() && #[trigger] rest[i] == output && forall|j: int|
                            0 <= j < i ==> !((#[trigger] rest[j]).logical is Some && match_text(
                                rest[j],
                            ) == text);
                    assert(outputs[i + 1] == output);
                    assert forall|j: int| 0 <= j < i + 1 implies !((
                    #[trigger] outputs[j]).logical is Some && match_text(outputs[j]) == text) by {
                        if j > 0 {
                            assert(rest[j - 1] == outputs[j]);
                        }
                    }
                },
                None => {
                    assert forall|j: int| 0 <= j < outputs.len() implies !((
                    #[trigger] outputs[j]).logical is Some && match_text(outputs[j]) == text) by {
                        if j > 0 {
                            assert(rest[j - 1] == outputs[j]);
                        }
                    }
                },
            }
        }
    }
}

proof fn each_text_is_recognized(texts: Seq<Seq<char>>, outputs: Seq<OutputInfo>, n: nat)
    requires
        n <= texts.len(),
    ensures
        match outputs_matching(texts, outputs, n) {
            Some(targets) => {
                &&& targets.len() == n
                &&& forall|i: int|
                    0 <= i < n ==> output_matching(outputs, #[trigger] texts[i]) is Some
                        && targets[i] == Target::Output(
                        output_matching(outputs, texts[i])->0.name@,
                    )
            },
            None => exists|i: int|
                0 <= i < n && output_matching(outputs, #[trigger] texts[i]) is None,
        },
    decreases n,
{
    if n > 0 {
        each_text_is_recognized(texts, outputs, (n - 1) as nat);
        if output_matching(outputs, texts[n - 1]) is None {
            assert(texts[n - 1] == texts[n - 1]);
        }
    }
}

/// A restored selection stands only for outputs that were remembered: each of its targets is the
/// name of an enabled output that has the remembered make, model and serial, or the remembered
/// connector where those do not say enough.
pub proof fn restored_outputs_are_the_remembered_ones(
    source_types: PickerSourceTypes,
    multiple: bool,
    monitors: Seq<Seq<char>>,
    outputs: Seq<OutputInfo>,
    i: int,
)
    requires
        resolved(source_types, multiple, monitors, outputs) is Some,
        0 <= i < monitors.len(),
    ensures
        source_types.monitor,
        resolved(source_types, multiple, monitors, outputs)->0.len() == monitors.len(),
        exists|k: int| #![trigger outputs[k]]
            {
                let serial = if outputs[k].serial is Some {
                    outputs[k].serial->0@
                } else {
                    outputs[k].name@
                };
                &&& 0 <= k < outputs.len()
                &&& outputs[k].logical is Some
                &&& resolved(source_types, multiple, monitors, outputs)->0[i] == Target::Output(
                    outputs[k].name@,
                )
                &&& monitors[i] == if outputs[k].make@ == "unknown"@ && outputs[k].model@
                    == "unknown"@ && serial == "unknown"@ {
                    outputs[k].name@
                } else {
                    outputs[k].make@ + ":"@ + outputs[k].model@ + ":"@ + serial
                }
            },
{
    each_text_is_recognized(monitors, outputs, monitors.len());
    outputs_are_recognized_by_their_text(outputs, monitors[i]);
    let found = output_matching(outputs, monitors[i])->0;
    let k = choose|k: int|
        0 <= k < outputs.len() && #[trigger] outputs[k] == found && forall|j: int|
            0 <= j < k ==> !((#[trigger] outputs[j]).logical is Some && match_text(outputs[j])
                == monitors[i]);
    assert(outputs[k] == found);
}

/// A selection is restored exactly if the client accepts outputs, something was remembered, it is a
/// single output unless the client accepts several, and every remembered text is that of an enabled
/// output. So nothing is restored once an output is gone.
pub proof fn selections_are_restored_iff(
    source_types: PickerSourceTypes,
    multiple: bool,
    monitors: Seq<Seq<char>>,
    outputs: Seq<OutputInfo>,
)
    ensures
        resolved(source_types, multiple, monitors, outputs) is Some <==> {
            &&& source_types.monitor
            &&& monitors.len() == 1 || (multiple && monitors.len() > 1)
            &&& forall|i: int|
                0 <= i < monitors.len() ==> exists|k: int|
                    0 <= k < outputs.len() && (#[trigger] outputs[k]).logical is Some && match_text(
                        outputs[k],
                    ) == #[trigger] monitors[i]
        },
{
    each_text_is_recognized(monitors, outputs, monitors.len());
    assert forall|i: int| 0 <= i < monitors.len() implies (output_matching(
        outputs,
        #[trigger] monitors[i],
    ) is Some <==> exists|k: int|
        0 <= k < outputs.len() && (#[trigger] outputs[k]).logical is Some && match_text(outputs[k])
            == monitors[i]) by {
        outputs_are_recognized_by_their_text(outputs, monitors[i]);
        if output_matching(outputs, monitors[i]) is Some {
            let found = output_matching(outputs, monitors[i])->0;
            let k = choose|k: int|
                0 <= k < outputs.len() && #[trigger] outputs[k] == found && forall|j: int|
                    0 <= j < k ==> !((#[trigger] outputs[j]).logical is Some && match_text(
                        outputs[j],
                    ) == monitors[i]);
            assert(outputs[k] == found);
        }
    }
}

/// A stream of an output says where the output stands, and its size: its logical width first, and
/// its logical height second.
pub proof fn output_streams_have_the_size_of_the_output(outputs: Seq<OutputInfo>, k: int)
    requires
        0 <= k < outputs.len(),
        outputs[k].logical is Some,
        forall|j: int| 0 <= j < k ==> (#[trigger] outputs[j]).name@ != outputs[k].name@,
    ensures
        ({
            let told = properties_of(Target::Output(outputs[k].name@), outputs);
            let logical = outputs[k].logical->0;
            let position = told.position->0;
            let size = told.size->0;
            &&& told.position is Some && told.size is Some
            &&& position.0 == logical.x
            &&& position.1 == logical.y
            &&& size.0 == logical.width as i32
            &&& size.1 == logical.height as i32
            &&& logical.width <= i32::MAX ==> size.0 == logical.width
            &&& logical.height <= i32::MAX ==> size.1 == logical.height
            &&& told.source_type == Some(1u32)
        }),
{
    outputs_are_found_by_name(outputs, outputs[k].name@);
    let found = output_named(outputs, outputs[k].name@);
    assert(found is Some);
    let i = choose|i: int|
        0 <= i < outputs.len() && #[trigger] outputs[i] == found->0 && found->0.name@
            == outputs[k].name@ && forall|j: int|
            0 <= j < i ==> (#[trigger] outputs[j]).name@ != outputs[k].name@;
    assert(i == k);
}

/// A stream of a window, and one of an output that is not there or that is disabled, stand nowhere
/// and have no size. The kinds of streams are told apart.
pub proof fn other_streams_stand_nowhere(outputs: Seq<OutputInfo>, name: Seq<char>, id: u64)
    ensures
        properties_of(Target::Window(id), outputs).position is None,
        properties_of(Target::Window(id), outputs).size is None,
        properties_of(Target::Window(id), outputs).source_type == Some(2u32),
        properties_of(Target::Output(name), outputs).source_type == Some(1u32),
        (forall|k: int|
            0 <= k < outputs.len() && (#[trigger] outputs[k]).name@ == name ==> outputs[k].logical
                is None) ==> properties_of(Target::Output(name), outputs).position is None
            && properties_of(Target::Output(name), outputs).size is None,
{
    outputs_are_found_by_name(outputs, name);
}

proof fn each_target_is_remembered(targets: Seq<Target>, outputs: Seq<OutputInfo>, n: nat)
    requires
        n <= targets.len(),
    ensures
        match remembered_texts(targets, outputs, n) {
            Some(texts) => {
                &&& texts.len() == n
                &&& forall|i: int|
                    0 <= i < n ==> (#[trigger] targets[i]) is Output && output_named(
                        outputs,
                        targets[i]->Output_0,
                    ) is Some && texts[i] == match_text(
                        output_named(outputs, targets[i]->Output_0)->0,
                    )
            },
            None => exists|i: int|
                0 <= i < n && ((#[trigger] targets[i]) is Window || output_named(
                    outputs,
                    targets[i]->Output_0,
                ) is None),
        },
    decreases n,
{
    if n > 0 {
        each_target_is_remembered(targets, outputs, (n - 1) as nat);
        assert(targets[n - 1] == targets[n - 1]);
    }
}

/// A selection is remembered exactly if it holds only outputs that are there, and then by the text
/// of each of them, in order.
pub proof fn selections_are_remembered_by_text(targets: Seq<Target>, outputs: Seq<OutputInfo>)
    ensures
        remembered_texts(targets, outputs, targets.len()) is Some <==> forall|i: int|
            0 <= i < targets.len() ==> (#[trigger] targets[i]) is Output && exists|k: int|
                0 <= k < outputs.len() && (#[trigger] outputs[k]).name@ == targets[i]->Output_0,
        remembered_texts(targets, outputs, targets.len()) is Some ==> {
            let texts = remembered_texts(targets, outputs, targets.len())->0;
            &&& texts.len() == targets.len()
            &&& forall|i: int|
                0 <= i < targets.len() ==> exists|k: int|
                    0 <= k < outputs.len() && (#[trigger] outputs[k]).name@ == (
                    #[trigger] targets[i])->Output_0 && texts[i] == match_text(outputs[k])
        },
{
    each_target_is_remembered(targets, outputs, targets.len());
    assert forall|i: int|
        0 <= i < targets.len() && (#[trigger] targets[i]) is Output implies (output_named(
        outputs,
        targets[i]->Output_0,
    ) is Some <==> exists|k: int|
        0 <= k < outputs.len() && (#[trigger] outputs[k]).name@ == targets[i]->Output_0) && (
    output_named(outputs, targets[i]->Output_0) is Some ==> exists|k: int|
        0 <= k < outputs.len() && (#[trigger] outputs[k]).name@ == targets[i]->Output_0
            && outputs[k] == output_named(outputs, targets[i]->Output_0)->0) by {
        let name = targets[i]->Output_0;
        outputs_are_found_by_name(outputs, name);
        if output_named(outputs, name) is Some {
            let found = output_named(outputs, name)->0;
            let k = choose|k: int|
                0 <= k < outputs.len() && #[trigger] outputs[k] == found && found.name@ == name
                    && forall|j: int| 0 <= j < k ==> (#[trigger] outputs[j]).name@ != name;
            assert(outputs[k] == found);
        }
    }
}

} // verus!
