//! The outputs of the compositor, as far as screen casting looks at them.

use vstd::prelude::*;

use crate::text::{join, same_text};

verus! {

/// Where an output stands in the layout, in logical coordinates.
#[derive(Clone, Copy, Debug, PartialEq, Eq, Structural)]
pub struct LogicalOutput {
    pub x: i32,
    pub y: i32,
    pub width: u32,
    pub height: u32,
}

/// An output. One that is disabled stands nowhere in the layout.
#[derive(Debug, PartialEq, Eq)]
pub struct OutputInfo {
    pub name: String,
    pub make: String,
    pub model: String,
    pub serial: Option<String>,
    pub logical: Option<LogicalOutput>,
}

impl Clone for OutputInfo {
    fn clone(&self) -> (r: Self)
        ensures
            r == *self,
    {
        OutputInfo {
            name: self.name.clone(),
            make: self.make.clone(),
            model: self.model.clone(),
            serial: match &self.serial {
                Some(serial) => Some(serial.clone()),
                None => None,
            },
            logical: self.logical,
        }
    }
}

/// The first output with the given name.
pub open spec fn output_named(outputs: Seq<OutputInfo>, name: Seq<char>) -> Option<OutputInfo>
    decreases outputs.len(),
{
    if outputs.len() == 0 {
        None
    } else if outputs.first().name@ == name {
        Some(outputs.first())
    } else {
        output_named(outputs.drop_first(), name)
    }
}

/// The first output with the given name.
pub fn find_output<'a>(outputs: &'a Vec<OutputInfo>, name: &str) -> (r: Option<&'a OutputInfo>)
    ensures
        match r {
            Some(output) => output_named(outputs@, name@) == Some(*output),
            None => output_named(outputs@, name@) is None,
        },
{
    assert(outputs@.skip(0) =~= outputs@);
    for i in 0..outputs.len()
        invariant
            output_named(outputs@, name@) == output_named(outputs@.skip(i as int), name@),
    {
        let ghost rest = outputs@.skip(i as int);
        assert(rest.first() == outputs@[i as int]);
        assert(rest.drop_first() =~= outputs@.skip(i + 1));
        if same_text(outputs[i].name.as_str(), name) {
            return Some(&outputs[i]);
        }
    }
    None
}

/// The text that a monitor is found again by: its make, model and serial, or its connector if
/// nothing is known of it. A monitor without a serial is told apart by its connector.
pub open spec fn match_text(output: OutputInfo) -> Seq<char> {
    let serial = match output.serial {
        Some(serial) => serial@,
        None => output.name@,
    };
    if output.make@ == "unknown"@ && output.model@ == "unknown"@ && serial == "unknown"@ {
        output.name@
    } else {
        output.make@ + ":"@ + output.model@ + ":"@ + serial
    }
}

/// The text that a monitor is found again by.
pub fn monitor_match_string(output: &OutputInfo) -> (text: String)
    ensures
        text@ == match_text(*output),
{
    let serial = match &output.serial {
        Some(serial) => serial.as_str(),
        None => output.name.as_str(),
    };
    if same_text(output.make.as_str(), "unknown") && same_text(output.model.as_str(), "unknown")
        && same_text(serial, "unknown") {
        output.name.clone()
    } else {
        let text = join(output.make.as_str(), ":");
        let text = join(text.as_str(), output.model.as_str());
        let text = join(text.as_str(), ":");
        join(text.as_str(), serial)
    }
}

/// The first enabled output that `text` stands for.
pub open spec fn output_matching(outputs: Seq<OutputInfo>, text: Seq<char>) -> Option<OutputInfo>
    decreases outputs.len(),
{
    if outputs.len() == 0 {
        None
    } else if outputs.first().logical is Some && match_text(outputs.first()) == text {
        Some(outputs.first())
    } else {
        output_matching(outputs.drop_first(), text)
    }
}

/// The first enabled output that `text` stands for.
pub fn find_matching_output<'a>(outputs: &'a Vec<OutputInfo>, text: &str) -> (r: Option<
    &'a OutputInfo,
>)
    ensures
        match r {
            Some(output) => output_matching(outputs@, text@) == Some(*output),
            None => output_matching(outputs@, text@) is None,
        },
{
    assert(outputs@.skip(0) =~= outputs@);
    for i in 0..outputs.len()
        invariant
            output_matching(outputs@, text@) == output_matching(outputs@.skip(i as int), text@),
    {
        let ghost rest = outputs@.skip(i as int);
        assert(rest.first() == outputs@[i as int]);
        assert(rest.drop_first() =~= outputs@.skip(i + 1));
        if outputs[i].logical.is_some() {
            let own = monitor_match_string(&outputs[i]);
            if same_text(own.as_str(), text) {
                return Some(&outputs[i]);
            }
        }
    }
    None
}

} // verus!
