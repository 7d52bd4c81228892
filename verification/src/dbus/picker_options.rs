//! What a client asks of the source picker.

use vstd::prelude::*;

verus! {

/// The kinds of sources that a client accepts.
#[derive(Debug, Clone, Copy, PartialEq, Eq, Structural)]
pub struct PickerSourceTypes {
    pub monitor: bool,
    pub window: bool,
}

impl PickerSourceTypes {
    /// Only outputs.
    pub fn monitors() -> (r: PickerSourceTypes)
        ensures
            r == (PickerSourceTypes { monitor: true, window: false }),
    {
        PickerSourceTypes { monitor: true, window: false }
    }

    /// Only windows.
    pub fn windows() -> (r: PickerSourceTypes)
        ensures
            r == (PickerSourceTypes { monitor: false, window: true }),
    {
        PickerSourceTypes { monitor: false, window: true }
    }

    /// The number that stands for the kinds on the bus: one bit for each.
    pub open spec fn mask(self) -> u32 {
        match (self.monitor, self.window) {
            (false, false) => 0,
            (true, false) => 1,
            (false, true) => 2,
            (true, true) => 3,
        }
    }

    /// The number that stands for the kinds on the bus.
    pub fn bits(self) -> (bits: u32)
        ensures
            bits == self.mask(),
    {
        match (self.monitor, self.window) {
            (false, false) => 0,
            (true, false) => 1,
            (false, true) => 2,
            (true, true) => 3,
        }
    }

    /// The kinds that a number stands for, unless it has a bit that stands for none.
    pub fn from_bits(bits: u32) -> (r: Option<PickerSourceTypes>)
        ensures
            r is Some <==> bits <= 3,
            r is Some ==> r->0.mask() == bits,
    {
        match bits {
            0 => Some(PickerSourceTypes { monitor: false, window: false }),
            1 => Some(PickerSourceTypes { monitor: true, window: false }),
            2 => Some(PickerSourceTypes { monitor: false, window: true }),
            3 => Some(PickerSourceTypes { monitor: true, window: true }),
            _ => None,
        }
    }

    /// Whether no kind is accepted.
    pub fn is_empty(self) -> (r: bool)
        ensures
            r == (self.mask() == 0),
    {
        !self.monitor && !self.window
    }

    /// Whether every kind in `other` is in `self` too.
    pub open spec fn includes(self, other: PickerSourceTypes) -> bool {
        (other.monitor ==> self.monitor) && (other.window ==> self.window)
    }

    /// Whether every kind in `other` is in `self` too.
    pub fn contains(self, other: PickerSourceTypes) -> (r: bool)
        ensures
            r == self.includes(other),
    {
        (!other.monitor || self.monitor) && (!other.window || self.window)
    }

    /// The kinds in either.
    pub fn union(self, other: PickerSourceTypes) -> (r: PickerSourceTypes)
        ensures
            r.monitor == (self.monitor || other.monitor),
            r.window == (self.window || other.window),
    {
        PickerSourceTypes {
            monitor: self.monitor || other.monitor,
            window: self.window || other.window,
        }
    }
}

/// How the cursor shows up in a stream.
#[derive(Debug, Clone, Copy, PartialEq, Eq, Structural)]
pub enum PickerCursorMode {
    Hidden,
    Embedded,
    Metadata,
}

impl PickerCursorMode {
    /// The number that stands for the mode on the bus.
    pub open spec fn number(self) -> u32 {
        match self {
            PickerCursorMode::Hidden => 1,
            PickerCursorMode::Embedded => 2,
            PickerCursorMode::Metadata => 4,
        }
    }

    /// The number that stands for the mode on the bus.
    pub fn value(self) -> (n: u32)
        ensures
            n == self.number(),
    {
        match self {
            PickerCursorMode::Hidden => 1,
            PickerCursorMode::Embedded => 2,
            PickerCursorMode::Metadata => 4,
        }
    }
}

impl TryFrom<u32> for PickerCursorMode {
    type Error = &'static str;

    fn try_from(value: u32) -> (r: Result<Self, Self::Error>) {
        match value {
            1 => Ok(PickerCursorMode::Hidden),
            2 => Ok(PickerCursorMode::Embedded),
            4 => Ok(PickerCursorMode::Metadata),
            _ => Err("cursor-mode must be hidden (1), embedded (2), or metadata (4)"),
        }
    }
}

impl vstd::std_specs::convert::TryFromSpecImpl<u32> for PickerCursorMode {
    open spec fn obeys_try_from_spec() -> bool {
        true
    }

    open spec fn try_from_spec(value: u32) -> Result<Self, &'static str> {
        if value == 1 {
            Ok(PickerCursorMode::Hidden)
        } else if value == 2 {
            Ok(PickerCursorMode::Embedded)
        } else if value == 4 {
            Ok(PickerCursorMode::Metadata)
        } else {
            Err("cursor-mode must be hidden (1), embedded (2), or metadata (4)")
        }
    }
}

/// For how long a selection may be remembered.
#[derive(Debug, Clone, Copy, PartialEq, Eq, PartialOrd, Ord, Structural)]
pub enum PickerPersistMode {
    /// Not at all.
    Never,
    /// While the application runs.
    Transient,
    /// Until it is revoked.
    Persistent,
}

impl PickerPersistMode {
    /// The number that stands for the mode on the bus; a mode that remembers longer has the
    /// larger one.
    pub open spec fn number(self) -> u32 {
        match self {
            PickerPersistMode::Never => 0,
            PickerPersistMode::Transient => 1,
            PickerPersistMode::Persistent => 2,
        }
    }

    /// The number that stands for the mode on the bus.
    pub fn value(self) -> (n: u32)
        ensures
            n == self.number(),
    {
        match self {
            PickerPersistMode::Never => 0,
            PickerPersistMode::Transient => 1,
            PickerPersistMode::Persistent => 2,
        }
    }
}

impl TryFrom<u32> for PickerPersistMode {
    type Error = &'static str;

    fn try_from(value: u32) -> (r: Result<Self, Self::Error>) {
        match value {
            0 => Ok(PickerPersistMode::Never),
            1 => Ok(PickerPersistMode::Transient),
            2 => Ok(PickerPersistMode::Persistent),
            _ => Err("persist-mode must be none (0), transient (1), or persistent (2)"),
        }
    }
}

impl vstd::std_specs::convert::TryFromSpecImpl<u32> for PickerPersistMode {
    open spec fn obeys_try_from_spec() -> bool {
        true
    }

    open spec fn try_from_spec(value: u32) -> Result<Self, &'static str> {
        if value == 0 {
            Ok(PickerPersistMode::Never)
        } else if value == 1 {
            Ok(PickerPersistMode::Transient)
        } else if value == 2 {
            Ok(PickerPersistMode::Persistent)
        } else {
            Err("persist-mode must be none (0), transient (1), or persistent (2)")
        }
    }
}

/// The options of a picker request as they come off the bus.
#[derive(Debug, Default)]
pub struct PickSourcesOptionsDict {
    pub app_id: Option<String>,
    pub types: Option<u32>,
    pub multiple: Option<bool>,
    pub cursor_mode: Option<u32>,
    pub persist_mode: Option<u32>,
}

/// The options of a picker request.
#[derive(Debug, PartialEq, Eq)]
pub struct PickerOptions {
    pub app_id: String,
    pub source_types: PickerSourceTypes,
    pub multiple: bool,
    pub cursor_mode: PickerCursorMode,
    pub persist_mode: PickerPersistMode,
}

impl Clone for PickerOptions {
    fn clone(&self) -> (r: Self)
        ensures
            r == *self,
    {
        PickerOptions {
            app_id: self.app_id.clone(),
            source_types: self.source_types,
            multiple: self.multiple,
            cursor_mode: self.cursor_mode,
            persist_mode: self.persist_mode,
        }
    }
}

/// `value`, or `default` if there is none.
pub open spec fn or_default<T>(value: Option<T>, default: T) -> T {
    match value {
        Some(v) => v,
        None => default,
    }
}

impl PickSourcesOptionsDict {
    /// What is wrong with the options, if anything is. The kinds of sources come first, then the
    /// cursor mode, then the persist mode.
    pub open spec fn fault(self) -> Option<Seq<char>> {
        let types = or_default(self.types, 1);
        let cursor_mode = or_default(self.cursor_mode, 1);
        let persist_mode = or_default(self.persist_mode, 0);
        if types > 3 {
            Some("types contains unsupported source type bits"@)
        } else if types == 0 {
            Some("types must include at least one source type"@)
        } else if cursor_mode != 1 && cursor_mode != 2 && cursor_mode != 4 {
            Some("cursor-mode must be hidden (1), embedded (2), or metadata (4)"@)
        } else if persist_mode > 2 {
            Some("persist-mode must be none (0), transient (1), or persistent (2)"@)
        } else {
            None
        }
    }
}

impl PickerOptions {
    /// Whether these are the options that come off the bus, with the defaults filled in.
    pub open spec fn follows(self, options: PickSourcesOptionsDict) -> bool {
        &&& self.app_id@ == (match options.app_id {
            Some(id) => id@,
            None => Seq::empty(),
        })
        &&& self.source_types.mask() == or_default(options.types, 1)
        &&& self.multiple == or_default(options.multiple, false)
        &&& self.cursor_mode.number() == or_default(options.cursor_mode, 1)
        &&& self.persist_mode.number() == or_default(options.persist_mode, 0)
    }
}

impl TryFrom<PickSourcesOptionsDict> for PickerOptions {
    type Error = &'static str;

    /// Checks the options and fills in the defaults: outputs only, a single source, a hidden
    /// cursor and nothing remembered.
    fn try_from(options: PickSourcesOptionsDict) -> (r: Result<Self, Self::Error>)
        ensures
            match options.fault() {
                Some(text) => r is Err && r->Err_0@ == text,
                None => r is Ok && r->Ok_0.follows(options),
            },
    {
        let types = options.types.unwrap_or(PickerSourceTypes::monitors().bits());
        let source_types = match PickerSourceTypes::from_bits(types) {
            Some(source_types) => source_types,
            None => {
                return Err("types contains unsupported source type bits");
            },
        };
        if source_types.is_empty() {
            return Err("types must include at least one source type");
        }
        let cursor_mode = match PickerCursorMode::try_from(options.cursor_mode.unwrap_or(1)) {
            Ok(mode) => mode,
            Err(err) => {
                return Err(err);
            },
        };
        let persist_mode = match PickerPersistMode::try_from(options.persist_mode.unwrap_or(0)) {
            Ok(mode) => mode,
            Err(err) => {
                return Err(err);
            },
        };
        Ok(
            PickerOptions {
                app_id: match options.app_id {
                    Some(id) => id,
                    None => String::new(),
                },
                source_types,
                multiple: options.multiple.unwrap_or(false),
                cursor_mode,
                persist_mode,
            },
        )
    }
}

impl vstd::std_specs::convert::TryFromSpecImpl<PickSourcesOptionsDict> for PickerOptions {
    open spec fn obeys_try_from_spec() -> bool {
        false
    }

    open spec fn try_from_spec(options: PickSourcesOptionsDict) -> Result<Self, &'static str> {
        arbitrary()
    }
}

} // verus!
