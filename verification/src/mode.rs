//! The screen-reader mode: a named mode value, compared by equality only,
//! and the process-wide current-mode cell that matching reads and
//! mode-switch commands write.

use vstd::prelude::*;
use vstd::string::StringExecFns;

verus! {

/// A named operating state of the screen reader, such as the default
/// command mode. Mode values are opaque to this core: they gate which
/// bindings are eligible, and are compared by name only.
#[derive(Debug)]
pub struct ScreenReaderMode {
    pub name: String,
}

impl View for ScreenReaderMode {
    type V = Seq<char>;

    open spec fn view(&self) -> Seq<char> {
        self.name@
    }
}

impl ScreenReaderMode {
    /// A mode with the given name.
    pub fn new(name: &str) -> (r: ScreenReaderMode)
        ensures
            r@ == name@,
    {
        ScreenReaderMode { name: String::from_str(name) }
    }
}

impl Clone for ScreenReaderMode {
    fn clone(&self) -> (r: Self)
        ensures
            r@ == self@,
    {
        ScreenReaderMode { name: self.name.clone() }
    }
}

impl PartialEq for ScreenReaderMode {
    fn eq(&self, other: &Self) -> (r: bool) {
        self.name == other.name
    }
}

impl Eq for ScreenReaderMode {

}

impl vstd::std_specs::cmp::PartialEqSpecImpl for ScreenReaderMode {
    open spec fn obeys_eq_spec() -> bool {
        true
    }

    open spec fn eq_spec(&self, other: &Self) -> bool {
        self@ == other@
    }
}

/// The current screen-reader mode. Matching reads it; mode-switch commands
/// overwrite it unconditionally, since mode values are opaque and every
/// transition is legal at this layer.
#[derive(Debug)]
pub struct ModeState {
    current: ScreenReaderMode,
}

impl View for ModeState {
    type V = Seq<char>;

    closed spec fn view(&self) -> Seq<char> {
        self.current@
    }
}

impl ModeState {
    /// A mode cell starting in the given mode.
    pub fn new(initial: ScreenReaderMode) -> (r: ModeState)
        ensures
            r@ == initial@,
    {
        ModeState { current: initial }
    }

    /// Reads the current mode.
    pub fn get_sr_mode(&self) -> (r: ScreenReaderMode)
        ensures
            r@ == self@,
    {
        self.current.clone()
    }

    /// Borrows the current mode, for matching without a copy.
    pub fn current(&self) -> (r: &ScreenReaderMode)
        ensures
            r@ == self@,
    {
        &self.current
    }

    /// Overwrites the current mode.
    pub fn set_sr_mode(&mut self, mode: ScreenReaderMode)
        ensures
            final(self)@ == mode@,
    {
        self.current = mode;
    }
}

} // verus!
