use vstd::prelude::*;

verus! {

/// A command sent by the presentation layer into the core.
#[derive(Clone, Debug)]
pub enum AppMessage {
    EnterSandboxMode,
    ExitSandboxMode,
    TogglePlayback(usize),
}

} // verus!
