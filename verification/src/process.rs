//! Plain process invocation, abstracted behind a trait.
//!
//! The tool itself never goes through this path for real work; the default
//! implementation is a stub that reports failure, as a reminder that nothing
//! is wired to it yet.

use vstd::prelude::*;

verus! {

/// External command invocation.
pub trait RunCommandHelper {
    /// Run a command; true on success.
    fn run(&self, cmd: &String, args: &Vec<String>) -> bool;
}

/// Placeholder implementation that refuses every command.
pub struct DefaultRunCommandHelper;

impl RunCommandHelper for DefaultRunCommandHelper {
    fn run(&self, _cmd: &String, _args: &Vec<String>) -> (r: bool)
        ensures
            r == false,
    {
        false
    }
}

} // verus!
