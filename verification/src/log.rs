//! Diagnostic logging.
//!
//! The trait mirrors the levels the tool uses; the default implementation
//! prints to standard output through one trusted write, and the empty one
//! swallows everything (it is what the tests pass around).

use vstd::prelude::*;
use std::io::Write;
use crate::strutil::fill_marker;
use crate::strutil::scat2;
use crate::strutil::scat3;

verus! {

/// Diagnostic output at the tool's log levels.
pub trait LoggerHelper {
    /// Print a simple debug message.
    fn debug(&self, expr: &str);

    /// Print a debug message whose `{}` marker takes the joined arguments.
    fn debug_with_array(&self, expr: &str, args: &Vec<String>);

    /// Print a debug message whose `{}` marker takes one parameter.
    fn debug_with_parameter(&self, expr: &str, args: &str);

    /// Print a warning.
    fn warn(&self, expr: &str);

    /// Print a warning whose `{}` marker takes one parameter.
    fn warn_with_parameter(&self, expr: &str, args: &str);

    /// Print an error message.
    fn err(&self, expr: &str);
}

/// Relies on std::io::Stdout: writes one line to standard output.
#[verifier::external_body]
fn emit_line(s: &str) {
    let _ = writeln!(std::io::stdout(), "{}", s);
}

/// Logger that prints every level on the terminal.
pub struct DefaultLoggerHelper;

impl LoggerHelper for DefaultLoggerHelper {
    fn debug(&self, expr: &str) {
        let line = scat2("[DEBUG]: ", expr);
        emit_line(line.as_str());
    }

    fn debug_with_array(&self, expr: &str, args: &Vec<String>) {
        let mut joined = String::new();
        let mut i: usize = 0;
        while i < args.len()
            decreases args.len() - i,
        {
            let next = scat3(joined.as_str(), " ", args[i].as_str());
            joined = next;
            i += 1;
        }
        let line = fill_marker(expr, joined.as_str());
        self.debug(line.as_str());
    }

    fn debug_with_parameter(&self, expr: &str, args: &str) {
        let line = fill_marker(expr, args);
        self.debug(line.as_str());
    }

    fn warn(&self, expr: &str) {
        let line = scat2("[WARN]: ", expr);
        emit_line(line.as_str());
    }

    fn warn_with_parameter(&self, expr: &str, args: &str) {
        let line = fill_marker(expr, args);
        self.warn(line.as_str());
    }

    fn err(&self, expr: &str) {
        let line = scat2("[ERROR]: ", expr);
        emit_line(line.as_str());
    }
}

/// Logger that swallows every message.
pub struct EmptyLoggerHelper;

impl LoggerHelper for EmptyLoggerHelper {
    fn debug(&self, _expr: &str) {
    }

    fn debug_with_array(&self, _expr: &str, _args: &Vec<String>) {
    }

    fn debug_with_parameter(&self, _expr: &str, _args: &str) {
    }

    fn warn(&self, _expr: &str) {
    }

    fn warn_with_parameter(&self, _expr: &str, _args: &str) {
    }

    fn err(&self, _expr: &str) {
    }
}

} // verus!
