//! The one decision the log setup makes: how the debug-verbosity toggle
//! variable selects the log level. Wiring the level into the log sink is the
//! caller's, not the library's, concern.

use vstd::prelude::*;

verus! {

/// How much the run logs.
#[derive(Clone, Copy, Debug, PartialEq, Eq, Structural)]
pub enum Verbosity {
    /// Informational messages and above.
    Normal,
    /// Debug messages too.
    Verbose,
}

/// Whether a value of the toggle variable asks for verbose logging: any
/// value but an unset variable and the literal `0` does.
pub open spec fn verbose_requested(debug_var: Option<String>) -> bool {
    match debug_var {
        None => false,
        Some(v) => v@ != "0"@,
    }
}

/// The log verbosity the debug toggle variable selects: `Normal` where the
/// variable is unset or holds `0`, `Verbose` otherwise.
pub fn verbosity_of(debug_var: &Option<String>) -> (r: Verbosity)
    ensures
        r is Verbose <==> verbose_requested(*debug_var),
{
    let zero: String = String::from_str("0");
    match debug_var {
        None => Verbosity::Normal,
        Some(v) => {
            if *v == zero {
                Verbosity::Normal
            } else {
                Verbosity::Verbose
            }
        },
    }
}

} // verus!
