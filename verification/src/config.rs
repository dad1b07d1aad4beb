//! Tool configuration values and the description of what writing will do to
//! the target file.  Loading and storing the configuration is the caller's
//! business; this module holds the bare values.

use vstd::prelude::*;

verus! {

/// Configuration of the tool: whether to ask before writing, and whether to
/// stay quiet.
#[derive(Debug, Clone, Copy, PartialEq, Eq, Structural)]
pub struct Config {
    pub ask_confirmation: bool,
    pub quiet: bool,
}

impl Default for Config {
    /// Everything off: do not ask, do not stay quiet.
    fn default() -> (r: Self)
        ensures
            !r.ask_confirmation,
            !r.quiet,
    {
        Config { ask_confirmation: false, quiet: false }
    }
}

/// The verb describing what writing will do: append to the file, overwrite
/// it, or create it — depending on the append flag and on whether the file
/// already exists.
pub fn determine_action(append: bool, file_exists: bool) -> (r: &'static str)
    ensures
        append ==> r@ == "append to"@,
        !append && file_exists ==> r@ == "overwrite"@,
        !append && !file_exists ==> r@ == "create"@,
{
    if append {
        "append to"
    } else if file_exists {
        "overwrite"
    } else {
        "create"
    }
}

} // verus!
