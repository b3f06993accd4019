//! Resolution of a display name for the local machine.
//!
//! The name comes from one environment variable, chosen by the host platform,
//! with a fixed placeholder when that variable is absent or not valid text.
//! Reading the environment is left to the caller: the functions here decide
//! which variable to read and what the outcome of that read resolves to.
use vstd::prelude::*;

verus! {

/// The two kinds of host platform that choose different variables.
#[derive(Clone, Copy, Debug, PartialEq, Eq, Structural)]
pub enum Platform {
    /// Windows-class hosts, which publish the machine's network name.
    Windows,
    /// Every other host, which publishes the machine's host name.
    Other,
}

/// The name of the environment variable read on platform `p`.
pub open spec fn variable_of(p: Platform) -> Seq<char> {
    match p {
        Platform::Windows => "COMPUTERNAME"@,
        Platform::Other => "HOSTNAME"@,
    }
}

/// The placeholder returned when no usable value was found.
pub open spec fn fallback_name() -> Seq<char> {
    "Unknown"@
}

/// The machine name that the outcome of the lookup resolves to: the value
/// unchanged when one was read, the placeholder otherwise.
pub open spec fn resolved_name(value: Option<Seq<char>>) -> Seq<char> {
    match value {
        Some(v) => v,
        None => fallback_name(),
    }
}

/// The view of an optional string.
pub open spec fn option_view(value: Option<String>) -> Option<Seq<char>> {
    match value {
        Some(s) => Some(s@),
        None => None,
    }
}

/// The environment variable that holds the machine's name on platform `p`.
pub fn name_variable(p: Platform) -> (r: &'static str)
    ensures
        r@ == variable_of(p),
{
    match p {
        Platform::Windows => "COMPUTERNAME",
        Platform::Other => "HOSTNAME",
    }
}

/// The machine name for the outcome of reading the platform's variable:
/// `Some` with the text that was read, or `None` when the variable was unset
/// or could not be decoded. Any text, the empty one included, comes back
/// unchanged; only a missing value becomes the placeholder.
pub fn resolve_computer_name(value: Option<String>) -> (r: String)
    ensures
        r@ == resolved_name(option_view(value)),
{
    match value {
        Some(v) => v,
        None => String::from_str("Unknown"),
    }
}

/// A value that was read, whatever text it holds, is returned exactly.
pub proof fn lemma_set_value_kept(v: Seq<char>)
    ensures
        resolved_name(Some(v)) == v,
{
}

/// A variable that is unset resolves to exactly the placeholder `"Unknown"`.
pub proof fn lemma_unset_gives_placeholder()
    ensures
        resolved_name(None) == "Unknown"@,
{
}

} // verus!
