use vstd::prelude::*;

pub mod display;
pub mod fetch;
pub mod filter;
pub mod format;
pub mod keymap;
pub mod popups;
pub mod session;
pub mod state;
pub mod tail;
pub mod text;
pub mod timespec;

verus! {

/// Whether a character counts as whitespace for trimming and token
/// splitting throughout this crate (the ASCII whitespace characters).
pub open spec fn spec_is_ws(c: char) -> bool {
    c == ' ' || c == '\t' || c == '\n' || c == '\r'
}

/// Executable mirror of `spec_is_ws`.
pub fn is_ws(c: char) -> (r: bool)
    ensures
        r == spec_is_ws(c),
{
    c == ' ' || c == '\t' || c == '\n' || c == '\r'
}

} // verus!
