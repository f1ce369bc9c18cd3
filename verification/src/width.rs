use vstd::prelude::*;

verus! {

/// The number of terminal columns a string occupies. A function of the
/// characters alone; its value is defined by the Unicode width tables.
pub uninterp spec fn text_width(s: Seq<char>) -> nat;

/// Relies on unicode_width's `UnicodeWidthStr::width`: the number of
/// columns the string takes on screen, a function of its characters
/// alone.
#[verifier::external_body]
pub(crate) fn display_width(s: &str) -> (r: usize)
    ensures
        r as nat == text_width(s@),
{
    unicode_width::UnicodeWidthStr::width(s)
}

} // verus!
