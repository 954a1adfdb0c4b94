//! Terminal colouring, through the `colored` crate.
//!
//! Whether the painted text is wrapped in colour codes depends on the
//! environment (whether colouring is enabled for the process), so the exact
//! result cannot be promised.  What the rendering of `ColoredString` does
//! promise is that it writes either the plain text, or a style prefix, the
//! text and a reset suffix — and it keeps the text as one contiguous run
//! whenever the text holds no escape character (texts with escape characters
//! may have inner reset sequences rewritten).

use vstd::prelude::*;
use crate::strutil::{contains_seq, escape_free};

verus! {

/// Relies on `colored::Colorize::yellow` and the `Display` rendering of
/// `ColoredString`: paints the text yellow where colouring is enabled, and
/// keeps an escape-free text as one contiguous run of the result.
#[verifier::external_body]
pub fn paint_yellow(s: &str) -> (r: String)
    ensures
        escape_free(s@) ==> contains_seq(r@, s@),
{
    colored::Colorize::yellow(s).to_string()
}

/// Relies on `colored::Colorize::green` and the `Display` rendering of
/// `ColoredString`: paints the text green where colouring is enabled, and
/// keeps an escape-free text as one contiguous run of the result.
#[verifier::external_body]
pub fn paint_green(s: &str) -> (r: String)
    ensures
        escape_free(s@) ==> contains_seq(r@, s@),
{
    colored::Colorize::green(s).to_string()
}

/// Relies on `colored::Colorize::dimmed` and the `Display` rendering of
/// `ColoredString`: dims the text where colouring is enabled, and keeps an
/// escape-free text as one contiguous run of the result.
#[verifier::external_body]
pub fn paint_dimmed(s: &str) -> (r: String)
    ensures
        escape_free(s@) ==> contains_seq(r@, s@),
{
    colored::Colorize::dimmed(s).to_string()
}

} // verus!
