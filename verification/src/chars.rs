//! Character classes the recognizer depends on.

use vstd::prelude::*;

verus! {

/// Whitespace as the argument tokenizer understands it: the ASCII whitespace
/// class, the one `str::split_ascii_whitespace` splits on.
pub open spec fn is_ascii_ws(c: char) -> bool {
    c == ' ' || c == '\t' || c == '\n' || c == '\r' || c == '\x0c'
}

/// Exec mirror of [`is_ascii_ws`].
pub fn ascii_ws(c: char) -> (r: bool)
    ensures
        r == is_ascii_ws(c),
{
    c == ' ' || c == '\t' || c == '\n' || c == '\r' || c == '\x0c'
}

/// The characters that separate shell statements within one captured line.
pub open spec fn is_statement_sep(c: char) -> bool {
    c == ';' || c == '|' || c == '&' || c == '\r' || c == '\n'
}

/// Exec mirror of [`is_statement_sep`].
pub fn statement_sep(c: char) -> (r: bool)
    ensures
        r == is_statement_sep(c),
{
    c == ';' || c == '|' || c == '&' || c == '\r' || c == '\n'
}

/// What `char::is_whitespace` returns on characters beyond ASCII: a fixed
/// classification of the character alone.  The Unicode white-space class
/// behind it cannot be restated here, so that part of the function is left
/// uninterpreted.
pub uninterp spec fn is_unicode_ws_ext(c: char) -> bool;

/// A white-space character in the Unicode sense: within ASCII the ASCII
/// whitespace characters and the vertical tab, beyond ASCII whatever Unicode
/// counts as white space.
pub open spec fn is_unicode_ws(c: char) -> bool {
    if (c as u32) < 128 {
        is_ascii_ws(c) || c == '\x0b'
    } else {
        is_unicode_ws_ext(c)
    }
}

/// Relies on `char::is_whitespace`: true exactly on the Unicode white-space
/// class, a property of the character alone; within ASCII that class is the
/// ASCII whitespace characters together with the vertical tab.
pub assume_specification[ char::is_whitespace ](c: char) -> (r: bool)
    ensures
        r == is_unicode_ws(c),
        (c as u32) >= 128 ==> r == is_unicode_ws_ext(c),
;

/// What `char::is_alphanumeric` returns on characters beyond ASCII: a fixed
/// classification of the character alone.  The Unicode letter and number
/// classes behind it cannot be restated here, so that part of the function
/// is left uninterpreted.
pub uninterp spec fn is_unicode_alnum(c: char) -> bool;

/// The ASCII letters and digits.
pub open spec fn is_ascii_alnum(c: char) -> bool {
    ('a' as u32 <= c as u32 && c as u32 <= 'z' as u32)
        || ('A' as u32 <= c as u32 && c as u32 <= 'Z' as u32)
        || ('0' as u32 <= c as u32 && c as u32 <= '9' as u32)
}

/// An alphanumeric character: within ASCII the letters and digits exactly,
/// beyond ASCII whatever Unicode counts among letters and numbers.
pub open spec fn is_alphanumeric_char(c: char) -> bool {
    if (c as u32) < 128 {
        is_ascii_alnum(c)
    } else {
        is_unicode_alnum(c)
    }
}

/// Relies on `char::is_alphanumeric`: true exactly on Unicode letters and
/// numbers, a property of the character alone; on the ASCII range that
/// class is the ASCII letters and digits.
pub assume_specification[ char::is_alphanumeric ](c: char) -> (r: bool)
    ensures
        r == is_alphanumeric_char(c),
        (c as u32) >= 128 ==> r == is_unicode_alnum(c),
;

} // verus!
