//! Character classes and ASCII case folding.
//!
//! Inside the ASCII range the classes are decided here; outside of it the
//! Unicode tables of the standard library decide, and this module only gives
//! their answers a name.

use vstd::prelude::*;

verus! {

/// What `char::is_lowercase` answers for `c`.
pub uninterp spec fn unicode_lowercase(c: char) -> bool;

/// What `char::is_uppercase` answers for `c`.
pub uninterp spec fn unicode_uppercase(c: char) -> bool;

/// What `char::is_numeric` answers for `c`.
pub uninterp spec fn unicode_numeric(c: char) -> bool;

/// Calls `char::is_lowercase`. Nothing is claimed of the answer but that it
/// depends on `c` alone.
#[verifier::external_body]
fn table_lowercase(c: char) -> (r: bool)
    ensures
        r == unicode_lowercase(c),
{
    c.is_lowercase()
}

/// Calls `char::is_uppercase`. Nothing is claimed of the answer but that it
/// depends on `c` alone.
#[verifier::external_body]
fn table_uppercase(c: char) -> (r: bool)
    ensures
        r == unicode_uppercase(c),
{
    c.is_uppercase()
}

/// Calls `char::is_numeric`. Nothing is claimed of the answer but that it
/// depends on `c` alone.
#[verifier::external_body]
fn table_numeric(c: char) -> (r: bool)
    ensures
        r == unicode_numeric(c),
{
    c.is_numeric()
}

/// One of the 128 characters of ASCII.
pub open spec fn is_ascii_char(c: char) -> bool {
    c <= '\x7f'
}

/// A lowercase letter: `a` to `z`, or a character beyond ASCII that Unicode
/// lists as lowercase.
pub open spec fn is_lower(c: char) -> bool {
    if is_ascii_char(c) {
        'a' <= c && c <= 'z'
    } else {
        unicode_lowercase(c)
    }
}

/// An uppercase letter: `A` to `Z`, or a character beyond ASCII that Unicode
/// lists as uppercase.
pub open spec fn is_upper(c: char) -> bool {
    if is_ascii_char(c) {
        'A' <= c && c <= 'Z'
    } else {
        unicode_uppercase(c)
    }
}

/// A digit: `0` to `9`, or a character beyond ASCII that Unicode lists as
/// numeric.
pub open spec fn is_digit(c: char) -> bool {
    if is_ascii_char(c) {
        '0' <= c && c <= '9'
    } else {
        unicode_numeric(c)
    }
}

/// `A` to `Z` become `a` to `z`; every other character stays.
pub open spec fn lower_ascii(c: char) -> char {
    if 'A' <= c && c <= 'Z' {
        ((c as u8) + 32) as char
    } else {
        c
    }
}

/// `a` to `z` become `A` to `Z`; every other character stays.
pub open spec fn upper_ascii(c: char) -> char {
    if 'a' <= c && c <= 'z' {
        ((c as u8) - 32) as char
    } else {
        c
    }
}

/// Whether `c` is a lowercase letter.
pub fn is_lowercase(c: char) -> (r: bool)
    ensures
        r == is_lower(c),
{
    if c <= '\x7f' {
        'a' <= c && c <= 'z'
    } else {
        table_lowercase(c)
    }
}

/// Whether `c` is an uppercase letter.
pub fn is_uppercase(c: char) -> (r: bool)
    ensures
        r == is_upper(c),
{
    if c <= '\x7f' {
        'A' <= c && c <= 'Z'
    } else {
        table_uppercase(c)
    }
}

/// Whether `c` is a digit.
pub fn is_numeric(c: char) -> (r: bool)
    ensures
        r == is_digit(c),
{
    if c <= '\x7f' {
        '0' <= c && c <= '9'
    } else {
        table_numeric(c)
    }
}

/// `c` folded to lowercase, within ASCII.
pub fn to_ascii_lowercase(c: char) -> (r: char)
    ensures
        r == lower_ascii(c),
{
    if 'A' <= c && c <= 'Z' {
        ((c as u8) + 32) as char
    } else {
        c
    }
}

/// `c` folded to uppercase, within ASCII.
pub fn to_ascii_uppercase(c: char) -> (r: char)
    ensures
        r == upper_ascii(c),
{
    if 'a' <= c && c <= 'z' {
        ((c as u8) - 32) as char
    } else {
        c
    }
}

} // verus!
