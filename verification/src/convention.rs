//! The naming conventions and the rules that tell them apart.

use vstd::prelude::*;
use crate::character::{is_digit, is_lower, is_lowercase, is_numeric, is_upper, is_uppercase};

verus! {

/// The five naming conventions a string can be converted to.
#[derive(Debug, Clone, Copy, PartialEq, Eq, Structural)]
pub enum Principal {
    Camel,
    Pascal,
    Snake,
    Constant,
    Chain,
}

/// The convention a string is written in. Every string has exactly one.
#[derive(Debug, Clone, Copy, PartialEq, Eq, Structural)]
pub enum Convention {
    Flat,
    Camel,
    Pascal,
    Snake,
    Constant,
    Chain,
    Empty,
    NonPrincipal,
}

/// A set of characters that a convention is written with.
#[derive(Debug, Clone, Copy, PartialEq, Eq, Structural)]
pub enum Alphabet {
    /// Lowercase letters and digits.
    Flat,
    /// Lowercase letters, digits and `_`.
    Snake,
    /// Uppercase letters, digits and `_`.
    Constant,
    /// Lowercase letters, digits and `-`.
    Chain,
    /// Uppercase letters and digits.
    Capital,
    /// Everything but the separators `_` and `-`.
    Joined,
}

/// `c` belongs to the alphabet `a`.
pub open spec fn in_alphabet(a: Alphabet, c: char) -> bool {
    match a {
        Alphabet::Flat => is_lower(c) || is_digit(c),
        Alphabet::Snake => c == '_' || is_lower(c) || is_digit(c),
        Alphabet::Constant => c == '_' || is_upper(c) || is_digit(c),
        Alphabet::Chain => c == '-' || is_lower(c) || is_digit(c),
        Alphabet::Capital => is_upper(c) || is_digit(c),
        Alphabet::Joined => c != '_' && c != '-',
    }
}

/// Every character of `s` belongs to `a`.
pub open spec fn all_in(a: Alphabet, s: Seq<char>) -> bool {
    forall|i: int| 0 <= i < s.len() ==> in_alphabet(a, #[trigger] s[i])
}

/// The string of no characters.
pub open spec fn is_empty_seq(s: Seq<char>) -> bool {
    s.len() == 0
}

/// Flat case: not empty, lowercase letters and digits only.
pub open spec fn is_flat_seq(s: Seq<char>) -> bool {
    s.len() > 0 && all_in(Alphabet::Flat, s)
}

/// Camel case: not empty, no separator, a lowercase letter first.
pub open spec fn is_camel_seq(s: Seq<char>) -> bool {
    s.len() > 0 && all_in(Alphabet::Joined, s) && is_lower(s[0])
}

/// Pascal case: not empty, no separator, an uppercase letter first, and not
/// uppercase letters and digits alone.
pub open spec fn is_pascal_seq(s: Seq<char>) -> bool {
    s.len() > 0 && all_in(Alphabet::Joined, s) && is_upper(s[0]) && !all_in(Alphabet::Capital, s)
}

/// Snake case: not empty, lowercase letters, digits and `_` only.
pub open spec fn is_snake_seq(s: Seq<char>) -> bool {
    s.len() > 0 && all_in(Alphabet::Snake, s)
}

/// Constant case: not empty, uppercase letters, digits and `_` only.
pub open spec fn is_constant_seq(s: Seq<char>) -> bool {
    s.len() > 0 && all_in(Alphabet::Constant, s)
}

/// Chain case: not empty, lowercase letters, digits and `-` only.
pub open spec fn is_chain_seq(s: Seq<char>) -> bool {
    s.len() > 0 && all_in(Alphabet::Chain, s)
}

/// `s` follows none of the conventions and is not empty either.
pub open spec fn is_non_principal_seq(s: Seq<char>) -> bool {
    !(is_flat_seq(s) || is_pascal_seq(s) || is_camel_seq(s) || is_chain_seq(s) || is_constant_seq(
        s,
    ) || is_empty_seq(s) || is_snake_seq(s))
}

/// The convention of `s`: the first rule that `s` meets, in this order.
/// A flat string also meets the rules of camel, snake and chain, so flat is
/// asked first.
pub open spec fn classify(s: Seq<char>) -> Convention {
    if is_flat_seq(s) {
        Convention::Flat
    } else if is_camel_seq(s) {
        Convention::Camel
    } else if is_pascal_seq(s) {
        Convention::Pascal
    } else if is_snake_seq(s) {
        Convention::Snake
    } else if is_constant_seq(s) {
        Convention::Constant
    } else if is_chain_seq(s) {
        Convention::Chain
    } else if is_empty_seq(s) {
        Convention::Empty
    } else {
        Convention::NonPrincipal
    }
}

/// Whether `c` belongs to the alphabet `a`.
pub fn belongs_to(a: Alphabet, c: char) -> (r: bool)
    ensures
        r == in_alphabet(a, c),
{
    match a {
        Alphabet::Flat => is_lowercase(c) || is_numeric(c),
        Alphabet::Snake => c == '_' || is_lowercase(c) || is_numeric(c),
        Alphabet::Constant => c == '_' || is_uppercase(c) || is_numeric(c),
        Alphabet::Chain => c == '-' || is_lowercase(c) || is_numeric(c),
        Alphabet::Capital => is_uppercase(c) || is_numeric(c),
        Alphabet::Joined => c != '_' && c != '-',
    }
}

/// Whether every character of `v` belongs to `a`.
pub fn all_belong_to(a: Alphabet, v: &Vec<char>) -> (r: bool)
    ensures
        r == all_in(a, v@),
{
    let mut i: usize = 0;
    while i < v.len()
        invariant
            i <= v.len(),
            forall|j: int| 0 <= j < i ==> in_alphabet(a, #[trigger] v@[j]),
        decreases v.len() - i,
    {
        if !belongs_to(a, v[i]) {
            return false;
        }
        i += 1;
    }
    true
}

/// Whether `v` meets the rule of flat case.
pub fn flat_chars(v: &Vec<char>) -> (r: bool)
    ensures
        r == is_flat_seq(v@),
{
    v.len() > 0 && all_belong_to(Alphabet::Flat, v)
}

/// Whether `v` meets the rule of camel case.
pub fn camel_chars(v: &Vec<char>) -> (r: bool)
    ensures
        r == is_camel_seq(v@),
{
    v.len() > 0 && all_belong_to(Alphabet::Joined, v) && is_lowercase(v[0])
}

/// Whether `v` meets the rule of pascal case.
pub fn pascal_chars(v: &Vec<char>) -> (r: bool)
    ensures
        r == is_pascal_seq(v@),
{
    if v.len() == 0 || !all_belong_to(Alphabet::Joined, v) {
        return false;
    }
    if !is_uppercase(v[0]) {
        return false;
    }
    !all_belong_to(Alphabet::Capital, v)
}

/// Whether `v` meets the rule of snake case.
pub fn snake_chars(v: &Vec<char>) -> (r: bool)
    ensures
        r == is_snake_seq(v@),
{
    v.len() > 0 && all_belong_to(Alphabet::Snake, v)
}

/// Whether `v` meets the rule of constant case.
pub fn constant_chars(v: &Vec<char>) -> (r: bool)
    ensures
        r == is_constant_seq(v@),
{
    v.len() > 0 && all_belong_to(Alphabet::Constant, v)
}

/// Whether `v` meets the rule of chain case.
pub fn chain_chars(v: &Vec<char>) -> (r: bool)
    ensures
        r == is_chain_seq(v@),
{
    v.len() > 0 && all_belong_to(Alphabet::Chain, v)
}

/// Whether `v` meets no rule and is not empty.
pub fn non_principal_chars(v: &Vec<char>) -> (r: bool)
    ensures
        r == is_non_principal_seq(v@),
{
    !(flat_chars(v) || pascal_chars(v) || camel_chars(v) || chain_chars(v) || constant_chars(v)
        || v.len() == 0 || snake_chars(v))
}

/// The convention of the characters `v`.
pub fn classify_chars(v: &Vec<char>) -> (r: Convention)
    ensures
        r == classify(v@),
{
    if flat_chars(v) {
        Convention::Flat
    } else if camel_chars(v) {
        Convention::Camel
    } else if pascal_chars(v) {
        Convention::Pascal
    } else if snake_chars(v) {
        Convention::Snake
    } else if constant_chars(v) {
        Convention::Constant
    } else if chain_chars(v) {
        Convention::Chain
    } else if v.len() == 0 {
        Convention::Empty
    } else {
        Convention::NonPrincipal
    }
}

} // verus!
