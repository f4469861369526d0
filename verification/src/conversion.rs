//! What a string of each convention becomes in each of the five target
//! conventions.

use vstd::prelude::*;
use crate::convention::{classify, classify_chars, Convention};
use crate::rule::{apply, rewrite, Rule};

verus! {

/// The snake case of `s`, where `s` is of convention `c`.
pub open spec fn snake_from(c: Convention, s: Seq<char>) -> Seq<char> {
    match c {
        Convention::Camel => rewrite(Rule::CamelWords('_'), s),
        Convention::Pascal => rewrite(Rule::PascalWords('_'), s),
        Convention::Constant => rewrite(Rule::Lower, s),
        Convention::Chain => rewrite(Rule::Swap('-', '_'), s),
        Convention::NonPrincipal => rewrite(Rule::Scan, s),
        _ => s,
    }
}

/// The constant case of `s`, where `s` is of convention `c`.
pub open spec fn constant_from(c: Convention, s: Seq<char>) -> Seq<char> {
    match c {
        Convention::Snake | Convention::Flat => rewrite(Rule::Upper, s),
        Convention::Chain => rewrite(Rule::UpperSwap('-', '_'), s),
        Convention::Camel | Convention::Pascal | Convention::NonPrincipal => rewrite(
            Rule::Upper,
            snake_from(c, s),
        ),
        _ => s,
    }
}

/// The convention from which a snake form is converted further: its own,
/// or snake where it has none.
pub open spec fn settled(s: Seq<char>) -> Convention {
    if classify(s) == Convention::NonPrincipal {
        Convention::Snake
    } else {
        classify(s)
    }
}

/// The pascal case of `s`, where `s` is of convention `c`.
pub open spec fn pascal_from(c: Convention, s: Seq<char>) -> Seq<char> {
    match c {
        Convention::Snake => rewrite(Rule::SplitPascal('_'), s),
        Convention::Chain => rewrite(Rule::SplitPascal('-'), s),
        Convention::Flat | Convention::Camel => rewrite(Rule::UpperFirst, s),
        Convention::Constant => rewrite(Rule::ConstantPascal, s),
        Convention::NonPrincipal => rewrite(Rule::SplitPascal('_'), snake_from(c, s)),
        _ => s,
    }
}

/// The camel case of `s`, where `s` is of a convention `c` other than
/// `NonPrincipal`.
pub open spec fn camel_direct(c: Convention, s: Seq<char>) -> Seq<char> {
    match c {
        Convention::Chain => rewrite(Rule::SplitCamel('-'), s),
        Convention::Snake => rewrite(Rule::SplitCamel('_'), s),
        Convention::Constant => rewrite(Rule::ConstantCamel, s),
        Convention::Pascal => rewrite(Rule::LowerFirst, s),
        _ => s,
    }
}

/// The camel case of `s`, where `s` is of convention `c`. A string of no
/// convention is scanned into its snake form first, and that form is
/// converted by its own convention.
pub open spec fn camel_from(c: Convention, s: Seq<char>) -> Seq<char> {
    if c == Convention::NonPrincipal {
        let snake = snake_from(c, s);
        camel_direct(settled(snake), snake)
    } else {
        camel_direct(c, s)
    }
}

/// The chain case of `s`, where `s` is of a convention `c` other than
/// `NonPrincipal`.
pub open spec fn chain_direct(c: Convention, s: Seq<char>) -> Seq<char> {
    match c {
        Convention::Snake => rewrite(Rule::Swap('_', '-'), s),
        Convention::Camel => rewrite(Rule::CamelWords('-'), s),
        Convention::Constant => rewrite(Rule::LowerSwap('_', '-'), s),
        Convention::Pascal => rewrite(Rule::PascalWords('-'), s),
        _ => s,
    }
}

/// The chain case of `s`, where `s` is of convention `c`. A string of no
/// convention is scanned into its snake form first, and that form is
/// converted by its own convention.
pub open spec fn chain_from(c: Convention, s: Seq<char>) -> Seq<char> {
    if c == Convention::NonPrincipal {
        let snake = snake_from(c, s);
        chain_direct(settled(snake), snake)
    } else {
        chain_direct(c, s)
    }
}

/// The snake case of `s`.
pub open spec fn snake_of(s: Seq<char>) -> Seq<char> {
    snake_from(classify(s), s)
}

/// The constant case of `s`.
pub open spec fn constant_of(s: Seq<char>) -> Seq<char> {
    constant_from(classify(s), s)
}

/// The pascal case of `s`.
pub open spec fn pascal_of(s: Seq<char>) -> Seq<char> {
    pascal_from(classify(s), s)
}

/// The camel case of `s`.
pub open spec fn camel_of(s: Seq<char>) -> Seq<char> {
    camel_from(classify(s), s)
}

/// The chain case of `s`.
pub open spec fn chain_of(s: Seq<char>) -> Seq<char> {
    chain_from(classify(s), s)
}

/// Joins the words that `split` parts, each but the first with its first
/// character in uppercase.
fn split_case_to_camel(source: &Vec<char>, split: char) -> (out: Vec<char>)
    ensures
        out@ == rewrite(Rule::SplitCamel(split), source@),
{
    apply(Rule::SplitCamel(split), source)
}

/// Joins the words that `split` parts, each with its first character in
/// uppercase.
fn split_case_to_pascal(source: &Vec<char>, split: char) -> (out: Vec<char>)
    ensures
        out@ == rewrite(Rule::SplitPascal(split), source@),
{
    apply(Rule::SplitPascal(split), source)
}

/// `source` with its first character in uppercase.
fn first_char_to_upper(source: &Vec<char>) -> (out: Vec<char>)
    ensures
        out@ == rewrite(Rule::UpperFirst, source@),
{
    apply(Rule::UpperFirst, source)
}

fn copy_of(s: &Vec<char>) -> (out: Vec<char>)
    ensures
        out@ == s@,
{
    s.clone()
}

fn settle(s: &Vec<char>) -> (c: Convention)
    ensures
        c == settled(s@),
{
    match classify_chars(s) {
        Convention::NonPrincipal => Convention::Snake,
        c => c,
    }
}

/// Converts `s`, which is of convention `c`, to snake case.
pub fn snake_chars_from(c: Convention, s: &Vec<char>) -> (out: Vec<char>)
    ensures
        out@ == snake_from(c, s@),
{
    match c {
        Convention::Camel => apply(Rule::CamelWords('_'), s),
        Convention::Pascal => apply(Rule::PascalWords('_'), s),
        Convention::Constant => apply(Rule::Lower, s),
        Convention::Chain => apply(Rule::Swap('-', '_'), s),
        Convention::NonPrincipal => apply(Rule::Scan, s),
        _ => copy_of(s),
    }
}

/// Converts `s`, which is of convention `c`, to constant case.
pub fn constant_chars_from(c: Convention, s: &Vec<char>) -> (out: Vec<char>)
    ensures
        out@ == constant_from(c, s@),
{
    match c {
        Convention::Snake | Convention::Flat => apply(Rule::Upper, s),
        Convention::Chain => apply(Rule::UpperSwap('-', '_'), s),
        Convention::Camel | Convention::Pascal | Convention::NonPrincipal => {
            let snake = snake_chars_from(c, s);
            apply(Rule::Upper, &snake)
        },
        _ => copy_of(s),
    }
}

/// Converts `s`, which is of convention `c`, to pascal case.
pub fn pascal_chars_from(c: Convention, s: &Vec<char>) -> (out: Vec<char>)
    ensures
        out@ == pascal_from(c, s@),
{
    match c {
        Convention::Snake => split_case_to_pascal(s, '_'),
        Convention::Chain => split_case_to_pascal(s, '-'),
        Convention::Flat | Convention::Camel => first_char_to_upper(s),
        Convention::Constant => apply(Rule::ConstantPascal, s),
        Convention::NonPrincipal => {
            let snake = snake_chars_from(c, s);
            split_case_to_pascal(&snake, '_')
        },
        _ => copy_of(s),
    }
}

fn camel_chars_direct(c: Convention, s: &Vec<char>) -> (out: Vec<char>)
    ensures
        out@ == camel_direct(c, s@),
{
    match c {
        Convention::Chain => split_case_to_camel(s, '-'),
        Convention::Snake => split_case_to_camel(s, '_'),
        Convention::Constant => apply(Rule::ConstantCamel, s),
        Convention::Pascal => apply(Rule::LowerFirst, s),
        _ => copy_of(s),
    }
}

/// Converts `s`, which is of convention `c`, to camel case.
pub fn camel_chars_from(c: Convention, s: &Vec<char>) -> (out: Vec<char>)
    ensures
        out@ == camel_from(c, s@),
{
    match c {
        Convention::NonPrincipal => {
            let snake = snake_chars_from(c, s);
            camel_chars_direct(settle(&snake), &snake)
        },
        _ => camel_chars_direct(c, s),
    }
}

fn chain_chars_direct(c: Convention, s: &Vec<char>) -> (out: Vec<char>)
    ensures
        out@ == chain_direct(c, s@),
{
    match c {
        Convention::Snake => apply(Rule::Swap('_', '-'), s),
        Convention::Camel => apply(Rule::CamelWords('-'), s),
        Convention::Constant => apply(Rule::LowerSwap('_', '-'), s),
        Convention::Pascal => apply(Rule::PascalWords('-'), s),
        _ => copy_of(s),
    }
}

/// Converts `s`, which is of convention `c`, to chain case.
pub fn chain_chars_from(c: Convention, s: &Vec<char>) -> (out: Vec<char>)
    ensures
        out@ == chain_from(c, s@),
{
    match c {
        Convention::NonPrincipal => {
            let snake = snake_chars_from(c, s);
            chain_chars_direct(settle(&snake), &snake)
        },
        _ => chain_chars_direct(c, s),
    }
}

} // verus!
