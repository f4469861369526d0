//! A string together with its convention.

use vstd::prelude::*;
use crate::convention::{
    camel_chars, chain_chars, classify, classify_chars, constant_chars, flat_chars, is_camel_seq,
    is_chain_seq, is_constant_seq, is_empty_seq, is_flat_seq, is_non_principal_seq, is_pascal_seq,
    is_snake_seq, non_principal_chars, pascal_chars, snake_chars, Convention,
};
use crate::text::chars_of;

verus! {

/// A string, filed under the convention it is written in.
#[derive(Debug, PartialEq, Eq, Clone, Copy)]
pub enum NamingPrincipal<'a> {
    Snake(&'a str),
    Constant(&'a str),
    Camel(&'a str),
    Pascal(&'a str),
    Chain(&'a str),
    Empty(&'a str),
    Flat(&'a str),
    NonPrincipal(&'a str),
}

impl<'a> NamingPrincipal<'a> {
    /// The convention the string is filed under.
    pub open spec fn convention(&self) -> Convention {
        match self {
            NamingPrincipal::Snake(_) => Convention::Snake,
            NamingPrincipal::Constant(_) => Convention::Constant,
            NamingPrincipal::Camel(_) => Convention::Camel,
            NamingPrincipal::Pascal(_) => Convention::Pascal,
            NamingPrincipal::Chain(_) => Convention::Chain,
            NamingPrincipal::Empty(_) => Convention::Empty,
            NamingPrincipal::Flat(_) => Convention::Flat,
            NamingPrincipal::NonPrincipal(_) => Convention::NonPrincipal,
        }
    }

    /// The characters of the string.
    pub open spec fn source(&self) -> Seq<char> {
        match self {
            NamingPrincipal::Snake(s) => s@,
            NamingPrincipal::Constant(s) => s@,
            NamingPrincipal::Camel(s) => s@,
            NamingPrincipal::Pascal(s) => s@,
            NamingPrincipal::Chain(s) => s@,
            NamingPrincipal::Empty(s) => s@,
            NamingPrincipal::Flat(s) => s@,
            NamingPrincipal::NonPrincipal(s) => s@,
        }
    }

    /// Files `source` under its convention. Every string has one.
    pub fn new(source: &'a str) -> (r: Self)
        ensures
            r.convention() == classify(source@),
            r.source() == source@,
    {
        let chars = chars_of(source);
        match classify_chars(&chars) {
            Convention::Flat => NamingPrincipal::Flat(source),
            Convention::Camel => NamingPrincipal::Camel(source),
            Convention::Pascal => NamingPrincipal::Pascal(source),
            Convention::Snake => NamingPrincipal::Snake(source),
            Convention::Constant => NamingPrincipal::Constant(source),
            Convention::Chain => NamingPrincipal::Chain(source),
            Convention::Empty => NamingPrincipal::Empty(source),
            Convention::NonPrincipal => NamingPrincipal::NonPrincipal(source),
        }
    }

    /// The convention the string is filed under.
    pub fn tag(&self) -> (c: Convention)
        ensures
            c == self.convention(),
    {
        match self {
            NamingPrincipal::Snake(_) => Convention::Snake,
            NamingPrincipal::Constant(_) => Convention::Constant,
            NamingPrincipal::Camel(_) => Convention::Camel,
            NamingPrincipal::Pascal(_) => Convention::Pascal,
            NamingPrincipal::Chain(_) => Convention::Chain,
            NamingPrincipal::Empty(_) => Convention::Empty,
            NamingPrincipal::Flat(_) => Convention::Flat,
            NamingPrincipal::NonPrincipal(_) => Convention::NonPrincipal,
        }
    }

    /// Whether `source` meets no rule and is not empty.
    pub fn is_non_principal(source: &'a str) -> (r: bool)
        ensures
            r == is_non_principal_seq(source@),
    {
        non_principal_chars(&chars_of(source))
    }

    /// Whether `source` meets the rule of flat case.
    pub fn is_flat(source: &'a str) -> (r: bool)
        ensures
            r == is_flat_seq(source@),
    {
        flat_chars(&chars_of(source))
    }

    /// Whether `source` meets the rule of chain case.
    pub fn is_chain(source: &'a str) -> (r: bool)
        ensures
            r == is_chain_seq(source@),
    {
        chain_chars(&chars_of(source))
    }

    /// Whether `source` meets the rule of constant case.
    pub fn is_constant(source: &'a str) -> (r: bool)
        ensures
            r == is_constant_seq(source@),
    {
        constant_chars(&chars_of(source))
    }

    /// Whether `source` meets the rule of snake case.
    pub fn is_snake(source: &'a str) -> (r: bool)
        ensures
            r == is_snake_seq(source@),
    {
        snake_chars(&chars_of(source))
    }

    /// Whether `source` meets the rule of pascal case.
    pub fn is_pascal(source: &'a str) -> (r: bool)
        ensures
            r == is_pascal_seq(source@),
    {
        pascal_chars(&chars_of(source))
    }

    /// Whether `source` meets the rule of camel case.
    pub fn is_camel(source: &'a str) -> (r: bool)
        ensures
            r == is_camel_seq(source@),
    {
        camel_chars(&chars_of(source))
    }

    /// Whether `source` has no characters.
    pub fn is_empty(source: &'a str) -> (r: bool)
        ensures
            r == is_empty_seq(source@),
    {
        chars_of(source).len() == 0
    }
}

} // verus!
