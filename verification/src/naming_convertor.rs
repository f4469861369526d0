//! Converting one string into each of the five target conventions.

use vstd::prelude::*;
use crate::conversion::{
    camel_chars_from, camel_of, chain_chars_from, chain_of, constant_chars_from, constant_of,
    pascal_chars_from, pascal_of, snake_chars_from, snake_of,
};
use crate::convention::{
    classify, is_camel_seq, is_chain_seq, is_constant_seq, is_non_principal_seq, is_pascal_seq,
    is_snake_seq,
};
use crate::naming_principal::NamingPrincipal;
use crate::text::{chars_of, string_of};

verus! {

/// A string and its convention, ready to be converted.
#[derive(Debug, Clone, Copy)]
pub struct NamingPrincipalConvertor<'a> {
    original: &'a str,
    principal: NamingPrincipal<'a>,
}

impl<'a> NamingPrincipalConvertor<'a> {
    /// The convention is the one of the string itself.
    #[verifier::type_invariant]
    spec fn well_formed(&self) -> bool {
        self.principal.convention() == classify(self.original@) && self.principal.source()
            == self.original@
    }

    /// The characters of the string that was given.
    pub closed spec fn text(&self) -> Seq<char> {
        self.original@
    }

    /// Files `source` under its convention.
    pub fn new(source: &'a str) -> (r: Self)
        ensures
            r.text() == source@,
    {
        Self { original: source, principal: NamingPrincipal::new(source) }
    }

    /// Whether the string meets no rule and is not empty.
    pub fn is_non_principal(&self) -> (r: bool)
        ensures
            r == is_non_principal_seq(self.text()),
    {
        NamingPrincipal::is_non_principal(self.original)
    }

    /// Whether the string meets the rule of constant case.
    pub fn is_constant(&self) -> (r: bool)
        ensures
            r == is_constant_seq(self.text()),
    {
        NamingPrincipal::is_constant(self.original)
    }

    /// Whether the string meets the rule of chain case.
    pub fn is_chain(&self) -> (r: bool)
        ensures
            r == is_chain_seq(self.text()),
    {
        NamingPrincipal::is_chain(self.original)
    }

    /// Whether the string meets the rule of pascal case.
    pub fn is_pascal(&self) -> (r: bool)
        ensures
            r == is_pascal_seq(self.text()),
    {
        NamingPrincipal::is_pascal(self.original)
    }

    /// Whether the string meets the rule of snake case.
    pub fn is_snake(&self) -> (r: bool)
        ensures
            r == is_snake_seq(self.text()),
    {
        NamingPrincipal::is_snake(self.original)
    }

    /// Whether the string meets the rule of camel case.
    pub fn is_camel(&self) -> (r: bool)
        ensures
            r == is_camel_seq(self.text()),
    {
        NamingPrincipal::is_camel(self.original)
    }

    /// The string as it was given.
    pub fn original(&self) -> (r: &str)
        ensures
            r@ == self.text(),
    {
        self.original
    }

    /// The string in chain case.
    pub fn to_chain(&self) -> (r: String)
        ensures
            r@ == chain_of(self.text()),
    {
        proof {
            use_type_invariant(self);
        }
        string_of(&chain_chars_from(self.principal.tag(), &chars_of(self.original)))
    }

    /// The string in constant case.
    pub fn to_constant(&self) -> (r: String)
        ensures
            r@ == constant_of(self.text()),
    {
        proof {
            use_type_invariant(self);
        }
        string_of(&constant_chars_from(self.principal.tag(), &chars_of(self.original)))
    }

    /// The string in pascal case.
    pub fn to_pascal(&self) -> (r: String)
        ensures
            r@ == pascal_of(self.text()),
    {
        proof {
            use_type_invariant(self);
        }
        string_of(&pascal_chars_from(self.principal.tag(), &chars_of(self.original)))
    }

    /// The string in camel case.
    pub fn to_camel(&self) -> (r: String)
        ensures
            r@ == camel_of(self.text()),
    {
        proof {
            use_type_invariant(self);
        }
        string_of(&camel_chars_from(self.principal.tag(), &chars_of(self.original)))
    }

    /// The string in snake case.
    pub fn to_snake(&self) -> (r: String)
        ensures
            r@ == snake_of(self.text()),
    {
        proof {
            use_type_invariant(self);
        }
        string_of(&snake_chars_from(self.principal.tag(), &chars_of(self.original)))
    }
}

} // verus!
