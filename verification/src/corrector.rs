//! Replacing the characters that no identifier may hold, before a
//! conversion.

use vstd::prelude::*;
use crate::conversion::{camel_of, constant_of, pascal_of, snake_of};
use crate::convention::Principal;
use crate::fns::{to_camel, to_constant, to_pascal, to_snake};
use crate::pipeline::PreConvert;
use crate::text::{chars_of, string_of};

verus! {

/// `s` without the character `c`.
pub open spec fn without(s: Seq<char>, c: char) -> Seq<char>
    decreases s.len(),
{
    if s.len() == 0 {
        s
    } else if s.last() == c {
        without(s.drop_last(), c)
    } else {
        without(s.drop_last(), c).push(s.last())
    }
}

/// `s` with every character of `invalid` replaced by `_`.
pub open spec fn masked(invalid: Seq<char>, s: Seq<char>) -> Seq<char> {
    s.map_values(
        |c: char|
            if invalid.contains(c) {
                '_'
            } else {
                c
            },
    )
}

/// `s` with every character of `invalid` replaced by `_`, and without the
/// `_` at its end where it then ends in one.
pub open spec fn cleaned(invalid: Seq<char>, s: Seq<char>) -> Seq<char> {
    let m = masked(invalid, s);
    if m.len() > 0 && m.last() == '_' {
        m.drop_last()
    } else {
        m
    }
}

/// The characters that are invalid where nothing else is said.
pub open spec fn default_invalid_characters() -> Seq<char> {
    seq![
        ':', ' ', '-', '/', '\\', '.', ',', ';', '\'', '"', '[', ']', '{', '}', '(', ')', '<', '>',
        '?', '!', '@', '#', '$', '%', '^', '&', '*', '+', '=', '|', '~', '`',
    ]
}

/// Corrects the characters that are invalid in an identifier of a
/// programming language, and converts the result.
pub struct InvalidCharacterCorrector {
    invalid_characters: Vec<char>,
}

impl InvalidCharacterCorrector {
    /// The invalid characters, in the order in which they were added.
    pub closed spec fn invalid(&self) -> Seq<char> {
        self.invalid_characters@
    }

    /// A corrector to which no character is invalid.
    pub fn new() -> (r: Self)
        ensures
            r.invalid() == Seq::<char>::empty(),
    {
        Self { invalid_characters: Vec::new() }
    }

    /// The snake case of `source` with its invalid characters replaced.
    pub fn to_snake(&self, source: &str) -> (r: String)
        ensures
            r@ == snake_of(cleaned(self.invalid(), source@)),
    {
        to_snake(self.replace(source).as_str())
    }

    /// The camel case of the snake case that `to_snake` gives.
    pub fn to_camel(&self, source: &str) -> (r: String)
        ensures
            r@ == camel_of(snake_of(cleaned(self.invalid(), source@))),
    {
        to_camel(self.to_snake(source).as_str())
    }

    /// The pascal case of the snake case that `to_snake` gives.
    pub fn to_pascal(&self, source: &str) -> (r: String)
        ensures
            r@ == pascal_of(snake_of(cleaned(self.invalid(), source@))),
    {
        to_pascal(self.to_snake(source).as_str())
    }

    /// The constant case of the snake case that `to_snake` gives.
    pub fn to_constant(&self, source: &str) -> (r: String)
        ensures
            r@ == constant_of(snake_of(cleaned(self.invalid(), source@))),
    {
        to_constant(self.to_snake(source).as_str())
    }

    /// Makes `character` invalid.
    pub fn add_invalid_character(&mut self, character: char)
        ensures
            final(self).invalid() == old(self).invalid().push(character),
    {
        self.invalid_characters.push(character);
    }

    /// Makes `character` valid again, however often it was added.
    pub fn remove_invalid_character(&mut self, character: char)
        ensures
            final(self).invalid() == without(old(self).invalid(), character),
    {
        let mut kept: Vec<char> = Vec::new();
        let mut i: usize = 0;
        while i < self.invalid_characters.len()
            invariant
                i <= self.invalid_characters.len(),
                self.invalid_characters@ == old(self).invalid_characters@,
                kept@ == without(self.invalid_characters@.take(i as int), character),
            decreases self.invalid_characters.len() - i,
        {
            proof {
                assert(self.invalid_characters@.take(i + 1).drop_last()
                    =~= self.invalid_characters@.take(i as int));
            }
            if self.invalid_characters[i] != character {
                kept.push(self.invalid_characters[i]);
            }
            i += 1;
        }
        proof {
            assert(self.invalid_characters@.take(i as int) =~= self.invalid_characters@);
        }
        self.invalid_characters = kept;
    }

    fn is_invalid(&self, c: char) -> (r: bool)
        ensures
            r == self.invalid().contains(c),
    {
        let mut i: usize = 0;
        while i < self.invalid_characters.len()
            invariant
                i <= self.invalid_characters.len(),
                forall|k: int| 0 <= k < i ==> self.invalid_characters@[k] != c,
            decreases self.invalid_characters.len() - i,
        {
            if self.invalid_characters[i] == c {
                return true;
            }
            i += 1;
        }
        false
    }

    fn replace(&self, source: &str) -> (r: String)
        ensures
            r@ == cleaned(self.invalid(), source@),
    {
        let chars = chars_of(source);
        let mut result: Vec<char> = Vec::new();
        let mut i: usize = 0;
        while i < chars.len()
            invariant
                i <= chars.len(),
                result@ == masked(self.invalid(), chars@.take(i as int)),
            decreases chars.len() - i,
        {
            let c = chars[i];
            result.push(if self.is_invalid(c) { '_' } else { c });
            proof {
                assert(result@ =~= masked(self.invalid(), chars@.take(i + 1)));
            }
            i += 1;
        }
        proof {
            assert(chars@.take(chars.len() as int) =~= chars@);
        }
        if result.len() > 0 && result[result.len() - 1] == '_' {
            result.pop();
        }
        string_of(&result)
    }
}

/// As a hook before the conversion, the corrector replaces the invalid
/// characters, whatever the target.
impl PreConvert for InvalidCharacterCorrector {
    open spec fn prepared(&self, source: Seq<char>, principal: Principal) -> Seq<char> {
        cleaned(self.invalid(), source)
    }

    fn convert(&self, source: &str, principal: Principal) -> (r: String) {
        self.replace(source)
    }
}

impl Default for InvalidCharacterCorrector {
    fn default() -> (r: Self)
        ensures
            r.invalid() == default_invalid_characters(),
    {
        let r = Self {
            invalid_characters: vec![
                ':', ' ', '-', '/', '\\', '.', ',', ';', '\'', '"', '[', ']', '{', '}', '(', ')',
                '<', '>', '?', '!', '@', '#', '$', '%', '^', '&', '*', '+', '=', '|', '~', '`',
            ],
        };
        proof {
            assert(r.invalid() =~= default_invalid_characters());
        }
        r
    }
}

} // verus!
