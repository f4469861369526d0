//! The hooks that run after a conversion: one puts reserved words back,
//! one puts words back that are to be left as they were written.

use vstd::prelude::*;
use crate::conversion::{camel_of, pascal_of};
use crate::convention::Principal;
use crate::fns::{render, rendered, to_camel, to_pascal};
use crate::pipeline::PostConvert;
use crate::reserved_store::{corrected, wellknown_words, PascalCaseReservedIdentifiers};
use crate::text::{replace, replace_all};

verus! {

/// The sentence in which reserved words are looked for: for camel and
/// pascal it is converted once more, for the others it is taken as it is.
pub open spec fn settled_sentence(s: Seq<char>, p: Principal) -> Seq<char> {
    match p {
        Principal::Camel => camel_of(s),
        Principal::Pascal => pascal_of(s),
        _ => s,
    }
}

/// Puts reserved words back into a converted sentence.
pub struct PascalCaseReservedIdentifiersConverter {
    identifiers: PascalCaseReservedIdentifiers,
}

impl PascalCaseReservedIdentifiersConverter {
    /// The registered words, in order.
    pub closed spec fn words(&self) -> Seq<Seq<char>> {
        self.identifiers.words()
    }

    /// What the hook makes of `source`, a sentence in the convention
    /// `principal`.
    pub open spec fn fixed(&self, source: Seq<char>, principal: Principal) -> Seq<char> {
        corrected(
            self.words(),
            self.words().len() as int,
            settled_sentence(source, principal),
            principal,
        )
    }

    /// The hook in a box, as the pipeline takes it.
    pub fn to_convertor(self) -> (r: Box<Self>)
        ensures
            *r == self,
    {
        Box::new(self)
    }

    /// The hook with the well-known reserved words.
    pub fn wellknown() -> (r: Self)
        ensures
            r.words() == wellknown_words(),
    {
        Self::new(PascalCaseReservedIdentifiers::wellknown())
    }

    fn new(identifiers: PascalCaseReservedIdentifiers) -> (r: Self)
        ensures
            r.words() == identifiers.words(),
    {
        Self { identifiers }
    }

    /// The hook with `target` registered after the words it has.
    pub fn add(self, target: &str) -> (r: Self)
        ensures
            r.words() == self.words().push(target@),
    {
        let mut identifiers = self.identifiers;
        identifiers.add(target);
        Self { identifiers }
    }

    /// Puts the reserved words back into `source`, a sentence in the
    /// convention `principal`.
    pub fn to(&self, source: &str, principal: Principal) -> (r: String)
        ensures
            r@ == self.fixed(source@, principal),
    {
        match principal {
            Principal::Snake => self.fix_for_snake_case(source),
            Principal::Chain => self.fix_for_chain_case(source),
            Principal::Constant => self.fix_for_constant_case(source),
            Principal::Pascal => self.fix_for_pascal_case(source),
            Principal::Camel => self.fix_for_camel_case(source),
        }
    }

    fn fix_for_snake_case(&self, sentence: &str) -> (r: String)
        ensures
            r@ == self.fixed(sentence@, Principal::Snake),
    {
        self.identifiers.correct_for(Principal::Snake, sentence)
    }

    fn fix_for_chain_case(&self, sentence: &str) -> (r: String)
        ensures
            r@ == self.fixed(sentence@, Principal::Chain),
    {
        self.identifiers.correct_for(Principal::Chain, sentence)
    }

    fn fix_for_constant_case(&self, sentence: &str) -> (r: String)
        ensures
            r@ == self.fixed(sentence@, Principal::Constant),
    {
        self.identifiers.correct_for(Principal::Constant, sentence)
    }

    fn fix_for_camel_case(&self, sentence: &str) -> (r: String)
        ensures
            r@ == self.fixed(sentence@, Principal::Camel),
    {
        let camel = to_camel(sentence);
        self.identifiers.correct_for(Principal::Camel, camel.as_str())
    }

    fn fix_for_pascal_case(&self, sentence: &str) -> (r: String)
        ensures
            r@ == self.fixed(sentence@, Principal::Pascal),
    {
        let pascal = to_pascal(sentence);
        self.identifiers.correct_for(Principal::Pascal, pascal.as_str())
    }
}

impl PostConvert for PascalCaseReservedIdentifiersConverter {
    open spec fn amended(&self, source: Seq<char>, principal: Principal) -> Seq<char> {
        self.fixed(source, principal)
    }

    fn convert(&self, source: &str, principal: Principal) -> (r: String) {
        self.to(source, principal)
    }
}

/// `s` after the first `n` of `words` have been put back as they were
/// written, wherever their form in the convention `p` stands, one after the
/// other, each on the result of the one before.
pub open spec fn unignored(words: Seq<Seq<char>>, n: int, s: Seq<char>, p: Principal) -> Seq<
    char,
>
    decreases n,
{
    if n <= 0 {
        s
    } else {
        replace_all(unignored(words, n - 1, s, p), rendered(words[n - 1], p), words[n - 1])
    }
}

/// Puts words back into a converted sentence as they were written.
pub struct IgnoreWordsConverter {
    inner: Vec<String>,
}

impl IgnoreWordsConverter {
    /// The words to leave as they are, in order.
    pub closed spec fn words(&self) -> Seq<Seq<char>> {
        self.inner@.map_values(|w: String| w@)
    }

    /// The hook that leaves the words `inner` as they are written.
    pub fn new(inner: &[&str]) -> (r: Self)
        ensures
            r.words() == inner@.map_values(|w: &str| w@),
    {
        let mut words: Vec<String> = Vec::new();
        let mut i: usize = 0;
        while i < inner.len()
            invariant
                i <= inner.len(),
                words@.map_values(|w: String| w@) == inner@.take(i as int).map_values(
                    |w: &str| w@,
                ),
            decreases inner.len() - i,
        {
            let ghost before = words@;
            words.push(inner[i].to_owned());
            proof {
                assert(words@.map_values(|w: String| w@) =~= inner@.take(i + 1).map_values(
                    |w: &str| w@,
                )) by {
                    assert(before.map_values(|w: String| w@).len() == i);
                    assert forall|k: int| 0 <= k < i implies words@[k]@ == inner@[k]@ by {
                        assert(before.map_values(|w: String| w@)[k] == inner@.take(
                            i as int,
                        ).map_values(|w: &str| w@)[k]);
                    }
                }
            }
            i += 1;
        }
        proof {
            assert(inner@.take(inner.len() as int) =~= inner@);
        }
        Self { inner: words }
    }

    /// The hook in a box, as the pipeline takes it.
    pub fn to_convertor(self) -> (r: Box<Self>)
        ensures
            *r == self,
    {
        Box::new(self)
    }

    /// Puts every word back into `converted`, which is in the convention
    /// `principal`.
    pub fn fix_for(&self, converted: &str, principal: Principal) -> (r: String)
        ensures
            r@ == unignored(self.words(), self.words().len() as int, converted@, principal),
    {
        let mut result = converted.to_owned();
        let mut i: usize = 0;
        while i < self.inner.len()
            invariant
                i <= self.inner.len(),
                self.words().len() == self.inner.len(),
                result@ == unignored(self.words(), i as int, converted@, principal),
            decreases self.inner.len() - i,
        {
            let ignore_word = self.inner[i].as_str();
            let converted_ignore_word = render(ignore_word, principal);
            proof {
                assert(self.words()[i as int] == ignore_word@);
            }
            result = replace(result.as_str(), converted_ignore_word.as_str(), ignore_word);
            i += 1;
        }
        result
    }
}

impl PostConvert for IgnoreWordsConverter {
    open spec fn amended(&self, source: Seq<char>, principal: Principal) -> Seq<char> {
        unignored(self.words(), self.words().len() as int, source, principal)
    }

    fn convert(&self, source: &str, principal: Principal) -> (r: String) {
        self.fix_for(source, principal)
    }
}

} // verus!
