//! What the command line asks for, and the answer to it.

use vstd::prelude::*;
use crate::convention::Principal;
use crate::convertor::{
    settled_sentence, unignored, IgnoreWordsConverter, PascalCaseReservedIdentifiersConverter,
};
use crate::fns::{render, rendered, views};
use crate::reserved_store::{corrected, wellknown_words};

verus! {

/// The options of one call.
pub struct Options {
    pub snake: bool,
    pub camel: bool,
    pub pascal: bool,
    pub chain: bool,
    pub constant: bool,
    /// Words to leave as they are written.
    pub ignores: Vec<String>,
    /// Whether the well-known reserved words are put back.
    pub consider_well_known: bool,
    /// Reserved words beside the well-known ones; they count only together
    /// with the well-known ones.
    pub consider_words: Vec<String>,
    /// The sentence to convert.
    pub sentence: String,
}

/// The characters of each of `words`.
pub open spec fn texts(words: Seq<String>) -> Seq<Seq<char>> {
    words.map_values(|w: String| w@)
}

impl Options {
    /// The target convention: the first flag that is set, in the order
    /// snake, camel, pascal, chain, constant; snake where none is.
    pub open spec fn target(&self) -> Principal {
        if self.snake {
            Principal::Snake
        } else if self.camel {
            Principal::Camel
        } else if self.pascal {
            Principal::Pascal
        } else if self.chain {
            Principal::Chain
        } else if self.constant {
            Principal::Constant
        } else {
            Principal::Snake
        }
    }

    /// The reserved words that are put back.
    pub open spec fn reserved(&self) -> Seq<Seq<char>> {
        wellknown_words() + texts(self.consider_words@)
    }

    /// What is printed: the sentence in the target convention, then the
    /// reserved words put back where that is asked for, then the words to
    /// ignore put back where there are any.
    pub open spec fn answer(&self) -> Seq<char> {
        let p = self.target();
        let plain = rendered(self.sentence@, p);
        let fixed = if self.consider_well_known {
            corrected(
                self.reserved(),
                self.reserved().len() as int,
                settled_sentence(plain, p),
                p,
            )
        } else {
            plain
        };
        if self.ignores@.len() > 0 {
            unignored(texts(self.ignores@), self.ignores@.len() as int, fixed, p)
        } else {
            fixed
        }
    }

    /// The target convention that the flags ask for.
    pub fn principal(&self) -> (p: Principal)
        ensures
            p == self.target(),
    {
        if self.snake {
            Principal::Snake
        } else if self.camel {
            Principal::Camel
        } else if self.pascal {
            Principal::Pascal
        } else if self.chain {
            Principal::Chain
        } else if self.constant {
            Principal::Constant
        } else {
            Principal::Snake
        }
    }

    /// The answer to print.
    pub fn run(&self) -> (r: String)
        ensures
            r@ == self.answer(),
    {
        let principal = self.principal();
        let mut result = render(self.sentence.as_str(), principal);
        if self.consider_well_known {
            let mut well_known = PascalCaseReservedIdentifiersConverter::wellknown();
            let mut i: usize = 0;
            while i < self.consider_words.len()
                invariant
                    i <= self.consider_words.len(),
                    well_known.words() == wellknown_words() + texts(
                        self.consider_words@.take(i as int),
                    ),
                decreases self.consider_words.len() - i,
            {
                well_known = well_known.add(self.consider_words[i].as_str());
                proof {
                    assert(texts(self.consider_words@.take(i + 1)) =~= texts(
                        self.consider_words@.take(i as int),
                    ).push(self.consider_words@[i as int]@));
                    assert(well_known.words() =~= wellknown_words() + texts(
                        self.consider_words@.take(i + 1),
                    ));
                }
                i += 1;
            }
            proof {
                assert(self.consider_words@.take(i as int) =~= self.consider_words@);
            }
            result = well_known.to(result.as_str(), principal);
        }
        if self.ignores.len() > 0 {
            let mut args: Vec<&str> = Vec::new();
            let mut k: usize = 0;
            while k < self.ignores.len()
                invariant
                    k <= self.ignores.len(),
                    args@.len() == k,
                    forall|j: int| 0 <= j < k ==> (#[trigger] args@[j])@ == self.ignores@[j]@,
                decreases self.ignores.len() - k,
            {
                args.push(self.ignores[k].as_str());
                k += 1;
            }
            proof {
                assert(views(args@) =~= texts(self.ignores@));
            }
            let ignores = IgnoreWordsConverter::new(args.as_slice());
            result = ignores.fix_for(result.as_str(), principal);
        }
        result
    }
}

} // verus!
