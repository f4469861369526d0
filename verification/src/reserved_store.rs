//! Reserved identifiers: words such as `GitHub` that a conversion splits at
//! every capital, and that are put back together afterwards.

use vstd::prelude::*;
use crate::conversion::pascal_of;
use crate::convention::Principal;
use crate::fns::{render, rendered, to_pascal};
use crate::rule::{apply, rewrite, Rule};
use crate::text::{chars_of, replace, replace_all, string_of};

verus! {

/// `w` with `A` to `Z` folded to lowercase.
pub open spec fn lower_case_of(w: Seq<char>) -> Seq<char> {
    rewrite(Rule::Lower, w)
}

/// `w` with `a` to `z` folded to uppercase.
pub open spec fn upper_case_of(w: Seq<char>) -> Seq<char> {
    rewrite(Rule::Upper, w)
}

/// What a conversion to `p` leaves of the reserved word `w`: the text to
/// look for. For pascal case it is the word with only its initial in
/// uppercase.
pub open spec fn needle(p: Principal, w: Seq<char>) -> Seq<char> {
    match p {
        Principal::Pascal => pascal_of(lower_case_of(w)),
        _ => rendered(w, p),
    }
}

/// What the reserved word `w` is written as in the convention `p`: all in
/// lowercase for snake and chain, all in uppercase for constant, as it was
/// registered for pascal and camel.
pub open spec fn patch(p: Principal, w: Seq<char>) -> Seq<char> {
    match p {
        Principal::Snake | Principal::Chain => lower_case_of(w),
        Principal::Constant => upper_case_of(w),
        Principal::Pascal | Principal::Camel => w,
    }
}

/// `s` after the first `n` of `words` have been put back, one after the
/// other in the order of registration, each on the result of the one before.
pub open spec fn corrected(words: Seq<Seq<char>>, n: int, s: Seq<char>, p: Principal) -> Seq<
    char,
>
    decreases n,
{
    if n <= 0 {
        s
    } else {
        replace_all(corrected(words, n - 1, s, p), needle(p, words[n - 1]), patch(p, words[n - 1]))
    }
}

/// The well-known reserved words.
pub open spec fn wellknown_words() -> Seq<Seq<char>> {
    seq!["GitHub"@, "TypeScript"@, "JavaScript"@, "DeepL"@, "ChatGPT"@]
}

/// A reserved word with what each conversion leaves of it.
pub struct ReservedIdentifier {
    word: String,
    snake: String,
    chain: String,
    constant: String,
    pascal: String,
    camel: String,
}

impl ReservedIdentifier {
    #[verifier::type_invariant]
    spec fn well_formed(&self) -> bool {
        &&& self.snake@ == needle(Principal::Snake, self.word@)
        &&& self.chain@ == needle(Principal::Chain, self.word@)
        &&& self.constant@ == needle(Principal::Constant, self.word@)
        &&& self.pascal@ == needle(Principal::Pascal, self.word@)
        &&& self.camel@ == needle(Principal::Camel, self.word@)
    }

    /// The word as it was registered.
    pub closed spec fn canonical(&self) -> Seq<char> {
        self.word@
    }

    /// A reserved word with the renderings that the conversions leave of
    /// it.
    pub fn new(word: &str) -> (r: Self)
        ensures
            r.canonical() == word@,
    {
        Self {
            word: word.to_owned(),
            snake: render(word, Principal::Snake),
            chain: render(word, Principal::Chain),
            constant: render(word, Principal::Constant),
            pascal: reserved_to_invalid_pascal(word),
            camel: reserved_to_invalid_camel(word),
        }
    }

    /// The word as it was registered.
    pub fn word(&self) -> (r: &str)
        ensures
            r@ == self.canonical(),
    {
        self.word.as_str()
    }

    /// What a conversion to `p` leaves of the word.
    pub fn rendering(&self, p: Principal) -> (r: &str)
        ensures
            r@ == needle(p, self.canonical()),
    {
        proof {
            use_type_invariant(self);
        }
        match p {
            Principal::Snake => self.snake.as_str(),
            Principal::Chain => self.chain.as_str(),
            Principal::Constant => self.constant.as_str(),
            Principal::Pascal => self.pascal.as_str(),
            Principal::Camel => self.camel.as_str(),
        }
    }

    /// What the word is written as in the convention `p`.
    pub fn replacement(&self, p: Principal) -> (r: String)
        ensures
            r@ == patch(p, self.canonical()),
    {
        match p {
            Principal::Snake | Principal::Chain => to_lower_case(self.word.as_str()),
            Principal::Constant => to_upper_case(self.word.as_str()),
            Principal::Pascal | Principal::Camel => self.word.clone(),
        }
    }
}

/// The pascal case that a conversion leaves of a reserved word: the word
/// with only its initial in uppercase.
pub fn reserved_to_invalid_pascal(source: &str) -> (r: String)
    ensures
        r@ == needle(Principal::Pascal, source@),
{
    to_pascal(to_lower_case(source).as_str())
}

/// The camel case that a conversion leaves of a reserved word.
pub fn reserved_to_invalid_camel(source: &str) -> (r: String)
    ensures
        r@ == needle(Principal::Camel, source@),
{
    render(source, Principal::Camel)
}

/// `target` with `A` to `Z` folded to lowercase.
pub fn to_lower_case(target: &str) -> (r: String)
    ensures
        r@ == lower_case_of(target@),
{
    string_of(&apply(Rule::Lower, &chars_of(target)))
}

/// `target` with `a` to `z` folded to uppercase.
pub fn to_upper_case(target: &str) -> (r: String)
    ensures
        r@ == upper_case_of(target@),
{
    string_of(&apply(Rule::Upper, &chars_of(target)))
}

/// The reserved words, in the order in which they were registered.
pub struct PascalCaseReservedIdentifiers {
    entries: Vec<ReservedIdentifier>,
}

impl PascalCaseReservedIdentifiers {
    /// The registered words, in order.
    pub closed spec fn words(&self) -> Seq<Seq<char>> {
        self.entries@.map_values(|e: ReservedIdentifier| e.canonical())
    }

    /// A store without words.
    pub fn new() -> (r: Self)
        ensures
            r.words() == Seq::<Seq<char>>::empty(),
    {
        let r = Self { entries: Vec::new() };
        proof {
            assert(r.words() =~= Seq::<Seq<char>>::empty());
        }
        r
    }

    /// The store of the well-known reserved words.
    pub fn wellknown() -> (r: Self)
        ensures
            r.words() == wellknown_words(),
    {
        let mut this = Self::new();
        this.add("GitHub");
        this.add("TypeScript");
        this.add("JavaScript");
        this.add("DeepL");
        this.add("ChatGPT");
        proof {
            assert(this.words() =~= wellknown_words());
        }
        this
    }

    /// Registers `target` after the words that the store has.
    pub fn add(&mut self, target: &str)
        ensures
            final(self).words() == old(self).words().push(target@),
    {
        self.entries.push(ReservedIdentifier::new(target));
        proof {
            assert(self.words() =~= old(self).words().push(target@));
        }
    }

    /// Puts every registered word back into `sentence`, which is in the
    /// convention `p`.
    pub fn correct_for(&self, p: Principal, sentence: &str) -> (r: String)
        ensures
            r@ == corrected(self.words(), self.words().len() as int, sentence@, p),
    {
        let mut result = sentence.to_owned();
        let mut i: usize = 0;
        while i < self.entries.len()
            invariant
                i <= self.entries.len(),
                self.words().len() == self.entries.len(),
                result@ == corrected(self.words(), i as int, sentence@, p),
            decreases self.entries.len() - i,
        {
            let entry = &self.entries[i];
            let to = entry.replacement(p);
            proof {
                assert(self.words()[i as int] == entry.canonical());
            }
            result = replace(result.as_str(), entry.rendering(p), to.as_str());
            i += 1;
        }
        result
    }

    /// Puts every registered word back into `sentence`, which is in snake
    /// case.
    pub fn replace_for_snake_case(&self, sentence: &str) -> (r: String)
        ensures
            r@ == corrected(self.words(), self.words().len() as int, sentence@, Principal::Snake),
    {
        self.correct_for(Principal::Snake, sentence)
    }

    /// Puts every registered word back into `sentence`, which is in constant
    /// case.
    pub fn replace_for_constant_case(&self, sentence: &str) -> (r: String)
        ensures
            r@ == corrected(self.words(), self.words().len() as int, sentence@, Principal::Constant),
    {
        self.correct_for(Principal::Constant, sentence)
    }

    /// Puts every registered word back into `sentence`, which is in chain
    /// case.
    pub fn replace_for_chain_case(&self, sentence: &str) -> (r: String)
        ensures
            r@ == corrected(self.words(), self.words().len() as int, sentence@, Principal::Chain),
    {
        self.correct_for(Principal::Chain, sentence)
    }

    /// Converts `sentence` to pascal case and puts every registered word
    /// back.
    pub fn replace_for_pascal_case(&self, sentence: &str) -> (r: String)
        ensures
            r@ == corrected(
                self.words(),
                self.words().len() as int,
                pascal_of(sentence@),
                Principal::Pascal,
            ),
    {
        let pascal = to_pascal(sentence);
        self.correct_for(Principal::Pascal, pascal.as_str())
    }
}

} // verus!
