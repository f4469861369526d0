//! What holds of the classification and of the conversions, whatever the
//! string.

use vstd::prelude::*;
use crate::convention::{
    classify, in_alphabet, is_camel_seq, is_chain_seq, is_constant_seq, is_empty_seq, is_flat_seq,
    is_non_principal_seq, is_pascal_seq, is_snake_seq, Alphabet, Convention, Principal,
};
use crate::conversion::{chain_of, snake_of};
use crate::fns::rendered;
use crate::rule::{flag_at, lemma_pointwise, rewrite, written, Rule};

verus! {

/// The convention that a target stands for.
pub open spec fn convention_of(p: Principal) -> Convention {
    match p {
        Principal::Camel => Convention::Camel,
        Principal::Pascal => Convention::Pascal,
        Principal::Snake => Convention::Snake,
        Principal::Constant => Convention::Constant,
        Principal::Chain => Convention::Chain,
    }
}

/// Converting a string to the convention it is written in changes nothing.
pub proof fn lemma_own_convention_is_kept(s: Seq<char>, p: Principal)
    requires
        classify(s) == convention_of(p),
    ensures
        rendered(s, p) == s,
{
}

/// Every string has a convention: it meets the rule of the convention it
/// is given, and the one that meets no rule and is not empty is
/// `NonPrincipal`. No string is left without one.
pub proof fn lemma_classification_is_total(s: Seq<char>)
    ensures
        is_flat_seq(s) || is_camel_seq(s) || is_pascal_seq(s) || is_snake_seq(s) || is_constant_seq(
            s,
        ) || is_chain_seq(s) || is_empty_seq(s) || is_non_principal_seq(s),
        classify(s) == Convention::Flat <==> is_flat_seq(s),
        classify(s) == Convention::Camel ==> is_camel_seq(s),
        classify(s) == Convention::Pascal ==> is_pascal_seq(s),
        classify(s) == Convention::Snake ==> is_snake_seq(s),
        classify(s) == Convention::Constant ==> is_constant_seq(s),
        classify(s) == Convention::Chain ==> is_chain_seq(s),
        classify(s) == Convention::Empty <==> is_empty_seq(s),
        classify(s) == Convention::NonPrincipal <==> is_non_principal_seq(s),
{
}

/// The empty string has the convention `Empty`, and every conversion leaves
/// it empty.
pub proof fn lemma_empty_stays_empty(s: Seq<char>, p: Principal)
    requires
        s.len() == 0,
    ensures
        classify(s) == Convention::Empty,
        rendered(s, p) == s,
{
}

/// The rule that parts the words of camel or of pascal case by `sep`.
pub open spec fn words_rule(pascal: bool, sep: char) -> Rule {
    if pascal {
        Rule::PascalWords(sep)
    } else {
        Rule::CamelWords(sep)
    }
}

/// Parting the words of a string without `_` by `-` gives, up to every
/// position, what parting them by `_` gives, with `-` where that has `_`.
pub proof fn lemma_words_by_either_separator(s: Seq<char>, pascal: bool, n: int)
    requires
        forall|i: int| 0 <= i < s.len() ==> s[i] != '_',
        0 <= n <= s.len(),
    ensures
        ({
            let snake = written(words_rule(pascal, '_'), s, n);
            let chain = written(words_rule(pascal, '-'), s, n);
            &&& chain.len() == snake.len()
            &&& forall|j: int|
                0 <= j < snake.len() ==> #[trigger] chain[j] == if snake[j] == '_' {
                    '-'
                } else {
                    snake[j]
                }
            &&& flag_at(words_rule(pascal, '-'), s, n) == flag_at(words_rule(pascal, '_'), s, n)
        }),
    decreases n,
{
    if n > 0 {
        lemma_words_by_either_separator(s, pascal, n - 1);
    }
}

/// Chain case has the word boundaries of snake case: the chain case of a
/// string in camel or in pascal case is its snake case with `-` for `_`.
pub proof fn lemma_chain_follows_snake(s: Seq<char>)
    requires
        classify(s) == Convention::Camel || classify(s) == Convention::Pascal,
    ensures
        chain_of(s) == rewrite(Rule::Swap('_', '-'), snake_of(s)),
{
    let pascal = classify(s) == Convention::Pascal;
    assert forall|i: int| 0 <= i < s.len() implies s[i] != '_' by {
        assert(in_alphabet(Alphabet::Joined, s[i]));
    }
    lemma_words_by_either_separator(s, pascal, s.len() as int);
    let snake = snake_of(s);
    lemma_pointwise(Rule::Swap('_', '-'), snake, snake.len() as int);
    assert(chain_of(s) =~= rewrite(Rule::Swap('_', '-'), snake));
}

} // verus!
