//! The conversions and the rules of the conventions, on strings.

use vstd::prelude::*;
use crate::conversion::{camel_of, chain_of, constant_of, pascal_of, snake_of};
use crate::convention::{
    is_camel_seq, is_chain_seq, is_constant_seq, is_flat_seq, is_non_principal_seq, is_pascal_seq,
    is_snake_seq, Principal,
};
use crate::naming_convertor::NamingPrincipalConvertor;
use crate::naming_principal::NamingPrincipal;
use crate::reserved_store::{corrected, wellknown_words, PascalCaseReservedIdentifiers};

verus! {

/// Converts `source` to camel case.
pub fn to_camel(source: &str) -> (r: String)
    ensures
        r@ == camel_of(source@),
{
    NamingPrincipalConvertor::new(source).to_camel()
}

/// Converts `source` to pascal case.
pub fn to_pascal(source: &str) -> (r: String)
    ensures
        r@ == pascal_of(source@),
{
    NamingPrincipalConvertor::new(source).to_pascal()
}

/// Converts `source` to snake case.
pub fn to_snake(source: &str) -> (r: String)
    ensures
        r@ == snake_of(source@),
{
    NamingPrincipalConvertor::new(source).to_snake()
}

/// Converts `source` to constant case.
pub fn to_constant(source: &str) -> (r: String)
    ensures
        r@ == constant_of(source@),
{
    NamingPrincipalConvertor::new(source).to_constant()
}

/// Converts `source` to chain case.
pub fn to_chain(source: &str) -> (r: String)
    ensures
        r@ == chain_of(source@),
{
    NamingPrincipalConvertor::new(source).to_chain()
}

/// `s` in the convention `to`.
pub open spec fn rendered(s: Seq<char>, to: Principal) -> Seq<char> {
    match to {
        Principal::Camel => camel_of(s),
        Principal::Pascal => pascal_of(s),
        Principal::Snake => snake_of(s),
        Principal::Constant => constant_of(s),
        Principal::Chain => chain_of(s),
    }
}

/// Converts `source` to the convention `to`.
pub fn render(source: &str, to: Principal) -> (r: String)
    ensures
        r@ == rendered(source@, to),
{
    match to {
        Principal::Camel => to_camel(source),
        Principal::Pascal => to_pascal(source),
        Principal::Snake => to_snake(source),
        Principal::Constant => to_constant(source),
        Principal::Chain => to_chain(source),
    }
}

/// Whether `source` meets the rule of flat case.
pub fn is_flat(source: &str) -> (r: bool)
    ensures
        r == is_flat_seq(source@),
{
    NamingPrincipal::is_flat(source)
}

/// Whether `source` meets the rule of camel case.
pub fn is_camel(source: &str) -> (r: bool)
    ensures
        r == is_camel_seq(source@),
{
    NamingPrincipal::is_camel(source)
}

/// Whether `source` meets the rule of pascal case.
pub fn is_pascal(source: &str) -> (r: bool)
    ensures
        r == is_pascal_seq(source@),
{
    NamingPrincipal::is_pascal(source)
}

/// Whether `source` meets the rule of snake case.
pub fn is_snake(source: &str) -> (r: bool)
    ensures
        r == is_snake_seq(source@),
{
    NamingPrincipal::is_snake(source)
}

/// Whether `source` meets the rule of constant case.
pub fn is_constant(source: &str) -> (r: bool)
    ensures
        r == is_constant_seq(source@),
{
    NamingPrincipal::is_constant(source)
}

/// Whether `source` meets the rule of chain case.
pub fn is_chain(source: &str) -> (r: bool)
    ensures
        r == is_chain_seq(source@),
{
    NamingPrincipal::is_chain(source)
}

/// Whether `source` meets no rule and is not empty.
pub fn is_non_principal(source: &str) -> (r: bool)
    ensures
        r == is_non_principal_seq(source@),
{
    NamingPrincipal::is_non_principal(source)
}

/// The characters of each of `words`.
pub open spec fn views(words: Seq<&str>) -> Seq<Seq<char>> {
    words.map_values(|w: &str| w@)
}

/// `source` in the convention `p`, with the reserved `words` put back.
pub open spec fn considered(words: Seq<Seq<char>>, source: Seq<char>, p: Principal) -> Seq<char> {
    corrected(words, words.len() as int, rendered(source, p), p)
}

/// Registers every one of `words` in `store`, in order.
pub fn register(store: &mut PascalCaseReservedIdentifiers, words: &[&str])
    ensures
        final(store).words() == old(store).words() + views(words@),
{
    let mut i: usize = 0;
    while i < words.len()
        invariant
            i <= words.len(),
            store.words() == old(store).words() + views(words@.take(i as int)),
        decreases words.len() - i,
    {
        store.add(words[i]);
        proof {
            assert(views(words@.take(i + 1)) =~= views(words@.take(i as int)).push(words@[i as int]@));
            assert(store.words() =~= old(store).words() + views(words@.take(i + 1)));
        }
        i += 1;
    }
    proof {
        assert(words@.take(words.len() as int) =~= words@);
    }
}

/// Snake case, with the well-known reserved words put back.
pub fn to_snake_consider_with_wellknown_word(source: &str) -> (r: String)
    ensures
        r@ == considered(wellknown_words(), source@, Principal::Snake),
{
    let snake = to_snake(source);
    PascalCaseReservedIdentifiers::wellknown().replace_for_snake_case(snake.as_str())
}

/// Snake case, with the reserved `words` put back.
pub fn to_snake_consider_with_words(source: &str, words: &[&str]) -> (r: String)
    ensures
        r@ == considered(views(words@), source@, Principal::Snake),
{
    let mut reserved_store = PascalCaseReservedIdentifiers::new();
    register(&mut reserved_store, words);
    proof {
        assert(reserved_store.words() =~= views(words@));
    }
    let snake = to_snake(source);
    reserved_store.replace_for_snake_case(snake.as_str())
}

/// Snake case, with the well-known reserved words and then `words` put back.
pub fn to_snake_consider_with_wellknown_and_others(source: &str, words: &[&str]) -> (r: String)
    ensures
        r@ == considered(wellknown_words() + views(words@), source@, Principal::Snake),
{
    let mut reserved_store = PascalCaseReservedIdentifiers::wellknown();
    register(&mut reserved_store, words);
    let snake = to_snake(source);
    reserved_store.replace_for_snake_case(snake.as_str())
}

/// Constant case, with the well-known reserved words put back.
pub fn to_constant_consider_with_wellknown_word(source: &str) -> (r: String)
    ensures
        r@ == considered(wellknown_words(), source@, Principal::Constant),
{
    let constant = to_constant(source);
    PascalCaseReservedIdentifiers::wellknown().replace_for_constant_case(constant.as_str())
}

/// Constant case, with the reserved `words` put back.
pub fn to_constant_with_words(source: &str, words: &[&str]) -> (r: String)
    ensures
        r@ == considered(views(words@), source@, Principal::Constant),
{
    let mut reserved_store = PascalCaseReservedIdentifiers::new();
    register(&mut reserved_store, words);
    proof {
        assert(reserved_store.words() =~= views(words@));
    }
    let constant = to_constant(source);
    reserved_store.replace_for_constant_case(constant.as_str())
}

/// Constant case, with the well-known reserved words and then `words` put
/// back.
pub fn to_constant_consider_with_wellknown_and_others(source: &str, words: &[&str]) -> (r: String)
    ensures
        r@ == considered(wellknown_words() + views(words@), source@, Principal::Constant),
{
    let mut reserved_store = PascalCaseReservedIdentifiers::wellknown();
    register(&mut reserved_store, words);
    let constant = to_constant(source);
    reserved_store.replace_for_constant_case(constant.as_str())
}

/// Chain case, with the well-known reserved words put back.
pub fn to_chain_consider_with_wellknown_word(source: &str) -> (r: String)
    ensures
        r@ == considered(wellknown_words(), source@, Principal::Chain),
{
    let chain = to_chain(source);
    PascalCaseReservedIdentifiers::wellknown().replace_for_chain_case(chain.as_str())
}

/// Chain case, with the reserved `words` put back.
pub fn to_chain_consider_with_words(source: &str, words: &[&str]) -> (r: String)
    ensures
        r@ == considered(views(words@), source@, Principal::Chain),
{
    let mut reserved_store = PascalCaseReservedIdentifiers::new();
    register(&mut reserved_store, words);
    proof {
        assert(reserved_store.words() =~= views(words@));
    }
    let chain = to_chain(source);
    reserved_store.replace_for_chain_case(chain.as_str())
}

/// Chain case, with the well-known reserved words and then `words` put back.
pub fn to_chain_consider_with_wellknown_word_and_others(source: &str, words: &[&str]) -> (r:
    String)
    ensures
        r@ == considered(wellknown_words() + views(words@), source@, Principal::Chain),
{
    let mut reserved_store = PascalCaseReservedIdentifiers::wellknown();
    register(&mut reserved_store, words);
    let chain = to_chain(source);
    reserved_store.replace_for_chain_case(chain.as_str())
}

} // verus!
