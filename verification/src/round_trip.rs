//! Snake case that comes back: the strings in snake case for which every
//! conversion can be undone, and the proof that it can.

use vstd::prelude::*;
use crate::character::{is_digit, is_lower, is_upper, upper_ascii};
use crate::convention::{all_in, classify, in_alphabet, Alphabet, Convention, Principal};
use crate::conversion::{camel_of, chain_of, constant_of, pascal_of, snake_of};
use crate::fns::rendered;
use crate::rule::{
    flag_at, lemma_pointwise, lemma_rewrite_push, rewrite, written, Rule,
};

verus! {

/// One of the letters `a` to `z`.
pub open spec fn is_small(c: char) -> bool {
    'a' <= c && c <= 'z'
}

/// A character that no conversion loses: `_`, one of `a` to `z`, or a
/// digit that is not an uppercase letter as well.
pub open spec fn is_plain(c: char) -> bool {
    c == '_' || is_small(c) || (is_digit(c) && !is_upper(c))
}

/// Every character of `s` is plain.
pub open spec fn all_plain(s: Seq<char>) -> bool {
    forall|i: int| 0 <= i < s.len() ==> is_plain(#[trigger] s[i])
}

/// Every `_` has one of `a` to `z` after it: no word is empty or begins
/// with a digit, and the string does not end in `_`.
pub open spec fn words_begin_small(s: Seq<char>) -> bool {
    forall|i: int|
        0 <= i < s.len() && #[trigger] s[i] == '_' ==> i + 1 < s.len() && is_small(s[i + 1])
}

/// There is a `_`.
pub open spec fn has_separator(s: Seq<char>) -> bool {
    exists|i: int| 0 <= i < s.len() && #[trigger] s[i] == '_'
}

/// No word after the first is a single letter with another word after it.
pub open spec fn no_lone_letter(s: Seq<char>) -> bool {
    forall|i: int| 0 <= i && i + 2 < s.len() && #[trigger] s[i] == '_' ==> s[i + 2] != '_'
}

/// Some word has a small letter past its first character.
pub open spec fn has_long_word(s: Seq<char>) -> bool {
    exists|i: int| 0 < i < s.len() && is_small(#[trigger] s[i]) && s[i - 1] != '_'
}

/// Snake case of plain characters and of two or more words, the first
/// beginning with a letter or a digit, the others with one of `a` to `z`.
pub open spec fn is_regular_snake(s: Seq<char>) -> bool {
    &&& s.len() > 0
    &&& s[0] != '_'
    &&& all_plain(s)
    &&& words_begin_small(s)
    &&& has_separator(s)
}

/// The regular snake case that comes back from pascal case. Where the
/// pascal form begins with a lowercase letter beyond ASCII it counts as
/// camel case, and two capitals in a row would be read as one word; else a
/// pascal form of capitals and digits alone would count as constant case.
pub open spec fn comes_back_from_pascal(s: Seq<char>) -> bool {
    &&& is_regular_snake(s)
    &&& if is_lower(s[0]) && !is_small(s[0]) {
        no_lone_letter(s)
    } else {
        has_long_word(s)
    }
}

/// The regular snake case that comes back from camel case. Where the
/// camel form begins with a lowercase letter, two capitals in a row would
/// be read as one word; else a camel form of capitals and digits alone
/// would count as constant case.
pub open spec fn comes_back_from_camel(s: Seq<char>) -> bool {
    &&& is_regular_snake(s)
    &&& if is_lower(s[0]) {
        no_lone_letter(s)
    } else {
        has_long_word(s)
    }
}

/// Regular snake case is snake case.
pub proof fn lemma_regular_is_snake(s: Seq<char>)
    requires
        is_regular_snake(s),
    ensures
        classify(s) == Convention::Snake,
{
    let k = choose|i: int| 0 <= i < s.len() && #[trigger] s[i] == '_';
    assert(!in_alphabet(Alphabet::Flat, s[k]));
    assert(!in_alphabet(Alphabet::Joined, s[k]));
    assert forall|i: int| 0 <= i < s.len() implies in_alphabet(Alphabet::Snake, #[trigger] s[i]) by {
        assert(is_plain(s[i]));
    }
}

/// Which of the two splitting rules is meant.
pub open spec fn split_rule(pascal: bool) -> Rule {
    if pascal {
        Rule::SplitPascal('_')
    } else {
        Rule::SplitCamel('_')
    }
}

/// In regular snake case the flag of a splitting rule is up exactly after
/// a `_`.
pub proof fn lemma_split_flag(s: Seq<char>, pascal: bool, n: int)
    requires
        is_regular_snake(s),
        0 <= n <= s.len(),
    ensures
        flag_at(split_rule(pascal), s, n) == (n >= 1 && s[n - 1] == '_'),
    decreases n,
{
    if n > 0 {
        lemma_split_flag(s, pascal, n - 1);
        if n >= 2 && s[n - 2] == '_' {
            assert(is_small(s[n - 2 + 1]));
        }
    }
}

/// The separator put in the place of `_`.
pub open spec fn joined_by(sep: char) -> Rule {
    Rule::Swap('_', sep)
}

/// The rules that split the pascal or the camel form of `s` into words
/// again, with `sep` between them.
pub open spec fn splits_again(s: Seq<char>, pascal: bool, words: Rule, sep: char) -> bool {
    if pascal && is_small(s[0]) {
        words == Rule::PascalWords(sep)
    } else {
        ||| words == Rule::CamelWords(sep) && no_lone_letter(s)
        ||| words == Rule::Scan && sep == '_'
    }
}

/// Splitting the pascal or the camel form of the first `n` characters into
/// words again gives those characters, with `sep` for `_`; a `_` at their
/// end is still to come.
pub proof fn lemma_split_prefix(s: Seq<char>, pascal: bool, words: Rule, sep: char, n: int)
    requires
        is_regular_snake(s),
        splits_again(s, pascal, words, sep),
        0 <= n <= s.len(),
    ensures
        ({
            let form = written(split_rule(pascal), s, n);
            let back = rewrite(words, form);
            &&& all_in(Alphabet::Joined, form)
            &&& n >= 1 ==> form.len() >= 1 && form[0] == if pascal {
                upper_ascii(s[0])
            } else {
                s[0]
            }
            &&& !is_small(s[0]) ==> upper_ascii(s[0]) == s[0]
            &&& n >= 1 ==> (flag_at(words, form, form.len() as int) <==> words is CamelWords
                && n >= 2 && s[n - 2] == '_' && s[n - 1] != '_')
            &&& back == if n >= 1 && s[n - 1] == '_' {
                written(joined_by(sep), s, n - 1)
            } else {
                written(joined_by(sep), s, n)
            }
        }),
    decreases n,
{
    let rule = split_rule(pascal);
    assert(is_plain(s[0]));
    if n == 0 {
        assert(rewrite(words, written(rule, s, 0)) =~= written(joined_by(sep), s, 0));
    } else {
        let m = n - 1;
        lemma_split_prefix(s, pascal, words, sep, m);
        lemma_split_flag(s, pascal, m);
        lemma_pointwise(joined_by(sep), s, n);
        lemma_pointwise(joined_by(sep), s, m);
        let before = written(rule, s, m);
        let form = written(rule, s, n);
        let c = s[m];
        assert(is_plain(c));
        if m >= 1 && s[m - 1] == '_' {
            assert(is_small(s[m - 1 + 1]));
            let u = upper_ascii(c);
            assert(form =~= before.push(u));
            lemma_rewrite_push(words, before, u);
            lemma_pointwise(joined_by(sep), s, m - 1);
            if m >= 2 && s[m - 2] == '_' {
                assert(is_small(s[m - 2 + 1]));
            }
            assert(rewrite(words, form) =~= written(joined_by(sep), s, n));
        } else if c == '_' {
            assert(form =~= before);
            if words is CamelWords && m >= 2 && s[m - 2] == '_' {
                assert(s[m - 2 + 2] != '_');
            }
        } else if m == 0 {
            let first = if pascal {
                upper_ascii(c)
            } else {
                c
            };
            assert(form =~= before.push(first));
            lemma_rewrite_push(words, before, first);
            assert(rewrite(words, before) =~= Seq::<char>::empty());
            assert(rewrite(words, form) =~= written(joined_by(sep), s, n));
        } else {
            assert(form =~= before.push(c));
            lemma_rewrite_push(words, before, c);
            assert(rewrite(words, form) =~= written(joined_by(sep), s, n));
        }
    }
}

/// Splitting the whole pascal or camel form into words again gives the
/// string back, with `sep` for `_`.
pub proof fn lemma_split_whole(s: Seq<char>, pascal: bool, words: Rule, sep: char)
    requires
        is_regular_snake(s),
        splits_again(s, pascal, words, sep),
    ensures
        rewrite(words, rewrite(split_rule(pascal), s)) == rewrite(joined_by(sep), s),
        rewrite(joined_by('_'), s) == s,
        all_in(Alphabet::Joined, rewrite(split_rule(pascal), s)),
        rewrite(split_rule(pascal), s).len() >= 1,
        rewrite(split_rule(pascal), s)[0] == if pascal {
            upper_ascii(s[0])
        } else {
            s[0]
        },
        !is_small(s[0]) ==> upper_ascii(s[0]) == s[0],
{
    lemma_split_prefix(s, pascal, words, sep, s.len() as int);
    lemma_pointwise(joined_by('_'), s, s.len() as int);
    assert(rewrite(joined_by('_'), s) =~= s);
    let last = s.len() - 1;
    assert(s[last] != '_') by {
        if s[last] == '_' {
            assert(last + 1 < s.len());
        }
    }
}

/// What a splitting rule writes for a character that is no `_` stays
/// where it was written.
pub proof fn lemma_split_keeps(s: Seq<char>, pascal: bool, w: int, n: int)
    requires
        is_regular_snake(s),
        0 <= w < n <= s.len(),
        s[w] != '_',
    ensures
        ({
            let at = written(split_rule(pascal), s, w).len() as int;
            let form = written(split_rule(pascal), s, n);
            &&& at < form.len()
            &&& form[at] == if (w >= 1 && s[w - 1] == '_') || (w == 0 && pascal) {
                upper_ascii(s[w])
            } else {
                s[w]
            }
        }),
    decreases n,
{
    lemma_split_flag(s, pascal, n - 1);
    if n - 1 > w {
        lemma_split_keeps(s, pascal, w, n - 1);
    }
}

/// The convention of the pascal or camel form of regular snake case: by
/// its first character pascal or camel case, or none.
pub open spec fn form_convention(s: Seq<char>, pascal: bool) -> Convention {
    if pascal && is_small(s[0]) {
        Convention::Pascal
    } else if is_lower(s[0]) {
        Convention::Camel
    } else {
        Convention::NonPrincipal
    }
}

/// The pascal or camel form of regular snake case has the convention that
/// its first character gives it, where it comes back at all.
pub proof fn lemma_form_convention(s: Seq<char>, pascal: bool)
    requires
        if pascal {
            comes_back_from_pascal(s)
        } else {
            comes_back_from_camel(s)
        },
    ensures
        classify(rewrite(split_rule(pascal), s)) == form_convention(s, pascal),
{
    let rule = split_rule(pascal);
    let form = rewrite(rule, s);
    let words = if pascal && is_small(s[0]) {
        Rule::PascalWords('_')
    } else {
        Rule::Scan
    };
    lemma_split_whole(s, pascal, words, '_');
    assert(is_plain(s[0]));
    let k = choose|i: int| 0 <= i < s.len() && #[trigger] s[i] == '_';
    assert(is_small(s[k + 1]));
    lemma_split_keeps(s, pascal, k + 1, s.len() as int);
    let capital = written(rule, s, k + 1).len() as int;
    assert(!in_alphabet(Alphabet::Flat, form[capital]));
    assert(!in_alphabet(Alphabet::Snake, form[capital]));
    assert(!in_alphabet(Alphabet::Chain, form[capital]));
    if has_long_word(s) {
        let w = choose|i: int| 0 < i < s.len() && is_small(#[trigger] s[i]) && s[i - 1] != '_';
        lemma_split_keeps(s, pascal, w, s.len() as int);
        let small = written(rule, s, w).len() as int;
        assert(!in_alphabet(Alphabet::Capital, form[small]));
        assert(!in_alphabet(Alphabet::Constant, form[small]));
    }
}

/// The pascal and the camel form of regular snake case differ in the case
/// of their first letter alone.
pub proof fn lemma_pascal_and_camel(s: Seq<char>, n: int)
    requires
        is_regular_snake(s),
        0 <= n <= s.len(),
    ensures
        ({
            let pascal = written(Rule::SplitPascal('_'), s, n);
            let camel = written(Rule::SplitCamel('_'), s, n);
            &&& pascal.len() == camel.len()
            &&& forall|j: int| 1 <= j < pascal.len() ==> pascal[j] == camel[j]
            &&& n >= 1 ==> pascal.len() >= 1 && pascal[0] == upper_ascii(s[0]) && camel[0] == s[0]
        }),
    decreases n,
{
    if n > 0 {
        lemma_pascal_and_camel(s, n - 1);
        lemma_split_flag(s, true, n - 1);
        lemma_split_flag(s, false, n - 1);
    }
}

/// The constant form of regular snake case is constant case.
pub proof fn lemma_constant_form(s: Seq<char>)
    requires
        is_regular_snake(s),
    ensures
        classify(rewrite(Rule::Upper, s)) == Convention::Constant,
{
    let form = rewrite(Rule::Upper, s);
    lemma_pointwise(Rule::Upper, s, s.len() as int);
    let k = choose|i: int| 0 <= i < s.len() && #[trigger] s[i] == '_';
    assert(form[k] == '_');
    assert(!in_alphabet(Alphabet::Flat, form[k]));
    assert(!in_alphabet(Alphabet::Joined, form[k]));
    assert(is_small(s[k + 1]));
    assert(!in_alphabet(Alphabet::Snake, form[k + 1]));
    assert forall|i: int| 0 <= i < form.len() implies in_alphabet(
        Alphabet::Constant,
        #[trigger] form[i],
    ) by {
        assert(is_plain(s[i]));
    }
}

/// The chain form of snake case is chain case, and gives the snake case
/// back.
pub proof fn lemma_chain_form(s: Seq<char>)
    requires
        classify(s) == Convention::Snake,
    ensures
        classify(rewrite(Rule::Swap('_', '-'), s)) == Convention::Chain,
        rewrite(Rule::Swap('-', '_'), rewrite(Rule::Swap('_', '-'), s)) == s,
{
    let form = rewrite(Rule::Swap('_', '-'), s);
    lemma_pointwise(Rule::Swap('_', '-'), s, s.len() as int);
    lemma_pointwise(Rule::Swap('-', '_'), form, form.len() as int);
    let k = choose|i: int| 0 <= i < s.len() && !in_alphabet(Alphabet::Flat, #[trigger] s[i]);
    assert(in_alphabet(Alphabet::Snake, s[k]));
    assert(form[k] == '-');
    assert(!in_alphabet(Alphabet::Flat, form[k]));
    assert(!in_alphabet(Alphabet::Joined, form[k]));
    assert(!in_alphabet(Alphabet::Snake, form[k]));
    assert(!in_alphabet(Alphabet::Constant, form[k]));
    assert forall|i: int| 0 <= i < form.len() implies in_alphabet(
        Alphabet::Chain,
        #[trigger] form[i],
    ) by {
        assert(in_alphabet(Alphabet::Snake, s[i]));
    }
    assert forall|i: int| 0 <= i < s.len() implies rewrite(Rule::Swap('-', '_'), form)[i]
        == s[i] by {
        assert(in_alphabet(Alphabet::Snake, s[i]));
    }
    assert(rewrite(Rule::Swap('-', '_'), form) =~= s);
}

/// Snake case comes back from chain case, whatever it holds.
pub proof fn lemma_back_from_chain(s: Seq<char>)
    requires
        classify(s) == Convention::Snake,
    ensures
        snake_of(chain_of(s)) == s,
{
    lemma_chain_form(s);
}

/// Snake case of plain characters comes back from constant case.
pub proof fn lemma_back_from_constant(s: Seq<char>)
    requires
        classify(s) == Convention::Snake,
        all_plain(s),
    ensures
        snake_of(constant_of(s)) == s,
{
    let form = rewrite(Rule::Upper, s);
    lemma_pointwise(Rule::Upper, s, s.len() as int);
    lemma_pointwise(Rule::Lower, form, form.len() as int);
    let k = choose|i: int| 0 <= i < s.len() && !in_alphabet(Alphabet::Flat, #[trigger] s[i]);
    assert(in_alphabet(Alphabet::Snake, s[k]));
    assert(form[k] == '_');
    assert(!in_alphabet(Alphabet::Flat, form[k]));
    assert(!in_alphabet(Alphabet::Joined, form[k]));
    assert forall|i: int| 0 <= i < form.len() implies in_alphabet(
        Alphabet::Constant,
        #[trigger] form[i],
    ) && rewrite(Rule::Lower, form)[i] == s[i] by {
        assert(is_plain(s[i]));
    }
    assert(rewrite(Rule::Lower, form) =~= s);
    if classify(form) == Convention::Snake {
        assert forall|i: int| 0 <= i < s.len() implies form[i] == s[i] by {
            assert(is_plain(s[i]));
            assert(in_alphabet(Alphabet::Snake, form[i]));
        }
        assert(form =~= s);
    }
}

/// The rule by which the pascal or camel form is split into words of
/// snake case again: the one of its convention.
pub open spec fn snake_rule(s: Seq<char>, pascal: bool) -> Rule {
    match form_convention(s, pascal) {
        Convention::Pascal => Rule::PascalWords('_'),
        Convention::Camel => Rule::CamelWords('_'),
        _ => Rule::Scan,
    }
}

/// The rule by which the pascal or camel form is split into words of
/// chain case again.
pub open spec fn chain_rule(s: Seq<char>, pascal: bool) -> Rule {
    match form_convention(s, pascal) {
        Convention::Pascal => Rule::PascalWords('-'),
        Convention::Camel => Rule::CamelWords('-'),
        _ => Rule::Scan,
    }
}

/// Regular snake case comes back from its pascal form and from its camel
/// form, and either form has the chain form and the constant form of the
/// snake case itself.
pub proof fn lemma_back_from_form(s: Seq<char>, pascal: bool)
    requires
        if pascal {
            comes_back_from_pascal(s)
        } else {
            comes_back_from_camel(s)
        },
    ensures
        snake_of(rewrite(split_rule(pascal), s)) == s,
        chain_of(rewrite(split_rule(pascal), s)) == chain_of(s),
        constant_of(rewrite(split_rule(pascal), s)) == constant_of(s),
{
    lemma_regular_is_snake(s);
    lemma_form_convention(s, pascal);
    lemma_split_whole(s, pascal, snake_rule(s, pascal), '_');
    if form_convention(s, pascal) != Convention::NonPrincipal {
        lemma_split_whole(s, pascal, chain_rule(s, pascal), '-');
    }
}

/// Regular snake case comes back from pascal case, unless its pascal form
/// would count as something else.
pub proof fn lemma_back_from_pascal(s: Seq<char>)
    requires
        comes_back_from_pascal(s),
    ensures
        snake_of(pascal_of(s)) == s,
        chain_of(pascal_of(s)) == chain_of(s),
        constant_of(pascal_of(s)) == constant_of(s),
{
    lemma_regular_is_snake(s);
    lemma_back_from_form(s, true);
}

/// Regular snake case comes back from camel case, unless its camel form
/// would count as something else.
pub proof fn lemma_back_from_camel(s: Seq<char>)
    requires
        comes_back_from_camel(s),
    ensures
        snake_of(camel_of(s)) == s,
        chain_of(camel_of(s)) == chain_of(s),
        constant_of(camel_of(s)) == constant_of(s),
{
    lemma_regular_is_snake(s);
    lemma_back_from_form(s, false);
}

/// Regular snake case that comes back from pascal and from camel case
/// comes back from a walk through all five conventions: to pascal, from
/// there to camel, to constant, to chain, and back to snake. At every
/// station the string is what the snake case itself converts to.
pub proof fn lemma_round_trip(s: Seq<char>)
    requires
        comes_back_from_pascal(s),
        comes_back_from_camel(s),
    ensures
        camel_of(pascal_of(s)) == camel_of(s),
        constant_of(camel_of(s)) == constant_of(s),
        chain_of(constant_of(s)) == chain_of(s),
        snake_of(chain_of(s)) == s,
        snake_of(chain_of(constant_of(camel_of(pascal_of(s))))) == s,
{
    lemma_regular_is_snake(s);
    let pascal = rewrite(Rule::SplitPascal('_'), s);
    let camel = rewrite(Rule::SplitCamel('_'), s);
    let constant = rewrite(Rule::Upper, s);
    let chain = rewrite(Rule::Swap('_', '-'), s);
    lemma_constant_form(s);
    lemma_chain_form(s);
    lemma_back_from_camel(s);
    assert(camel_of(pascal) == camel) by {
        lemma_form_convention(s, true);
        lemma_pascal_and_camel(s, s.len() as int);
        lemma_split_whole(s, true, snake_rule(s, true), '_');
        if is_small(s[0]) {
            lemma_pointwise(Rule::LowerFirst, pascal, pascal.len() as int);
            assert(rewrite(Rule::LowerFirst, pascal) =~= camel);
        } else {
            assert(pascal =~= camel);
        }
    }
    assert(chain_of(constant) == chain) by {
        lemma_pointwise(Rule::Upper, s, s.len() as int);
        lemma_pointwise(Rule::Swap('_', '-'), s, s.len() as int);
        lemma_pointwise(Rule::LowerSwap('_', '-'), constant, constant.len() as int);
        assert forall|i: int| 0 <= i < s.len() implies rewrite(
            Rule::LowerSwap('_', '-'),
            constant,
        )[i] == chain[i] by {
            assert(is_plain(s[i]));
        }
        assert(rewrite(Rule::LowerSwap('_', '-'), constant) =~= chain);
    }
}

/// The rule that makes the pascal or the camel form out of the constant
/// form or out of the chain form.
pub open spec fn join_rule(constant: bool, pascal: bool) -> Rule {
    if constant {
        if pascal {
            Rule::ConstantPascal
        } else {
            Rule::ConstantCamel
        }
    } else {
        if pascal {
            Rule::SplitPascal('-')
        } else {
            Rule::SplitCamel('-')
        }
    }
}

/// The rule that makes the constant or the chain form out of snake case.
pub open spec fn fold_rule(constant: bool) -> Rule {
    if constant {
        Rule::Upper
    } else {
        Rule::Swap('_', '-')
    }
}

/// The constant form and the chain form of regular snake case have the
/// pascal and the camel form of the snake case itself, up to every
/// position.
pub proof fn lemma_join_prefix(s: Seq<char>, constant: bool, pascal: bool, n: int)
    requires
        is_regular_snake(s),
        0 <= n <= s.len(),
    ensures
        written(join_rule(constant, pascal), rewrite(fold_rule(constant), s), n) == written(
            split_rule(pascal),
            s,
            n,
        ),
        flag_at(join_rule(constant, pascal), rewrite(fold_rule(constant), s), n) == ((n >= 1
            && s[n - 1] == '_') || (n == 0 && constant && pascal)),
    decreases n,
{
    lemma_pointwise(fold_rule(constant), s, s.len() as int);
    if n > 0 {
        lemma_join_prefix(s, constant, pascal, n - 1);
        lemma_split_flag(s, pascal, n - 1);
        assert(is_plain(s[n - 1]));
        if n >= 2 && s[n - 2] == '_' {
            assert(is_small(s[n - 2 + 1]));
        }
    }
}

/// Regular snake case that comes back from pascal and from camel case has
/// one form in each convention: whichever of its forms is converted, the
/// result is what the snake case itself converts to.
pub proof fn lemma_one_form(s: Seq<char>, x: Principal, y: Principal)
    requires
        comes_back_from_pascal(s),
        comes_back_from_camel(s),
    ensures
        rendered(s, Principal::Snake) == s,
        rendered(rendered(s, x), y) == rendered(s, y),
{
    lemma_regular_is_snake(s);
    lemma_round_trip(s);
    lemma_back_from_pascal(s);
    lemma_back_from_camel(s);
    lemma_back_from_constant(s);
    lemma_constant_form(s);
    lemma_chain_form(s);
    lemma_form_convention(s, true);
    lemma_form_convention(s, false);
    let n = s.len() as int;
    let pascal = rewrite(Rule::SplitPascal('_'), s);
    let camel = rewrite(Rule::SplitCamel('_'), s);
    let constant = rewrite(Rule::Upper, s);
    let chain = rewrite(Rule::Swap('_', '-'), s);
    lemma_pointwise(Rule::Upper, s, n);
    lemma_pointwise(Rule::Swap('_', '-'), s, n);
    lemma_pascal_and_camel(s, n);
    lemma_split_whole(s, true, snake_rule(s, true), '_');
    lemma_split_whole(s, false, snake_rule(s, false), '_');
    match x {
        Principal::Snake => {},
        Principal::Constant => {
            lemma_join_prefix(s, true, true, n);
            lemma_join_prefix(s, true, false, n);
        },
        Principal::Chain => {
            lemma_join_prefix(s, false, true, n);
            lemma_join_prefix(s, false, false, n);
            lemma_pointwise(Rule::UpperSwap('-', '_'), chain, n);
            assert forall|i: int| 0 <= i < n implies rewrite(Rule::UpperSwap('-', '_'), chain)[i]
                == constant[i] by {
                assert(is_plain(s[i]));
            }
            assert(rewrite(Rule::UpperSwap('-', '_'), chain) =~= constant);
        },
        Principal::Pascal => {
            if !is_small(s[0]) {
                assert(pascal =~= camel);
                if is_lower(s[0]) {
                    lemma_pointwise(Rule::UpperFirst, pascal, pascal.len() as int);
                    assert(rewrite(Rule::UpperFirst, pascal) =~= pascal);
                }
            }
        },
        Principal::Camel => {
            if is_lower(s[0]) {
                lemma_pointwise(Rule::UpperFirst, camel, camel.len() as int);
                assert(rewrite(Rule::UpperFirst, camel) =~= pascal);
            }
        },
    }
}

/// `s` converted to each convention of `path` in turn.
pub open spec fn walked(s: Seq<char>, path: Seq<Principal>) -> Seq<char>
    decreases path.len(),
{
    if path.len() == 0 {
        s
    } else {
        rendered(walked(s, path.drop_last()), path.last())
    }
}

/// Regular snake case that comes back from pascal and from camel case
/// comes back from every walk through the conventions: after any path the
/// string is what the snake case itself converts to in the last
/// convention of the path, and the conversion to snake case gives the
/// string back.
pub proof fn lemma_every_walk_comes_back(s: Seq<char>, path: Seq<Principal>)
    requires
        comes_back_from_pascal(s),
        comes_back_from_camel(s),
    ensures
        path.len() > 0 ==> walked(s, path) == rendered(s, path.last()),
        snake_of(walked(s, path)) == s,
    decreases path.len(),
{
    lemma_regular_is_snake(s);
    if path.len() > 0 {
        let before = path.drop_last();
        lemma_every_walk_comes_back(s, before);
        if before.len() > 0 {
            lemma_one_form(s, before.last(), path.last());
        }
        lemma_one_form(s, path.last(), Principal::Snake);
    }
}

} // verus!
