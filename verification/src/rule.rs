//! One-pass rewriting rules.
//!
//! Every conversion between two conventions reads its source once from the
//! left, keeps at most one flag, and writes for each character a piece of
//! zero, one or two characters. A rule says what the piece is and how the
//! flag changes; the output is the pieces joined in order.

use vstd::prelude::*;
use crate::character::{
    is_upper, is_uppercase, lower_ascii, to_ascii_lowercase, to_ascii_uppercase, upper_ascii,
};

verus! {

#[derive(Debug, Clone, Copy, PartialEq, Eq, Structural)]
pub enum Rule {
    /// Every character folded to lowercase.
    Lower,
    /// Every character folded to uppercase.
    Upper,
    /// The first character replaced by the second; the others stay.
    Swap(char, char),
    /// The first character replaced by the second; the others folded to
    /// lowercase.
    LowerSwap(char, char),
    /// The first character replaced by the second; the others folded to
    /// uppercase.
    UpperSwap(char, char),
    /// Only the first character of the source folded to lowercase.
    LowerFirst,
    /// Only the first character of the source folded to uppercase.
    UpperFirst,
    /// The separator put before every uppercase letter but the first
    /// character of the source; every uppercase letter folded to lowercase.
    PascalWords(char),
    /// The separator put before an uppercase letter that follows no
    /// uppercase letter; every uppercase letter folded to lowercase.
    CamelWords(char),
    /// The scan for a source that follows no convention: `-` becomes `_`
    /// unless an uppercase letter follows it, an uppercase letter gets `_`
    /// before it unless it is the first character, and is folded.
    Scan,
    /// A separator past the first position is dropped and the character
    /// after it folded to uppercase; a separator in the first position is
    /// dropped.
    SplitCamel(char),
    /// A separator is dropped and the character after it folded to
    /// uppercase; so is the first character of the source.
    SplitPascal(char),
    /// A `_` past the first position is dropped and the character after it
    /// kept; a `_` in the first position is dropped; the others folded to
    /// lowercase.
    ConstantCamel,
    /// Every `_` is dropped; the first character and the one after a `_`
    /// are kept; the others folded to lowercase.
    ConstantPascal,
}

/// The flag before the first character.
pub open spec fn initial(rule: Rule) -> bool {
    rule == Rule::ConstantPascal
}

/// The flag after the character at `i`, given the flag before it.
pub open spec fn advance(rule: Rule, flag: bool, s: Seq<char>, i: int) -> bool {
    match rule {
        Rule::CamelWords(_) => is_upper(s[i]),
        Rule::SplitCamel(sep) => !flag && s[i] == sep && i != 0,
        Rule::SplitPascal(sep) => !flag && s[i] == sep,
        Rule::ConstantCamel => !flag && s[i] == '_' && i != 0,
        Rule::ConstantPascal => s[i] == '_' && (i != 0 || flag),
        _ => false,
    }
}

/// `c`, or the separator and `c` folded to lowercase where `c` is an
/// uppercase letter.
pub open spec fn boundary(c: char, sep: char) -> Seq<char> {
    if is_upper(c) {
        seq![sep, lower_ascii(c)]
    } else {
        seq![c]
    }
}

/// What the rule writes for the character at `i`, given the flag before it.
pub open spec fn piece(rule: Rule, flag: bool, s: Seq<char>, i: int) -> Seq<char> {
    let c = s[i];
    match rule {
        Rule::Lower => seq![lower_ascii(c)],
        Rule::Upper => seq![upper_ascii(c)],
        Rule::Swap(from, to) => seq![if c == from { to } else { c }],
        Rule::LowerSwap(from, to) => seq![if c == from { to } else { lower_ascii(c) }],
        Rule::UpperSwap(from, to) => seq![if c == from { to } else { upper_ascii(c) }],
        Rule::LowerFirst => seq![if i == 0 { lower_ascii(c) } else { c }],
        Rule::UpperFirst => seq![if i == 0 { upper_ascii(c) } else { c }],
        Rule::PascalWords(sep) => if i == 0 {
            seq![lower_ascii(c)]
        } else {
            boundary(c, sep)
        },
        Rule::CamelWords(sep) => if is_upper(c) && flag {
            seq![lower_ascii(c)]
        } else {
            boundary(c, sep)
        },
        Rule::Scan => if i == 0 && is_upper(c) {
            seq![lower_ascii(c)]
        } else if c == '-' {
            if i + 1 < s.len() && is_upper(s[i + 1]) {
                Seq::empty()
            } else {
                seq!['_']
            }
        } else {
            boundary(c, '_')
        },
        Rule::SplitCamel(sep) => if flag {
            seq![upper_ascii(c)]
        } else if c == sep {
            Seq::empty()
        } else {
            seq![c]
        },
        Rule::SplitPascal(sep) => if flag {
            seq![upper_ascii(c)]
        } else if c == sep {
            Seq::empty()
        } else if i == 0 {
            seq![upper_ascii(c)]
        } else {
            seq![c]
        },
        Rule::ConstantCamel => if flag {
            seq![c]
        } else if c == '_' {
            Seq::empty()
        } else {
            seq![lower_ascii(c)]
        },
        Rule::ConstantPascal => if c == '_' {
            Seq::empty()
        } else if flag {
            seq![c]
        } else {
            seq![lower_ascii(c)]
        },
    }
}

/// The flag after the first `n` characters of `s`.
pub open spec fn flag_at(rule: Rule, s: Seq<char>, n: int) -> bool
    decreases n,
{
    if n <= 0 {
        initial(rule)
    } else {
        advance(rule, flag_at(rule, s, n - 1), s, n - 1)
    }
}

/// What the rule has written after the first `n` characters of `s`.
pub open spec fn written(rule: Rule, s: Seq<char>, n: int) -> Seq<char>
    decreases n,
{
    if n <= 0 {
        Seq::empty()
    } else {
        written(rule, s, n - 1) + piece(rule, flag_at(rule, s, n - 1), s, n - 1)
    }
}

/// `s` rewritten by the rule.
pub open spec fn rewrite(rule: Rule, s: Seq<char>) -> Seq<char> {
    written(rule, s, s.len() as int)
}

/// The rules that write exactly one character for every character read.
pub open spec fn is_pointwise(rule: Rule) -> bool {
    match rule {
        Rule::Lower | Rule::Upper | Rule::Swap(_, _) | Rule::LowerSwap(_, _) | Rule::UpperSwap(
            _,
            _,
        ) | Rule::LowerFirst | Rule::UpperFirst => true,
        _ => false,
    }
}

/// What a pointwise rule writes for the character `c` at position `i`.
pub open spec fn image(rule: Rule, c: char, i: int) -> char {
    match rule {
        Rule::Lower => lower_ascii(c),
        Rule::Upper => upper_ascii(c),
        Rule::Swap(from, to) => if c == from {
            to
        } else {
            c
        },
        Rule::LowerSwap(from, to) => if c == from {
            to
        } else {
            lower_ascii(c)
        },
        Rule::UpperSwap(from, to) => if c == from {
            to
        } else {
            upper_ascii(c)
        },
        Rule::LowerFirst => if i == 0 {
            lower_ascii(c)
        } else {
            c
        },
        Rule::UpperFirst => if i == 0 {
            upper_ascii(c)
        } else {
            c
        },
        _ => c,
    }
}

/// A pointwise rule writes as many characters as it reads, each the image
/// of the one read.
pub proof fn lemma_pointwise(rule: Rule, s: Seq<char>, n: int)
    requires
        is_pointwise(rule),
        0 <= n <= s.len(),
    ensures
        written(rule, s, n).len() == n,
        forall|i: int| 0 <= i < n ==> #[trigger] written(rule, s, n)[i] == image(rule, s[i], i),
    decreases n,
{
    if n > 0 {
        lemma_pointwise(rule, s, n - 1);
    }
}

/// What a rule has written and its flag after `n` characters depend on
/// those characters alone. The scan looks one character ahead after a `-`,
/// so for the scan there is to be no `-` among them.
pub proof fn lemma_agree(rule: Rule, t: Seq<char>, u: Seq<char>, n: int)
    requires
        0 <= n <= t.len(),
        n <= u.len(),
        forall|i: int| 0 <= i < n ==> t[i] == u[i],
        rule is Scan ==> forall|i: int| 0 <= i < n ==> t[i] != '-',
    ensures
        written(rule, t, n) == written(rule, u, n),
        flag_at(rule, t, n) == flag_at(rule, u, n),
    decreases n,
{
    if n > 0 {
        lemma_agree(rule, t, u, n - 1);
    }
}

/// A rule rewrites a string with one more character by adding the piece
/// for that character. For the scan there is to be no `-` before it.
pub proof fn lemma_rewrite_push(rule: Rule, t: Seq<char>, c: char)
    requires
        rule is Scan ==> forall|i: int| 0 <= i < t.len() ==> t[i] != '-',
    ensures
        rewrite(rule, t.push(c)) == rewrite(rule, t) + piece(
            rule,
            flag_at(rule, t, t.len() as int),
            t.push(c),
            t.len() as int,
        ),
        flag_at(rule, t.push(c), t.len() as int + 1) == advance(
            rule,
            flag_at(rule, t, t.len() as int),
            t.push(c),
            t.len() as int,
        ),
{
    lemma_agree(rule, t.push(c), t, t.len() as int);
}

/// Appends `c` to `out`, with the separator before it and folded to
/// lowercase where it is an uppercase letter.
fn upper_to_partition(out: &mut Vec<char>, c: char, partition: char)
    ensures
        final(out)@ == old(out)@ + boundary(c, partition),
{
    if is_uppercase(c) {
        out.push(partition);
        out.push(to_ascii_lowercase(c));
        proof {
            assert(out@ =~= old(out)@ + boundary(c, partition));
        }
    } else {
        out.push(c);
        proof {
            assert(out@ =~= old(out)@ + boundary(c, partition));
        }
    }
}

/// Reads the character at `i`: appends its piece to `out` and returns the
/// flag after it.
fn step(rule: Rule, flag: bool, s: &Vec<char>, i: usize, out: &mut Vec<char>) -> (next: bool)
    requires
        i < s.len(),
    ensures
        final(out)@ == old(out)@ + piece(rule, flag, s@, i as int),
        next == advance(rule, flag, s@, i as int),
{
    let c = s[i];
    let ghost before = out@;
    let mut next = false;
    match rule {
        Rule::Lower => {
            out.push(to_ascii_lowercase(c));
        },
        Rule::Upper => {
            out.push(to_ascii_uppercase(c));
        },
        Rule::Swap(from, to) => {
            out.push(if c == from { to } else { c });
        },
        Rule::LowerSwap(from, to) => {
            out.push(if c == from { to } else { to_ascii_lowercase(c) });
        },
        Rule::UpperSwap(from, to) => {
            out.push(if c == from { to } else { to_ascii_uppercase(c) });
        },
        Rule::LowerFirst => {
            out.push(if i == 0 { to_ascii_lowercase(c) } else { c });
        },
        Rule::UpperFirst => {
            out.push(if i == 0 { to_ascii_uppercase(c) } else { c });
        },
        Rule::PascalWords(sep) => {
            if i == 0 {
                out.push(to_ascii_lowercase(c));
            } else {
                upper_to_partition(out, c, sep);
            }
        },
        Rule::CamelWords(sep) => {
            next = is_uppercase(c);
            if next && flag {
                out.push(to_ascii_lowercase(c));
            } else {
                upper_to_partition(out, c, sep);
            }
        },
        Rule::Scan => {
            if i == 0 && is_uppercase(c) {
                out.push(to_ascii_lowercase(c));
            } else if c == '-' {
                if !(i + 1 < s.len() && is_uppercase(s[i + 1])) {
                    out.push('_');
                }
            } else {
                upper_to_partition(out, c, '_');
            }
        },
        Rule::SplitCamel(sep) => {
            if flag {
                out.push(to_ascii_uppercase(c));
            } else if c == sep {
                next = i != 0;
            } else {
                out.push(c);
            }
        },
        Rule::SplitPascal(sep) => {
            if flag {
                out.push(to_ascii_uppercase(c));
            } else if c == sep {
                next = true;
            } else if i == 0 {
                out.push(to_ascii_uppercase(c));
            } else {
                out.push(c);
            }
        },
        Rule::ConstantCamel => {
            if flag {
                out.push(c);
            } else if c == '_' {
                next = i != 0;
            } else {
                out.push(to_ascii_lowercase(c));
            }
        },
        Rule::ConstantPascal => {
            if c == '_' {
                next = i != 0 || flag;
            } else if flag {
                out.push(c);
            } else {
                out.push(to_ascii_lowercase(c));
            }
        },
    }
    proof {
        assert(out@ =~= before + piece(rule, flag, s@, i as int));
    }
    next
}

/// Rewrites `s` by the rule.
pub fn apply(rule: Rule, s: &Vec<char>) -> (out: Vec<char>)
    ensures
        out@ == rewrite(rule, s@),
{
    let mut out: Vec<char> = Vec::new();
    let mut flag = matches!(rule, Rule::ConstantPascal);
    let mut i: usize = 0;
    while i < s.len()
        invariant
            i <= s.len(),
            flag == flag_at(rule, s@, i as int),
            out@ == written(rule, s@, i as int),
        decreases s.len() - i,
    {
        flag = step(rule, flag, s, i, &mut out);
        i += 1;
    }
    out
}

} // verus!
