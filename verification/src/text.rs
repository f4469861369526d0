//! Strings as sequences of characters: reading a string into a vector,
//! writing it back, and replacing every occurrence of a pattern.

use vstd::prelude::*;

verus! {

/// Calls `String::push`, which appends `c` to the end of `s`.
#[verifier::external_body]
fn push_char(s: &mut String, c: char)
    ensures
        final(s)@ == old(s)@.push(c),
{
    s.push(c)
}

/// The characters of `s`, in order.
pub fn chars_of(s: &str) -> (v: Vec<char>)
    ensures
        v@ == s@,
{
    let mut v: Vec<char> = Vec::new();
    for c in it: s.chars()
        invariant
            v@ == it.seq().take(it.index() as int),
            it.seq() == s@,
    {
        v.push(c);
    }
    v
}

/// The string made of the characters `v`, in order.
pub fn string_of(v: &Vec<char>) -> (s: String)
    ensures
        s@ == v@,
{
    let mut s = String::new();
    let mut i: usize = 0;
    while i < v.len()
        invariant
            i <= v.len(),
            s@ == v@.take(i as int),
        decreases v.len() - i,
    {
        push_char(&mut s, v[i]);
        i += 1;
    }
    s
}

/// Appends every character of `w` to `out`.
pub fn push_all(out: &mut Vec<char>, w: &Vec<char>)
    ensures
        final(out)@ == old(out)@ + w@,
{
    let mut i: usize = 0;
    while i < w.len()
        invariant
            i <= w.len(),
            out@ == old(out)@ + w@.take(i as int),
        decreases w.len() - i,
    {
        out.push(w[i]);
        i += 1;
    }
}

/// `pat` stands in `s` at position `i`.
pub open spec fn occurs_at(s: Seq<char>, pat: Seq<char>, i: int) -> bool {
    0 <= i && i + pat.len() <= s.len() && s.subrange(i, i + pat.len()) == pat
}

/// `pat` stands somewhere in `s`.
pub open spec fn occurs_in(s: Seq<char>, pat: Seq<char>) -> bool {
    exists|i: int| occurs_at(s, pat, i)
}

/// `s` with every occurrence of `pat` replaced by `to`. Occurrences are taken
/// from the left and do not overlap. An empty pattern occurs before every
/// character and at the end.
pub open spec fn replace_all(s: Seq<char>, pat: Seq<char>, to: Seq<char>) -> Seq<char>
    decreases s.len(),
{
    if pat.len() == 0 {
        if s.len() == 0 {
            to
        } else {
            (to + seq![s[0]]) + replace_all(s.skip(1), pat, to)
        }
    } else if s.len() < pat.len() {
        s
    } else if occurs_at(s, pat, 0) {
        to + replace_all(s.skip(pat.len() as int), pat, to)
    } else {
        seq![s[0]] + replace_all(s.skip(1), pat, to)
    }
}

/// Where the pattern does not stand in `s`, replacing it changes nothing.
pub proof fn lemma_replace_without_occurrence(s: Seq<char>, pat: Seq<char>, to: Seq<char>)
    requires
        !occurs_in(s, pat),
    ensures
        replace_all(s, pat, to) == s,
    decreases s.len(),
{
    assert(!occurs_at(s, pat, 0));
    if pat.len() == 0 {
        assert(s.subrange(0, 0) =~= pat);
    } else if s.len() >= pat.len() {
        let rest = s.skip(1);
        assert forall|i: int| !occurs_at(rest, pat, i) by {
            if occurs_at(rest, pat, i) {
                assert(rest.subrange(i, i + pat.len()) =~= s.subrange(i + 1, i + 1 + pat.len()));
                assert(occurs_at(s, pat, i + 1));
            }
        }
        lemma_replace_without_occurrence(rest, pat, to);
        assert(seq![s[0]] + rest =~= s);
    }
}

/// Whether `pat` stands in `s` at position `i`.
pub fn matches_at(s: &Vec<char>, pat: &Vec<char>, i: usize) -> (r: bool)
    ensures
        r == occurs_at(s@, pat@, i as int),
{
    if i > s.len() || pat.len() > s.len() - i {
        return false;
    }
    let mut k: usize = 0;
    while k < pat.len()
        invariant
            k <= pat.len(),
            i + pat.len() <= s.len(),
            forall|j: int| 0 <= j < k ==> s@[i + j] == pat@[j],
        decreases pat.len() - k,
    {
        if s[i + k] != pat[k] {
            proof {
                assert(s@.subrange(i as int, i + pat.len())[k as int] == s@[i + k]);
            }
            return false;
        }
        k += 1;
    }
    proof {
        assert(s@.subrange(i as int, i + pat.len()) =~= pat@);
    }
    true
}

/// Replaces every occurrence of `pat` in `s` by `to`.
pub fn replace_chars(s: &Vec<char>, pat: &Vec<char>, to: &Vec<char>) -> (out: Vec<char>)
    ensures
        out@ == replace_all(s@, pat@, to@),
{
    let mut out: Vec<char> = Vec::new();
    let mut i: usize = 0;
    proof {
        assert(s@.skip(0) =~= s@);
        assert(out@ + replace_all(s@, pat@, to@) =~= replace_all(s@, pat@, to@));
    }
    if pat.len() == 0 {
        while i < s.len()
            invariant
                i <= s.len(),
                pat@.len() == 0,
                out@ + replace_all(s@.skip(i as int), pat@, to@) == replace_all(s@, pat@, to@),
            decreases s.len() - i,
        {
            proof {
                assert(s@.skip(i as int).skip(1) =~= s@.skip(i + 1));
            }
            let ghost before = out@;
            push_all(&mut out, to);
            out.push(s[i]);
            proof {
                let rest = replace_all(s@.skip(i + 1), pat@, to@);
                assert(out@ + rest =~= before + ((to@ + seq![s@[i as int]]) + rest));
            }
            i += 1;
        }
        push_all(&mut out, to);
        proof {
            assert(s@.skip(i as int).len() == 0);
        }
        return out;
    }
    while pat.len() <= s.len() - i
        invariant
            i <= s.len(),
            pat@.len() > 0,
            out@ + replace_all(s@.skip(i as int), pat@, to@) == replace_all(s@, pat@, to@),
        decreases s.len() - i,
    {
        let ghost before = out@;
        let ghost tail = s@.skip(i as int);
        proof {
            assert(tail.subrange(0, pat@.len() as int) =~= s@.subrange(i as int, i + pat@.len()));
        }
        if matches_at(s, pat, i) {
            push_all(&mut out, to);
            proof {
                assert(tail.skip(pat@.len() as int) =~= s@.skip(i + pat@.len()));
                let rest = replace_all(s@.skip(i + pat@.len()), pat@, to@);
                assert(out@ + rest =~= before + (to@ + rest));
            }
            i += pat.len();
        } else {
            out.push(s[i]);
            proof {
                assert(tail.skip(1) =~= s@.skip(i + 1));
                let rest = replace_all(s@.skip(i + 1), pat@, to@);
                assert(out@ + rest =~= before + (seq![s@[i as int]] + rest));
            }
            i += 1;
        }
    }
    while i < s.len()
        invariant
            i <= s.len(),
            out@ + s@.skip(i as int) == replace_all(s@, pat@, to@),
        decreases s.len() - i,
    {
        let ghost before = out@;
        out.push(s[i]);
        proof {
            assert(out@ + s@.skip(i + 1) =~= before + s@.skip(i as int));
        }
        i += 1;
    }
    proof {
        assert(out@ + s@.skip(i as int) =~= out@);
    }
    out
}

/// Replaces every occurrence of `pat` in `s` by `to`.
pub fn replace(s: &str, pat: &str, to: &str) -> (r: String)
    ensures
        r@ == replace_all(s@, pat@, to@),
{
    let out = replace_chars(&chars_of(s), &chars_of(pat), &chars_of(to));
    string_of(&out)
}

} // verus!
