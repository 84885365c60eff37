//! Substring search and replacement on character sequences.
//!
//! Input paths are short strings; everything here works on their characters
//! and is specified over `Seq<char>`.

use vstd::prelude::*;

verus! {

/// `needle` stands in `hay` at position `at`.
pub open spec fn occurs_at(hay: Seq<char>, needle: Seq<char>, at: int) -> bool {
    &&& 0 <= at
    &&& at + needle.len() <= hay.len()
    &&& hay.subrange(at, at + needle.len()) == needle
}

/// `needle` stands somewhere in `hay`.
pub open spec fn occurs(hay: Seq<char>, needle: Seq<char>) -> bool {
    exists|at: int| occurs_at(hay, needle, at)
}

/// `hay` with every occurrence of `from` replaced by `to`, scanning from the
/// left and never revisiting replaced text. An empty `from` matches before
/// every character and once at the end.
pub open spec fn replace_all(hay: Seq<char>, from: Seq<char>, to: Seq<char>) -> Seq<char>
    decreases hay.len(),
{
    if hay.len() == 0 {
        if from.len() == 0 {
            to
        } else {
            hay
        }
    } else if from.len() == 0 {
        to + seq![hay[0]] + replace_all(hay.skip(1), from, to)
    } else if occurs_at(hay, from, 0) {
        to + replace_all(hay.skip(from.len() as int), from, to)
    } else {
        seq![hay[0]] + replace_all(hay.skip(1), from, to)
    }
}

/// The lowercase form of a string, as `str::to_lowercase` computes it from
/// the Unicode character tables.
pub uninterp spec fn lowercase_of(s: Seq<char>) -> Seq<char>;

/// `String::push` appends one character to the string.
pub assume_specification[ std::string::String::push ](s: &mut std::string::String, ch: char)
    ensures
        final(s)@ == old(s)@.push(ch),
;

/// `str::to_lowercase` returns the lowercase form of the whole string; the
/// result depends on the characters of the input alone.
pub assume_specification[ str::to_lowercase ](s: &str) -> (r: std::string::String)
    ensures
        r@ == lowercase_of(s@),
;

/// A text without any occurrence of `from` is left as it is.
pub proof fn lemma_replace_without_occurrence(hay: Seq<char>, from: Seq<char>, to: Seq<char>)
    requires
        !occurs(hay, from),
    ensures
        replace_all(hay, from, to) == hay,
    decreases hay.len(),
{
    if from.len() == 0 {
        assert(hay.subrange(0, 0) =~= from);
        assert(occurs_at(hay, from, 0));
    } else if hay.len() > 0 {
        let rest = hay.skip(1);
        assert forall|at: int| !occurs_at(rest, from, at) by {
            if occurs_at(rest, from, at) {
                assert(hay.subrange(at + 1, at + 1 + from.len()) =~= rest.subrange(
                    at,
                    at + from.len(),
                ));
                assert(occurs_at(hay, from, at + 1));
            }
        }
        lemma_replace_without_occurrence(rest, from, to);
    }
}

/// The characters of a string slice, in order.
pub fn chars_of(s: &str) -> (v: Vec<char>)
    ensures
        v@ == s@,
{
    let mut v: Vec<char> = Vec::new();
    for c in it: s.chars()
        invariant
            it.seq() == s@,
            v@ =~= it.seq().take(it.index()),
    {
        v.push(c);
    }
    v
}

/// Whether two string slices hold the same characters.
pub fn same_text(a: &str, b: &str) -> (r: bool)
    ensures
        r == (a@ == b@),
{
    let x = chars_of(a);
    let y = chars_of(b);
    if x.len() != y.len() {
        return false;
    }
    let hit = matches_at(&x, &y, 0);
    proof {
        assert(x@.subrange(0, y@.len() as int) =~= x@);
    }
    hit
}

/// Whether `needle` stands in `hay` at position `at`.
pub fn matches_at(hay: &Vec<char>, needle: &Vec<char>, at: usize) -> (r: bool)
    ensures
        r == occurs_at(hay@, needle@, at as int),
{
    if at > hay.len() || needle.len() > hay.len() - at {
        return false;
    }
    let mut k: usize = 0;
    while k < needle.len()
        invariant
            k <= needle.len(),
            at + needle.len() <= hay.len(),
            forall|j: int| 0 <= j < k ==> hay@[at + j] == needle@[j],
        decreases needle.len() - k,
    {
        if hay[at + k] != needle[k] {
            return false;
        }
        k += 1;
    }
    assert(hay@.subrange(at as int, at + needle.len()) =~= needle@);
    true
}

/// Whether `needle` occurs anywhere in `hay`.
pub fn contains_chars(hay: &Vec<char>, needle: &Vec<char>) -> (r: bool)
    ensures
        r == occurs(hay@, needle@),
{
    if needle.len() > hay.len() {
        return false;
    }
    let last: usize = hay.len() - needle.len();
    let mut i: usize = 0;
    loop
        invariant
            last == hay.len() - needle.len(),
            needle.len() <= hay.len(),
            i <= last,
            forall|at: int| 0 <= at < i ==> !occurs_at(hay@, needle@, at),
        decreases last - i,
    {
        if matches_at(hay, needle, i) {
            return true;
        }
        if i == last {
            return false;
        }
        i += 1;
    }
}

/// Whether `needle` occurs anywhere in `hay`.
pub fn contains(hay: &str, needle: &str) -> (r: bool)
    ensures
        r == occurs(hay@, needle@),
{
    let h = chars_of(hay);
    let n = chars_of(needle);
    contains_chars(&h, &n)
}

/// Appends every character of `chars` to `out`.
fn push_all(out: &mut Vec<char>, chars: &Vec<char>)
    ensures
        final(out)@ == old(out)@ + chars@,
{
    let mut k: usize = 0;
    while k < chars.len()
        invariant
            k <= chars.len(),
            out@ == old(out)@ + chars@.take(k as int),
        decreases chars.len() - k,
    {
        out.push(chars[k]);
        k += 1;
    }
}

/// `hay` with every occurrence of `from` replaced by `to`.
pub fn replace_chars(hay: &Vec<char>, from: &Vec<char>, to: &Vec<char>) -> (r: Vec<char>)
    ensures
        r@ == replace_all(hay@, from@, to@),
{
    let mut out: Vec<char> = Vec::new();
    let mut i: usize = 0;
    assert(hay@.skip(0) =~= hay@);
    while i < hay.len()
        invariant
            i <= hay.len(),
            out@ + replace_all(hay@.skip(i as int), from@, to@) == replace_all(
                hay@,
                from@,
                to@,
            ),
        decreases hay.len() - i,
    {
        let ghost rest = hay@.skip(i as int);
        let hit = from.len() > 0 && matches_at(hay, from, i);
        proof {
            if i + from.len() <= hay.len() {
                assert(rest.subrange(0, from.len() as int) =~= hay@.subrange(
                    i as int,
                    i + from.len(),
                ));
            }
        }
        if from.len() == 0 {
            push_all(&mut out, to);
            out.push(hay[i]);
            assert(rest.skip(1) =~= hay@.skip(i + 1));
            i += 1;
        } else if hit {
            push_all(&mut out, to);
            assert(rest.skip(from.len() as int) =~= hay@.skip(i + from.len()));
            i += from.len();
        } else {
            out.push(hay[i]);
            assert(rest.skip(1) =~= hay@.skip(i + 1));
            i += 1;
        }
    }
    if from.len() == 0 {
        push_all(&mut out, to);
    }
    out
}

/// The string made of `chars`, in order.
pub fn string_of(chars: &Vec<char>) -> (r: String)
    ensures
        r@ == chars@,
{
    let mut out = String::new();
    let mut k: usize = 0;
    while k < chars.len()
        invariant
            k <= chars.len(),
            out@ =~= chars@.take(k as int),
        decreases chars.len() - k,
    {
        out.push(chars[k]);
        k += 1;
    }
    out
}

/// `hay` with every occurrence of `from` replaced by `to`.
pub fn replace(hay: &str, from: &str, to: &str) -> (r: String)
    ensures
        r@ == replace_all(hay@, from@, to@),
{
    let h = chars_of(hay);
    let f = chars_of(from);
    let t = chars_of(to);
    let out = replace_chars(&h, &f, &t);
    string_of(&out)
}

} // verus!
