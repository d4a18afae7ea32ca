//! Type names: free-form identifiers brought into one capitalised form.

use crate::text::{chars_of, lemma_strings_view_push, string_from, strings_view};
use vstd::prelude::*;

verus! {

/// The uppercase mapping of `c`, which may be more than one character.
pub uninterp spec fn uppercase(c: char) -> Seq<char>;

/// The lowercase form of the text `s`.
pub uninterp spec fn lowercase(s: Seq<char>) -> Seq<char>;

/// `char::to_uppercase` yields the characters of the uppercase mapping of
/// `c`; they depend on `c` alone and are gathered here into a string.
#[verifier::external_body]
fn upper_of(c: char) -> (r: String)
    ensures
        r@ == uppercase(c),
{
    c.to_uppercase().collect()
}

/// `str::to_lowercase` returns the lowercase form of a text as a new string;
/// it depends on the text alone.
pub assume_specification[ str::to_lowercase ](s: &str) -> (r: std::string::String)
    ensures
        r@ == lowercase(s@),
;

/// The characters that part an identifier into words.
pub open spec fn is_separator(c: char) -> bool {
    c == '-' || c == '_' || c == ' '
}

/// Number of characters of `s` before its first separator, or all of them
/// when it has none.
pub open spec fn word_end(s: Seq<char>) -> nat
    decreases s.len(),
{
    if s.len() == 0 || is_separator(s[0]) {
        0
    } else {
        word_end(s.drop_first()) + 1
    }
}

/// The words of `s`: its longest pieces without a separator, in order. No
/// word is empty, so neighbouring separators count as one.
pub open spec fn words(s: Seq<char>) -> Seq<Seq<char>>
    decreases s.len(),
    via words_shrink
{
    if s.len() == 0 {
        Seq::empty()
    } else if is_separator(s[0]) {
        words(s.drop_first())
    } else {
        let n = word_end(s) as int;
        seq![s.take(n)] + words(s.skip(n))
    }
}

/// A word ends within the text.
pub proof fn lemma_word_end_within(s: Seq<char>)
    ensures
        word_end(s) <= s.len(),
    decreases s.len(),
{
    if s.len() > 0 && !is_separator(s[0]) {
        lemma_word_end_within(s.drop_first());
    }
}

#[via_fn]
proof fn words_shrink(s: Seq<char>) {
    lemma_word_end_within(s);
}

/// A word with its first character in upper case and the rest in lower case.
pub open spec fn capitalized(w: Seq<char>) -> Seq<char> {
    if w.len() == 0 {
        Seq::empty()
    } else {
        uppercase(w[0]) + lowercase(w.skip(1))
    }
}

/// The capitalised words, one directly after the other.
pub open spec fn capitalized_all(ws: Seq<Seq<char>>) -> Seq<char>
    decreases ws.len(),
{
    if ws.len() == 0 {
        Seq::empty()
    } else {
        capitalized_all(ws.drop_last()) + capitalized(ws.last())
    }
}

/// The type name that stands for the identifier `s`.
pub open spec fn pascal_case(s: Seq<char>) -> Seq<char> {
    capitalized_all(words(s))
}

/// `word_end` is the place of the first separator.
pub proof fn lemma_word_end(s: Seq<char>, n: int)
    requires
        0 <= n <= s.len(),
        forall|j: int| 0 <= j < n ==> !is_separator(s[j]),
        n < s.len() ==> is_separator(s[n]),
    ensures
        word_end(s) == n,
    decreases n,
{
    if n > 0 {
        lemma_word_end(s.drop_first(), n - 1);
    }
}

fn separates(c: char) -> (b: bool)
    ensures
        b == is_separator(c),
{
    c == '-' || c == '_' || c == ' '
}

/// The words of an identifier: what stands between hyphens, underscores and
/// spaces, without the empty pieces.
pub fn split_words(s: &str) -> (r: Vec<String>)
    ensures
        strings_view(r@) == words(s@),
{
    let chars = chars_of(s);
    let mut r: Vec<String> = Vec::new();
    let mut i: usize = 0;
    assert(s@.skip(0) =~= s@);
    assert(strings_view(r@) + words(s@) =~= words(s@));
    while i < chars.len()
        invariant
            i <= chars.len(),
            chars@ == s@,
            words(s@) == strings_view(r@) + words(s@.skip(i as int)),
        decreases chars.len() - i,
    {
        if separates(chars[i]) {
            assert(s@.skip(i as int).drop_first() =~= s@.skip(i + 1));
            i += 1;
        } else {
            let mut end: usize = i + 1;
            while end < chars.len() && !separates(chars[end])
                invariant
                    i < end <= chars.len(),
                    forall|j: int| i <= j < end ==> !is_separator(chars@[j]),
                decreases chars.len() - end,
            {
                end += 1;
            }
            let word = string_from(&chars, i, end);
            proof {
                let from_here = s@.skip(i as int);
                lemma_word_end(from_here, end - i);
                assert(from_here.take(end - i) =~= word@);
                assert(from_here.skip(end - i) =~= s@.skip(end as int));
                lemma_strings_view_push(r@, word);
                assert(strings_view(r@) + (seq![word@] + words(s@.skip(end as int)))
                    =~= strings_view(r@).push(word@) + words(s@.skip(end as int)));
            }
            r.push(word);
            i = end;
        }
    }
    assert(strings_view(r@) + Seq::<Seq<char>>::empty() =~= strings_view(r@));
    r
}

/// The word with its first character in upper case and the rest in lower
/// case.
pub fn capitalize(word: &str) -> (r: String)
    ensures
        r@ == capitalized(word@),
{
    let chars = chars_of(word);
    if chars.len() == 0 {
        String::new()
    } else {
        let mut r = upper_of(chars[0]);
        let rest = string_from(&chars, 1, chars.len());
        let tail = rest.as_str().to_lowercase();
        r.append(tail.as_str());
        assert(word@.skip(1) =~= chars@.subrange(1, chars.len() as int));
        r
    }
}

/// Brings an identifier into the form of a type name: its words, each
/// capitalised, with nothing between them.
pub fn normalize(s: &str) -> (r: String)
    ensures
        r@ == pascal_case(s@),
{
    let parts = split_words(s);
    let ghost all = strings_view(parts@);
    let mut r = String::new();
    let mut i: usize = 0;
    while i < parts.len()
        invariant
            i <= parts.len(),
            all == strings_view(parts@),
            r@ == capitalized_all(all.take(i as int)),
        decreases parts.len() - i,
    {
        let part = capitalize(parts[i].as_str());
        r.append(part.as_str());
        proof {
            let next = all.take(i + 1);
            assert(next.drop_last() =~= all.take(i as int));
            assert(next.last() == parts[i as int]@);
        }
        i += 1;
    }
    assert(all.take(parts.len() as int) =~= all);
    r
}

/// A name that is a single capitalised word: it holds no separator, and
/// capitalising it changes nothing.
pub open spec fn canonical(s: Seq<char>) -> bool {
    &&& forall|i: int| 0 <= i < s.len() ==> !is_separator(#[trigger] s[i])
    &&& s.len() > 0 ==> capitalized(s) == s
}

/// A name that is already a single capitalised word, or empty, is its own
/// type name.
pub proof fn lemma_canonical_unchanged(s: Seq<char>)
    requires
        canonical(s),
    ensures
        pascal_case(s) == s,
{
    if s.len() > 0 {
        lemma_word_end(s, s.len() as int);
        assert(s.take(s.len() as int) =~= s);
        assert(words(s.skip(s.len() as int)) =~= Seq::<Seq<char>>::empty());
        assert(words(s) =~= seq![s]);
        assert(seq![s].drop_last() =~= Seq::<Seq<char>>::empty());
        assert(capitalized_all(Seq::<Seq<char>>::empty()) =~= Seq::<char>::empty());
        assert(capitalized_all(seq![s]) =~= capitalized(s));
    }
}

/// Whether `s` is a single capitalised word or empty. Where it is, it is its
/// own type name.
pub fn is_canonical(s: &str) -> (b: bool)
    ensures
        b == canonical(s@),
        b ==> pascal_case(s@) == s@,
{
    let chars = chars_of(s);
    let mut i: usize = 0;
    while i < chars.len()
        invariant
            i <= chars.len(),
            chars@ == s@,
            forall|j: int| 0 <= j < i ==> !is_separator(#[trigger] chars@[j]),
        decreases chars.len() - i,
    {
        if separates(chars[i]) {
            return false;
        }
        i += 1;
    }
    let same = capitalize(s) == String::from_str(s);
    let b = chars.len() == 0 || same;
    proof {
        if b {
            lemma_canonical_unchanged(s@);
        }
    }
    b
}

/// Normalising twice gives what normalising once gives, wherever the first
/// result is a single capitalised word or empty.
pub proof fn lemma_normalize_idempotent(s: Seq<char>)
    requires
        canonical(pascal_case(s)),
    ensures
        pascal_case(pascal_case(s)) == pascal_case(s),
{
    lemma_canonical_unchanged(pascal_case(s));
}

/// The words of two texts with a separator between them are the words of
/// the first followed by the words of the second.
pub proof fn lemma_words_split(a: Seq<char>, c: char, b: Seq<char>)
    requires
        is_separator(c),
    ensures
        words(a + seq![c] + b) == words(a) + words(b),
    decreases a.len(),
{
    let whole = a + seq![c] + b;
    if a.len() == 0 {
        assert(whole.drop_first() =~= b);
        assert(words(a) + words(b) =~= words(b));
    } else if is_separator(a[0]) {
        assert(whole.drop_first() =~= a.drop_first() + seq![c] + b);
        lemma_words_split(a.drop_first(), c, b);
    } else {
        let n = word_end(a) as int;
        lemma_word_end_within(a);
        lemma_word_end_is_first(a);
        lemma_word_end(whole, n);
        assert(whole.take(n) =~= a.take(n));
        assert(whole.skip(n) =~= a.skip(n) + seq![c] + b);
        lemma_words_split(a.skip(n), c, b);
        assert(seq![a.take(n)] + (words(a.skip(n)) + words(b)) =~= (seq![a.take(n)] + words(
            a.skip(n),
        )) + words(b));
    }
}

/// No separator stands before the end of the first word, and one stands
/// right behind it unless the text ends there.
pub proof fn lemma_word_end_is_first(s: Seq<char>)
    ensures
        forall|j: int| 0 <= j < word_end(s) ==> !is_separator(#[trigger] s[j]),
        word_end(s) < s.len() ==> is_separator(s[word_end(s) as int]),
    decreases s.len(),
{
    if s.len() > 0 && !is_separator(s[0]) {
        let rest = s.drop_first();
        lemma_word_end_is_first(rest);
        lemma_word_end_within(s);
        assert forall|j: int| 0 <= j < word_end(s) implies !is_separator(#[trigger] s[j]) by {
            if j > 0 {
                assert(s[j] == rest[j - 1]);
            }
        }
    }
}

/// Capitalising two runs of words one after the other is capitalising the
/// run made of both.
pub proof fn lemma_capitalized_all_concat(x: Seq<Seq<char>>, y: Seq<Seq<char>>)
    ensures
        capitalized_all(x + y) == capitalized_all(x) + capitalized_all(y),
    decreases y.len(),
{
    if y.len() == 0 {
        assert(x + y =~= x);
        assert(capitalized_all(x) + capitalized_all(y) =~= capitalized_all(x));
    } else {
        assert((x + y).drop_last() =~= x + y.drop_last());
        lemma_capitalized_all_concat(x, y.drop_last());
        assert((capitalized_all(x) + capitalized_all(y.drop_last())) + capitalized(y.last())
            =~= capitalized_all(x) + (capitalized_all(y.drop_last()) + capitalized(y.last())));
    }
}

/// A separator only parts words: the type name of two texts joined by a
/// separator is the type name of the first followed by that of the second.
/// So separators at either end, and separators that follow one another, leave
/// no trace in the name.
pub proof fn lemma_separator_splits(a: Seq<char>, c: char, b: Seq<char>)
    requires
        is_separator(c),
    ensures
        pascal_case(a + seq![c] + b) == pascal_case(a) + pascal_case(b),
{
    lemma_words_split(a, c, b);
    lemma_capitalized_all_concat(words(a), words(b));
}

} // verus!
