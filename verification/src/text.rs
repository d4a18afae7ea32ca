//! Character-level helpers shared by the name normaliser and the emitter.

use vstd::prelude::*;

verus! {

/// The texts held by a sequence of strings.
pub open spec fn strings_view(v: Seq<String>) -> Seq<Seq<char>> {
    Seq::new(v.len(), |i: int| v[i]@)
}

/// Adding a string at the end adds its text at the end.
pub proof fn lemma_strings_view_push(v: Seq<String>, s: String)
    ensures
        strings_view(v.push(s)) == strings_view(v).push(s@),
{
    assert(strings_view(v.push(s)) =~= strings_view(v).push(s@));
}

/// `String::push` puts one character at the end of the string and leaves the
/// rest as it was.
pub assume_specification[ std::string::String::push ](s: &mut std::string::String, ch: char)
    ensures
        final(s)@ == old(s)@.push(ch),
;

/// The characters of `s`, in order.
pub fn chars_of(s: &str) -> (r: Vec<char>)
    ensures
        r@ == s@,
{
    let mut r: Vec<char> = Vec::new();
    for c in it: s.chars()
        invariant
            r@ == s@.take(it.index() as int),
            it.seq() == s@,
    {
        r.push(c);
    }
    r
}

/// The string made of `chars[from..to]`.
pub(crate) fn string_from(chars: &Vec<char>, from: usize, to: usize) -> (r: String)
    requires
        from <= to <= chars.len(),
    ensures
        r@ == chars@.subrange(from as int, to as int),
{
    let mut r = String::new();
    let mut i: usize = from;
    while i < to
        invariant
            from <= i <= to <= chars.len(),
            r@ == chars@.subrange(from as int, i as int),
        decreases to - i,
    {
        r.push(chars[i]);
        i += 1;
        assert(r@ =~= chars@.subrange(from as int, i as int));
    }
    r
}

/// The parts in order, with `sep` between each two neighbours.
pub open spec fn joined(parts: Seq<Seq<char>>, sep: Seq<char>) -> Seq<char>
    decreases parts.len(),
{
    if parts.len() == 0 {
        Seq::empty()
    } else if parts.len() == 1 {
        parts[0]
    } else {
        joined(parts.drop_last(), sep) + sep + parts.last()
    }
}

/// Joins `parts` with `sep` between them.
pub fn join(parts: &Vec<String>, sep: &str) -> (r: String)
    ensures
        r@ == joined(strings_view(parts@), sep@),
{
    let ghost all = strings_view(parts@);
    let mut r = String::new();
    let mut i: usize = 0;
    while i < parts.len()
        invariant
            i <= parts.len(),
            all == strings_view(parts@),
            r@ == joined(all.take(i as int), sep@),
        decreases parts.len() - i,
    {
        if i > 0 {
            r.append(sep);
        }
        r.append(parts[i].as_str());
        proof {
            let next = all.take(i + 1);
            assert(next.drop_last() =~= all.take(i as int));
            assert(next.last() == parts[i as int]@);
            if i == 0 {
                assert(r@ =~= next[0]);
            }
        }
        i += 1;
    }
    assert(all.take(parts.len() as int) =~= all);
    r
}

/// Whether `c` has the Unicode property White_Space.
pub uninterp spec fn white_space(c: char) -> bool;

/// `char::is_whitespace` tells whether a character has the Unicode property
/// White_Space; the answer depends on the character alone.
pub assume_specification[ char::is_whitespace ](c: char) -> (b: bool)
    ensures
        b == white_space(c),
;

/// `s` without the white space at its start.
pub open spec fn trim_start(s: Seq<char>) -> Seq<char>
    decreases s.len(),
{
    if s.len() > 0 && white_space(s[0]) {
        trim_start(s.drop_first())
    } else {
        s
    }
}

/// `s` without the white space at its end.
pub open spec fn trim_end(s: Seq<char>) -> Seq<char>
    decreases s.len(),
{
    if s.len() > 0 && white_space(s.last()) {
        trim_end(s.drop_last())
    } else {
        s
    }
}

/// `s` without the white space at its start and at its end.
pub open spec fn trimmed(s: Seq<char>) -> Seq<char> {
    trim_end(trim_start(s))
}

/// Trimming at the start drops the first `n` characters, where these are
/// white space and the next one is not.
pub proof fn lemma_trim_start(s: Seq<char>, n: int)
    requires
        0 <= n <= s.len(),
        forall|j: int| 0 <= j < n ==> white_space(s[j]),
        n < s.len() ==> !white_space(s[n]),
    ensures
        trim_start(s) == s.skip(n),
    decreases n,
{
    if n > 0 {
        lemma_trim_start(s.drop_first(), n - 1);
        assert(s.drop_first().skip(n - 1) =~= s.skip(n));
    } else {
        assert(s.skip(0) =~= s);
    }
}

/// Trimming at the end keeps the first `n` characters, where all behind
/// them are white space and the last of them is not.
pub proof fn lemma_trim_end(s: Seq<char>, n: int)
    requires
        0 <= n <= s.len(),
        forall|j: int| n <= j < s.len() ==> white_space(s[j]),
        n > 0 ==> !white_space(s[n - 1]),
    ensures
        trim_end(s) == s.take(n),
    decreases s.len() - n,
{
    if n < s.len() {
        lemma_trim_end(s.drop_last(), n);
        assert(s.drop_last().take(n) =~= s.take(n));
    } else {
        assert(s.take(n) =~= s);
    }
}

/// The part of `s` between the white space at its start and at its end.
pub fn trim(s: &str) -> (r: &str)
    ensures
        r@ == trimmed(s@),
{
    let chars = chars_of(s);
    let mut from: usize = 0;
    while from < chars.len() && chars[from].is_whitespace()
        invariant
            from <= chars.len(),
            forall|j: int| 0 <= j < from ==> white_space(chars@[j]),
        decreases chars.len() - from,
    {
        from += 1;
    }
    let mut to: usize = chars.len();
    while to > from && chars[to - 1].is_whitespace()
        invariant
            from <= to <= chars.len(),
            forall|j: int| to <= j < chars.len() ==> white_space(chars@[j]),
        decreases to,
    {
        to -= 1;
    }
    proof {
        lemma_trim_start(s@, from as int);
        lemma_trim_end(s@.skip(from as int), to - from);
        assert(s@.skip(from as int).take(to - from) =~= s@.subrange(from as int, to as int));
    }
    s.substring_char(from, to)
}

/// Number of characters of `s` before its first line feed, or all of them
/// when it has none.
pub open spec fn line_break(s: Seq<char>) -> nat
    decreases s.len(),
{
    if s.len() == 0 || s[0] == '\n' {
        0
    } else {
        line_break(s.drop_first()) + 1
    }
}

/// `l` without one carriage return at its end, if it has one.
pub open spec fn without_cr(l: Seq<char>) -> Seq<char> {
    if l.len() > 0 && l.last() == '\r' {
        l.drop_last()
    } else {
        l
    }
}

/// The lines of `s`. A line ends at a line feed, and a carriage return just
/// before that line feed belongs to the line ending. The last line needs no
/// line ending, and nothing follows a final line ending.
pub open spec fn lines(s: Seq<char>) -> Seq<Seq<char>>
    decreases s.len(),
{
    if s.len() == 0 {
        Seq::empty()
    } else {
        let n = line_break(s) as int;
        if n >= s.len() {
            seq![s]
        } else {
            seq![without_cr(s.take(n))] + lines(s.skip(n + 1))
        }
    }
}

/// `line_break` is the place of the first line feed.
pub proof fn lemma_line_break(s: Seq<char>, n: int)
    requires
        0 <= n <= s.len(),
        forall|j: int| 0 <= j < n ==> s[j] != '\n',
        n < s.len() ==> s[n] == '\n',
    ensures
        line_break(s) == n,
    decreases n,
{
    if n > 0 {
        lemma_line_break(s.drop_first(), n - 1);
    }
}

/// The lines of `s`, each as a string of its own.
pub fn split_lines(s: &str) -> (r: Vec<String>)
    ensures
        strings_view(r@) == lines(s@),
{
    let chars = chars_of(s);
    let mut r: Vec<String> = Vec::new();
    let mut start: usize = 0;
    let mut i: usize = 0;
    assert(s@.skip(0) =~= s@);
    assert(strings_view(r@) + lines(s@) =~= lines(s@));
    while i < chars.len()
        invariant
            start <= i <= chars.len(),
            chars@ == s@,
            forall|j: int| start <= j < i ==> chars@[j] != '\n',
            lines(s@) == strings_view(r@) + lines(s@.skip(start as int)),
        decreases chars.len() - i,
    {
        if chars[i] == '\n' {
            let end = if i > start && chars[i - 1] == '\r' {
                i - 1
            } else {
                i
            };
            let line = string_from(&chars, start, end);
            proof {
                let rest = s@.skip(start as int);
                lemma_line_break(rest, i - start);
                assert(rest.take(i - start) =~= chars@.subrange(start as int, i as int));
                assert(line@ =~= without_cr(rest.take(i - start)));
                assert(rest.skip(i - start + 1) =~= s@.skip(i + 1));
                assert(strings_view(r@.push(line)) =~= strings_view(r@) + seq![line@]);
            }
            r.push(line);
            start = i + 1;
        }
        i += 1;
    }
    if start < chars.len() {
        let line = string_from(&chars, start, chars.len());
        proof {
            let rest = s@.skip(start as int);
            lemma_line_break(rest, rest.len() as int);
            assert(line@ =~= rest);
            assert(strings_view(r@.push(line)) =~= strings_view(r@) + seq![line@]);
        }
        r.push(line);
    } else {
        assert(strings_view(r@) + Seq::<Seq<char>>::empty() =~= strings_view(r@));
    }
    r
}

/// Each line behind `pad` and before a line feed, one after the other.
pub open spec fn padded(ls: Seq<Seq<char>>, pad: Seq<char>) -> Seq<char>
    decreases ls.len(),
{
    if ls.len() == 0 {
        Seq::empty()
    } else {
        padded(ls.drop_last(), pad) + pad + ls.last() + seq!['\n']
    }
}

/// `s` with `pad` put before each of its lines, and every line ended by a
/// line feed.
pub open spec fn indented(s: Seq<char>, pad: Seq<char>) -> Seq<char> {
    padded(lines(s), pad)
}

/// Puts `pad` before each line of `s` and ends each line with a line feed.
pub fn indent_lines(s: &str, pad: &str) -> (r: String)
    ensures
        r@ == indented(s@, pad@),
{
    let ls = split_lines(s);
    let ghost all = strings_view(ls@);
    let mut r = String::new();
    let mut i: usize = 0;
    while i < ls.len()
        invariant
            i <= ls.len(),
            all == strings_view(ls@),
            r@ == padded(all.take(i as int), pad@),
        decreases ls.len() - i,
    {
        r.append(pad);
        r.append(ls[i].as_str());
        r.push('\n');
        proof {
            let next = all.take(i + 1);
            assert(next.drop_last() =~= all.take(i as int));
            assert(next.last() == ls[i as int]@);
        }
        i += 1;
    }
    assert(all.take(ls.len() as int) =~= all);
    r
}

/// Whether the character `c` stands nowhere in `s`.
pub open spec fn free_of(s: Seq<char>, c: char) -> bool {
    forall|i: int| 0 <= i < s.len() ==> #[trigger] s[i] != c
}

/// Each line with `pad` before it.
pub open spec fn prefixed(ls: Seq<Seq<char>>, pad: Seq<char>) -> Seq<Seq<char>> {
    Seq::new(ls.len(), |i: int| pad + ls[i])
}

/// A text that begins with a line and its line feed has that line as its
/// first line, and the lines of the rest behind it.
pub proof fn lemma_lines_after_first(l: Seq<char>, rest: Seq<char>)
    requires
        free_of(l, '\n'),
        l.len() > 0 ==> l.last() != '\r',
    ensures
        lines(l + seq!['\n'] + rest) == seq![l] + lines(rest),
{
    let s = l + seq!['\n'] + rest;
    let n = l.len() as int;
    lemma_line_break(s, n);
    assert(s.take(n) =~= l);
    assert(s.skip(n + 1) =~= rest);
}

/// The first line of padded lines stands at the start, and the others follow
/// it.
pub proof fn lemma_padded_first(l: Seq<char>, ls: Seq<Seq<char>>, pad: Seq<char>)
    ensures
        padded(seq![l] + ls, pad) == pad + l + seq!['\n'] + padded(ls, pad),
    decreases ls.len(),
{
    let all = seq![l] + ls;
    if ls.len() == 0 {
        assert(all.drop_last() =~= Seq::<Seq<char>>::empty());
        assert(padded(all.drop_last(), pad) =~= Seq::<char>::empty());
        assert(padded(all, pad) =~= pad + l + seq!['\n'] + padded(ls, pad));
    } else {
        assert(all.drop_last() =~= seq![l] + ls.drop_last());
        lemma_padded_first(l, ls.drop_last(), pad);
        assert(padded(all, pad) =~= pad + l + seq!['\n'] + padded(ls, pad));
    }
}

/// The lines of padded lines are these lines, each with the pad before it,
/// where neither the pad nor a line holds a line feed and no padded line ends
/// in a carriage return.
pub proof fn lemma_lines_of_padded(ls: Seq<Seq<char>>, pad: Seq<char>)
    requires
        free_of(pad, '\n'),
        forall|i: int| 0 <= i < ls.len() ==> free_of(#[trigger] ls[i], '\n'),
        forall|i: int|
            0 <= i < ls.len() ==> (pad + #[trigger] ls[i]).len() > 0 ==> (pad + ls[i]).last()
                != '\r',
    ensures
        lines(padded(ls, pad)) == prefixed(ls, pad),
    decreases ls.len(),
{
    if ls.len() == 0 {
        assert(lines(padded(ls, pad)) =~= prefixed(ls, pad));
    } else {
        let l = ls[0];
        let rest = ls.drop_first();
        assert(ls =~= seq![l] + rest);
        lemma_padded_first(l, rest, pad);
        assert forall|i: int| 0 <= i < rest.len() implies free_of(#[trigger] rest[i], '\n') by {
            assert(rest[i] == ls[i + 1]);
        }
        assert forall|i: int| 0 <= i < rest.len() implies (pad + #[trigger] rest[i]).len() > 0
            ==> (pad + rest[i]).last() != '\r' by {
            assert(rest[i] == ls[i + 1]);
        }
        lemma_lines_of_padded(rest, pad);
        assert(free_of(pad + l, '\n')) by {
            assert(free_of(ls[0], '\n'));
        }
        assert(pad + l + seq!['\n'] + padded(rest, pad) =~= (pad + l) + seq!['\n'] + padded(
            rest,
            pad,
        ));
        lemma_lines_after_first(pad + l, padded(rest, pad));
        assert(seq![pad + l] + prefixed(rest, pad) =~= prefixed(ls, pad));
    }
}

/// No line holds a line feed, and where the text holds no carriage return,
/// no line does.
pub proof fn lemma_lines_are_clean(s: Seq<char>)
    ensures
        forall|i: int| 0 <= i < lines(s).len() ==> free_of(#[trigger] lines(s)[i], '\n'),
        free_of(s, '\r') ==> forall|i: int|
            0 <= i < lines(s).len() ==> free_of(#[trigger] lines(s)[i], '\r'),
    decreases s.len(),
{
    if s.len() > 0 {
        let n = line_break(s) as int;
        lemma_line_break_is_first(s);
        if n < s.len() {
            let rest = s.skip(n + 1);
            lemma_lines_are_clean(rest);
            let first = without_cr(s.take(n));
            assert(free_of(first, '\n'));
            if free_of(s, '\r') {
                assert(free_of(rest, '\r')) by {
                    assert forall|i: int| 0 <= i < rest.len() implies #[trigger] rest[i]
                        != '\r' by {
                        assert(rest[i] == s[n + 1 + i]);
                    }
                }
                assert(free_of(first, '\r'));
            }
            assert forall|i: int| 0 <= i < lines(s).len() implies free_of(
                #[trigger] lines(s)[i],
                '\n',
            ) by {
                if i > 0 {
                    assert(lines(s)[i] == lines(rest)[i - 1]);
                }
            }
            if free_of(s, '\r') {
                assert forall|i: int| 0 <= i < lines(s).len() implies free_of(
                    #[trigger] lines(s)[i],
                    '\r',
                ) by {
                    if i > 0 {
                        assert(lines(s)[i] == lines(rest)[i - 1]);
                    }
                }
            }
        } else {
            assert(free_of(s, '\n'));
        }
    }
}

/// No line feed stands before the first line break, and one stands at it
/// unless the text ends there.
pub proof fn lemma_line_break_is_first(s: Seq<char>)
    ensures
        line_break(s) <= s.len(),
        forall|j: int| 0 <= j < line_break(s) ==> #[trigger] s[j] != '\n',
        line_break(s) < s.len() ==> s[line_break(s) as int] == '\n',
    decreases s.len(),
{
    if s.len() > 0 && s[0] != '\n' {
        let rest = s.drop_first();
        lemma_line_break_is_first(rest);
        assert forall|j: int| 0 <= j < line_break(s) implies #[trigger] s[j] != '\n' by {
            if j > 0 {
                assert(s[j] == rest[j - 1]);
            }
        }
    }
}

/// Padding lines that have a pad before them is padding the lines with both
/// pads.
pub proof fn lemma_padded_prefixed(ls: Seq<Seq<char>>, inner: Seq<char>, outer: Seq<char>)
    ensures
        padded(prefixed(ls, inner), outer) == padded(ls, outer + inner),
    decreases ls.len(),
{
    if ls.len() > 0 {
        assert(prefixed(ls, inner).drop_last() =~= prefixed(ls.drop_last(), inner));
        lemma_padded_prefixed(ls.drop_last(), inner, outer);
        assert(padded(prefixed(ls, inner), outer) =~= padded(ls, outer + inner));
    }
}

/// Indenting twice is indenting once by both pads, the later one first:
/// what is nested one level deeper stands one pad further in. This holds
/// where the text holds no carriage return and the inner pad neither that nor
/// a line feed.
pub proof fn lemma_indented_twice(s: Seq<char>, inner: Seq<char>, outer: Seq<char>)
    requires
        free_of(s, '\r'),
        free_of(inner, '\r'),
        free_of(inner, '\n'),
    ensures
        indented(indented(s, inner), outer) == indented(s, outer + inner),
{
    let ls = lines(s);
    lemma_lines_are_clean(s);
    assert forall|i: int| 0 <= i < ls.len() implies (inner + #[trigger] ls[i]).len() > 0 ==> (
    inner + ls[i]).last() != '\r' by {
        let l = inner + ls[i];
        if l.len() > 0 {
            assert(free_of(ls[i], '\r'));
            if ls[i].len() > 0 {
                assert(l.last() == ls[i][ls[i].len() - 1]);
            } else {
                assert(l.last() == inner[inner.len() - 1]);
            }
        }
    }
    lemma_lines_of_padded(ls, inner);
    lemma_padded_prefixed(ls, inner, outer);
}

/// The character that stands for the digit `d`.
pub open spec fn digit(d: int) -> char {
    if d == 0 {
        '0'
    } else if d == 1 {
        '1'
    } else if d == 2 {
        '2'
    } else if d == 3 {
        '3'
    } else if d == 4 {
        '4'
    } else if d == 5 {
        '5'
    } else if d == 6 {
        '6'
    } else if d == 7 {
        '7'
    } else if d == 8 {
        '8'
    } else {
        '9'
    }
}

/// The digits of `n` in base ten, most significant first, without leading
/// zeros.
pub open spec fn digits(n: nat) -> Seq<char>
    decreases n,
{
    if n < 10 {
        seq![digit(n as int)]
    } else {
        digits(n / 10).push(digit((n % 10) as int))
    }
}

/// `n` in base ten, with a minus sign before a negative number.
pub open spec fn decimal(n: int) -> Seq<char> {
    if n < 0 {
        seq!['-'] + digits((-n) as nat)
    } else {
        digits(n as nat)
    }
}

fn digit_char(d: u64) -> (c: char)
    requires
        d < 10,
    ensures
        c == digit(d as int),
{
    if d == 0 {
        '0'
    } else if d == 1 {
        '1'
    } else if d == 2 {
        '2'
    } else if d == 3 {
        '3'
    } else if d == 4 {
        '4'
    } else if d == 5 {
        '5'
    } else if d == 6 {
        '6'
    } else if d == 7 {
        '7'
    } else if d == 8 {
        '8'
    } else {
        '9'
    }
}

/// Writes `n` in base ten.
pub fn decimal_text(n: i32) -> (r: String)
    ensures
        r@ == decimal(n as int),
{
    let wide: i64 = n as i64;
    let size: u64 = if wide < 0 {
        (-wide) as u64
    } else {
        wide as u64
    };
    // The digits from the least significant one upwards.
    let mut low_first: Vec<char> = Vec::new();
    low_first.push(digit_char(size % 10));
    let mut rest: u64 = size / 10;
    let ghost mut tail: Seq<char> = seq![digit((size % 10) as int)];
    while rest > 0
        invariant
            tail.len() == low_first.len(),
            forall|j: int| 0 <= j < tail.len() ==> tail[j] == low_first@[tail.len() - 1 - j],
            digits(size as nat) == if rest > 0 {
                digits(rest as nat) + tail
            } else {
                tail
            },
        decreases rest,
    {
        low_first.push(digit_char(rest % 10));
        proof {
            let d = digit((rest % 10) as int);
            if rest >= 10 {
                assert(digits(rest as nat) + tail =~= digits((rest / 10) as nat) + (seq![d]
                    + tail));
            } else {
                assert(digits(rest as nat) + tail =~= seq![d] + tail);
            }
            tail = seq![d] + tail;
        }
        rest = rest / 10;
    }
    let mut r = String::new();
    if wide < 0 {
        r.push('-');
    }
    let ghost sign = r@;
    let mut i: usize = low_first.len();
    while i > 0
        invariant
            i <= low_first.len(),
            tail.len() == low_first.len(),
            forall|j: int| 0 <= j < tail.len() ==> tail[j] == low_first@[tail.len() - 1 - j],
            r@ == sign + tail.take(low_first.len() - i),
        decreases i,
    {
        i -= 1;
        r.push(low_first[i]);
        assert(r@ =~= sign + tail.take(low_first.len() - i));
    }
    assert(tail.take(low_first.len() as int) =~= tail);
    assert(Seq::<char>::empty() + tail =~= tail);
    r
}

} // verus!
