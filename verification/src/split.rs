//! Splitting text: trimming, words between white space, and lines.
use vstd::prelude::*;

use crate::text;
use crate::text::{chars_of, is_whitespace, string_of};

verus! {

/// `s` without its leading white space.
pub open spec fn trimmed_start(s: Seq<char>) -> Seq<char>
    decreases s.len(),
{
    if s.len() > 0 && text::char_is_whitespace(s[0]) {
        trimmed_start(s.drop_first())
    } else {
        s
    }
}

/// `s` without its trailing white space.
pub open spec fn trimmed_end(s: Seq<char>) -> Seq<char>
    decreases s.len(),
{
    if s.len() > 0 && text::char_is_whitespace(s.last()) {
        trimmed_end(s.drop_last())
    } else {
        s
    }
}

/// `s` without leading and trailing white space.
pub open spec fn trimmed(s: Seq<char>) -> Seq<char> {
    trimmed_end(trimmed_start(s))
}

/// How many characters stand before the first white space of `s`.
pub open spec fn word_len(s: Seq<char>) -> nat
    decreases s.len(),
{
    if s.len() == 0 || text::char_is_whitespace(s[0]) {
        0
    } else {
        1 + word_len(s.drop_first())
    }
}

proof fn lemma_word_len_bound(s: Seq<char>)
    ensures
        word_len(s) <= s.len(),
        s.len() > 0 && !text::char_is_whitespace(s[0]) ==> word_len(s) > 0,
    decreases s.len(),
{
    if s.len() > 0 && !text::char_is_whitespace(s[0]) {
        lemma_word_len_bound(s.drop_first());
    }
}

proof fn lemma_trimmed_start_shape(s: Seq<char>)
    ensures
        trimmed_start(s).len() <= s.len(),
        trimmed_start(s).len() > 0 ==> !text::char_is_whitespace(trimmed_start(s)[0]),
    decreases s.len(),
{
    if s.len() > 0 && text::char_is_whitespace(s[0]) {
        lemma_trimmed_start_shape(s.drop_first());
    }
}

/// The maximal runs of characters without white space, in order.
pub open spec fn words(s: Seq<char>) -> Seq<Seq<char>>
    decreases s.len(),
    via words_decreases
{
    let t = trimmed_start(s);
    if t.len() == 0 {
        Seq::empty()
    } else {
        seq![t.take(word_len(t) as int)] + words(t.skip(word_len(t) as int))
    }
}

#[via_fn]
proof fn words_decreases(s: Seq<char>) {
    lemma_trimmed_start_shape(s);
    lemma_word_len_bound(trimmed_start(s));
}

/// `s` without a carriage return at its end.
pub open spec fn without_cr(s: Seq<char>) -> Seq<char> {
    if s.len() > 0 && s.last() == '\r' {
        s.drop_last()
    } else {
        s
    }
}

/// How many characters stand before the first `c` of `s`.
pub open spec fn until(s: Seq<char>, c: char) -> nat
    decreases s.len(),
{
    if s.len() == 0 || s[0] == c {
        0
    } else {
        1 + until(s.drop_first(), c)
    }
}

/// `until` is a bound, and marks the first `c`.
pub(crate) proof fn lemma_until(s: Seq<char>, c: char)
    ensures
        until(s, c) <= s.len(),
        forall|i: int| 0 <= i < until(s, c) ==> s[i] != c,
        until(s, c) < s.len() ==> s[until(s, c) as int] == c,
    decreases s.len(),
{
    if s.len() > 0 && s[0] != c {
        lemma_until(s.drop_first(), c);
        assert forall|i: int| 0 <= i < until(s, c) implies s[i] != c by {
            if i > 0 {
                assert(s.drop_first()[i - 1] == s[i]);
            }
        }
    }
}

/// A position with no `c` before it and `c` at it, or the end, is `until`.
pub(crate) proof fn lemma_until_unique(s: Seq<char>, c: char, n: int)
    requires
        0 <= n <= s.len(),
        forall|i: int| 0 <= i < n ==> s[i] != c,
        n < s.len() ==> s[n] == c,
    ensures
        until(s, c) == n,
{
    lemma_until(s, c);
    if until(s, c) < n {
        assert(s[until(s, c) as int] != c);
    }
}

/// The lines of a text: each ends at a line feed, with or without a carriage
/// return before it, and the last may end with the text.
pub open spec fn line_list(s: Seq<char>) -> Seq<Seq<char>>
    decreases s.len(),
{
    let n = until(s, '\n') as int;
    if s.len() == 0 {
        Seq::empty()
    } else if n >= s.len() {
        seq![s]
    } else {
        seq![without_cr(s.take(n))] + line_list(s.skip(n + 1))
    }
}

proof fn lemma_trimmed_start_skip(s: Seq<char>, i: int)
    requires
        0 <= i <= s.len(),
        forall|j: int| 0 <= j < i ==> text::char_is_whitespace(s[j]),
        i < s.len() ==> !text::char_is_whitespace(s[i]),
    ensures
        trimmed_start(s) == s.skip(i),
    decreases i,
{
    if i > 0 {
        let t = s.drop_first();
        assert forall|j: int| 0 <= j < i - 1 implies text::char_is_whitespace(t[j]) by {
            assert(t[j] == s[j + 1]);
        }
        if i < s.len() {
            assert(t[i - 1] == s[i]);
        }
        lemma_trimmed_start_skip(t, i - 1);
        assert(t.skip(i - 1) =~= s.skip(i));
    } else {
        assert(s.skip(0) =~= s);
    }
}

proof fn lemma_trimmed_end_take(s: Seq<char>, i: int)
    requires
        0 <= i <= s.len(),
        forall|j: int| i <= j < s.len() ==> text::char_is_whitespace(s[j]),
        i > 0 ==> !text::char_is_whitespace(s[i - 1]),
    ensures
        trimmed_end(s) == s.take(i),
    decreases s.len() - i,
{
    if i < s.len() {
        let t = s.drop_last();
        lemma_trimmed_end_take(t, i);
        assert(t.take(i) =~= s.take(i));
    } else {
        assert(s.take(i) =~= s);
    }
}

proof fn lemma_word_len_is(s: Seq<char>, i: int)
    requires
        0 <= i <= s.len(),
        forall|j: int| 0 <= j < i ==> !text::char_is_whitespace(s[j]),
        i < s.len() ==> text::char_is_whitespace(s[i]),
    ensures
        word_len(s) == i,
    decreases i,
{
    if i > 0 {
        let t = s.drop_first();
        assert forall|j: int| 0 <= j < i - 1 implies !text::char_is_whitespace(t[j]) by {
            assert(t[j] == s[j + 1]);
        }
        if i < s.len() {
            assert(t[i - 1] == s[i]);
        }
        lemma_word_len_is(t, i - 1);
    }
}

/// Removes leading and trailing white space.
pub fn trim(s: &str) -> (r: String)
    ensures
        r@ == trimmed(s@),
{
    let v = chars_of(s);
    let n: usize = v.len();
    let mut i: usize = 0;
    while i < n && is_whitespace(v[i])
        invariant
            n == v.len(),
            i <= n,
            forall|j: int| 0 <= j < i ==> text::char_is_whitespace(v@[j]),
        ensures
            i <= n,
            forall|j: int| 0 <= j < i ==> text::char_is_whitespace(v@[j]),
            i < n ==> !text::char_is_whitespace(v@[i as int]),
        decreases n - i,
    {
        i = i + 1;
    }
    let mut k: usize = n;
    while k > i && is_whitespace(v[k - 1])
        invariant
            n == v.len(),
            i <= k <= n,
            forall|j: int| k <= j < n ==> text::char_is_whitespace(v@[j]),
        ensures
            i <= k <= n,
            forall|j: int| k <= j < n ==> text::char_is_whitespace(v@[j]),
            k > i ==> !text::char_is_whitespace(v@[k - 1]),
        decreases k,
    {
        k = k - 1;
    }
    proof {
        lemma_trimmed_start_skip(s@, i as int);
        let t = s@.skip(i as int);
        assert forall|j: int| k - i <= j < t.len() implies text::char_is_whitespace(t[j]) by {
            assert(t[j] == s@[i + j]);
        }
        lemma_trimmed_end_take(t, k - i);
        assert(t.take(k - i) =~= s@.subrange(i as int, k as int));
    }
    string_of(&v, i, k)
}

/// The words between white space, in order.
pub fn split_whitespace(s: &str) -> (r: Vec<String>)
    ensures
        text::texts(r@) == words(s@),
{
    let v = chars_of(s);
    let n: usize = v.len();
    let mut out: Vec<String> = Vec::new();
    let mut i: usize = 0;
    assert(s@.skip(0) =~= s@);
    assert(text::texts(out@) + words(s@) =~= words(s@));
    while i < n
        invariant
            n == v.len(),
            v@ == s@,
            i <= n,
            text::texts(out@) + words(s@.skip(i as int)) == words(s@),
        decreases n - i,
    {
        let ghost rest = s@.skip(i as int);
        let start: usize = i;
        while i < n && is_whitespace(v[i])
            invariant
                n == v.len(),
                start <= i <= n,
                forall|j: int| start <= j < i ==> text::char_is_whitespace(v@[j]),
            ensures
                start <= i <= n,
                forall|j: int| start <= j < i ==> text::char_is_whitespace(v@[j]),
                i < n ==> !text::char_is_whitespace(v@[i as int]),
            decreases n - i,
        {
            i = i + 1;
        }
        let begin: usize = i;
        while i < n && !is_whitespace(v[i])
            invariant
                n == v.len(),
                begin <= i <= n,
                forall|j: int| begin <= j < i ==> !text::char_is_whitespace(v@[j]),
            ensures
                begin <= i <= n,
                forall|j: int| begin <= j < i ==> !text::char_is_whitespace(v@[j]),
                i < n ==> text::char_is_whitespace(v@[i as int]),
            decreases n - i,
        {
            i = i + 1;
        }
        proof {
            let skipped = begin - start;
            assert forall|j: int| 0 <= j < skipped implies text::char_is_whitespace(rest[j]) by {
                assert(rest[j] == s@[start + j]);
            }
            lemma_trimmed_start_skip(rest, skipped);
            let t = rest.skip(skipped);
            assert(t =~= s@.skip(begin as int));
            assert forall|j: int| 0 <= j < i - begin implies !text::char_is_whitespace(t[j]) by {
                assert(t[j] == s@[begin + j]);
            }
            lemma_word_len_is(t, i - begin);
            assert(t.skip(i - begin) =~= s@.skip(i as int));
            assert(t.take(i - begin) =~= s@.subrange(begin as int, i as int));
        }
        if begin < n {
            let ghost before = text::texts(out@);
            let w = string_of(&v, begin, i);
            out.push(w);
            proof {
                assert(text::texts(out@) =~= before.push(w@));
                assert(before + (seq![w@] + words(s@.skip(i as int))) =~= text::texts(out@) + words(s@.skip(i as int)));
            }
        } else {
            proof {
                assert(s@.skip(i as int) =~= Seq::<char>::empty());
                assert(trimmed_start(Seq::<char>::empty()) =~= Seq::<char>::empty());
                assert(words(rest) =~= Seq::<Seq<char>>::empty());
            }
        }
    }
    proof {
        assert(s@.skip(i as int) =~= Seq::<char>::empty());
        assert(words(Seq::<char>::empty()) =~= Seq::<Seq<char>>::empty());
        assert(text::texts(out@) + Seq::<Seq<char>>::empty() =~= text::texts(out@));
    }
    out
}

/// The position of the first `c` at or behind `from`, or the end.
pub fn find_from(v: &Vec<char>, from: usize, c: char) -> (r: usize)
    requires
        from <= v.len(),
    ensures
        from <= r <= v.len(),
        r - from == until(v@.skip(from as int), c),
        r < v.len() ==> v@[r as int] == c,
{
    let n: usize = v.len();
    let mut i: usize = from;
    while i < n && v[i] != c
        invariant
            n == v.len(),
            from <= i <= n,
            forall|j: int| from <= j < i ==> v@[j] != c,
        ensures
            from <= i <= n,
            forall|j: int| from <= j < i ==> v@[j] != c,
            i < n ==> v@[i as int] == c,
        decreases n - i,
    {
        i = i + 1;
    }
    proof {
        let s = v@.skip(from as int);
        assert forall|j: int| 0 <= j < i - from implies s[j] != c by {
            assert(s[j] == v@[from + j]);
        }
        lemma_until_unique(s, c, i - from);
    }
    i
}

/// The lines of a text.
pub fn lines(s: &str) -> (r: Vec<String>)
    ensures
        text::texts(r@) == line_list(s@),
{
    let v = chars_of(s);
    let n: usize = v.len();
    let mut out: Vec<String> = Vec::new();
    let mut i: usize = 0;
    assert(s@.skip(0) =~= s@);
    assert(text::texts(out@) + line_list(s@) =~= line_list(s@));
    while i < n
        invariant
            n == v.len(),
            v@ == s@,
            i <= n,
            text::texts(out@) + line_list(s@.skip(i as int)) == line_list(s@),
        decreases n - i,
    {
        let ghost rest = s@.skip(i as int);
        let ghost before = text::texts(out@);
        let k = find_from(&v, i, '\n');
        if k == n {
            let w = string_of(&v, i, n);
            out.push(w);
            proof {
                assert(w@ =~= rest);
                assert(text::texts(out@) =~= before.push(w@));
                assert(s@.skip(n as int) =~= Seq::<char>::empty());
                assert(text::texts(out@) + line_list(s@.skip(n as int)) =~= before + seq![rest]);
            }
            i = n;
        } else {
            let stop = if k > i && v[k - 1] == '\r' { k - 1 } else { k };
            let w = string_of(&v, i, stop);
            out.push(w);
            proof {
                let line = rest.take(k - i);
                if k > i {
                    assert(line.last() == s@[k - 1]);
                }
                assert(w@ =~= without_cr(line));
                assert(rest.skip(k - i + 1) =~= s@.skip(k + 1));
                assert(text::texts(out@) =~= before.push(w@));
                assert(before + (seq![w@] + line_list(s@.skip(k + 1))) =~= text::texts(out@) + line_list(s@.skip(k + 1)));
            }
            i = k + 1;
        }
    }
    proof {
        assert(s@.skip(i as int) =~= Seq::<char>::empty());
        assert(text::texts(out@) + Seq::<Seq<char>>::empty() =~= text::texts(out@));
    }
    out
}

/// White space around a text is trimmed, and nothing else.
pub proof fn padding_is_trimmed(before: Seq<char>, s: Seq<char>, after: Seq<char>)
    requires
        forall|i: int| 0 <= i < before.len() ==> text::char_is_whitespace(#[trigger] before[i]),
        forall|i: int| 0 <= i < after.len() ==> text::char_is_whitespace(#[trigger] after[i]),
        s.len() > 0,
        !text::char_is_whitespace(s[0]),
        !text::char_is_whitespace(s.last()),
    ensures
        trimmed(before + s + after) == s,
{
    let whole = before + s + after;
    let n = before.len() as int;
    assert forall|j: int| 0 <= j < n implies text::char_is_whitespace(whole[j]) by {
        assert(whole[j] == before[j]);
    }
    assert(whole[n] == s[0]);
    lemma_trimmed_start_skip(whole, n);
    let tail = whole.skip(n);
    let k = s.len() as int;
    assert(tail =~= s + after);
    assert forall|j: int| k <= j < tail.len() implies text::char_is_whitespace(tail[j]) by {
        assert(tail[j] == after[j - k]);
    }
    assert(tail[k - 1] == s.last());
    lemma_trimmed_end_take(tail, k);
    assert(tail.take(k) =~= s);
}

/// A line ends at the first line feed, without the carriage return before it; the
/// lines behind it are those of the rest.
pub proof fn lines_end_at_line_feeds(line: Seq<char>, rest: Seq<char>)
    requires
        !line.contains('\n'),
    ensures
        line_list(line.push('\n') + rest) == seq![
            if line.len() > 0 && line.last() == '\r' {
                line.drop_last()
            } else {
                line
            },
        ] + line_list(rest),
        line.len() > 0 ==> line_list(line) == seq![line],
{
    let whole = line.push('\n') + rest;
    let n = line.len() as int;
    assert forall|i: int| 0 <= i < n implies line[i] != '\n' by {
        assert(line.contains(line[i]));
    }
    assert forall|i: int| 0 <= i < n implies whole[i] != '\n' by {
        assert(whole[i] == line[i]);
    }
    assert(whole[n] == '\n');
    lemma_until_unique(whole, '\n', n);
    lemma_until_unique(line, '\n', n);
    assert(whole.take(n) =~= line);
    assert(whole.skip(n + 1) =~= rest);
}

/// Words end at white space: the first word of a text goes up to the first white
/// space behind it, and the words behind it are those of the rest.
pub proof fn words_end_at_white_space(word: Seq<char>, space: char, rest: Seq<char>)
    requires
        word.len() > 0,
        forall|i: int| 0 <= i < word.len() ==> !text::char_is_whitespace(#[trigger] word[i]),
        text::char_is_whitespace(space),
    ensures
        words(word) == seq![word],
        words(word.push(space) + rest) == seq![word] + words(rest),
        words(seq![space] + rest) == words(rest),
{
    let n = word.len() as int;
    assert(!text::char_is_whitespace(word[0]));
    assert(trimmed_start(word) == word);
    lemma_word_len_is(word, n);
    assert(word.take(n) =~= word);
    assert(word.skip(n) =~= Seq::<char>::empty());
    assert(words(Seq::<char>::empty()) =~= Seq::<Seq<char>>::empty());
    assert(words(word) =~= seq![word]);
    let led = seq![space] + rest;
    assert(led[0] == space);
    assert(led.drop_first() =~= rest);
    assert(trimmed_start(led) == trimmed_start(rest));
    let whole = word.push(space) + rest;
    assert(whole[0] == word[0]);
    assert(trimmed_start(whole) == whole);
    assert forall|j: int| 0 <= j < n implies !text::char_is_whitespace(whole[j]) by {
        assert(whole[j] == word[j]);
    }
    assert(whole[n] == space);
    lemma_word_len_is(whole, n);
    assert(whole.take(n) =~= word);
    assert(whole.skip(n) =~= led);
    assert(words(led) == words(rest));
    assert(words(whole) == seq![word] + words(led));
}

} // verus!
