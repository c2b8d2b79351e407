//! Whitespace, trimming and line splitting of text.

use vstd::prelude::*;
use vstd::std_specs::iter::IteratorSpec;
use vstd::string::StrSliceExecFns;

verus! {

/// Whether `c` is whitespace: what `char::is_whitespace` returns for `c`,
/// the Unicode property `White_Space`.
pub uninterp spec fn is_whitespace(c: char) -> bool;

/// `s` without its leading whitespace.
pub open spec fn trim_start(s: Seq<char>) -> Seq<char>
    decreases s.len(),
{
    if s.len() > 0 && is_whitespace(s.first()) {
        trim_start(s.drop_first())
    } else {
        s
    }
}

/// `s` without its trailing whitespace.
pub open spec fn trim_end(s: Seq<char>) -> Seq<char>
    decreases s.len(),
{
    if s.len() > 0 && is_whitespace(s.last()) {
        trim_end(s.drop_last())
    } else {
        s
    }
}

/// `s` without its leading and trailing whitespace.
pub open spec fn trimmed(s: Seq<char>) -> Seq<char> {
    trim_end(trim_start(s))
}

/// Whether `s` neither starts nor ends with whitespace.
pub open spec fn is_trimmed(s: Seq<char>) -> bool {
    s.len() > 0 ==> !is_whitespace(s.first()) && !is_whitespace(s.last())
}

/// `char::is_whitespace`: whether the character has the Unicode property
/// `White_Space`.
pub assume_specification[ char::is_whitespace ](c: char) -> (b: bool)
    ensures
        b == is_whitespace(c),
;

/// Leading whitespace ends where the first character that is none stands.
pub proof fn lemma_trim_start(s: Seq<char>, first: int)
    requires
        0 <= first <= s.len(),
        forall|k: int| 0 <= k < first ==> is_whitespace(s[k]),
        first < s.len() ==> !is_whitespace(s[first]),
    ensures
        trim_start(s) == s.skip(first),
    decreases first,
{
    if first == 0 {
        assert(s.skip(0) =~= s);
    } else {
        assert(is_whitespace(s[0]));
        lemma_trim_start(s.drop_first(), first - 1);
        assert(s.drop_first().skip(first - 1) =~= s.skip(first));
    }
}

/// Trailing whitespace starts behind the last character that is none.
pub proof fn lemma_trim_end(s: Seq<char>, end: int)
    requires
        0 <= end <= s.len(),
        forall|k: int| end <= k < s.len() ==> is_whitespace(s[k]),
        end > 0 ==> !is_whitespace(s[end - 1]),
    ensures
        trim_end(s) == s.take(end),
    decreases s.len() - end,
{
    if end == s.len() {
        assert(s.take(end) =~= s);
    } else {
        assert(is_whitespace(s[s.len() - 1]));
        lemma_trim_end(s.drop_last(), end);
        assert(s.drop_last().take(end) =~= s.take(end));
    }
}

/// What is left of a text without its leading whitespace is its end, and
/// does not start with whitespace.
proof fn lemma_trim_start_shape(s: Seq<char>)
    ensures
        exists|first: int| 0 <= first <= s.len() && trim_start(s) == #[trigger] s.skip(first),
        trim_start(s).len() > 0 ==> !is_whitespace(trim_start(s).first()),
    decreases s.len(),
{
    if s.len() > 0 && is_whitespace(s.first()) {
        lemma_trim_start_shape(s.drop_first());
        let first = choose|first: int|
            0 <= first <= s.drop_first().len() && trim_start(s.drop_first())
                == #[trigger] s.drop_first().skip(first);
        assert(s.drop_first().skip(first) =~= s.skip(first + 1));
    } else {
        assert(s.skip(0) =~= s);
    }
}

/// What is left of a text without its trailing whitespace is its start, and
/// does not end with whitespace.
proof fn lemma_trim_end_shape(s: Seq<char>)
    ensures
        exists|end: int| 0 <= end <= s.len() && trim_end(s) == #[trigger] s.take(end),
        trim_end(s).len() > 0 ==> !is_whitespace(trim_end(s).last()),
    decreases s.len(),
{
    if s.len() > 0 && is_whitespace(s.last()) {
        lemma_trim_end_shape(s.drop_last());
        let end = choose|end: int|
            0 <= end <= s.drop_last().len() && trim_end(s.drop_last())
                == #[trigger] s.drop_last().take(end);
        assert(s.drop_last().take(end) =~= s.take(end));
    } else {
        assert(s.take(s.len() as int) =~= s);
    }
}

/// A trimmed text neither starts nor ends with whitespace, and trimming it
/// again changes nothing.
pub proof fn lemma_trimmed_is_trimmed(s: Seq<char>)
    ensures
        is_trimmed(trimmed(s)),
        trimmed(trimmed(s)) == trimmed(s),
{
    lemma_trim_start_shape(s);
    lemma_trim_end_shape(trim_start(s));
    let t = trimmed(s);
    if t.len() > 0 {
        let first = choose|first: int|
            0 <= first <= s.len() && trim_start(s) == #[trigger] s.skip(first);
        let end = choose|end: int|
            0 <= end <= trim_start(s).len() && t == #[trigger] trim_start(s).take(end);
        assert(t.first() == trim_start(s).first());
        lemma_trim_start(t, 0);
        assert(t.skip(0) =~= t);
        lemma_trim_end(t, t.len() as int);
        assert(t.take(t.len() as int) =~= t);
    } else {
        assert(trim_start(t) == t);
        assert(trim_end(t) == t);
    }
}

/// The text of `s` with leading and trailing whitespace removed.
pub fn trim(s: &str) -> (r: String)
    ensures
        r@ == trimmed(s@),
{
    let n = s.unicode_len();
    let mut first: usize = 0;
    let mut end: usize = 0;
    let mut at: usize = 0;
    let mut rest = s.chars();
    loop
        invariant
            n == s@.len(),
            first <= at <= n,
            end <= at,
            rest.obeys_prophetic_iter_laws(),
            rest.remaining() == s@.skip(at as int),
            forall|k: int| 0 <= k < first ==> is_whitespace(s@[k]),
            forall|k: int| end <= k < at ==> is_whitespace(s@[k]),
            end == 0 ==> first == at,
            end > 0 ==> first < end && !is_whitespace(s@[first as int]) && !is_whitespace(
                s@[end - 1],
            ),
        decreases n - at,
    {
        match rest.next() {
            Some(c) => {
                assert(c == s@[at as int]);
                assert(s@.skip(at as int).drop_first() =~= s@.skip(at as int + 1));
                if !c.is_whitespace() {
                    end = at + 1;
                } else if end == 0 {
                    first = at + 1;
                }
                at = at + 1;
            },
            None => {
                assert(at == n);
                proof {
                    lemma_trim_start(s@, first as int);
                    if end == 0 {
                        assert(s@.skip(first as int) =~= Seq::<char>::empty());
                    } else {
                        lemma_trim_end(s@.skip(first as int), end - first);
                        assert(s@.skip(first as int).take(end - first) =~= s@.subrange(
                            first as int,
                            end as int,
                        ));
                    }
                }
                if end == 0 {
                    return String::new();
                }
                return s.substring_char(first, end).to_owned();
            },
        }
    }
}

/// The lines of `s`: the pieces between its line feeds. A text without a
/// line feed is one line, and a line feed at the end is followed by one more
/// line, which is empty.
pub open spec fn lines(s: Seq<char>) -> Seq<Seq<char>>
    decreases s.len(),
{
    if s.len() == 0 {
        seq![Seq::empty()]
    } else {
        let before = lines(s.drop_last());
        if s.last() == '\n' {
            before.push(Seq::empty())
        } else {
            before.drop_last().push(before.last().push(s.last()))
        }
    }
}

/// The characters of each text of a list, in order.
pub open spec fn texts(list: Seq<String>) -> Seq<Seq<char>> {
    Seq::new(list.len(), |i: int| list[i]@)
}

/// The lines of `text`, split at its line feeds.
pub fn split_lines(text: &str) -> (pieces: Vec<String>)
    ensures
        texts(pieces@) == lines(text@),
{
    let n = text.unicode_len();
    let mut pieces: Vec<String> = Vec::new();
    let mut start: usize = 0;
    let mut at: usize = 0;
    let mut rest = text.chars();
    assert(text@.subrange(0, 0) =~= Seq::<char>::empty());
    assert(lines(text@.take(0)) =~= texts(pieces@).push(text@.subrange(0, 0)));
    loop
        invariant
            n == text@.len(),
            start <= at <= n,
            rest.obeys_prophetic_iter_laws(),
            rest.remaining() == text@.skip(at as int),
            lines(text@.take(at as int)) == texts(pieces@).push(
                text@.subrange(start as int, at as int),
            ),
        decreases n - at,
    {
        let next = rest.next();
        match next {
            Some(c) => {
                assert(c == text@[at as int]);
                assert(text@.skip(at as int).drop_first() =~= text@.skip(at as int + 1));
                assert(text@.take(at as int + 1).drop_last() =~= text@.take(at as int));
                if c == '\n' {
                    let piece = text.substring_char(start, at).to_owned();
                    let ghost before = pieces@;
                    pieces.push(piece);
                    assert(texts(pieces@) =~= texts(before).push(
                        text@.subrange(start as int, at as int),
                    ));
                    start = at + 1;
                    assert(text@.subrange(start as int, at as int + 1) =~= Seq::<char>::empty());
                } else {
                    assert(text@.subrange(start as int, at as int + 1) =~= text@.subrange(
                        start as int,
                        at as int,
                    ).push(c));
                    assert(texts(pieces@).push(text@.subrange(start as int, at as int)).drop_last()
                        =~= texts(pieces@));
                }
                at = at + 1;
            },
            None => {
                assert(at == n);
                assert(text@.take(at as int) =~= text@);
                let piece = text.substring_char(start, at).to_owned();
                let ghost before = pieces@;
                pieces.push(piece);
                assert(texts(pieces@) =~= texts(before).push(
                    text@.subrange(start as int, at as int),
                ));
                return pieces;
            },
        }
    }
}

} // verus!
