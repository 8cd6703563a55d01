//! Text predicates over sequences of characters: substring search, line
//! splitting and removal of spaces.

use vstd::prelude::*;

verus! {

/// `needle` stands in `hay` starting at position `at`.
pub open spec fn occurs_at(hay: Seq<char>, needle: Seq<char>, at: int) -> bool {
    &&& 0 <= at
    &&& at + needle.len() <= hay.len()
    &&& hay.subrange(at, at + needle.len()) == needle
}

/// `needle` is a contiguous part of `hay`. The empty sequence is a part of
/// every sequence.
pub open spec fn is_substring(hay: Seq<char>, needle: Seq<char>) -> bool {
    exists|at: int| occurs_at(hay, needle, at)
}

/// The lines of a text: the pieces that its line feeds separate, in order.
/// A text with `n` line feeds has `n + 1` lines, so the empty text has one
/// empty line and a text that ends in a line feed has an empty last line.
pub open spec fn split_lines(text: Seq<char>) -> Seq<Seq<char>>
    decreases text.len(),
{
    if text.len() == 0 {
        seq![Seq::<char>::empty()]
    } else {
        let before = split_lines(text.drop_last());
        if text.last() == '\n' {
            before.push(Seq::<char>::empty())
        } else {
            before.drop_last().push(before.last().push(text.last()))
        }
    }
}

/// The text that has the given lines: the lines in order, with one line feed
/// between each two neighbours.
pub open spec fn join_lines(lines: Seq<Seq<char>>) -> Seq<char>
    decreases lines.len(),
{
    if lines.len() == 0 {
        Seq::<char>::empty()
    } else if lines.len() == 1 {
        lines[0]
    } else {
        join_lines(lines.drop_last()) + seq!['\n'] + lines.last()
    }
}

/// Whether a character is anything but the space character U+0020.
pub open spec fn is_not_space(c: char) -> bool {
    c != ' '
}

/// The text without its space characters. Only U+0020 is removed: tabs, line
/// feeds and every other character stay where they are.
pub open spec fn strip_spaces(text: Seq<char>) -> Seq<char> {
    text.filter(|c: char| is_not_space(c))
}

/// The number of line feeds in a text.
pub open spec fn line_feeds(text: Seq<char>) -> nat {
    text.filter(|c: char| c == '\n').len()
}

/// The characters of a string, in order.
pub fn chars_of(s: &str) -> (out: Vec<char>)
    ensures
        out@ == s@,
{
    let mut out: Vec<char> = Vec::new();
    for c in it: s.chars()
        invariant
            out@ == it.seq().take(it.index()),
    {
        out.push(c);
    }
    out
}

/// Whether `needle` stands in `hay` at position `at`.
pub fn matches_at(hay: &[char], needle: &[char], at: usize) -> (found: bool)
    ensures
        found == occurs_at(hay@, needle@, at as int),
{
    if at > hay.len() || needle.len() > hay.len() - at {
        return false;
    }
    let mut k: usize = 0;
    while k < needle.len()
        invariant
            k <= needle@.len(),
            at + needle@.len() <= hay@.len() <= usize::MAX,
            forall|j: int| 0 <= j < k ==> hay@[at + j] == needle@[j],
        decreases needle@.len() - k,
    {
        if hay[at + k] != needle[k] {
            assert(hay@.subrange(at as int, at + needle@.len())[k as int] == hay@[at + k]);
            return false;
        }
        k += 1;
    }
    assert(hay@.subrange(at as int, at + needle@.len()) =~= needle@);
    true
}

/// Substring search: whether `needle` is a contiguous part of `hay`.
pub fn slice_contains(hay: &[char], needle: &[char]) -> (found: bool)
    ensures
        found == is_substring(hay@, needle@),
{
    if needle.len() > hay.len() {
        return false;
    }
    let last: usize = hay.len() - needle.len();
    let mut at: usize = 0;
    while at < last
        invariant
            last == hay@.len() - needle@.len(),
            at <= last,
            forall|j: int| 0 <= j < at ==> !occurs_at(hay@, needle@, j),
        decreases last - at,
    {
        if matches_at(hay, needle, at) {
            return true;
        }
        at += 1;
    }
    matches_at(hay, needle, last)
}

/// Substring search on strings: whether `needle` is a contiguous part of
/// `hay`, character by character.
pub fn contains(hay: &str, needle: &str) -> (found: bool)
    ensures
        found == is_substring(hay@, needle@),
{
    let hay_chars = chars_of(hay);
    let needle_chars = chars_of(needle);
    slice_contains(hay_chars.as_slice(), needle_chars.as_slice())
}

/// Where line number `index` (counted from 0) of a text stands: the position
/// of its first character and the position just behind its last one; `None`
/// where the text has no such line.
pub fn line_span(text: &[char], index: usize) -> (span: Option<(usize, usize)>)
    ensures
        span is Some <==> index < split_lines(text@).len(),
        span matches Some((from, to)) ==> from <= to <= text@.len() && text@.subrange(
            from as int,
            to as int,
        ) == split_lines(text@)[index as int],
{
    let mut line: usize = 0;
    let mut from: usize = 0;
    let mut at: usize = 0;
    proof {
        assert(text@.take(0) =~= Seq::<char>::empty());
        assert(text@.subrange(0, 0) =~= Seq::<char>::empty());
    }
    while at < text.len()
        invariant
            from <= at <= text@.len(),
            line <= index,
            line <= at,
            split_lines(text@.take(at as int)).len() == line + 1,
            split_lines(text@.take(at as int)).last() == text@.subrange(from as int, at as int),
        decreases text@.len() - at,
    {
        proof {
            assert(text@.take(at + 1).drop_last() =~= text@.take(at as int));
            assert(text@.take(at + 1).last() == text@[at as int]);
        }
        if text[at] == '\n' {
            if line == index {
                proof {
                    lemma_split_lines_of_prefix(text@, at + 1);
                }
                return Some((from, at));
            }
            line += 1;
            from = at + 1;
            proof {
                assert(text@.subrange(from as int, from as int) =~= Seq::<char>::empty());
            }
        } else {
            proof {
                assert(text@.subrange(from as int, at + 1) =~= text@.subrange(
                    from as int,
                    at as int,
                ).push(text@[at as int]));
            }
        }
        at += 1;
    }
    proof {
        assert(text@.take(at as int) =~= text@);
    }
    if line == index {
        Some((from, at))
    } else {
        None
    }
}

/// The characters of a text without its space characters.
pub fn without_spaces(text: &[char]) -> (out: Vec<char>)
    ensures
        out@ == strip_spaces(text@),
{
    let mut out: Vec<char> = Vec::new();
    let mut at: usize = 0;
    proof {
        assert(text@.take(0) =~= Seq::<char>::empty());
        reveal(Seq::filter);
    }
    while at < text.len()
        invariant
            at <= text@.len(),
            out@ == strip_spaces(text@.take(at as int)),
        decreases text@.len() - at,
    {
        proof {
            assert(text@.take(at + 1) =~= text@.take(at as int).push(text@[at as int]));
            text@.take(at as int).lemma_filter_push(text@[at as int], |c: char| is_not_space(c));
        }
        if text[at] != ' ' {
            out.push(text[at]);
        }
        at += 1;
    }
    proof {
        assert(text@.take(at as int) =~= text@);
    }
    out
}

/// A text is part of itself, and so is the empty text.
pub proof fn lemma_substring_of_itself(text: Seq<char>)
    ensures
        is_substring(text, text),
        is_substring(text, Seq::<char>::empty()),
{
    assert(text.subrange(0, text.len() as int) =~= text);
    assert(occurs_at(text, text, 0));
    assert(text.subrange(0, 0) =~= Seq::<char>::empty());
    assert(occurs_at(text, Seq::<char>::empty(), 0));
}

/// What stands anywhere inside a text is part of it, whatever stands before
/// and behind: the search knows no word boundaries.
pub proof fn lemma_part_is_substring(before: Seq<char>, part: Seq<char>, after: Seq<char>)
    ensures
        is_substring(before + part + after, part),
{
    let text = before + part + after;
    assert(text.subrange(before.len() as int, (before.len() + part.len()) as int) =~= part);
    assert(occurs_at(text, part, before.len() as int));
}

/// A part of a text is no longer than the text.
pub proof fn lemma_substring_is_no_longer(hay: Seq<char>, needle: Seq<char>)
    requires
        is_substring(hay, needle),
    ensures
        needle.len() <= hay.len(),
{
    let at = choose|at: int| occurs_at(hay, needle, at);
    assert(occurs_at(hay, needle, at));
}

/// A text has at least one line.
pub proof fn lemma_split_lines_nonempty(text: Seq<char>)
    ensures
        split_lines(text).len() >= 1,
    decreases text.len(),
{
    if text.len() > 0 {
        lemma_split_lines_nonempty(text.drop_last());
    }
}

/// No line of a text holds a line feed.
pub proof fn lemma_split_lines_hold_no_line_feed(text: Seq<char>)
    ensures
        forall|k: int, j: int|
            0 <= k < split_lines(text).len() && 0 <= j < split_lines(text)[k].len()
                ==> split_lines(text)[k][j] != '\n',
    decreases text.len(),
{
    if text.len() > 0 {
        lemma_split_lines_nonempty(text.drop_last());
        lemma_split_lines_hold_no_line_feed(text.drop_last());
    }
}

/// Splitting loses nothing: joining the lines of a text gives the text back.
pub proof fn lemma_join_of_split_lines(text: Seq<char>)
    ensures
        join_lines(split_lines(text)) == text,
    decreases text.len(),
{
    if text.len() == 0 {
        assert(join_lines(split_lines(text)) =~= text);
    } else {
        let before = split_lines(text.drop_last());
        lemma_split_lines_nonempty(text.drop_last());
        lemma_join_of_split_lines(text.drop_last());
        if text.last() == '\n' {
            let lines = before.push(Seq::<char>::empty());
            assert(lines.drop_last() =~= before);
            assert(join_lines(lines) =~= text);
        } else {
            let lines = before.drop_last().push(before.last().push(text.last()));
            if before.len() == 1 {
                assert(join_lines(lines) =~= text);
            } else {
                assert(lines.drop_last() =~= before.drop_last());
                assert(join_lines(lines) =~= join_lines(before).push(text.last()));
                assert(join_lines(lines) =~= text);
            }
        }
    }
}

/// The lines of the first `upto` characters of a text are lines of the whole
/// text too, all but the last of them, which may go on.
pub proof fn lemma_split_lines_of_prefix(text: Seq<char>, upto: int)
    requires
        0 <= upto <= text.len(),
    ensures
        1 <= split_lines(text.take(upto)).len() <= split_lines(text).len(),
        forall|k: int|
            0 <= k < split_lines(text.take(upto)).len() - 1 ==> split_lines(text)[k]
                == split_lines(text.take(upto))[k],
    decreases text.len(),
{
    lemma_split_lines_nonempty(text.take(upto));
    if upto == text.len() {
        assert(text.take(upto) =~= text);
    } else {
        assert(text.drop_last().take(upto) =~= text.take(upto));
        lemma_split_lines_of_prefix(text.drop_last(), upto);
    }
}

/// A text has one line more than it has line feeds.
pub proof fn lemma_split_lines_count(text: Seq<char>)
    ensures
        split_lines(text).len() == line_feeds(text) + 1,
    decreases text.len(),
{
    reveal(Seq::filter);
    if text.len() > 0 {
        lemma_split_lines_nonempty(text.drop_last());
        lemma_split_lines_count(text.drop_last());
    }
}

/// Splitting finds the only way to take a text apart into lines: lines that
/// hold no line feed are the lines of the text that joins them.
pub proof fn lemma_split_of_joined_lines(lines: Seq<Seq<char>>)
    requires
        lines.len() >= 1,
        forall|k: int, j: int|
            0 <= k < lines.len() && 0 <= j < lines[k].len() ==> lines[k][j] != '\n',
    ensures
        split_lines(join_lines(lines)) == lines,
    decreases lines.len(), lines.last().len(),
{
    let text = join_lines(lines);
    let last = lines.last();
    let front = lines.drop_last();
    assert(lines =~= front.push(last));
    if last.len() == 0 {
        assert(last =~= Seq::<char>::empty());
        if lines.len() == 1 {
            assert(lines =~= seq![Seq::<char>::empty()]);
        } else {
            lemma_split_of_joined_lines(front);
            assert(text.last() == '\n');
            assert(text.drop_last() =~= join_lines(front));
        }
    } else {
        let shorter = front.push(last.drop_last());
        assert(shorter.drop_last() =~= front);
        assert forall|k: int, j: int|
            0 <= k < shorter.len() && 0 <= j < shorter[k].len() implies shorter[k][j] != '\n' by {
            assert(shorter[k][j] == lines[k][j]);
        }
        lemma_split_of_joined_lines(shorter);
        assert(text.drop_last() =~= join_lines(shorter));
        assert(text.last() == last.last());
        assert(last.drop_last().push(last.last()) =~= last);
        assert(shorter.last() == last.drop_last());
    }
}

/// No space is left in a text without its spaces.
pub proof fn lemma_strip_spaces_leaves_no_space(text: Seq<char>)
    ensures
        forall|i: int| 0 <= i < strip_spaces(text).len() ==> strip_spaces(text)[i] != ' ',
{
    assert forall|i: int| 0 <= i < strip_spaces(text).len() implies strip_spaces(text)[i]
        != ' ' by {
        text.lemma_filter_pred(|c: char| is_not_space(c), i);
    }
}

/// A text that holds no space is left as it is: tabs, line feeds and all
/// other characters stay.
pub proof fn lemma_strip_spaces_keeps_the_rest(text: Seq<char>)
    requires
        forall|i: int| 0 <= i < text.len() ==> text[i] != ' ',
    ensures
        strip_spaces(text) == text,
    decreases text.len(),
{
    reveal(Seq::filter);
    if text.len() > 0 {
        lemma_strip_spaces_keeps_the_rest(text.drop_last());
        assert(text.drop_last().push(text.last()) =~= text);
    }
}

/// Removing spaces goes part by part.
pub proof fn lemma_strip_spaces_of_concatenation(first: Seq<char>, second: Seq<char>)
    ensures
        strip_spaces(first + second) == strip_spaces(first) + strip_spaces(second),
{
    Seq::filter_distributes_over_add(first, second, |c: char| is_not_space(c));
}

/// A space more or less changes nothing in a text without its spaces.
pub proof fn lemma_strip_spaces_drops_a_space(before: Seq<char>, after: Seq<char>)
    ensures
        strip_spaces(before + seq![' '] + after) == strip_spaces(before + after),
{
    lemma_strip_spaces_of_concatenation(before + seq![' '], after);
    lemma_strip_spaces_of_concatenation(before, seq![' ']);
    lemma_strip_spaces_of_concatenation(before, after);
    assert(strip_spaces(seq![' ']) =~= Seq::<char>::empty()) by {
        reveal_with_fuel(Seq::filter, 2);
    }
    assert(strip_spaces(before) + Seq::<char>::empty() =~= strip_spaces(before));
}

} // verus!
