//! Comparing, searching and splitting text, character by character.

use vstd::prelude::*;

verus! {

/// `pattern` occurs in `s` as a contiguous piece.
pub open spec fn has_piece(s: Seq<char>, pattern: Seq<char>) -> bool {
    exists|i: int|
        0 <= i <= s.len() - pattern.len() && #[trigger] s.subrange(i, i + pattern.len())
            == pattern
}

/// The pieces of `s` between occurrences of `separator`: one more piece than
/// there are separators, so never none.
pub open spec fn split_at_each(s: Seq<char>, separator: char) -> Seq<Seq<char>>
    decreases s.len(),
{
    if s.len() == 0 {
        seq![Seq::<char>::empty()]
    } else {
        let before = split_at_each(s.drop_last(), separator);
        if s.last() == separator {
            before.push(Seq::<char>::empty())
        } else {
            before.drop_last().push(before.last().push(s.last()))
        }
    }
}

/// The pieces glued together again, with `separator` between neighbours.
pub open spec fn join_with(pieces: Seq<Seq<char>>, separator: char) -> Seq<char>
    decreases pieces.len(),
{
    if pieces.len() == 0 {
        Seq::<char>::empty()
    } else if pieces.len() == 1 {
        pieces[0]
    } else {
        join_with(pieces.drop_last(), separator).push(separator) + pieces.last()
    }
}

/// What each of `strings` reads.
pub open spec fn texts(strings: Seq<String>) -> Seq<Seq<char>> {
    strings.map_values(|s: String| s@)
}

/// The characters of `s`, in order.
fn chars_of(s: &str) -> (r: Vec<char>)
    ensures
        r@ == s@,
{
    let mut out: Vec<char> = Vec::new();
    for c in it: s.chars()
        invariant
            it.seq() == s@,
            out@ == s@.take(it.index() as int),
    {
        out.push(c);
    }
    out
}

/// Whether `pattern` stands in `s` at position `start`.
fn matches_at(s: &Vec<char>, start: usize, pattern: &Vec<char>) -> (r: bool)
    requires
        start + pattern@.len() <= s@.len(),
    ensures
        r == (s@.subrange(start as int, start + pattern@.len()) == pattern@),
{
    let ghost piece = s@.subrange(start as int, start + pattern@.len());
    let length: usize = s.len();
    for k in 0..pattern.len()
        invariant
            start + pattern@.len() <= s@.len(),
            length == s@.len(),
            piece == s@.subrange(start as int, start + pattern@.len()),
            piece.take(k as int) == pattern@.take(k as int),
    {
        assert(piece[k as int] == s@[start + k]);
        if s[start + k] != pattern[k] {
            return false;
        }
        assert(piece.take(k + 1) =~= piece.take(k as int).push(piece[k as int]));
        assert(pattern@.take(k + 1) =~= pattern@.take(k as int).push(pattern@[k as int]));
    }
    assert(piece.take(pattern@.len() as int) =~= piece);
    assert(pattern@.take(pattern@.len() as int) =~= pattern@);
    true
}

/// Whether `a` and `b` read the same.
pub fn same_text(a: &str, b: &str) -> (r: bool)
    ensures
        r == (a@ == b@),
{
    let left = chars_of(a);
    let right = chars_of(b);
    if left.len() != right.len() {
        return false;
    }
    assert(left@.subrange(0, right@.len() as int) =~= left@);
    matches_at(&left, 0, &right)
}

/// Whether `s` begins with `prefix`.
pub fn starts_with(s: &str, prefix: &str) -> (r: bool)
    ensures
        r == prefix@.is_prefix_of(s@),
{
    let chars = chars_of(s);
    let pattern = chars_of(prefix);
    if chars.len() < pattern.len() {
        return false;
    }
    matches_at(&chars, 0, &pattern)
}

/// Whether `pattern` occurs anywhere in `s`.
pub fn contains(s: &str, pattern: &str) -> (r: bool)
    ensures
        r == has_piece(s@, pattern@),
{
    let chars = chars_of(s);
    let wanted = chars_of(pattern);
    if chars.len() < wanted.len() {
        return false;
    }
    let last: usize = chars.len() - wanted.len();
    let mut start: usize = 0;
    while start < last
        invariant
            chars@ == s@,
            wanted@ == pattern@,
            last == chars@.len() - wanted@.len(),
            start <= last,
            forall|i: int|
                0 <= i < start ==> #[trigger] s@.subrange(i, i + pattern@.len()) != pattern@,
        decreases last - start,
    {
        if matches_at(&chars, start, &wanted) {
            return true;
        }
        start += 1;
    }
    matches_at(&chars, last, &wanted)
}

/// The pieces of `s` between occurrences of `separator`.
pub fn split(s: &str, separator: char) -> (r: Vec<String>)
    ensures
        texts(r@) == split_at_each(s@, separator),
{
    let chars = chars_of(s);
    let mut pieces: Vec<String> = Vec::new();
    let mut from: usize = 0;
    assert(s@.subrange(0, 0) =~= Seq::<char>::empty());
    assert(texts(pieces@).push(s@.subrange(0, 0)) =~= seq![Seq::<char>::empty()]);
    for k in 0..chars.len()
        invariant
            chars@ == s@,
            from <= k,
            split_at_each(s@.take(k as int), separator) == texts(pieces@).push(
                s@.subrange(from as int, k as int),
            ),
    {
        assert(s@.take(k + 1).drop_last() =~= s@.take(k as int));
        if chars[k] == separator {
            let ghost before = pieces@;
            pieces.push(s.substring_char(from, k).to_owned());
            from = k + 1;
            assert(texts(pieces@) =~= texts(before).push(texts(pieces@).last()));
            assert(s@.subrange(k + 1, k + 1) =~= Seq::<char>::empty());
        } else {
            assert(s@.subrange(from as int, k + 1) =~= s@.subrange(from as int, k as int).push(
                s@[k as int],
            ));
            assert(texts(pieces@).push(s@.subrange(from as int, k as int)).drop_last()
                =~= texts(pieces@));
        }
    }
    assert(s@.take(s@.len() as int) =~= s@);
    let ghost before = pieces@;
    pieces.push(s.substring_char(from, chars.len()).to_owned());
    assert(texts(pieces@) =~= texts(before).push(texts(pieces@).last()));
    pieces
}

/// Splitting loses nothing: there is always a piece, no piece holds the
/// separator, and joining the pieces gives the text back.
pub proof fn law_split_then_join(s: Seq<char>, separator: char)
    ensures
        split_at_each(s, separator).len() >= 1,
        forall|k: int|
            0 <= k < split_at_each(s, separator).len() ==> !(
            #[trigger] split_at_each(s, separator)[k]).contains(separator),
        join_with(split_at_each(s, separator), separator) == s,
    decreases s.len(),
{
    let pieces = split_at_each(s, separator);
    if s.len() > 0 {
        let shorter = s.drop_last();
        let before = split_at_each(shorter, separator);
        law_split_then_join(shorter, separator);
        if s.last() == separator {
            assert(pieces.drop_last() =~= before);
            assert(join_with(pieces, separator) =~= s);
        } else {
            assert(pieces.drop_last() =~= before.drop_last());
            assert(pieces.last() == before.last().push(s.last()));
            assert forall|k: int| 0 <= k < pieces.len() implies !(
            #[trigger] pieces[k]).contains(separator) by {
                if k < before.len() - 1 {
                    assert(pieces[k] == before[k]);
                } else {
                    let longer = pieces[k];
                    if longer.contains(separator) {
                        let at = choose|at: int| 0 <= at < longer.len() && longer[at] == separator;
                        assert(before.last()[at] == separator);
                        assert(before[before.len() - 1].contains(separator));
                    }
                }
            }
            assert(join_with(pieces, separator) =~= join_with(before, separator).push(s.last()));
        }
        assert(shorter.push(s.last()) =~= s);
    }
}

/// A text without the separator is its own only piece.
pub proof fn lemma_split_of_plain(s: Seq<char>, separator: char)
    requires
        !s.contains(separator),
    ensures
        split_at_each(s, separator) == seq![s],
    decreases s.len(),
{
    if s.len() > 0 {
        let shorter = s.drop_last();
        assert(s[s.len() - 1] != separator);
        assert forall|k: int| 0 <= k < shorter.len() implies shorter[k] != separator by {
            assert(s[k] != separator);
        }
        lemma_split_of_plain(shorter, separator);
        assert(shorter.push(s.last()) =~= s);
        assert(split_at_each(s, separator) =~= seq![s]);
    } else {
        assert(s =~= Seq::<char>::empty());
    }
}

/// A separator between two texts separates their pieces.
pub proof fn lemma_split_across(left: Seq<char>, right: Seq<char>, separator: char)
    ensures
        split_at_each(left.push(separator) + right, separator) == split_at_each(left, separator)
            + split_at_each(right, separator),
    decreases right.len(),
{
    let whole = left.push(separator) + right;
    law_split_then_join(right, separator);
    if right.len() == 0 {
        assert(whole.drop_last() =~= left);
        assert(right =~= Seq::<char>::empty());
        assert(split_at_each(whole, separator) =~= split_at_each(left, separator)
            + split_at_each(right, separator));
    } else {
        let shorter = right.drop_last();
        lemma_split_across(left, shorter, separator);
        law_split_then_join(shorter, separator);
        assert(whole.drop_last() =~= left.push(separator) + shorter);
        assert(split_at_each(whole, separator) =~= split_at_each(left, separator)
            + split_at_each(right, separator));
    }
}

/// Joining two or more pieces puts the first one, a separator and the joined
/// rest together.
pub proof fn lemma_join_from_front(pieces: Seq<Seq<char>>, separator: char)
    requires
        pieces.len() >= 2,
    ensures
        join_with(pieces, separator) == pieces[0].push(separator) + join_with(
            pieces.drop_first(),
            separator,
        ),
    decreases pieces.len(),
{
    let rest = pieces.drop_first();
    let shorter = pieces.drop_last();
    if pieces.len() == 2 {
        assert(join_with(shorter, separator) == pieces[0]);
        assert(join_with(rest, separator) == pieces[1]);
    } else {
        lemma_join_from_front(shorter, separator);
        assert(shorter.drop_first() =~= rest.drop_last());
        assert(rest.last() == pieces.last());
        assert(join_with(pieces, separator) =~= pieces[0].push(separator) + join_with(
            rest,
            separator,
        ));
    }
}

/// A text has a piece iff it is something, that piece, and something.
pub proof fn lemma_piece_is_between(s: Seq<char>, pattern: Seq<char>)
    ensures
        has_piece(s, pattern) <==> exists|before: Seq<char>, after: Seq<char>|
            s == #[trigger] (before + pattern + after),
{
    if has_piece(s, pattern) {
        let i = choose|i: int|
            0 <= i <= s.len() - pattern.len() && #[trigger] s.subrange(i, i + pattern.len())
                == pattern;
        let before = s.take(i);
        let after = s.skip(i + pattern.len());
        let piece = s.subrange(i, i + pattern.len());
        assert(s =~= before + piece + after);
        assert(s == before + pattern + after);
    }
    if exists|before: Seq<char>, after: Seq<char>| s == #[trigger] (before + pattern + after) {
        let (before, after) = choose|before: Seq<char>, after: Seq<char>|
            s == #[trigger] (before + pattern + after);
        let i = before.len() as int;
        assert(s.subrange(i, i + pattern.len()) =~= pattern);
    }
}

} // verus!
