//! Searching and splitting text.

use vstd::prelude::*;
use crate::text::{chars_of, string_of_range};

verus! {

/// Whether `pat` stands in `s` at index `i`.
pub open spec fn occurs_at(s: Seq<char>, pat: Seq<char>, i: int) -> bool {
    &&& 0 <= i
    &&& i + pat.len() <= s.len()
    &&& s.subrange(i, i + pat.len()) == pat
}

/// Whether `pat` stands somewhere in `s`.
pub open spec fn contains(s: Seq<char>, pat: Seq<char>) -> bool {
    exists|i: int| occurs_at(s, pat, i)
}

/// Whether `s` begins with `pat`.
pub open spec fn starts_with(s: Seq<char>, pat: Seq<char>) -> bool {
    occurs_at(s, pat, 0)
}

/// Whether `s` ends with `pat`.
pub open spec fn ends_with(s: Seq<char>, pat: Seq<char>) -> bool {
    occurs_at(s, pat, s.len() - pat.len())
}

/// Whether `i` is the first index at which `pat` stands in `s`.
pub open spec fn is_first_occurrence(s: Seq<char>, pat: Seq<char>, i: int) -> bool {
    &&& occurs_at(s, pat, i)
    &&& forall|j: int| 0 <= j < i ==> !occurs_at(s, pat, j)
}

/// Whether `i` is the last index at which `pat` stands in `s`.
pub open spec fn is_last_occurrence(s: Seq<char>, pat: Seq<char>, i: int) -> bool {
    &&& occurs_at(s, pat, i)
    &&& forall|j: int| i < j ==> !occurs_at(s, pat, j)
}

/// Whether `pat` stands in `s` at index `i`.
pub fn matches_at(s: &Vec<char>, pat: &Vec<char>, i: usize) -> (r: bool)
    ensures
        r == occurs_at(s@, pat@, i as int),
{
    if pat.len() > s.len() || i > s.len() - pat.len() {
        return false;
    }
    let mut k: usize = 0;
    while k < pat.len()
        invariant
            k <= pat.len(),
            i + pat.len() <= s.len(),
            forall|j: int| 0 <= j < k ==> s@[i + j] == pat@[j],
        decreases pat.len() - k,
    {
        if s[i + k] != pat[k] {
            proof {
                let w = s@.subrange(i as int, i + pat.len());
                assert(w[k as int] == s@[i + k]);
            }
            return false;
        }
        k += 1;
    }
    assert(s@.subrange(i as int, i + pat.len()) == pat@);
    true
}

/// The first index at or after `from` at which `pat` stands in `s`.
pub fn find_from(s: &Vec<char>, pat: &Vec<char>, from: usize) -> (r: Option<usize>)
    ensures
        match r {
            Some(i) => from <= i && occurs_at(s@, pat@, i as int) && forall|j: int|
                from <= j < i ==> !occurs_at(s@, pat@, j),
            None => forall|j: int| from <= j ==> !occurs_at(s@, pat@, j),
        },
{
    if pat.len() > s.len() || from > s.len() - pat.len() {
        return None;
    }
    let last: usize = s.len() - pat.len();
    let mut i: usize = from;
    loop
        invariant
            from <= i <= last,
            last == s.len() - pat.len(),
            forall|j: int| from <= j < i ==> !occurs_at(s@, pat@, j),
        decreases last - i,
    {
        if matches_at(s, pat, i) {
            return Some(i);
        }
        if i == last {
            return None;
        }
        i += 1;
    }
}

/// The first index at which `pat` stands in `s`.
pub fn find(s: &Vec<char>, pat: &Vec<char>) -> (r: Option<usize>)
    ensures
        match r {
            Some(i) => is_first_occurrence(s@, pat@, i as int),
            None => !contains(s@, pat@),
        },
{
    find_from(s, pat, 0)
}

/// The last index at which `pat` stands in `s`.
pub fn rfind(s: &Vec<char>, pat: &Vec<char>) -> (r: Option<usize>)
    ensures
        match r {
            Some(i) => is_last_occurrence(s@, pat@, i as int),
            None => !contains(s@, pat@),
        },
{
    if pat.len() > s.len() {
        return None;
    }
    let mut i: usize = s.len() - pat.len();
    loop
        invariant
            pat.len() <= s.len(),
            i <= s.len() - pat.len(),
            forall|j: int| i < j ==> !occurs_at(s@, pat@, j),
        decreases i,
    {
        if matches_at(s, pat, i) {
            return Some(i);
        }
        if i == 0 {
            return None;
        }
        i -= 1;
    }
}

/// Whether `pat` stands somewhere in `s`.
pub fn contains_text(s: &str, pat: &str) -> (r: bool)
    ensures
        r == contains(s@, pat@),
{
    let sc = chars_of(s);
    let pc = chars_of(pat);
    find(&sc, &pc).is_some()
}

/// Whether `s` begins with `pat`.
pub fn has_prefix(s: &str, pat: &str) -> (r: bool)
    ensures
        r == starts_with(s@, pat@),
{
    let sc = chars_of(s);
    let pc = chars_of(pat);
    matches_at(&sc, &pc, 0)
}

/// Whether `s` ends with `pat`.
pub fn has_suffix(s: &str, pat: &str) -> (r: bool)
    ensures
        r == ends_with(s@, pat@),
{
    let sc = chars_of(s);
    let pc = chars_of(pat);
    if pc.len() > sc.len() {
        return false;
    }
    matches_at(&sc, &pc, sc.len() - pc.len())
}

/// The pieces of `s` between occurrences of `sep`: one more piece than there
/// are separators, each piece free of `sep`.
pub open spec fn split_on(s: Seq<char>, sep: char) -> Seq<Seq<char>>
    decreases s.len(),
{
    if s.len() == 0 {
        seq![Seq::<char>::empty()]
    } else {
        let before = split_on(s.drop_last(), sep);
        if s.last() == sep {
            before.push(Seq::<char>::empty())
        } else {
            before.drop_last().push(before.last().push(s.last()))
        }
    }
}

/// `split_on` never returns an empty list.
pub proof fn lemma_split_nonempty(s: Seq<char>, sep: char)
    ensures
        split_on(s, sep).len() >= 1,
    decreases s.len(),
{
    if s.len() > 0 {
        lemma_split_nonempty(s.drop_last(), sep);
    }
}

/// The pieces put together again, with `sep` between them.
pub open spec fn joined(pieces: Seq<Seq<char>>, sep: char) -> Seq<char>
    decreases pieces.len(),
{
    if pieces.len() == 0 {
        Seq::empty()
    } else if pieces.len() == 1 {
        pieces[0]
    } else {
        joined(pieces.drop_last(), sep).push(sep) + pieces.last()
    }
}

/// Splitting loses nothing and cuts at every separator: the pieces, put
/// together again with `sep` between them, are the text, and no piece holds
/// `sep`.
pub proof fn lemma_split_joins(s: Seq<char>, sep: char)
    ensures
        joined(split_on(s, sep), sep) == s,
        forall|i: int, k: int|
            0 <= i < split_on(s, sep).len() && 0 <= k < split_on(s, sep)[i].len() ==> (
            #[trigger] split_on(s, sep)[i][k]) != sep,
    decreases s.len(),
{
    let pieces = split_on(s, sep);
    if s.len() == 0 {
        assert(joined(pieces, sep) =~= s);
    } else {
        let front = s.drop_last();
        let before = split_on(front, sep);
        lemma_split_joins(front, sep);
        lemma_split_nonempty(front, sep);
        assert(s =~= front.push(s.last()));
        if s.last() == sep {
            assert(pieces.drop_last() == before);
            assert(joined(pieces, sep) =~= joined(before, sep).push(sep));
            assert forall|i: int, k: int|
                0 <= i < pieces.len() && 0 <= k < pieces[i].len() implies (#[trigger] pieces[i][k])
                != sep by {
                assert(pieces[i] == before[i]);
            }
        } else {
            let grown = before.last().push(s.last());
            assert(pieces.last() == grown);
            if before.len() == 1 {
                assert(joined(before, sep) == before[0]);
                assert(joined(pieces, sep) == grown);
            } else {
                assert(pieces.drop_last() == before.drop_last());
                assert(joined(pieces, sep) =~= (joined(before.drop_last(), sep).push(sep)
                    + before.last()).push(s.last()));
            }
            assert forall|i: int, k: int|
                0 <= i < pieces.len() && 0 <= k < pieces[i].len() implies (#[trigger] pieces[i][k])
                != sep by {
                if i < pieces.len() - 1 {
                    assert(pieces[i] == before[i]);
                } else if k < before.last().len() {
                    assert(pieces[i][k] == before[before.len() - 1][k]);
                }
            }
        }
    }
}

/// The views of a list of strings.
pub open spec fn views(v: Seq<String>) -> Seq<Seq<char>> {
    v.map_values(|s: String| s@)
}

/// The pieces of `s` between occurrences of `sep`.
pub fn split_chars(s: &Vec<char>, sep: char) -> (r: Vec<String>)
    ensures
        views(r@) == split_on(s@, sep),
{
    let mut out: Vec<String> = Vec::new();
    let mut start: usize = 0;
    let mut i: usize = 0;
    proof {
        assert(s@.subrange(0, 0) =~= Seq::<char>::empty());
        assert(views(out@).push(Seq::<char>::empty()) =~= seq![Seq::<char>::empty()]);
    }
    while i < s.len()
        invariant
            start <= i <= s.len(),
            views(out@).push(s@.subrange(start as int, i as int)) == split_on(
                s@.subrange(0, i as int),
                sep,
            ),
        decreases s.len() - i,
    {
        proof {
            let p = s@.subrange(0, i + 1);
            assert(p.drop_last() == s@.subrange(0, i as int));
            assert(p.last() == s@[i as int]);
            let done = views(out@);
            let cur = s@.subrange(start as int, i as int);
            assert(done.push(cur).drop_last() == done);
            assert(done.push(cur).last() == cur);
            assert(cur.push(s@[i as int]) == s@.subrange(start as int, i + 1));
        }
        if s[i] == sep {
            let piece = string_of_range(s, start, i);
            proof {
                assert(views(out@.push(piece)) == views(out@).push(piece@));
                assert(s@.subrange(i + 1, i + 1) == Seq::<char>::empty());
            }
            out.push(piece);
            start = i + 1;
        }
        i += 1;
    }
    let piece = string_of_range(s, start, s.len());
    proof {
        assert(views(out@.push(piece)) == views(out@).push(piece@));
        assert(s@.subrange(0, s.len() as int) == s@);
    }
    out.push(piece);
    out
}

/// The pieces of `s` between occurrences of `sep`.
pub fn split_text(s: &str, sep: char) -> (r: Vec<String>)
    ensures
        views(r@) == split_on(s@, sep),
{
    let chars = chars_of(s);
    split_chars(&chars, sep)
}

/// The first index at which `pat` stands in `s`.
pub open spec fn first_index(s: Seq<char>, pat: Seq<char>) -> Option<int> {
    if contains(s, pat) {
        Some(choose|i: int| is_first_occurrence(s, pat, i))
    } else {
        None
    }
}

/// The last index at which `pat` stands in `s`.
pub open spec fn last_index(s: Seq<char>, pat: Seq<char>) -> Option<int> {
    if contains(s, pat) {
        Some(choose|i: int| is_last_occurrence(s, pat, i))
    } else {
        None
    }
}

/// A first occurrence is the first index.
pub proof fn lemma_first_index(s: Seq<char>, pat: Seq<char>, i: int)
    requires
        is_first_occurrence(s, pat, i),
    ensures
        first_index(s, pat) == Some(i),
{
    let j = choose|j: int| is_first_occurrence(s, pat, j);
    assert(!(j < i) && !(i < j));
}

/// A last occurrence is the last index.
pub proof fn lemma_last_index(s: Seq<char>, pat: Seq<char>, i: int)
    requires
        is_last_occurrence(s, pat, i),
    ensures
        last_index(s, pat) == Some(i),
{
    let j = choose|j: int| is_last_occurrence(s, pat, j);
    assert(!(j < i) && !(i < j));
}

/// The first index at which `pat` stands in `s`.
pub fn find_first(s: &Vec<char>, pat: &Vec<char>) -> (r: Option<usize>)
    ensures
        match r {
            Some(i) => first_index(s@, pat@) == Some(i as int) && i + pat.len() <= s.len(),
            None => first_index(s@, pat@) is None,
        },
{
    let r = find(s, pat);
    proof {
        if let Some(i) = r {
            lemma_first_index(s@, pat@, i as int);
        }
    }
    r
}

/// The last index at which `pat` stands in `s`.
pub fn find_last(s: &Vec<char>, pat: &Vec<char>) -> (r: Option<usize>)
    ensures
        match r {
            Some(i) => last_index(s@, pat@) == Some(i as int) && i + pat.len() <= s.len(),
            None => last_index(s@, pat@) is None,
        },
{
    let r = rfind(s, pat);
    proof {
        if let Some(i) = r {
            lemma_last_index(s@, pat@, i as int);
        }
    }
    r
}

/// `s` without every `c`.
pub open spec fn without_char(s: Seq<char>, c: char) -> Seq<char>
    decreases s.len(),
{
    if s.len() == 0 {
        Seq::empty()
    } else if s.last() == c {
        without_char(s.drop_last(), c)
    } else {
        without_char(s.drop_last(), c).push(s.last())
    }
}

/// `s[from..to]` without every `c`.
pub fn range_without(s: &Vec<char>, from: usize, to: usize, c: char) -> (r: String)
    requires
        from <= to <= s.len(),
    ensures
        r@ == without_char(s@.subrange(from as int, to as int), c),
{
    let mut out = String::new();
    let mut i: usize = from;
    while i < to
        invariant
            from <= i <= to <= s.len(),
            out@ == without_char(s@.subrange(from as int, i as int), c),
        decreases to - i,
    {
        proof {
            let next = s@.subrange(from as int, i + 1);
            assert(next.drop_last() == s@.subrange(from as int, i as int));
            assert(next.last() == s@[i as int]);
        }
        if s[i] != c {
            crate::text::push_char(&mut out, s[i]);
        }
        i += 1;
    }
    out
}

/// `s` without the occurrences of `pat`, taken from the left, one after
/// the other.
pub open spec fn remove_all(s: Seq<char>, pat: Seq<char>) -> Seq<char>
    decreases s.len(),
{
    if pat.len() == 0 {
        s
    } else {
        match first_index(s, pat) {
            Some(i) => if 0 <= i && i + pat.len() <= s.len() {
                s.take(i) + remove_all(s.skip(i + pat.len()), pat)
            } else {
                s
            },
            None => s,
        }
    }
}

/// An occurrence in what follows index `from` is an occurrence in the whole.
pub proof fn lemma_occurs_in_rest(s: Seq<char>, pat: Seq<char>, from: int, j: int)
    requires
        0 <= from <= s.len(),
    ensures
        occurs_at(s.skip(from), pat, j) == (0 <= j && occurs_at(s, pat, j + from)),
{
    if 0 <= j && j + pat.len() <= s.len() - from {
        assert(s.skip(from).subrange(j, j + pat.len()) == s.subrange(j + from, j + from + pat.len()));
    }
}

/// `s` without the occurrences of `pat`.
pub fn without_text(s: &Vec<char>, pat: &Vec<char>) -> (r: String)
    ensures
        r@ == remove_all(s@, pat@),
{
    if pat.len() == 0 {
        return crate::text::string_of(s);
    }
    let mut out = String::new();
    let mut pos: usize = 0;
    assert(s@.skip(0) == s@);
    loop
        invariant
            pos <= s.len(),
            pat.len() > 0,
            out@ + remove_all(s@.skip(pos as int), pat@) == remove_all(s@, pat@),
        decreases s.len() - pos,
    {
        let ghost rest = s@.skip(pos as int);
        match find_from(s, pat, pos) {
            Some(i) => {
                proof {
                    assert forall|j: int| 0 <= j < i - pos implies !occurs_at(rest, pat@, j) by {
                        lemma_occurs_in_rest(s@, pat@, pos as int, j);
                    }
                    lemma_occurs_in_rest(s@, pat@, pos as int, i - pos);
                    lemma_first_index(rest, pat@, i - pos);
                    assert(rest.take(i - pos) == s@.subrange(pos as int, i as int));
                    assert(rest.skip(i - pos + pat.len()) == s@.skip(i + pat.len()));
                }
                let ghost before = out@;
                let mut k: usize = pos;
                while k < i
                    invariant
                        pos <= k <= i <= s.len(),
                        out@ == before + s@.subrange(pos as int, k as int),
                    decreases i - k,
                {
                    crate::text::push_char(&mut out, s[k]);
                    k += 1;
                }
                pos = i + pat.len();
            },
            None => {
                proof {
                    assert forall|j: int| !occurs_at(rest, pat@, j) by {
                        lemma_occurs_in_rest(s@, pat@, pos as int, j);
                    }
                    assert(!contains(rest, pat@));
                    assert(rest == s@.subrange(pos as int, s.len() as int));
                }
                let ghost before = out@;
                let mut k: usize = pos;
                while k < s.len()
                    invariant
                        pos <= k <= s.len(),
                        out@ == before + s@.subrange(pos as int, k as int),
                    decreases s.len() - k,
                {
                    crate::text::push_char(&mut out, s[k]);
                    k += 1;
                }
                return out;
            },
        }
    }
}

/// The lines of a text: it is cut after every line feed, the line feed goes,
/// and so does a carriage return before it. What follows the last line feed
/// is a line only where it is not empty.
pub open spec fn lines_of(s: Seq<char>) -> Seq<Seq<char>> {
    let pieces = split_on(s, '\n');
    let ended = pieces.drop_last().map_values(
        |piece: Seq<char>|
            if piece.len() > 0 && piece.last() == '\r' {
                piece.drop_last()
            } else {
                piece
            },
    );
    if pieces.last().len() == 0 {
        ended
    } else {
        ended.push(pieces.last())
    }
}

/// The lines of a text.
pub fn lines(s: &str) -> (r: Vec<String>)
    ensures
        views(r@) == lines_of(s@),
{
    let mut pieces = split_text(s, '\n');
    proof {
        lemma_split_nonempty(s@, '\n');
        assert(views(pieces@).len() == pieces@.len());
    }
    let ghost all = views(pieces@);
    let last = pieces.pop().unwrap();
    assert(last@ == all.last());
    assert(views(pieces@) =~= all.drop_last());
    let ghost strip = |piece: Seq<char>|
        if piece.len() > 0 && piece.last() == '\r' {
            piece.drop_last()
        } else {
            piece
        };
    let mut out: Vec<String> = Vec::new();
    let mut i: usize = 0;
    assert(views(out@) =~= all.drop_last().map_values(strip).take(0));
    while i < pieces.len()
        invariant
            i <= pieces.len(),
            views(pieces@) == all.drop_last(),
            strip == |piece: Seq<char>|
                if piece.len() > 0 && piece.last() == '\r' {
                    piece.drop_last()
                } else {
                    piece
                },
            views(out@) == all.drop_last().map_values(strip).take(i as int),
        decreases pieces.len() - i,
    {
        let chars = chars_of(pieces[i].as_str());
        let n = chars.len();
        let line = if n > 0 && chars[n - 1] == '\r' {
            string_of_range(&chars, 0, n - 1)
        } else {
            assert(chars@.subrange(0, n as int) == chars@);
            string_of_range(&chars, 0, n)
        };
        proof {
            assert(views(pieces@)[i as int] == pieces@[i as int]@);
            assert(line@ == strip(pieces@[i as int]@));
            assert(views(out@.push(line)) == views(out@).push(line@));
            assert(all.drop_last().map_values(strip).take(i + 1) == all.drop_last().map_values(
                strip,
            ).take(i as int).push(line@));
        }
        out.push(line);
        i += 1;
    }
    assert(all.drop_last().map_values(strip).take(pieces.len() as int) == all.drop_last().map_values(
        strip,
    ));
    if !last.as_str().is_empty() {
        proof {
            assert(views(out@.push(last)) == views(out@).push(last@));
        }
        out.push(last);
    }
    out
}

} // verus!
