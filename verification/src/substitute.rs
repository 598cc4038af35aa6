//! The substitution engine.
//!
//! In literal mode a text is scanned from the left. Where the sought string
//! occurs, it is replaced and the scan goes on behind the occurrence, so that
//! occurrences never overlap; elsewhere one character is kept and the scan
//! moves by one. In pattern mode the regex engine does the work.

use vstd::prelude::*;
use crate::pattern::{
    pattern_compiles, pattern_count, pattern_match_count, pattern_replace_all, pattern_replaced,
};
use crate::report::{empty_find, empty_find_text, invalid_pattern, invalid_pattern_text};
use crate::text::chars_of;

verus! {

broadcast use vstd::string::group_string_axioms;

/// `find` stands in `text` at position `at`.
pub open spec fn occurs_at(text: Seq<char>, find: Seq<char>, at: int) -> bool {
    &&& 0 <= at
    &&& at + find.len() <= text.len()
    &&& text.subrange(at, at + find.len()) == find
}

/// `find` stands somewhere in `text`.
pub open spec fn occurs_in(text: Seq<char>, find: Seq<char>) -> bool {
    exists|at: int| occurs_at(text, find, at)
}

/// `at` is the leftmost position of `find` in `text`.
pub open spec fn first_occurrence(text: Seq<char>, find: Seq<char>, at: int) -> bool {
    &&& occurs_at(text, find, at)
    &&& forall|before: int| 0 <= before < at ==> !occurs_at(text, find, before)
}

/// `text` with the occurrences of `find`, taken from the left and without
/// overlap, replaced by `replace`. An empty `find` changes nothing.
pub open spec fn literal_replaced(text: Seq<char>, find: Seq<char>, replace: Seq<char>) -> Seq<char>
    decreases text.len(),
{
    if find.len() == 0 || text.len() < find.len() {
        text
    } else if occurs_at(text, find, 0) {
        replace + literal_replaced(text.skip(find.len() as int), find, replace)
    } else {
        text.take(1) + literal_replaced(text.skip(1), find, replace)
    }
}

/// How many occurrences of `find` the scan of `text` replaces.
pub open spec fn literal_count(text: Seq<char>, find: Seq<char>) -> nat
    decreases text.len(),
{
    if find.len() == 0 || text.len() < find.len() {
        0
    } else if occurs_at(text, find, 0) {
        1 + literal_count(text.skip(find.len() as int), find)
    } else {
        literal_count(text.skip(1), find)
    }
}

/// The pieces in order, with `between` put between each two neighbours.
pub open spec fn joined(pieces: Seq<Seq<char>>, between: Seq<char>) -> Seq<char>
    decreases pieces.len(),
{
    if pieces.len() == 0 {
        Seq::empty()
    } else if pieces.len() == 1 {
        pieces[0]
    } else {
        pieces[0] + between + joined(pieces.skip(1), between)
    }
}

/// An occurrence in the rest of a text is an occurrence in the text, moved.
pub proof fn lemma_occurs_in_rest(text: Seq<char>, find: Seq<char>, from: int, at: int)
    requires
        0 <= from <= text.len(),
    ensures
        occurs_at(text.skip(from), find, at) <==> (0 <= at && occurs_at(text, find, from + at)),
{
    if 0 <= at && from + at + find.len() <= text.len() {
        assert(text.skip(from).subrange(at, at + find.len()) =~= text.subrange(
            from + at,
            from + at + find.len(),
        ));
    }
}

/// A text that does not hold `find` passes the scan unchanged.
pub proof fn law_absent_is_unchanged(text: Seq<char>, find: Seq<char>, replace: Seq<char>)
    requires
        !occurs_in(text, find),
    ensures
        literal_replaced(text, find, replace) == text,
        literal_count(text, find) == 0,
    decreases text.len(),
{
    if find.len() == 0 || text.len() < find.len() {
    } else {
        assert(!occurs_at(text, find, 0));
        assert forall|at: int| !occurs_at(text.skip(1), find, at) by {
            lemma_occurs_in_rest(text, find, 1, at);
            assert(!occurs_at(text, find, 1 + at));
        }
        law_absent_is_unchanged(text.skip(1), find, replace);
        assert(text.take(1) + text.skip(1) =~= text);
    }
}

/// The scan keeps what stands before the leftmost occurrence, replaces that
/// occurrence, and goes on behind it.
pub proof fn law_leftmost_first(text: Seq<char>, find: Seq<char>, replace: Seq<char>, at: int)
    requires
        find.len() > 0,
        first_occurrence(text, find, at),
    ensures
        literal_replaced(text, find, replace) == text.take(at) + replace + literal_replaced(
            text.skip(at + find.len()),
            find,
            replace,
        ),
        literal_count(text, find) == 1 + literal_count(text.skip(at + find.len()), find),
    decreases at,
{
    if at == 0 {
        assert(text.take(0) + replace =~= replace);
    } else {
        assert(!occurs_at(text, find, 0));
        let rest = text.skip(1);
        assert(first_occurrence(rest, find, at - 1)) by {
            lemma_occurs_in_rest(text, find, 1, at - 1);
            assert forall|before: int| 0 <= before < at - 1 implies !occurs_at(
                rest,
                find,
                before,
            ) by {
                lemma_occurs_in_rest(text, find, 1, before);
            }
        }
        law_leftmost_first(rest, find, replace, at - 1);
        assert(rest.skip(at - 1 + find.len()) =~= text.skip(at + find.len()));
        assert(text.take(1) + rest.take(at - 1) =~= text.take(at));
        let tail = literal_replaced(text.skip(at + find.len()), find, replace);
        assert(text.take(1) + (rest.take(at - 1) + replace + tail) =~= text.take(at) + replace
            + tail);
    }
}

/// The scan replaces nothing exactly where `find` does not occur.
pub proof fn law_count_zero_iff_absent(text: Seq<char>, find: Seq<char>)
    requires
        find.len() > 0,
    ensures
        literal_count(text, find) == 0 <==> !occurs_in(text, find),
    decreases text.len(),
{
    if !occurs_in(text, find) {
        law_absent_is_unchanged(text, find, Seq::empty());
    } else {
        let at = choose|at: int| occurs_at(text, find, at);
        if occurs_at(text, find, 0) {
        } else {
            assert(at >= 1);
            lemma_occurs_in_rest(text, find, 1, at - 1);
            assert(occurs_in(text.skip(1), find));
            law_count_zero_iff_absent(text.skip(1), find);
        }
    }
}

/// Replacing a string by itself leaves every text as it is.
pub proof fn law_same_replacement_keeps_text(text: Seq<char>, find: Seq<char>)
    ensures
        literal_replaced(text, find, find) == text,
    decreases text.len(),
{
    if find.len() == 0 || text.len() < find.len() {
    } else if occurs_at(text, find, 0) {
        law_same_replacement_keeps_text(text.skip(find.len() as int), find);
        assert(text.subrange(0, find.len() as int) + text.skip(find.len() as int) =~= text);
    } else {
        law_same_replacement_keeps_text(text.skip(1), find);
        assert(text.take(1) + text.skip(1) =~= text);
    }
}

/// A second pass finds nothing and changes nothing, provided the first pass
/// left no occurrence of `find` behind.
pub proof fn law_second_pass_is_idle(text: Seq<char>, find: Seq<char>, replace: Seq<char>)
    requires
        find.len() > 0,
        !occurs_in(literal_replaced(text, find, replace), find),
    ensures
        literal_count(literal_replaced(text, find, replace), find) == 0,
        literal_replaced(literal_replaced(text, find, replace), find, replace) == literal_replaced(
            text,
            find,
            replace,
        ),
{
    law_absent_is_unchanged(literal_replaced(text, find, replace), find, replace);
}

/// What stands before position `end` of a text is all that decides whether
/// `find` occurs at a position whose occurrence would end there or earlier.
pub proof fn lemma_occurs_in_front(text: Seq<char>, find: Seq<char>, end: int, at: int)
    requires
        0 <= end <= text.len(),
        0 <= at,
        at + find.len() <= end,
    ensures
        occurs_at(text.take(end), find, at) <==> occurs_at(text, find, at),
{
    assert(text.take(end).subrange(at, at + find.len()) =~= text.subrange(at, at + find.len()));
}

/// Every occurrence is replaced and nothing else is touched: where a text is
/// made of pieces with `find` between them, and the scan from the left meets
/// `find` exactly at those places, the result is the same pieces with
/// `replace` between them, and the count is the number of those places.
///
/// The scan meets `find` exactly there when `find` stands nowhere earlier in
/// a piece followed by `find`, and nowhere in the last piece.
pub proof fn law_every_occurrence_replaced(
    pieces: Seq<Seq<char>>,
    find: Seq<char>,
    replace: Seq<char>,
)
    requires
        find.len() > 0,
        pieces.len() >= 1,
        forall|i: int, at: int|
            0 <= i < pieces.len() - 1 && 0 <= at < pieces[i].len() ==> !occurs_at(
                pieces[i] + find,
                find,
                at,
            ),
        !occurs_in(pieces.last(), find),
    ensures
        literal_replaced(joined(pieces, find), find, replace) == joined(pieces, replace),
        literal_count(joined(pieces, find), find) == pieces.len() - 1,
    decreases pieces.len(),
{
    if pieces.len() == 1 {
        law_absent_is_unchanged(pieces[0], find, replace);
    } else {
        let head = pieces[0];
        let rest = pieces.skip(1);
        let text = joined(pieces, find);
        let at = head.len() as int;
        assert(text == head + find + joined(rest, find));
        assert(text.subrange(at, at + find.len()) =~= find);
        assert(text.take(at + find.len()) =~= head + find);
        assert forall|before: int| 0 <= before < at implies !occurs_at(text, find, before) by {
            lemma_occurs_in_front(text, find, at + find.len(), before);
        }
        law_leftmost_first(text, find, replace, at);
        assert(text.skip(at + find.len()) =~= joined(rest, find));
        assert(text.take(at) =~= head);
        assert forall|i: int, at: int|
            0 <= i < rest.len() - 1 && 0 <= at < rest[i].len() implies !occurs_at(
            rest[i] + find,
            find,
            at,
        ) by {
            assert(rest[i] == pieces[i + 1]);
        }
        assert(rest.last() == pieces.last());
        law_every_occurrence_replaced(rest, find, replace);
    }
}

/// Whether `find` stands in `text` at position `at`.
fn stands_at(text: &Vec<char>, find: &Vec<char>, at: usize) -> (r: bool)
    requires
        at + find.len() <= text.len(),
    ensures
        r == occurs_at(text@, find@, at as int),
{
    let mut k: usize = 0;
    while k < find.len()
        invariant
            k <= find.len(),
            at + find.len() <= text.len(),
            forall|j: int| 0 <= j < k ==> text@[at + j] == find@[j],
        decreases find.len() - k,
    {
        if text[at + k] != find[k] {
            assert(text@.subrange(at as int, at + find.len())[k as int] != find@[k as int]);
            return false;
        }
        k += 1;
    }
    assert(text@.subrange(at as int, at + find.len()) =~= find@);
    true
}

/// Literal mode: the text with each occurrence replaced, and their number.
pub fn replace_literal(source: &str, find: &str, replace: &str) -> (r: (String, usize))
    requires
        find@.len() > 0,
    ensures
        r.0@ == literal_replaced(source@, find@, replace@),
        r.1 == literal_count(source@, find@),
{
    let text = chars_of(source);
    let sought = chars_of(find);
    let n = text.len();
    let m = sought.len();
    let mut out = String::new();
    let mut count: usize = 0;
    let mut i: usize = 0;
    assert(text@.skip(0) =~= text@);
    while i < n
        invariant
            i <= n,
            n == text@.len(),
            m == sought@.len(),
            m > 0,
            count <= i,
            out@ + literal_replaced(text@.skip(i as int), sought@, replace@) == literal_replaced(
                text@,
                sought@,
                replace@,
            ),
            count + literal_count(text@.skip(i as int), sought@) == literal_count(
                text@,
                sought@,
            ),
        decreases n - i,
    {
        let ghost rest = text@.skip(i as int);
        let ghost before = out@;
        if m <= n - i && stands_at(&text, &sought, i) {
            proof {
                lemma_occurs_in_rest(text@, sought@, i as int, 0);
                assert(rest.skip(m as int) =~= text@.skip(i + m));
                let tail = literal_replaced(rest.skip(m as int), sought@, replace@);
                assert((before + replace@) + tail =~= before + (replace@ + tail));
            }
            out.append(replace);
            count += 1;
            i += m;
        } else {
            proof {
                lemma_occurs_in_rest(text@, sought@, i as int, 0);
                assert(rest.skip(1) =~= text@.skip(i + 1));
                assert(rest.take(1) =~= seq![text@[i as int]]);
                let tail = literal_replaced(rest.skip(1), sought@, replace@);
                if rest.len() < m {
                    assert(rest.skip(1).len() < m);
                    assert(rest.take(1) + rest.skip(1) =~= rest);
                }
                assert(before.push(text@[i as int]) + tail =~= before + (rest.take(1) + tail));
            }
            out.push(text[i]);
            i += 1;
        }
    }
    (out, count)
}

/// What a substitution gives: the new text and the number of replacements,
/// or the complaint. Literal mode refuses an empty `find`; pattern mode
/// refuses a `find` that does not compile.
pub open spec fn substitution(
    source: Seq<char>,
    find: Seq<char>,
    replace: Seq<char>,
    use_regex: bool,
) -> Result<(Seq<char>, nat), Seq<char>> {
    if use_regex {
        if pattern_compiles(find) {
            Ok((pattern_replaced(find, source, replace), pattern_count(find, source)))
        } else {
            Err(invalid_pattern_text(find))
        }
    } else if find.len() == 0 {
        Err(empty_find_text())
    } else {
        Ok((literal_replaced(source, find, replace), literal_count(source, find)))
    }
}

/// What `r` holds, as a model: the characters of its text and its count, or
/// the characters of its complaint.
pub open spec fn substitution_view(r: Result<(String, usize), String>) -> Result<
    (Seq<char>, nat),
    Seq<char>,
> {
    match r {
        Ok(done) => Ok((done.0@, done.1 as nat)),
        Err(said) => Err(said@),
    }
}

/// Pattern mode, from what the engine gave: its text and its count where it
/// gave both, the complaint where the expression did not compile.
pub fn pattern_outcome(find: &str, replaced: Option<String>, counted: Option<usize>) -> (r: Result<
    (String, usize),
    String,
>)
    ensures
        match (replaced, counted) {
            (Some(text), Some(count)) => r matches Ok(done) && done.0@ == text@ && done.1 == count,
            _ => r matches Err(said) && said@ == invalid_pattern_text(find@),
        },
{
    match (replaced, counted) {
        (Some(text), Some(count)) => Ok((text, count)),
        _ => Err(invalid_pattern(find)),
    }
}

/// Replaces `find` by `repl` in `source`, literally or as a pattern, and
/// counts the replacements.
pub fn replace(source: &str, find: &str, repl: &str, use_regex: bool) -> (r: Result<
    (String, usize),
    String,
>)
    ensures
        substitution_view(r) == substitution(source@, find@, repl@, use_regex),
{
    if use_regex {
        let replaced = pattern_replace_all(find, source, repl);
        let counted = pattern_match_count(find, source);
        pattern_outcome(find, replaced, counted)
    } else if find.is_empty() {
        Err(empty_find())
    } else {
        Ok(replace_literal(source, find, repl))
    }
}

} // verus!
