//! Text as a sequence of lines.
//!
//! A line ends at a line feed. A carriage return directly before that line
//! feed belongs to the terminator, not to the line. The last line needs no
//! terminator, and text that ends in a line feed has no empty line after it.
//! A line that is written out is followed by one line feed.

use crate::encoding::{
    lemma_absent_ascii, lemma_cut, lemma_encode_unfold, lemma_first_ascii, lemma_last_ascii,
    lemma_len_le_bytes, lemma_same_char, lemma_single_ascii, lemma_view_is_decoded,
};
use vstd::prelude::*;
use vstd::string::{StringExecFns, StringSliceAdditionalSpecFns};
use vstd::utf8::{is_char_boundary_iff_not_is_continuation_byte, is_char_boundary_start_end_of_seq};

verus! {

/// The line feed, which ends a line.
pub open spec fn line_feed() -> char {
    '\n'
}

/// The carriage return, which may stand before a line feed.
pub open spec fn carriage_return() -> char {
    '\r'
}

/// How many characters stand before the first line feed of `text`; all of
/// them, where it holds none.
pub open spec fn line_len(text: Seq<char>) -> nat
    decreases text.len(),
{
    if text.len() == 0 || text[0] == line_feed() {
        0
    } else {
        1 + line_len(text.drop_first())
    }
}

/// The first line of `text`, without its terminator.
pub open spec fn first_line(text: Seq<char>) -> Seq<char> {
    let end = line_len(text) as int;
    if 0 < end < text.len() && text[end - 1] == carriage_return() {
        text.subrange(0, end - 1)
    } else {
        text.subrange(0, end)
    }
}

/// What follows the first line of `text` and its terminator.
pub open spec fn after_first_line(text: Seq<char>) -> Seq<char> {
    let end = line_len(text) as int;
    if end < text.len() {
        text.subrange(end + 1, text.len() as int)
    } else {
        Seq::empty()
    }
}

/// The lines of `text`, in order.
pub open spec fn lines(text: Seq<char>) -> Seq<Seq<char>>
    decreases text.len(),
{
    if text.len() == 0 {
        Seq::empty()
    } else {
        seq![first_line(text)] + lines(after_first_line(text))
    }
}

/// The text that holds the given lines, each followed by a line feed.
pub open spec fn joined(lines: Seq<Seq<char>>) -> Seq<char>
    decreases lines.len(),
{
    if lines.len() == 0 {
        Seq::empty()
    } else {
        joined(lines.drop_last()) + lines.last() + seq![line_feed()]
    }
}

/// Whether a line comes back as it is when it is written out and read
/// again: it holds no line feed and does not end in a carriage return.
pub open spec fn plain(line: Seq<char>) -> bool {
    &&& forall|i: int| 0 <= i < line.len() ==> line[i] != line_feed()
    &&& line.len() > 0 ==> line.last() != carriage_return()
}

/// The lines among `lines` that are marked in `keep`, in order.
pub open spec fn kept(lines: Seq<Seq<char>>, keep: Seq<bool>) -> Seq<Seq<char>>
    recommends
        keep.len() == lines.len(),
    decreases lines.len(),
{
    if lines.len() == 0 {
        Seq::empty()
    } else if keep.last() {
        kept(lines.drop_last(), keep.drop_last()).push(lines.last())
    } else {
        kept(lines.drop_last(), keep.drop_last())
    }
}

/// Whether `answer` is what `f` may return for the line `line`.
pub open spec fn answers<R, F: Fn(&str) -> R>(f: F, line: Seq<char>, answer: R) -> bool {
    exists|text: &str| text@ == line && #[trigger] call_ensures(f, (text,), answer)
}

/// Whether `keep` holds, line by line, what `filter` answered for the lines
/// of `text`.
pub open spec fn filtered_by<F: Fn(&str) -> bool>(
    filter: F,
    text: Seq<char>,
    keep: Seq<bool>,
) -> bool {
    &&& keep.len() == lines(text).len()
    &&& forall|i: int|
        0 <= i < keep.len() ==> answers(filter, #[trigger] lines(text)[i], keep[i])
}

/// Whether `f` answered `None` for each of the first `upto` lines of `text`.
pub open spec fn unmatched<T, F: Fn(&str) -> Option<T>>(
    f: F,
    text: Seq<char>,
    upto: int,
) -> bool {
    forall|i: int| 0 <= i < upto ==> answers(f, #[trigger] lines(text)[i], None::<T>)
}

/// Whether `out` and `count` are what filtering `text` with `filter` gives:
/// the lines for which `filter` answered `true`, each followed by a line
/// feed, and their number.
pub open spec fn filters_to<F: Fn(&str) -> bool>(
    filter: F,
    text: Seq<char>,
    out: Seq<char>,
    count: nat,
) -> bool {
    exists|keep: Seq<bool>|
        {
            &&& #[trigger] filtered_by(filter, text, keep)
            &&& out == joined(kept(lines(text), keep))
            &&& count == kept(lines(text), keep).len()
        }
}

/// Whether `found` is what matching `text` with `f` gives: the value that
/// `f` answered for the first line for which it answered with one, or
/// nothing where it answered with none for every line.
pub open spec fn matches_to<T, F: Fn(&str) -> Option<T>>(
    f: F,
    text: Seq<char>,
    found: Option<T>,
) -> bool {
    match found {
        Some(value) => exists|at: int|
            0 <= at < lines(text).len() && unmatched(f, text, at) && answers(
                f,
                #[trigger] lines(text)[at],
                Some(value),
            ),
        None => unmatched(f, text, lines(text).len() as int),
    }
}

/// The first line feed of `text` is found where `line_len` says: nothing
/// before it is a line feed, and it is the end of the text or a line feed.
pub proof fn lemma_line_len(text: Seq<char>)
    ensures
        line_len(text) <= text.len(),
        forall|i: int| 0 <= i < line_len(text) ==> text[i] != line_feed(),
        line_len(text) < text.len() ==> text[line_len(text) as int] == line_feed(),
    decreases text.len(),
{
    if text.len() == 0 || text[0] == line_feed() {
    } else {
        let rest = text.drop_first();
        lemma_line_len(rest);
        assert forall|i: int| 0 <= i < line_len(text) implies text[i] != line_feed() by {
            if i > 0 {
                assert(text[i] == rest[i - 1]);
            }
        }
        if line_len(text) < text.len() {
            assert(text[line_len(text) as int] == rest[line_len(rest) as int]);
        }
    }
}

/// Where no line feed stands before position `end`, and `end` is the end of
/// the text or holds a line feed, `end` is the length of the first line.
pub proof fn lemma_line_len_is(text: Seq<char>, end: int)
    requires
        0 <= end <= text.len(),
        forall|i: int| 0 <= i < end ==> text[i] != line_feed(),
        end < text.len() ==> text[end] == line_feed(),
    ensures
        line_len(text) == end,
    decreases text.len(),
{
    if text.len() == 0 || text[0] == line_feed() {
    } else {
        let rest = text.drop_first();
        assert forall|i: int| 0 <= i < end - 1 implies rest[i] != line_feed() by {
            assert(rest[i] == text[i + 1]);
        }
        lemma_line_len_is(rest, end - 1);
    }
}

/// Text that is not empty loses at least one character with its first line.
pub proof fn lemma_after_first_line_shorter(text: Seq<char>)
    requires
        text.len() > 0,
    ensures
        after_first_line(text).len() < text.len(),
{
    lemma_line_len(text);
}

/// No line of a text holds a line feed.
pub proof fn lemma_lines_hold_no_line_feed(text: Seq<char>)
    ensures
        forall|i: int, j: int|
            0 <= i < lines(text).len() && 0 <= j < lines(text)[i].len() ==> lines(text)[i][j]
                != line_feed(),
    decreases text.len(),
{
    if text.len() > 0 {
        lemma_line_len(text);
        lemma_lines_hold_no_line_feed(after_first_line(text));
        let first = first_line(text);
        let others = lines(after_first_line(text));
        assert forall|i: int, j: int|
            0 <= i < lines(text).len() && 0 <= j < lines(text)[i].len() implies lines(text)[i][j]
            != line_feed() by {
            if i == 0 {
                assert(lines(text)[0] == first);
                assert(first[j] == text[j]);
            } else {
                assert(lines(text)[i] == others[i - 1]);
            }
        }
    }
}

/// Lines written out begin with the first of them and its line feed.
pub proof fn lemma_joined_first(line: Seq<char>, rest: Seq<Seq<char>>)
    ensures
        joined(seq![line] + rest) == line + seq![line_feed()] + joined(rest),
    decreases rest.len(),
{
    let all = seq![line] + rest;
    if rest.len() == 0 {
        assert(all.drop_last() =~= rest);
        assert(all.last() == line);
        assert(joined(rest) =~= Seq::<char>::empty());
        assert(joined(all) =~= line + seq![line_feed()] + joined(rest));
    } else {
        assert(all.drop_last() =~= seq![line] + rest.drop_last());
        assert(all.last() == rest.last());
        lemma_joined_first(line, rest.drop_last());
        assert(joined(all) =~= line + seq![line_feed()] + joined(rest));
    }
}

/// Plain lines that are written out and read again are the same lines: the
/// text that filtering writes holds the lines kept, and nothing else.
pub proof fn lemma_lines_of_joined(written: Seq<Seq<char>>)
    requires
        forall|i: int| 0 <= i < written.len() ==> plain(#[trigger] written[i]),
    ensures
        lines(joined(written)) == written,
    decreases written.len(),
{
    if written.len() == 0 {
        assert(lines(joined(written)) =~= written);
    } else {
        let line = written[0];
        let rest = written.drop_first();
        let text = joined(written);
        assert(written =~= seq![line] + rest);
        lemma_joined_first(line, rest);
        assert(plain(line));
        assert forall|i: int| 0 <= i < line.len() implies text[i] != line_feed() by {
            assert(text[i] == line[i]);
        }
        assert(text[line.len() as int] == line_feed());
        lemma_line_len_is(text, line.len() as int);
        if line.len() > 0 {
            assert(text[line.len() - 1] == line.last());
        }
        assert(first_line(text) =~= line);
        assert(after_first_line(text) =~= joined(rest));
        assert forall|i: int| 0 <= i < rest.len() implies plain(#[trigger] rest[i]) by {
            assert(rest[i] == written[i + 1]);
        }
        lemma_lines_of_joined(rest);
        assert(lines(text) =~= written);
    }
}

/// No more lines are kept than there are.
pub proof fn lemma_kept_len(lines: Seq<Seq<char>>, keep: Seq<bool>)
    ensures
        kept(lines, keep).len() <= lines.len(),
    decreases lines.len(),
{
    if lines.len() > 0 {
        lemma_kept_len(lines.drop_last(), keep.drop_last());
    }
}

/// The position of the first byte `10` of `bytes`; their number, where they
/// hold none.
fn find_line_feed(bytes: &[u8]) -> (at: usize)
    ensures
        at <= bytes@.len(),
        forall|i: int| 0 <= i < at ==> bytes@[i] != 10u8,
        at < bytes@.len() ==> bytes@[at as int] == 10u8,
{
    let mut at: usize = 0;
    while at < bytes.len()
        invariant
            at <= bytes@.len(),
            forall|i: int| 0 <= i < at ==> bytes@[i] != 10u8,
        decreases bytes@.len() - at,
    {
        if bytes[at] == 10u8 {
            return at;
        }
        at += 1;
    }
    at
}

/// Cuts text into its first line, without the terminator, and what follows
/// the terminator. Both are empty where the text is.
pub fn split_first_line<'a>(text: &'a str) -> (parts: (&'a str, &'a str))
    ensures
        parts.0@ == first_line(text@),
        parts.1@ == after_first_line(text@),
{
    let bytes = text.as_bytes();
    let end: usize = find_line_feed(bytes);
    proof {
        lemma_view_is_decoded(text);
        lemma_line_len(text@);
    }
    if end == bytes.len() {
        proof {
            lemma_absent_ascii(text@, 10u8);
            lemma_line_len_is(text@, text@.len() as int);
            is_char_boundary_start_end_of_seq(bytes@);
        }
        let (whole, nothing) = text.split_at(end);
        proof {
            lemma_cut(text, whole, nothing, end as int);
            lemma_view_is_decoded(nothing);
            assert(nothing.spec_bytes().len() == 0);
            if nothing@.len() > 0 {
                lemma_encode_unfold(nothing@);
            }
            assert(whole@ =~= text@);
            assert(text@.subrange(0, text@.len() as int) =~= text@);
            assert(nothing@ =~= Seq::<char>::empty());
        }
        (whole, nothing)
    } else {
        proof {
            is_char_boundary_iff_not_is_continuation_byte(bytes@, end as int);
        }
        let (head, tail) = text.split_at(end);
        proof {
            lemma_cut(text, head, tail, end as int);
            assert(tail.spec_bytes()[0] == bytes@[end as int]);
            lemma_first_ascii(tail@, 10u8);
        }
        let (feed, rest) = tail.split_at(1);
        proof {
            lemma_cut(tail, feed, rest, 1);
            assert(feed.spec_bytes() =~= seq![10u8]);
            lemma_single_ascii(feed, 10u8);
            lemma_same_char(feed@[0], line_feed());
            assert(feed@ =~= seq![line_feed()]);
            assert forall|i: int| 0 <= i < head.spec_bytes().len() implies head.spec_bytes()[i]
                != 10u8 by {
                assert(head.spec_bytes()[i] == bytes@[i]);
            }
            lemma_absent_ascii(head@, 10u8);
            assert(text@ =~= head@ + seq![line_feed()] + rest@);
            lemma_line_len_is(text@, head@.len() as int);
            assert(rest@ =~= after_first_line(text@));
            assert(head@ =~= text@.subrange(0, head@.len() as int));
        }
        if end > 0 && bytes[end - 1] == 13u8 {
            proof {
                lemma_view_is_decoded(head);
                assert(head.spec_bytes()[end - 1] == bytes@[end - 1]);
                is_char_boundary_iff_not_is_continuation_byte(head.spec_bytes(), end - 1);
            }
            let (line, cr) = head.split_at(end - 1);
            proof {
                lemma_cut(head, line, cr, end - 1);
                assert(cr.spec_bytes() =~= seq![13u8]);
                lemma_single_ascii(cr, 13u8);
                lemma_same_char(cr@[0], carriage_return());
                assert(cr@ =~= seq![carriage_return()]);
                assert(head@ =~= line@ + seq![carriage_return()]);
                assert(head@.len() > 0);
                assert(text@[head@.len() - 1] == carriage_return());
                assert(line@ =~= text@.subrange(0, head@.len() - 1));
            }
            (line, rest)
        } else {
            proof {
                if head@.len() > 0 && head@.last() == carriage_return() {
                    lemma_last_ascii(head@, 13u8);
                    assert(head.spec_bytes().last() == bytes@[end - 1]);
                }
                if head@.len() > 0 {
                    assert(text@[head@.len() - 1] == head@.last());
                }
            }
            (head, rest)
        }
    }
}

/// Keeps the lines of `text` for which `filter` holds. Returns them as text,
/// each followed by a line feed, and their number.
pub fn filter_lines<F: Fn(&str) -> bool>(text: &str, filter: &F) -> (out: (String, usize))
    requires
        forall|line: &str| call_requires(*filter, (line,)),
    ensures
        filters_to(*filter, text@, out.0@, out.1 as nat),
{
    let limit: usize = text.as_bytes().len();
    let mut rest: &str = text;
    let mut out = String::new();
    let mut count: usize = 0;
    let ghost mut done: Seq<Seq<char>> = Seq::empty();
    let ghost mut keep: Seq<bool> = Seq::empty();
    proof {
        lemma_len_le_bytes(text@);
        assert(done + lines(rest@) =~= lines(text@));
    }
    while !rest.is_empty()
        invariant
            forall|line: &str| call_requires(*filter, (line,)),
            lines(text@) == done + lines(rest@),
            keep.len() == done.len(),
            forall|i: int| 0 <= i < done.len() ==> answers(*filter, #[trigger] done[i], keep[i]),
            out@ == joined(kept(done, keep)),
            count == kept(done, keep).len(),
            done.len() + rest@.len() <= text@.len(),
            text@.len() <= limit,
        decreases rest@.len(),
    {
        let (line, tail) = split_first_line(rest);
        let keep_it: bool = filter(line);
        proof {
            lemma_after_first_line_shorter(rest@);
            lemma_kept_len(done, keep);
            assert(answers(*filter, line@, keep_it));
            assert(done.push(line@).drop_last() =~= done);
            assert(keep.push(keep_it).drop_last() =~= keep);
            assert(done.push(line@) + lines(tail@) =~= done + lines(rest@));
        }
        if keep_it {
            proof {
                reveal_strlit("\n");
            }
            out.append(line);
            out.append("\n");
            count += 1;
            proof {
                assert("\n"@ =~= seq![line_feed()]);
                assert(kept(done.push(line@), keep.push(keep_it)).last() == line@);
                assert(kept(done.push(line@), keep.push(keep_it)).drop_last() =~= kept(
                    done,
                    keep,
                ));
            }
        }
        proof {
            done = done.push(line@);
            keep = keep.push(keep_it);
        }
        rest = tail;
    }
    proof {
        assert(done =~= lines(text@));
        assert(filtered_by(*filter, text@, keep));
    }
    (out, count)
}

/// Hands the lines of `text` to `f`, one after the other, until it answers
/// with a value, and returns that value. Returns nothing where `f` has a
/// value for no line.
pub fn match_lines<T, F: Fn(&str) -> Option<T>>(text: &str, f: &F) -> (found: Option<T>)
    requires
        forall|line: &str| call_requires(*f, (line,)),
    ensures
        matches_to(*f, text@, found),
{
    let mut rest: &str = text;
    let ghost mut done: Seq<Seq<char>> = Seq::empty();
    proof {
        assert(done + lines(rest@) =~= lines(text@));
    }
    while !rest.is_empty()
        invariant
            forall|line: &str| call_requires(*f, (line,)),
            lines(text@) == done + lines(rest@),
            forall|i: int| 0 <= i < done.len() ==> answers(*f, #[trigger] done[i], None::<T>),
        decreases rest@.len(),
    {
        let (line, tail) = split_first_line(rest);
        proof {
            lemma_after_first_line_shorter(rest@);
            assert(done.push(line@) + lines(tail@) =~= done + lines(rest@));
        }
        let answer = f(line);
        proof {
            assert(answers(*f, line@, answer));
        }
        if answer.is_some() {
            proof {
                let at = done.len() as int;
                assert(lines(text@)[at] == line@);
                assert forall|i: int| 0 <= i < at implies answers(
                    *f,
                    #[trigger] lines(text@)[i],
                    None::<T>,
                ) by {
                    assert(lines(text@)[i] == done[i]);
                }
                assert(unmatched(*f, text@, at));
            }
            return answer;
        }
        proof {
            done = done.push(line@);
        }
        rest = tail;
    }
    proof {
        assert(done =~= lines(text@));
    }
    None
}

} // verus!
