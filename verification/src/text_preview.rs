use vstd::prelude::*;
use vstd::math::min;

use crate::strings::{chars_of, string_from_chars};

verus! {

/// Lines shown in the hover preview body: the 392x164 body area holds about
/// ten 12px lines, one of which is kept for the truncation marker.
pub const PREVIEW_TEXT_MAX_LINES: usize = 9;
/// Characters shown in the hover preview body.
pub const PREVIEW_TEXT_MAX_CHARS: usize = 420;

// ---------------------------------------------------------------------------
// Lines of a text, as `str::lines` yields them.
// ---------------------------------------------------------------------------

/// A line ended by `\n` loses one `\r` before that `\n`.
pub open spec fn strip_cr(line: Seq<char>) -> Seq<char> {
    if line.len() > 0 && line.last() == '\r' {
        line.drop_last()
    } else {
        line
    }
}

/// The lines of `p` that a `\n` ends, without the `\n`.
pub open spec fn ended_lines(p: Seq<char>) -> Seq<Seq<char>>
    decreases p.len(),
{
    if p.len() == 0 {
        seq![]
    } else if p.last() == '\n' {
        ended_lines(p.drop_last()).push(open_line(p.drop_last()))
    } else {
        ended_lines(p.drop_last())
    }
}

/// The characters of `p` after its last `\n`.
pub open spec fn open_line(p: Seq<char>) -> Seq<char>
    decreases p.len(),
{
    if p.len() == 0 {
        seq![]
    } else if p.last() == '\n' {
        seq![]
    } else {
        open_line(p.drop_last()).push(p.last())
    }
}

/// The lines of `text`: split at `\n`, a `\r` directly before a `\n` dropped,
/// and no empty line after a final `\n`.
pub open spec fn text_lines(text: Seq<char>) -> Seq<Seq<char>> {
    let ended = ended_lines(text).map_values(|l: Seq<char>| strip_cr(l));
    if open_line(text).len() > 0 {
        ended.push(open_line(text))
    } else {
        ended
    }
}

// ---------------------------------------------------------------------------
// The preview of a text.
// ---------------------------------------------------------------------------

/// Number of characters in all of `lines`.
pub open spec fn total_len(lines: Seq<Seq<char>>) -> int
    decreases lines.len(),
{
    if lines.len() == 0 {
        0
    } else {
        lines[0].len() + total_len(lines.drop_first())
    }
}

/// The pieces of `lines` that the preview keeps, with at most `max_lines`
/// lines and `budget` characters, and whether anything was left out.
/// A line that does not fit whole is cut, and is the last one kept.
pub open spec fn take_preview_lines(lines: Seq<Seq<char>>, max_lines: int, budget: int) -> (Seq<Seq<char>>, bool)
    decreases lines.len(),
{
    if lines.len() == 0 {
        (seq![], false)
    } else if max_lines <= 0 || budget <= 0 {
        (seq![], true)
    } else {
        let line = lines[0];
        let chunk = line.take(min(budget, line.len() as int));
        if chunk.len() < line.len() || (lines.len() > 1 && max_lines == 1) {
            (seq![chunk], true)
        } else {
            let rest = take_preview_lines(lines.drop_first(), max_lines - 1, budget - chunk.len());
            (seq![chunk] + rest.0, rest.1)
        }
    }
}

/// The kept pieces joined by `\n`. Empty pieces at the start leave no
/// separator behind them.
pub open spec fn join_preview(chunks: Seq<Seq<char>>) -> Seq<char>
    decreases chunks.len(),
{
    if chunks.len() == 0 {
        seq![]
    } else {
        let p = join_preview(chunks.drop_last());
        if p.len() == 0 {
            chunks.last()
        } else {
            p + seq!['\n'] + chunks.last()
        }
    }
}

/// The marker appended to a preview that leaves something out.
pub open spec fn ellipsis() -> Seq<char> {
    seq![' ', '.', '.', '.', '.', '.', '.']
}

/// The preview of `text`: its kept pieces joined, with the marker when
/// something was left out; empty when nothing visible was kept.
pub open spec fn limit_preview(text: Seq<char>, max_lines: int, max_chars: int) -> Seq<char> {
    let taken = take_preview_lines(text_lines(text), max_lines, max_chars);
    let out = join_preview(taken.0);
    if out.len() == 0 {
        seq![]
    } else if taken.1 {
        out + ellipsis()
    } else {
        out
    }
}

// ---------------------------------------------------------------------------
// Laws of the text preview.
// ---------------------------------------------------------------------------

proof fn lemma_total_len_cons(c: Seq<char>, rest: Seq<Seq<char>>)
    ensures
        total_len(seq![c] + rest) == c.len() + total_len(rest),
{
    assert((seq![c] + rest).drop_first() =~= rest);
}

/// The preview keeps at most `max_lines` lines and `max_chars` characters,
/// and every kept piece is the start of the line it comes from.
pub proof fn law_preview_within_limits(lines: Seq<Seq<char>>, max_lines: int, max_chars: int)
    requires
        max_lines >= 0,
        max_chars >= 0,
    ensures
        ({
            let kept = take_preview_lines(lines, max_lines, max_chars).0;
            &&& kept.len() <= max_lines
            &&& kept.len() <= lines.len()
            &&& total_len(kept) <= max_chars
            &&& forall|k: int| 0 <= k < kept.len() ==> #[trigger] kept[k] == lines[k].take(kept[k].len() as int)
        }),
    decreases lines.len(),
{
    if lines.len() == 0 || max_lines <= 0 || max_chars <= 0 {
    } else {
        let line = lines[0];
        let chunk = line.take(min(max_chars, line.len() as int));
        if chunk.len() < line.len() || (lines.len() > 1 && max_lines == 1) {
            lemma_total_len_cons(chunk, seq![]);
            assert(seq![chunk] + seq![] =~= seq![chunk]);
        } else {
            let tail = lines.drop_first();
            law_preview_within_limits(tail, max_lines - 1, max_chars - chunk.len());
            let rest = take_preview_lines(tail, max_lines - 1, max_chars - chunk.len()).0;
            lemma_total_len_cons(chunk, rest);
            let kept = seq![chunk] + rest;
            assert forall|k: int| 0 <= k < kept.len() implies #[trigger] kept[k] == lines[k].take(kept[k].len() as int) by {
                if k > 0 {
                    assert(kept[k] == rest[k - 1]);
                    assert(tail[k - 1] == lines[k]);
                } else {
                    assert(chunk =~= line.take(chunk.len() as int));
                }
            }
        }
    }
}

/// A text whose lines all fit is kept whole and gets no marker. Fitting
/// means: no more than `max_lines` lines, no more than `max_chars`
/// characters, and the character budget not used up before the last line.
pub proof fn law_preview_keeps_fitting_text(lines: Seq<Seq<char>>, max_lines: int, max_chars: int)
    requires
        lines.len() <= max_lines,
        total_len(lines) <= max_chars,
        lines.len() == 0 || total_len(lines.drop_last()) < max_chars,
    ensures
        take_preview_lines(lines, max_lines, max_chars) == (lines, false),
    decreases lines.len(),
{
    if lines.len() > 0 {
        let line = lines[0];
        let tail = lines.drop_first();
        lemma_total_len_nonneg(tail);
        lemma_total_len_nonneg(lines.drop_last());
        assert(total_len(lines) == line.len() + total_len(tail));
        assert(min(max_chars, line.len() as int) == line.len());
        assert(line.take(line.len() as int) =~= line);
        if lines.len() == 1 {
            assert(total_len(tail) == 0);
            assert(total_len(lines.drop_last()) == 0);
            assert(take_preview_lines(tail, max_lines - 1, max_chars - line.len()) == (Seq::<Seq<char>>::empty(), false));
            assert(seq![line] + seq![] =~= lines);
        } else {
            lemma_total_len_drop_last(lines);
            assert(tail.drop_last() =~= lines.drop_last().drop_first());
            lemma_total_len_nonneg(lines.drop_last().drop_first());
            law_preview_keeps_fitting_text(tail, max_lines - 1, max_chars - line.len());
            assert(seq![line] + tail =~= lines);
        }
    }
}

proof fn lemma_total_len_nonneg(lines: Seq<Seq<char>>)
    ensures
        total_len(lines) >= 0,
    decreases lines.len(),
{
    if lines.len() > 0 {
        lemma_total_len_nonneg(lines.drop_first());
    }
}

/// Dropping the last line takes exactly its characters off the total.
proof fn lemma_total_len_drop_last(lines: Seq<Seq<char>>)
    requires
        lines.len() > 0,
    ensures
        total_len(lines) == total_len(lines.drop_last()) + lines.last().len(),
        lines.len() > 1 ==> total_len(lines.drop_last()) == lines[0].len() + total_len(lines.drop_last().drop_first()),
    decreases lines.len(),
{
    if lines.len() > 1 {
        let tail = lines.drop_first();
        lemma_total_len_drop_last(tail);
        assert(tail.drop_last() =~= lines.drop_last().drop_first());
        assert(tail.last() == lines.last());
        assert(lines.drop_last()[0] == lines[0]);
    } else {
        assert(total_len(lines.drop_last()) == 0);
        assert(total_len(lines.drop_first()) == 0);
    }
}

/// A text with more lines than `max_lines` or more characters than
/// `max_chars` is always marked as cut.
pub proof fn law_preview_marks_cut_text(lines: Seq<Seq<char>>, max_lines: int, max_chars: int)
    requires
        max_lines >= 0,
        max_chars >= 0,
        lines.len() > max_lines || total_len(lines) > max_chars,
    ensures
        take_preview_lines(lines, max_lines, max_chars).1,
    decreases lines.len(),
{
    lemma_total_len_nonneg(lines);
    if lines.len() > 0 && max_lines > 0 && max_chars > 0 {
        let line = lines[0];
        let chunk = line.take(min(max_chars, line.len() as int));
        if chunk.len() < line.len() || (lines.len() > 1 && max_lines == 1) {
        } else {
            law_preview_marks_cut_text(lines.drop_first(), max_lines - 1, max_chars - chunk.len());
        }
    }
}

/// Within the line limit, a text with at least `max_chars` characters fills
/// the whole character capacity.
pub proof fn law_preview_fills_char_capacity(lines: Seq<Seq<char>>, max_lines: int, max_chars: int)
    requires
        lines.len() <= max_lines,
        0 <= max_chars <= total_len(lines),
    ensures
        total_len(take_preview_lines(lines, max_lines, max_chars).0) == max_chars,
    decreases lines.len(),
{
    if lines.len() > 0 && max_chars > 0 {
        let line = lines[0];
        let chunk = line.take(min(max_chars, line.len() as int));
        if chunk.len() < line.len() {
            lemma_total_len_cons(chunk, seq![]);
        } else {
            let tail = lines.drop_first();
            law_preview_fills_char_capacity(tail, max_lines - 1, max_chars - chunk.len());
            let rest = take_preview_lines(tail, max_lines - 1, max_chars - chunk.len()).0;
            lemma_total_len_cons(chunk, rest);
        }
    }
}

/// Joining one more line that grew by `c` is joining it first and then
/// appending `c`.
proof fn lemma_join_push_grow(lines: Seq<Seq<char>>, last: Seq<char>, c: char)
    ensures
        join_preview(lines.push(last.push(c))) == join_preview(lines.push(last)).push(c),
{
    assert(lines.push(last.push(c)).drop_last() =~= lines);
    assert(lines.push(last).drop_last() =~= lines);
    let p = join_preview(lines);
    if p.len() == 0 {
    } else {
        assert(p + seq!['\n'] + last.push(c) =~= (p + seq!['\n'] + last).push(c));
    }
}

/// Every character of a line of `p` is a character of `p`.
proof fn lemma_lines_chars_from_text(p: Seq<char>)
    ensures
        forall|k: int, j: int| 0 <= k < ended_lines(p).len() && 0 <= j < ended_lines(p)[k].len()
            ==> p.contains(#[trigger] ended_lines(p)[k][j]),
        forall|j: int| 0 <= j < open_line(p).len() ==> p.contains(#[trigger] open_line(p)[j]),
    decreases p.len(),
{
    if p.len() > 0 {
        let q = p.drop_last();
        lemma_lines_chars_from_text(q);
        assert forall|x: char| q.contains(x) implies p.contains(x) by {
            let i = choose|i: int| 0 <= i < q.len() && q[i] == x;
            assert(p[i] == x);
        }
        if p.last() == '\n' {
            assert(ended_lines(p) == ended_lines(q).push(open_line(q)));
            assert forall|k: int, j: int| 0 <= k < ended_lines(p).len() && 0 <= j < ended_lines(p)[k].len()
                implies p.contains(#[trigger] ended_lines(p)[k][j]) by {
                if k < ended_lines(q).len() {
                    assert(ended_lines(p)[k] == ended_lines(q)[k]);
                    assert(q.contains(ended_lines(q)[k][j]));
                } else {
                    assert(ended_lines(p)[k] == open_line(q));
                    assert(q.contains(open_line(q)[j]));
                }
            }
        } else {
            assert(ended_lines(p) == ended_lines(q));
            assert forall|k: int, j: int| 0 <= k < ended_lines(p).len() && 0 <= j < ended_lines(p)[k].len()
                implies p.contains(#[trigger] ended_lines(p)[k][j]) by {
                assert(q.contains(ended_lines(q)[k][j]));
            }
            assert forall|j: int| 0 <= j < open_line(p).len() implies p.contains(#[trigger] open_line(p)[j]) by {
                if j < open_line(q).len() {
                    assert(q.contains(open_line(q)[j]));
                } else {
                    assert(p[p.len() - 1] == open_line(p)[j]);
                }
            }
        }
    }
}

/// A text that neither starts nor ends with an empty line, and has no
/// `\r`, is given back by joining its lines.
proof fn lemma_join_lines_gives_text(p: Seq<char>)
    requires
        p.len() > 0,
        p[0] != '\n',
        !p.contains('\r'),
    ensures
        join_preview(ended_lines(p).push(open_line(p))) == p,
    decreases p.len(),
{
    let q = p.drop_last();
    let c = p.last();
    if q.len() == 0 {
        assert(ended_lines(q).len() == 0);
        assert(open_line(q).len() == 0);
        assert(ended_lines(p) == ended_lines(q));
        assert(open_line(p) =~= seq![c]);
        let lines = ended_lines(p).push(open_line(p));
        assert(lines.drop_last() =~= Seq::<Seq<char>>::empty());
        assert(join_preview(lines.drop_last()).len() == 0);
        assert(seq![c] =~= p);
    } else {
        assert(q[0] == p[0]);
        assert(!q.contains('\r')) by {
            if q.contains('\r') {
                let i = choose|i: int| 0 <= i < q.len() && q[i] == '\r';
                assert(p[i] == '\r');
            }
        }
        lemma_join_lines_gives_text(q);
        if c != '\n' {
            assert(ended_lines(p) == ended_lines(q));
            assert(open_line(p) == open_line(q).push(c));
            lemma_join_push_grow(ended_lines(q), open_line(q), c);
            assert(q.push(c) =~= p);
        } else {
            let lines = ended_lines(q).push(open_line(q));
            assert(ended_lines(p).push(open_line(p)) =~= lines.push(seq![]));
            assert(lines.push(seq![]).drop_last() =~= lines);
            assert(q + seq!['\n'] + seq![] =~= p);
        }
    }
}

/// A complete text is shown as it is, without a marker: one that fits the
/// line and character limits, has no `\r`, and neither starts nor ends with
/// a line break.
pub proof fn law_fitting_text_shown_verbatim(text: Seq<char>, max_lines: int, max_chars: int)
    requires
        text.len() > 0,
        text[0] != '\n',
        text.last() != '\n',
        !text.contains('\r'),
        text_lines(text).len() <= max_lines,
        total_len(text_lines(text)) <= max_chars,
    ensures
        limit_preview(text, max_lines, max_chars) == text,
{
    let ended = ended_lines(text);
    let open = open_line(text);
    assert(open.len() > 0 && open.last() == text.last());
    lemma_lines_chars_from_text(text);
    assert(ended.map_values(|l: Seq<char>| strip_cr(l)) =~= ended) by {
        assert forall|k: int| 0 <= k < ended.len() implies #[trigger] strip_cr(ended[k]) == ended[k] by {
            if ended[k].len() > 0 {
                assert(text.contains(ended[k][ended[k].len() - 1]));
            }
        }
    }
    let lines = text_lines(text);
    assert(lines =~= ended.push(open));
    lemma_total_len_drop_last(lines);
    lemma_total_len_nonneg(lines.drop_last());
    law_preview_keeps_fitting_text(lines, max_lines, max_chars);
    lemma_join_lines_gives_text(text);
}

// ---------------------------------------------------------------------------
// Executable functions.
// ---------------------------------------------------------------------------

/// The character sequences held by a vector of lines.
pub open spec fn lines_view(lines: Seq<Vec<char>>) -> Seq<Seq<char>> {
    lines.map_values(|l: Vec<char>| l@)
}

/// Splits `text` into its lines (see `text_lines`).
pub fn split_lines(text: &Vec<char>) -> (lines: Vec<Vec<char>>)
    ensures
        lines_view(lines@) == text_lines(text@),
{
    let mut lines: Vec<Vec<char>> = Vec::new();
    let mut cur: Vec<char> = Vec::new();
    let mut i: usize = 0;
    while i < text.len()
        invariant
            i <= text.len(),
            lines_view(lines@) == ended_lines(text@.take(i as int)).map_values(|l: Seq<char>| strip_cr(l)),
            cur@ == open_line(text@.take(i as int)),
        decreases text.len() - i,
    {
        let c = text[i];
        let ghost before = text@.take(i as int);
        assert(text@.take(i + 1).drop_last() =~= before);
        if c == '\n' {
            let mut line = cur;
            if line.len() > 0 && line[line.len() - 1] == '\r' {
                line.pop();
            }
            assert(line@ == strip_cr(open_line(before)));
            let ghost old_lines = lines_view(lines@);
            lines.push(line);
            assert(lines_view(lines@) =~= old_lines.push(line@));
            assert(ended_lines(text@.take(i + 1)).map_values(|l: Seq<char>| strip_cr(l)) =~=
                ended_lines(before).map_values(|l: Seq<char>| strip_cr(l)).push(strip_cr(open_line(before))));
            cur = Vec::new();
        } else {
            cur.push(c);
        }
        i += 1;
    }
    assert(text@.take(text.len() as int) =~= text@);
    if cur.len() > 0 {
        let ghost old_lines = lines_view(lines@);
        lines.push(cur);
        assert(lines_view(lines@) =~= old_lines.push(open_line(text@)));
    }
    lines
}

/// Appends the marker ` ......` to `out`.
fn push_ellipsis(out: &mut Vec<char>)
    ensures
        final(out)@ == old(out)@ + ellipsis(),
{
    out.push(' ');
    out.push('.');
    out.push('.');
    out.push('.');
    out.push('.');
    out.push('.');
    out.push('.');
    assert(out@ =~= old(out)@ + ellipsis());
}

/// Appends `line.take(n)` to `out`, after a `\n` when `out` already holds
/// something.
fn push_chunk(out: &mut Vec<char>, line: &Vec<char>, n: usize)
    requires
        n <= line.len(),
    ensures
        final(out)@ == (if old(out)@.len() == 0 {
            line@.take(n as int)
        } else {
            old(out)@ + seq!['\n'] + line@.take(n as int)
        }),
{
    let ghost start = if out.len() == 0 { out@ } else { out@.push('\n') };
    if out.len() > 0 {
        out.push('\n');
    }
    let mut j: usize = 0;
    while j < n
        invariant
            j <= n <= line.len(),
            out@ == start + line@.take(j as int),
        decreases n - j,
    {
        out.push(line[j]);
        j += 1;
        assert(out@ =~= start + line@.take(j as int));
    }
    assert(old(out)@.len() == 0 ==> start + line@.take(n as int) =~= line@.take(n as int));
    assert(old(out)@.len() != 0 ==> start + line@.take(n as int) =~= old(out)@ + seq!['\n'] + line@.take(n as int));
}

/// The hover preview of `text`: at most `max_lines` lines and `max_chars`
/// characters of it, followed by ` ......` when something was left out.
pub fn limit_preview_text(text: &str, max_lines: usize, max_chars: usize) -> (preview: String)
    ensures
        preview@ == limit_preview(text@, max_lines as int, max_chars as int),
{
    let chars = chars_of(text);
    let lines = split_lines(&chars);
    let ghost all = lines_view(lines@);
    let ghost ml = max_lines as int;
    let ghost mc = max_chars as int;
    let mut out: Vec<char> = Vec::new();
    let mut used: usize = 0;
    let mut count: usize = 0;
    let mut truncated = false;
    let ghost mut kept: Seq<Seq<char>> = seq![];
    let mut i: usize = 0;
    assert(all.skip(0) =~= all);
    assert(seq![] + take_preview_lines(all, ml, mc).0 =~= take_preview_lines(all, ml, mc).0);
    while i < lines.len()
        invariant_except_break
            count == i,
            !truncated,
            take_preview_lines(all, ml, mc) == (
                kept + take_preview_lines(all.skip(i as int), ml - i, mc - used).0,
                take_preview_lines(all.skip(i as int), ml - i, mc - used).1,
            ),
        invariant
            ml == max_lines,
            mc == max_chars,
            i <= lines.len(),
            used <= max_chars,
            all == lines_view(lines@),
            all.len() == lines.len(),
            out@ == join_preview(kept),
        ensures
            take_preview_lines(all, ml, mc) == (kept, truncated),
            out@ == join_preview(kept),
        decreases lines.len() - i,
    {
        let ghost rest = all.skip(i as int);
        assert(rest.len() > 0);
        if count >= max_lines || used >= max_chars {
            truncated = true;
            assert(kept + seq![] =~= kept);
            break;
        }
        let line = &lines[i];
        assert(rest[0] == line@);
        let remaining = max_chars - used;
        let take_n = if remaining < line.len() { remaining } else { line.len() };
        let ghost chunk = line@.take(take_n as int);
        assert(rest[0] == line@);
        assert(chunk == rest[0].take(min(mc - used, rest[0].len() as int)));
        assert(kept.push(chunk).drop_last() =~= kept);
        push_chunk(&mut out, line, take_n);
        proof {
            kept = kept.push(chunk);
        }
        used += take_n;
        count += 1;
        if take_n < line.len() || (i + 1 < lines.len() && count >= max_lines) {
            truncated = true;
            assert(kept =~= kept.drop_last() + seq![chunk]);
            break;
        }
        assert(rest.drop_first() =~= all.skip(i + 1));
        assert(kept.drop_last() + (seq![chunk] + take_preview_lines(all.skip(i + 1), ml - (i + 1), mc - used).0)
            =~= kept + take_preview_lines(all.skip(i + 1), ml - (i + 1), mc - used).0);
        i += 1;
    }
    if i == lines.len() && !truncated {
        assert(all.skip(i as int).len() == 0);
        assert(kept + seq![] =~= kept);
    }
    if out.len() == 0 {
        return String::new();
    }
    if truncated {
        push_ellipsis(&mut out);
    }
    string_from_chars(&out)
}

} // verus!
