//! Line-range replacement: the computation behind the `ReplaceFileLines`
//! action, on the text of a file.
use vstd::prelude::*;
use crate::text::{
    join_lines, joined, lemma_join_lines_of, lemma_lines_have_no_newline, lemma_lines_of_joined,
    lines_of, split_lines, views_of,
};

verus! {

/// `ls` followed by empty lines up to `n` lines; never shortened.
pub open spec fn padded_to(ls: Seq<Seq<char>>, n: int) -> Seq<Seq<char>> {
    if n > ls.len() {
        ls + Seq::new((n - ls.len()) as nat, |_i: int| Seq::<char>::empty())
    } else {
        ls
    }
}

/// Where the removed range ends (exclusive): one past `until`, cut to the
/// padded line count and never before `from`.
pub open spec fn range_end(count: int, from: int, until: int) -> int {
    let end = if until + 1 < count {
        until + 1
    } else {
        count
    };
    if end < from {
        from
    } else {
        end
    }
}

/// The lines after replacing lines `from..=until` of `ls` with `new`.
pub open spec fn spliced(
    ls: Seq<Seq<char>>,
    from: int,
    until: int,
    new: Seq<Seq<char>>,
) -> Seq<Seq<char>> {
    let p = padded_to(ls, from);
    p.take(from) + new + p.skip(range_end(p.len() as int, from, until))
}

/// The text after replacing lines `from..=until` of `content` with the lines
/// of `replacement`.
pub open spec fn replaced_text(
    content: Seq<char>,
    from: int,
    until: int,
    replacement: Seq<char>,
) -> Seq<char> {
    joined(spliced(lines_of(content), from, until, lines_of(replacement)))
}

/// Replaces lines `from_line_idx..=until_line_idx` (counted from 0) of
/// `content` with the lines of `replacement`, used literally. Where
/// `from_line_idx` lies past the last line, empty lines are added up to it
/// first; lines past the end of the text are not removed. An empty
/// replacement deletes the range. The lines are joined with `'\n'`, with no
/// final newline.
pub fn replace_lines(
    content: &str,
    from_line_idx: usize,
    until_line_idx: usize,
    replacement: &str,
) -> (r: String)
    ensures
        r@ == replaced_text(content@, from_line_idx as int, until_line_idx as int, replacement@),
{
    let lines = split_lines(content);
    let new_lines = split_lines(replacement);
    let ghost ls = views_of(lines@);
    let ghost nl = views_of(new_lines@);
    let ghost p = padded_to(ls, from_line_idx as int);
    let mut out: Vec<String> = Vec::new();
    let count: usize = if from_line_idx > lines.len() {
        from_line_idx
    } else {
        lines.len()
    };
    assert(p.len() == count);
    let mut i: usize = 0;
    while i < from_line_idx
        invariant
            i <= from_line_idx <= count,
            ls == views_of(lines@),
            p == padded_to(ls, from_line_idx as int),
            views_of(out@) == p.take(i as int),
        decreases from_line_idx - i,
    {
        let line = if i < lines.len() {
            lines[i].clone()
        } else {
            String::new()
        };
        let ghost prev = out@;
        out.push(line);
        assert(line@ == p[i as int]);
        assert(views_of(out@) =~= views_of(prev).push(line@));
        assert(views_of(out@) =~= p.take(i as int + 1));
        i = i + 1;
    }
    let mut k: usize = 0;
    while k < new_lines.len()
        invariant
            k <= new_lines.len(),
            nl == views_of(new_lines@),
            views_of(out@) == p.take(from_line_idx as int) + nl.take(k as int),
        decreases new_lines.len() - k,
    {
        let ghost prev = out@;
        let line = new_lines[k].clone();
        out.push(line);
        assert(line@ == nl[k as int]);
        assert(views_of(out@) =~= views_of(prev).push(line@));
        assert(views_of(out@) =~= p.take(from_line_idx as int) + nl.take(k as int + 1));
        k = k + 1;
    }
    assert(nl.take(new_lines.len() as int) =~= nl);
    let end: usize = if until_line_idx < count && until_line_idx + 1 < count {
        until_line_idx + 1
    } else {
        count
    };
    let end: usize = if end < from_line_idx {
        from_line_idx
    } else {
        end
    };
    assert(end == range_end(count as int, from_line_idx as int, until_line_idx as int));
    let ghost head = p.take(from_line_idx as int) + nl;
    let mut j: usize = end;
    while j < count
        invariant
            from_line_idx <= end <= j <= count,
            count == p.len(),
            count == lines.len() || count == from_line_idx,
            count > lines.len() ==> p == padded_to(ls, from_line_idx as int) && count
                == from_line_idx,
            ls == views_of(lines@),
            p == padded_to(ls, from_line_idx as int),
            views_of(out@) == head + p.subrange(end as int, j as int),
        decreases count - j,
    {
        let ghost prev = out@;
        let line = lines[j].clone();
        out.push(line);
        assert(line@ == p[j as int]);
        assert(views_of(out@) =~= views_of(prev).push(line@));
        assert(views_of(out@) =~= head + p.subrange(end as int, j as int + 1));
        j = j + 1;
    }
    assert(p.subrange(end as int, count as int) =~= p.skip(end as int));
    join_lines(&out)
}

/// Replacing a range of lines with the text of those same lines leaves the
/// text as it was, but for a final newline; this holds where the last line
/// of the range is not empty (an empty last line is lost when the
/// replacement text is split).
pub proof fn lemma_replace_with_same_lines(content: Seq<char>, from: int, until: int)
    requires
        0 <= from <= until < lines_of(content).len(),
        lines_of(content)[until].len() > 0,
    ensures
        replaced_text(content, from, until, joined(lines_of(content).subrange(from, until + 1)))
            == (if content.len() > 0 && content.last() == '\n' {
            content.drop_last()
        } else {
            content
        }),
{
    let ls = lines_of(content);
    let sub = ls.subrange(from, until + 1);
    lemma_lines_have_no_newline(content);
    assert forall|i: int| 0 <= i < sub.len() implies crate::text::has_no_newline(
        #[trigger] sub[i],
    ) by {
        assert(sub[i] == ls[from + i]);
    }
    lemma_lines_of_joined(sub);
    assert(padded_to(ls, from) == ls);
    assert(range_end(ls.len() as int, from, until) == until + 1);
    assert(ls.take(from) + sub + ls.skip(until + 1) =~= ls);
    lemma_join_lines_of(content);
}

/// Doing that same replacement a second time, on the text the first one
/// wrote, changes nothing, where the text's last line is not empty either
/// (otherwise the first replacement drops the empty last line and the
/// second drops the line before it, as on `"a\nb\n\n"`).
pub proof fn lemma_replace_with_same_lines_twice(content: Seq<char>, from: int, until: int)
    requires
        0 <= from <= until < lines_of(content).len(),
        lines_of(content)[until].len() > 0,
        lines_of(content).last().len() > 0,
    ensures
        ({
            let same = joined(lines_of(content).subrange(from, until + 1));
            let once = replaced_text(content, from, until, same);
            &&& once == joined(lines_of(content))
            &&& replaced_text(once, from, until, same) == once
        }),
{
    let ls = lines_of(content);
    lemma_replace_with_same_lines(content, from, until);
    lemma_join_lines_of(content);
    lemma_lines_have_no_newline(content);
    lemma_lines_of_joined(ls);
    assert(lines_of(joined(ls)) == ls);
    lemma_replace_with_same_lines(joined(ls), from, until);
    lemma_join_lines_of(joined(ls));
    let once = joined(ls);
    if once.len() > 0 && once.last() == '\n' {
        lemma_join_lines_of(once);
        let last = ls.last();
        if ls.len() == 1 {
            assert(once == last);
        } else {
            assert(once == joined(ls.drop_last()) + seq!['\n'] + last);
            assert(once.last() == last.last());
        }
        assert(crate::text::has_no_newline(ls[ls.len() - 1]));
        assert(last[last.len() - 1] != '\n');
    }
}

/// Replacing at a line `k` lines past the end of a text of `n` lines puts
/// `k` empty lines before the replacement lines, so the result has
/// `n + k` lines plus the replacement's.
pub proof fn lemma_replace_past_end(ls: Seq<Seq<char>>, k: int, until: int, new: Seq<Seq<char>>)
    requires
        k >= 1,
    ensures
        spliced(ls, ls.len() + k, until, new) == ls + Seq::new(
            k as nat,
            |_i: int| Seq::<char>::empty(),
        ) + new,
        spliced(ls, ls.len() + k, until, new).len() == ls.len() + k + new.len(),
{
    let from = ls.len() + k;
    let p = padded_to(ls, from);
    assert(p.take(from) =~= p);
    assert(p.skip(range_end(p.len() as int, from, until)) =~= Seq::<Seq<char>>::empty());
    assert(p + new + Seq::<Seq<char>>::empty() =~= ls + Seq::new(
        k as nat,
        |_i: int| Seq::<char>::empty(),
    ) + new);
}

} // verus!
