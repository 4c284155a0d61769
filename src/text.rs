//! Character-level text utilities: splitting text into lines and joining
//! lines back together, stated over `Seq<char>`.
use vstd::prelude::*;
use vstd::std_specs::iter::IteratorSpec;
use vstd::string::StrSliceExecFns;

verus! {

/// The pieces of `s` between newline characters; there is always at least one.
pub open spec fn newline_pieces(s: Seq<char>) -> Seq<Seq<char>>
    decreases s.len(),
{
    if s.len() == 0 {
        seq![Seq::empty()]
    } else {
        let p = newline_pieces(s.drop_last());
        if s.last() == '\n' {
            p.push(Seq::empty())
        } else {
            p.update(p.len() - 1, p.last().push(s.last()))
        }
    }
}

/// The lines of `s`: the newline pieces, without the empty piece that a
/// final newline (or an empty text) leaves at the end.
pub open spec fn lines_of(s: Seq<char>) -> Seq<Seq<char>> {
    let p = newline_pieces(s);
    if p.last().len() == 0 {
        p.drop_last()
    } else {
        p
    }
}

/// The lines joined with a newline between each two.
pub open spec fn joined(ls: Seq<Seq<char>>) -> Seq<char>
    decreases ls.len(),
{
    if ls.len() == 0 {
        Seq::empty()
    } else if ls.len() == 1 {
        ls[0]
    } else {
        joined(ls.drop_last()) + seq!['\n'] + ls.last()
    }
}

pub open spec fn has_no_newline(s: Seq<char>) -> bool {
    forall|k: int| 0 <= k < s.len() ==> s[k] != '\n'
}

pub open spec fn views_of(v: Seq<String>) -> Seq<Seq<char>> {
    v.map_values(|x: String| x@)
}

pub proof fn lemma_pieces_nonempty(s: Seq<char>)
    ensures
        newline_pieces(s).len() >= 1,
        forall|i: int|
            0 <= i < newline_pieces(s).len() ==> has_no_newline(#[trigger] newline_pieces(s)[i]),
    decreases s.len(),
{
    if s.len() > 0 {
        lemma_pieces_nonempty(s.drop_last());
        let p = newline_pieces(s.drop_last());
        if s.last() != '\n' {
            let q = p.update(p.len() - 1, p.last().push(s.last()));
            assert forall|i: int| 0 <= i < q.len() implies has_no_newline(#[trigger] q[i]) by {
                if i == p.len() - 1 {
                    assert(has_no_newline(p[i]));
                }
            }
        }
    }
}

/// Joining the newline pieces gives the text back.
pub proof fn lemma_join_pieces(s: Seq<char>)
    ensures
        joined(newline_pieces(s)) == s,
    decreases s.len(),
{
    if s.len() > 0 {
        let t = s.drop_last();
        lemma_join_pieces(t);
        lemma_pieces_nonempty(t);
        let p = newline_pieces(t);
        if s.last() == '\n' {
            assert(p.push(Seq::empty()).drop_last() =~= p);
        } else {
            let q = p.update(p.len() - 1, p.last().push(s.last()));
            assert(q.drop_last() =~= p.drop_last());
            if p.len() == 1 {
                assert(s =~= p[0].push(s.last()));
            } else {
                assert(t == joined(p.drop_last()) + seq!['\n'] + p.last());
                assert(s =~= t.push(s.last()));
                assert(s =~= joined(p.drop_last()) + seq!['\n'] + p.last().push(s.last()));
            }
        }
    }
}

/// Appending text without a newline extends the last piece.
pub proof fn lemma_pieces_extend(a: Seq<char>, b: Seq<char>)
    requires
        has_no_newline(b),
    ensures
        newline_pieces(a + b) == newline_pieces(a).update(
            newline_pieces(a).len() - 1,
            newline_pieces(a).last() + b,
        ),
    decreases b.len(),
{
    lemma_pieces_nonempty(a);
    let p = newline_pieces(a);
    if b.len() == 0 {
        assert(a + b =~= a);
        assert(p.update(p.len() - 1, p.last() + b) =~= p);
    } else {
        let b2 = b.drop_last();
        assert(has_no_newline(b2));
        lemma_pieces_extend(a, b2);
        assert((a + b).drop_last() =~= a + b2);
        assert((a + b).last() == b.last());
        let q = p.update(p.len() - 1, p.last() + b2);
        assert(q.last() == p.last() + b2);
        assert((p.last() + b2).push(b.last()) =~= p.last() + b);
        assert(q.update(q.len() - 1, q.last().push(b.last())) =~= p.update(
            p.len() - 1,
            p.last() + b,
        ));
    }
}

/// Splitting lines that hold no newline, after joining them, gives them back.
pub proof fn lemma_pieces_of_joined(ls: Seq<Seq<char>>)
    requires
        ls.len() >= 1,
        forall|i: int| 0 <= i < ls.len() ==> has_no_newline(#[trigger] ls[i]),
    ensures
        newline_pieces(joined(ls)) == ls,
    decreases ls.len(),
{
    if ls.len() == 1 {
        lemma_pieces_extend(Seq::empty(), ls[0]);
        assert(Seq::<char>::empty() + ls[0] =~= ls[0]);
        assert(newline_pieces(Seq::<char>::empty()).update(0, Seq::<char>::empty() + ls[0]) =~= ls);
    } else {
        let init = ls.drop_last();
        lemma_pieces_of_joined(init);
        let a = joined(init) + seq!['\n'];
        assert(a.drop_last() =~= joined(init));
        assert(newline_pieces(a) == init.push(Seq::empty()));
        lemma_pieces_extend(a, ls.last());
        assert(init.push(Seq::empty()).update(init.len() as int, Seq::<char>::empty() + ls.last())
            =~= ls);
    }
}

/// Lines that hold no newline, the last of them not empty, come back from
/// splitting their join.
pub proof fn lemma_lines_of_joined(ls: Seq<Seq<char>>)
    requires
        forall|i: int| 0 <= i < ls.len() ==> has_no_newline(#[trigger] ls[i]),
        ls.len() > 0 ==> ls.last().len() > 0,
    ensures
        lines_of(joined(ls)) == ls,
{
    if ls.len() == 0 {
        assert(seq![Seq::<char>::empty()].drop_last() =~= ls);
    } else {
        lemma_pieces_of_joined(ls);
    }
}

/// The lines of a text hold no newline.
pub proof fn lemma_lines_have_no_newline(s: Seq<char>)
    ensures
        forall|i: int| 0 <= i < lines_of(s).len() ==> has_no_newline(#[trigger] lines_of(s)[i]),
{
    lemma_pieces_nonempty(s);
    let p = newline_pieces(s);
    assert forall|i: int| 0 <= i < lines_of(s).len() implies has_no_newline(
        #[trigger] lines_of(s)[i],
    ) by {
        assert(lines_of(s)[i] == p[i]);
    }
}

/// Joining the lines of a text gives the text back, without its final newline.
pub proof fn lemma_join_lines_of(s: Seq<char>)
    ensures
        joined(lines_of(s)) == (if s.len() > 0 && s.last() == '\n' {
            s.drop_last()
        } else {
            s
        }),
{
    lemma_pieces_nonempty(s);
    lemma_join_pieces(s);
    let p = newline_pieces(s);
    if p.len() == 1 {
        if p[0].len() > 0 {
            assert(has_no_newline(p[0]));
            assert(s.last() == p[0].last());
        }
    } else {
        let last = p.last();
        assert(s == joined(p.drop_last()) + seq!['\n'] + last);
        if last.len() == 0 {
            assert(s.drop_last() =~= joined(p.drop_last()));
        } else {
            assert(has_no_newline(p[p.len() - 1]));
            assert(s.last() == last.last());
        }
    }
}

/// The decimal digit `d` (below ten) as text.
pub open spec fn digit_text(d: nat) -> Seq<char> {
    if d == 0 {
        "0"@
    } else if d == 1 {
        "1"@
    } else if d == 2 {
        "2"@
    } else if d == 3 {
        "3"@
    } else if d == 4 {
        "4"@
    } else if d == 5 {
        "5"@
    } else if d == 6 {
        "6"@
    } else if d == 7 {
        "7"@
    } else if d == 8 {
        "8"@
    } else {
        "9"@
    }
}

/// `n` written in decimal, without leading zeros.
pub open spec fn decimal_of(n: nat) -> Seq<char>
    decreases n,
{
    if n < 10 {
        digit_text(n)
    } else {
        decimal_of(n / 10) + digit_text(n % 10)
    }
}

fn digit(d: u64) -> (r: &'static str)
    requires
        d < 10,
    ensures
        r@ == digit_text(d as nat),
{
    if d == 0 {
        "0"
    } else if d == 1 {
        "1"
    } else if d == 2 {
        "2"
    } else if d == 3 {
        "3"
    } else if d == 4 {
        "4"
    } else if d == 5 {
        "5"
    } else if d == 6 {
        "6"
    } else if d == 7 {
        "7"
    } else if d == 8 {
        "8"
    } else {
        "9"
    }
}

/// Writes `n` in decimal.
pub fn decimal(n: u64) -> (r: String)
    ensures
        r@ == decimal_of(n as nat),
    decreases n,
{
    if n < 10 {
        digit(n).to_owned()
    } else {
        let mut r = decimal(n / 10);
        r.append(digit(n % 10));
        r
    }
}

/// What `str::trim` leaves of a text.
pub uninterp spec fn trimmed(s: Seq<char>) -> Seq<char>;

/// What `str::to_lowercase` makes of a text.
pub uninterp spec fn lowercased(s: Seq<char>) -> Seq<char>;

/// Relies on `str::trim`: the text without its leading and trailing whitespace.
#[verifier::external_body]
pub(crate) fn trim(s: &str) -> (r: &str)
    ensures
        r@ == trimmed(s@),
{
    s.trim()
}

/// Relies on `str::to_lowercase`: the text in lower case.
#[verifier::external_body]
pub(crate) fn to_lower(s: &str) -> (r: String)
    ensures
        r@ == lowercased(s@),
{
    s.to_lowercase()
}

/// Whether the two texts hold the same characters.
pub fn same_text(a: &str, b: &str) -> (r: bool)
    ensures
        r == (a@ == b@),
{
    let n = a.unicode_len();
    let m = b.unicode_len();
    if n != m {
        return false;
    }
    let mut i: usize = 0;
    while i < n
        invariant
            i <= n,
            n == a@.len(),
            m == b@.len(),
            n == m,
            forall|k: int| 0 <= k < i ==> a@[k] == b@[k],
        decreases n - i,
    {
        if a.get_char(i) != b.get_char(i) {
            return false;
        }
        i = i + 1;
    }
    assert(a@ =~= b@);
    true
}

/// Whether `s` begins with `prefix`.
pub open spec fn has_prefix(s: Seq<char>, prefix: Seq<char>) -> bool {
    prefix.len() <= s.len() && s.take(prefix.len() as int) == prefix
}

/// Whether `s` begins with `prefix`.
pub fn starts_with(s: &str, prefix: &str) -> (r: bool)
    ensures
        r == has_prefix(s@, prefix@),
{
    let n = s.unicode_len();
    let m = prefix.unicode_len();
    if m > n {
        return false;
    }
    let head = s.substring_char(0, m);
    let r = same_text(head, prefix);
    assert(head@ =~= s@.take(m as int));
    r
}

/// The pieces joined with `sep` between each two.
pub open spec fn joined_with(ls: Seq<Seq<char>>, sep: Seq<char>) -> Seq<char>
    decreases ls.len(),
{
    if ls.len() == 0 {
        Seq::empty()
    } else if ls.len() == 1 {
        ls[0]
    } else {
        joined_with(ls.drop_last(), sep) + sep + ls.last()
    }
}

/// Joins the pieces with `sep` between each two.
pub fn join_with(ls: &Vec<String>, sep: &str) -> (r: String)
    ensures
        r@ == joined_with(views_of(ls@), sep@),
{
    let mut r = String::new();
    let mut i: usize = 0;
    while i < ls.len()
        invariant
            i <= ls.len(),
            r@ == joined_with(views_of(ls@).take(i as int), sep@),
        decreases ls.len() - i,
    {
        let ghost before = views_of(ls@).take(i as int);
        assert(views_of(ls@).take(i as int + 1).drop_last() =~= before);
        if i > 0 {
            r.append(sep);
        }
        r.append(ls[i].as_str());
        proof {
            let now = views_of(ls@).take(i as int + 1);
            if i == 0 {
                assert(r@ =~= now[0]);
            } else {
                assert(r@ =~= joined_with(before, sep@) + sep@ + now.last());
            }
        }
        i = i + 1;
    }
    assert(views_of(ls@).take(ls.len() as int) =~= views_of(ls@));
    r
}

/// The characters of the text, in order.
pub(crate) fn chars_of(s: &str) -> (r: Vec<char>)
    ensures
        r@ == s@,
{
    broadcast use vstd::string::group_string_axioms;

    let mut it = s.chars();
    let mut r: Vec<char> = Vec::new();
    loop
        invariant
            it.obeys_prophetic_iter_laws(),
            r@ + it.remaining() == s@,
            it.decrease() is Some,
        decreases it.decrease()->Some_0,
    {
        match it.next() {
            Some(c) => {
                r.push(c);
                assert(r@ + it.remaining() =~= s@);
            },
            None => {
                assert(r@ =~= s@);
                return r;
            },
        }
    }
}

/// Relies on `FromIterator<char>` for `String`: the text made of these characters.
#[verifier::external_body]
pub(crate) fn string_of(cs: &[char]) -> (r: String)
    ensures
        r@ == cs@,
{
    cs.iter().collect()
}

/// Splits `s` into its lines at each `'\n'`; a final newline ends the last
/// line rather than starting an empty one. Carriage returns are kept.
pub fn split_lines(s: &str) -> (r: Vec<String>)
    ensures
        views_of(r@) == lines_of(s@),
{
    let cs = chars_of(s);
    let mut out: Vec<String> = Vec::new();
    let mut cur: Vec<char> = Vec::new();
    let n = cs.len();
    let mut i: usize = 0;
    while i < n
        invariant
            cs@ == s@,
            n == cs.len(),
            i <= n,
            newline_pieces(cs@.take(i as int)) == views_of(out@).push(cur@),
        decreases n - i,
    {
        let c = cs[i];
        let ghost prev = cs@.take(i as int);
        assert(cs@.take(i as int + 1).drop_last() == prev);
        assert(cs@.take(i as int + 1).last() == c);
        if c == '\n' {
            let line = string_of(cur.as_slice());
            out.push(line);
            cur = Vec::new();
            assert(views_of(out@) == views_of(out@).drop_last().push(line@));
        } else {
            cur.push(c);
        }
        proof {
            let p = newline_pieces(prev);
            if c == '\n' {
                assert(views_of(out@).push(cur@) =~= p.push(Seq::empty()));
            } else {
                assert(views_of(out@).push(cur@) =~= p.update(p.len() - 1, p.last().push(c)));
            }
        }
        i = i + 1;
    }
    assert(cs@.take(n as int) =~= cs@);
    if cur.len() > 0 {
        let line = string_of(cur.as_slice());
        out.push(line);
        assert(views_of(out@) =~= newline_pieces(s@));
    } else {
        assert(views_of(out@) =~= newline_pieces(s@).drop_last());
    }
    out
}

/// Joins the lines with `'\n'` between each two, with no final newline.
pub fn join_lines(ls: &Vec<String>) -> (r: String)
    ensures
        r@ == joined(views_of(ls@)),
{
    let mut r = String::new();
    let mut i: usize = 0;
    while i < ls.len()
        invariant
            i <= ls.len(),
            r@ == joined(views_of(ls@).take(i as int)),
        decreases ls.len() - i,
    {
        let ghost before = views_of(ls@).take(i as int);
        assert(views_of(ls@).take(i as int + 1).drop_last() =~= before);
        if i > 0 {
            proof {
                reveal_strlit("\n");
            }
            r.append("\n");
        }
        r.append(ls[i].as_str());
        proof {
            let now = views_of(ls@).take(i as int + 1);
            if i == 0 {
                assert(r@ =~= now[0]);
            } else {
                assert(r@ =~= joined(before) + seq!['\n'] + now.last());
            }
        }
        i = i + 1;
    }
    assert(views_of(ls@).take(ls.len() as int) =~= views_of(ls@));
    r
}

} // verus!
