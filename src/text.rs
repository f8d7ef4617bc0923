//! Line-oriented text: splitting a buffer on newlines, joining lines back,
//! and the underlined headers used when rendering records.
use vstd::prelude::*;

verus! {

/// The lines of `s`, split on every newline character. There is always at
/// least one line; a trailing newline yields a final empty line.
pub open spec fn split_lines(s: Seq<char>) -> Seq<Seq<char>>
    decreases s.len(),
{
    if s.len() == 0 {
        seq![Seq::<char>::empty()]
    } else {
        let pre = split_lines(s.drop_last());
        if s.last() == '\n' {
            pre.push(Seq::<char>::empty())
        } else {
            pre.update(pre.len() - 1, pre.last().push(s.last()))
        }
    }
}

/// The parts laid end to end with `sep` between each neighbouring pair.
pub open spec fn join_by(parts: Seq<Seq<char>>, sep: Seq<char>) -> Seq<char>
    decreases parts.len(),
{
    if parts.len() == 0 {
        Seq::<char>::empty()
    } else if parts.len() == 1 {
        parts[0]
    } else {
        join_by(parts.drop_last(), sep) + sep + parts.last()
    }
}

/// The lines joined by newline characters.
pub open spec fn join_lines(lines: Seq<Seq<char>>) -> Seq<char> {
    join_by(lines, seq!['\n'])
}

pub open spec fn has_no_newline(s: Seq<char>) -> bool {
    forall|i: int| 0 <= i < s.len() ==> s[i] != '\n'
}

/// `n` copies of `unit`, one after another.
pub open spec fn repeat(unit: Seq<char>, n: nat) -> Seq<char>
    decreases n,
{
    if n == 0 {
        Seq::<char>::empty()
    } else {
        repeat(unit, (n - 1) as nat) + unit
    }
}

/// The number of characters on the last line of `s`.
pub open spec fn last_line_width(s: Seq<char>) -> nat {
    split_lines(s).last().len()
}

/// `text`, then on a line of its own `underline` repeated once for each
/// character of the last line of `text`.
pub open spec fn header_text(text: Seq<char>, underline: Seq<char>) -> Seq<char> {
    text + seq!['\n'] + repeat(underline, last_line_width(text))
}

pub proof fn lemma_split_lines_shape(s: Seq<char>)
    ensures
        split_lines(s).len() >= 1,
        forall|i: int| 0 <= i < split_lines(s).len() ==> has_no_newline(#[trigger] split_lines(s)[i]),
    decreases s.len(),
{
    if s.len() > 0 {
        lemma_split_lines_shape(s.drop_last());
        let pre = split_lines(s.drop_last());
        if s.last() != '\n' {
            let l = pre.last().push(s.last());
            assert(has_no_newline(l)) by {
                assert(has_no_newline(pre[pre.len() - 1]));
            }
        }
    }
}

/// Text with no newline is a single line.
pub proof fn lemma_split_lines_single(s: Seq<char>)
    requires
        has_no_newline(s),
    ensures
        split_lines(s) == seq![s],
    decreases s.len(),
{
    if s.len() > 0 {
        assert(has_no_newline(s.drop_last()));
        assert(s[s.len() - 1] != '\n');
        lemma_split_lines_single(s.drop_last());
        assert(s.drop_last().push(s.last()) =~= s);
        assert(split_lines(s) =~= seq![s]);
    } else {
        assert(s =~= Seq::<char>::empty());
        assert(split_lines(s) =~= seq![s]);
    }
}

/// A newline in the middle of a text separates the lines before it from those
/// after it.
pub proof fn lemma_split_lines_concat(x: Seq<char>, y: Seq<char>)
    ensures
        split_lines(x + seq!['\n'] + y) == split_lines(x) + split_lines(y),
    decreases y.len(),
{
    let z = x + seq!['\n'] + y;
    if y.len() == 0 {
        assert(z.drop_last() =~= x);
        assert(split_lines(z) =~= split_lines(x) + split_lines(y));
    } else {
        lemma_split_lines_concat(x, y.drop_last());
        lemma_split_lines_shape(y.drop_last());
        assert(z.drop_last() =~= x + seq!['\n'] + y.drop_last());
        let a = split_lines(x);
        let b = split_lines(y.drop_last());
        if y.last() == '\n' {
            assert(split_lines(z) =~= a + split_lines(y));
        } else {
            assert((a + b).update((a + b).len() - 1, (a + b).last().push(y.last())) =~= a + b.update(
                b.len() - 1,
                b.last().push(y.last()),
            ));
            assert(split_lines(z) =~= a + split_lines(y));
        }
    }
}

/// Joining the lines of a text gives the text back.
pub proof fn lemma_join_split(s: Seq<char>)
    ensures
        join_lines(split_lines(s)) == s,
    decreases s.len(),
{
    if s.len() > 0 {
        lemma_join_split(s.drop_last());
        lemma_split_lines_shape(s.drop_last());
        let pre = split_lines(s.drop_last());
        if s.last() == '\n' {
            assert(pre.push(Seq::<char>::empty()).drop_last() =~= pre);
            assert(s.drop_last() + seq!['\n'] + Seq::<char>::empty() =~= s);
        } else {
            let post = pre.update(pre.len() - 1, pre.last().push(s.last()));
            if pre.len() == 1 {
                assert(pre[0] =~= s.drop_last());
                assert(post[0] =~= s);
            } else {
                assert(post.drop_last() =~= pre.drop_last());
                assert(join_by(pre, seq!['\n']) == join_by(pre.drop_last(), seq!['\n']) + seq!['\n'] + pre.last());
                assert(join_by(post, seq!['\n']) == join_by(pre.drop_last(), seq!['\n']) + seq!['\n']
                    + pre.last().push(s.last()));
                assert(s.drop_last().push(s.last()) =~= s);
                assert(join_by(post, seq!['\n']) =~= s);
            }
        }
    }
}

pub proof fn lemma_repeat_chars(c: char, n: nat)
    ensures
        repeat(seq![c], n).len() == n,
        forall|i: int| 0 <= i < n ==> #[trigger] repeat(seq![c], n)[i] == c,
    decreases n,
{
    if n > 0 {
        lemma_repeat_chars(c, (n - 1) as nat);
    }
}

/// What `str::trim_end` leaves of a text: the text without its trailing
/// whitespace.
pub uninterp spec fn trimmed_end(s: Seq<char>) -> Seq<char>;

/// Relies on str::trim_end: the text with trailing whitespace removed, which
/// depends on the characters alone.
#[verifier::external_body]
pub(crate) fn trim_end(s: &str) -> (r: String)
    ensures
        r@ == trimmed_end(s@),
{
    s.trim_end().to_owned()
}

/// The text of each string, in order.
pub open spec fn views(v: Seq<String>) -> Seq<Seq<char>> {
    v.map_values(|s: String| s@)
}

/// `text` with a line of `rule` above and below it, each as wide as the last
/// line of `text`.
pub open spec fn title_text(text: Seq<char>, rule: Seq<char>) -> Seq<char> {
    repeat(rule, last_line_width(text)) + seq!['\n'] + header_text(text, rule)
}

/// Splits `s` on every newline character.
pub fn split_lines_of(s: &str) -> (r: Vec<String>)
    ensures
        views(r@) == split_lines(s@),
{
    let n = s.unicode_len();
    let mut lines: Vec<String> = Vec::new();
    let mut start: usize = 0;
    let mut i: usize = 0;
    proof {
        assert(s@.subrange(0, 0) =~= Seq::<char>::empty());
        assert(views(lines@).push(s@.subrange(0, 0)) =~= split_lines(s@.subrange(0, 0)));
    }
    while i < n
        invariant
            n == s@.len(),
            start <= i <= n,
            split_lines(s@.subrange(0, i as int)) == views(lines@).push(
                s@.subrange(start as int, i as int),
            ),
        decreases n - i,
    {
        let c = s.get_char(i);
        let ghost before = views(lines@);
        proof {
            assert(s@.subrange(0, i + 1).drop_last() =~= s@.subrange(0, i as int));
        }
        if c == '\n' {
            let line = s.substring_char(start, i);
            lines.push(line.to_owned());
            start = i + 1;
            proof {
                assert(views(lines@) =~= before.push(line@));
                assert(s@.subrange(start as int, i + 1) =~= Seq::<char>::empty());
                assert(split_lines(s@.subrange(0, i + 1)) =~= views(lines@).push(
                    s@.subrange(start as int, i + 1),
                ));
            }
        } else {
            proof {
                assert(s@.subrange(start as int, i as int).push(c) =~= s@.subrange(
                    start as int,
                    i + 1,
                ));
                assert(split_lines(s@.subrange(0, i + 1)) =~= views(lines@).push(
                    s@.subrange(start as int, i + 1),
                ));
            }
        }
        i = i + 1;
    }
    let ghost before = views(lines@);
    let last = s.substring_char(start, n);
    lines.push(last.to_owned());
    proof {
        assert(s@.subrange(0, n as int) =~= s@);
        assert(views(lines@) =~= before.push(last@));
    }
    lines
}

/// Joins `lines[from..to]` with `sep` between neighbours.
pub fn join_range(lines: &Vec<String>, from: usize, to: usize, sep: &str) -> (r: String)
    requires
        from <= to <= lines.len(),
    ensures
        r@ == join_by(views(lines@).subrange(from as int, to as int), sep@),
{
    if from == to {
        proof {
            assert(views(lines@).subrange(from as int, to as int).len() == 0);
        }
        return String::new();
    }
    let mut r = lines[from].clone();
    let mut j: usize = from + 1;
    proof {
        assert(views(lines@).subrange(from as int, j as int) =~= seq![lines@[from as int]@]);
    }
    while j < to
        invariant
            from < j <= to <= lines.len(),
            r@ == join_by(views(lines@).subrange(from as int, j as int), sep@),
        decreases to - j,
    {
        r.append(sep);
        r.append(lines[j].as_str());
        proof {
            let part = views(lines@).subrange(from as int, j + 1);
            assert(part.drop_last() =~= views(lines@).subrange(from as int, j as int));
            assert(part.last() == lines@[j as int]@);
        }
        j = j + 1;
    }
    r
}

/// `n` copies of `unit`.
pub fn repeat_str(unit: &str, n: usize) -> (r: String)
    ensures
        r@ == repeat(unit@, n as nat),
{
    let mut r = String::new();
    let mut k: usize = 0;
    while k < n
        invariant
            k <= n,
            r@ == repeat(unit@, k as nat),
        decreases n - k,
    {
        r.append(unit);
        k = k + 1;
    }
    r
}

/// The number of characters on the last line of `text`.
pub fn last_line_len(text: &str) -> (r: usize)
    ensures
        r == last_line_width(text@),
{
    let lines = split_lines_of(text);
    proof {
        lemma_split_lines_shape(text@);
    }
    lines[lines.len() - 1].as_str().unicode_len()
}

/// `text` underlined with a line made of `underline`, as wide as the last line
/// of `text`.
pub fn header(text: &str, underline: &str) -> (r: String)
    ensures
        r@ == header_text(text@, underline@),
{
    let width = last_line_len(text);
    let mut r = text.to_owned();
    r.append("\n");
    r.append(repeat_str(underline, width).as_str());
    proof {
        reveal_strlit("\n");
    }
    r
}

/// `text` between two rules made of `rule`, each as wide as its last line.
pub fn title(text: &str, rule: &str) -> (r: String)
    ensures
        r@ == title_text(text@, rule@),
{
    let width = last_line_len(text);
    let mut r = repeat_str(rule, width);
    r.append("\n");
    r.append(header(text, rule).as_str());
    proof {
        reveal_strlit("\n");
    }
    r
}

} // verus!
