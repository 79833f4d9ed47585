//! Text-block indentation, as used when nesting directive lines inside a
//! profile block.

use vstd::prelude::*;
use vstd::string::StrSliceExecFns;
use vstd::string::StringExecFns;

verus! {

/// The indentation prefix for `level` levels: four space characters per level.
pub open spec fn spec_pad(level: nat) -> Seq<char>
    decreases level,
{
    if level == 0 {
        Seq::<char>::empty()
    } else {
        spec_pad((level - 1) as nat) + "    "@
    }
}

/// Index of the first line feed in `s`, or `s.len()` when there is none.
pub open spec fn spec_line_break(s: Seq<char>) -> int
    decreases s.len(),
{
    if s.len() == 0 {
        0
    } else if s[0] == '\n' {
        0
    } else {
        1 + spec_line_break(s.drop_first())
    }
}

/// A line as it is yielded when splitting: a carriage return that stood
/// directly before the terminating line feed is stripped.
pub open spec fn spec_strip_cr(line: Seq<char>) -> Seq<char> {
    if line.len() > 0 && line.last() == '\r' {
        line.drop_last()
    } else {
        line
    }
}

/// The lines of a text, split at line feeds. A final line feed closes the
/// last line rather than opening an empty one, so a text with and without a
/// final line feed has the same lines.
pub open spec fn spec_lines(s: Seq<char>) -> Seq<Seq<char>>
    decreases s.len(),
    via spec_lines_decreases
{
    if s.len() == 0 {
        seq![]
    } else {
        let i = spec_line_break(s);
        if i == s.len() {
            seq![s]
        } else {
            seq![spec_strip_cr(s.take(i))] + spec_lines(s.skip(i + 1))
        }
    }
}

#[via_fn]
proof fn spec_lines_decreases(s: Seq<char>) {
    if s.len() != 0 {
        lemma_line_break_bounds(s);
    }
}

/// The given lines, each prefixed by the pad for `level`, joined by line
/// feeds.
pub open spec fn spec_join_indented(lines: Seq<Seq<char>>, level: nat) -> Seq<char>
    decreases lines.len(),
{
    if lines.len() == 0 {
        Seq::<char>::empty()
    } else if lines.len() == 1 {
        spec_pad(level) + lines[0]
    } else {
        spec_pad(level) + lines[0] + "\n"@ + spec_join_indented(lines.drop_first(), level)
    }
}

/// Each line of a text, indented by `level` levels of four spaces.
pub open spec fn spec_indent(s: Seq<char>, level: nat) -> Seq<char> {
    spec_join_indented(spec_lines(s), level)
}

/// The first line break is within the text, marks a line feed, and nothing
/// before it is a line feed.
proof fn lemma_line_break_bounds(s: Seq<char>)
    ensures
        0 <= spec_line_break(s) <= s.len(),
        spec_line_break(s) < s.len() ==> s[spec_line_break(s)] == '\n',
        forall|k: int| 0 <= k < spec_line_break(s) ==> s[k] != '\n',
    decreases s.len(),
{
    if s.len() == 0 {
    } else if s[0] == '\n' {
    } else {
        let rest = s.drop_first();
        lemma_line_break_bounds(rest);
        let b = spec_line_break(s);
        assert(b == 1 + spec_line_break(rest));
        if b < s.len() {
            assert(s[b] == rest[b - 1]);
        }
        assert forall|k: int| 0 <= k < b implies s[k] != '\n' by {
            if k > 0 {
                assert(s[k] == rest[k - 1]);
            }
        }
    }
}

/// Append the pad for `level` to a text.
fn append_pad(r: &mut String, level: usize)
    ensures
        final(r)@ == old(r)@ + spec_pad(level as nat),
{
    proof {
        assert(old(r)@ + spec_pad(0) =~= old(r)@);
    }
    let mut k: usize = 0;
    while k < level
        invariant
            k <= level,
            r@ == old(r)@ + spec_pad(k as nat),
        decreases level - k,
    {
        r.append("    ");
        proof {
            assert(old(r)@ + spec_pad((k + 1) as nat) =~= r@);
        }
        k += 1;
    }
}

/// Indent each line of a text by the given number of levels, one level being
/// four spaces.
pub fn indent(s: &str, level: usize) -> (r: String)
    ensures
        r@ == spec_indent(s@, level as nat),
{
    let n: usize = s.unicode_len();
    let mut r = String::new();
    proof {
        if n > 0 {
            assert(s@.skip(0) =~= s@);
            assert(r@ + spec_join_indented(spec_lines(s@), level as nat) =~= spec_join_indented(
                spec_lines(s@),
                level as nat,
            ));
        } else {
            assert(s@ =~= Seq::<char>::empty());
        }
    }
    let mut start: usize = 0;
    while start < n
        invariant
            n == s@.len(),
            start <= n,
            start < n ==> spec_indent(s@, level as nat) == r@ + spec_join_indented(
                spec_lines(s@.skip(start as int)),
                level as nat,
            ),
            start == n ==> r@ == spec_indent(s@, level as nat),
        decreases n - start,
    {
        let ghost t = s@.skip(start as int);
        let ghost r0 = r@;
        let mut j: usize = start;
        while j < n && s.get_char(j) != '\n'
            invariant
                n == s@.len(),
                start <= j <= n,
                forall|k: int| start <= k < j ==> s@[k] != '\n',
            decreases n - j,
        {
            j += 1;
        }
        proof {
            lemma_line_break_bounds(t);
            assert(t.len() == n - start);
            assert forall|k: int| 0 <= k < t.len() implies t[k] == s@[start + k] by {}
            let b = spec_line_break(t);
            if b < j - start {
                assert(t[b] == '\n');
                assert(s@[start + b] != '\n');
                assert(false);
            }
            if b > j - start {
                assert(j < n);
                assert(s@[j as int] == '\n');
                assert(t[j - start] == '\n');
                assert(t[j - start] != '\n');
                assert(false);
            }
            assert(b == j - start);
        }
        append_pad(&mut r, level);
        let line_end: usize = if j < n && j > start && s.get_char(j - 1) == '\r' {
            j - 1
        } else {
            j
        };
        let line = s.substring_char(start, line_end);
        r.append(line);
        proof {
            let brk = spec_line_break(t);
            assert(t.take(brk) =~= s@.subrange(start as int, j as int));
            if j < n {
                // the first line of the remainder, carriage return stripped
                assert(line@ == spec_strip_cr(t.take(brk))) by {
                    if j > start && s@[j - 1] == '\r' {
                        assert(t.take(brk).last() == '\r');
                        assert(line@ =~= t.take(brk).drop_last());
                    } else {
                        if t.take(brk).len() > 0 && t.take(brk).last() == '\r' {
                            assert(s@[j - 1] == t.take(brk).last());
                            assert(false);
                        }
                        assert(line@ =~= t.take(brk));
                    }
                };
            } else {
                assert(line@ =~= t);
            }
        }
        if j < n {
            if j + 1 < n {
                r.append("\n");
            }
            proof {
                let lvl = level as nat;
                let brk = spec_line_break(t);
                let l0 = spec_strip_cr(t.take(brk));
                let rest = t.skip(brk + 1);
                assert(spec_lines(t) == seq![l0] + spec_lines(rest));
                assert(rest =~= s@.skip(j + 1));
                if j + 1 < n {
                    assert(rest.len() > 0);
                    assert(spec_lines(rest).len() >= 1);
                    assert(spec_lines(t).len() >= 2);
                    assert(spec_lines(t)[0] == l0);
                    assert(spec_lines(t).drop_first() =~= spec_lines(rest));
                    assert(spec_join_indented(spec_lines(t), lvl) == spec_pad(lvl) + l0 + "\n"@
                        + spec_join_indented(spec_lines(rest), lvl));
                    assert(spec_indent(s@, lvl) =~= r@ + spec_join_indented(
                        spec_lines(s@.skip(j + 1)),
                        lvl,
                    ));
                } else {
                    assert(rest.len() == 0);
                    assert(spec_lines(rest) =~= Seq::<Seq<char>>::empty());
                    assert(spec_lines(t) =~= seq![l0]);
                    assert(spec_join_indented(spec_lines(t), lvl) == spec_pad(lvl) + l0);
                    assert(r@ =~= r0 + (spec_pad(lvl) + l0));
                    assert(r@ == spec_indent(s@, lvl));
                }
            }
            start = j + 1;
        } else {
            proof {
                let lvl = level as nat;
                assert(spec_line_break(t) == t.len());
                assert(spec_lines(t) == seq![t]);
                assert(spec_join_indented(spec_lines(t), lvl) == spec_pad(lvl) + t);
                assert(r@ =~= r0 + (spec_pad(lvl) + t));
                assert(r@ == spec_indent(s@, lvl));
            }
            start = n;
        }
    }
    r
}

} // verus!
