//! Normalization of raw extracted or AI-returned text: control characters
//! other than newline and tab are removed, runs of three or more newlines
//! collapse to exactly two, and the result is trimmed.

use vstd::prelude::*;
use crate::text::{
    is_control_char, is_space_char, trim_spec, char_is_control, char_is_space, chars_of,
    string_from_chars, trim_chars, split_nl, lemma_trim_is_subrange, lemma_trim_idempotent,
};

verus! {

/// A character survives normalization when it is not a control character,
/// or is one of the two accepted ones, newline and tab.
pub open spec fn keeps_char(c: char) -> bool {
    !is_control_char(c) || c == '\n' || c == '\t'
}

/// `s` without its unwanted control characters.
pub open spec fn strip_controls(s: Seq<char>) -> Seq<char>
    decreases s.len(),
{
    if s.len() == 0 {
        Seq::empty()
    } else if keeps_char(s.last()) {
        strip_controls(s.drop_last()).push(s.last())
    } else {
        strip_controls(s.drop_last())
    }
}

/// The last three characters of `s` exist and are all newlines.
pub open spec fn nl_triple_at_end(s: Seq<char>) -> bool {
    s.len() >= 3 && s[s.len() - 1] == '\n' && s[s.len() - 2] == '\n' && s[s.len() - 3] == '\n'
}

/// `s` with every newline dropped that follows two further newlines: each
/// run of three or more newlines is left as exactly two.
pub open spec fn collapse_newlines(s: Seq<char>) -> Seq<char>
    decreases s.len(),
{
    if s.len() == 0 {
        Seq::empty()
    } else if nl_triple_at_end(s) {
        collapse_newlines(s.drop_last())
    } else {
        collapse_newlines(s.drop_last()).push(s.last())
    }
}

/// No three consecutive newlines occur anywhere in `s`.
pub open spec fn no_triple_newline(s: Seq<char>) -> bool {
    forall|i: int|
        0 <= i && i + 2 < s.len() ==> !((#[trigger] s[i]) == '\n' && s[i + 1] == '\n' && s[i + 2]
            == '\n')
}

/// What `normalize_text` returns: control characters removed, newline runs
/// bounded, ends trimmed.
pub open spec fn normalize_spec(s: Seq<char>) -> Seq<char> {
    trim_spec(collapse_newlines(strip_controls(s)))
}

/// The length of the run of newlines at the end of `s`.
pub open spec fn nl_tail(s: Seq<char>) -> nat
    decreases s.len(),
{
    if s.len() == 0 || s.last() != '\n' {
        0
    } else {
        1 + nl_tail(s.drop_last())
    }
}

proof fn lemma_nl_tail_chars(s: Seq<char>)
    ensures
        nl_tail(s) >= 1 ==> s.len() >= 1 && s.last() == '\n',
        nl_tail(s) >= 2 ==> s.len() >= 2 && s[s.len() - 2] == '\n',
{
    if s.len() > 0 && s.last() == '\n' {
        if nl_tail(s) >= 2 {
            assert(nl_tail(s.drop_last()) >= 1);
            assert(s.drop_last().last() == s[s.len() - 2]);
        }
    }
}

proof fn lemma_nl_tail_two(x: Seq<char>)
    requires
        x.len() >= 2,
        x[x.len() - 1] == '\n',
        x[x.len() - 2] == '\n',
    ensures
        nl_tail(x) >= 2,
{
    assert(x.drop_last().last() == '\n');
    assert(nl_tail(x.drop_last()) >= 1);
    assert(nl_tail(x) == 1 + nl_tail(x.drop_last()));
}

proof fn lemma_collapse_tail(s: Seq<char>)
    ensures
        nl_tail(collapse_newlines(s)) == if nl_tail(s) >= 2 {
            2nat
        } else {
            nl_tail(s)
        },
    decreases s.len(),
{
    if s.len() == 0 {
    } else {
        let t = s.drop_last();
        lemma_collapse_tail(t);
        if nl_triple_at_end(s) {
            assert(s.last() == '\n');
            assert(t.last() == s[s.len() - 2]);
            assert(t[t.len() - 2] == s[s.len() - 3]);
            lemma_nl_tail_two(t);
            assert(nl_tail(s) == 1 + nl_tail(t));
        } else if s.last() != '\n' {
            assert(nl_tail(collapse_newlines(t).push(s.last())) == 0);
        } else {
            // at most two trailing newlines in s
            lemma_nl_tail_chars(t);
            if nl_tail(t) >= 2 {
                assert(nl_triple_at_end(s));
            }
            let c = collapse_newlines(t);
            assert(collapse_newlines(s) == c.push('\n'));
            assert(c.push('\n').drop_last() =~= c);
            assert(nl_tail(c.push('\n')) == 1 + nl_tail(c));
        }
    }
}

/// Collapsing leaves no run of three newlines anywhere.
pub proof fn lemma_collapse_no_triple(s: Seq<char>)
    ensures
        no_triple_newline(collapse_newlines(s)),
    decreases s.len(),
{
    if s.len() == 0 {
    } else {
        let t = s.drop_last();
        lemma_collapse_no_triple(t);
        let c = collapse_newlines(t);
        if nl_triple_at_end(s) {
        } else {
            let r = c.push(s.last());
            assert forall|i: int|
                0 <= i && i + 2 < r.len() implies !((#[trigger] r[i]) == '\n' && r[i + 1] == '\n'
                && r[i + 2] == '\n') by {
                if i + 2 < c.len() {
                    assert(!(c[i] == '\n' && c[i + 1] == '\n' && c[i + 2] == '\n'));
                } else {
                    // the triple would end at the pushed character
                    if r[i] == '\n' && r[i + 1] == '\n' && r[i + 2] == '\n' {
                        assert(s.last() == '\n');
                        assert(c[c.len() - 1] == '\n' && c[c.len() - 2] == '\n');
                        lemma_nl_tail_two(c);
                        lemma_collapse_tail(t);
                        assert(nl_tail(t) >= 2);
                        lemma_nl_tail_chars(t);
                        assert(nl_triple_at_end(s));
                    }
                }
            }
        }
    }
}

/// Collapsing a string with no triple newline run changes nothing.
pub proof fn lemma_collapse_id(s: Seq<char>)
    requires
        no_triple_newline(s),
    ensures
        collapse_newlines(s) == s,
    decreases s.len(),
{
    if s.len() == 0 {
        assert(collapse_newlines(s) =~= s);
    } else {
        let t = s.drop_last();
        assert(no_triple_newline(t)) by {
            assert(forall|i: int|
                0 <= i && i + 2 < t.len() ==> (#[trigger] t[i]) == s[i] && t[i + 1] == s[i + 1]
                    && t[i + 2] == s[i + 2]);
        }
        lemma_collapse_id(t);
        assert(!nl_triple_at_end(s)) by {
            if nl_triple_at_end(s) {
                let i = s.len() - 3;
                assert(s[i] == '\n' && s[i + 1] == '\n' && s[i + 2] == '\n');
            }
        }
        assert(collapse_newlines(s) =~= s);
    }
}

/// Every character of `s` survives normalization's control filter.
pub open spec fn all_kept(s: Seq<char>) -> bool {
    forall|i: int| 0 <= i < s.len() ==> keeps_char(s[i])
}

pub proof fn lemma_strip_kept(s: Seq<char>)
    ensures
        all_kept(strip_controls(s)),
    decreases s.len(),
{
    if s.len() > 0 {
        lemma_strip_kept(s.drop_last());
    }
}

pub proof fn lemma_strip_id(s: Seq<char>)
    requires
        all_kept(s),
    ensures
        strip_controls(s) == s,
    decreases s.len(),
{
    if s.len() == 0 {
        assert(strip_controls(s) =~= s);
    } else {
        let t = s.drop_last();
        assert(all_kept(t));
        lemma_strip_id(t);
        assert(keeps_char(s.last()));
        assert(strip_controls(s) =~= s);
    }
}

pub proof fn lemma_collapse_kept(s: Seq<char>)
    requires
        all_kept(s),
    ensures
        all_kept(collapse_newlines(s)),
    decreases s.len(),
{
    if s.len() > 0 {
        let t = s.drop_last();
        assert(all_kept(t));
        lemma_collapse_kept(t);
        if !nl_triple_at_end(s) {
            assert(keeps_char(s.last()));
        }
    }
}

proof fn lemma_subrange_props(s: Seq<char>, a: int, b: int)
    requires
        0 <= a <= b <= s.len(),
    ensures
        all_kept(s) ==> all_kept(s.subrange(a, b)),
        no_triple_newline(s) ==> no_triple_newline(s.subrange(a, b)),
{
    let t = s.subrange(a, b);
    assert(forall|i: int| 0 <= i < t.len() ==> t[i] == s[a + i]);
}

/// The normalizer's two stable shapes: its output has no triple newline run
/// and normalizing a second time changes nothing.
pub proof fn lemma_normalize_idempotent(s: Seq<char>)
    ensures
        no_triple_newline(normalize_spec(s)),
        normalize_spec(normalize_spec(s)) == normalize_spec(s),
{
    let u = strip_controls(s);
    let v = collapse_newlines(u);
    let w = trim_spec(v);
    lemma_strip_kept(s);
    lemma_collapse_kept(u);
    lemma_collapse_no_triple(u);
    lemma_trim_is_subrange(v);
    let (a, b) = choose|a: int, b: int|
        0 <= a <= b <= v.len() && trim_spec(v) == v.subrange(a, b);
    lemma_subrange_props(v, a, b);
    assert(all_kept(w));
    assert(no_triple_newline(w));
    lemma_strip_id(w);
    lemma_collapse_id(w);
    lemma_trim_idempotent(v);
}

/// Removes every control character except newline and tab, collapses runs
/// of three or more newlines to exactly two, and trims the ends: the text
/// normalizer. Total over all inputs; the empty string maps to itself.
pub fn normalize_text(text: &str) -> (r: String)
    ensures
        r@ == normalize_spec(text@),
        no_triple_newline(r@),
{
    let cs = chars_of(text);
    let n = cs.len();
    let mut kept: Vec<char> = Vec::new();
    let mut i: usize = 0;
    while i < n
        invariant
            n == cs@.len(),
            i <= n,
            kept@ == strip_controls(cs@.take(i as int)),
        decreases n - i,
    {
        let c = cs[i];
        proof {
            assert(cs@.take(i + 1 as int).drop_last() =~= cs@.take(i as int));
            assert(cs@.take(i + 1 as int).last() == c);
        }
        if !char_is_control(c) || c == '\n' || c == '\t' {
            kept.push(c);
        }
        i += 1;
    }
    proof {
        assert(cs@.take(n as int) =~= cs@);
    }
    let m = kept.len();
    let mut col: Vec<char> = Vec::new();
    let mut j: usize = 0;
    while j < m
        invariant
            m == kept@.len(),
            j <= m,
            col@ == collapse_newlines(kept@.take(j as int)),
        decreases m - j,
    {
        let c = kept[j];
        proof {
            assert(kept@.take(j + 1 as int).drop_last() =~= kept@.take(j as int));
            assert(kept@.take(j + 1 as int).last() == c);
        }
        if !(j >= 2 && c == '\n' && kept[j - 1] == '\n' && kept[j - 2] == '\n') {
            col.push(c);
        }
        j += 1;
    }
    proof {
        assert(kept@.take(m as int) =~= kept@);
    }
    let trimmed = trim_chars(&col);
    proof {
        lemma_collapse_no_triple(kept@);
        lemma_trim_is_subrange(col@);
        let (a, b) = choose|a: int, b: int|
            0 <= a <= b <= col@.len() && trim_spec(col@) == col@.subrange(a, b);
        lemma_subrange_props(col@, a, b);
    }
    string_from_chars(&trimmed)
}

/// A decimal digit.
pub open spec fn is_digit_char(c: char) -> bool {
    0x30 <= (c as u32) && (c as u32) <= 0x39
}

/// A character that can open a heading: an ASCII capital, a Latin-1
/// capital letter, or a nonzero digit.
pub open spec fn header_start_char(c: char) -> bool {
    ||| (0x41 <= (c as u32) && (c as u32) <= 0x5a)
    ||| (0xc0 <= (c as u32) && (c as u32) <= 0xde)
    ||| (0x31 <= (c as u32) && (c as u32) <= 0x39)
}

/// A bullet list item: optional leading whitespace, one of `-`, `*`, `•`,
/// then at least one whitespace character.
pub open spec fn is_bullet_at(l: Seq<char>, j: int) -> bool {
    &&& 0 <= j
    &&& j + 1 < l.len()
    &&& (forall|i: int| 0 <= i < j ==> is_space_char(#[trigger] l[i]))
    &&& (l[j] == '-' || l[j] == '*' || l[j] == '•')
    &&& is_space_char(l[j + 1])
}

/// A numbered list item: optional leading whitespace, digits, a period,
/// then at least one whitespace character.
pub open spec fn is_numbered_at(l: Seq<char>, j: int, m: int) -> bool {
    &&& 0 <= j < m
    &&& m + 1 < l.len()
    &&& (forall|i: int| 0 <= i < j ==> is_space_char(#[trigger] l[i]))
    &&& (forall|i: int| j <= i < m ==> is_digit_char(#[trigger] l[i]))
    &&& l[m] == '.'
    &&& is_space_char(l[m + 1])
}

/// The line opens a list item, bulleted or numbered.
pub open spec fn is_list_line(l: Seq<char>) -> bool {
    (exists|j: int| is_bullet_at(l, j)) || (exists|j: int, m: int| is_numbered_at(l, j, m))
}

/// A trimmed line that reads as a heading: 2 to 51 characters, a capital
/// or digit first, no closing period, and not a list item.
pub open spec fn is_header_line(t: Seq<char>) -> bool {
    &&& 2 <= t.len() <= 51
    &&& header_start_char(t[0])
    &&& t.last() != '.'
    &&& !is_list_line(t)
}

fn char_is_digit(c: char) -> (r: bool)
    ensures
        r == is_digit_char(c),
{
    let u = c as u32;
    0x30 <= u && u <= 0x39
}

/// Decides whether the line opens a list item.
fn list_check(l: &Vec<char>) -> (r: bool)
    ensures
        r == is_list_line(l@),
{
    let n = l.len();
    let mut j: usize = 0;
    while j < n && char_is_space(l[j])
        invariant
            n == l@.len(),
            j <= n,
            forall|i: int| 0 <= i < j ==> is_space_char(#[trigger] l@[i]),
        decreases n - j,
    {
        j += 1;
    }
    if j >= n {
        // all whitespace: no marker anywhere
        proof {
            assert forall|k: int| !is_bullet_at(l@, k) by {
                if is_bullet_at(l@, k) {
                    assert(is_space_char(l@[k]));
                }
            }
            assert forall|k: int, m: int| !is_numbered_at(l@, k, m) by {
                if is_numbered_at(l@, k, m) {
                    assert(is_space_char(l@[m]));
                }
            }
        }
        return false;
    }
    let c = l[j];
    if (c == '-' || c == '*' || c == '•') && j + 1 < n && char_is_space(l[j + 1]) {
        proof {
            assert(is_bullet_at(l@, j as int));
        }
        return true;
    }
    // try a digit run ending in a period
    let mut m: usize = j;
    while m < n && char_is_digit(l[m])
        invariant
            n == l@.len(),
            j <= m <= n,
            forall|i: int| j <= i < m ==> is_digit_char(#[trigger] l@[i]),
        decreases n - m,
    {
        m += 1;
    }
    if m > j && n - m > 1 && l[m] == '.' && char_is_space(l[m + 1]) {
        proof {
            assert(is_numbered_at(l@, j as int, m as int));
        }
        return true;
    }
    proof {
        // l[j] is the first non-space character and opens no marker;
        // a bullet would have to stand at j, a digit run begin at j and
        // end exactly at the first non-digit.
        assert forall|k: int| !is_bullet_at(l@, k) by {
            if is_bullet_at(l@, k) {
                if k < j {
                    assert(is_space_char(l@[k]));
                } else if k > j {
                    assert(is_space_char(l@[j as int]));
                }
            }
        }
        assert forall|k: int, mm: int| !is_numbered_at(l@, k, mm) by {
            if is_numbered_at(l@, k, mm) {
                if k < j {
                    assert(is_digit_char(l@[k]) || l@[k] == '.');
                    assert(is_space_char(l@[k]));
                } else if k > j {
                    assert(is_space_char(l@[j as int]));
                } else {
                    // k == j: the digit run from j ends at the first
                    // non-digit, so mm can only be m
                    if mm < m {
                        assert(is_digit_char(l@[mm]));
                    } else if mm > m {
                        if m < l@.len() {
                            assert(is_digit_char(l@[m as int]));
                        }
                    }
                }
            }
        }
    }
    false
}

/// Decides whether the trimmed line reads as a heading.
fn header_check(t: &Vec<char>) -> (r: bool)
    ensures
        r == is_header_line(t@),
{
    let n = t.len();
    if n < 2 || n > 51 {
        return false;
    }
    let c = t[0];
    let u = c as u32;
    let starts = (0x41 <= u && u <= 0x5a) || (0xc0 <= u && u <= 0xde) || (0x31 <= u && u <= 0x39);
    if !starts {
        return false;
    }
    if t[n - 1] == '.' {
        return false;
    }
    !list_check(t)
}

/// What one line contributes to the Markdown rendering, given whether a
/// blank line (or the start of the text) precedes it.
pub open spec fn md_piece(l: Seq<char>, prev_blank: bool) -> Seq<char> {
    let t = trim_spec(l);
    if t.len() == 0 {
        seq!['\n']
    } else if prev_blank && is_header_line(t) {
        "## "@ + t + seq!['\n']
    } else {
        l + seq!['\n']
    }
}

/// The Markdown rendering of the lines, left to right.
pub open spec fn md_body(ls: Seq<Seq<char>>, prev_blank: bool) -> Seq<char>
    decreases ls.len(),
{
    if ls.len() == 0 {
        Seq::empty()
    } else {
        md_piece(ls[0], prev_blank) + md_body(ls.skip(1), trim_spec(ls[0]).len() == 0)
    }
}

/// What `to_markdown` returns: each line rendered in turn — headings
/// prefixed, list items and paragraphs kept — and the whole trimmed.
pub open spec fn to_markdown_spec(s: Seq<char>) -> Seq<char> {
    trim_spec(md_body(split_nl(s), true))
}

/// Renders rough text as Markdown: a short line after a blank line that
/// starts with a capital or digit and does not end in a period becomes a
/// heading; list items and ordinary paragraphs pass through.
pub fn to_markdown(text: &str) -> (r: String)
    ensures
        r@ == to_markdown_spec(text@),
{
    let cs = chars_of(text);
    let n = cs.len();
    // split into lines
    let mut lines: Vec<Vec<char>> = Vec::new();
    let mut cur: Vec<char> = Vec::new();
    let mut i: usize = 0;
    proof {
        assert(cs@.take(0) =~= Seq::<char>::empty());
        assert(lines@.map_values(|v: Vec<char>| v@).push(cur@) =~= split_nl(cs@.take(0)));
    }
    while i < n
        invariant
            n == cs@.len(),
            i <= n,
            lines@.map_values(|v: Vec<char>| v@).push(cur@) == split_nl(cs@.take(i as int)),
        decreases n - i,
    {
        let c = cs[i];
        proof {
            assert(cs@.take(i + 1 as int).drop_last() =~= cs@.take(i as int));
            assert(cs@.take(i + 1 as int).last() == c);
        }
        if c == '\n' {
            lines.push(cur);
            cur = Vec::new();
            proof {
                assert(lines@.map_values(|v: Vec<char>| v@).push(cur@) =~= split_nl(
                    cs@.take(i + 1 as int),
                ));
            }
        } else {
            cur.push(c);
            proof {
                let sp = split_nl(cs@.take(i as int));
                assert(lines@.map_values(|v: Vec<char>| v@).push(cur@) =~= sp.update(
                    sp.len() - 1,
                    sp.last().push(c),
                ));
            }
        }
        i += 1;
    }
    lines.push(cur);
    proof {
        assert(cs@.take(n as int) =~= cs@);
        assert(lines@.map_values(|v: Vec<char>| v@) =~= split_nl(cs@));
    }
    // render line by line
    let ls = lines;
    let total = ls.len();
    let mut out: Vec<char> = Vec::new();
    let mut prev_blank = true;
    let mut k: usize = 0;
    proof {
        let vs = ls@.map_values(|v: Vec<char>| v@);
        assert(vs.skip(0) =~= vs);
        assert(md_body(vs, true) =~= out@ + md_body(vs.skip(0), true));
    }
    while k < total
        invariant
            total == ls@.len(),
            k <= total,
            md_body(ls@.map_values(|v: Vec<char>| v@), true) == out@ + md_body(
                ls@.map_values(|v: Vec<char>| v@).skip(k as int),
                prev_blank,
            ),
        decreases total - k,
    {
        let ghost vs = ls@.map_values(|v: Vec<char>| v@);
        proof {
            assert(vs.skip(k as int)[0] == vs[k as int]);
            assert(vs.skip(k as int).skip(1) =~= vs.skip(k + 1 as int));
        }
        let ghost out0 = out@;
        let ghost pb0 = prev_blank;
        let line = &ls[k];
        let t = trim_chars(line);
        if t.len() == 0 {
            out.push('\n');
            proof {
                assert(out@ =~= out0 + md_piece(vs[k as int], pb0));
            }
            prev_blank = true;
        } else {
            if prev_blank && header_check(&t) {
                out.push('#');
                out.push('#');
                out.push(' ');
                out.extend_from_slice(t.as_slice());
                out.push('\n');
                proof {
                    reveal_strlit("## ");
                    assert("## "@ =~= seq!['#', '#', ' ']);
                    assert(md_piece(vs[k as int], pb0) == "## "@ + trim_spec(vs[k as int]) + seq![
                        '\n',
                    ]);
                    assert(out@ =~= out0 + md_piece(vs[k as int], pb0));
                }
            } else {
                out.extend_from_slice(line.as_slice());
                out.push('\n');
                proof {
                    assert(md_piece(vs[k as int], pb0) == vs[k as int] + seq!['\n']);
                    assert(out@ =~= out0 + md_piece(vs[k as int], pb0));
                }
            }
            prev_blank = false;
        }
        proof {
            assert(md_body(vs.skip(k as int), pb0) == md_piece(vs[k as int], pb0) + md_body(
                vs.skip(k + 1 as int),
                trim_spec(vs[k as int]).len() == 0,
            ));
            assert(out0 + (md_piece(vs[k as int], pb0) + md_body(
                vs.skip(k + 1 as int),
                prev_blank,
            )) =~= out@ + md_body(vs.skip(k + 1 as int), prev_blank));
        }
        k += 1;
    }
    proof {
        let vs = ls@.map_values(|v: Vec<char>| v@);
        assert(vs.skip(total as int) =~= Seq::<Seq<char>>::empty());
        assert(md_body(vs, true) =~= out@);
    }
    let trimmed = trim_chars(&out);
    string_from_chars(&trimmed)
}

} // verus!
