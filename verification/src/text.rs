//! Character classes and elementary string operations shared by the
//! normalizer and the line cleaners: conversion between `String` and
//! `Vec<char>`, and whitespace trimming.

use vstd::prelude::*;
use vstd::string::*;

verus! {

/// The characters of Unicode general category Cc, exactly the set that
/// `char::is_control` recognizes: the C0 range, DEL, and the C1 range.
pub open spec fn is_control_char(c: char) -> bool {
    (c as u32) < 0x20 || (0x7f <= (c as u32) && (c as u32) <= 0x9f)
}

/// The characters with the Unicode White_Space property, exactly the set
/// that `char::is_whitespace` recognizes.
pub open spec fn is_space_char(c: char) -> bool {
    ||| (0x09 <= (c as u32) && (c as u32) <= 0x0d)
    ||| (c as u32) == 0x20
    ||| (c as u32) == 0x85
    ||| (c as u32) == 0xa0
    ||| (c as u32) == 0x1680
    ||| (0x2000 <= (c as u32) && (c as u32) <= 0x200a)
    ||| (c as u32) == 0x2028
    ||| (c as u32) == 0x2029
    ||| (c as u32) == 0x202f
    ||| (c as u32) == 0x205f
    ||| (c as u32) == 0x3000
}

pub fn char_is_control(c: char) -> (r: bool)
    ensures
        r == is_control_char(c),
{
    let u = c as u32;
    u < 0x20 || (0x7f <= u && u <= 0x9f)
}

pub fn char_is_space(c: char) -> (r: bool)
    ensures
        r == is_space_char(c),
{
    let u = c as u32;
    (0x09 <= u && u <= 0x0d) || u == 0x20 || u == 0x85 || u == 0xa0 || u == 0x1680 || (0x2000
        <= u && u <= 0x200a) || u == 0x2028 || u == 0x2029 || u == 0x202f || u == 0x205f || u
        == 0x3000
}

/// Relies on `String::push`, which the standard library documents as
/// appending the given character to the end of the string.
pub assume_specification[ String::push ](s: &mut String, c: char)
    ensures
        final(s)@ == old(s)@.push(c),
;

/// The characters of a string slice, in order.
pub fn chars_of(s: &str) -> (r: Vec<char>)
    ensures
        r@ == s@,
{
    let n = s.unicode_len();
    let mut r: Vec<char> = Vec::new();
    let mut i: usize = 0;
    while i < n
        invariant
            n == s@.len(),
            i <= n,
            r@ == s@.subrange(0, i as int),
        decreases n - i,
    {
        r.push(s.get_char(i));
        proof {
            assert(r@ =~= s@.subrange(0, i + 1 as int));
        }
        i += 1;
    }
    proof {
        assert(r@ =~= s@);
    }
    r
}

/// The string holding exactly the given characters.
pub fn string_from_chars(v: &Vec<char>) -> (r: String)
    ensures
        r@ == v@,
{
    let mut r = String::new();
    let mut i: usize = 0;
    while i < v.len()
        invariant
            i <= v@.len(),
            r@ == v@.subrange(0, i as int),
        decreases v@.len() - i,
    {
        r.push(v[i]);
        proof {
            assert(r@ =~= v@.subrange(0, i + 1 as int));
        }
        i += 1;
    }
    proof {
        assert(r@ =~= v@);
    }
    r
}

/// What remains of `s` once every leading whitespace character is removed.
pub open spec fn trim_start_spec(s: Seq<char>) -> Seq<char>
    decreases s.len(),
{
    if s.len() == 0 {
        s
    } else if is_space_char(s[0]) {
        trim_start_spec(s.skip(1))
    } else {
        s
    }
}

/// What remains of `s` once every trailing whitespace character is removed.
pub open spec fn trim_end_spec(s: Seq<char>) -> Seq<char>
    decreases s.len(),
{
    if s.len() == 0 {
        s
    } else if is_space_char(s.last()) {
        trim_end_spec(s.drop_last())
    } else {
        s
    }
}

/// What remains of `s` once leading and trailing whitespace is removed:
/// the meaning of `str::trim`.
pub open spec fn trim_spec(s: Seq<char>) -> Seq<char> {
    trim_end_spec(trim_start_spec(s))
}

pub proof fn lemma_trim_start_skip(s: Seq<char>, k: int)
    requires
        0 <= k <= s.len(),
        forall|i: int| 0 <= i < k ==> is_space_char(s[i]),
        k < s.len() ==> !is_space_char(s[k]),
    ensures
        trim_start_spec(s) == s.skip(k),
    decreases k,
{
    if k == 0 {
        if s.len() > 0 {
            assert(!is_space_char(s[0]));
        }
        assert(s.skip(0) =~= s);
    } else {
        assert(is_space_char(s[0]));
        lemma_trim_start_skip(s.skip(1), k - 1);
        assert(s.skip(1).skip(k - 1) =~= s.skip(k));
    }
}

pub proof fn lemma_trim_end_take(s: Seq<char>, k: int)
    requires
        0 <= k <= s.len(),
        forall|i: int| k <= i < s.len() ==> is_space_char(s[i]),
        k > 0 ==> !is_space_char(s[k - 1]),
    ensures
        trim_end_spec(s) == s.take(k),
    decreases s.len() - k,
{
    if k == s.len() {
        if s.len() > 0 {
            assert(!is_space_char(s.last()));
        }
        assert(s.take(k) =~= s);
    } else {
        assert(is_space_char(s.last()));
        lemma_trim_end_take(s.drop_last(), k);
        assert(s.drop_last().take(k) =~= s.take(k));
    }
}

/// Trimming leaves a contiguous piece of the original: the characters from
/// the first non-whitespace one through the last.
pub proof fn lemma_trim_is_subrange(s: Seq<char>)
    ensures
        exists|a: int, b: int|
            0 <= a <= b <= s.len() && trim_spec(s) == s.subrange(a, b),
    decreases s.len(),
{
    if s.len() == 0 {
        assert(trim_spec(s) == s.subrange(0, 0));
    } else if is_space_char(s[0]) {
        lemma_trim_is_subrange(s.skip(1));
        let (a, b) = choose|a: int, b: int|
            0 <= a <= b <= s.skip(1).len() && trim_spec(s.skip(1)) == s.skip(1).subrange(a, b);
        assert(trim_start_spec(s) == trim_start_spec(s.skip(1)));
        assert(s.skip(1).subrange(a, b) =~= s.subrange(a + 1, b + 1));
    } else {
        // trim_start leaves s whole; induct on trim_end alone
        lemma_trim_end_is_take(s);
        let b = choose|b: int| 0 <= b <= s.len() && trim_end_spec(s) == s.take(b);
        assert(trim_spec(s) == s.subrange(0, b));
    }
}

pub proof fn lemma_trim_end_is_take(s: Seq<char>)
    ensures
        exists|b: int| 0 <= b <= s.len() && trim_end_spec(s) == s.take(b),
    decreases s.len(),
{
    if s.len() == 0 {
        assert(trim_end_spec(s) == s.take(0));
    } else if is_space_char(s.last()) {
        lemma_trim_end_is_take(s.drop_last());
        let b = choose|b: int|
            0 <= b <= s.drop_last().len() && trim_end_spec(s.drop_last()) == s.drop_last().take(b);
        assert(s.drop_last().take(b) =~= s.take(b));
    } else {
        assert(trim_end_spec(s) == s.take(s.len() as int));
    }
}

/// A trimmed nonempty string starts and ends with a non-whitespace character.
pub proof fn lemma_trim_ends(s: Seq<char>)
    ensures
        trim_spec(s).len() > 0 ==> !is_space_char(trim_spec(s)[0]),
        trim_spec(s).len() > 0 ==> !is_space_char(trim_spec(s).last()),
    decreases s.len(),
{
    lemma_trim_start_head(s);
    lemma_trim_end_last(trim_start_spec(s));
    lemma_trim_end_keeps_head(trim_start_spec(s));
}

pub proof fn lemma_trim_start_head(s: Seq<char>)
    ensures
        trim_start_spec(s).len() > 0 ==> !is_space_char(trim_start_spec(s)[0]),
    decreases s.len(),
{
    if s.len() > 0 && is_space_char(s[0]) {
        lemma_trim_start_head(s.skip(1));
    }
}

pub proof fn lemma_trim_end_last(s: Seq<char>)
    ensures
        trim_end_spec(s).len() > 0 ==> !is_space_char(trim_end_spec(s).last()),
    decreases s.len(),
{
    if s.len() > 0 && is_space_char(s.last()) {
        lemma_trim_end_last(s.drop_last());
    }
}

/// Trimming the end keeps the first character when anything is left.
pub proof fn lemma_trim_end_keeps_head(s: Seq<char>)
    ensures
        trim_end_spec(s).len() > 0 ==> s.len() > 0 && trim_end_spec(s)[0] == s[0]
            && (!is_space_char(s[0]) ==> !is_space_char(trim_end_spec(s)[0])),
    decreases s.len(),
{
    if s.len() > 0 && is_space_char(s.last()) {
        lemma_trim_end_keeps_head(s.drop_last());
    }
}

/// Trimming an already-trimmed string changes nothing.
pub proof fn lemma_trim_idempotent(s: Seq<char>)
    ensures
        trim_spec(trim_spec(s)) == trim_spec(s),
{
    let t = trim_spec(s);
    lemma_trim_ends(s);
    if t.len() == 0 {
        assert(trim_start_spec(t) == t);
        assert(trim_end_spec(t) == t);
    } else {
        assert(trim_start_spec(t) == t);
        assert(trim_end_spec(t) == t);
    }
}

/// The characters of `s` with leading and trailing whitespace removed.
pub fn trim_chars(v: &Vec<char>) -> (r: Vec<char>)
    ensures
        r@ == trim_spec(v@),
{
    let n = v.len();
    let mut a: usize = 0;
    while a < n && char_is_space(v[a])
        invariant
            n == v@.len(),
            a <= n,
            forall|i: int| 0 <= i < a ==> is_space_char(v@[i]),
        decreases n - a,
    {
        a += 1;
    }
    proof {
        lemma_trim_start_skip(v@, a as int);
    }
    let mut b: usize = n;
    while b > a && char_is_space(v[b - 1])
        invariant
            n == v@.len(),
            a <= b <= n,
            forall|i: int| b <= i < n ==> is_space_char(v@[i]),
            a < n ==> !is_space_char(v@[a as int]),
        decreases b,
    {
        b -= 1;
    }
    proof {
        let t = v@.skip(a as int);
        lemma_trim_end_take(t, b - a);
    }
    let mut r: Vec<char> = Vec::new();
    let mut i: usize = a;
    while i < b
        invariant
            a <= i <= b <= v@.len(),
            r@ == v@.subrange(a as int, i as int),
        decreases b - i,
    {
        r.push(v[i]);
        proof {
            assert(r@ =~= v@.subrange(a as int, i + 1 as int));
        }
        i += 1;
    }
    proof {
        assert(v@.skip(a as int).take(b - a) =~= v@.subrange(a as int, b as int));
    }
    r
}

/// The decimal digit character for `d` (meaningful for `d < 10`).
pub open spec fn dec_digit(d: nat) -> char {
    ((0x30 + d) as u8) as char
}

/// The decimal numeral of `n`, without sign or padding.
pub open spec fn dec_spec(n: nat) -> Seq<char>
    decreases n,
{
    if n < 10 {
        seq![dec_digit(n)]
    } else {
        dec_spec(n / 10).push(dec_digit(n % 10))
    }
}

/// The decimal numeral of `n`, with a leading minus sign when negative.
pub open spec fn dec_signed_spec(n: int) -> Seq<char> {
    if n < 0 {
        seq!['-'] + dec_spec((-n) as nat)
    } else {
        dec_spec(n as nat)
    }
}

/// Writes `n` in decimal.
pub fn dec_u64(n: u64) -> (r: String)
    ensures
        r@ == dec_spec(n as nat),
{
    let mut digits: Vec<char> = Vec::new();
    digits.push((0x30 + ((n % 10) as u8)) as char);
    let mut m: u64 = n / 10;
    proof {
        if n >= 10 {
            assert(dec_spec(n as nat) == dec_spec((n / 10) as nat).push(dec_digit((n % 10) as nat)));
            assert(dec_spec(n as nat) =~= dec_spec(m as nat) + digits@);
        } else {
            assert(digits@ =~= dec_spec(n as nat));
        }
    }
    while m > 0
        invariant
            m == 0 ==> digits@ == dec_spec(n as nat),
            m > 0 ==> dec_spec(n as nat) == dec_spec(m as nat) + digits@,
        decreases m,
    {
        let d: char = (0x30 + ((m % 10) as u8)) as char;
        digits.insert(0, d);
        proof {
            let old_digits = digits@.subrange(1, digits@.len() as int);
            assert(digits@ =~= seq![d] + old_digits);
            if m >= 10 {
                assert(dec_spec(m as nat) == dec_spec((m / 10) as nat).push(
                    dec_digit((m % 10) as nat)));
                assert(dec_spec((m / 10) as nat) + digits@ =~= dec_spec(m as nat) + old_digits);
            } else {
                assert(dec_spec(m as nat) =~= seq![d]);
                assert(digits@ =~= dec_spec(m as nat) + old_digits);
            }
        }
        m = m / 10;
    }
    string_from_chars(&digits)
}

/// Writes `n` in decimal, with its sign.
pub fn dec_i64(n: i64) -> (r: String)
    ensures
        r@ == dec_signed_spec(n as int),
{
    if n >= 0 {
        dec_u64(n as u64)
    } else {
        let mag: u64 = (-(n as i128)) as u64;
        let mut r = String::from_str("-");
        let d = dec_u64(mag);
        r.append(d.as_str());
        proof {
            reveal_strlit("-");
            assert(r@ =~= seq!['-'] + dec_spec(mag as nat));
        }
        r
    }
}

/// The pieces of `s` between newline characters, in order. The empty
/// string has one empty piece; a trailing newline opens a last empty piece.
pub open spec fn split_nl(s: Seq<char>) -> Seq<Seq<char>>
    decreases s.len(),
{
    if s.len() == 0 {
        seq![Seq::<char>::empty()]
    } else if s.last() == '\n' {
        split_nl(s.drop_last()).push(Seq::empty())
    } else {
        let sp = split_nl(s.drop_last());
        sp.update(sp.len() - 1, sp.last().push(s.last()))
    }
}

pub proof fn lemma_split_nl_nonempty(s: Seq<char>)
    ensures
        split_nl(s).len() >= 1,
    decreases s.len(),
{
    if s.len() > 0 {
        lemma_split_nl_nonempty(s.drop_last());
    }
}

/// The lines of `ls`, each trimmed, the empty ones dropped, the rest joined
/// with single newlines.
pub open spec fn join_clean(ls: Seq<Seq<char>>) -> Seq<char>
    decreases ls.len(),
{
    if ls.len() == 0 {
        Seq::empty()
    } else {
        let rest = join_clean(ls.drop_last());
        let l = trim_spec(ls.last());
        if l.len() == 0 {
            rest
        } else if rest.len() == 0 {
            l
        } else {
            rest + seq!['\n'] + l
        }
    }
}

/// What the line cleaners return: every line trimmed, empty lines dropped,
/// the rest joined with single newlines.
pub open spec fn clean_spec(s: Seq<char>) -> Seq<char> {
    join_clean(split_nl(s))
}

/// Trims every line, drops the ones left empty, and joins the rest with
/// single newlines.
pub fn clean_lines(text: &str) -> (r: String)
    ensures
        r@ == clean_spec(text@),
{
    let cs = chars_of(text);
    let n = cs.len();
    let mut out: Vec<char> = Vec::new();
    let mut cur: Vec<char> = Vec::new();
    let mut i: usize = 0;
    proof {
        assert(cs@.take(0) =~= Seq::<char>::empty());
    }
    while i < n
        invariant
            n == cs@.len(),
            i <= n,
            split_nl(cs@.take(i as int)).len() >= 1,
            cur@ == split_nl(cs@.take(i as int)).last(),
            out@ == join_clean(split_nl(cs@.take(i as int)).drop_last()),
        decreases n - i,
    {
        let c = cs[i];
        proof {
            assert(cs@.take(i + 1 as int).drop_last() =~= cs@.take(i as int));
            assert(cs@.take(i + 1 as int).last() == c);
            lemma_split_nl_nonempty(cs@.take(i + 1 as int));
        }
        if c == '\n' {
            let mut lt = trim_chars(&cur);
            proof {
                let sp = split_nl(cs@.take(i as int));
                assert(split_nl(cs@.take(i + 1 as int)) == sp.push(Seq::<char>::empty()));
                assert(sp.push(Seq::<char>::empty()).drop_last() =~= sp);
                assert(join_clean(sp) == if trim_spec(sp.last()).len() == 0 {
                    join_clean(sp.drop_last())
                } else if join_clean(sp.drop_last()).len() == 0 {
                    trim_spec(sp.last())
                } else {
                    join_clean(sp.drop_last()) + seq!['\n'] + trim_spec(sp.last())
                });
            }
            if lt.len() > 0 {
                if out.len() > 0 {
                    out.push('\n');
                }
                out.append(&mut lt);
            }
            cur = Vec::new();
            proof {
                assert(out@ =~= join_clean(split_nl(cs@.take(i + 1 as int)).drop_last()));
            }
        } else {
            cur.push(c);
            proof {
                let sp = split_nl(cs@.take(i as int));
                let sp2 = split_nl(cs@.take(i + 1 as int));
                assert(sp2 == sp.update(sp.len() - 1, sp.last().push(c)));
                assert(sp2.drop_last() =~= sp.drop_last());
                assert(sp2.last() == sp.last().push(c));
            }
        }
        i += 1;
    }
    proof {
        assert(cs@.take(n as int) =~= cs@);
    }
    let mut lt = trim_chars(&cur);
    proof {
        let sp = split_nl(cs@);
        assert(join_clean(sp) == if trim_spec(sp.last()).len() == 0 {
            join_clean(sp.drop_last())
        } else if join_clean(sp.drop_last()).len() == 0 {
            trim_spec(sp.last())
        } else {
            join_clean(sp.drop_last()) + seq!['\n'] + trim_spec(sp.last())
        });
    }
    if lt.len() > 0 {
        if out.len() > 0 {
            out.push('\n');
        }
        out.append(&mut lt);
    }
    proof {
        assert(out@ =~= clean_spec(cs@));
    }
    string_from_chars(&out)
}

} // verus!
