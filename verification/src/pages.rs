//! Ordering of rasterized page images. The rasterizer writes one image
//! per page whose names sort lexicographically in page order; this module
//! keeps exactly the images of the current document and sorts them.

use vstd::prelude::*;
use vstd::string::*;

verus! {

/// Lexicographic order on character sequences, by code point.
pub open spec fn lex_le(a: Seq<char>, b: Seq<char>) -> bool
    decreases a.len(),
{
    if a.len() == 0 {
        true
    } else if b.len() == 0 {
        false
    } else if (a[0] as u32) < (b[0] as u32) {
        true
    } else if (a[0] as u32) > (b[0] as u32) {
        false
    } else {
        lex_le(a.skip(1), b.skip(1))
    }
}

/// One of two sequences always comes first.
pub proof fn lemma_lex_total(a: Seq<char>, b: Seq<char>)
    ensures
        lex_le(a, b) || lex_le(b, a),
    decreases a.len(),
{
    if a.len() > 0 && b.len() > 0 && (a[0] as u32) == (b[0] as u32) {
        lemma_lex_total(a.skip(1), b.skip(1));
    }
}

/// Lexicographic order chains.
pub proof fn lemma_lex_trans(a: Seq<char>, b: Seq<char>, c: Seq<char>)
    requires
        lex_le(a, b),
        lex_le(b, c),
    ensures
        lex_le(a, c),
    decreases a.len(),
{
    if a.len() > 0 && b.len() > 0 && c.len() > 0 && (a[0] as u32) == (b[0] as u32) && (b[0] as u32)
        == (c[0] as u32) {
        lemma_lex_trans(a.skip(1), b.skip(1), c.skip(1));
    }
}

/// Whether `a` comes at or before `b` lexicographically.
pub fn lex_le_exec(a: &str, b: &str) -> (r: bool)
    ensures
        r == lex_le(a@, b@),
{
    let la = a.unicode_len();
    let lb = b.unicode_len();
    let mut i: usize = 0;
    proof {
        assert(a@.skip(0) =~= a@);
        assert(b@.skip(0) =~= b@);
    }
    while i < la && i < lb
        invariant
            la == a@.len(),
            lb == b@.len(),
            i <= la,
            i <= lb,
            lex_le(a@, b@) == lex_le(a@.skip(i as int), b@.skip(i as int)),
        decreases la - i,
    {
        let ca = a.get_char(i) as u32;
        let cb = b.get_char(i) as u32;
        if ca < cb {
            return true;
        }
        if ca > cb {
            return false;
        }
        proof {
            assert(a@.skip(i as int).skip(1) =~= a@.skip(i + 1 as int));
            assert(b@.skip(i as int).skip(1) =~= b@.skip(i + 1 as int));
        }
        i += 1;
    }
    la <= lb
}

/// `t` occurs in `s` starting at `k`.
pub open spec fn contains_at(s: Seq<char>, t: Seq<char>, k: int) -> bool {
    0 <= k && k + t.len() <= s.len() && s.subrange(k, k + t.len()) == t
}

/// `t` occurs somewhere in `s`.
pub open spec fn contains_str(s: Seq<char>, t: Seq<char>) -> bool {
    exists|k: int| contains_at(s, t, k)
}

/// Whether `t` occurs in `s`.
pub fn contains_exec(s: &str, t: &str) -> (r: bool)
    ensures
        r == contains_str(s@, t@),
{
    let ls = s.unicode_len();
    let lt = t.unicode_len();
    if lt > ls {
        return false;
    }
    if lt == 0 {
        proof {
            assert(s@.subrange(0, 0) =~= t@);
            assert(contains_at(s@, t@, 0));
        }
        return true;
    }
    let mut k: usize = 0;
    while k <= ls - lt
        invariant
            ls == s@.len(),
            lt == t@.len(),
            1 <= lt <= ls,
            k <= ls - lt + 1,
            forall|k2: int| 0 <= k2 < k ==> !contains_at(s@, t@, k2),
        decreases ls - lt + 1 - k,
    {
        let mut j: usize = 0;
        let mut hit = true;
        while j < lt
            invariant
                ls == s@.len(),
                lt == t@.len(),
                k + lt <= ls,
                j <= lt,
                hit ==> forall|j2: int| 0 <= j2 < j ==> s@[k + j2] == t@[j2],
                !hit ==> !contains_at(s@, t@, k as int),
            decreases lt - j,
        {
            if s.get_char(k + j) != t.get_char(j) {
                proof {
                    if contains_at(s@, t@, k as int) {
                        assert(s@.subrange(k as int, k + lt as int)[j as int] == t@[j as int]);
                    }
                }
                hit = false;
                j = lt;
            } else {
                j += 1;
            }
        }
        if hit {
            proof {
                assert(s@.subrange(k as int, k + lt as int) =~= t@);
                assert(contains_at(s@, t@, k as int));
            }
            return true;
        }
        k += 1;
    }
    proof {
        assert forall|k2: int| !contains_at(s@, t@, k2) by {
            if contains_at(s@, t@, k2) {
                assert(k2 < k);
            }
        }
    }
    false
}

/// The file carries the rasterizer's image suffix.
pub open spec fn ends_with_png(s: Seq<char>) -> bool {
    s.len() >= 4 && s.subrange(s.len() - 4, s.len() as int) == ".png"@
}

/// The name is one of this document's page images: the image suffix and
/// the document's stem both occur in it.
pub open spec fn is_page_image(name: Seq<char>, stem: Seq<char>) -> bool {
    ends_with_png(name) && contains_str(name, stem)
}

/// The page-image test for one document, as a predicate over names.
pub open spec fn page_image_pred(stem: Seq<char>) -> spec_fn(String) -> bool {
    |n: String| is_page_image(n@, stem)
}

fn ends_with_png_exec(s: &str) -> (r: bool)
    ensures
        r == ends_with_png(s@),
{
    proof {
        reveal_strlit(".png");
    }
    let n = s.unicode_len();
    if n < 4 {
        return false;
    }
    let r = s.get_char(n - 4) == '.' && s.get_char(n - 3) == 'p' && s.get_char(n - 2) == 'n'
        && s.get_char(n - 1) == 'g';
    proof {
        if r {
            assert(s@.subrange(n - 4, n as int) =~= ".png"@);
        } else {
            if s@.subrange(n - 4, n as int) == ".png"@ {
                assert(s@[n - 4] == ".png"@[0] && s@[n - 3] == ".png"@[1] && s@[n - 2]
                    == ".png"@[2] && s@[n - 1] == ".png"@[3]);
            }
        }
    }
    r
}

/// The sequence is sorted lexicographically.
pub open spec fn sorted_lex(ps: Seq<String>) -> bool {
    forall|i: int, j: int| 0 <= i < j < ps.len() ==> lex_le((#[trigger] ps[i])@, (#[trigger] ps[j])@)
}

/// Keeps the names that are this document's page images and sorts them
/// lexicographically: the rasterizer numbers its files so that this order
/// is page order.
pub fn order_page_images(names: Vec<String>, stem: &str) -> (r: Vec<String>)
    ensures
        sorted_lex(r@),
        r@.to_multiset() == names@.filter(page_image_pred(stem@)).to_multiset(),
{
    broadcast use vstd::seq_lib::group_to_multiset_ensures, vstd::seq_lib::to_multiset_insert;

    let n = names.len();
    let mut r: Vec<String> = Vec::new();
    let mut i: usize = 0;
    proof {
        reveal(Seq::filter);
        assert(names@.take(0) =~= Seq::<String>::empty());
        assert(r@.to_multiset() =~= names@.take(0).filter(page_image_pred(stem@)).to_multiset());
    }
    while i < n
        invariant
            n == names@.len(),
            i <= n,
            sorted_lex(r@),
            r@.to_multiset() == names@.take(i as int).filter(page_image_pred(stem@)).to_multiset(),
        decreases n - i,
    {
        let x = names[i].clone();
        proof {
            assert(x == names@[i as int]);
            assert(names@.take(i + 1 as int).drop_last() =~= names@.take(i as int));
            assert(names@.take(i + 1 as int).last() == names@[i as int]);
        }
        let keep = ends_with_png_exec(x.as_str()) && contains_exec(x.as_str(), stem);
        proof {
            assert(keep == is_page_image(x@, stem@));
            assert(page_image_pred(stem@)(names@[i as int]) == is_page_image(x@, stem@));
        }
        if keep {
            let mut p: usize = 0;
            while p < r.len() && lex_le_exec(r[p].as_str(), x.as_str())
                invariant
                    p <= r@.len(),
                    forall|q: int| 0 <= q < p ==> lex_le((#[trigger] r@[q])@, x@),
                decreases r@.len() - p,
            {
                p += 1;
            }
            let ghost old_r = r@;
            proof {
                if p < old_r.len() {
                    lemma_lex_total(old_r[p as int]@, x@);
                }
            }
            r.insert(p, x);
            proof {
                let rr = r@;
                assert(rr == old_r.insert(p as int, x));
                assert forall|a: int, b: int| 0 <= a < b < rr.len() implies lex_le(
                    (#[trigger] rr[a])@,
                    (#[trigger] rr[b])@,
                ) by {
                    if a < p && b < p {
                        assert(rr[a] == old_r[a] && rr[b] == old_r[b]);
                    } else if a < p && b == p {
                        assert(rr[a] == old_r[a]);
                    } else if a < p && b > p {
                        assert(rr[a] == old_r[a] && rr[b] == old_r[b - 1]);
                        // old_r sorted handles a vs b-1 unless b-1 == a
                        if a < b - 1 {
                            assert(lex_le(old_r[a]@, old_r[b - 1]@));
                        } else {
                            // b == a + 1 == p + 1 is impossible since b > p and a < p
                            assert(false);
                        }
                    } else if a == p {
                        // x before everything from p on
                        assert(rr[b] == old_r[b - 1]);
                        assert(!lex_le(old_r[p as int]@, x@));
                        assert(lex_le(x@, old_r[p as int]@));
                        if b - 1 > p {
                            assert(lex_le(old_r[p as int]@, old_r[b - 1]@));
                            lemma_lex_trans(x@, old_r[p as int]@, old_r[b - 1]@);
                        }
                    } else {
                        assert(rr[a] == old_r[a - 1] && rr[b] == old_r[b - 1]);
                        assert(lex_le(old_r[a - 1]@, old_r[b - 1]@));
                    }
                }
                let ghost pred = page_image_pred(stem@);
                reveal(Seq::filter);
                assert(pred(names@[i as int]));
                assert(names@.take(i + 1 as int).filter(pred) == names@.take(i as int).filter(
                    pred,
                ).push(names@[i as int]));
                vstd::seq_lib::to_multiset_insert(old_r, p as int, x);
                names@.take(i as int).filter(pred).to_multiset_ensures();
                assert(rr.to_multiset() =~= names@.take(i + 1 as int).filter(pred).to_multiset());
            }
        } else {
            proof {
                let ghost pred = page_image_pred(stem@);
                reveal(Seq::filter);
                assert(!pred(names@[i as int]));
                assert(names@.take(i + 1 as int).filter(pred) == names@.take(i as int).filter(
                    pred,
                ));
            }
        }
        i += 1;
    }
    proof {
        assert(names@.take(n as int) =~= names@);
    }
    r
}

} // verus!
