//! Verified text utilities: lexicographic ordering and sorting of strings,
//! decimal parsing for the truncation depth, and message building.

use vstd::prelude::*;
use vstd::multiset::Multiset;
use vstd::relations::{sorted_by, total_ordering};
use vstd::seq_lib::lemma_sorted_unique;
use vstd::string::StrSliceExecFns;
use vstd::string::StringExecFns;

verus! {

/// Lexicographic "less than or equal" on character sequences, ordering
/// characters by their Unicode scalar value. A proper prefix precedes its
/// extensions. This coincides with the byte-wise order `str` sorting uses,
/// because UTF-8 preserves scalar-value order.
pub open spec fn lex_leq(a: Seq<char>, b: Seq<char>) -> bool
    decreases a.len(),
{
    if a.len() == 0 {
        true
    } else if b.len() == 0 {
        false
    } else if a[0] != b[0] {
        (a[0] as u32) < (b[0] as u32)
    } else {
        lex_leq(a.drop_first(), b.drop_first())
    }
}

/// The ordering relation as a closure value, for use with `Seq::sort_by`.
pub open spec fn lex_leq_fn() -> spec_fn(Seq<char>, Seq<char>) -> bool {
    |a: Seq<char>, b: Seq<char>| lex_leq(a, b)
}

pub proof fn lemma_lex_refl(a: Seq<char>)
    ensures
        lex_leq(a, a),
    decreases a.len(),
{
    if a.len() > 0 {
        lemma_lex_refl(a.drop_first());
    }
}

pub proof fn lemma_lex_antisym(a: Seq<char>, b: Seq<char>)
    requires
        lex_leq(a, b),
        lex_leq(b, a),
    ensures
        a == b,
    decreases a.len(),
{
    if a.len() == 0 {
        assert(b.len() == 0);
        assert(a =~= b);
    } else {
        assert(b.len() > 0);
        if a[0] == b[0] {
            lemma_lex_antisym(a.drop_first(), b.drop_first());
            assert(a =~= seq![a[0]] + a.drop_first());
            assert(b =~= seq![b[0]] + b.drop_first());
        } else {
            assert((a[0] as u32) < (b[0] as u32) && (b[0] as u32) < (a[0] as u32));
            assert(false);
        }
    }
}

pub proof fn lemma_lex_trans(a: Seq<char>, b: Seq<char>, c: Seq<char>)
    requires
        lex_leq(a, b),
        lex_leq(b, c),
    ensures
        lex_leq(a, c),
    decreases a.len(),
{
    if a.len() == 0 {
    } else {
        assert(b.len() > 0);
        assert(c.len() > 0);
        if a[0] == b[0] && b[0] == c[0] {
            lemma_lex_trans(a.drop_first(), b.drop_first(), c.drop_first());
        }
    }
}

proof fn lemma_char_cast_neq(c1: char, c2: char)
    requires
        c1 != c2,
    ensures
        c1 as u32 != c2 as u32,
{
    vstd::utf8::char_u32_cast(c1, c1 as u32);
    vstd::utf8::char_u32_cast(c2, c2 as u32);
}

pub proof fn lemma_lex_connected(a: Seq<char>, b: Seq<char>)
    ensures
        lex_leq(a, b) || lex_leq(b, a),
    decreases a.len(),
{
    if a.len() > 0 && b.len() > 0 {
        if a[0] == b[0] {
            lemma_lex_connected(a.drop_first(), b.drop_first());
        } else {
            lemma_char_cast_neq(a[0], b[0]);
        }
    }
}

/// The lexicographic order is a total order, so a sorted arrangement of any
/// multiset of strings is unique.
pub proof fn lemma_lex_total_ordering()
    ensures
        total_ordering(lex_leq_fn()),
{
    let leq = lex_leq_fn();
    assert forall|a: Seq<char>| #[trigger] leq(a, a) by {
        lemma_lex_refl(a);
    }
    assert forall|a: Seq<char>, b: Seq<char>| #[trigger] leq(a, b) && #[trigger] leq(b, a)
        implies a == b by {
        lemma_lex_antisym(a, b);
    }
    assert forall|a: Seq<char>, b: Seq<char>, c: Seq<char>|
        #[trigger] leq(a, b) && #[trigger] leq(b, c) implies leq(a, c) by {
        lemma_lex_trans(a, b, c);
    }
    assert forall|a: Seq<char>, b: Seq<char>| #[trigger] leq(a, b) || #[trigger] leq(b, a) by {
        lemma_lex_connected(a, b);
    }
}

/// Decides `lex_leq` on two string slices.
pub fn str_leq(a: &str, b: &str) -> (r: bool)
    ensures
        r == lex_leq(a@, b@),
{
    let a_len = a.unicode_len();
    let b_len = b.unicode_len();
    let mut i: usize = 0;
    proof {
        assert(a@.skip(0) =~= a@);
        assert(b@.skip(0) =~= b@);
    }
    loop
        invariant
            i <= a_len,
            i <= b_len,
            a_len == a@.len(),
            b_len == b@.len(),
            lex_leq(a@, b@) == lex_leq(a@.skip(i as int), b@.skip(i as int)),
        decreases a_len - i,
    {
        if i == a_len {
            assert(a@.skip(i as int).len() == 0);
            return true;
        }
        if i == b_len {
            assert(b@.skip(i as int).len() == 0);
            assert(a@.skip(i as int).len() > 0);
            return false;
        }
        let ca = a.get_char(i);
        let cb = b.get_char(i);
        assert(a@.skip(i as int)[0] == a@[i as int]);
        assert(b@.skip(i as int)[0] == b@[i as int]);
        if ca != cb {
            return (ca as u32) < (cb as u32);
        }
        proof {
            assert(a@.skip(i as int).drop_first() =~= a@.skip(i + 1));
            assert(b@.skip(i as int).drop_first() =~= b@.skip(i + 1));
        }
        i = i + 1;
    }
}

/// Returns a copy of the given strings arranged in ascending lexicographic
/// order; the result is exactly `sort_by` of the input under `lex_leq`.
pub fn sorted_clone(v: &Vec<String>) -> (r: Vec<String>)
    ensures
        r.deep_view() == v.deep_view().sort_by(lex_leq_fn()),
{
    let ghost leq = lex_leq_fn();
    let mut out: Vec<String> = Vec::new();
    proof {
        assert(out.deep_view() =~= v.deep_view().take(0));
    }
    let mut i: usize = 0;
    while i < v.len()
        invariant
            i <= v.len(),
            sorted_by(out.deep_view(), lex_leq_fn()),
            out.deep_view().to_multiset() == v.deep_view().take(i as int).to_multiset(),
        decreases v.len() - i,
    {
        let s: String = v[i].clone();
        let mut j: usize = 0;
        while j < out.len()
            invariant
                j <= out.len(),
                s@ == v.deep_view()[i as int],
                i < v.len(),
                forall|k: int| 0 <= k < j ==> lex_leq(#[trigger] out.deep_view()[k], s@),
            ensures
                j <= out.len(),
                forall|k: int| 0 <= k < j ==> lex_leq(#[trigger] out.deep_view()[k], s@),
                j < out.len() ==> !lex_leq(out.deep_view()[j as int], s@),
            decreases out.len() - j,
        {
            if !str_leq(out[j].as_str(), s.as_str()) {
                break;
            }
            j = j + 1;
        }
        let ghost old_out = out.deep_view();
        out.insert(j, s);
        proof {
            let dv = out.deep_view();
            assert(dv =~= old_out.insert(j as int, v.deep_view()[i as int]));
            lemma_insert_preserves_sorted(old_out, j as int, v.deep_view()[i as int]);
            lemma_insert_multiset(old_out, j as int, v.deep_view()[i as int]);
            assert(v.deep_view().take(i + 1).drop_last() =~= v.deep_view().take(i as int));
            assert(v.deep_view().take(i + 1).last() == v.deep_view()[i as int]);
            broadcast use vstd::seq_lib::to_multiset_build;
            assert(v.deep_view().take(i as int).push(v.deep_view()[i as int]) =~= v.deep_view()
                .take(i + 1));
        }
        i = i + 1;
    }
    proof {
        assert(v.deep_view().take(v.len() as int) =~= v.deep_view());
        lemma_lex_total_ordering();
        v.deep_view().lemma_sort_by_ensures(leq);
        lemma_sorted_unique(out.deep_view(), v.deep_view().sort_by(leq), leq);
        assert(out.deep_view() =~= v.deep_view().sort_by(leq));
    }
    out
}

proof fn lemma_insert_preserves_sorted(s: Seq<Seq<char>>, j: int, x: Seq<char>)
    requires
        0 <= j <= s.len(),
        sorted_by(s, lex_leq_fn()),
        forall|k: int| 0 <= k < j ==> lex_leq(#[trigger] s[k], x),
        j < s.len() ==> !lex_leq(s[j], x),
    ensures
        sorted_by(s.insert(j, x), lex_leq_fn()),
{
    let t = s.insert(j, x);
    assert forall|p: int, q: int| 0 <= p < q < t.len() implies #[trigger] lex_leq_fn()(
        t[p],
        t[q],
    ) by {
        if p < j && q == j {
            assert(t[p] == s[p] && t[q] == x);
        } else if p == j && q > j {
            assert(t[p] == x && t[q] == s[q - 1]);
            lemma_lex_connected(s[j], x);
            assert(lex_leq(x, s[j]));
            if q - 1 > j {
                assert(lex_leq_fn()(s[j], s[q - 1]));
                lemma_lex_trans(x, s[j], s[q - 1]);
            }
        } else if p < j && q > j {
            assert(t[p] == s[p] && t[q] == s[q - 1]);
            if q - 1 == p {
                lemma_lex_refl(s[p]);
            } else {
                assert(lex_leq_fn()(s[p], s[q - 1]));
            }
        } else if p > j && q > j {
            assert(t[p] == s[p - 1] && t[q] == s[q - 1]);
            assert(lex_leq_fn()(s[p - 1], s[q - 1]));
        } else {
            assert(p < j && q < j);
            assert(t[p] == s[p] && t[q] == s[q]);
            assert(lex_leq_fn()(s[p], s[q]));
        }
    }
}

proof fn lemma_insert_multiset(s: Seq<Seq<char>>, j: int, x: Seq<char>)
    requires
        0 <= j <= s.len(),
    ensures
        s.insert(j, x).to_multiset() == s.to_multiset().insert(x),
{
    broadcast use vstd::seq_lib::group_to_multiset_ensures;
    broadcast use vstd::multiset::group_multiset_axioms;

    let t = s.insert(j, x);
    assert(t =~= s.take(j) + seq![x] + s.skip(j));
    vstd::seq_lib::lemma_multiset_commutative(s.take(j) + seq![x], s.skip(j));
    vstd::seq_lib::lemma_multiset_commutative(s.take(j), seq![x]);
    assert(s =~= s.take(j) + s.skip(j));
    vstd::seq_lib::lemma_multiset_commutative(s.take(j), s.skip(j));
    assert(seq![x].to_multiset() =~= Multiset::<Seq<char>>::empty().insert(x)) by {
        assert(seq![x].drop_first() =~= Seq::<Seq<char>>::empty());
    }
    assert(t.to_multiset() =~= s.to_multiset().insert(x));
}

/// True when the name begins with `.`, i.e. the entry is hidden.
pub open spec fn starts_with_dot(s: Seq<char>) -> bool {
    s.len() > 0 && s[0] == '.'
}

/// Decides `starts_with_dot`.
pub fn is_hidden_name(s: &str) -> (r: bool)
    ensures
        r == starts_with_dot(s@),
{
    let n = s.unicode_len();
    if n == 0 {
        false
    } else {
        s.get_char(0) == '.'
    }
}

pub open spec fn is_dec_digit(c: char) -> bool {
    48 <= c as u32 <= 57
}

pub open spec fn dec_digit_val(c: char) -> nat {
    (c as u32 - 48) as nat
}

/// The numeric value of a sequence of decimal digits, most significant first.
pub open spec fn dec_val(s: Seq<char>) -> nat
    decreases s.len(),
{
    if s.len() == 0 {
        0
    } else {
        dec_val(s.drop_last()) * 10 + dec_digit_val(s.last())
    }
}

pub open spec fn all_dec_digits(s: Seq<char>) -> bool {
    forall|i: int| 0 <= i < s.len() ==> is_dec_digit(#[trigger] s[i])
}

/// The digit portion of a decimal numeral: an optional leading `+` is
/// accepted, as the standard library's `usize` parser accepts it.
pub open spec fn numeral_digits(s: Seq<char>) -> Seq<char> {
    if s.len() > 0 && s[0] == '+' {
        s.drop_first()
    } else {
        s
    }
}

/// True when the string is a decimal numeral for a value that fits in `usize`.
pub open spec fn parses_as_usize(s: Seq<char>) -> bool {
    let d = numeral_digits(s);
    d.len() > 0 && all_dec_digits(d) && dec_val(d) <= usize::MAX
}

proof fn lemma_dec_val_prefix_le(s: Seq<char>, k: int)
    requires
        0 <= k <= s.len(),
    ensures
        dec_val(s.take(k)) <= dec_val(s),
    decreases s.len() - k,
{
    if k == s.len() {
        assert(s.take(k) =~= s);
    } else {
        lemma_dec_val_prefix_le(s, k + 1);
        assert(s.take(k + 1).drop_last() =~= s.take(k));
        assert(dec_val(s.take(k + 1)) == dec_val(s.take(k)) * 10 + dec_digit_val(
            s.take(k + 1).last(),
        ));
        assert(dec_val(s.take(k)) * 10 >= dec_val(s.take(k)));
    }
}

/// Parses a nonnegative decimal integer exactly as the standard library's
/// `usize` parser does: an optional leading `+`, then one or more digits,
/// rejecting anything else and values over `usize::MAX`.
pub fn parse_usize(s: &str) -> (r: Option<usize>)
    ensures
        match r {
            Option::Some(n) => parses_as_usize(s@) && n == dec_val(numeral_digits(s@)),
            Option::None => !parses_as_usize(s@),
        },
{
    let n = s.unicode_len();
    let start: usize = if n > 0 && s.get_char(0) == '+' {
        1
    } else {
        0
    };
    let ghost d = numeral_digits(s@);
    proof {
        assert(d =~= s@.skip(start as int));
    }
    if n == start {
        assert(d.len() == 0);
        return Option::None;
    }
    let mut acc: usize = 0;
    let mut i: usize = start;
    while i < n
        invariant
            start <= i <= n,
            n == s@.len(),
            n > start,
            d == s@.skip(start as int),
            d == numeral_digits(s@),
            all_dec_digits(d.take(i - start)),
            acc == dec_val(d.take(i - start)),
        decreases n - i,
    {
        let c = s.get_char(i);
        let code = c as u32;
        proof {
            assert(d[i - start] == s@[i as int]);
            assert(d.take(i - start + 1).drop_last() =~= d.take(i - start));
            assert(d.take(i - start + 1).last() == d[i - start]);
        }
        if code < 48 || code > 57 {
            assert(!all_dec_digits(d));
            return Option::None;
        }
        let digit = (code - 48) as usize;
        if acc > usize::MAX / 10 {
            proof {
                assert(acc * 10 > usize::MAX) by (nonlinear_arith)
                    requires
                        acc > usize::MAX / 10,
                        usize::MAX / 10 == (usize::MAX - (usize::MAX % 10)) / 10,
                        acc * 10 >= (usize::MAX / 10 + 1) * 10,
                ;
                assert(dec_val(d.take(i - start + 1)) > usize::MAX);
                lemma_dec_val_prefix_le(d, i - start + 1);
            }
            return Option::None;
        }
        let acc10 = acc * 10;
        if acc10 > usize::MAX - digit {
            proof {
                assert(dec_val(d.take(i - start + 1)) > usize::MAX);
                lemma_dec_val_prefix_le(d, i - start + 1);
            }
            return Option::None;
        }
        acc = acc10 + digit;
        i = i + 1;
    }
    proof {
        assert(d.take(i - start) =~= d);
    }
    Option::Some(acc)
}

/// Appends one line to a stream of lines.
pub fn push_line(v: &mut Vec<String>, line: String)
    ensures
        final(v).deep_view() == old(v).deep_view().push(line@),
{
    let ghost pre = v.deep_view();
    let ghost lv = line@;
    v.push(line);
    proof {
        assert(v.deep_view() =~= pre.push(lv));
    }
}

/// Appends a copy of each given line, in order, to a stream of lines.
pub fn push_all_lines(v: &mut Vec<String>, lines: &Vec<String>)
    ensures
        final(v).deep_view() == old(v).deep_view() + lines.deep_view(),
{
    let ghost base = v.deep_view();
    let mut i: usize = 0;
    proof {
        assert(base + lines.deep_view().take(0) =~= base);
    }
    while i < lines.len()
        invariant
            i <= lines.len(),
            v.deep_view() == base + lines.deep_view().take(i as int),
        decreases lines.len() - i,
    {
        let ghost pre = v.deep_view();
        v.push(lines[i].clone());
        proof {
            assert(v.deep_view() =~= pre.push(lines.deep_view()[i as int]));
            assert(v.deep_view() =~= base + lines.deep_view().take(i + 1));
        }
        i = i + 1;
    }
    proof {
        assert(base + lines.deep_view().take(lines.len() as int) =~= base + lines.deep_view());
    }
}

/// Copies a list of strings.
pub fn clone_strings(v: &Vec<String>) -> (r: Vec<String>)
    ensures
        r.deep_view() == v.deep_view(),
{
    let mut out: Vec<String> = Vec::new();
    proof {
        assert(out.deep_view() =~= v.deep_view().take(0));
    }
    let mut i: usize = 0;
    while i < v.len()
        invariant
            i <= v.len(),
            out.deep_view() == v.deep_view().take(i as int),
        decreases v.len() - i,
    {
        let ghost pre = out.deep_view();
        out.push(v[i].clone());
        proof {
            assert(out.deep_view() =~= pre.push(v.deep_view()[i as int]));
            assert(out.deep_view() =~= v.deep_view().take(i + 1));
        }
        i = i + 1;
    }
    proof {
        assert(v.deep_view().take(v.len() as int) =~= v.deep_view());
    }
    out
}

/// Builds a diagnostic of the shape `<prefix><detail>'`, used for messages
/// that quote an offending argument, such as `Invalid path: 'x'`.
pub fn quoted_msg(prefix: &str, detail: &str) -> (r: String)
    ensures
        r@ == prefix@ + detail@ + seq!['\''],
{
    let mut m = String::from_str(prefix);
    m.append(detail);
    m.append("'");
    proof {
        reveal_strlit("'");
        assert("'"@ =~= seq!['\'']);
    }
    m
}

} // verus!
