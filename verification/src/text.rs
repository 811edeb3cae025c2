//! Text utilities the engine's messages and orderings rest on: decimal
//! rendering of integers, a lexicographic order on strings with a verified
//! sort, and joining of string lists.

use vstd::prelude::*;
use vstd::string::StrSliceExecFns;
use vstd::string::StringExecFns;
use vstd::seq_lib::group_to_multiset_ensures;
use vstd::seq_lib::to_multiset_insert;
use vstd::multiset::group_multiset_axioms;
use vstd::multiset::group_multiset_properties;

verus! {

/// The character for one decimal digit.
pub open spec fn dec_digit(d: nat) -> char {
    if d == 0 {
        '0'
    } else if d == 1 {
        '1'
    } else if d == 2 {
        '2'
    } else if d == 3 {
        '3'
    } else if d == 4 {
        '4'
    } else if d == 5 {
        '5'
    } else if d == 6 {
        '6'
    } else if d == 7 {
        '7'
    } else if d == 8 {
        '8'
    } else {
        '9'
    }
}

/// The decimal digits of a natural number, most significant first, with no
/// leading zeros (a lone zero for 0).
pub open spec fn spec_udec(n: nat) -> Seq<char>
    decreases n,
{
    if n < 10 {
        seq![dec_digit(n)]
    } else {
        spec_udec(n / 10).push(dec_digit(n % 10))
    }
}

/// The decimal rendering of an integer: a minus sign before the digits of
/// the magnitude when negative.
pub open spec fn spec_idec(i: int) -> Seq<char> {
    if i < 0 {
        seq!['-'] + spec_udec((-i) as nat)
    } else {
        spec_udec(i as nat)
    }
}

/// The string for one decimal digit.
fn digit_str(d: u64) -> (r: &'static str)
    requires
        d < 10,
    ensures
        r@ =~= seq![dec_digit(d as nat)],
{
    proof {
        reveal_strlit("0");
        reveal_strlit("1");
        reveal_strlit("2");
        reveal_strlit("3");
        reveal_strlit("4");
        reveal_strlit("5");
        reveal_strlit("6");
        reveal_strlit("7");
        reveal_strlit("8");
        reveal_strlit("9");
    }
    if d == 0 {
        "0"
    } else if d == 1 {
        "1"
    } else if d == 2 {
        "2"
    } else if d == 3 {
        "3"
    } else if d == 4 {
        "4"
    } else if d == 5 {
        "5"
    } else if d == 6 {
        "6"
    } else if d == 7 {
        "7"
    } else if d == 8 {
        "8"
    } else {
        "9"
    }
}

/// Renders a natural number in decimal.
pub fn u64_to_dec(n: u64) -> (r: String)
    ensures
        r@ == spec_udec(n as nat),
    decreases n,
{
    if n < 10 {
        let r = String::from_str(digit_str(n));
        proof {
            assert(r@ =~= spec_udec(n as nat));
        }
        r
    } else {
        let mut r = u64_to_dec(n / 10);
        r.append(digit_str(n % 10));
        proof {
            assert(r@ =~= spec_udec((n / 10) as nat).push(dec_digit((n % 10) as nat)));
        }
        r
    }
}

/// Renders a signed number in decimal, with a leading minus sign when
/// negative.
pub fn i32_to_dec(n: i32) -> (r: String)
    ensures
        r@ == spec_idec(n as int),
{
    if n < 0 {
        let magnitude: u64 = (-(n as i64)) as u64;
        proof {
            reveal_strlit("-");
        }
        let mut r = String::from_str("-");
        let digits = u64_to_dec(magnitude);
        r.append(digits.as_str());
        proof {
            assert(r@ =~= seq!['-'] + spec_udec(magnitude as nat));
        }
        r
    } else {
        u64_to_dec(n as u64)
    }
}

/// Lexicographic order on strings by character value: the order the
/// workspace list is kept in.
pub open spec fn lex_le(a: Seq<char>, b: Seq<char>) -> bool
    decreases a.len(),
{
    if a.len() == 0 {
        true
    } else if b.len() == 0 {
        false
    } else if (a[0] as u32) == (b[0] as u32) {
        lex_le(a.skip(1), b.skip(1))
    } else {
        (a[0] as u32) < (b[0] as u32)
    }
}

/// Any two strings are comparable under `lex_le`.
pub proof fn lemma_lex_le_total(a: Seq<char>, b: Seq<char>)
    ensures
        lex_le(a, b) || lex_le(b, a),
    decreases a.len(),
{
    if a.len() == 0 || b.len() == 0 {
    } else if (a[0] as u32) == (b[0] as u32) {
        lemma_lex_le_total(a.skip(1), b.skip(1));
    }
}

/// `lex_le` is transitive.
pub proof fn lemma_lex_le_trans(a: Seq<char>, b: Seq<char>, c: Seq<char>)
    requires
        lex_le(a, b),
        lex_le(b, c),
    ensures
        lex_le(a, c),
    decreases a.len(),
{
    if a.len() == 0 {
    } else {
        if b.len() == 0 {
        } else if c.len() == 0 {
        } else {
            if (a[0] as u32) == (b[0] as u32) && (b[0] as u32) == (c[0] as u32) {
                lemma_lex_le_trans(a.skip(1), b.skip(1), c.skip(1));
            }
        }
    }
}

/// Dropping an equal prefix from both strings does not change their order.
proof fn lemma_lex_le_common_prefix(a: Seq<char>, b: Seq<char>, i: int)
    requires
        0 <= i <= a.len(),
        i <= b.len(),
        forall|j: int| 0 <= j < i ==> (a[j] as u32) == (b[j] as u32),
    ensures
        lex_le(a, b) == lex_le(a.skip(i), b.skip(i)),
    decreases i,
{
    if i == 0 {
        assert(a.skip(0) =~= a);
        assert(b.skip(0) =~= b);
    } else {
        assert(a.len() > 0 && b.len() > 0 && (a[0] as u32) == (b[0] as u32));
        lemma_lex_le_common_prefix(a.skip(1), b.skip(1), i - 1);
        assert(a.skip(1).skip(i - 1) =~= a.skip(i));
        assert(b.skip(1).skip(i - 1) =~= b.skip(i));
    }
}

/// Decides the lexicographic order of two strings.
pub fn str_lex_le(a: &str, b: &str) -> (r: bool)
    ensures
        r == lex_le(a@, b@),
{
    let a_len = a.unicode_len();
    let b_len = b.unicode_len();
    let mut i: usize = 0;
    loop
        invariant
            i <= a_len,
            i <= b_len,
            a_len == a@.len(),
            b_len == b@.len(),
            forall|j: int| 0 <= j < i ==> (a@[j] as u32) == (b@[j] as u32),
        decreases a_len - i,
    {
        if i == a_len || i == b_len {
            proof {
                lemma_lex_le_common_prefix(a@, b@, i as int);
            }
            return a_len <= b_len;
        }
        let ca = a.get_char(i);
        let cb = b.get_char(i);
        if (ca as u32) != (cb as u32) {
            proof {
                lemma_lex_le_common_prefix(a@, b@, i as int);
            }
            return (ca as u32) < (cb as u32);
        }
        i = i + 1;
    }
}

/// The views of a sequence of strings.
pub open spec fn views_of(v: Seq<String>) -> Seq<Seq<char>> {
    v.map_values(|s: String| s@)
}

/// A sequence of strings in nondecreasing lexicographic order.
pub open spec fn sorted_names(v: Seq<Seq<char>>) -> bool {
    forall|i: int, j: int| 0 <= i < j < v.len() ==> lex_le(v[i], v[j])
}

/// Sorts a list of names lexicographically. The result holds exactly the
/// names given, as a multiset, in nondecreasing order.
pub fn sort_names(v: &mut Vec<String>)
    ensures
        final(v)@.len() == old(v)@.len(),
        sorted_names(views_of(final(v)@)),
        views_of(final(v)@).to_multiset() == views_of(old(v)@).to_multiset(),
{
    broadcast use group_to_multiset_ensures, to_multiset_insert, group_multiset_axioms, group_multiset_properties;

    let ghost orig = views_of(v@);
    if v.len() < 2 {
        return ;
    }
    let mut i: usize = 1;
    while i < v.len()
        invariant
            1 <= i,
            i <= v@.len(),
            v@.len() == old(v)@.len(),
            sorted_names(views_of(v@).take(i as int)),
            views_of(v@).to_multiset() == orig.to_multiset(),
            orig == views_of(old(v)@),
        decreases v@.len() - i,
    {
        let ghost pre = views_of(v@);
        let x = v.remove(i);
        let ghost removed = views_of(v@);
        proof {
            assert(removed =~= pre.remove(i as int));
        }
        let mut j: usize = 0;
        while j < i && str_lex_le(&v[j], x.as_str())
            invariant
                j <= i,
                i < pre.len(),
                v@.len() + 1 == pre.len(),
                views_of(v@) == pre.remove(i as int),
                forall|k: int| 0 <= k < j ==> lex_le(views_of(v@)[k], x@),
            decreases i - j,
        {
            j = j + 1;
        }
        proof {
            if j < i {
                lemma_lex_le_total(views_of(v@)[j as int], x@);
                assert(lex_le(x@, views_of(v@)[j as int]));
            }
        }
        let ghost j_stop = j;
        v.insert(j, x);
        proof {
            let now = views_of(v@);
            assert(now =~= pre.remove(i as int).insert(j_stop as int, x@));
            assert(now.to_multiset() == pre.to_multiset()) by {
                let shrunk = pre.remove(i as int);
                assert(pre[i as int] == x@);
                to_multiset_insert(shrunk, j_stop as int, x@);
                vstd::seq_lib::to_multiset_remove(pre, i as int);
                assert(shrunk.to_multiset() == pre.to_multiset().remove(x@));
                assert(pre.contains(x@));
                vstd::seq_lib::to_multiset_contains(pre, x@);
                assert(pre.to_multiset().count(x@) > 0);
                assert(pre.to_multiset().remove(x@).insert(x@) =~= pre.to_multiset());
            }
            assert forall|p: int, q: int| 0 <= p < q < i + 1 implies #[trigger] lex_le(
                views_of(v@).take(i + 1)[p],
                views_of(v@).take(i + 1)[q],
            ) by {
                let now = views_of(v@);
                let sorted_pre = pre.remove(i as int);
                assert(forall|k: int| 0 <= k < i ==> sorted_pre[k] == pre[k]);
                assert(forall|a: int, b: int|
                    0 <= a < b < i ==> lex_le(sorted_pre[a], sorted_pre[b])) by {
                    assert forall|a: int, b: int| 0 <= a < b < i implies lex_le(
                        sorted_pre[a],
                        sorted_pre[b],
                    ) by {
                        assert(lex_le(pre.take(i as int)[a], pre.take(i as int)[b]));
                    }
                }
                // Elements before the insertion point are at most `x`; the
                // rest of the sorted prefix is at least `x` by totality and
                // transitivity through the element at the stop position.
                if q < j_stop {
                    assert(now[p] == sorted_pre[p] && now[q] == sorted_pre[q]);
                } else if q == j_stop {
                    assert(now[q] == x@ && now[p] == sorted_pre[p]);
                } else {
                    assert(now[q] == sorted_pre[q - 1]);
                    if p > j_stop {
                        assert(now[p] == sorted_pre[p - 1]);
                    } else if p == j_stop {
                        assert(now[p] == x@);
                        if j_stop < i && j_stop < q - 1 {
                            lemma_lex_le_trans(x@, sorted_pre[j_stop as int], sorted_pre[q - 1]);
                        }
                    } else {
                        assert(now[p] == sorted_pre[p]);
                    }
                }
            }
        }
        i = i + 1;
    }
    proof {
        assert(views_of(v@).take(v@.len() as int) =~= views_of(v@));
    }
}

/// What joining a list of parts with a separator yields: the parts in
/// order, the separator between consecutive parts.
pub open spec fn spec_join(parts: Seq<Seq<char>>, sep: Seq<char>) -> Seq<char>
    decreases parts.len(),
{
    if parts.len() == 0 {
        Seq::empty()
    } else if parts.len() == 1 {
        parts[0]
    } else {
        parts[0] + sep + spec_join(parts.skip(1), sep)
    }
}

/// Appending one more part joins it after a separator (or alone when the
/// list was empty).
proof fn lemma_spec_join_push(parts: Seq<Seq<char>>, sep: Seq<char>, part: Seq<char>)
    ensures
        spec_join(parts.push(part), sep) == if parts.len() == 0 {
            part
        } else {
            spec_join(parts, sep) + sep + part
        },
    decreases parts.len(),
{
    if parts.len() == 0 {
        assert(parts.push(part)[0] == part);
    } else {
        lemma_spec_join_push(parts.skip(1), sep, part);
        assert(parts.push(part).skip(1) =~= parts.skip(1).push(part));
        if parts.len() == 1 {
            assert(spec_join(parts.push(part), sep) =~= parts[0] + sep + part);
            assert(spec_join(parts, sep) + sep + part =~= parts[0] + sep + part);
        } else {
            assert(spec_join(parts.push(part), sep) =~= parts[0] + sep + (spec_join(
                parts.skip(1),
                sep,
            ) + sep + part));
            assert(spec_join(parts, sep) + sep + part =~= parts[0] + sep + (spec_join(
                parts.skip(1),
                sep,
            ) + sep + part));
        }
    }
}

/// Joins a list of strings with a separator.
pub fn join_with(parts: &Vec<String>, sep: &str) -> (r: String)
    ensures
        r@ == spec_join(views_of(parts@), sep@),
{
    let mut r = String::new();
    let mut i: usize = 0;
    while i < parts.len()
        invariant
            i <= parts@.len(),
            r@ == spec_join(views_of(parts@).take(i as int), sep@),
        decreases parts@.len() - i,
    {
        if i > 0 {
            r.append(sep);
        }
        r.append(parts[i].as_str());
        proof {
            let views = views_of(parts@);
            lemma_spec_join_push(views.take(i as int), sep@, views[i as int]);
            assert(views.take(i as int).push(views[i as int]) =~= views.take(i + 1));
        }
        i = i + 1;
    }
    proof {
        assert(views_of(parts@).take(parts@.len() as int) =~= views_of(parts@));
    }
    r
}

} // verus!
