//! Line-oriented parsing of command output: tolerant splitting into lines
//! and extraction of workspace names from a workspace listing, stripping the
//! current-selection marker and surrounding whitespace.

use vstd::prelude::*;
use vstd::string::StrSliceExecFns;
use vstd::string::StringExecFns;
use crate::text::views_of;

verus! {

/// The whitespace characters trimmed from the ends of a line.
pub open spec fn is_space(c: char) -> bool {
    c == ' ' || c == '\t' || c == '\r' || c == '\n'
}

/// The string without its leading whitespace.
pub open spec fn trim_front(s: Seq<char>) -> Seq<char>
    decreases s.len(),
{
    if s.len() > 0 && is_space(s[0]) {
        trim_front(s.skip(1))
    } else {
        s
    }
}

/// The string without its trailing whitespace.
pub open spec fn trim_back(s: Seq<char>) -> Seq<char>
    decreases s.len(),
{
    if s.len() > 0 && is_space(s.last()) {
        trim_back(s.drop_last())
    } else {
        s
    }
}

/// The string without leading or trailing whitespace.
pub open spec fn trimmed(s: Seq<char>) -> Seq<char> {
    trim_back(trim_front(s))
}

/// The string without its leading selection markers (`*`).
pub open spec fn strip_stars(s: Seq<char>) -> Seq<char>
    decreases s.len(),
{
    if s.len() > 0 && s[0] == '*' {
        strip_stars(s.skip(1))
    } else {
        s
    }
}

/// One listing line reduced to the name it carries: whitespace trimmed, the
/// leading selection marker stripped, and whitespace trimmed again.
pub open spec fn cleaned_line(s: Seq<char>) -> Seq<char> {
    trimmed(strip_stars(trimmed(s)))
}

/// The string without one trailing carriage return.
pub open spec fn strip_cr(s: Seq<char>) -> Seq<char> {
    if s.len() > 0 && s.last() == '\r' {
        s.drop_last()
    } else {
        s
    }
}

/// Position of the first newline, or the length when there is none.
pub open spec fn newline_pos(s: Seq<char>) -> nat
    decreases s.len(),
{
    if s.len() == 0 {
        0
    } else if s[0] == '\n' {
        0
    } else {
        1 + newline_pos(s.skip(1))
    }
}

/// The lines of a string: pieces split on newline, each piece without one
/// trailing carriage return, with no empty piece after a final newline.
pub open spec fn spec_lines(s: Seq<char>) -> Seq<Seq<char>>
    decreases s.len(),
{
    if s.len() == 0 {
        Seq::empty()
    } else {
        let p = newline_pos(s);
        if p >= s.len() {
            seq![strip_cr(s)]
        } else {
            seq![strip_cr(s.take(p as int))] + spec_lines(s.skip(p as int + 1))
        }
    }
}

/// Lines reduced to cleaned names, empty results dropped, order kept.
pub open spec fn clean_nonempty(ls: Seq<Seq<char>>) -> Seq<Seq<char>>
    decreases ls.len(),
{
    if ls.len() == 0 {
        Seq::empty()
    } else {
        let rest = clean_nonempty(ls.drop_last());
        if cleaned_line(ls.last()).len() != 0 {
            rest.push(cleaned_line(ls.last()))
        } else {
            rest
        }
    }
}

/// The workspace names a listing yields: each line cleaned, empty lines
/// dropped, in the listing's order.
pub open spec fn spec_workspaces(s: Seq<char>) -> Seq<Seq<char>> {
    clean_nonempty(spec_lines(s))
}

/// A scan that saw no newline before `k`, and one (or the end) at `k`,
/// found `newline_pos`.
proof fn lemma_newline_pos_is(s: Seq<char>, k: nat)
    requires
        k <= s.len(),
        forall|m: int| 0 <= m < k ==> s[m] != '\n',
        k == s.len() || s[k as int] == '\n',
    ensures
        newline_pos(s) == k,
    decreases k,
{
    if k == 0 {
    } else {
        lemma_newline_pos_is(s.skip(1), (k - 1) as nat);
    }
}

/// Splits a string into its lines, as `str::lines` does: on newlines, with
/// one trailing carriage return removed from each line and no empty line
/// after a final newline.
pub fn split_lines(s: &str) -> (r: Vec<String>)
    ensures
        views_of(r@) == spec_lines(s@),
{
    let n = s.unicode_len();
    let mut r: Vec<String> = Vec::new();
    let mut i: usize = 0;
    proof {
        assert(views_of(r@) =~= Seq::<Seq<char>>::empty());
        assert(s@.skip(0) =~= s@);
        assert(views_of(r@) + spec_lines(s@.skip(0)) =~= spec_lines(s@));
    }
    while i < n
        invariant
            i <= n,
            n == s@.len(),
            views_of(r@) + spec_lines(s@.skip(i as int)) == spec_lines(s@),
        decreases n - i,
    {
        let ghost r_in = r@;
        let mut j: usize = i;
        while j < n && s.get_char(j) != '\n'
            invariant
                i <= j <= n,
                n == s@.len(),
                forall|m: int| i <= m < j ==> s@[m] != '\n',
            decreases n - j,
        {
            j = j + 1;
        }
        let mut e = j;
        if e > i && s.get_char(e - 1) == '\r' {
            e = e - 1;
        }
        let piece = s.substring_char(i, e);
        r.push(String::from_str(piece));
        proof {
            let t = s@.skip(i as int);
            assert(forall|m: int| 0 <= m < j - i ==> t[m] != '\n');
            lemma_newline_pos_is(t, (j - i) as nat);
            assert(t.take(j - i) =~= s@.subrange(i as int, j as int));
            assert(piece@ == strip_cr(t.take(j - i))) by {
                let raw = s@.subrange(i as int, j as int);
                if e < j {
                    assert(raw.last() == '\r');
                    assert(piece@ =~= raw.drop_last());
                } else if i < j {
                    assert(raw.last() == s@[j - 1]);
                    assert(piece@ =~= raw);
                } else {
                    assert(piece@ =~= raw);
                }
            }
            assert(views_of(r@) =~= views_of(r_in).push(piece@));
            if j < n {
                assert(t.skip(j - i + 1) =~= s@.skip(j + 1));
                assert(spec_lines(t) == seq![piece@] + spec_lines(s@.skip(j + 1)));
                assert(views_of(r@) + spec_lines(s@.skip(j + 1)) =~= views_of(r_in) + spec_lines(
                    t,
                ));
            } else {
                assert(spec_lines(t) == seq![piece@]);
                assert(s@.skip(n as int) =~= Seq::<char>::empty());
                assert(views_of(r@) + spec_lines(s@.skip(n as int)) =~= views_of(r_in)
                    + spec_lines(t));
            }
        }
        if j < n {
            i = j + 1;
        } else {
            i = n;
        }
    }
    proof {
        assert(s@.skip(n as int) =~= Seq::<char>::empty());
        assert(views_of(r@) + spec_lines(s@.skip(n as int)) =~= views_of(r@));
    }
    r
}

/// Whitespace between `a` and the stop of a forward scan is all that
/// `trim_front` removes from the range.
proof fn lemma_trim_front_range(s: Seq<char>, a: int, b: int, st: int)
    requires
        0 <= a <= st <= b <= s.len(),
        forall|k: int| a <= k < st ==> is_space(s[k]),
        st == b || !is_space(s[st]),
    ensures
        trim_front(s.subrange(a, b)) == s.subrange(st, b),
    decreases st - a,
{
    if st > a {
        assert(s.subrange(a, b)[0] == s[a]);
        assert(s.subrange(a, b).skip(1) =~= s.subrange(a + 1, b));
        lemma_trim_front_range(s, a + 1, b, st);
    } else {
        if a < b {
            assert(s.subrange(a, b)[0] == s[a]);
        }
    }
}

/// Whitespace between the stop of a backward scan and `b` is all that
/// `trim_back` removes from the range.
proof fn lemma_trim_back_range(s: Seq<char>, a: int, b: int, en: int)
    requires
        0 <= a <= en <= b <= s.len(),
        forall|k: int| en <= k < b ==> is_space(s[k]),
        en == a || !is_space(s[en - 1]),
    ensures
        trim_back(s.subrange(a, b)) == s.subrange(a, en),
    decreases b - en,
{
    if en < b {
        assert(s.subrange(a, b).last() == s[b - 1]);
        assert(s.subrange(a, b).drop_last() =~= s.subrange(a, b - 1));
        lemma_trim_back_range(s, a, b - 1, en);
    } else {
        if a < b {
            assert(s.subrange(a, b).last() == s[b - 1]);
        }
    }
}

/// Selection markers between `a` and the stop of a forward scan are all
/// that `strip_stars` removes from the range.
proof fn lemma_strip_stars_range(s: Seq<char>, a: int, b: int, st: int)
    requires
        0 <= a <= st <= b <= s.len(),
        forall|k: int| a <= k < st ==> s[k] == '*',
        st == b || s[st] != '*',
    ensures
        strip_stars(s.subrange(a, b)) == s.subrange(st, b),
    decreases st - a,
{
    if st > a {
        assert(s.subrange(a, b)[0] == s[a]);
        assert(s.subrange(a, b).skip(1) =~= s.subrange(a + 1, b));
        lemma_strip_stars_range(s, a + 1, b, st);
    } else {
        if a < b {
            assert(s.subrange(a, b)[0] == s[a]);
        }
    }
}

/// Reduces one listing line to the name it carries: whitespace trimmed, the
/// leading selection marker stripped, whitespace trimmed again.
pub fn clean_line(s: &str) -> (r: String)
    ensures
        r@ == cleaned_line(s@),
{
    let n = s.unicode_len();
    let mut st: usize = 0;
    while st < n && is_space_exec(s.get_char(st))
        invariant
            st <= n,
            n == s@.len(),
            forall|k: int| 0 <= k < st ==> is_space(s@[k]),
        decreases n - st,
    {
        st = st + 1;
    }
    let mut en: usize = n;
    while en > st && is_space_exec(s.get_char(en - 1))
        invariant
            st <= en <= n,
            n == s@.len(),
            forall|k: int| en <= k < n ==> is_space(s@[k]),
        decreases en,
    {
        en = en - 1;
    }
    proof {
        assert(s@.subrange(0, n as int) =~= s@);
        lemma_trim_front_range(s@, 0, n as int, st as int);
        lemma_trim_back_range(s@, st as int, n as int, en as int);
        assert(trimmed(s@) == s@.subrange(st as int, en as int));
    }
    // `st .. en` now bounds the whitespace-trimmed line.
    let mut sm: usize = st;
    while sm < en && s.get_char(sm) == '*'
        invariant
            st <= sm <= en,
            en <= n,
            n == s@.len(),
            forall|k: int| st <= k < sm ==> s@[k] == '*',
        decreases en - sm,
    {
        sm = sm + 1;
    }
    proof {
        lemma_strip_stars_range(s@, st as int, en as int, sm as int);
        assert(strip_stars(trimmed(s@)) == s@.subrange(sm as int, en as int));
    }
    // `sm .. en` bounds the line with its selection markers stripped.
    let mut st2: usize = sm;
    while st2 < en && is_space_exec(s.get_char(st2))
        invariant
            sm <= st2 <= en,
            en <= n,
            n == s@.len(),
            forall|k: int| sm <= k < st2 ==> is_space(s@[k]),
        decreases en - st2,
    {
        st2 = st2 + 1;
    }
    let mut en2: usize = en;
    while en2 > st2 && is_space_exec(s.get_char(en2 - 1))
        invariant
            st2 <= en2 <= en,
            en <= n,
            n == s@.len(),
            forall|k: int| en2 <= k < en ==> is_space(s@[k]),
        decreases en2,
    {
        en2 = en2 - 1;
    }
    proof {
        lemma_trim_front_range(s@, sm as int, en as int, st2 as int);
        lemma_trim_back_range(s@, st2 as int, en as int, en2 as int);
        assert(cleaned_line(s@) == s@.subrange(st2 as int, en2 as int));
    }
    let piece = s.substring_char(st2, en2);
    proof {
        assert(piece@ =~= s@.subrange(st2 as int, en2 as int));
    }
    String::from_str(piece)
}


/// Removes leading and trailing whitespace.
pub fn trim_str(s: &str) -> (r: String)
    ensures
        r@ == trimmed(s@),
{
    let n = s.unicode_len();
    let mut st: usize = 0;
    while st < n && is_space_exec(s.get_char(st))
        invariant
            st <= n,
            n == s@.len(),
            forall|k: int| 0 <= k < st ==> is_space(s@[k]),
        decreases n - st,
    {
        st = st + 1;
    }
    let mut en: usize = n;
    while en > st && is_space_exec(s.get_char(en - 1))
        invariant
            st <= en <= n,
            n == s@.len(),
            forall|k: int| en <= k < n ==> is_space(s@[k]),
        decreases en,
    {
        en = en - 1;
    }
    proof {
        assert(s@.subrange(0, n as int) =~= s@);
        lemma_trim_front_range(s@, 0, n as int, st as int);
        lemma_trim_back_range(s@, st as int, n as int, en as int);
        assert(trimmed(s@) == s@.subrange(st as int, en as int));
    }
    let piece = s.substring_char(st, en);
    proof {
        assert(piece@ =~= s@.subrange(st as int, en as int));
    }
    String::from_str(piece)
}

/// Whether the character counts as trimmable whitespace.
#[verifier::when_used_as_spec(is_space)]
pub fn is_space_exec(c: char) -> (r: bool)
    ensures
        r == is_space(c),
{
    c == ' ' || c == '\t' || c == '\r' || c == '\n'
}

/// Parses the output of a workspace listing: one name per line, the
/// current-selection marker and surrounding whitespace stripped, empty
/// lines dropped.
pub fn parse_workspace_output(output: &str) -> (r: Vec<String>)
    ensures
        views_of(r@) == spec_workspaces(output@),
{
    let lines = split_lines(output);
    let mut r: Vec<String> = Vec::new();
    let mut i: usize = 0;
    proof {
        assert(views_of(lines@).take(0) =~= Seq::<Seq<char>>::empty());
        assert(views_of(r@) =~= clean_nonempty(views_of(lines@).take(0)));
    }
    while i < lines.len()
        invariant
            i <= lines@.len(),
            views_of(lines@) == spec_lines(output@),
            views_of(r@) == clean_nonempty(views_of(lines@).take(i as int)),
        decreases lines@.len() - i,
    {
        let ghost r_in = r@;
        let c = clean_line(lines[i].as_str());
        let keep_it = !c.as_str().is_empty();
        if keep_it {
            r.push(c);
        }
        proof {
            let views = views_of(lines@);
            let part = views.take(i as int);
            let part2 = views.take(i + 1);
            assert(part2.drop_last() =~= part);
            assert(part2.last() == views[i as int]);
            assert(part2.len() > 0);
            if keep_it {
                assert(views_of(r@) =~= views_of(r_in).push(c@));
                assert(clean_nonempty(part2) == clean_nonempty(part).push(c@));
            } else {
                assert(clean_nonempty(part2) == clean_nonempty(part));
            }
        }
        i = i + 1;
    }
    proof {
        assert(views_of(lines@).take(lines@.len() as int) =~= views_of(lines@));
    }
    r
}

} // verus!
