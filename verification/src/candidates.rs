//! Generation of candidate names from a raw application name.
//!
//! The list holds, in first-seen order and deduplicated case-insensitively:
//! the name itself, the name with `.exe`, a snake_case normalization (with
//! `.exe`), an alphanumeric-only lowercase form (with `.exe`), and fixed
//! aliases for recognized product families.

use vstd::prelude::*;

use crate::extract::exe_marker;
use crate::extract::exe_marker_vec;
use crate::text::ends_with_spec;
use crate::text::ends_with_vec;
use crate::text::eq_ci;
use crate::text::eq_ci_vec;
use crate::text::is_alnum;
use crate::text::is_alnum_char;
use crate::text::lower_seq;
use crate::text::lower_vec;
use crate::text::trim_unquote_spec;
use crate::text::trim_unquote_vec;
use crate::text::vconcat;
use crate::text::veq_str;
use crate::text::views;
use crate::text::vtail;
use crate::text::chars_of;

verus! {

// ---------------------------------------------------------------------------
// Name normalizations
// ---------------------------------------------------------------------------

/// Core of the snake_case form: each maximal run of non-alphanumerics
/// becomes one underscore; `underscore` records whether a run is open.
pub open spec fn snake_core(s: Seq<char>, underscore: bool) -> Seq<char>
    decreases s.len(),
{
    if s.len() == 0 {
        Seq::empty()
    } else if is_alnum_char(s[0]) {
        seq![s[0]] + snake_core(s.drop_first(), false)
    } else if underscore {
        snake_core(s.drop_first(), true)
    } else {
        seq!['_'] + snake_core(s.drop_first(), true)
    }
}

/// snake_case form of an already lowercased name: runs of separators
/// collapsed to single underscores, then underscores stripped at both ends.
pub open spec fn snake_spec(low: Seq<char>) -> Seq<char> {
    crate::text::strip_matches_spec(snake_core(low, false), '_')
}

/// The alphanumeric characters of `s`, in order.
pub open spec fn alnum_only_spec(s: Seq<char>) -> Seq<char>
    decreases s.len(),
{
    if s.len() == 0 {
        Seq::empty()
    } else if is_alnum_char(s[0]) {
        seq![s[0]] + alnum_only_spec(s.drop_first())
    } else {
        alnum_only_spec(s.drop_first())
    }
}

/// Fuzzy-matching key: alphanumeric characters only, lowercased.
pub open spec fn key_spec(s: Seq<char>) -> Seq<char> {
    lower_seq(alnum_only_spec(s))
}

fn snake_core_x(v: &Vec<char>, underscore: bool) -> (r: Vec<char>)
    ensures
        r@ == snake_core(v@, underscore),
    decreases v@.len(),
{
    if v.len() == 0 {
        Vec::new()
    } else {
        let t = vtail(v);
        if is_alnum(v[0]) {
            let rest = snake_core_x(&t, false);
            let mut h: Vec<char> = Vec::new();
            h.push(v[0]);
            let r = vconcat(&h, &rest);
            proof {
                assert(h@ =~= seq![v@[0]]);
            }
            r
        } else if underscore {
            snake_core_x(&t, true)
        } else {
            let rest = snake_core_x(&t, true);
            let mut h: Vec<char> = Vec::new();
            h.push('_');
            let r = vconcat(&h, &rest);
            proof {
                assert(h@ =~= seq!['_']);
            }
            r
        }
    }
}

/// snake_case form of an already lowercased name.
pub fn snake_of(low: &Vec<char>) -> (r: Vec<char>)
    ensures
        r@ == snake_spec(low@),
{
    let core = snake_core_x(low, false);
    crate::text::strip_matches_vec(&core, '_')
}

/// The alphanumeric characters of `v`, in order.
pub fn alnum_only(v: &Vec<char>) -> (r: Vec<char>)
    ensures
        r@ == alnum_only_spec(v@),
    decreases v@.len(),
{
    if v.len() == 0 {
        Vec::new()
    } else {
        let t = vtail(v);
        if is_alnum(v[0]) {
            let rest = alnum_only(&t);
            let mut h: Vec<char> = Vec::new();
            h.push(v[0]);
            let r = vconcat(&h, &rest);
            proof {
                assert(h@ =~= seq![v@[0]]);
            }
            r
        } else {
            alnum_only(&t)
        }
    }
}

/// Fuzzy-matching key of a name.
pub fn key_of(v: &Vec<char>) -> (r: Vec<char>)
    ensures
        r@ == key_spec(v@),
{
    let a = alnum_only(v);
    lower_vec(&a)
}

// ---------------------------------------------------------------------------
// Candidate list construction
// ---------------------------------------------------------------------------

/// Case-insensitive membership in a list of names.
pub open spec fn contains_ci(list: Seq<Seq<char>>, v: Seq<char>) -> bool {
    exists|i: int| 0 <= i < list.len() && eq_ci(list[i], v)
}

/// Append `v` (trimmed and unquoted) unless empty or already present
/// case-insensitively.
pub open spec fn push_unique(list: Seq<Seq<char>>, v: Seq<char>) -> Seq<Seq<char>> {
    let w = trim_unquote_spec(v);
    if w.len() == 0 || contains_ci(list, w) {
        list
    } else {
        list.push(w)
    }
}

fn contains_ci_x(list: &Vec<Vec<char>>, v: &Vec<char>) -> (r: bool)
    ensures
        r == contains_ci(views(list@), v@),
{
    let mut i: usize = 0;
    while i < list.len()
        invariant
            i <= list@.len(),
            forall|j: int| 0 <= j < i ==> !eq_ci(views(list@)[j], v@),
        decreases list@.len() - i,
    {
        if eq_ci_vec(&list[i], v) {
            proof {
                assert(eq_ci(views(list@)[i as int], v@));
            }
            return true;
        }
        i = i + 1;
    }
    false
}

fn push_unique_x(list: &mut Vec<Vec<char>>, v: &Vec<char>)
    ensures
        views(final(list)@) == push_unique(views(old(list)@), v@),
{
    let w = trim_unquote_vec(v);
    if w.len() == 0 {
        return;
    }
    if contains_ci_x(list, &w) {
        return;
    }
    list.push(w);
    proof {
        assert(views(list@) =~= push_unique(views(old(list)@), v@));
    }
}

/// Whether a lowercased name belongs to the recognized Sublime Text family.
pub open spec fn is_sublime_alias(low: Seq<char>) -> bool {
    ||| low == "sublime text"@
    ||| low == "sublime-text"@
    ||| low == "sublime_text"@
    ||| low == "sublime text.exe"@
}

/// Ordered, case-insensitively deduplicated candidate names for a raw
/// application name; empty and whitespace-only names yield an empty list.
pub open spec fn candidates_spec(name: Seq<char>) -> Seq<Seq<char>> {
    let n = trim_unquote_spec(name);
    if n.len() == 0 {
        Seq::empty()
    } else {
        let low = lower_seq(n);
        let l1 = push_unique(Seq::empty(), n);
        let l2 = if !ends_with_spec(low, exe_marker()) {
            push_unique(l1, n + exe_marker())
        } else {
            l1
        };
        let sn = snake_spec(low);
        let l3 = if sn.len() > 0 {
            let a = push_unique(l2, sn);
            if !ends_with_spec(sn, exe_marker()) {
                push_unique(a, sn + exe_marker())
            } else {
                a
            }
        } else {
            l2
        };
        let al = alnum_only_spec(low);
        let l4 = if al.len() > 0 {
            push_unique(push_unique(l3, al), al + exe_marker())
        } else {
            l3
        };
        if is_sublime_alias(low) {
            push_unique(
                push_unique(push_unique(push_unique(l4, "subl"@), "subl.exe"@), "sublime_text"@),
                "sublime_text.exe"@,
            )
        } else {
            l4
        }
    }
}

/// Executable candidate generator.
pub fn candidates(name: &Vec<char>) -> (r: Vec<Vec<char>>)
    ensures
        views(r@) == candidates_spec(name@),
{
    let n = trim_unquote_vec(name);
    let mut out: Vec<Vec<char>> = Vec::new();
    proof {
        assert(views(out@) =~= Seq::<Seq<char>>::empty());
    }
    if n.len() == 0 {
        return out;
    }
    let marker = exe_marker_vec();
    let low = lower_vec(&n);
    push_unique_x(&mut out, &n);
    if !ends_with_vec(&low, &marker) {
        let withexe = vconcat(&n, &marker);
        push_unique_x(&mut out, &withexe);
    }
    let sn = snake_of(&low);
    if sn.len() > 0 {
        push_unique_x(&mut out, &sn);
        if !ends_with_vec(&sn, &marker) {
            let snexe = vconcat(&sn, &marker);
            push_unique_x(&mut out, &snexe);
        }
    }
    let al = alnum_only(&low);
    if al.len() > 0 {
        push_unique_x(&mut out, &al);
        let alexe = vconcat(&al, &marker);
        push_unique_x(&mut out, &alexe);
    }
    let alias = veq_str(&low, "sublime text") || veq_str(&low, "sublime-text") || veq_str(
        &low,
        "sublime_text",
    ) || veq_str(&low, "sublime text.exe");
    if alias {
        let a1 = chars_of("subl");
        push_unique_x(&mut out, &a1);
        let a2 = chars_of("subl.exe");
        push_unique_x(&mut out, &a2);
        let a3 = chars_of("sublime_text");
        push_unique_x(&mut out, &a3);
        let a4 = chars_of("sublime_text.exe");
        push_unique_x(&mut out, &a4);
    }
    out
}

/// Case-insensitive uniqueness of a list of names.
pub open spec fn ci_unique(list: Seq<Seq<char>>) -> bool {
    forall|i: int, j: int| 0 <= i < j < list.len() ==> !eq_ci(list[i], list[j])
}

proof fn lemma_push_unique_keeps_ci_unique(list: Seq<Seq<char>>, v: Seq<char>)
    requires
        ci_unique(list),
    ensures
        ci_unique(push_unique(list, v)),
{
    let w = trim_unquote_spec(v);
    if !(w.len() == 0 || contains_ci(list, w)) {
        let l2 = list.push(w);
        assert forall|i: int, j: int| 0 <= i < j < l2.len() implies !eq_ci(l2[i], l2[j]) by {
            if j == list.len() {
                assert(l2[i] == list[i]);
                assert(!eq_ci(list[i], w));
            } else {
                assert(l2[i] == list[i]);
                assert(l2[j] == list[j]);
            }
        }
    }
}

/// Candidates are case-insensitively unique within one resolution call:
/// deduplication keeps the first occurrence and drops every later spelling
/// of the same name.
pub proof fn lemma_candidates_ci_unique(name: Seq<char>)
    ensures
        ci_unique(candidates_spec(name)),
{
    let n = trim_unquote_spec(name);
    if n.len() != 0 {
        let low = lower_seq(n);
        assert(ci_unique(Seq::<Seq<char>>::empty()));
        lemma_push_unique_keeps_ci_unique(Seq::empty(), n);
        let l1 = push_unique(Seq::empty(), n);
        let l2 = if !ends_with_spec(low, exe_marker()) {
            lemma_push_unique_keeps_ci_unique(l1, n + exe_marker());
            push_unique(l1, n + exe_marker())
        } else {
            l1
        };
        let sn = snake_spec(low);
        let l3 = if sn.len() > 0 {
            lemma_push_unique_keeps_ci_unique(l2, sn);
            let a = push_unique(l2, sn);
            if !ends_with_spec(sn, exe_marker()) {
                lemma_push_unique_keeps_ci_unique(a, sn + exe_marker());
                push_unique(a, sn + exe_marker())
            } else {
                a
            }
        } else {
            l2
        };
        let al = alnum_only_spec(low);
        let l4 = if al.len() > 0 {
            lemma_push_unique_keeps_ci_unique(l3, al);
            lemma_push_unique_keeps_ci_unique(push_unique(l3, al), al + exe_marker());
            push_unique(push_unique(l3, al), al + exe_marker())
        } else {
            l3
        };
        if is_sublime_alias(low) {
            lemma_push_unique_keeps_ci_unique(l4, "subl"@);
            let a1 = push_unique(l4, "subl"@);
            lemma_push_unique_keeps_ci_unique(a1, "subl.exe"@);
            let a2 = push_unique(a1, "subl.exe"@);
            lemma_push_unique_keeps_ci_unique(a2, "sublime_text"@);
            let a3 = push_unique(a2, "sublime_text"@);
            lemma_push_unique_keeps_ci_unique(a3, "sublime_text.exe"@);
        }
    }
}

// ---------------------------------------------------------------------------
// Derived `.exe` names for the layered store lookup
// ---------------------------------------------------------------------------

/// The `.exe`-suffixed trailing file name of one candidate, if the candidate
/// is non-empty after normalization.
pub open spec fn exe_name_of_spec(c: Seq<char>) -> Option<Seq<char>> {
    let q = trim_unquote_spec(c);
    if q.len() == 0 {
        None
    } else {
        let f = crate::winpath::file_name_spec(q);
        let nm = if f.len() == 0 || f == seq!['.'] || f == seq!['.', '.'] {
            q
        } else {
            f
        };
        if ends_with_spec(lower_seq(nm), exe_marker()) {
            Some(nm)
        } else {
            Some(nm + exe_marker())
        }
    }
}

/// Fold of [`exe_name_of_spec`] over a candidate list with case-insensitive
/// deduplication, first occurrence winning.
pub open spec fn exe_names_acc(cands: Seq<Seq<char>>, acc: Seq<Seq<char>>) -> Seq<Seq<char>>
    decreases cands.len(),
{
    if cands.len() == 0 {
        acc
    } else {
        let acc2 = match exe_name_of_spec(cands[0]) {
            None => acc,
            Some(e) => if contains_ci(acc, e) {
                acc
            } else {
                acc.push(e)
            },
        };
        exe_names_acc(cands.drop_first(), acc2)
    }
}

/// The deduplicated `.exe` names derived from a candidate list.
pub open spec fn exe_names_spec(cands: Seq<Seq<char>>) -> Seq<Seq<char>> {
    exe_names_acc(cands, Seq::empty())
}

fn exe_name_of(c: &Vec<char>) -> (r: Option<Vec<char>>)
    ensures
        match r {
            Some(v) => exe_name_of_spec(c@) == Some(v@),
            None => exe_name_of_spec(c@) is None,
        },
{
    let q = trim_unquote_vec(c);
    if q.len() == 0 {
        return None;
    }
    let f = crate::winpath::file_name(&q);
    let dotted = f.len() == 1 && f[0] == '.';
    let dotdot = f.len() == 2 && f[0] == '.' && f[1] == '.';
    proof {
        if f@.len() == 1 {
            assert(dotted == (f@ == seq!['.'])) by {
                if f@[0] == '.' {
                    assert(f@ =~= seq!['.']);
                }
            }
        }
        if f@.len() == 2 {
            assert(dotdot == (f@ == seq!['.', '.'])) by {
                if f@[0] == '.' && f@[1] == '.' {
                    assert(f@ =~= seq!['.', '.']);
                }
            }
        }
    }
    let nm = if f.len() == 0 || dotted || dotdot {
        q
    } else {
        f
    };
    let marker = exe_marker_vec();
    let low = lower_vec(&nm);
    if ends_with_vec(&low, &marker) {
        Some(nm)
    } else {
        Some(vconcat(&nm, &marker))
    }
}

/// Executable derivation of the `.exe` name list.
pub fn exe_names(cands: &Vec<Vec<char>>) -> (r: Vec<Vec<char>>)
    ensures
        views(r@) == exe_names_spec(views(cands@)),
{
    let ghost cv = views(cands@);
    let mut acc: Vec<Vec<char>> = Vec::new();
    let mut i: usize = 0;
    proof {
        assert(cv.skip(0) =~= cv);
        assert(views(acc@) =~= Seq::<Seq<char>>::empty());
    }
    while i < cands.len()
        invariant
            i <= cands@.len(),
            cv == views(cands@),
            exe_names_acc(cv.skip(i as int), views(acc@)) == exe_names_acc(cv, Seq::empty()),
        decreases cands@.len() - i,
    {
        proof {
            assert(cv.skip(i as int)[0] == cv[i as int]);
            assert(cv.skip(i as int).drop_first() =~= cv.skip(i as int + 1));
        }
        match exe_name_of(&cands[i]) {
            None => {},
            Some(e) => {
                if !contains_ci_x(&acc, &e) {
                    let ghost prev = views(acc@);
                    let ghost ev = e@;
                    acc.push(e);
                    proof {
                        assert(views(acc@) =~= prev.push(ev));
                    }
                }
            },
        }
        i = i + 1;
    }
    proof {
        assert(cv.skip(cv.len() as int) =~= Seq::<Seq<char>>::empty());
    }
    acc
}

} // verus!
