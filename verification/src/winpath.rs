//! Textual model of Windows-like paths.
//!
//! Paths are plain character sequences. Both `\` and `/` separate components;
//! `\` is the canonical separator when a component is appended. The model is
//! deliberately simple: a parent is the text before the last separator, an
//! extension is the text after the last dot of the trailing file name, and a
//! drive-absolute path is a letter, a colon and a separator (or a UNC `\\`
//! prefix). No path ever touches the real filesystem here.

use vstd::prelude::*;

use crate::text::eq_ci;
use crate::text::vconcat;
use crate::text::vcopy;
use crate::text::vsub;
use crate::text::vtail;

verus! {

pub open spec fn is_sep_char(c: char) -> bool {
    c == '\\' || c == '/'
}

/// The `exe` extension.
pub open spec fn ext_exe() -> Seq<char> {
    seq!['e', 'x', 'e']
}

/// The `cmd` extension.
pub open spec fn ext_cmd() -> Seq<char> {
    seq!['c', 'm', 'd']
}

/// The `bat` extension.
pub open spec fn ext_bat() -> Seq<char> {
    seq!['b', 'a', 't']
}

/// Executable copy of [`ext_exe`].
pub fn ext_exe_vec() -> (r: Vec<char>)
    ensures
        r@ == ext_exe(),
{
    let mut r: Vec<char> = Vec::new();
    r.push('e');
    r.push('x');
    r.push('e');
    proof {
        assert(r@ =~= ext_exe());
    }
    r
}

/// Executable copy of [`ext_cmd`].
pub fn ext_cmd_vec() -> (r: Vec<char>)
    ensures
        r@ == ext_cmd(),
{
    let mut r: Vec<char> = Vec::new();
    r.push('c');
    r.push('m');
    r.push('d');
    proof {
        assert(r@ =~= ext_cmd());
    }
    r
}

/// Executable copy of [`ext_bat`].
pub fn ext_bat_vec() -> (r: Vec<char>)
    ensures
        r@ == ext_bat(),
{
    let mut r: Vec<char> = Vec::new();
    r.push('b');
    r.push('a');
    r.push('t');
    proof {
        assert(r@ =~= ext_bat());
    }
    r
}

pub open spec fn is_alpha_char(c: char) -> bool {
    ('a' <= c && c <= 'z') || ('A' <= c && c <= 'Z')
}

/// Drive-absolute (`X:\...`, `X:/...`) or UNC (`\\...`) path.
pub open spec fn is_absolute_spec(p: Seq<char>) -> bool {
    ||| (p.len() >= 2 && is_sep_char(p[0]) && is_sep_char(p[1]))
    ||| (p.len() >= 3 && is_alpha_char(p[0]) && p[1] == ':' && is_sep_char(p[2]))
}

pub fn is_absolute(p: &Vec<char>) -> (r: bool)
    ensures
        r == is_absolute_spec(p@),
{
    if p.len() >= 2 && (p[0] == '\\' || p[0] == '/') && (p[1] == '\\' || p[1] == '/') {
        return true;
    }
    if p.len() >= 3 && (('a' <= p[0] && p[0] <= 'z') || ('A' <= p[0] && p[0] <= 'Z')) && p[1] == ':'
        && (p[2] == '\\' || p[2] == '/') {
        return true;
    }
    false
}

/// Index of the last separator, if any.
pub open spec fn last_sep_idx(p: Seq<char>) -> Option<int>
    decreases p.len(),
{
    if p.len() == 0 {
        None
    } else if is_sep_char(p.last()) {
        Some(p.len() - 1)
    } else {
        last_sep_idx(p.drop_last())
    }
}

pub fn last_sep(p: &Vec<char>) -> (r: Option<usize>)
    ensures
        match r {
            Some(i) => i < p@.len() && last_sep_idx(p@) == Some(i as int),
            None => last_sep_idx(p@) is None,
        },
{
    let mut k: usize = p.len();
    proof {
        assert(p@.take(p@.len() as int) =~= p@);
    }
    while k > 0
        invariant
            k <= p@.len(),
            last_sep_idx(p@.take(k as int)) == last_sep_idx(p@),
        decreases k,
    {
        if p[k - 1] == '\\' || p[k - 1] == '/' {
            proof {
                assert(p@.take(k as int).last() == p@[k as int - 1]);
            }
            return Some(k - 1);
        }
        proof {
            assert(p@.take(k as int).drop_last() =~= p@.take(k as int - 1));
        }
        k = k - 1;
    }
    proof {
        assert(p@.take(0) =~= Seq::<char>::empty());
    }
    None
}

/// Index of the last occurrence of `c`, if any.
pub open spec fn last_char_idx(s: Seq<char>, c: char) -> Option<int>
    decreases s.len(),
{
    if s.len() == 0 {
        None
    } else if s.last() == c {
        Some(s.len() - 1)
    } else {
        last_char_idx(s.drop_last(), c)
    }
}

pub fn last_char(s: &Vec<char>, c: char) -> (r: Option<usize>)
    ensures
        match r {
            Some(i) => i < s@.len() && last_char_idx(s@, c) == Some(i as int),
            None => last_char_idx(s@, c) is None,
        },
{
    let mut k: usize = s.len();
    proof {
        assert(s@.take(s@.len() as int) =~= s@);
    }
    while k > 0
        invariant
            k <= s@.len(),
            last_char_idx(s@.take(k as int), c) == last_char_idx(s@, c),
        decreases k,
    {
        if s[k - 1] == c {
            proof {
                assert(s@.take(k as int).last() == s@[k as int - 1]);
            }
            return Some(k - 1);
        }
        proof {
            assert(s@.take(k as int).drop_last() =~= s@.take(k as int - 1));
        }
        k = k - 1;
    }
    proof {
        assert(s@.take(0) =~= Seq::<char>::empty());
    }
    None
}

/// Trailing file-name portion: everything after the last separator.
pub open spec fn file_name_spec(p: Seq<char>) -> Seq<char> {
    match last_sep_idx(p) {
        None => p,
        Some(i) => p.skip(i + 1),
    }
}

pub fn file_name(p: &Vec<char>) -> (r: Vec<char>)
    ensures
        r@ == file_name_spec(p@),
{
    match last_sep(p) {
        None => vcopy(p),
        Some(i) => {
            let n = p.len();
            let r = vsub(p, i + 1, n);
            proof {
                assert(p@.subrange(i as int + 1, p@.len() as int) =~= p@.skip(i as int + 1));
            }
            r
        },
    }
}

/// Extension of the trailing file name: the text after its last dot, provided
/// the dot is not the name's first character.
pub open spec fn ext_spec(p: Seq<char>) -> Option<Seq<char>> {
    let f = file_name_spec(p);
    match last_char_idx(f, '.') {
        None => None,
        Some(i) => if i >= 1 {
            Some(f.skip(i + 1))
        } else {
            None
        },
    }
}

/// File name without its extension.
pub open spec fn stem_spec(p: Seq<char>) -> Seq<char> {
    let f = file_name_spec(p);
    match last_char_idx(f, '.') {
        None => f,
        Some(i) => if i >= 1 {
            f.take(i)
        } else {
            f
        },
    }
}

/// Case-insensitive extension test, e.g. `has_ext_spec(p, "exe"@)`.
pub open spec fn has_ext_spec(p: Seq<char>, e: Seq<char>) -> bool {
    match ext_spec(p) {
        None => false,
        Some(x) => eq_ci(x, e),
    }
}

pub open spec fn has_no_ext_spec(p: Seq<char>) -> bool {
    ext_spec(p) is None
}

/// Extension of the trailing file name, if any.
pub fn ext_of(p: &Vec<char>) -> (r: Option<Vec<char>>)
    ensures
        match r {
            Some(x) => ext_spec(p@) == Some(x@),
            None => ext_spec(p@) is None,
        },
{
    let f = file_name(p);
    match last_char(&f, '.') {
        None => None,
        Some(i) => {
            if i >= 1 {
                let n = f.len();
                let r = vsub(&f, i + 1, n);
                proof {
                    assert(f@.subrange(i as int + 1, f@.len() as int) =~= f@.skip(i as int + 1));
                }
                Some(r)
            } else {
                None
            }
        },
    }
}

pub fn has_ext(p: &Vec<char>, e: &Vec<char>) -> (r: bool)
    ensures
        r == has_ext_spec(p@, e@),
{
    match ext_of(p) {
        None => false,
        Some(x) => crate::text::eq_ci_vec(&x, e),
    }
}

pub fn has_no_ext(p: &Vec<char>) -> (r: bool)
    ensures
        r == has_no_ext_spec(p@),
{
    match ext_of(p) {
        None => true,
        Some(_) => false,
    }
}

/// File name without its extension.
pub fn stem_of(p: &Vec<char>) -> (r: Vec<char>)
    ensures
        r@ == stem_spec(p@),
{
    let f = file_name(p);
    match last_char(&f, '.') {
        None => f,
        Some(i) => {
            if i >= 1 {
                let r = vsub(&f, 0, i);
                proof {
                    assert(f@.subrange(0, i as int) =~= f@.take(i as int));
                }
                r
            } else {
                f
            }
        },
    }
}

/// Text before the last separator; `None` when there is no separator.
pub open spec fn parent_spec(p: Seq<char>) -> Option<Seq<char>> {
    match last_sep_idx(p) {
        None => None,
        Some(i) => Some(p.take(i)),
    }
}

pub fn parent_of(p: &Vec<char>) -> (r: Option<Vec<char>>)
    ensures
        match r {
            Some(q) => parent_spec(p@) == Some(q@),
            None => parent_spec(p@) is None,
        },
{
    match last_sep(p) {
        None => None,
        Some(i) => {
            let r = vsub(p, 0, i);
            proof {
                assert(p@.subrange(0, i as int) =~= p@.take(i as int));
            }
            Some(r)
        },
    }
}

/// Drop the last component; a path with no separator is left unchanged.
pub open spec fn pop_comp_spec(p: Seq<char>) -> Seq<char> {
    match parent_spec(p) {
        None => p,
        Some(q) => q,
    }
}

pub fn pop_comp(p: &Vec<char>) -> (r: Vec<char>)
    ensures
        r@ == pop_comp_spec(p@),
{
    match parent_of(p) {
        None => vcopy(p),
        Some(q) => q,
    }
}

/// Append one component, inserting a backslash where needed.
pub open spec fn push_comp_spec(p: Seq<char>, comp: Seq<char>) -> Seq<char> {
    if p.len() == 0 {
        comp
    } else if is_sep_char(p.last()) {
        p + comp
    } else {
        p + seq!['\\'] + comp
    }
}

pub fn push_comp(p: &Vec<char>, comp: &Vec<char>) -> (r: Vec<char>)
    ensures
        r@ == push_comp_spec(p@, comp@),
{
    if p.len() == 0 {
        vcopy(comp)
    } else if p[p.len() - 1] == '\\' || p[p.len() - 1] == '/' {
        vconcat(p, comp)
    } else {
        let mut q = vcopy(p);
        q.push('\\');
        proof {
            assert(q@ =~= p@ + seq!['\\']);
        }
        vconcat(&q, comp)
    }
}

/// `/` replaced by `\` throughout.
pub open spec fn normalize_seps_spec(s: Seq<char>) -> Seq<char> {
    s.map_values(|c: char| if c == '/' { '\\' } else { c })
}

pub fn normalize_seps(s: &Vec<char>) -> (r: Vec<char>)
    ensures
        r@ == normalize_seps_spec(s@),
{
    let mut r: Vec<char> = Vec::new();
    let mut i: usize = 0;
    while i < s.len()
        invariant
            i <= s@.len(),
            r@ == normalize_seps_spec(s@).take(i as int),
        decreases s@.len() - i,
    {
        if s[i] == '/' {
            r.push('\\');
        } else {
            r.push(s[i]);
        }
        proof {
            assert(normalize_seps_spec(s@).take(i as int).push(normalize_seps_spec(s@)[i as int])
                =~= normalize_seps_spec(s@).take(i as int + 1));
        }
        i = i + 1;
    }
    proof {
        assert(normalize_seps_spec(s@).take(s@.len() as int) =~= normalize_seps_spec(s@));
    }
    r
}

/// Split on `c`; a string without `c` yields one segment, and every
/// occurrence of `c` starts a new (possibly empty) segment.
pub open spec fn split_char_spec(s: Seq<char>, c: char) -> Seq<Seq<char>>
    decreases s.len(),
{
    if s.len() == 0 {
        seq![Seq::<char>::empty()]
    } else {
        let rest = split_char_spec(s.drop_first(), c);
        if s[0] == c {
            seq![Seq::<char>::empty()] + rest
        } else {
            seq![seq![s[0]] + rest[0]] + rest.drop_first()
        }
    }
}

pub proof fn lemma_split_char_nonempty(s: Seq<char>, c: char)
    ensures
        split_char_spec(s, c).len() >= 1,
    decreases s.len(),
{
    if s.len() > 0 {
        lemma_split_char_nonempty(s.drop_first(), c);
    }
}

pub fn split_char(v: &Vec<char>, c: char) -> (r: Vec<Vec<char>>)
    ensures
        r@.len() >= 1,
        r@.map_values(|e: Vec<char>| e@) == split_char_spec(v@, c),
    decreases v@.len(),
{
    if v.len() == 0 {
        let mut r: Vec<Vec<char>> = Vec::new();
        r.push(Vec::new());
        proof {
            assert(r@.map_values(|e: Vec<char>| e@) =~= split_char_spec(v@, c));
        }
        r
    } else {
        let t = vtail(v);
        let mut rest = split_char(&t, c);
        if v[0] == c {
            rest.insert(0, Vec::new());
            proof {
                assert(rest@.map_values(|e: Vec<char>| e@) =~= split_char_spec(v@, c));
            }
            rest
        } else {
            let head = rest.remove(0);
            let mut h: Vec<char> = Vec::new();
            h.push(v[0]);
            let nh = vconcat(&h, &head);
            rest.insert(0, nh);
            proof {
                assert(h@ =~= seq![v@[0]]);
                assert(rest@.map_values(|e: Vec<char>| e@) =~= split_char_spec(v@, c));
            }
            rest
        }
    }
}

/// Interpret path components against a base directory: empty and `.` are
/// skipped, `..` drops one level, anything else is appended.
pub open spec fn apply_comps_spec(base: Seq<char>, parts: Seq<Seq<char>>) -> Seq<char>
    decreases parts.len(),
{
    if parts.len() == 0 {
        base
    } else {
        let p0 = parts[0];
        let b = if p0.len() == 0 || p0 == seq!['.'] {
            base
        } else if p0 == seq!['.', '.'] {
            pop_comp_spec(base)
        } else {
            push_comp_spec(base, p0)
        };
        apply_comps_spec(b, parts.drop_first())
    }
}

pub fn apply_comps(base: &Vec<char>, parts: &Vec<Vec<char>>) -> (r: Vec<char>)
    ensures
        r@ == apply_comps_spec(base@, parts@.map_values(|e: Vec<char>| e@)),
{
    let mut cur = vcopy(base);
    let mut i: usize = 0;
    let ghost pv = parts@.map_values(|e: Vec<char>| e@);
    proof {
        assert(pv.skip(0) =~= pv);
    }
    while i < parts.len()
        invariant
            i <= parts@.len(),
            pv == parts@.map_values(|e: Vec<char>| e@),
            apply_comps_spec(cur@, pv.skip(i as int)) == apply_comps_spec(base@, pv),
        decreases parts@.len() - i,
    {
        let p = &parts[i];
        proof {
            assert(pv.skip(i as int)[0] == pv[i as int]);
            assert(pv.skip(i as int).drop_first() =~= pv.skip(i as int + 1));
        }
        if p.len() == 0 {
            // skipped
        } else if p.len() == 1 && p[0] == '.' {
            proof {
                assert(pv[i as int] =~= seq!['.']);
            }
        } else {
            proof {
                if pv[i as int].len() == 1 {
                    assert(pv[i as int] != seq!['.']);
                }
            }
            if p.len() == 2 && p[0] == '.' && p[1] == '.' {
                proof {
                    assert(pv[i as int] =~= seq!['.', '.']);
                }
                cur = pop_comp(&cur);
            } else {
                proof {
                    if pv[i as int].len() == 2 {
                        assert(pv[i as int] != seq!['.', '.']);
                    }
                    assert(pv[i as int] != seq!['.']);
                }
                cur = push_comp(&cur, p);
            }
        }
        i = i + 1;
    }
    proof {
        assert(pv.skip(pv.len() as int) =~= Seq::<Seq<char>>::empty());
    }
    cur
}

} // verus!
