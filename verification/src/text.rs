//! Character-sequence utilities shared by every resolver component.
//!
//! Strings are handled as `Vec<char>` in executable code and as `Seq<char>`
//! in specifications. Whitespace and case folding are ASCII-only, matching
//! the ASCII-centric conventions of Windows command lines.

use vstd::prelude::*;

verus! {

// ---------------------------------------------------------------------------
// Character classes
// ---------------------------------------------------------------------------

/// ASCII whitespace: space, tab, line feed, vertical tab, form feed, carriage return.
pub open spec fn is_space_char(c: char) -> bool {
    c == ' ' || (c as u32 >= 9 && c as u32 <= 13)
}

/// ASCII letter or digit.
pub open spec fn is_alnum_char(c: char) -> bool {
    ('a' <= c && c <= 'z') || ('A' <= c && c <= 'Z') || ('0' <= c && c <= '9')
}

/// ASCII lowercase fold of one character; everything outside `A`-`Z` is unchanged.
pub open spec fn lower_char(c: char) -> char {
    if 'A' <= c && c <= 'Z' {
        ((c as u8) + 32) as char
    } else {
        c
    }
}

pub fn is_space(c: char) -> (r: bool)
    ensures
        r == is_space_char(c),
{
    c == ' ' || (c as u32 >= 9 && c as u32 <= 13)
}

pub fn is_alnum(c: char) -> (r: bool)
    ensures
        r == is_alnum_char(c),
{
    ('a' <= c && c <= 'z') || ('A' <= c && c <= 'Z') || ('0' <= c && c <= '9')
}

pub fn to_lower(c: char) -> (r: char)
    ensures
        r == lower_char(c),
{
    if 'A' <= c && c <= 'Z' {
        ((c as u8) + 32) as char
    } else {
        c
    }
}

// ---------------------------------------------------------------------------
// Sequence specifications
// ---------------------------------------------------------------------------

/// ASCII lowercase fold of a whole sequence.
pub open spec fn lower_seq(s: Seq<char>) -> Seq<char> {
    s.map_values(|c: char| lower_char(c))
}

/// Case-insensitive (ASCII) equality of two sequences.
pub open spec fn eq_ci(a: Seq<char>, b: Seq<char>) -> bool {
    lower_seq(a) == lower_seq(b)
}

pub open spec fn trim_start_spec(s: Seq<char>) -> Seq<char>
    decreases s.len(),
{
    if s.len() > 0 && is_space_char(s[0]) {
        trim_start_spec(s.drop_first())
    } else {
        s
    }
}

pub open spec fn trim_end_spec(s: Seq<char>) -> Seq<char>
    decreases s.len(),
{
    if s.len() > 0 && is_space_char(s.last()) {
        trim_end_spec(s.drop_last())
    } else {
        s
    }
}

/// ASCII-whitespace trim on both ends.
pub open spec fn trim_spec(s: Seq<char>) -> Seq<char> {
    trim_end_spec(trim_start_spec(s))
}

pub open spec fn strip_start_spec(s: Seq<char>, m: char) -> Seq<char>
    decreases s.len(),
{
    if s.len() > 0 && s[0] == m {
        strip_start_spec(s.drop_first(), m)
    } else {
        s
    }
}

pub open spec fn strip_end_spec(s: Seq<char>, m: char) -> Seq<char>
    decreases s.len(),
{
    if s.len() > 0 && s.last() == m {
        strip_end_spec(s.drop_last(), m)
    } else {
        s
    }
}

/// Remove every leading and trailing occurrence of `m`.
pub open spec fn strip_matches_spec(s: Seq<char>, m: char) -> Seq<char> {
    strip_end_spec(strip_start_spec(s, m), m)
}

/// Whitespace-trim, then strip surrounding double quotes: the normalization
/// applied to every externally supplied name or path fragment.
pub open spec fn trim_unquote_spec(s: Seq<char>) -> Seq<char> {
    strip_matches_spec(trim_spec(s), '"')
}

/// Index of the first occurrence of `c`, if any.
pub open spec fn find_char_spec(s: Seq<char>, c: char) -> Option<int>
    decreases s.len(),
{
    if s.len() == 0 {
        None
    } else if s[0] == c {
        Some(0int)
    } else {
        match find_char_spec(s.drop_first(), c) {
            None => None,
            Some(i) => Some(i + 1),
        }
    }
}

pub open spec fn starts_with_spec(s: Seq<char>, p: Seq<char>) -> bool {
    s.len() >= p.len() && s.take(p.len() as int) == p
}

pub open spec fn ends_with_spec(s: Seq<char>, p: Seq<char>) -> bool {
    s.len() >= p.len() && s.skip(s.len() - p.len()) == p
}

/// Index of the first occurrence of `p` as a contiguous subsequence, if any.
pub open spec fn find_sub_spec(s: Seq<char>, p: Seq<char>) -> Option<int>
    decreases s.len(),
{
    if p.len() == 0 {
        Some(0int)
    } else if s.len() < p.len() {
        None
    } else if starts_with_spec(s, p) {
        Some(0int)
    } else {
        match find_sub_spec(s.drop_first(), p) {
            None => None,
            Some(i) => Some(i + 1),
        }
    }
}

pub open spec fn contains_sub_spec(s: Seq<char>, p: Seq<char>) -> bool {
    find_sub_spec(s, p) is Some
}

/// A found character index is in range and holds the character.
pub proof fn lemma_find_char_props(s: Seq<char>, c: char)
    ensures
        match find_char_spec(s, c) {
            Some(i) => 0 <= i < s.len() && s[i] == c,
            None => true,
        },
    decreases s.len(),
{
    if s.len() > 0 && s[0] != c {
        lemma_find_char_props(s.drop_first(), c);
    }
}

// ---------------------------------------------------------------------------
// Vector helpers
// ---------------------------------------------------------------------------

/// Views of a sequence of character vectors.
pub open spec fn views(s: Seq<Vec<char>>) -> Seq<Seq<char>> {
    s.map_values(|e: Vec<char>| e@)
}

/// Copy of `v[i..j]`.
pub fn vsub(v: &Vec<char>, i: usize, j: usize) -> (r: Vec<char>)
    requires
        i <= j <= v@.len(),
    ensures
        r@ == v@.subrange(i as int, j as int),
{
    let mut r: Vec<char> = Vec::new();
    let mut k: usize = i;
    while k < j
        invariant
            i <= k <= j <= v@.len(),
            r@ == v@.subrange(i as int, k as int),
        decreases j - k,
    {
        r.push(v[k]);
        proof {
            assert(v@.subrange(i as int, k as int).push(v@[k as int]) =~= v@.subrange(
                i as int,
                k as int + 1,
            ));
        }
        k = k + 1;
    }
    r
}

/// Copy of the whole vector.
pub fn vcopy(v: &Vec<char>) -> (r: Vec<char>)
    ensures
        r@ == v@,
{
    let r = vsub(v, 0, v.len());
    proof {
        assert(v@.subrange(0, v@.len() as int) =~= v@);
    }
    r
}

/// Copy of `v` without its first character.
pub fn vtail(v: &Vec<char>) -> (r: Vec<char>)
    requires
        v@.len() > 0,
    ensures
        r@ == v@.drop_first(),
{
    vsub(v, 1, v.len())
}

/// Concatenation `a + b`.
pub fn vconcat(a: &Vec<char>, b: &Vec<char>) -> (r: Vec<char>)
    ensures
        r@ == a@ + b@,
{
    let mut r = vcopy(a);
    let mut k: usize = 0;
    while k < b.len()
        invariant
            k <= b@.len(),
            r@ == a@ + b@.subrange(0, k as int),
        decreases b@.len() - k,
    {
        r.push(b[k]);
        proof {
            assert((a@ + b@.subrange(0, k as int)).push(b@[k as int]) =~= a@ + b@.subrange(
                0,
                k as int + 1,
            ));
        }
        k = k + 1;
    }
    proof {
        assert(b@.subrange(0, b@.len() as int) =~= b@);
    }
    r
}

// ---------------------------------------------------------------------------
// String boundary conversions
// ---------------------------------------------------------------------------

/// Characters of a string slice.
pub fn chars_of(s: &str) -> (v: Vec<char>)
    ensures
        v@ == s@,
{
    let n = s.unicode_len();
    let mut v: Vec<char> = Vec::new();
    let mut i: usize = 0;
    while i < n
        invariant
            n == s@.len(),
            i <= n,
            v@ == s@.take(i as int),
        decreases n - i,
    {
        v.push(s.get_char(i));
        proof {
            assert(s@.take(i as int).push(s@[i as int]) =~= s@.take(i as int + 1));
        }
        i = i + 1;
    }
    proof {
        assert(s@.take(n as int) =~= s@);
    }
    v
}

/// Relies on `String::push`: appends exactly the given character.
#[verifier::external_body]
fn push_char(s: &mut String, c: char)
    ensures
        final(s)@ == old(s)@.push(c),
{
    s.push(c);
}

/// String with exactly the characters of `v`.
pub fn string_of(v: &Vec<char>) -> (s: String)
    ensures
        s@ == v@,
{
    let mut s = String::new();
    let mut i: usize = 0;
    while i < v.len()
        invariant
            i <= v@.len(),
            s@ == v@.take(i as int),
        decreases v@.len() - i,
    {
        push_char(&mut s, v[i]);
        proof {
            assert(v@.take(i as int).push(v@[i as int]) =~= v@.take(i as int + 1));
        }
        i = i + 1;
    }
    proof {
        assert(v@.take(v@.len() as int) =~= v@);
    }
    s
}

// ---------------------------------------------------------------------------
// Executable counterparts of the sequence functions
// ---------------------------------------------------------------------------

pub fn veq(a: &Vec<char>, b: &Vec<char>) -> (r: bool)
    ensures
        r == (a@ == b@),
{
    if a.len() != b.len() {
        return false;
    }
    let mut i: usize = 0;
    while i < a.len()
        invariant
            a@.len() == b@.len(),
            i <= a@.len(),
            forall|j: int| 0 <= j < i ==> a@[j] == b@[j],
        decreases a@.len() - i,
    {
        if a[i] != b[i] {
            return false;
        }
        i = i + 1;
    }
    proof {
        assert(a@ =~= b@);
    }
    true
}

/// Whether `v` holds exactly the characters of the string slice `s`.
pub fn veq_str(v: &Vec<char>, s: &str) -> (r: bool)
    ensures
        r == (v@ == s@),
{
    let n = s.unicode_len();
    if v.len() != n {
        return false;
    }
    let mut i: usize = 0;
    while i < n
        invariant
            n == s@.len(),
            v@.len() == n,
            i <= n,
            forall|j: int| 0 <= j < i ==> v@[j] == s@[j],
        decreases n - i,
    {
        if v[i] != s.get_char(i) {
            return false;
        }
        i = i + 1;
    }
    proof {
        assert(v@ =~= s@);
    }
    true
}

pub fn lower_vec(v: &Vec<char>) -> (r: Vec<char>)
    ensures
        r@ == lower_seq(v@),
{
    let mut r: Vec<char> = Vec::new();
    let mut i: usize = 0;
    while i < v.len()
        invariant
            i <= v@.len(),
            r@ == lower_seq(v@).take(i as int),
        decreases v@.len() - i,
    {
        r.push(to_lower(v[i]));
        proof {
            assert(lower_seq(v@).take(i as int).push(lower_seq(v@)[i as int]) =~= lower_seq(
                v@,
            ).take(i as int + 1));
        }
        i = i + 1;
    }
    proof {
        assert(lower_seq(v@).take(v@.len() as int) =~= lower_seq(v@));
    }
    r
}

pub fn eq_ci_vec(a: &Vec<char>, b: &Vec<char>) -> (r: bool)
    ensures
        r == eq_ci(a@, b@),
{
    if a.len() != b.len() {
        proof {
            assert(lower_seq(a@).len() != lower_seq(b@).len());
        }
        return false;
    }
    let mut i: usize = 0;
    while i < a.len()
        invariant
            a@.len() == b@.len(),
            i <= a@.len(),
            forall|j: int| 0 <= j < i ==> lower_seq(a@)[j] == lower_seq(b@)[j],
        decreases a@.len() - i,
    {
        if to_lower(a[i]) != to_lower(b[i]) {
            proof {
                assert(lower_seq(a@)[i as int] != lower_seq(b@)[i as int]);
            }
            return false;
        }
        i = i + 1;
    }
    proof {
        assert(lower_seq(a@) =~= lower_seq(b@));
    }
    true
}

pub fn trim_start_vec(v: &Vec<char>) -> (r: Vec<char>)
    ensures
        r@ == trim_start_spec(v@),
    decreases v@.len(),
{
    if v.len() > 0 && is_space(v[0]) {
        let t = vtail(v);
        trim_start_vec(&t)
    } else {
        vcopy(v)
    }
}

pub fn trim_end_vec(v: &Vec<char>) -> (r: Vec<char>)
    ensures
        r@ == trim_end_spec(v@),
    decreases v@.len(),
{
    if v.len() > 0 && is_space(v[v.len() - 1]) {
        let t = vsub(v, 0, v.len() - 1);
        proof {
            assert(v@.subrange(0, v@.len() - 1) =~= v@.drop_last());
        }
        trim_end_vec(&t)
    } else {
        vcopy(v)
    }
}

pub fn trim_vec(v: &Vec<char>) -> (r: Vec<char>)
    ensures
        r@ == trim_spec(v@),
{
    let t = trim_start_vec(v);
    trim_end_vec(&t)
}

pub fn strip_start_vec(v: &Vec<char>, m: char) -> (r: Vec<char>)
    ensures
        r@ == strip_start_spec(v@, m),
    decreases v@.len(),
{
    if v.len() > 0 && v[0] == m {
        let t = vtail(v);
        strip_start_vec(&t, m)
    } else {
        vcopy(v)
    }
}

pub fn strip_end_vec(v: &Vec<char>, m: char) -> (r: Vec<char>)
    ensures
        r@ == strip_end_spec(v@, m),
    decreases v@.len(),
{
    if v.len() > 0 && v[v.len() - 1] == m {
        let t = vsub(v, 0, v.len() - 1);
        proof {
            assert(v@.subrange(0, v@.len() - 1) =~= v@.drop_last());
        }
        strip_end_vec(&t, m)
    } else {
        vcopy(v)
    }
}

pub fn strip_matches_vec(v: &Vec<char>, m: char) -> (r: Vec<char>)
    ensures
        r@ == strip_matches_spec(v@, m),
{
    let t = strip_start_vec(v, m);
    strip_end_vec(&t, m)
}

pub fn trim_unquote_vec(v: &Vec<char>) -> (r: Vec<char>)
    ensures
        r@ == trim_unquote_spec(v@),
{
    let t = trim_vec(v);
    strip_matches_vec(&t, '"')
}

pub fn find_char_vec(v: &Vec<char>, c: char) -> (r: Option<usize>)
    ensures
        match r {
            Some(i) => i < v@.len() && find_char_spec(v@, c) == Some(i as int),
            None => find_char_spec(v@, c) is None,
        },
    decreases v@.len(),
{
    if v.len() == 0 {
        None
    } else if v[0] == c {
        Some(0)
    } else {
        let t = vtail(v);
        match find_char_vec(&t, c) {
            None => None,
            Some(i) => Some(i + 1),
        }
    }
}

pub fn starts_with_vec(v: &Vec<char>, p: &Vec<char>) -> (r: bool)
    ensures
        r == starts_with_spec(v@, p@),
{
    if v.len() < p.len() {
        return false;
    }
    let mut i: usize = 0;
    while i < p.len()
        invariant
            p@.len() <= v@.len(),
            i <= p@.len(),
            forall|j: int| 0 <= j < i ==> v@[j] == p@[j],
        decreases p@.len() - i,
    {
        if v[i] != p[i] {
            proof {
                assert(v@.take(p@.len() as int)[i as int] != p@[i as int]);
            }
            return false;
        }
        i = i + 1;
    }
    proof {
        assert(v@.take(p@.len() as int) =~= p@);
    }
    true
}

pub fn ends_with_vec(v: &Vec<char>, p: &Vec<char>) -> (r: bool)
    ensures
        r == ends_with_spec(v@, p@),
{
    if v.len() < p.len() {
        return false;
    }
    let offset = v.len() - p.len();
    let mut i: usize = 0;
    while i < p.len()
        invariant
            offset == v@.len() - p@.len(),
            v@.len() <= usize::MAX,
            i <= p@.len(),
            forall|j: int| 0 <= j < i ==> v@[offset + j] == p@[j],
        decreases p@.len() - i,
    {
        if v[offset + i] != p[i] {
            proof {
                assert(v@.skip(v@.len() - p@.len())[i as int] != p@[i as int]);
            }
            return false;
        }
        i = i + 1;
    }
    proof {
        assert(v@.skip(v@.len() - p@.len()) =~= p@);
    }
    true
}

pub fn find_sub_vec(v: &Vec<char>, p: &Vec<char>) -> (r: Option<usize>)
    ensures
        match r {
            Some(i) => i + p@.len() <= v@.len() && find_sub_spec(v@, p@) == Some(i as int),
            None => find_sub_spec(v@, p@) is None,
        },
    decreases v@.len(),
{
    if p.len() == 0 {
        Some(0)
    } else if v.len() < p.len() {
        None
    } else if starts_with_vec(v, p) {
        Some(0)
    } else {
        let t = vtail(v);
        match find_sub_vec(&t, p) {
            None => None,
            Some(i) => Some(i + 1),
        }
    }
}

pub fn contains_sub_vec(v: &Vec<char>, p: &Vec<char>) -> (r: bool)
    ensures
        r == contains_sub_spec(v@, p@),
{
    match find_sub_vec(v, p) {
        Some(_) => true,
        None => false,
    }
}

} // verus!
