//! Best-effort resolution of a human-supplied application name to an existing
//! executable path on a Windows-like host.
//!
//! The resolver is a pure function of the application name and a [`host::Host`]
//! snapshot that carries everything the pipeline may consult: environment
//! variables, existing paths, readable file contents, directory listings, the
//! output of a PATH-style search helper, and a layered "App Paths" key-value
//! store. Callers that want live behaviour populate the snapshot from the real
//! capabilities; tests populate it with deterministic fakes.
//!
//! The pipeline short-circuits on success: an existing absolute name is
//! returned verbatim; otherwise candidate names are tried one by one against
//! the PATH-style search, and on full failure the layered store is scanned.
//! Absence of a result is always "no match", never an error.

use vstd::prelude::*;

pub mod candidates;
pub mod cmdfile;
pub mod expand;
pub mod extract;
pub mod host;
pub mod registry;
pub mod search;
pub mod sibling;
pub mod snapshot;
pub mod text;
pub mod winpath;

use crate::candidates::candidates;
use crate::candidates::candidates_spec;
use crate::candidates::exe_names;
use crate::candidates::exe_names_spec;
use crate::candidates::key_of;
use crate::candidates::key_spec;
use crate::host::Host;
use crate::host::HostV;
use crate::host::path_exists;
use crate::host::path_exists_x;
use crate::registry::reg_search;
use crate::registry::reg_search_spec;
use crate::search::path_search;
use crate::search::path_search_spec;
use crate::text::chars_of;
use crate::text::is_space_char;
use crate::text::string_of;
use crate::text::trim_unquote_spec;
use crate::text::trim_unquote_vec;
use crate::text::views;
use crate::winpath::is_absolute;
use crate::winpath::is_absolute_spec;

verus! {

/// First success of the PATH-search step over the candidates, in order.
pub open spec fn search_phase_spec(cands: Seq<Seq<char>>, key: Seq<char>, h: HostV) -> Option<
    Seq<char>,
>
    decreases cands.len(),
{
    if cands.len() == 0 {
        None
    } else {
        match path_search_spec(cands[0], key, h) {
            Some(p) => Some(p),
            None => search_phase_spec(cands.drop_first(), key, h),
        }
    }
}

/// The name-based phases of the pipeline, applied to an already trimmed and
/// unquoted non-empty name: candidate generation, PATH search per candidate,
/// then the layered store over the derived `.exe` names.
pub open spec fn named_search_spec(n: Seq<char>, h: HostV) -> Option<Seq<char>> {
    let key = key_spec(n);
    let cands = candidates_spec(n);
    match search_phase_spec(cands, key, h) {
        Some(p) => Some(p),
        None => reg_search_spec(h, exe_names_spec(cands)),
    }
}

/// The full resolution pipeline for a raw application name.
pub open spec fn resolve_spec(name: Seq<char>, h: HostV) -> Option<Seq<char>> {
    let n = trim_unquote_spec(name);
    if n.len() == 0 {
        None
    } else if is_absolute_spec(n) && path_exists(h, n) {
        Some(n)
    } else {
        named_search_spec(n, h)
    }
}

/// Resolve an application name against the snapshot; the result, if any, is
/// exactly what [`resolve_spec`] selects for the name and the snapshot.
pub fn resolve_windows_app_path(app_name: &str, host: &Host) -> (r: Option<String>)
    ensures
        match r {
            Some(s) => resolve_spec(app_name@, host@) == Some(s@),
            None => resolve_spec(app_name@, host@) is None,
        },
{
    let raw = chars_of(app_name);
    let n = trim_unquote_vec(&raw);
    if n.len() == 0 {
        return None;
    }
    if is_absolute(&n) && path_exists_x(host, &n) {
        return Some(string_of(&n));
    }
    let key = key_of(&n);
    let cands = candidates(&n);
    let ghost cv = views(cands@);
    let mut i: usize = 0;
    proof {
        assert(cv.skip(0) =~= cv);
    }
    while i < cands.len()
        invariant
            i <= cands@.len(),
            cv == views(cands@),
            n@ == trim_unquote_spec(app_name@),
            n@.len() > 0,
            !(is_absolute_spec(n@) && path_exists(host@, n@)),
            cv == candidates_spec(n@),
            key@ == key_spec(n@),
            search_phase_spec(cv.skip(i as int), key@, host@) == search_phase_spec(
                cv,
                key@,
                host@,
            ),
        decreases cands@.len() - i,
    {
        proof {
            assert(cv[i as int] == cands@[i as int]@);
            assert(cv.skip(i as int)[0] == cv[i as int]);
            assert(cv.skip(i as int).drop_first() =~= cv.skip(i as int + 1));
        }
        if let Some(p) = path_search(&cands[i], &key, host) {
            return Some(string_of(&p));
        }
        i = i + 1;
    }
    proof {
        assert(cv.skip(cv.len() as int) =~= Seq::<Seq<char>>::empty());
    }
    let exes = exe_names(&cands);
    match reg_search(host, &exes) {
        Some(p) => Some(string_of(&p)),
        None => None,
    }
}

/// Whether resolution succeeds for the name against the snapshot.
pub fn check_windows_app(app_name: &str, host: &Host) -> (r: bool)
    ensures
        r == (resolve_spec(app_name@, host@) is Some),
{
    match resolve_windows_app_path(app_name, host) {
        Some(_) => true,
        None => false,
    }
}

// ---------------------------------------------------------------------------
// General properties of the pipeline
// ---------------------------------------------------------------------------

proof fn lemma_trim_start_all_space(s: Seq<char>)
    requires
        forall|i: int| 0 <= i < s.len() ==> is_space_char(s[i]),
    ensures
        crate::text::trim_start_spec(s).len() == 0,
    decreases s.len(),
{
    if s.len() > 0 {
        assert forall|i: int| 0 <= i < s.drop_first().len() implies is_space_char(
            s.drop_first()[i],
        ) by {
            assert(s.drop_first()[i] == s[i + 1]);
        }
        lemma_trim_start_all_space(s.drop_first());
    }
}

/// An empty or whitespace-only application name never matches.
pub proof fn lemma_blank_name_no_match(name: Seq<char>, h: HostV)
    requires
        forall|i: int| 0 <= i < name.len() ==> is_space_char(name[i]),
    ensures
        resolve_spec(name, h) is None,
{
    lemma_trim_start_all_space(name);
}

/// An absolute name that exists is returned verbatim (after trim and
/// unquote), whatever the search helper and the layered store hold: only the
/// existence record of `h` is consulted.
pub proof fn lemma_absolute_existing_returned(name: Seq<char>, h: HostV)
    requires
        is_absolute_spec(trim_unquote_spec(name)),
        path_exists(h, trim_unquote_spec(name)),
    ensures
        resolve_spec(name, h) == Some(trim_unquote_spec(name)),
{
}

/// An absolute name that does not exist falls through to the name-based
/// phases instead of failing outright.
pub proof fn lemma_absolute_missing_continues(name: Seq<char>, h: HostV)
    requires
        trim_unquote_spec(name).len() > 0,
        is_absolute_spec(trim_unquote_spec(name)),
        !path_exists(h, trim_unquote_spec(name)),
    ensures
        resolve_spec(name, h) == named_search_spec(trim_unquote_spec(name), h),
{
}

/// Resolution is a function of the name and the external state alone: two
/// results obtained for the same name under the same snapshot are equal.
pub proof fn lemma_resolution_idempotent(
    name: Seq<char>,
    h: HostV,
    r1: Option<Seq<char>>,
    r2: Option<Seq<char>>,
)
    requires
        r1 == resolve_spec(name, h),
        r2 == resolve_spec(name, h),
    ensures
        r1 == r2,
{
}

} // verus!
