//! Fuzzy matching of an executable among the files of a directory.
//!
//! Each entry with an `exe` extension is reduced to a lowercase alphanumeric
//! stem; it matches when that stem contains the key or the key contains the
//! stem. This is deliberately approximate: the first match in scan order
//! wins, with no claim of being the correct executable, only a plausible one.

use vstd::prelude::*;

use crate::candidates::alnum_only;
use crate::candidates::alnum_only_spec;
use crate::host::Host;
use crate::host::HostV;
use crate::host::dir_entries;
use crate::host::dir_entries_x;
use crate::text::contains_sub_spec;
use crate::text::contains_sub_vec;
use crate::text::lower_seq;
use crate::text::lower_vec;
use crate::text::views;
use crate::winpath::ext_exe;
use crate::winpath::ext_exe_vec;
use crate::winpath::has_ext;
use crate::winpath::has_ext_spec;
use crate::winpath::stem_of;
use crate::winpath::stem_spec;

verus! {

/// Lowercase alphanumeric reduction of an entry's stem.
pub open spec fn stem_key_spec(p: Seq<char>) -> Seq<char> {
    lower_seq(alnum_only_spec(stem_spec(p)))
}

/// Whether directory entry `e` heuristically matches `key`.
pub open spec fn entry_matches_spec(e: Seq<char>, key: Seq<char>) -> bool {
    has_ext_spec(e, ext_exe()) && (contains_sub_spec(stem_key_spec(e), key) || contains_sub_spec(
        key,
        stem_key_spec(e),
    ))
}

/// First matching entry of a listing, in scan order.
pub open spec fn dir_match_spec(entries: Seq<Seq<char>>, key: Seq<char>) -> Option<Seq<char>>
    decreases entries.len(),
{
    if entries.len() == 0 {
        None
    } else if entry_matches_spec(entries[0], key) {
        Some(entries[0])
    } else {
        dir_match_spec(entries.drop_first(), key)
    }
}

/// First heuristic match in directory `dir`; an unlistable directory yields
/// no match.
pub open spec fn sibling_in_dir_spec(h: HostV, dir: Seq<char>, key: Seq<char>) -> Option<Seq<char>> {
    match dir_entries(h, dir) {
        None => None,
        Some(es) => dir_match_spec(es, key),
    }
}

fn entry_matches(e: &Vec<char>, key: &Vec<char>) -> (r: bool)
    ensures
        r == entry_matches_spec(e@, key@),
{
    let exe = ext_exe_vec();
    if !has_ext(e, &exe) {
        return false;
    }
    let stem = stem_of(e);
    let a = alnum_only(&stem);
    let sk = lower_vec(&a);
    contains_sub_vec(&sk, key) || contains_sub_vec(key, &sk)
}

/// Executable sibling matcher for one directory.
pub fn sibling_in_dir(h: &Host, dir: &Vec<char>, key: &Vec<char>) -> (r: Option<Vec<char>>)
    ensures
        match r {
            Some(p) => sibling_in_dir_spec(h@, dir@, key@) == Some(p@),
            None => sibling_in_dir_spec(h@, dir@, key@) is None,
        },
{
    let entries = match dir_entries_x(h, dir) {
        None => {
            return None;
        },
        Some(es) => es,
    };
    let ghost ev = views(entries@);
    let mut i: usize = 0;
    proof {
        assert(ev.skip(0) =~= ev);
    }
    while i < entries.len()
        invariant
            i <= entries@.len(),
            ev == views(entries@),
            dir_entries(h@, dir@) == Some(ev),
            dir_match_spec(ev.skip(i as int), key@) == dir_match_spec(ev, key@),
        decreases entries@.len() - i,
    {
        proof {
            assert(ev.skip(i as int)[0] == ev[i as int]);
            assert(ev.skip(i as int).drop_first() =~= ev.skip(i as int + 1));
        }
        if entry_matches(&entries[i], key) {
            return Some(crate::text::vcopy(&entries[i]));
        }
        i = i + 1;
    }
    proof {
        assert(ev.skip(ev.len() as int) =~= Seq::<Seq<char>>::empty());
    }
    None
}

} // verus!
