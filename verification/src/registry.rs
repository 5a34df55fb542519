//! Lookup of executables through the layered "App Paths" key-value store.
//!
//! Three fixed layers are scanned in priority order: per-user, per-machine,
//! and the per-machine compatibility view. Within each layer every candidate
//! `.exe` name is tried in order; the first value that yields an existing
//! path wins. Values of any kind other than plain or environment-expandable
//! text are treated as absent.

use vstd::prelude::*;

use crate::expand::expand_env;
use crate::expand::expand_env_spec;
use crate::extract::extract_exe;
use crate::extract::extract_exe_spec;
use crate::host::Host;
use crate::host::HostV;
use crate::host::RegKind;
use crate::host::RegRoot;
use crate::host::path_exists;
use crate::host::path_exists_x;
use crate::host::reg_lookup;
use crate::host::reg_lookup_x;
use crate::text::chars_of;
use crate::text::trim_spec;
use crate::text::trim_unquote_spec;
use crate::text::trim_unquote_vec;
use crate::text::trim_vec;
use crate::text::vconcat;
use crate::text::views;

verus! {

/// Subkey prefix of the per-user and per-machine layers.
pub open spec fn app_paths_prefix() -> Seq<char> {
    "Software\\Microsoft\\Windows\\CurrentVersion\\App Paths\\"@
}

/// Subkey prefix of the per-machine compatibility view.
pub open spec fn wow_app_paths_prefix() -> Seq<char> {
    "Software\\WOW6432Node\\Microsoft\\Windows\\CurrentVersion\\App Paths\\"@
}

/// Executable copy of [`app_paths_prefix`].
pub fn app_paths_prefix_vec() -> (r: Vec<char>)
    ensures
        r@ == app_paths_prefix(),
{
    chars_of("Software\\Microsoft\\Windows\\CurrentVersion\\App Paths\\")
}

/// Executable copy of [`wow_app_paths_prefix`].
pub fn wow_app_paths_prefix_vec() -> (r: Vec<char>)
    ensures
        r@ == wow_app_paths_prefix(),
{
    chars_of("Software\\WOW6432Node\\Microsoft\\Windows\\CurrentVersion\\App Paths\\")
}

/// Meaningful stored value under `(root, subkey)`: present, of a textual
/// kind, and non-empty once trimmed.
pub open spec fn reg_value_ok_spec(h: HostV, root: RegRoot, subkey: Seq<char>) -> Option<Seq<char>> {
    match reg_lookup(h.registry, root, subkey) {
        None => None,
        Some(e) => {
            if e.kind == RegKind::Other {
                None
            } else {
                let v = trim_spec(e.value);
                if v.len() == 0 {
                    None
                } else {
                    Some(v)
                }
            }
        },
    }
}

/// One probe of `(root, prefix + exe)`: query the store, extract a token,
/// expand it, and accept only an existing path.
pub open spec fn probe_spec(h: HostV, root: RegRoot, prefix: Seq<char>, exe: Seq<char>) -> Option<
    Seq<char>,
> {
    match reg_value_ok_spec(h, root, prefix + exe) {
        None => None,
        Some(v) => match extract_exe_spec(v) {
            None => None,
            Some(tok) => {
                let path = trim_unquote_spec(expand_env_spec(tok, h.env));
                if path_exists(h, path) {
                    Some(path)
                } else {
                    None
                }
            },
        },
    }
}

/// Scan of one layer over all candidate `.exe` names, in order.
pub open spec fn scan_exes_spec(
    h: HostV,
    root: RegRoot,
    prefix: Seq<char>,
    exes: Seq<Seq<char>>,
) -> Option<Seq<char>>
    decreases exes.len(),
{
    if exes.len() == 0 {
        None
    } else {
        let e0 = trim_unquote_spec(exes[0]);
        let r = if e0.len() == 0 {
            None
        } else {
            probe_spec(h, root, prefix, e0)
        };
        match r {
            Some(x) => Some(x),
            None => scan_exes_spec(h, root, prefix, exes.drop_first()),
        }
    }
}

/// The full layered lookup: per-user, then per-machine, then the
/// compatibility view, each over every candidate name.
pub open spec fn reg_search_spec(h: HostV, exes: Seq<Seq<char>>) -> Option<Seq<char>> {
    match scan_exes_spec(h, RegRoot::CurrentUser, app_paths_prefix(), exes) {
        Some(x) => Some(x),
        None => match scan_exes_spec(h, RegRoot::LocalMachine, app_paths_prefix(), exes) {
            Some(x) => Some(x),
            None => scan_exes_spec(h, RegRoot::LocalMachine, wow_app_paths_prefix(), exes),
        },
    }
}

fn probe(h: &Host, root: RegRoot, prefix: &Vec<char>, exe: &Vec<char>) -> (r: Option<Vec<char>>)
    ensures
        match r {
            Some(x) => probe_spec(h@, root, prefix@, exe@) == Some(x@),
            None => probe_spec(h@, root, prefix@, exe@) is None,
        },
{
    let subkey = vconcat(prefix, exe);
    let (kind, raw) = match reg_lookup_x(h, root, &subkey) {
        None => {
            return None;
        },
        Some(kv) => kv,
    };
    if kind == RegKind::Other {
        return None;
    }
    let v = trim_vec(&raw);
    if v.len() == 0 {
        return None;
    }
    let tok = match extract_exe(&v) {
        None => {
            return None;
        },
        Some(t) => t,
    };
    let expanded = expand_env(&tok, h);
    let path = trim_unquote_vec(&expanded);
    if path_exists_x(h, &path) {
        Some(path)
    } else {
        None
    }
}

fn scan_exes(h: &Host, root: RegRoot, prefix: &Vec<char>, exes: &Vec<Vec<char>>) -> (r: Option<
    Vec<char>,
>)
    ensures
        match r {
            Some(x) => scan_exes_spec(h@, root, prefix@, views(exes@)) == Some(x@),
            None => scan_exes_spec(h@, root, prefix@, views(exes@)) is None,
        },
{
    let ghost ev = views(exes@);
    let mut i: usize = 0;
    proof {
        assert(ev.skip(0) =~= ev);
    }
    while i < exes.len()
        invariant
            i <= exes@.len(),
            ev == views(exes@),
            scan_exes_spec(h@, root, prefix@, ev.skip(i as int)) == scan_exes_spec(
                h@,
                root,
                prefix@,
                ev,
            ),
        decreases exes@.len() - i,
    {
        proof {
            assert(ev[i as int] == exes@[i as int]@);
            assert(ev.skip(i as int)[0] == ev[i as int]);
            assert(ev.skip(i as int).drop_first() =~= ev.skip(i as int + 1));
        }
        let e0 = trim_unquote_vec(&exes[i]);
        if e0.len() > 0 {
            if let Some(x) = probe(h, root, prefix, &e0) {
                return Some(x);
            }
        }
        i = i + 1;
    }
    proof {
        assert(ev.skip(ev.len() as int) =~= Seq::<Seq<char>>::empty());
    }
    None
}

/// Executable layered lookup over candidate `.exe` names.
pub fn reg_search(h: &Host, exes: &Vec<Vec<char>>) -> (r: Option<Vec<char>>)
    ensures
        match r {
            Some(x) => reg_search_spec(h@, views(exes@)) == Some(x@),
            None => reg_search_spec(h@, views(exes@)) is None,
        },
{
    let user_prefix = app_paths_prefix_vec();
    if let Some(x) = scan_exes(h, RegRoot::CurrentUser, &user_prefix, exes) {
        return Some(x);
    }
    if let Some(x) = scan_exes(h, RegRoot::LocalMachine, &user_prefix, exes) {
        return Some(x);
    }
    let wow_prefix = wow_app_paths_prefix_vec();
    scan_exes(h, RegRoot::LocalMachine, &wow_prefix, exes)
}

/// Within one layer, a store with no entry under any candidate's subkey
/// yields nothing.
proof fn lemma_scan_exes_absent(h: HostV, root: RegRoot, prefix: Seq<char>, exes: Seq<Seq<char>>)
    requires
        forall|i: int|
            0 <= i < exes.len() ==> reg_lookup(
                h.registry,
                root,
                prefix + trim_unquote_spec(exes[i]),
            ) is None,
    ensures
        scan_exes_spec(h, root, prefix, exes) is None,
    decreases exes.len(),
{
    if exes.len() > 0 {
        assert(reg_lookup(h.registry, root, prefix + trim_unquote_spec(exes[0])) is None);
        assert forall|i: int| 0 <= i < exes.drop_first().len() implies reg_lookup(
            h.registry,
            root,
            prefix + trim_unquote_spec(exes.drop_first()[i]),
        ) is None by {
            assert(exes.drop_first()[i] == exes[i + 1]);
        }
        lemma_scan_exes_absent(h, root, prefix, exes.drop_first());
    }
}

/// A store with no entry for any candidate `.exe` name in any of the three
/// layers yields no match.
pub proof fn lemma_reg_search_all_absent(h: HostV, exes: Seq<Seq<char>>)
    requires
        forall|i: int|
            0 <= i < exes.len() ==> reg_lookup(
                h.registry,
                RegRoot::CurrentUser,
                app_paths_prefix() + trim_unquote_spec(exes[i]),
            ) is None,
        forall|i: int|
            0 <= i < exes.len() ==> reg_lookup(
                h.registry,
                RegRoot::LocalMachine,
                app_paths_prefix() + trim_unquote_spec(exes[i]),
            ) is None,
        forall|i: int|
            0 <= i < exes.len() ==> reg_lookup(
                h.registry,
                RegRoot::LocalMachine,
                wow_app_paths_prefix() + trim_unquote_spec(exes[i]),
            ) is None,
    ensures
        reg_search_spec(h, exes) is None,
{
    lemma_scan_exes_absent(h, RegRoot::CurrentUser, app_paths_prefix(), exes);
    lemma_scan_exes_absent(h, RegRoot::LocalMachine, app_paths_prefix(), exes);
    lemma_scan_exes_absent(h, RegRoot::LocalMachine, wow_app_paths_prefix(), exes);
}

} // verus!
