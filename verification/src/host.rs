//! Snapshot of every external capability the resolver consults.
//!
//! A [`Host`] value carries environment variables, the set of paths known to
//! exist, readable file contents, directory listings, the hit lists of the
//! PATH-style search helper, and the layered "App Paths" key-value store.
//! Resolution is a pure function of the application name and one such
//! snapshot, so live adapters and test fakes populate it the same way.
//!
//! Every record is keyed by its exact character sequence: a path, query or
//! store key matches only the spelling under which it was recorded. A live
//! adapter therefore records facts under the very strings the pipeline will
//! ask about (see `crate::snapshot`).

use vstd::prelude::*;

use crate::text::chars_of;
use crate::text::vcopy;
use crate::text::veq;

verus! {

/// Root of one layer of the key-value store.
#[derive(Clone, Copy, Debug, PartialEq, Eq, Structural)]
pub enum RegRoot {
    CurrentUser,
    LocalMachine,
}

/// Kind of a stored value; only plain and environment-expandable text is meaningful.
#[derive(Clone, Copy, Debug, PartialEq, Eq, Structural)]
pub enum RegKind {
    Text,
    ExpandableText,
    Other,
}

/// One entry of the layered key-value store.
pub struct RegEntry {
    pub root: RegRoot,
    pub subkey: Vec<char>,
    pub kind: RegKind,
    pub value: Vec<char>,
}

/// Mathematical image of a [`RegEntry`].
pub ghost struct RegEntryV {
    pub root: RegRoot,
    pub subkey: Seq<char>,
    pub kind: RegKind,
    pub value: Seq<char>,
}

impl View for RegEntry {
    type V = RegEntryV;

    open spec fn view(&self) -> RegEntryV {
        RegEntryV { root: self.root, subkey: self.subkey@, kind: self.kind, value: self.value@ }
    }
}

/// Snapshot of the external world.
pub struct Host {
    pub env: Vec<(Vec<char>, Vec<char>)>,
    pub existing: Vec<Vec<char>>,
    pub files: Vec<(Vec<char>, Vec<char>)>,
    pub dirs: Vec<(Vec<char>, Vec<Vec<char>>)>,
    pub search: Vec<(Vec<char>, Vec<Vec<char>>)>,
    pub registry: Vec<RegEntry>,
}

/// Mathematical image of a [`Host`].
pub ghost struct HostV {
    pub env: Seq<(Seq<char>, Seq<char>)>,
    pub existing: Seq<Seq<char>>,
    pub files: Seq<(Seq<char>, Seq<char>)>,
    pub dirs: Seq<(Seq<char>, Seq<Seq<char>>)>,
    pub search: Seq<(Seq<char>, Seq<Seq<char>>)>,
    pub registry: Seq<RegEntryV>,
}

impl View for Host {
    type V = HostV;

    open spec fn view(&self) -> HostV {
        HostV {
            env: self.env@.map_values(|p: (Vec<char>, Vec<char>)| (p.0@, p.1@)),
            existing: self.existing@.map_values(|p: Vec<char>| p@),
            files: self.files@.map_values(|p: (Vec<char>, Vec<char>)| (p.0@, p.1@)),
            dirs: self.dirs@.map_values(
                |p: (Vec<char>, Vec<Vec<char>>)| (p.0@, p.1@.map_values(|e: Vec<char>| e@)),
            ),
            search: self.search@.map_values(
                |p: (Vec<char>, Vec<Vec<char>>)| (p.0@, p.1@.map_values(|e: Vec<char>| e@)),
            ),
            registry: self.registry@.map_values(|e: RegEntry| e@),
        }
    }
}

// ---------------------------------------------------------------------------
// Lookup specifications
// ---------------------------------------------------------------------------

/// First value bound to `k` in an association list.
pub open spec fn assoc_lookup(m: Seq<(Seq<char>, Seq<char>)>, k: Seq<char>) -> Option<Seq<char>>
    decreases m.len(),
{
    if m.len() == 0 {
        None
    } else if m[0].0 == k {
        Some(m[0].1)
    } else {
        assoc_lookup(m.drop_first(), k)
    }
}

/// First list bound to `k` in an association list of lists.
pub open spec fn assoc_lookup_list(
    m: Seq<(Seq<char>, Seq<Seq<char>>)>,
    k: Seq<char>,
) -> Option<Seq<Seq<char>>>
    decreases m.len(),
{
    if m.len() == 0 {
        None
    } else if m[0].0 == k {
        Some(m[0].1)
    } else {
        assoc_lookup_list(m.drop_first(), k)
    }
}

/// Value of environment variable `name`, case-sensitively.
pub open spec fn env_val(h: HostV, name: Seq<char>) -> Option<Seq<char>> {
    assoc_lookup(h.env, name)
}

/// Whether path `p` exists in the snapshot.
pub open spec fn path_exists(h: HostV, p: Seq<char>) -> bool {
    exists|i: int| 0 <= i < h.existing.len() && h.existing[i] == p
}

/// Readable content of the file at `p`; `None` models a failed read.
pub open spec fn file_content(h: HostV, p: Seq<char>) -> Option<Seq<char>> {
    assoc_lookup(h.files, p)
}

/// Entries (full paths) of directory `d`; `None` models a failed listing.
pub open spec fn dir_entries(h: HostV, d: Seq<char>) -> Option<Seq<Seq<char>>> {
    assoc_lookup_list(h.dirs, d)
}

/// Hits the PATH-style search helper reports for `q`; absence means no hits.
pub open spec fn search_hits(h: HostV, q: Seq<char>) -> Seq<Seq<char>> {
    match assoc_lookup_list(h.search, q) {
        None => Seq::empty(),
        Some(v) => v,
    }
}

/// First store entry under `(root, subkey)`, if any.
pub open spec fn reg_lookup(entries: Seq<RegEntryV>, root: RegRoot, subkey: Seq<char>) -> Option<
    RegEntryV,
>
    decreases entries.len(),
{
    if entries.len() == 0 {
        None
    } else if entries[0].root == root && entries[0].subkey == subkey {
        Some(entries[0])
    } else {
        reg_lookup(entries.drop_first(), root, subkey)
    }
}

// ---------------------------------------------------------------------------
// Executable lookups
// ---------------------------------------------------------------------------

pub fn env_val_x(h: &Host, name: &Vec<char>) -> (r: Option<Vec<char>>)
    ensures
        match r {
            Some(v) => env_val(h@, name@) == Some(v@),
            None => env_val(h@, name@) is None,
        },
{
    let mut i: usize = 0;
    proof {
        assert(h@.env.skip(0) =~= h@.env);
    }
    while i < h.env.len()
        invariant
            i <= h.env@.len(),
            assoc_lookup(h@.env.skip(i as int), name@) == assoc_lookup(h@.env, name@),
        decreases h.env@.len() - i,
    {
        proof {
            assert(h@.env[i as int] == (h.env@[i as int].0@, h.env@[i as int].1@));
        }
        if veq(&h.env[i].0, name) {
            proof {
                assert(h@.env.skip(i as int)[0] == h@.env[i as int]);
            }
            return Some(vcopy(&h.env[i].1));
        }
        proof {
            assert(h@.env.skip(i as int).drop_first() =~= h@.env.skip(i as int + 1));
            assert(h@.env.skip(i as int)[0] == h@.env[i as int]);
        }
        i = i + 1;
    }
    proof {
        assert(h@.env.skip(i as int) =~= h@.env.skip(h@.env.len() as int));
    }
    None
}

pub fn path_exists_x(h: &Host, p: &Vec<char>) -> (r: bool)
    ensures
        r == path_exists(h@, p@),
{
    let mut i: usize = 0;
    while i < h.existing.len()
        invariant
            i <= h.existing@.len(),
            forall|j: int| 0 <= j < i ==> h@.existing[j] != p@,
        decreases h.existing@.len() - i,
    {
        if veq(&h.existing[i], p) {
            proof {
                assert(h@.existing[i as int] == p@);
            }
            return true;
        }
        i = i + 1;
    }
    false
}

pub fn file_content_x(h: &Host, p: &Vec<char>) -> (r: Option<Vec<char>>)
    ensures
        match r {
            Some(v) => file_content(h@, p@) == Some(v@),
            None => file_content(h@, p@) is None,
        },
{
    let mut i: usize = 0;
    proof {
        assert(h@.files.skip(0) =~= h@.files);
    }
    while i < h.files.len()
        invariant
            i <= h.files@.len(),
            assoc_lookup(h@.files.skip(i as int), p@) == assoc_lookup(h@.files, p@),
        decreases h.files@.len() - i,
    {
        proof {
            assert(h@.files[i as int] == (h.files@[i as int].0@, h.files@[i as int].1@));
        }
        if veq(&h.files[i].0, p) {
            proof {
                assert(h@.files.skip(i as int)[0] == h@.files[i as int]);
            }
            return Some(vcopy(&h.files[i].1));
        }
        proof {
            assert(h@.files.skip(i as int).drop_first() =~= h@.files.skip(i as int + 1));
            assert(h@.files.skip(i as int)[0] == h@.files[i as int]);
        }
        i = i + 1;
    }
    proof {
        assert(h@.files.skip(i as int) =~= h@.files.skip(h@.files.len() as int));
    }
    None
}

fn copy_list(entries: &Vec<Vec<char>>) -> (r: Vec<Vec<char>>)
    ensures
        r@.map_values(|e: Vec<char>| e@) == entries@.map_values(|e: Vec<char>| e@),
{
    let mut r: Vec<Vec<char>> = Vec::new();
    let mut i: usize = 0;
    while i < entries.len()
        invariant
            i <= entries@.len(),
            r@.len() == i,
            forall|j: int| 0 <= j < i ==> r@[j]@ == entries@[j]@,
        decreases entries@.len() - i,
    {
        r.push(vcopy(&entries[i]));
        i = i + 1;
    }
    proof {
        assert(r@.map_values(|e: Vec<char>| e@) =~= entries@.map_values(|e: Vec<char>| e@));
    }
    r
}

pub fn dir_entries_x(h: &Host, d: &Vec<char>) -> (r: Option<Vec<Vec<char>>>)
    ensures
        match r {
            Some(v) => dir_entries(h@, d@) == Some(v@.map_values(|e: Vec<char>| e@)),
            None => dir_entries(h@, d@) is None,
        },
{
    let mut i: usize = 0;
    proof {
        assert(h@.dirs.skip(0) =~= h@.dirs);
    }
    while i < h.dirs.len()
        invariant
            i <= h.dirs@.len(),
            assoc_lookup_list(h@.dirs.skip(i as int), d@) == assoc_lookup_list(h@.dirs, d@),
        decreases h.dirs@.len() - i,
    {
        proof {
            assert(h@.dirs[i as int] == (
                h.dirs@[i as int].0@,
                h.dirs@[i as int].1@.map_values(|e: Vec<char>| e@),
            ));
        }
        if veq(&h.dirs[i].0, d) {
            proof {
                assert(h@.dirs.skip(i as int)[0] == h@.dirs[i as int]);
            }
            return Some(copy_list(&h.dirs[i].1));
        }
        proof {
            assert(h@.dirs.skip(i as int).drop_first() =~= h@.dirs.skip(i as int + 1));
            assert(h@.dirs.skip(i as int)[0] == h@.dirs[i as int]);
        }
        i = i + 1;
    }
    proof {
        assert(h@.dirs.skip(i as int) =~= h@.dirs.skip(h@.dirs.len() as int));
    }
    None
}

pub fn search_hits_x(h: &Host, q: &Vec<char>) -> (r: Vec<Vec<char>>)
    ensures
        r@.map_values(|e: Vec<char>| e@) == search_hits(h@, q@),
{
    let mut i: usize = 0;
    proof {
        assert(h@.search.skip(0) =~= h@.search);
    }
    while i < h.search.len()
        invariant
            i <= h.search@.len(),
            assoc_lookup_list(h@.search.skip(i as int), q@) == assoc_lookup_list(h@.search, q@),
        decreases h.search@.len() - i,
    {
        proof {
            assert(h@.search[i as int] == (
                h.search@[i as int].0@,
                h.search@[i as int].1@.map_values(|e: Vec<char>| e@),
            ));
        }
        if veq(&h.search[i].0, q) {
            proof {
                assert(h@.search.skip(i as int)[0] == h@.search[i as int]);
            }
            return copy_list(&h.search[i].1);
        }
        proof {
            assert(h@.search.skip(i as int).drop_first() =~= h@.search.skip(i as int + 1));
            assert(h@.search.skip(i as int)[0] == h@.search[i as int]);
        }
        i = i + 1;
    }
    proof {
        assert(h@.search.skip(i as int) =~= h@.search.skip(h@.search.len() as int));
        assert(Seq::<Vec<char>>::empty().map_values(|e: Vec<char>| e@) =~= Seq::<
            Seq<char>,
        >::empty());
    }
    Vec::new()
}

pub fn reg_lookup_x(h: &Host, root: RegRoot, subkey: &Vec<char>) -> (r: Option<(RegKind, Vec<char>)>)
    ensures
        match r {
            Some((k, v)) => {
                &&& reg_lookup(h@.registry, root, subkey@) is Some
                &&& reg_lookup(h@.registry, root, subkey@)->Some_0.kind == k
                &&& reg_lookup(h@.registry, root, subkey@)->Some_0.value == v@
            },
            None => reg_lookup(h@.registry, root, subkey@) is None,
        },
{
    let mut i: usize = 0;
    proof {
        assert(h@.registry.skip(0) =~= h@.registry);
    }
    while i < h.registry.len()
        invariant
            i <= h.registry@.len(),
            reg_lookup(h@.registry.skip(i as int), root, subkey@) == reg_lookup(
                h@.registry,
                root,
                subkey@,
            ),
        decreases h.registry@.len() - i,
    {
        proof {
            assert(h@.registry[i as int] == h.registry@[i as int]@);
        }
        if h.registry[i].root == root && veq(&h.registry[i].subkey, subkey) {
            proof {
                assert(h@.registry.skip(i as int)[0] == h@.registry[i as int]);
            }
            return Some((h.registry[i].kind, vcopy(&h.registry[i].value)));
        }
        proof {
            assert(h@.registry.skip(i as int).drop_first() =~= h@.registry.skip(i as int + 1));
            assert(h@.registry.skip(i as int)[0] == h@.registry[i as int]);
        }
        i = i + 1;
    }
    proof {
        assert(h@.registry.skip(i as int) =~= h@.registry.skip(h@.registry.len() as int));
    }
    None
}

// ---------------------------------------------------------------------------
// Snapshot construction
// ---------------------------------------------------------------------------

impl Host {
    /// Empty snapshot: no variables, no paths, no files, no listings, no
    /// search hits, no store entries.
    pub fn new() -> (h: Host)
        ensures
            h@.env.len() == 0,
            h@.existing.len() == 0,
            h@.files.len() == 0,
            h@.dirs.len() == 0,
            h@.search.len() == 0,
            h@.registry.len() == 0,
    {
        Host {
            env: Vec::new(),
            existing: Vec::new(),
            files: Vec::new(),
            dirs: Vec::new(),
            search: Vec::new(),
            registry: Vec::new(),
        }
    }

    /// Bind environment variable `name` to `value`.
    pub fn add_env(&mut self, name: &str, value: &str)
        ensures
            final(self)@ == (HostV { env: old(self)@.env.push((name@, value@)), ..old(self)@ }),
    {
        let n = chars_of(name);
        let v = chars_of(value);
        self.env.push((n, v));
        proof {
            assert(self@.env =~= old(self)@.env.push((name@, value@)));
            assert(self@.existing =~= old(self)@.existing);
            assert(self@.files =~= old(self)@.files);
            assert(self@.dirs =~= old(self)@.dirs);
            assert(self@.search =~= old(self)@.search);
            assert(self@.registry =~= old(self)@.registry);
        }
    }

    /// Record that path `p` exists.
    pub fn add_existing(&mut self, p: &str)
        ensures
            final(self)@ == (HostV { existing: old(self)@.existing.push(p@), ..old(self)@ }),
    {
        let v = chars_of(p);
        self.existing.push(v);
        proof {
            assert(self@.env =~= old(self)@.env);
            assert(self@.existing =~= old(self)@.existing.push(p@));
            assert(self@.files =~= old(self)@.files);
            assert(self@.dirs =~= old(self)@.dirs);
            assert(self@.search =~= old(self)@.search);
            assert(self@.registry =~= old(self)@.registry);
        }
    }

    /// Record the readable content of the file at `p`.
    pub fn add_file(&mut self, p: &str, content: &str)
        ensures
            final(self)@ == (HostV { files: old(self)@.files.push((p@, content@)), ..old(self)@ }),
    {
        let k = chars_of(p);
        let v = chars_of(content);
        self.files.push((k, v));
        proof {
            assert(self@.env =~= old(self)@.env);
            assert(self@.existing =~= old(self)@.existing);
            assert(self@.files =~= old(self)@.files.push((p@, content@)));
            assert(self@.dirs =~= old(self)@.dirs);
            assert(self@.search =~= old(self)@.search);
            assert(self@.registry =~= old(self)@.registry);
        }
    }

    /// Record the entries (full paths) of directory `d`.
    pub fn add_dir(&mut self, d: &str, entries: &Vec<String>)
        ensures
            final(self)@ == (HostV {
                dirs: old(self)@.dirs.push((d@, entries@.map_values(|e: String| e@))),
                ..old(self)@
            }),
    {
        let k = chars_of(d);
        let v = string_list(entries);
        self.dirs.push((k, v));
        proof {
            assert(self@.env =~= old(self)@.env);
            assert(self@.existing =~= old(self)@.existing);
            assert(self@.files =~= old(self)@.files);
            assert(self@.dirs =~= old(self)@.dirs.push(
                (d@, entries@.map_values(|e: String| e@)),
            ));
            assert(self@.search =~= old(self)@.search);
            assert(self@.registry =~= old(self)@.registry);
        }
    }

    /// Record the search helper's hit list for query `q`.
    pub fn add_search(&mut self, q: &str, hits: &Vec<String>)
        ensures
            final(self)@ == (HostV {
                search: old(self)@.search.push((q@, hits@.map_values(|e: String| e@))),
                ..old(self)@
            }),
    {
        let k = chars_of(q);
        let v = string_list(hits);
        self.search.push((k, v));
        proof {
            assert(self@.env =~= old(self)@.env);
            assert(self@.existing =~= old(self)@.existing);
            assert(self@.files =~= old(self)@.files);
            assert(self@.dirs =~= old(self)@.dirs);
            assert(self@.search =~= old(self)@.search.push(
                (q@, hits@.map_values(|e: String| e@)),
            ));
            assert(self@.registry =~= old(self)@.registry);
        }
    }

    /// Add one entry to the layered key-value store.
    pub fn add_registry(&mut self, root: RegRoot, subkey: &str, kind: RegKind, value: &str)
        ensures
            final(self)@ == (HostV {
                registry: old(self)@.registry.push(
                    RegEntryV { root, subkey: subkey@, kind, value: value@ },
                ),
                ..old(self)@
            }),
    {
        let k = chars_of(subkey);
        let v = chars_of(value);
        self.registry.push(RegEntry { root, subkey: k, kind, value: v });
        proof {
            assert(self@.env =~= old(self)@.env);
            assert(self@.existing =~= old(self)@.existing);
            assert(self@.files =~= old(self)@.files);
            assert(self@.dirs =~= old(self)@.dirs);
            assert(self@.search =~= old(self)@.search);
            assert(self@.registry =~= old(self)@.registry.push(
                RegEntryV { root, subkey: subkey@, kind, value: value@ },
            ));
        }
    }
}

/// Character vectors of a list of strings.
fn string_list(items: &Vec<String>) -> (r: Vec<Vec<char>>)
    ensures
        r@.map_values(|e: Vec<char>| e@) == items@.map_values(|e: String| e@),
{
    let mut r: Vec<Vec<char>> = Vec::new();
    let mut i: usize = 0;
    while i < items.len()
        invariant
            i <= items@.len(),
            r@.len() == i,
            forall|j: int| 0 <= j < i ==> r@[j]@ == items@[j]@,
        decreases items@.len() - i,
    {
        r.push(chars_of(items[i].as_str()));
        i = i + 1;
    }
    proof {
        assert(r@.map_values(|e: Vec<char>| e@) =~= items@.map_values(|e: String| e@));
    }
    r
}

} // verus!
