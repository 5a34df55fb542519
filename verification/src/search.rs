//! Selection of one result from a PATH-style search.
//!
//! Over the hit list of one candidate query, in priority: the first `.exe`
//! hit; then launcher-file indirection for `.cmd`/`.bat` hits (or
//! extension-less hits with a script sibling); then the sibling heuristic
//! against each hit's parent, grandparent and great-grandparent; finally the
//! first raw hit as-is.

use vstd::prelude::*;

use crate::cmdfile::resolve_cmd;
use crate::cmdfile::resolve_cmd_spec;
use crate::host::Host;
use crate::host::HostV;
use crate::host::path_exists;
use crate::host::path_exists_x;
use crate::host::search_hits;
use crate::host::search_hits_x;
use crate::sibling::sibling_in_dir;
use crate::sibling::sibling_in_dir_spec;
use crate::text::vconcat;
use crate::text::vcopy;
use crate::text::views;
use crate::winpath::ext_bat;
use crate::winpath::ext_bat_vec;
use crate::winpath::ext_cmd;
use crate::winpath::ext_cmd_vec;
use crate::winpath::ext_exe;
use crate::winpath::ext_exe_vec;
use crate::winpath::has_ext;
use crate::winpath::has_ext_spec;
use crate::winpath::has_no_ext;
use crate::winpath::has_no_ext_spec;
use crate::winpath::parent_of;
use crate::winpath::parent_spec;

verus! {

/// First hit bearing an `exe` extension.
pub open spec fn first_exe_hit_spec(hits: Seq<Seq<char>>) -> Option<Seq<char>>
    decreases hits.len(),
{
    if hits.len() == 0 {
        None
    } else if has_ext_spec(hits[0], ext_exe()) {
        Some(hits[0])
    } else {
        first_exe_hit_spec(hits.drop_first())
    }
}

/// Launcher-file resolution for one hit: directly for `.cmd`/`.bat` hits,
/// through an existing `.cmd` or `.bat` sibling for extension-less hits.
pub open spec fn cmd_hit_spec(p: Seq<char>, h: HostV) -> Option<Seq<char>> {
    let direct = if has_ext_spec(p, ext_cmd()) || has_ext_spec(p, ext_bat()) {
        resolve_cmd_spec(p, h)
    } else {
        None
    };
    match direct {
        Some(x) => Some(x),
        None => if has_no_ext_spec(p) {
            let c = p + seq!['.', 'c', 'm', 'd'];
            let rc = if path_exists(h, c) {
                resolve_cmd_spec(c, h)
            } else {
                None
            };
            match rc {
                Some(x) => Some(x),
                None => {
                    let b = p + seq!['.', 'b', 'a', 't'];
                    if path_exists(h, b) {
                        resolve_cmd_spec(b, h)
                    } else {
                        None
                    }
                },
            }
        } else {
            None
        },
    }
}

/// First successful launcher-file resolution over the hits, in order.
pub open spec fn cmd_phase_spec(hits: Seq<Seq<char>>, h: HostV) -> Option<Seq<char>>
    decreases hits.len(),
{
    if hits.len() == 0 {
        None
    } else {
        match cmd_hit_spec(hits[0], h) {
            Some(x) => Some(x),
            None => cmd_phase_spec(hits.drop_first(), h),
        }
    }
}

/// Parent, grandparent and great-grandparent of a hit, as far as they exist.
pub open spec fn sibling_dirs_spec(p: Seq<char>) -> Seq<Seq<char>> {
    match parent_spec(p) {
        None => Seq::empty(),
        Some(d1) => match parent_spec(d1) {
            None => seq![d1],
            Some(d2) => match parent_spec(d2) {
                None => seq![d1, d2],
                Some(d3) => seq![d1, d2, d3],
            },
        },
    }
}

/// First heuristic match over a list of directories, in order.
pub open spec fn dirs_scan_spec(h: HostV, dirs: Seq<Seq<char>>, key: Seq<char>) -> Option<Seq<char>>
    decreases dirs.len(),
{
    if dirs.len() == 0 {
        None
    } else {
        match sibling_in_dir_spec(h, dirs[0], key) {
            Some(x) => Some(x),
            None => dirs_scan_spec(h, dirs.drop_first(), key),
        }
    }
}

/// First heuristic match over the hits' ancestor directories, in order.
pub open spec fn sibling_phase_spec(hits: Seq<Seq<char>>, key: Seq<char>, h: HostV) -> Option<
    Seq<char>,
>
    decreases hits.len(),
{
    if hits.len() == 0 {
        None
    } else {
        match dirs_scan_spec(h, sibling_dirs_spec(hits[0]), key) {
            Some(x) => Some(x),
            None => sibling_phase_spec(hits.drop_first(), key, h),
        }
    }
}

/// The selection policy over one hit list; an empty list selects nothing,
/// and only the final fallback returns a hit that was never further checked.
pub open spec fn select_hit_spec(hits: Seq<Seq<char>>, key: Seq<char>, h: HostV) -> Option<
    Seq<char>,
> {
    if hits.len() == 0 {
        None
    } else {
        match first_exe_hit_spec(hits) {
            Some(x) => Some(x),
            None => match cmd_phase_spec(hits, h) {
                Some(x) => Some(x),
                None => {
                    let sib = if key.len() > 0 {
                        sibling_phase_spec(hits, key, h)
                    } else {
                        None
                    };
                    match sib {
                        Some(x) => Some(x),
                        None => Some(hits[0]),
                    }
                },
            },
        }
    }
}

/// One candidate's full PATH-search step: the helper's hits for the query,
/// then the selection policy.
pub open spec fn path_search_spec(q: Seq<char>, key: Seq<char>, h: HostV) -> Option<Seq<char>> {
    select_hit_spec(search_hits(h, q), key, h)
}

fn cmd_hit(p: &Vec<char>, h: &Host) -> (r: Option<Vec<char>>)
    ensures
        match r {
            Some(x) => cmd_hit_spec(p@, h@) == Some(x@),
            None => cmd_hit_spec(p@, h@) is None,
        },
{
    let cmd = ext_cmd_vec();
    let bat = ext_bat_vec();
    if has_ext(p, &cmd) || has_ext(p, &bat) {
        if let Some(x) = resolve_cmd(p, h) {
            return Some(x);
        }
    }
    if has_no_ext(p) {
        let mut csuf: Vec<char> = Vec::new();
        csuf.push('.');
        csuf.push('c');
        csuf.push('m');
        csuf.push('d');
        proof {
            assert(csuf@ =~= seq!['.', 'c', 'm', 'd']);
        }
        let cpath = vconcat(p, &csuf);
        if path_exists_x(h, &cpath) {
            if let Some(x) = resolve_cmd(&cpath, h) {
                return Some(x);
            }
        }
        let mut bsuf: Vec<char> = Vec::new();
        bsuf.push('.');
        bsuf.push('b');
        bsuf.push('a');
        bsuf.push('t');
        proof {
            assert(bsuf@ =~= seq!['.', 'b', 'a', 't']);
        }
        let bpath = vconcat(p, &bsuf);
        if path_exists_x(h, &bpath) {
            if let Some(x) = resolve_cmd(&bpath, h) {
                return Some(x);
            }
        }
    }
    None
}

/// The ancestor directories of one hit, nearest first.
pub fn sibling_dirs(p: &Vec<char>) -> (r: Vec<Vec<char>>)
    ensures
        views(r@) == sibling_dirs_spec(p@),
{
    let mut r: Vec<Vec<char>> = Vec::new();
    match parent_of(p) {
        None => {
            proof {
                assert(views(r@) =~= sibling_dirs_spec(p@));
            }
        },
        Some(d1) => {
            match parent_of(&d1) {
                None => {
                    r.push(d1);
                    proof {
                        assert(views(r@) =~= sibling_dirs_spec(p@));
                    }
                },
                Some(d2) => {
                    match parent_of(&d2) {
                        None => {
                            r.push(d1);
                            r.push(d2);
                            proof {
                                assert(views(r@) =~= sibling_dirs_spec(p@));
                            }
                        },
                        Some(d3) => {
                            r.push(d1);
                            r.push(d2);
                            r.push(d3);
                            proof {
                                assert(views(r@) =~= sibling_dirs_spec(p@));
                            }
                        },
                    }
                },
            }
        },
    }
    r
}

fn sibling_hit(p: &Vec<char>, key: &Vec<char>, h: &Host) -> (r: Option<Vec<char>>)
    ensures
        match r {
            Some(x) => dirs_scan_spec(h@, sibling_dirs_spec(p@), key@) == Some(x@),
            None => dirs_scan_spec(h@, sibling_dirs_spec(p@), key@) is None,
        },
{
    let dirs = sibling_dirs(p);
    let ghost dv = views(dirs@);
    let mut i: usize = 0;
    proof {
        assert(dv.skip(0) =~= dv);
    }
    while i < dirs.len()
        invariant
            i <= dirs@.len(),
            dv == views(dirs@),
            dv == sibling_dirs_spec(p@),
            dirs_scan_spec(h@, dv.skip(i as int), key@) == dirs_scan_spec(h@, dv, key@),
        decreases dirs@.len() - i,
    {
        proof {
            assert(dv.skip(i as int)[0] == dv[i as int]);
            assert(dv.skip(i as int).drop_first() =~= dv.skip(i as int + 1));
        }
        if let Some(x) = sibling_in_dir(h, &dirs[i], key) {
            return Some(x);
        }
        i = i + 1;
    }
    proof {
        assert(dv.skip(dv.len() as int) =~= Seq::<Seq<char>>::empty());
    }
    None
}

/// Executable selection policy over a hit list.
pub fn select_hit(hits: &Vec<Vec<char>>, key: &Vec<char>, h: &Host) -> (r: Option<Vec<char>>)
    ensures
        match r {
            Some(x) => select_hit_spec(views(hits@), key@, h@) == Some(x@),
            None => select_hit_spec(views(hits@), key@, h@) is None,
        },
{
    let ghost hv = views(hits@);
    if hits.len() == 0 {
        return None;
    }
    let exe = ext_exe_vec();
    // Phase a: first hit with an `exe` extension.
    let mut i: usize = 0;
    proof {
        assert(hv.skip(0) =~= hv);
    }
    while i < hits.len()
        invariant
            i <= hits@.len(),
            hv == views(hits@),
            exe@ == ext_exe(),
            first_exe_hit_spec(hv.skip(i as int)) == first_exe_hit_spec(hv),
        decreases hits@.len() - i,
    {
        proof {
            assert(hv[i as int] == hits@[i as int]@);
            assert(hv.skip(i as int)[0] == hv[i as int]);
            assert(hv.skip(i as int).drop_first() =~= hv.skip(i as int + 1));
        }
        if has_ext(&hits[i], &exe) {
            return Some(vcopy(&hits[i]));
        }
        i = i + 1;
    }
    proof {
        assert(hv.skip(hv.len() as int) =~= Seq::<Seq<char>>::empty());
    }
    // Phase b: launcher-file indirection.
    let mut j: usize = 0;
    proof {
        assert(hv.skip(0) =~= hv);
    }
    while j < hits.len()
        invariant
            j <= hits@.len(),
            hv == views(hits@),
            hv.len() > 0,
            first_exe_hit_spec(hv) is None,
            cmd_phase_spec(hv.skip(j as int), h@) == cmd_phase_spec(hv, h@),
        decreases hits@.len() - j,
    {
        proof {
            assert(hv[j as int] == hits@[j as int]@);
            assert(hv.skip(j as int)[0] == hv[j as int]);
            assert(hv.skip(j as int).drop_first() =~= hv.skip(j as int + 1));
        }
        if let Some(x) = cmd_hit(&hits[j], h) {
            return Some(x);
        }
        j = j + 1;
    }
    proof {
        assert(hv.skip(hv.len() as int) =~= Seq::<Seq<char>>::empty());
    }
    // Phase c: sibling heuristic around each hit.
    if key.len() > 0 {
        let mut k: usize = 0;
        proof {
            assert(hv.skip(0) =~= hv);
        }
        while k < hits.len()
            invariant
                k <= hits@.len(),
                hv == views(hits@),
                hv.len() > 0,
                key@.len() > 0,
                first_exe_hit_spec(hv) is None,
                cmd_phase_spec(hv, h@) is None,
                sibling_phase_spec(hv.skip(k as int), key@, h@) == sibling_phase_spec(
                    hv,
                    key@,
                    h@,
                ),
            decreases hits@.len() - k,
        {
            proof {
                assert(hv[k as int] == hits@[k as int]@);
                assert(hv.skip(k as int)[0] == hv[k as int]);
                assert(hv.skip(k as int).drop_first() =~= hv.skip(k as int + 1));
            }
            if let Some(x) = sibling_hit(&hits[k], key, h) {
                return Some(x);
            }
            k = k + 1;
        }
        proof {
            assert(hv.skip(hv.len() as int) =~= Seq::<Seq<char>>::empty());
        }
    }
    // Phase d: the first raw hit.
    proof {
        assert(hv[0] == hits@[0]@);
    }
    Some(vcopy(&hits[0]))
}

/// Executable PATH-search step for one candidate query.
pub fn path_search(q: &Vec<char>, key: &Vec<char>, h: &Host) -> (r: Option<Vec<char>>)
    ensures
        match r {
            Some(x) => path_search_spec(q@, key@, h@) == Some(x@),
            None => path_search_spec(q@, key@, h@) is None,
        },
{
    let hits = search_hits_x(h, q);
    select_hit(&hits, key, h)
}

} // verus!
