//! Support for building a [`crate::host::Host`] snapshot around a live
//! resolution.
//!
//! A caller that owns the real capabilities cannot enumerate the whole world
//! into a snapshot. These functions tell it exactly which facts the pipeline
//! will consult for a given name — which script files may be read, which
//! resolved paths are tested for existence, which store keys are queried —
//! so it can record just those and then run the verified resolver.

use vstd::prelude::*;

use crate::candidates::candidates;
use crate::candidates::candidates_spec;
use crate::candidates::exe_names;
use crate::candidates::exe_names_spec;
use crate::cmdfile::dp0_marker;
use crate::cmdfile::dp0_marker_vec;
use crate::cmdfile::dp0_target_spec;
use crate::expand::expand_env;
use crate::expand::expand_env_spec;
use crate::extract::extract_exe;
use crate::extract::extract_exe_spec;
use crate::host::Host;
use crate::host::RegRoot;
use crate::registry::app_paths_prefix;
use crate::registry::app_paths_prefix_vec;
use crate::registry::wow_app_paths_prefix;
use crate::registry::wow_app_paths_prefix_vec;
use crate::search::sibling_dirs;
use crate::search::sibling_dirs_spec;
use crate::text::chars_of;
use crate::text::find_sub_spec;
use crate::text::find_sub_vec;
use crate::text::lower_seq;
use crate::text::lower_vec;
use crate::text::string_of;
use crate::text::trim_spec;
use crate::text::trim_unquote_spec;
use crate::text::trim_unquote_vec;
use crate::text::trim_vec;
use crate::text::vconcat;
use crate::text::views;
use crate::text::vsub;
use crate::winpath::apply_comps;
use crate::winpath::ext_bat_vec;
use crate::winpath::ext_cmd_vec;
use crate::winpath::has_ext;
use crate::winpath::has_ext_spec;
use crate::winpath::has_no_ext;
use crate::winpath::has_no_ext_spec;
use crate::winpath::ext_bat;
use crate::winpath::ext_cmd;
use crate::winpath::normalize_seps;
use crate::winpath::parent_of;
use crate::winpath::parent_spec;
use crate::winpath::split_char;
use crate::winpath::split_char_spec;

verus! {

/// Views of a list of strings.
pub open spec fn str_views(s: Seq<String>) -> Seq<Seq<char>> {
    s.map_values(|e: String| e@)
}

/// The trimmed, unquoted form of a raw name.
pub fn normalized_name(app_name: &str) -> (r: String)
    ensures
        r@ == trim_unquote_spec(app_name@),
{
    let raw = chars_of(app_name);
    let n = trim_unquote_vec(&raw);
    string_of(&n)
}

fn to_string_list(items: &Vec<Vec<char>>) -> (r: Vec<String>)
    ensures
        str_views(r@) == views(items@),
{
    let mut r: Vec<String> = Vec::new();
    let mut i: usize = 0;
    while i < items.len()
        invariant
            i <= items@.len(),
            r@.len() == i,
            forall|j: int| 0 <= j < i ==> r@[j]@ == items@[j]@,
        decreases items@.len() - i,
    {
        r.push(string_of(&items[i]));
        i = i + 1;
    }
    proof {
        assert(str_views(r@) =~= views(items@));
    }
    r
}

/// The candidate names the pipeline will try for a normalized name.
pub fn candidate_list(name: &str) -> (r: Vec<String>)
    ensures
        str_views(r@) == candidates_spec(name@),
{
    let n = chars_of(name);
    let cands = candidates(&n);
    to_string_list(&cands)
}

/// The `.exe` names the layered store will be asked about for those candidates.
pub fn exe_name_list(cands: &Vec<String>) -> (r: Vec<String>)
    ensures
        str_views(r@) == exe_names_spec(str_views(cands@)),
{
    let mut cv: Vec<Vec<char>> = Vec::new();
    let mut i: usize = 0;
    while i < cands.len()
        invariant
            i <= cands@.len(),
            cv@.len() == i,
            forall|j: int| 0 <= j < i ==> cv@[j]@ == cands@[j]@,
        decreases cands@.len() - i,
    {
        cv.push(chars_of(cands[i].as_str()));
        i = i + 1;
    }
    proof {
        assert(views(cv@) =~= str_views(cands@));
    }
    let names = exe_names(&cv);
    to_string_list(&names)
}

/// The script files whose existence and content matter for one search hit:
/// the hit itself when it is a `.cmd`/`.bat` file, its `.cmd` and `.bat`
/// siblings when it has no extension, nothing otherwise.
pub open spec fn script_probes_spec(p: Seq<char>) -> Seq<Seq<char>> {
    if has_ext_spec(p, ext_cmd()) || has_ext_spec(p, ext_bat()) {
        seq![p]
    } else if has_no_ext_spec(p) {
        seq![p + seq!['.', 'c', 'm', 'd'], p + seq!['.', 'b', 'a', 't']]
    } else {
        Seq::empty()
    }
}

/// The script files to probe for one search hit.
pub fn script_probe_list(hit: &str) -> (r: Vec<String>)
    ensures
        str_views(r@) == script_probes_spec(hit@),
{
    let p = chars_of(hit);
    let cmd = ext_cmd_vec();
    let bat = ext_bat_vec();
    let mut r: Vec<String> = Vec::new();
    if has_ext(&p, &cmd) || has_ext(&p, &bat) {
        r.push(string_of(&p));
        proof {
            assert(str_views(r@) =~= script_probes_spec(hit@));
        }
    } else if has_no_ext(&p) {
        let mut csuf: Vec<char> = Vec::new();
        csuf.push('.');
        csuf.push('c');
        csuf.push('m');
        csuf.push('d');
        proof {
            assert(csuf@ =~= seq!['.', 'c', 'm', 'd']);
        }
        let cpath = vconcat(&p, &csuf);
        r.push(string_of(&cpath));
        let mut bsuf: Vec<char> = Vec::new();
        bsuf.push('.');
        bsuf.push('b');
        bsuf.push('a');
        bsuf.push('t');
        proof {
            assert(bsuf@ =~= seq!['.', 'b', 'a', 't']);
        }
        let bpath = vconcat(&p, &bsuf);
        r.push(string_of(&bpath));
        proof {
            assert(str_views(r@) =~= script_probes_spec(hit@));
        }
    } else {
        proof {
            assert(str_views(r@) =~= script_probes_spec(hit@));
        }
    }
    r
}

/// The ancestor directories the sibling heuristic will list for one hit.
pub fn ancestor_dir_list(hit: &str) -> (r: Vec<String>)
    ensures
        str_views(r@) == sibling_dirs_spec(hit@),
{
    let p = chars_of(hit);
    let dirs = sibling_dirs(&p);
    let r = to_string_list(&dirs);
    proof {
        assert(str_views(r@) =~= sibling_dirs_spec(hit@));
    }
    r
}

/// The paths a launcher file's segments resolve to, in segment order: these
/// are exactly the paths the indirection step will test for existence.
pub open spec fn launcher_targets_spec(
    segs: Seq<Seq<char>>,
    script: Seq<char>,
    env: Seq<(Seq<char>, Seq<char>)>,
) -> Seq<Seq<char>>
    decreases segs.len(),
{
    if segs.len() == 0 {
        Seq::empty()
    } else {
        let rest = launcher_targets_spec(segs.drop_first(), script, env);
        match extract_exe_spec(segs[0]) {
            None => rest,
            Some(tok) => match find_sub_spec(lower_seq(tok), dp0_marker()) {
                Some(i) => match parent_spec(script) {
                    None => rest,
                    Some(base) => seq![dp0_target_spec(tok, base, i)] + rest,
                },
                None => seq![expand_env_spec(tok, env)] + rest,
            },
        }
    }
}

/// The existence probes of one launcher file's content; `host` supplies only
/// the environment used for expansion.
pub fn launcher_target_list(script: &str, content: &str, host: &Host) -> (r: Vec<String>)
    ensures
        str_views(r@) == launcher_targets_spec(
            split_char_spec(content@, '"'),
            script@,
            host@.env,
        ),
{
    let sp = chars_of(script);
    let cont = chars_of(content);
    let segs = split_char(&cont, '"');
    let ghost sv = views(segs@);
    let marker = dp0_marker_vec();
    let mut out: Vec<String> = Vec::new();
    let mut i: usize = 0;
    proof {
        assert(sv.skip(0) =~= sv);
        assert(str_views(out@) =~= Seq::<Seq<char>>::empty());
    }
    while i < segs.len()
        invariant
            i <= segs@.len(),
            sv == views(segs@),
            sp@ == script@,
            marker@ == dp0_marker(),
            str_views(out@) + launcher_targets_spec(sv.skip(i as int), script@, host@.env)
                == launcher_targets_spec(sv, script@, host@.env),
        decreases segs@.len() - i,
    {
        proof {
            assert(sv[i as int] == segs@[i as int]@);
            assert(sv.skip(i as int)[0] == sv[i as int]);
            assert(sv.skip(i as int).drop_first() =~= sv.skip(i as int + 1));
        }
        let ghost prev = str_views(out@);
        match extract_exe(&segs[i]) {
            None => {},
            Some(tok) => {
                let low = lower_vec(&tok);
                match find_sub_vec(&low, &marker) {
                    Some(idx) => {
                        match parent_of(&sp) {
                            None => {},
                            Some(base) => {
                                let n = tok.len();
                                let suffix = vsub(&tok, idx + 5, n);
                                proof {
                                    assert(suffix@ =~= tok@.skip(idx as int + 5));
                                }
                                let norm = normalize_seps(&suffix);
                                let parts = split_char(&norm, '\\');
                                let target = apply_comps(&base, &parts);
                                let ghost tv = target@;
                                out.push(string_of(&target));
                                proof {
                                    assert(str_views(out@) =~= prev.push(tv));
                                    assert(prev.push(tv) =~= prev + seq![tv]);
                                }
                            },
                        }
                    },
                    None => {
                        let target = expand_env(&tok, host);
                        let ghost tv = target@;
                        out.push(string_of(&target));
                        proof {
                            assert(str_views(out@) =~= prev.push(tv));
                            assert(prev.push(tv) =~= prev + seq![tv]);
                        }
                    },
                }
            },
        }
        proof {
            assert(str_views(out@) + launcher_targets_spec(
                sv.skip(i as int + 1),
                script@,
                host@.env,
            ) =~= launcher_targets_spec(sv, script@, host@.env));
        }
        i = i + 1;
    }
    proof {
        assert(sv.skip(sv.len() as int) =~= Seq::<Seq<char>>::empty());
        assert(str_views(out@) + Seq::<Seq<char>>::empty() =~= str_views(out@));
    }
    out
}

/// The three layered store keys queried for one `.exe` name, in priority
/// order: per-user, per-machine, per-machine compatibility view.
pub fn store_probe_keys(exe: &str) -> (r: Vec<(RegRoot, String)>)
    ensures
        r@.len() == 3,
        r@[0].0 == RegRoot::CurrentUser,
        r@[0].1@ == app_paths_prefix() + exe@,
        r@[1].0 == RegRoot::LocalMachine,
        r@[1].1@ == app_paths_prefix() + exe@,
        r@[2].0 == RegRoot::LocalMachine,
        r@[2].1@ == wow_app_paths_prefix() + exe@,
{
    let e = chars_of(exe);
    let user_prefix = app_paths_prefix_vec();
    let wow_prefix = wow_app_paths_prefix_vec();
    let k1 = vconcat(&user_prefix, &e);
    let k2 = vconcat(&user_prefix, &e);
    let k3 = vconcat(&wow_prefix, &e);
    let mut r: Vec<(RegRoot, String)> = Vec::new();
    r.push((RegRoot::CurrentUser, string_of(&k1)));
    r.push((RegRoot::LocalMachine, string_of(&k2)));
    r.push((RegRoot::LocalMachine, string_of(&k3)));
    r
}

/// The path a stored value leads to: the value trimmed, a token extracted,
/// expanded over the snapshot's environment, trimmed and unquoted. This is
/// the existence probe of one store hit; `None` when the trimmed value is
/// empty or holds no token.
pub fn store_probe_target(value: &str, host: &Host) -> (r: Option<String>)
    ensures
        ({
            let v = trim_spec(value@);
            match extract_exe_spec(v) {
                None => r is None,
                Some(tok) => match r {
                    Some(s) => s@ == trim_unquote_spec(expand_env_spec(tok, host@.env)),
                    None => false,
                },
            }
        }),
{
    let raw = chars_of(value);
    let v = trim_vec(&raw);
    let tok = match extract_exe(&v) {
        None => {
            return None;
        },
        Some(t) => t,
    };
    let expanded = expand_env(&tok, host);
    let path = trim_unquote_vec(&expanded);
    Some(string_of(&path))
}

} // verus!
