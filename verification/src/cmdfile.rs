//! Resolution of batch/command launcher files to the executable they invoke.
//!
//! The file's text is split on double quotes; each segment yields at most one
//! executable token. A token carrying the script-directory placeholder
//! (`%~dp0`) is resolved against the script's own directory with `.` skipped
//! and `..` popping one level; any other token is environment-expanded and
//! checked directly. The first segment whose resolved path exists wins.

use vstd::prelude::*;

use crate::expand::expand_env;
use crate::expand::expand_env_spec;
use crate::extract::extract_exe;
use crate::extract::extract_exe_spec;
use crate::host::Host;
use crate::host::HostV;
use crate::host::file_content;
use crate::host::file_content_x;
use crate::host::path_exists;
use crate::host::path_exists_x;
use crate::text::find_sub_spec;
use crate::text::find_sub_vec;
use crate::text::lower_seq;
use crate::text::lower_vec;
use crate::text::views;
use crate::text::vsub;
use crate::winpath::apply_comps;
use crate::winpath::apply_comps_spec;
use crate::winpath::normalize_seps;
use crate::winpath::normalize_seps_spec;
use crate::winpath::parent_of;
use crate::winpath::parent_spec;
use crate::winpath::split_char;
use crate::winpath::split_char_spec;

verus! {

/// The conventional script-directory placeholder, searched for after
/// lowercasing (its letters are already lowercase).
pub open spec fn dp0_marker() -> Seq<char> {
    seq!['%', '~', 'd', 'p', '0']
}

/// Executable copy of [`dp0_marker`].
pub fn dp0_marker_vec() -> (r: Vec<char>)
    ensures
        r@ == dp0_marker(),
{
    let mut r: Vec<char> = Vec::new();
    r.push('%');
    r.push('~');
    r.push('d');
    r.push('p');
    r.push('0');
    proof {
        assert(r@ =~= dp0_marker());
    }
    r
}

/// Path a placeholder token resolves to: the remainder after the marker,
/// slash-normalized, applied component-wise to the script's directory.
pub open spec fn dp0_target_spec(tok: Seq<char>, base: Seq<char>, i: int) -> Seq<char> {
    apply_comps_spec(base, split_char_spec(normalize_seps_spec(tok.skip(i + 5)), '\\'))
}

/// First existing resolved path over the quote-split segments, in order.
/// A placeholder token of a script without a parent directory aborts the
/// whole resolution, mirroring a launcher file that cannot be located.
pub open spec fn cmd_segments_spec(segs: Seq<Seq<char>>, script: Seq<char>, h: HostV) -> Option<
    Seq<char>,
>
    decreases segs.len(),
{
    if segs.len() == 0 {
        None
    } else {
        match extract_exe_spec(segs[0]) {
            None => cmd_segments_spec(segs.drop_first(), script, h),
            Some(tok) => match find_sub_spec(lower_seq(tok), dp0_marker()) {
                Some(i) => match parent_spec(script) {
                    None => None,
                    Some(base) => {
                        let target = dp0_target_spec(tok, base, i);
                        if path_exists(h, target) {
                            Some(target)
                        } else {
                            cmd_segments_spec(segs.drop_first(), script, h)
                        }
                    },
                },
                None => {
                    let target = expand_env_spec(tok, h.env);
                    if path_exists(h, target) {
                        Some(target)
                    } else {
                        cmd_segments_spec(segs.drop_first(), script, h)
                    }
                },
            },
        }
    }
}

/// Resolution of the launcher file at `script`: its readable content split
/// and scanned; an unreadable file yields no match.
pub open spec fn resolve_cmd_spec(script: Seq<char>, h: HostV) -> Option<Seq<char>> {
    match file_content(h, script) {
        None => None,
        Some(content) => cmd_segments_spec(split_char_spec(content, '"'), script, h),
    }
}

/// Executable launcher-file resolver.
pub fn resolve_cmd(script: &Vec<char>, h: &Host) -> (r: Option<Vec<char>>)
    ensures
        match r {
            Some(p) => resolve_cmd_spec(script@, h@) == Some(p@),
            None => resolve_cmd_spec(script@, h@) is None,
        },
{
    let content = match file_content_x(h, script) {
        None => {
            return None;
        },
        Some(c) => c,
    };
    let segs = split_char(&content, '"');
    let ghost sv = views(segs@);
    let marker = dp0_marker_vec();
    let mut i: usize = 0;
    proof {
        assert(sv.skip(0) =~= sv);
    }
    while i < segs.len()
        invariant
            i <= segs@.len(),
            sv == views(segs@),
            marker@ == dp0_marker(),
            content@ == file_content(h@, script@)->Some_0,
            file_content(h@, script@) is Some,
            sv == split_char_spec(content@, '"'),
            cmd_segments_spec(sv.skip(i as int), script@, h@) == cmd_segments_spec(
                sv,
                script@,
                h@,
            ),
        decreases segs@.len() - i,
    {
        proof {
            assert(sv.skip(i as int)[0] == sv[i as int]);
            assert(sv.skip(i as int).drop_first() =~= sv.skip(i as int + 1));
        }
        match extract_exe(&segs[i]) {
            None => {},
            Some(tok) => {
                let low = lower_vec(&tok);
                match find_sub_vec(&low, &marker) {
                    Some(idx) => {
                        match parent_of(script) {
                            None => {
                                return None;
                            },
                            Some(base) => {
                                let n = tok.len();
                                let suffix = vsub(&tok, idx + 5, n);
                                proof {
                                    assert(suffix@ =~= tok@.skip(idx as int + 5));
                                }
                                let norm = normalize_seps(&suffix);
                                let parts = split_char(&norm, '\\');
                                let target = apply_comps(&base, &parts);
                                if path_exists_x(h, &target) {
                                    return Some(target);
                                }
                            },
                        }
                    },
                    None => {
                        let target = expand_env(&tok, h);
                        if path_exists_x(h, &target) {
                            return Some(target);
                        }
                    },
                }
            },
        }
        i = i + 1;
    }
    proof {
        assert(sv.skip(sv.len() as int) =~= Seq::<Seq<char>>::empty());
    }
    None
}

} // verus!
