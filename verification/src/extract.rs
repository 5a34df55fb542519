//! Extraction of the first plausible executable reference from a string.
//!
//! A leading quoted span wins when it mentions `.exe`; otherwise the text up
//! to and including the first case-insensitive `.exe` marker is taken,
//! trimmed and unquoted. Without any marker there is no token.

use vstd::prelude::*;

use crate::text::contains_sub_spec;
use crate::text::contains_sub_vec;
use crate::text::find_char_spec;
use crate::text::find_char_vec;
use crate::text::find_sub_spec;
use crate::text::find_sub_vec;
use crate::text::lower_seq;
use crate::text::lower_vec;
use crate::text::strip_matches_spec;
use crate::text::strip_matches_vec;
use crate::text::trim_spec;
use crate::text::trim_vec;
use crate::text::vsub;
use crate::text::vtail;

verus! {

/// The `.exe` marker searched for, after lowercasing.
pub open spec fn exe_marker() -> Seq<char> {
    seq!['.', 'e', 'x', 'e']
}

/// Executable copy of [`exe_marker`].
pub fn exe_marker_vec() -> (r: Vec<char>)
    ensures
        r@ == exe_marker(),
{
    let mut r: Vec<char> = Vec::new();
    r.push('.');
    r.push('e');
    r.push('x');
    r.push('e');
    proof {
        assert(r@ =~= exe_marker());
    }
    r
}

/// First plausible executable token of `s`, if any.
pub open spec fn extract_exe_spec(s: Seq<char>) -> Option<Seq<char>> {
    let t = trim_spec(s);
    if t.len() == 0 {
        None
    } else {
        let quoted = if t[0] == '"' {
            match find_char_spec(t.drop_first(), '"') {
                None => None,
                Some(e) => {
                    let inner = trim_spec(t.drop_first().take(e));
                    if contains_sub_spec(lower_seq(inner), exe_marker()) {
                        Some(inner)
                    } else {
                        None
                    }
                },
            }
        } else {
            None
        };
        match quoted {
            Some(x) => Some(x),
            None => match find_sub_spec(lower_seq(t), exe_marker()) {
                None => None,
                Some(i) => Some(strip_matches_spec(trim_spec(t.take(i + 4)), '"')),
            },
        }
    }
}

/// Executable extractor.
pub fn extract_exe(s: &Vec<char>) -> (r: Option<Vec<char>>)
    ensures
        match r {
            Some(v) => extract_exe_spec(s@) == Some(v@),
            None => extract_exe_spec(s@) is None,
        },
{
    let t = trim_vec(s);
    if t.len() == 0 {
        return None;
    }
    let marker = exe_marker_vec();
    if t[0] == '"' {
        let rest = vtail(&t);
        match find_char_vec(&rest, '"') {
            None => {},
            Some(e) => {
                let span = vsub(&rest, 0, e);
                proof {
                    assert(span@ =~= t@.drop_first().take(e as int));
                }
                let inner = trim_vec(&span);
                let low = lower_vec(&inner);
                if contains_sub_vec(&low, &marker) {
                    return Some(inner);
                }
            },
        }
    }
    let low = lower_vec(&t);
    match find_sub_vec(&low, &marker) {
        None => None,
        Some(i) => {
            let head = vsub(&t, 0, i + 4);
            proof {
                assert(head@ =~= t@.take(i as int + 4));
            }
            let trimmed = trim_vec(&head);
            Some(strip_matches_vec(&trimmed, '"'))
        },
    }
}

} // verus!
