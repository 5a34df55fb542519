//! Expansion of `%NAME%`-style environment placeholders.
//!
//! An unterminated `%` ends the scan with the remainder copied through; an
//! empty `%%` collapses to one literal `%`; a placeholder naming an undefined
//! variable is copied through unchanged. Variable names match case-sensitively
//! and expanded values are not re-scanned.

use vstd::prelude::*;

use crate::host::Host;
use crate::host::assoc_lookup;
use crate::host::env_val_x;
use crate::text::find_char_spec;
use crate::text::find_char_vec;
use crate::text::lemma_find_char_props;
use crate::text::vconcat;
use crate::text::vcopy;
use crate::text::vsub;

verus! {

/// Value of `s` with every well-formed `%NAME%` span replaced according to
/// the environment `env`.
pub open spec fn expand_env_spec(s: Seq<char>, env: Seq<(Seq<char>, Seq<char>)>) -> Seq<char>
    decreases s.len(),
    via expand_env_dec
{
    match find_char_spec(s, '%') {
        None => s,
        Some(i) => {
            let pre = s.take(i);
            let rest = s.skip(i + 1);
            match find_char_spec(rest, '%') {
                None => s,
                Some(j) => {
                    let key = rest.take(j);
                    let after = rest.skip(j + 1);
                    if j == 0 {
                        pre + seq!['%'] + expand_env_spec(after, env)
                    } else {
                        match assoc_lookup(env, key) {
                            Some(v) => pre + v + expand_env_spec(after, env),
                            None => pre + seq!['%'] + key + seq!['%'] + expand_env_spec(after, env),
                        }
                    }
                },
            }
        },
    }
}

#[via_fn]
proof fn expand_env_dec(s: Seq<char>, env: Seq<(Seq<char>, Seq<char>)>) {
    lemma_find_char_props(s, '%');
    match find_char_spec(s, '%') {
        None => {},
        Some(i) => {
            lemma_find_char_props(s.skip(i + 1), '%');
        },
    }
}

/// Executable expander over the environment of the snapshot `h`.
pub fn expand_env(s: &Vec<char>, h: &Host) -> (r: Vec<char>)
    ensures
        r@ == expand_env_spec(s@, h@.env),
    decreases s@.len(),
{
    match find_char_vec(s, '%') {
        None => vcopy(s),
        Some(i) => {
            let n = s.len();
            let pre = vsub(s, 0, i);
            let rest = vsub(s, i + 1, n);
            proof {
                assert(pre@ =~= s@.take(i as int));
                assert(rest@ =~= s@.skip(i as int + 1));
            }
            match find_char_vec(&rest, '%') {
                None => vcopy(s),
                Some(j) => {
                    let m = rest.len();
                    let key = vsub(&rest, 0, j);
                    let after = vsub(&rest, j + 1, m);
                    proof {
                        assert(key@ =~= rest@.take(j as int));
                        assert(after@ =~= rest@.skip(j as int + 1));
                    }
                    let tail = expand_env(&after, h);
                    if j == 0 {
                        let mut out = pre;
                        out.push('%');
                        let r = vconcat(&out, &tail);
                        proof {
                            assert(out@ =~= s@.take(i as int) + seq!['%']);
                            assert(r@ =~= s@.take(i as int) + seq!['%'] + tail@);
                        }
                        r
                    } else {
                        match env_val_x(h, &key) {
                            Some(v) => {
                                let pv = vconcat(&pre, &v);
                                let r = vconcat(&pv, &tail);
                                proof {
                                    assert(r@ =~= s@.take(i as int) + v@ + tail@);
                                }
                                r
                            },
                            None => {
                                let mut out = pre;
                                out.push('%');
                                let mut out2 = vconcat(&out, &key);
                                out2.push('%');
                                let r = vconcat(&out2, &tail);
                                proof {
                                    assert(out2@ =~= s@.take(i as int) + seq!['%'] + key@
                                        + seq!['%']);
                                    assert(r@ =~= s@.take(i as int) + seq!['%'] + key@ + seq!['%']
                                        + tail@);
                                }
                                r
                            },
                        }
                    }
                },
            }
        },
    }
}

} // verus!
