//! Path text arithmetic: joining and the manifest-to-lock name rule.
//!
//! Paths are carried as plain text with `/` separators; nothing here
//! touches the file system.

use vstd::prelude::*;

verus! {

/// Joining a base and a relative path: an absolute right side wins,
/// and exactly one separator stands between the two parts.
pub open spec fn spec_join(a: Seq<char>, b: Seq<char>) -> Seq<char> {
    if b.len() > 0 && b[0] == '/' {
        b
    } else if a.len() == 0 {
        b
    } else if a[a.len() - 1] == '/' {
        a + b
    } else {
        a + "/"@ + b
    }
}

/// Joins two path texts.
pub fn path_join(a: &str, b: &str) -> (r: String)
    ensures
        r@ == spec_join(a@, b@),
{
    let blen = b.unicode_len();
    if blen > 0 && b.get_char(0) == '/' {
        return b.to_owned();
    }
    let alen = a.unicode_len();
    if alen == 0 {
        return b.to_owned();
    }
    let mut r = a.to_owned();
    if a.get_char(alen - 1) != '/' {
        r.append("/");
    }
    r.append(b);
    r
}

/// The lock file's name derived from the manifest's: every occurrence
/// of `json` in the text becomes `lock`, scanned left to right. This
/// mirrors a plain text substitution, not a file-extension rule, so a
/// name holding `json` elsewhere is rewritten there too.
pub open spec fn spec_json_to_lock(s: Seq<char>) -> Seq<char>
    decreases s.len(),
{
    if s.len() < 4 {
        s
    } else if s.take(4) == "json"@ {
        "lock"@ + spec_json_to_lock(s.skip(4))
    } else {
        seq![s[0]] + spec_json_to_lock(s.skip(1))
    }
}

/// Rewrites every `json` in the text to `lock`, left to right.
pub fn replace_json_with_lock(s: &str) -> (r: String)
    ensures
        r@ == spec_json_to_lock(s@),
{
    let n = s.unicode_len();
    let mut out = String::new();
    let mut i: usize = 0;
    proof {
        assert(s@.skip(0) =~= s@);
    }
    while i < n
        invariant
            i <= n,
            n == s@.len(),
            out@ + spec_json_to_lock(s@.skip(i as int)) == spec_json_to_lock(s@),
        decreases n - i,
    {
        let hit = n - i >= 4 && s.get_char(i) == 'j' && s.get_char(i + 1) == 's' && s.get_char(
            i + 2,
        ) == 'o' && s.get_char(i + 3) == 'n';
        if hit {
            proof {
                reveal_strlit("json");
                reveal_strlit("lock");
                assert(s@.skip(i as int).take(4) =~= "json"@);
                assert(s@.skip(i as int).skip(4) =~= s@.skip(i as int + 4));
            }
            out.append("lock");
            i += 4;
        } else {
            proof {
                reveal_strlit("json");
                let rest = s@.skip(i as int);
                if n - i >= 4 {
                    assert(rest.take(4) != "json"@) by {
                        if rest.take(4) == "json"@ {
                            assert(rest.take(4)[0] == s@[i as int]);
                            assert(rest.take(4)[1] == s@[i as int + 1]);
                            assert(rest.take(4)[2] == s@[i as int + 2]);
                            assert(rest.take(4)[3] == s@[i as int + 3]);
                        }
                    }
                    assert(rest.skip(1) =~= s@.skip(i as int + 1));
                    assert(spec_json_to_lock(rest) == seq![s@[i as int]] + spec_json_to_lock(
                        s@.skip(i as int + 1),
                    ));
                } else {
                    assert(rest.len() < 4);
                    assert(spec_json_to_lock(rest) == rest);
                    assert(rest.skip(1) =~= s@.skip(i as int + 1));
                    assert(s@.skip(i as int + 1).len() < 4);
                    assert(spec_json_to_lock(s@.skip(i as int + 1)) == s@.skip(i as int + 1));
                    assert(rest =~= seq![s@[i as int]] + s@.skip(i as int + 1));
                }
            }
            let piece = s.substring_char(i, i + 1);
            proof {
                assert(piece@ =~= seq![s@[i as int]]);
            }
            out.append(piece);
            i += 1;
        }
    }
    proof {
        assert(s@.skip(n as int) =~= Seq::<char>::empty());
        assert(spec_json_to_lock(s@.skip(n as int)) =~= Seq::<char>::empty());
        assert(out@ =~= spec_json_to_lock(s@));
    }
    out
}

} // verus!
