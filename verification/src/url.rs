//! Target-URL construction: trailing-slash normalization of the bridge
//! base URL and the fixed notification path segments.

use vstd::prelude::*;
use vstd::string::StrSliceExecFns;
use vstd::string::StringExecFns;

verus! {

/// Length of `s` once every trailing `'/'` has been removed.
pub open spec fn trimmed_len(s: Seq<char>) -> nat
    decreases s.len(),
{
    if s.len() > 0 && s.last() == '/' {
        trimmed_len(s.drop_last())
    } else {
        s.len()
    }
}

/// `s` with every trailing `'/'` removed.
pub open spec fn trim_trailing_slashes(s: Seq<char>) -> Seq<char> {
    s.subrange(0, trimmed_len(s) as int)
}

/// The prefix kept by `trim_trailing_slashes` ends before the trailing
/// slashes and nowhere earlier: everything past it is a `'/'`, and it does
/// not itself end in one.
pub proof fn lemma_trimmed_len_bounds(s: Seq<char>)
    ensures
        trimmed_len(s) <= s.len(),
        forall|i: int| trimmed_len(s) <= i < s.len() ==> s[i] == '/',
        trimmed_len(s) > 0 ==> s[trimmed_len(s) - 1] != '/',
    decreases s.len(),
{
    if s.len() > 0 && s.last() == '/' {
        lemma_trimmed_len_bounds(s.drop_last());
        assert forall|i: int| trimmed_len(s) <= i < s.len() implies s[i] == '/' by {
            if i < s.len() - 1 {
                assert(s.drop_last()[i] == '/');
            }
        }
        if trimmed_len(s) > 0 {
            assert(s.drop_last()[trimmed_len(s) - 1] != '/');
        }
    }
}

/// Stripping trailing slashes is idempotent: stripping twice yields the
/// same result as stripping once.
pub proof fn lemma_trim_idempotent(s: Seq<char>)
    ensures
        trim_trailing_slashes(trim_trailing_slashes(s)) == trim_trailing_slashes(s),
{
    lemma_trimmed_len_bounds(s);
    let t = trim_trailing_slashes(s);
    if t.len() > 0 {
        assert(t.last() == s[trimmed_len(s) - 1]);
    }
    assert(trimmed_len(t) == t.len());
    assert(t.subrange(0, t.len() as int) =~= t);
}

/// Returns `base` with every trailing `'/'` removed.
pub fn normalize_base_url(base: &str) -> (r: String)
    ensures
        r@ == trim_trailing_slashes(base@),
{
    let n = base.unicode_len();
    let mut k = n;
    proof {
        assert(base@.subrange(0, n as int) =~= base@);
    }
    loop
        invariant
            k <= n,
            n == base@.len(),
            trimmed_len(base@) == trimmed_len(base@.subrange(0, k as int)),
        ensures
            k as nat == trimmed_len(base@),
            k <= n,
        decreases k,
    {
        if k == 0 {
            proof {
                assert(base@.subrange(0, 0) =~= Seq::<char>::empty());
            }
            break;
        }
        let c = base.get_char(k - 1);
        proof {
            let pre = base@.subrange(0, k as int);
            assert(pre.last() == base@[k - 1]);
            if c == '/' {
                assert(pre.drop_last() =~= base@.subrange(0, k - 1));
            }
        }
        if c != '/' {
            break;
        }
        k = k - 1;
    }
    let trimmed = base.substring_char(0, k);
    trimmed.to_owned()
}

/// Target URL for a session-started notification: the base with trailing
/// slashes stripped, then the fixed path `/session-started`.
pub fn session_started_url(base: &str) -> (r: String)
    ensures
        r@ == trim_trailing_slashes(base@) + "/session-started"@,
{
    normalize_base_url(base).concat("/session-started")
}

/// Target URL for a call-ended notification: the base with trailing
/// slashes stripped, then the fixed path `/call-ended`.
pub fn call_ended_url(base: &str) -> (r: String)
    ensures
        r@ == trim_trailing_slashes(base@) + "/call-ended"@,
{
    normalize_base_url(base).concat("/call-ended")
}

} // verus!
