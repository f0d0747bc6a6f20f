//! The shared-secret bearer gate performed identically at every endpoint.

use vstd::prelude::*;
use vstd::string::*;

verus! {

/// A credential is accepted exactly when a header is present, it carries the
/// `"Bearer "` scheme, and everything after the scheme equals the shared
/// secret, character for character.
pub open spec fn authorized(header: Option<Seq<char>>, token: Seq<char>) -> bool {
    match header {
        Option::None => false,
        Option::Some(h) => h.len() >= 7 && h.subrange(0, 7) == "Bearer "@ && h.subrange(
            7,
            h.len() as int,
        ) == token,
    }
}

/// The character sequences behind an optional header value.
pub open spec fn header_view(header: Option<&String>) -> Option<Seq<char>> {
    match header {
        Option::None => Option::None,
        Option::Some(h) => Option::Some(h@),
    }
}

/// Equality of two runs of characters that examines every position whatever
/// the outcome, so that the time taken does not betray how long a matching
/// prefix was. Only the lengths themselves are allowed to differ quickly.
fn chars_match(a: &str, b: &str) -> (r: bool)
    ensures
        r == (a@ == b@),
{
    let n: usize = a.unicode_len();
    let nb: usize = b.unicode_len();
    if n != nb {
        proof {
            assert(a@ != b@);
        }
        return false;
    }
    let mut ok: bool = true;
    let mut i: usize = 0;
    proof {
        assert(a@.subrange(0, 0) =~= b@.subrange(0, 0));
    }
    while i < n
        invariant
            n == a@.len() && n == b@.len(),
            0 <= i <= n,
            ok == (a@.subrange(0, i as int) == b@.subrange(0, i as int)),
        decreases n - i,
    {
        let ca = a.get_char(i);
        let cb = b.get_char(i);
        let ghost i0 = i as int;
        let ghost was_ok = ok;
        let eq: bool = ca == cb;
        ok = ok && eq;
        i += 1;
        proof {
            if a@.subrange(0, i0 + 1) == b@.subrange(0, i0 + 1) {
                assert forall|j: int| 0 <= j <= i0 implies a@[j] == b@[j] by {
                    assert(a@.subrange(0, i0 + 1)[j] == a@[j]);
                    assert(b@.subrange(0, i0 + 1)[j] == b@[j]);
                }
                assert(a@.subrange(0, i0) =~= b@.subrange(0, i0));
                assert(ca == cb);
            }
            if was_ok && eq {
                assert forall|j: int| 0 <= j <= i0 implies a@[j] == b@[j] by {
                    if j < i0 {
                        assert(a@.subrange(0, i0)[j] == a@[j]);
                        assert(b@.subrange(0, i0)[j] == b@[j]);
                    }
                }
                assert(a@.subrange(0, i0 + 1) =~= b@.subrange(0, i0 + 1));
            }
        }
    }
    proof {
        assert(a@.subrange(0, n as int) =~= a@);
        assert(b@.subrange(0, n as int) =~= b@);
    }
    ok
}

/// Decides whether a request may reach the broker at all. Every endpoint
/// calls this before touching any shared state; the secret is compared by
/// `chars_match`, never by an equality that stops at the first difference.
pub fn authorize(header: Option<&String>, token: &String) -> (r: bool)
    ensures
        r == authorized(header_view(header), token@),
{
    match header {
        Option::None => false,
        Option::Some(h) => {
            let s: &str = h.as_str();
            let n: usize = s.unicode_len();
            if n < 7 {
                false
            } else {
                let scheme_ok = chars_match(s.substring_char(0, 7), "Bearer ");
                let secret_ok = chars_match(s.substring_char(7, n), token.as_str());
                scheme_ok && secret_ok
            }
        },
    }
}

} // verus!
