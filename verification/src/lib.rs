//! Verified credential-verification and transactional-identity engine.
//!
//! The library models the identity store (users, sessions, second-factor
//! configurations, one-time requests) as an in-memory value and proves the
//! engine's rules over it: multi-factor credential dispatch, time-based
//! one-time-password verification with an anti-replay window, single-use
//! backup codes, and a serializable-transaction retry coordinator that
//! rerolls colliding random identifiers without discarding unrelated work.

pub mod crypto;
pub mod credentials;
pub mod email;
pub mod errors;
pub mod flows;
pub mod laws;
pub mod store;
pub mod token;
pub mod tx;
pub mod validation;

use vstd::prelude::*;

verus! {

/// Parses the URI authority out of a URI origin string: everything after the
/// first occurrence of "//".
pub fn authority_from_origin(origin: &str) -> (r: &str)
    requires
        exists|i: int|
            0 <= i && i + 2 <= origin@.len() && #[trigger] origin@.subrange(i, i + 2) =~= "//"@,
    ensures
        exists|i: int|
            {
                &&& 0 <= i && i + 2 <= origin@.len()
                &&& #[trigger] origin@.subrange(i, i + 2) =~= "//"@
                &&& forall|j: int|
                    0 <= j < i ==> !(#[trigger] origin@.subrange(j, j + 2) =~= "//"@)
                &&& r@ == origin@.subrange(i + 2, origin@.len() as int)
            },
{
    proof {
        reveal_strlit("//");
    }
    let n = origin.unicode_len();
    let mut i: usize = 0;
    while i + 1 < n
        invariant
            0 <= i,
            i <= n,
            n == origin@.len(),
            "//"@.len() == 2,
            "//"@[0] == '/',
            "//"@[1] == '/',
            forall|j: int| 0 <= j < i ==> !(#[trigger] origin@.subrange(j, j + 2) =~= "//"@),
            exists|k: int|
                0 <= k && k + 2 <= origin@.len() && #[trigger] origin@.subrange(k, k + 2) =~= "//"@,
        decreases n - i,
    {
        let c0 = origin.get_char(i);
        let c1 = origin.get_char(i + 1);
        if c0 == '/' && c1 == '/' {
            assert(origin@.subrange(i as int, i + 2) =~= "//"@);
            return origin.substring_char(i + 2, n);
        }
        assert(!(origin@.subrange(i as int, i as int + 2) =~= "//"@));
        i = i + 1;
    }
    proof {
        let k = choose|k: int|
            0 <= k && k + 2 <= origin@.len() && #[trigger] origin@.subrange(k, k + 2) =~= "//"@;
        assert(false);
    }
    origin
}

} // verus!
