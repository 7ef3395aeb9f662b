//! A result-propagating map over sequences.
//!
//! Generation repeatedly turns an input list into an output list, stopping
//! at the first fatal error. `map_result` is that shape once, in spec form;
//! the `_prefix` variant names the partial result after the first `n`
//! elements, which is what loop invariants speak of.

use vstd::prelude::*;

use crate::metadata::GenError;

verus! {

/// Applies `f` to the first `n` elements of `s`, collecting the results in
/// order, or returns the first error.
pub open spec fn map_result_prefix<A, B>(
    s: Seq<A>,
    f: spec_fn(A) -> Result<B, GenError>,
    n: int,
) -> Result<Seq<B>, GenError>
    decreases n,
{
    if n <= 0 {
        Ok(Seq::empty())
    } else {
        match map_result_prefix(s, f, n - 1) {
            Err(e) => Err(e),
            Ok(rs) => match f(s[n - 1]) {
                Err(e) => Err(e),
                Ok(r) => Ok(rs.push(r)),
            },
        }
    }
}

/// Applies `f` to every element of `s`, collecting the results in order, or
/// returns the first error.
pub open spec fn map_result<A, B>(
    s: Seq<A>,
    f: spec_fn(A) -> Result<B, GenError>,
) -> Result<Seq<B>, GenError> {
    map_result_prefix(s, f, s.len() as int)
}

/// An error in a prefix settles the whole map: later elements are never
/// reached.
pub proof fn lemma_map_result_prefix_err<A, B>(
    s: Seq<A>,
    f: spec_fn(A) -> Result<B, GenError>,
    n: int,
)
    requires
        0 <= n <= s.len(),
        map_result_prefix(s, f, n) is Err,
    ensures
        map_result(s, f) == map_result_prefix(s, f, n),
    decreases s.len() - n,
{
    if n < s.len() {
        assert(map_result_prefix(s, f, n + 1) == map_result_prefix(s, f, n));
        lemma_map_result_prefix_err(s, f, n + 1);
    }
}

} // verus!
