use vstd::prelude::*;
use crate::error::{DnsError, ErrorKind};

verus! {

/// One query of the cross product: an index into the names and a record type.
#[derive(Clone, Copy, Debug, PartialEq, Eq, Structural)]
pub struct QueryKey {
    pub name: usize,
    pub rtype: u16,
}

/// Entry `i * types.len() + j` of the name-major cross product asks name
/// `i` for type `types[j]`.
pub open spec fn cross_entry(types: Seq<u16>, i: int, j: int) -> QueryKey {
    QueryKey { name: i as usize, rtype: types[j] }
}

proof fn lemma_row_bound(a: int, b: int, i: int, t: int)
    requires
        0 <= a < i,
        0 <= b < t,
    ensures
        0 <= a * t + b < i * t,
{
    assert(a * t + b < i * t) by (nonlinear_arith)
        requires
            0 <= a < i,
            0 <= b < t,
    ;
    assert(0 <= a * t) by (nonlinear_arith)
        requires
            0 <= a,
            0 <= t,
    ;
}

/// Builds the cross product of `n_names` names and `types` in name-major
/// order: every type for the first name, then every type for the next.
pub fn cross_product(n_names: usize, types: &Vec<u16>) -> (r: Vec<QueryKey>)
    requires
        n_names * types@.len() <= usize::MAX,
    ensures
        r@.len() == n_names * types@.len(),
        forall|i: int, j: int|
            0 <= i < n_names && 0 <= j < types@.len() ==> #[trigger] r@[i * types@.len() + j]
                == cross_entry(types@, i, j),
{
    let t = types.len();
    let mut out: Vec<QueryKey> = Vec::new();
    let mut i: usize = 0;
    while i < n_names
        invariant
            t == types@.len(),
            n_names * t <= usize::MAX,
            i <= n_names,
            out@.len() == i * t,
            forall|a: int, b: int|
                0 <= a < i && 0 <= b < t ==> #[trigger] out@[a * t + b] == cross_entry(types@, a, b),
        decreases n_names - i,
    {
        let mut j: usize = 0;
        while j < t
            invariant
                t == types@.len(),
                n_names * t <= usize::MAX,
                i < n_names,
                j <= t,
                out@.len() == i * t + j,
                forall|a: int, b: int|
                    0 <= a < i && 0 <= b < t ==> #[trigger] out@[a * t + b] == cross_entry(
                        types@,
                        a,
                        b,
                    ),
                forall|b: int| 0 <= b < j ==> #[trigger] out@[i * t + b] == cross_entry(types@, i as int, b),
            decreases t - j,
        {
            proof {
                assert((i + 1) * t <= n_names * t) by (nonlinear_arith)
                    requires
                        i < n_names,
                        0 <= t,
                ;
                assert((i + 1) * t == i * t + t) by (nonlinear_arith);
            }
            let ghost before = out@;
            out.push(QueryKey { name: i, rtype: types[j] });
            proof {
                assert forall|a: int, b: int| 0 <= a < i && 0 <= b < t implies #[trigger] out@[a * t + b]
                    == cross_entry(types@, a, b) by {
                    lemma_row_bound(a, b, i as int, t as int);
                    assert(out@[a * t + b] == before[a * t + b]);
                }
            }
            j = j + 1;
        }
        proof {
            assert((i + 1) * t == i * t + t) by (nonlinear_arith);
            assert forall|a: int, b: int| 0 <= a < i + 1 && 0 <= b < t implies #[trigger] out@[a * t + b]
                == cross_entry(types@, a, b) by {
                if a == i {
                    assert(out@[i * t + b] == cross_entry(types@, i as int, b));
                }
            }
        }
        i = i + 1;
    }
    out
}

/// The values of a list of outcomes when every one succeeded.
pub open spec fn all_ok<T>(results: Seq<Result<T, String>>) -> bool {
    forall|k: int| 0 <= k < results.len() ==> (#[trigger] results[k]) is Ok
}

/// Joins the outcomes of the queries: all of their values in the order of
/// the queries, or one response error and no value at all when any failed.
pub fn gather<T>(results: Vec<Result<T, String>>) -> (r: Result<Vec<T>, DnsError>)
    ensures
        r is Ok <==> all_ok(results@),
        r is Ok ==> r->Ok_0@.len() == results@.len() && forall|k: int|
            0 <= k < results@.len() ==> results@[k] == Ok::<T, String>(#[trigger] r->Ok_0@[k]),
        r is Err ==> r->Err_0.kind == ErrorKind::DnsResponse,
{
    let ghost all = results@;
    let mut rest = results;
    let mut out: Vec<T> = Vec::new();
    while rest.len() > 0
        invariant
            all == results@,
            out@.len() <= all.len(),
            rest@ == all.subrange(out@.len() as int, all.len() as int),
            forall|k: int| 0 <= k < out@.len() ==> all[k] == Ok::<T, String>(#[trigger] out@[k]),
        decreases rest@.len(),
    {
        let k = out.len();
        match rest.remove(0) {
            Ok(v) => out.push(v),
            Err(detail) => {
                assert(!all_ok(all)) by {
                    assert(all[k as int] is Err);
                }
                return Err(DnsError::new(ErrorKind::DnsResponse, detail));
            },
        }
    }
    assert(all_ok(all)) by {
        assert forall|k: int| 0 <= k < all.len() implies (#[trigger] all[k]) is Ok by {
            assert(all[k] == Ok::<T, String>(out@[k]));
        }
    }
    Ok(out)
}

} // verus!
