use crate::error::CduError;
use vstd::prelude::*;

verus! {

/// Every item of `rs` succeeded.
pub open spec fn all_ok<T>(rs: Seq<Result<T, CduError>>) -> bool {
    forall|i: int| 0 <= i < rs.len() ==> #[trigger] rs[i] is Ok
}

/// Item `i` of `rs` is the first that failed.
pub open spec fn first_failure_at<T>(rs: Seq<Result<T, CduError>>, i: int) -> bool {
    &&& 0 <= i < rs.len()
    &&& rs[i] is Err
    &&& forall|j: int| 0 <= j < i ==> #[trigger] rs[j] is Ok
}

/// All the successful values, in order, or the first failure when there is
/// one.
pub fn all_or_first_failure<T>(items: Vec<Result<T, CduError>>) -> (r: Result<Vec<T>, CduError>)
    ensures
        r is Ok <==> all_ok(items@),
        r matches Ok(vs) ==> vs@.len() == items@.len() && forall|i: int|
            0 <= i < vs@.len() ==> items@[i] == Ok::<T, CduError>(#[trigger] vs@[i]),
        r matches Err(e) ==> exists|i: int|
            first_failure_at(items@, i) && items@[i] == Err::<T, CduError>(e),
{
    let mut items = items;
    let ghost orig = items@;
    let mut i: usize = 0;
    while i < items.len() && items[i].is_ok()
        invariant
            items@ == orig,
            i <= items@.len(),
            forall|j: int| 0 <= j < i ==> #[trigger] orig[j] is Ok,
        decreases items@.len() - i,
    {
        i = i + 1;
    }
    if i < items.len() {
        assert(first_failure_at(orig, i as int));
        let item = items.remove(i);
        match item {
            Err(e) => Err(e),
            Ok(_) => {
                proof {
                    assert(false);
                }
                Ok(Vec::new())
            },
        }
    } else {
        assert(all_ok(orig));
        let mut vs: Vec<T> = Vec::new();
        let mut rest = items;
        let mut taken: Vec<T> = Vec::new();
        // Take the items from the back, then put them in order.
        while rest.len() > 0
            invariant
                all_ok(orig),
                rest@ == orig.take(rest@.len() as int),
                rest@.len() <= orig.len(),
                taken@.len() == orig.len() - rest@.len(),
                forall|k: int|
                    0 <= k < taken@.len() ==> orig[orig.len() - 1 - k] == Ok::<T, CduError>(
                        #[trigger] taken@[k],
                    ),
            decreases rest@.len(),
        {
            let ghost n = rest@.len();
            let item = rest.pop().unwrap();
            assert(orig[n - 1] == item);
            assert(rest@ =~= orig.take(n - 1));
            match item {
                Ok(v) => taken.push(v),
                Err(_) => {
                    proof {
                        assert(orig[n - 1] is Ok);
                    }
                },
            }
        }
        while taken.len() > 0
            invariant
                all_ok(orig),
                vs@.len() + taken@.len() == orig.len(),
                forall|k: int|
                    0 <= k < taken@.len() ==> orig[orig.len() - 1 - k] == Ok::<T, CduError>(
                        #[trigger] taken@[k],
                    ),
                forall|k: int|
                    0 <= k < vs@.len() ==> orig[k] == Ok::<T, CduError>(#[trigger] vs@[k]),
            decreases taken@.len(),
        {
            let v = taken.pop().unwrap();
            vs.push(v);
        }
        Ok(vs)
    }
}

} // verus!
