//! Gathering a lazily produced list that may fail part-way.

use vstd::prelude::*;
use vstd::std_specs::iter::IteratorSpec;

verus! {

/// What gathering `items` in order gives: the first failure, if any item
/// fails, and otherwise every value. Nothing after the first failure
/// matters.
pub open spec fn gathered<X, E>(items: Seq<Result<X, E>>) -> Result<Seq<X>, E>
    decreases items.len(),
{
    if items.len() == 0 {
        Ok(Seq::empty())
    } else {
        match items[0] {
            Err(e) => Err(e),
            Ok(x) => match gathered(items.drop_first()) {
                Err(e) => Err(e),
                Ok(rest) => Ok(seq![x] + rest),
            },
        }
    }
}

/// Every item of `items` is a value, and `values` holds them in order.
pub open spec fn all_values<X, E>(items: Seq<Result<X, E>>, values: Seq<X>) -> bool {
    &&& values.len() == items.len()
    &&& forall|i: int| 0 <= i < items.len() ==> items[i] == Ok::<X, E>(#[trigger] values[i])
}

/// The item at `k` is the first failure of `items`, and it failed with `e`.
pub open spec fn first_failure<X, E>(items: Seq<Result<X, E>>, k: int, e: E) -> bool {
    &&& 0 <= k < items.len()
    &&& items[k] == Err::<X, E>(e)
    &&& forall|i: int| 0 <= i < k ==> (#[trigger] items[i]) is Ok
}

/// Gathering a list without failures gives its values.
pub proof fn lemma_gathered_values<X, E>(items: Seq<Result<X, E>>, values: Seq<X>)
    requires
        all_values(items, values),
    ensures
        gathered(items) == Ok::<Seq<X>, E>(values),
    decreases items.len(),
{
    if items.len() == 0 {
        assert(values =~= Seq::empty());
    } else {
        let rest = items.drop_first();
        let rest_values = values.drop_first();
        assert(all_values(rest, rest_values)) by {
            assert forall|i: int| 0 <= i < rest.len() implies rest[i] == Ok::<X, E>(
                #[trigger] rest_values[i],
            ) by {
                assert(rest[i] == items[i + 1]);
                assert(rest_values[i] == values[i + 1]);
            }
        }
        lemma_gathered_values(rest, rest_values);
        assert(items[0] == Ok::<X, E>(values[0]));
        assert(seq![values[0]] + rest_values =~= values);
    }
}

/// Gathering a list gives its first failure, whatever follows it.
pub proof fn lemma_gathered_failure<X, E>(items: Seq<Result<X, E>>, k: int, e: E)
    requires
        first_failure(items, k, e),
    ensures
        gathered(items) == Err::<Seq<X>, E>(e),
    decreases items.len(),
{
    if k > 0 {
        let rest = items.drop_first();
        assert(first_failure(rest, k - 1, e)) by {
            assert(rest[k - 1] == items[k]);
            assert forall|i: int| 0 <= i < k - 1 implies (#[trigger] rest[i]) is Ok by {
                assert(rest[i] == items[i + 1]);
            }
        }
        lemma_gathered_failure(rest, k - 1, e);
        assert(items[0] is Ok);
    }
}

/// Draws items from `data` until one fails or none is left. Returns the
/// first failure as it came, or all the values in order. After a failure
/// nothing more is drawn.
pub fn gather<X, E, It: Iterator<Item = Result<X, E>>>(data: It) -> (out: Result<Vec<X>, E>)
    requires
        data.obeys_prophetic_iter_laws(),
        data.decrease() is Some,
    ensures
        match gathered(data.remaining()) {
            Ok(values) => out is Ok && out->Ok_0@ == values,
            Err(e) => out == Err::<Vec<X>, E>(e),
        },
{
    let ghost all = data.remaining();
    let mut source = data;
    let mut values: Vec<X> = Vec::new();
    loop
        invariant
            all == data.remaining(),
            source.obeys_prophetic_iter_laws(),
            source.decrease() is Some,
            values@.len() + source.remaining().len() == all.len(),
            forall|i: int| 0 <= i < values@.len() ==> all[i] == Ok::<X, E>(#[trigger] values@[i]),
            forall|i: int|
                0 <= i < source.remaining().len() ==> all[values@.len() + i]
                    == #[trigger] source.remaining()[i],
        decreases source.decrease()->0,
    {
        let ghost before = source.remaining();
        match source.next() {
            None => {
                proof {
                    lemma_gathered_values(all, values@);
                }
                return Ok(values);
            },
            Some(Err(e)) => {
                proof {
                    assert(all[values@.len() as int] == before[0]);
                    assert forall|i: int| 0 <= i < values@.len() implies
                        (#[trigger] all[i]) is Ok by {
                        assert(all[i] == Ok::<X, E>(values@[i]));
                    }
                    lemma_gathered_failure(all, values@.len() as int, e);
                }
                return Err(e);
            },
            Some(Ok(x)) => {
                proof {
                    assert(all[values@.len() as int] == before[0]);
                    assert forall|i: int| 0 <= i < source.remaining().len() implies
                        all[values@.len()
                        + 1 + i] == #[trigger] source.remaining()[i] by {
                        assert(source.remaining()[i] == before[i + 1]);
                    }
                }
                values.push(x);
            },
        }
    }
}

} // verus!
