//! Lists whose items are produced one by one, each of which may fail.

use vstd::prelude::*;

verus! {

/// Applies `f` to each item with its position and collects the results in
/// order. Where `f` fails on some item, the result is the failure at the
/// first such item.
pub open spec fn try_map<A, B, E>(items: Seq<A>, f: spec_fn(int, A) -> Result<B, E>) -> Result<
    Seq<B>,
    E,
>
    decreases items.len(),
{
    if items.len() == 0 {
        Ok(Seq::empty())
    } else {
        match try_map(items.drop_last(), f) {
            Err(error) => Err(error),
            Ok(front) => match f(items.len() - 1, items.last()) {
                Err(error) => Err(error),
                Ok(value) => Ok(front.push(value)),
            },
        }
    }
}

/// `try_map` on the first `n + 1` items, from `try_map` on the first `n`.
pub proof fn lemma_try_map_step<A, B, E>(
    items: Seq<A>,
    f: spec_fn(int, A) -> Result<B, E>,
    n: int,
)
    requires
        0 <= n < items.len(),
    ensures
        try_map(items.take(n + 1), f) == match try_map(items.take(n), f) {
            Err(error) => Err(error),
            Ok(front) => match f(n, items[n]) {
                Err(error) => Err(error),
                Ok(value) => Ok(front.push(value)),
            },
        },
{
    assert(items.take(n + 1).drop_last() =~= items.take(n));
}

/// Once `try_map` has failed on the first `n` items, it fails in the same
/// way on all of them.
pub proof fn lemma_try_map_error_stays<A, B, E>(
    items: Seq<A>,
    f: spec_fn(int, A) -> Result<B, E>,
    n: int,
)
    requires
        0 <= n <= items.len(),
        try_map(items.take(n), f) is Err,
    ensures
        try_map(items, f) == try_map(items.take(n), f),
    decreases items.len() - n,
{
    if n < items.len() {
        lemma_try_map_step(items, f, n);
        lemma_try_map_error_stays(items, f, n + 1);
    } else {
        assert(items.take(n) =~= items);
    }
}

/// Where `try_map` succeeds, `f` succeeded on every item, and the results
/// stand at the positions of their items.
pub proof fn lemma_try_map_ok<A, B, E>(items: Seq<A>, f: spec_fn(int, A) -> Result<B, E>)
    requires
        try_map(items, f) is Ok,
    ensures
        try_map(items, f)->Ok_0.len() == items.len(),
        forall|i: int|
            0 <= i < items.len() ==> f(i, #[trigger] items[i]) == Ok::<B, E>(
                try_map(items, f)->Ok_0[i],
            ),
    decreases items.len(),
{
    if items.len() > 0 {
        let front = items.drop_last();
        lemma_try_map_ok(front, f);
        assert forall|i: int| 0 <= i < items.len() implies f(i, #[trigger] items[i]) == Ok::<B, E>(
            try_map(items, f)->Ok_0[i],
        ) by {
            if i < front.len() {
                assert(front[i] == items[i]);
            }
        }
    }
}

/// Where `try_map` fails, it fails as `f` does on the first item on which
/// `f` fails.
pub proof fn lemma_try_map_err<A, B, E>(items: Seq<A>, f: spec_fn(int, A) -> Result<B, E>)
    requires
        try_map(items, f) is Err,
    ensures
        exists|i: int|
            0 <= i < items.len() && (#[trigger] f(i, items[i])) == Err::<B, E>(
                try_map(items, f)->Err_0,
            ) && forall|j: int| 0 <= j < i ==> (#[trigger] f(j, items[j])) is Ok,
    decreases items.len(),
{
    let front = items.drop_last();
    if try_map(front, f) is Err {
        lemma_try_map_err(front, f);
        let i = choose|i: int|
            0 <= i < front.len() && (#[trigger] f(i, front[i])) == Err::<B, E>(
                try_map(front, f)->Err_0,
            ) && forall|j: int| 0 <= j < i ==> (#[trigger] f(j, front[j])) is Ok;
        assert(front[i] == items[i]);
        assert forall|j: int| 0 <= j < i implies (#[trigger] f(j, items[j])) is Ok by {
            assert(front[j] == items[j]);
        }
        assert(f(i, items[i]) == Err::<B, E>(try_map(items, f)->Err_0));
    } else {
        lemma_try_map_ok(front, f);
        let i = items.len() - 1;
        assert forall|j: int| 0 <= j < i implies (#[trigger] f(j, items[j])) is Ok by {
            assert(front[j] == items[j]);
        }
        assert(f(i, items[i]) == Err::<B, E>(try_map(items, f)->Err_0));
    }
}

/// The empty list maps to the empty list.
pub proof fn lemma_try_map_empty<A, B, E>(items: Seq<A>, f: spec_fn(int, A) -> Result<B, E>)
    requires
        items.len() == 0,
    ensures
        try_map(items, f) == Ok::<Seq<B>, E>(Seq::empty()),
{
}

} // verus!
