//! Scanning an indexed family of optional values from the front.

use vstd::prelude::*;

verus! {

/// The first `Some` among `f(0), .., f(n - 1)`, or `None` where all of them
/// are `None`.
pub open spec fn first_some<T>(f: spec_fn(int) -> Option<T>, n: nat) -> Option<T>
    decreases n,
{
    if n == 0 {
        None
    } else {
        match first_some(f, (n - 1) as nat) {
            Some(found) => Some(found),
            None => f(n - 1),
        }
    }
}

/// The payloads of the `Some`s among `f(0), .., f(n - 1)`, in that order.
pub open spec fn collect_some<T>(f: spec_fn(int) -> Option<T>, n: nat) -> Seq<T>
    decreases n,
{
    if n == 0 {
        Seq::empty()
    } else {
        let before = collect_some(f, (n - 1) as nat);
        match f(n - 1) {
            Some(item) => before.push(item),
            None => before,
        }
    }
}

/// Once a prefix holds a `Some`, every longer prefix yields the same one.
pub proof fn lemma_first_some_stable<T>(f: spec_fn(int) -> Option<T>, m: nat, n: nat)
    requires
        m <= n,
        first_some(f, m) is Some,
    ensures
        first_some(f, n) == first_some(f, m),
    decreases n,
{
    if m < n {
        lemma_first_some_stable(f, m, (n - 1) as nat);
    }
}

/// A prefix without a `Some` holds `None` at each of its indices.
pub proof fn lemma_first_some_none<T>(f: spec_fn(int) -> Option<T>, n: nat, i: int)
    requires
        first_some(f, n) is None,
        0 <= i < n,
    ensures
        f(i) is None,
    decreases n,
{
    if i < n - 1 {
        lemma_first_some_none(f, (n - 1) as nat, i);
    }
}

/// A `Some` at an index shows in every prefix that reaches past it.
pub proof fn lemma_first_some_exists<T>(f: spec_fn(int) -> Option<T>, n: nat, i: int)
    requires
        0 <= i < n,
        f(i) is Some,
    ensures
        first_some(f, n) is Some,
    decreases n,
{
    if i < n - 1 {
        lemma_first_some_exists(f, (n - 1) as nat, i);
    }
}

/// Where a prefix holds a `Some`, there is a first index that holds it.
pub proof fn lemma_first_some_index<T>(f: spec_fn(int) -> Option<T>, n: nat) -> (i: int)
    requires
        first_some(f, n) is Some,
    ensures
        0 <= i < n,
        f(i) == first_some(f, n),
        first_some(f, i as nat) is None,
    decreases n,
{
    if first_some(f, (n - 1) as nat) is Some {
        lemma_first_some_index(f, (n - 1) as nat)
    } else {
        n - 1
    }
}

/// The payload of a `Some` at an index is among the collected ones.
pub proof fn lemma_collect_some_contains<T>(f: spec_fn(int) -> Option<T>, n: nat, i: int)
    requires
        0 <= i < n,
        f(i) is Some,
    ensures
        collect_some(f, n).contains(f(i)->Some_0),
    decreases n,
{
    let before = collect_some(f, (n - 1) as nat);
    if i < n - 1 {
        lemma_collect_some_contains(f, (n - 1) as nat, i);
        let at = choose|k: int| 0 <= k < before.len() && before[k] == f(i)->Some_0;
        assert(collect_some(f, n)[at] == f(i)->Some_0);
    } else {
        assert(collect_some(f, n)[before.len() as int] == f(i)->Some_0);
    }
}

/// Every collected payload comes from a `Some` at some index.
pub proof fn lemma_collect_some_origin<T>(f: spec_fn(int) -> Option<T>, n: nat, k: int) -> (i: int)
    requires
        0 <= k < collect_some(f, n).len(),
    ensures
        0 <= i < n,
        f(i) == Some(collect_some(f, n)[k]),
    decreases n,
{
    let before = collect_some(f, (n - 1) as nat);
    if k < before.len() {
        lemma_collect_some_origin(f, (n - 1) as nat, k)
    } else {
        n - 1
    }
}

/// Collected payloads keep the order of their indices: of two of them,
/// the earlier one comes from a smaller index.
pub proof fn lemma_collect_some_in_order<T>(
    f: spec_fn(int) -> Option<T>,
    n: nat,
    k: int,
    l: int,
) -> (origin: (int, int))
    requires
        0 <= k < l < collect_some(f, n).len(),
    ensures
        0 <= origin.0 < origin.1 < n,
        f(origin.0) == Some(collect_some(f, n)[k]),
        f(origin.1) == Some(collect_some(f, n)[l]),
    decreases n,
{
    let before = collect_some(f, (n - 1) as nat);
    if l < before.len() {
        lemma_collect_some_in_order(f, (n - 1) as nat, k, l)
    } else {
        (lemma_collect_some_origin(f, (n - 1) as nat, k), n - 1)
    }
}

/// Two families that agree on the first `n` indices collect the same.
pub proof fn lemma_collect_some_agree<T>(
    f: spec_fn(int) -> Option<T>,
    g: spec_fn(int) -> Option<T>,
    n: nat,
)
    requires
        forall|i: int| 0 <= i < n ==> (#[trigger] f(i)) == g(i),
    ensures
        collect_some(f, n) == collect_some(g, n),
    decreases n,
{
    if n > 0 {
        lemma_collect_some_agree(f, g, (n - 1) as nat);
    }
}

} // verus!
