//! Position-wise closeness of two sequences of numbers.
use vstd::prelude::*;

use crate::numeric::Float;

verus! {

/// The number of positions present in both sequences.
pub open spec fn common_len<T>(x: Seq<T>, y: Seq<T>) -> int {
    if x.len() <= y.len() {
        x.len() as int
    } else {
        y.len() as int
    }
}

/// Two numbers are close: finite ones differ by less than `delta`, and where
/// either is not finite they are equal.
pub open spec fn pair_close<T: Float>(a: T, b: T, delta: T) -> bool {
    if a.spec_finite() && b.spec_finite() {
        a.spec_minus(b).spec_abs().spec_less(delta)
    } else {
        a.spec_equal(b)
    }
}

/// Two numbers are close in magnitude: finite ones have absolute values that
/// differ by less than `delta`, and where either is not finite they are equal.
pub open spec fn pair_close_abs<T: Float>(a: T, b: T, delta: T) -> bool {
    if a.spec_finite() && b.spec_finite() {
        a.spec_abs().spec_minus(b.spec_abs()).spec_abs().spec_less(delta)
    } else {
        a.spec_equal(b)
    }
}

/// Every position present in both sequences holds a close pair.
pub open spec fn all_close<T: Float>(x: Seq<T>, y: Seq<T>, delta: T) -> bool {
    forall|i: int| 0 <= i < common_len(x, y) ==> #[trigger] pair_close(x[i], y[i], delta)
}

/// Every position present in both sequences holds a pair close in magnitude.
pub open spec fn all_close_abs<T: Float>(x: Seq<T>, y: Seq<T>, delta: T) -> bool {
    forall|i: int| 0 <= i < common_len(x, y) ==> #[trigger] pair_close_abs(x[i], y[i], delta)
}

/// `i` is the first position present in both sequences whose pair is not close.
pub open spec fn first_not_close<T: Float>(x: Seq<T>, y: Seq<T>, delta: T, i: int) -> bool {
    &&& 0 <= i < common_len(x, y)
    &&& !pair_close(x[i], y[i], delta)
    &&& forall|j: int| 0 <= j < i ==> #[trigger] pair_close(x[j], y[j], delta)
}

/// `i` is the first position present in both sequences whose pair is not close
/// in magnitude.
pub open spec fn first_not_close_abs<T: Float>(x: Seq<T>, y: Seq<T>, delta: T, i: int) -> bool {
    &&& 0 <= i < common_len(x, y)
    &&& !pair_close_abs(x[i], y[i], delta)
    &&& forall|j: int| 0 <= j < i ==> #[trigger] pair_close_abs(x[j], y[j], delta)
}

/// Checks that the corresponding elements of two sequences are closer than
/// `delta`. Positions past the end of the shorter sequence are not compared.
///
/// Returns `Err(i)` with the first position whose pair is not close.
pub fn close<T: Float>(x: &[T], y: &[T], delta: T) -> (r: Result<(), usize>)
    ensures
        r is Ok <==> all_close(x@, y@, delta),
        r matches Err(i) ==> first_not_close(x@, y@, delta, i as int),
{
    let n: usize = if x.len() <= y.len() { x.len() } else { y.len() };
    let mut i: usize = 0;
    while i < n
        invariant
            n == common_len(x@, y@),
            i <= n,
            forall|j: int| 0 <= j < i ==> #[trigger] pair_close(x@[j], y@[j], delta),
        decreases n - i,
    {
        let a = x[i];
        let b = y[i];
        let ok = if a.is_finite() && b.is_finite() {
            a.minus(&b).abs().less(&delta)
        } else {
            a.equal(&b)
        };
        if !ok {
            assert(!pair_close(x@[i as int], y@[i as int], delta));
            return Err(i);
        }
        i = i + 1;
    }
    Ok(())
}

/// Checks that the absolute values of the corresponding elements of two
/// sequences are closer than `delta`. Positions past the end of the shorter
/// sequence are not compared; where either element is not finite the two must
/// be equal.
///
/// Returns `Err(i)` with the first position whose pair is not close.
pub fn close_abs<T: Float>(x: &[T], y: &[T], delta: T) -> (r: Result<(), usize>)
    ensures
        r is Ok <==> all_close_abs(x@, y@, delta),
        r matches Err(i) ==> first_not_close_abs(x@, y@, delta, i as int),
{
    let n: usize = if x.len() <= y.len() { x.len() } else { y.len() };
    let mut i: usize = 0;
    while i < n
        invariant
            n == common_len(x@, y@),
            i <= n,
            forall|j: int| 0 <= j < i ==> #[trigger] pair_close_abs(x@[j], y@[j], delta),
        decreases n - i,
    {
        let a = x[i];
        let b = y[i];
        let ok = if a.is_finite() && b.is_finite() {
            a.abs().minus(&b.abs()).abs().less(&delta)
        } else {
            a.equal(&b)
        };
        if !ok {
            assert(!pair_close_abs(x@[i as int], y@[i as int], delta));
            return Err(i);
        }
        i = i + 1;
    }
    Ok(())
}

/// The one-element sequences pass either check exactly when their one pair does.
proof fn lemma_single_pair<T: Float>(a: T, b: T, delta: T)
    ensures
        all_close(seq![a], seq![b], delta) <==> pair_close(a, b, delta),
        all_close_abs(seq![a], seq![b], delta) <==> pair_close_abs(a, b, delta),
{
    let (x, y) = (seq![a], seq![b]);
    assert(x[0] == a && y[0] == b && common_len(x, y) == 1);
    if pair_close(a, b, delta) {
        assert forall|i: int| 0 <= i < common_len(x, y) implies #[trigger] pair_close(
            x[i],
            y[i],
            delta,
        ) by {
            assert(i == 0);
        }
    }
    if pair_close_abs(a, b, delta) {
        assert forall|i: int| 0 <= i < common_len(x, y) implies #[trigger] pair_close_abs(
            x[i],
            y[i],
            delta,
        ) by {
            assert(i == 0);
        }
    }
}

/// For two finite numbers, the one-element sequences are close exactly when
/// the numbers differ by less than `delta`.
pub proof fn lemma_close_single_finite<T: Float>(a: T, b: T, delta: T)
    requires
        a.spec_finite(),
        b.spec_finite(),
    ensures
        all_close(seq![a], seq![b], delta) <==> a.spec_minus(b).spec_abs().spec_less(delta),
{
    lemma_single_pair(a, b, delta);
}

/// For two finite numbers, the one-element sequences are close in magnitude
/// exactly when the absolute values differ by less than `delta`.
pub proof fn lemma_close_abs_single_finite<T: Float>(a: T, b: T, delta: T)
    requires
        a.spec_finite(),
        b.spec_finite(),
    ensures
        all_close_abs(seq![a], seq![b], delta) <==> a.spec_abs().spec_minus(
            b.spec_abs(),
        ).spec_abs().spec_less(delta),
{
    lemma_single_pair(a, b, delta);
}

/// Where either number is not finite, the one-element sequences pass either
/// check exactly when the two numbers are equal, whatever `delta` is: equal
/// infinities pass, opposite infinities and not-a-number values do not.
pub proof fn lemma_close_single_not_finite<T: Float>(a: T, b: T, delta: T)
    requires
        !a.spec_finite() || !b.spec_finite(),
    ensures
        all_close(seq![a], seq![b], delta) <==> a.spec_equal(b),
        all_close_abs(seq![a], seq![b], delta) <==> a.spec_equal(b),
{
    lemma_single_pair(a, b, delta);
}

/// Only the positions present in both sequences count: the elements of the
/// longer sequence past the end of the shorter one never change either check.
pub proof fn lemma_close_ignores_trailing<T: Float>(x: Seq<T>, y: Seq<T>, delta: T)
    requires
        x.len() <= y.len(),
    ensures
        all_close(x, y, delta) <==> all_close(x, y.take(x.len() as int), delta),
        all_close_abs(x, y, delta) <==> all_close_abs(x, y.take(x.len() as int), delta),
{
    let t = y.take(x.len() as int);
    assert(common_len(x, y) == x.len() && common_len(x, t) == x.len());
    if all_close(x, y, delta) {
        assert forall|i: int| 0 <= i < x.len() implies #[trigger] pair_close(x[i], t[i], delta) by {
            assert(t[i] == y[i]);
            assert(pair_close(x[i], y[i], delta));
        }
    }
    if all_close(x, t, delta) {
        assert forall|i: int| 0 <= i < x.len() implies #[trigger] pair_close(x[i], y[i], delta) by {
            assert(t[i] == y[i]);
            assert(pair_close(x[i], t[i], delta));
        }
    }
    if all_close_abs(x, y, delta) {
        assert forall|i: int| 0 <= i < x.len() implies #[trigger] pair_close_abs(
            x[i],
            t[i],
            delta,
        ) by {
            assert(t[i] == y[i]);
            assert(pair_close_abs(x[i], y[i], delta));
        }
    }
    if all_close_abs(x, t, delta) {
        assert forall|i: int| 0 <= i < x.len() implies #[trigger] pair_close_abs(
            x[i],
            y[i],
            delta,
        ) by {
            assert(t[i] == y[i]);
            assert(pair_close_abs(x[i], t[i], delta));
        }
    }
}

} // verus!
