//! Folding a two-argument hash function over five integers.
//!
//! The hash function is whatever the caller supplies. It is described by
//! two relations over mathematical integers: on which arguments it may be
//! called ([`accepts`]), and which results a call may give ([`yields`]).

use crate::integer::integer_value;
use malachite::Integer;
use vstd::prelude::*;

verus! {

/// `h` may be called on any two integers with the values `left` and `right`.
pub open spec fn accepts<F: Fn(&Integer, &Integer) -> Integer>(h: F, left: int, right: int) -> bool {
    forall|x: &Integer, y: &Integer|
        integer_value(*x) == left && integer_value(*y) == right ==> #[trigger] call_requires(
            h,
            (x, y),
        )
}

/// Some call of `h` on integers with the values `left` and `right` may
/// return an integer with the value `out`.
pub open spec fn yields<F: Fn(&Integer, &Integer) -> Integer>(
    h: F,
    left: int,
    right: int,
    out: int,
) -> bool {
    exists|x: &Integer, y: &Integer, z: Integer|
        integer_value(*x) == left && integer_value(*y) == right && integer_value(z) == out
            && #[trigger] call_ensures(h, (x, y), z)
}

/// `h` is deterministic and computes `f`: whatever it returns has the value
/// that `f` gives on the values of the arguments.
pub open spec fn computes<F: Fn(&Integer, &Integer) -> Integer>(
    h: F,
    f: spec_fn(int, int) -> int,
) -> bool {
    forall|left: int, right: int, out: int|
        #[trigger] yields(h, left, right, out) ==> out == f(left, right)
}

/// `f` sends two different pairs of arguments to the same result.
pub open spec fn collision(f: spec_fn(int, int) -> int, a: int, b: int, c: int, d: int) -> bool {
    (a != c || b != d) && f(a, b) == f(c, d)
}

/// `f` has a collision.
pub open spec fn collides(f: spec_fn(int, int) -> int) -> bool {
    exists|a: int, b: int, c: int, d: int| #[trigger] collision(f, a, b, c, d)
}

/// 1 where the two values differ, 0 where they agree: for counting the
/// fields in which two messages differ.
pub open spec fn changed(a: int, b: int) -> nat {
    if a == b {
        0
    } else {
        1
    }
}

/// The left fold of `f` over five values: each result is the first argument
/// of the next application.
pub open spec fn chain_value(
    f: spec_fn(int, int) -> int,
    x0: int,
    x1: int,
    x2: int,
    x3: int,
    x4: int,
) -> int {
    f(f(f(f(x0, x1), x2), x3), x4)
}

/// `h` may be called at each of the four steps of the fold over
/// `x0, .., x4`, whatever the earlier steps returned.
pub open spec fn chain_accepted<F: Fn(&Integer, &Integer) -> Integer>(
    h: F,
    x0: int,
    x1: int,
    x2: int,
    x3: int,
    x4: int,
) -> bool {
    &&& accepts(h, x0, x1)
    &&& forall|a: int| #[trigger] yields(h, x0, x1, a) ==> accepts(h, a, x2)
    &&& forall|a: int, b: int|
        #![trigger yields(h, x0, x1, a), yields(h, a, x2, b)]
        yields(h, x0, x1, a) && yields(h, a, x2, b) ==> accepts(h, b, x3)
    &&& forall|a: int, b: int, c: int|
        #![trigger yields(h, x0, x1, a), yields(h, a, x2, b), yields(h, b, x3, c)]
        yields(h, x0, x1, a) && yields(h, a, x2, b) && yields(h, b, x3, c) ==> accepts(h, c, x4)
}

/// The fold of `h` over `x0, .., x4` may end in `out`.
pub open spec fn chain_yields<F: Fn(&Integer, &Integer) -> Integer>(
    h: F,
    x0: int,
    x1: int,
    x2: int,
    x3: int,
    x4: int,
    out: int,
) -> bool {
    exists|a: int, b: int, c: int|
        #![trigger yields(h, x0, x1, a), yields(h, a, x2, b), yields(h, b, x3, c)]
        yields(h, x0, x1, a) && yields(h, a, x2, b) && yields(h, b, x3, c) && yields(h, c, x4, out)
}

/// Hashes `x0` with `x1`, the result with `x2`, that result with `x3`, and
/// that one with `x4`.
pub fn hash_chain<F: Fn(&Integer, &Integer) -> Integer>(
    hash_function: F,
    x0: &Integer,
    x1: &Integer,
    x2: &Integer,
    x3: &Integer,
    x4: &Integer,
) -> (result: Integer)
    requires
        chain_accepted(
            hash_function,
            integer_value(*x0),
            integer_value(*x1),
            integer_value(*x2),
            integer_value(*x3),
            integer_value(*x4),
        ),
    ensures
        chain_yields(
            hash_function,
            integer_value(*x0),
            integer_value(*x1),
            integer_value(*x2),
            integer_value(*x3),
            integer_value(*x4),
            integer_value(result),
        ),
        forall|f: spec_fn(int, int) -> int| #[trigger]
            computes(hash_function, f) ==> integer_value(result) == chain_value(
                f,
                integer_value(*x0),
                integer_value(*x1),
                integer_value(*x2),
                integer_value(*x3),
                integer_value(*x4),
            ),
{
    let a = hash_function(x0, x1);
    assert(yields(hash_function, integer_value(*x0), integer_value(*x1), integer_value(a)));
    let b = hash_function(&a, x2);
    assert(yields(hash_function, integer_value(a), integer_value(*x2), integer_value(b)));
    let c = hash_function(&b, x3);
    assert(yields(hash_function, integer_value(b), integer_value(*x3), integer_value(c)));
    let d = hash_function(&c, x4);
    assert(yields(hash_function, integer_value(c), integer_value(*x4), integer_value(d)));
    d
}

/// Determinism of the fold. Under a hash function that computes `f`, the
/// fold can end in one value only, the left fold of `f`.
pub proof fn lemma_chain_deterministic<F: Fn(&Integer, &Integer) -> Integer>(
    h: F,
    f: spec_fn(int, int) -> int,
    x0: int,
    x1: int,
    x2: int,
    x3: int,
    x4: int,
    out: int,
)
    requires
        computes(h, f),
        chain_yields(h, x0, x1, x2, x3, x4, out),
    ensures
        out == chain_value(f, x0, x1, x2, x3, x4),
{
}

/// Two folds of `f` over different values that end in the same result
/// expose a collision of `f`.
pub proof fn lemma_chain_collision(
    f: spec_fn(int, int) -> int,
    x0: int,
    x1: int,
    x2: int,
    x3: int,
    x4: int,
    y0: int,
    y1: int,
    y2: int,
    y3: int,
    y4: int,
)
    requires
        chain_value(f, x0, x1, x2, x3, x4) == chain_value(f, y0, y1, y2, y3, y4),
        x0 != y0 || x1 != y1 || x2 != y2 || x3 != y3 || x4 != y4,
    ensures
        collides(f),
{
    let (a, b, c) = (f(x0, x1), f(f(x0, x1), x2), f(f(f(x0, x1), x2), x3));
    let (p, q, r) = (f(y0, y1), f(f(y0, y1), y2), f(f(f(y0, y1), y2), y3));
    if c != r || x4 != y4 {
        assert(collision(f, c, x4, r, y4));
    } else if b != q || x3 != y3 {
        assert(collision(f, b, x3, q, y3));
    } else if a != p || x2 != y2 {
        assert(collision(f, a, x2, p, y2));
    } else {
        assert(collision(f, x0, x1, y0, y1));
    }
}

} // verus!
