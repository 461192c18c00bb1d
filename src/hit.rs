use vstd::prelude::*;
use crate::color::Color;

verus! {

/// What a ray produces when it strikes a surface: the colour of the surface
/// and the parameter `t` along the ray at which it was struck.
///
/// `t` is left generic: every shape of one scene reports it in the units of
/// the same ray, and only its order among hits matters here.
#[derive(Clone, Copy, Debug)]
pub struct Hit<T> {
    pub color: Color,
    pub t: T,
}

/// The result of recolouring `hit` with `color`: the same `t`, the new colour;
/// a miss stays a miss.
pub open spec fn recolored<T>(hit: Option<Hit<T>>, color: Color) -> Option<Hit<T>> {
    match hit {
        Some(h) => Some(Hit { color, t: h.t }),
        None => None,
    }
}

/// The nearer of two results for one ray. `first_nearer` tells, when both
/// hit, whether the first one's `t` is at most the second one's; on a tie the
/// first wins. One miss leaves the other result; two misses are a miss.
pub open spec fn nearer<T>(
    first: Option<Hit<T>>,
    second: Option<Hit<T>>,
    first_nearer: bool,
) -> Option<Hit<T>> {
    match (first, second) {
        (Some(a), Some(b)) => if first_nearer {
            Some(a)
        } else {
            Some(b)
        },
        (Some(a), None) => Some(a),
        (None, Some(b)) => Some(b),
        (None, None) => None,
    }
}

/// Colours whatever the inner shape reports with `color`, keeping its `t`.
pub fn recolor<T>(hit: Option<Hit<T>>, color: Color) -> (r: Option<Hit<T>>)
    ensures
        r == recolored(hit, color),
{
    match hit {
        Some(h) => Some(Hit { color, t: h.t }),
        None => None,
    }
}

/// Joins the results of two shapes for one ray into the result of their
/// union: the nearer hit wins, as `nearer` says.
pub fn nearest<T>(first: Option<Hit<T>>, second: Option<Hit<T>>, first_nearer: bool) -> (r:
    Option<Hit<T>>)
    ensures
        r == nearer(first, second, first_nearer),
{
    match first {
        Some(a) => match second {
            Some(b) => if first_nearer {
                Some(a)
            } else {
                Some(b)
            },
            None => Some(a),
        },
        None => second,
    }
}

/// The union misses exactly when both operands miss, and a hit of the union
/// is a hit of one of them, unchanged.
pub proof fn lemma_union_is_one_operand<T>(
    first: Option<Hit<T>>,
    second: Option<Hit<T>>,
    first_nearer: bool,
)
    ensures
        nearer(first, second, first_nearer) is None <==> (first is None && second is None),
        nearer(first, second, first_nearer) is Some ==> (nearer(first, second, first_nearer)
            == first || nearer(first, second, first_nearer) == second),
{
}

} // verus!
