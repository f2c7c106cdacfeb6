use vstd::prelude::*;

verus! {

/// What the escape-time iteration does after testing the orbit point `z` of
/// iteration `i` against the circle of radius 2.
#[derive(PartialEq, Eq, Structural, Debug, Clone, Copy)]
pub enum EscapeStep {
    /// `z` lay outside the circle: the point escaped at this iteration.
    Escaped(usize),
    /// The iteration budget is spent without an escape: the point is taken
    /// to be in the set.
    Bounded,
    /// Update `z` to `z * z + c` and test again at this iteration.
    Continue(usize),
}

/// The step taken at iteration `i` with budget `limit`, where `outside` says
/// whether the squared magnitude of the current `z` exceeds 4.
pub open spec fn step_spec(i: nat, limit: nat, outside: bool) -> EscapeStep {
    if i >= limit {
        EscapeStep::Bounded
    } else if outside {
        EscapeStep::Escaped(i as usize)
    } else {
        EscapeStep::Continue((i + 1) as usize)
    }
}

/// The result of running the steps from iteration `i` on, where `outside[k]`
/// says whether the `k`-th orbit point lies outside the circle of radius 2.
pub open spec fn escape_from(outside: Seq<bool>, i: nat, limit: nat) -> Option<nat>
    decreases limit - i,
{
    if i >= limit || i >= outside.len() {
        None
    } else if outside[i as int] {
        Some(i)
    } else {
        escape_from(outside, i + 1, limit)
    }
}

/// The escape iteration of an orbit whose tests came out as `outside`, within
/// the budget `limit`; `None` for a point taken to be in the set.
pub open spec fn first_escape(outside: Seq<bool>, limit: nat) -> Option<nat> {
    escape_from(outside, 0, limit)
}

/// Decides the next move of the escape-time loop at iteration `i`: stop as
/// bounded once `limit` iterations are done, stop as escaped when the current
/// orbit point lies outside the circle, and go on otherwise.
pub fn escape_step(i: usize, limit: usize, outside: bool) -> (r: EscapeStep)
    ensures
        r == step_spec(i as nat, limit as nat, outside),
{
    if i >= limit {
        EscapeStep::Bounded
    } else if outside {
        EscapeStep::Escaped(i)
    } else {
        EscapeStep::Continue(i + 1)
    }
}

/// Running the steps from `i` on gives the escape of `escape_from`: the step
/// at `i` ends the run exactly when `escape_from` stops there, and otherwise
/// hands over to iteration `i + 1`.
pub proof fn lemma_step_follows_escape(outside: Seq<bool>, i: nat, limit: nat)
    requires
        limit <= outside.len(),
        limit <= usize::MAX,
    ensures
        match step_spec(i, limit, if i < outside.len() { outside[i as int] } else { false }) {
            EscapeStep::Escaped(k) => escape_from(outside, i, limit) == Some(k as nat),
            EscapeStep::Bounded => escape_from(outside, i, limit) is None,
            EscapeStep::Continue(n) => n == i + 1 && escape_from(outside, i, limit)
                == escape_from(outside, n as nat, limit),
        },
{
}

/// The escape iteration is the first iteration below the budget whose orbit
/// point lies outside the circle.
pub proof fn lemma_first_escape_is_first(outside: Seq<bool>, limit: nat, i: nat)
    requires
        limit <= outside.len(),
    ensures
        first_escape(outside, limit) == Some(i) <==> {
            &&& i < limit
            &&& outside[i as int]
            &&& forall|j: int| 0 <= j < i ==> !outside[j]
        },
{
    lemma_escape_from_is_first(outside, 0, limit, i);
}

proof fn lemma_escape_from_is_first(outside: Seq<bool>, start: nat, limit: nat, i: nat)
    requires
        limit <= outside.len(),
    ensures
        escape_from(outside, start, limit) == Some(i) <==> {
            &&& start <= i < limit
            &&& outside[i as int]
            &&& forall|j: int| start <= j < i ==> !outside[j]
        },
    decreases limit - start,
{
    if start < limit {
        lemma_escape_from_is_first(outside, start + 1, limit, i);
    }
}

/// An orbit that never leaves the circle of radius 2, such as the one of the
/// origin, is bounded for every budget.
pub proof fn law_orbit_inside_is_bounded(outside: Seq<bool>, limit: nat)
    requires
        limit <= outside.len(),
        forall|k: int| 0 <= k < limit ==> !outside[k],
    ensures
        first_escape(outside, limit) is None,
{
    if let Some(i) = first_escape(outside, limit) {
        lemma_first_escape_is_first(outside, limit, i);
    }
}

/// A budget of zero never finds an escape.
pub proof fn law_zero_budget_is_bounded(outside: Seq<bool>)
    ensures
        first_escape(outside, 0) is None,
{
}

/// Once an escape is found at iteration `i` within `limit1` iterations, every
/// larger budget finds the same escape at the same iteration.
pub proof fn law_escape_is_independent_of_larger_budget(
    outside: Seq<bool>,
    limit1: nat,
    limit2: nat,
    i: nat,
)
    requires
        limit1 <= limit2,
        limit2 <= outside.len(),
        first_escape(outside, limit1) == Some(i),
    ensures
        first_escape(outside, limit2) == Some(i),
{
    lemma_first_escape_is_first(outside, limit1, i);
    lemma_first_escape_is_first(outside, limit2, i);
}

/// The escape result depends on the orbit's tests and the budget alone:
/// equal inputs give equal results.
pub proof fn law_escape_is_deterministic(a: Seq<bool>, b: Seq<bool>, limit: nat)
    requires
        a == b,
    ensures
        first_escape(a, limit) == first_escape(b, limit),
{
}

} // verus!
