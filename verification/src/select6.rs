//! Priority-ordered selection between six pending sources.
//!
//! [`select6`] combines the readiness of six receive operations; polling
//! the combinator returns the value of the first source (in argument
//! order) that is ready, so simultaneously ready sources are decided by a
//! fixed priority: earlier arguments win ties. The driver loop re-polls
//! while no source is ready.

use vstd::prelude::*;

verus! {

/// Which of six sources completed first.
#[derive(Debug, Clone, PartialEq)]
pub enum Either6<A, B, C, D, E, F> {
    /// First source finished first.
    First(A),
    /// Second source finished first.
    Second(B),
    /// Third source finished first.
    Third(C),
    /// Fourth source finished first.
    Fourth(D),
    /// Fifth source finished first.
    Fifth(E),
    /// Sixth source finished first.
    Sixth(F),
}

/// Combinator over the readiness of six sources; see [`select6`].
#[derive(Debug, Clone)]
pub struct Select6<A, B, C, D, E, F> {
    pub a: Option<A>,
    pub b: Option<B>,
    pub c: Option<C>,
    pub d: Option<D>,
    pub e: Option<E>,
    pub f: Option<F>,
}

/// What polling a [`Select6`] returns: the value of the first ready
/// source in argument order, or nothing when none is ready.
pub open spec fn spec_select6<A, B, C, D, E, F>(s: Select6<A, B, C, D, E, F>) -> Option<
    Either6<A, B, C, D, E, F>,
> {
    if s.a is Some {
        Some(Either6::First(s.a->0))
    } else if s.b is Some {
        Some(Either6::Second(s.b->0))
    } else if s.c is Some {
        Some(Either6::Third(s.c->0))
    } else if s.d is Some {
        Some(Either6::Fourth(s.d->0))
    } else if s.e is Some {
        Some(Either6::Fifth(s.e->0))
    } else if s.f is Some {
        Some(Either6::Sixth(s.f->0))
    } else {
        None
    }
}

/// Combines the readiness of six sources into one selection, to be
/// decided by [`Select6::poll`].
pub fn select6<A, B, C, D, E, F>(
    a: Option<A>,
    b: Option<B>,
    c: Option<C>,
    d: Option<D>,
    e: Option<E>,
    f: Option<F>,
) -> (r: Select6<A, B, C, D, E, F>)
    ensures
        r == (Select6 { a, b, c, d, e, f }),
{
    Select6 { a, b, c, d, e, f }
}

impl<A, B, C, D, E, F> Select6<A, B, C, D, E, F> {
    /// Returns the value of the first ready source in argument order;
    /// `None` when no source is ready, in which case the caller polls
    /// again later.
    pub fn poll(self) -> (r: Option<Either6<A, B, C, D, E, F>>)
        ensures
            r == spec_select6(self),
    {
        if let Some(x) = self.a {
            return Some(Either6::First(x));
        }
        if let Some(x) = self.b {
            return Some(Either6::Second(x));
        }
        if let Some(x) = self.c {
            return Some(Either6::Third(x));
        }
        if let Some(x) = self.d {
            return Some(Either6::Fourth(x));
        }
        if let Some(x) = self.e {
            return Some(Either6::Fifth(x));
        }
        if let Some(x) = self.f {
            return Some(Either6::Sixth(x));
        }
        None
    }
}

/// The fixed priority of the selection: whenever the first source is
/// ready it wins outright, and a later source is returned only when
/// every earlier one is pending.
pub proof fn lemma_select6_priority<A, B, C, D, E, F>(s: Select6<A, B, C, D, E, F>)
    ensures
        s.a is Some ==> spec_select6(s) == Some(Either6::<A, B, C, D, E, F>::First(s.a->0)),
        spec_select6(s) matches Some(r) ==> match r {
            Either6::First(_) => s.a is Some,
            Either6::Second(_) => s.a is None && s.b is Some,
            Either6::Third(_) => s.a is None && s.b is None && s.c is Some,
            Either6::Fourth(_) => s.a is None && s.b is None && s.c is None && s.d is Some,
            Either6::Fifth(_) => s.a is None && s.b is None && s.c is None && s.d is None
                && s.e is Some,
            Either6::Sixth(_) => s.a is None && s.b is None && s.c is None && s.d is None
                && s.e is None && s.f is Some,
        },
        spec_select6(s) is None <==> (s.a is None && s.b is None && s.c is None && s.d is None
            && s.e is None && s.f is None),
{
}

} // verus!
