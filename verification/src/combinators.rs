//! Curve combinators: the data they hold and the decisions they make.
//!
//! Sampling itself works on `f32` time and on `bevy_math` curves, so it is
//! done by the engine integration, which asks this module which inner curve a
//! sequence samples.
use core::marker::PhantomData;
use vstd::prelude::*;

verus! {

/// Follows one curve with the next.
#[derive(Copy)]
pub struct SeqCurve<T, C1, C2> {
    first_curve: C1,
    second_curve: C2,
    _marker: PhantomData<T>,
}

/// Which inner curve a [`SeqCurve`] samples at a given time.
#[derive(Clone, Copy, Debug, PartialEq, Eq, Structural)]
pub enum SeqSegment {
    /// The time lies in the first curve's domain.
    First,
    /// The time lies in the second curve's domain only.
    Second,
    /// The time lies in neither: hold the first curve at the end of its domain.
    HoldFirstEnd,
}

impl<T, C1: Clone, C2: Clone> Clone for SeqCurve<T, C1, C2> {
    /// Clones both curves.
    fn clone(&self) -> (r: Self)
        ensures
            cloned(self.first_curve(), r.first_curve()),
            cloned(self.second_curve(), r.second_curve()),
    {
        SeqCurve {
            first_curve: self.first_curve.clone(),
            second_curve: self.second_curve.clone(),
            _marker: PhantomData,
        }
    }
}

/// Puts `second` after `first`.
pub fn seq<T, C1, C2>(first: C1, second: C2) -> (s: SeqCurve<T, C1, C2>)
    ensures
        s.first_curve() == first,
        s.second_curve() == second,
{
    SeqCurve { first_curve: first, second_curve: second, _marker: PhantomData }
}

impl<T, C1, C2> SeqCurve<T, C1, C2> {
    pub closed spec fn first_curve(&self) -> C1 {
        self.first_curve
    }

    pub closed spec fn second_curve(&self) -> C2 {
        self.second_curve
    }

    pub fn first(&self) -> (r: &C1)
        ensures
            *r == self.first_curve(),
    {
        &self.first_curve
    }

    pub fn second(&self) -> (r: &C2)
        ensures
            *r == self.second_curve(),
    {
        &self.second_curve
    }

    /// The segment sampled at a time that lies in the first curve's domain
    /// (`in_first`) and/or in the second's (`in_second`): the first curve wins,
    /// and outside both domains the first curve's end is held.
    pub fn segment(in_first: bool, in_second: bool) -> (s: SeqSegment)
        ensures
            in_first ==> s == SeqSegment::First,
            !in_first && in_second ==> s == SeqSegment::Second,
            !in_first && !in_second ==> s == SeqSegment::HoldFirstEnd,
    {
        if in_first {
            SeqSegment::First
        } else if in_second {
            SeqSegment::Second
        } else {
            SeqSegment::HoldFirstEnd
        }
    }
}

/// Samples two curves side by side.
pub struct Zip<T1, T2, C1, C2> {
    first: C1,
    second: C2,
    _marker1: PhantomData<T1>,
    _marker2: PhantomData<T2>,
}

/// Pairs `first` with `second`.
pub fn zip<T1, T2, C1, C2>(first: C1, second: C2) -> (z: Zip<T1, T2, C1, C2>)
    ensures
        z.first_curve() == first,
        z.second_curve() == second,
{
    Zip { first, second, _marker1: PhantomData, _marker2: PhantomData }
}

impl<T1, T2, C1, C2> Zip<T1, T2, C1, C2> {
    pub closed spec fn first_curve(&self) -> C1 {
        self.first
    }

    pub closed spec fn second_curve(&self) -> C2 {
        self.second
    }

    pub fn first(&self) -> (r: &C1)
        ensures
            *r == self.first_curve(),
    {
        &self.first
    }

    pub fn second(&self) -> (r: &C2)
        ensures
            *r == self.second_curve(),
    {
        &self.second
    }
}

/// Maps the output of a curve through a function.
pub struct MapCurve<T, O, C, F> {
    curve: C,
    mapper: F,
    _marker_in: PhantomData<T>,
    _marker_out: PhantomData<O>,
}

/// Maps the output of `curve` through `mapper`.
pub fn map<T, O, C, F>(curve: C, mapper: F) -> (m: MapCurve<T, O, C, F>)
    ensures
        m.inner_curve() == curve,
        m.inner_mapper() == mapper,
{
    MapCurve { curve, mapper, _marker_in: PhantomData, _marker_out: PhantomData }
}

impl<T, O, C, F> MapCurve<T, O, C, F> {
    pub closed spec fn inner_curve(&self) -> C {
        self.curve
    }

    pub closed spec fn inner_mapper(&self) -> F {
        self.mapper
    }

    pub fn curve(&self) -> (r: &C)
        ensures
            *r == self.inner_curve(),
    {
        &self.curve
    }

    pub fn mapper(&self) -> (r: &F)
        ensures
            *r == self.inner_mapper(),
    {
        &self.mapper
    }
}

/// Scales a curve's unit output to the range `low..high`.
pub struct ScaledOutput<T, C, O> {
    low: T,
    high: T,
    curve: C,
    _marker_out: PhantomData<O>,
}

/// Scales the unit output of `curve` to `low..high`.
pub fn scaled_output<T, C, O>(low: T, high: T, curve: C) -> (s: ScaledOutput<T, C, O>)
    ensures
        s.low_bound() == low,
        s.high_bound() == high,
        s.inner_curve() == curve,
{
    ScaledOutput { low, high, curve, _marker_out: PhantomData }
}

impl<T, C, O> ScaledOutput<T, C, O> {
    pub closed spec fn low_bound(&self) -> T {
        self.low
    }

    pub closed spec fn high_bound(&self) -> T {
        self.high
    }

    pub closed spec fn inner_curve(&self) -> C {
        self.curve
    }

    pub fn low(&self) -> (r: &T)
        ensures
            *r == self.low_bound(),
    {
        &self.low
    }

    pub fn high(&self) -> (r: &T)
        ensures
            *r == self.high_bound(),
    {
        &self.high
    }

    pub fn curve(&self) -> (r: &C)
        ensures
            *r == self.inner_curve(),
    {
        &self.curve
    }
}

} // verus!
