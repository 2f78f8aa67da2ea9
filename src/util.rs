//! Small stateful helpers used by projectile behaviours.
use vstd::prelude::*;

verus! {

/// Integer division rounding toward zero, as `/` does on Rust's integers.
pub open spec fn div_toward_zero(a: int, b: int) -> int
    recommends
        b != 0,
{
    let q = vstd::math::abs(a) / vstd::math::abs(b);
    if (a >= 0) == (b > 0) {
        q as int
    } else {
        -q
    }
}

/// The value `map_range` computes: the position of `value` in `from`, carried over to `to`.
pub open spec fn mapped(value: int, from_start: int, from_end: int, to_start: int, to_end: int) -> int {
    div_toward_zero(value - from_start, from_end - from_start) * (to_end - to_start) + to_start
}

/// Calculates a factor in range `from` and applies it to range `to`.
///
/// The factor is an integer quotient, rounded toward zero. `requires` leaves out an empty
/// `from` and the inputs on which a step of the computation overflows `i64`.
pub fn map_range(value: i64, from: std::ops::Range<i64>, to: std::ops::Range<i64>) -> (r: i64)
    requires
        from.end != from.start,
        i64::MIN <= value - from.start <= i64::MAX,
        i64::MIN <= from.end - from.start <= i64::MAX,
        i64::MIN <= to.end - to.start <= i64::MAX,
        i64::MIN <= div_toward_zero(value - from.start, from.end - from.start) <= i64::MAX,
        i64::MIN <= div_toward_zero(value - from.start, from.end - from.start) * (to.end - to.start) <= i64::MAX,
        i64::MIN <= mapped(value as int, from.start as int, from.end as int, to.start as int, to.end as int) <= i64::MAX,
    ensures
        r == mapped(value as int, from.start as int, from.end as int, to.start as int, to.end as int),
{
    let a = (value - from.start) as i128;
    let b = (from.end - from.start) as i128;
    let ua = if a >= 0 { a } else { -a };
    let ub = if b >= 0 { b } else { -b };
    let uq = ua / ub;
    let q = if (a >= 0) == (b > 0) { uq } else { -uq };
    assert(q == div_toward_zero(a as int, b as int));
    let q = q as i64;
    q * (to.end - to.start) + to.start
}

/// A condition or action that can only be activated once, from `false` to `true`.
#[derive(Debug, Default, Clone, Copy)]
pub struct ConditionOnce(bool);

impl View for ConditionOnce {
    type V = bool;

    /// Whether the condition has been activated.
    closed spec fn view(&self) -> bool {
        self.0
    }
}

impl ConditionOnce {
    pub fn new() -> (r: ConditionOnce)
        ensures
            r@ == false,
    {
        ConditionOnce(false)
    }

    /// Runs `then` and activates the condition, if it was not activated and `cond` holds.
    pub fn if_then<T, F: FnOnce() -> T>(&mut self, cond: bool, then: F) -> (r: Option<T>)
        requires
            then.requires(()),
        ensures
            !old(self)@ && cond ==> final(self)@ && r is Some && then.ensures((), r->Some_0),
            !(!old(self)@ && cond) ==> final(self)@ == old(self)@ && r is None,
    {
        if !self.0 && cond {
            self.0 = true;
            Some(then())
        } else {
            None
        }
    }

    pub fn is_activated(&self) -> (r: bool)
        ensures
            r == self@,
    {
        self.0
    }

    /// Evaluates `condition` while not yet activated, and activates on `true`.
    pub fn set<F: FnOnce() -> bool>(&mut self, condition: F) -> (r: bool)
        requires
            condition.requires(()),
        ensures
            r == final(self)@,
            old(self)@ ==> final(self)@,
            !old(self)@ ==> condition.ensures((), final(self)@),
    {
        if !self.0 {
            self.0 = condition();
        }
        self.0
    }
}

/// A simple counter.
#[derive(Debug, Default)]
pub struct Counter(pub usize);

impl Counter {
    /// Obtains the next value and increments the counter.
    #[allow(clippy::should_implement_trait)]
    pub fn next(&mut self) -> (r: usize)
        requires
            old(self).0 < usize::MAX,
        ensures
            r == old(self).0,
            final(self).0 == old(self).0 + 1,
    {
        let result = self.0;
        self.0 += 1;
        result
    }
}

/// A value that keeps its previous content when its source goes away.
#[derive(Debug, Clone, Copy, Default)]
pub struct RetainedValue<T>(pub T);

/// The value that is kept after offering `new` to a retained `current` value.
pub open spec fn retained<T>(current: T, new: Option<T>) -> T {
    match new {
        Some(v) => v,
        None => current,
    }
}

impl<T: Copy> RetainedValue<T> {
    pub fn get(&mut self, new: Option<T>) -> (r: T)
        ensures
            final(self).0 == retained(old(self).0, new),
            r == final(self).0,
    {
        if let Some(value) = new {
            self.0 = value;
        }
        self.0
    }

    pub fn get_with<F: FnOnce() -> Option<T>>(&mut self, new: F) -> (r: T)
        requires
            new.requires(()),
        ensures
            exists|o: Option<T>| new.ensures((), o) && final(self).0 == retained(old(self).0, o),
            r == final(self).0,
    {
        let o = new();
        if let Some(value) = o {
            self.0 = value;
        }
        assert(new.ensures((), o) && self.0 == retained(old(self).0, o));
        self.0
    }

    pub fn current(&self) -> (r: T)
        ensures
            r == self.0,
    {
        self.0
    }
}

} // verus!
