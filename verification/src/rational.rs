use vstd::prelude::*;

verus! {

/// A rational number held as a numerator/denominator pair of 32-bit
/// integers, the form in which stream metadata reports time bases and
/// frame rates.
#[derive(Clone, Copy, PartialEq, Eq, Structural, Debug)]
pub struct Rational {
    pub num: i32,
    pub den: i32,
}

impl Rational {
    /// A rate or time base that can safely be used in arithmetic:
    /// strictly positive numerator and denominator.
    pub open spec fn is_positive(self) -> bool {
        0 < self.num && 0 < self.den
    }

    pub fn new(num: i32, den: i32) -> (r: Rational)
        ensures
            r.num == num,
            r.den == den,
    {
        Rational { num, den }
    }

    pub fn numerator(&self) -> (r: i32)
        ensures
            r == self.num,
    {
        self.num
    }

    pub fn denominator(&self) -> (r: i32)
        ensures
            r == self.den,
    {
        self.den
    }
}

} // verus!
