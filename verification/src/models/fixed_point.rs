use vstd::prelude::*;
use vstd::std_specs::ops::{AddSpec, AddSpecImpl, NegSpec, NegSpecImpl, SubSpec, SubSpecImpl};

verus! {

/// A decimal number in fixed-point representation with 4 decimal digits.
///
/// The value `v` is stored as the integer `v * 10_000`, called here its units.
#[derive(Debug, Copy, Clone, PartialEq, Eq, Structural, PartialOrd, Ord, Hash)]
pub struct Fixed4(i64);

/// Number of units in one whole: four decimal digits.
pub const UNITS_PER_WHOLE: i64 = 10_000;

/// Whether an integer fits in the units of a [Fixed4].
pub open spec fn fits_i64(v: int) -> bool {
    i64::MIN <= v <= i64::MAX
}

impl View for Fixed4 {
    type V = int;

    /// The number of units, that is ten thousand times the value.
    closed spec fn view(&self) -> int {
        self.0 as int
    }
}

impl Fixed4 {
    /// Every [Fixed4] holds a number of units that fits in an `i64`.
    pub proof fn lemma_units_fit(self)
        ensures
            fits_i64(self@),
    {
    }

    /// Builds a [Fixed4] from its number of units (ten thousand times its value).
    pub fn from_units(units: i64) -> (r: Self)
        ensures
            r@ == units as int,
    {
        Fixed4(units)
    }

    /// The number of units (ten thousand times the value).
    pub fn units(&self) -> (r: i64)
        ensures
            r as int == self@,
    {
        self.0
    }

    /// Two values are equal exactly when their units are.
    pub proof fn lemma_view_injective(a: Fixed4, b: Fixed4)
        ensures
            a == b <==> a@ == b@,
    {
    }

    /// Adds `rhs` in place.
    pub fn add_assign(&mut self, rhs: Self)
        requires
            fits_i64(old(self)@ + rhs@),
        ensures
            final(self)@ == old(self)@ + rhs@,
    {
        self.0 = self.0 + rhs.0;
    }

    /// Subtracts `rhs` in place.
    pub fn sub_assign(&mut self, rhs: Self)
        requires
            fits_i64(old(self)@ - rhs@),
        ensures
            final(self)@ == old(self)@ - rhs@,
    {
        self.0 = self.0 - rhs.0;
    }
}

impl Default for Fixed4 {
    /// Zero.
    fn default() -> (r: Self)
        ensures
            r@ == 0,
    {
        Fixed4(0)
    }
}

impl core::ops::Neg for Fixed4 {
    type Output = Self;

    fn neg(self) -> (r: Self::Output) {
        Fixed4(-self.0)
    }
}

impl NegSpecImpl for Fixed4 {
    open spec fn obeys_neg_spec() -> bool {
        true
    }

    open spec fn neg_req(self) -> bool {
        fits_i64(-self@)
    }

    open spec fn neg_spec(self) -> Self::Output {
        Fixed4::spec_from_units(-self@)
    }
}

impl core::ops::Add for Fixed4 {
    type Output = Self;

    fn add(self, rhs: Self) -> (r: Self::Output) {
        Fixed4(self.0 + rhs.0)
    }
}

impl AddSpecImpl for Fixed4 {
    open spec fn obeys_add_spec() -> bool {
        true
    }

    open spec fn add_req(self, rhs: Self) -> bool {
        fits_i64(self@ + rhs@)
    }

    open spec fn add_spec(self, rhs: Self) -> Self::Output {
        Fixed4::spec_from_units(self@ + rhs@)
    }
}

impl core::ops::Sub for Fixed4 {
    type Output = Self;

    fn sub(self, rhs: Self) -> (r: Self::Output) {
        Fixed4(self.0 - rhs.0)
    }
}

impl SubSpecImpl for Fixed4 {
    open spec fn obeys_sub_spec() -> bool {
        true
    }

    open spec fn sub_req(self, rhs: Self) -> bool {
        fits_i64(self@ - rhs@)
    }

    open spec fn sub_spec(self, rhs: Self) -> Self::Output {
        Fixed4::spec_from_units(self@ - rhs@)
    }
}

impl Fixed4 {
    /// The [Fixed4] with the given number of units, for a number that fits in an `i64`.
    pub closed spec fn spec_from_units(units: int) -> Fixed4 {
        Fixed4(units as i64)
    }

    /// `spec_from_units` gives back the units it was given, when they fit.
    pub proof fn lemma_spec_from_units(units: int)
        requires
            fits_i64(units),
        ensures
            Self::spec_from_units(units)@ == units,
    {
    }

    /// `a + b`, `a - b` and `-a` are, in units, the sum, the difference and the
    /// negation, wherever these fit in an `i64`; and they may be computed exactly there.
    pub proof fn lemma_arithmetic_in_units(a: Fixed4, b: Fixed4)
        ensures
            fits_i64(a@ + b@) ==> AddSpec::add_req(a, b) && AddSpec::add_spec(a, b)@ == a@ + b@,
            fits_i64(a@ - b@) ==> SubSpec::sub_req(a, b) && SubSpec::sub_spec(a, b)@ == a@ - b@,
            fits_i64(-a@) ==> NegSpec::neg_req(a) && NegSpec::neg_spec(a)@ == -a@,
    {
    }

    /// Subtracting what was added gives back the value: `(a + b) - b == a`.
    pub proof fn lemma_sub_undoes_add(a: Fixed4, b: Fixed4)
        requires
            fits_i64(a@ + b@),
        ensures
            SubSpec::sub_req(AddSpec::add_spec(a, b), b),
            SubSpec::sub_spec(AddSpec::add_spec(a, b), b) == a,
    {
    }

    /// Negating twice gives back the value: `-(-a) == a`.
    pub proof fn lemma_neg_involutive(a: Fixed4)
        requires
            fits_i64(-a@),
        ensures
            NegSpec::neg_req(NegSpec::neg_spec(a)),
            NegSpec::neg_spec(NegSpec::neg_spec(a)) == a,
    {
    }
}

} // verus!
