use vstd::prelude::*;

verus! {

/// The ratio of physical pixels to logical points, held exactly as a fraction
/// whose numerator and denominator are both positive.
#[derive(Clone, Copy, Debug, PartialEq, Eq, Structural)]
pub struct HidpiFactor {
    num: u32,
    den: u32,
}

/// `floor(points * f)`, saturated at the largest `u32`.
pub open spec fn scaled(points: u32, f: HidpiFactor) -> u32 {
    let exact = (points as int * f.numerator() as int) / (f.denominator() as int);
    if exact > u32::MAX as int {
        u32::MAX
    } else {
        exact as u32
    }
}

impl HidpiFactor {
    #[verifier::type_invariant]
    spec fn inv(&self) -> bool {
        self.num > 0 && self.den > 0
    }

    pub closed spec fn numerator(&self) -> u32 {
        self.num
    }

    pub closed spec fn denominator(&self) -> u32 {
        self.den
    }

    /// The factor one, `1 / 1`.
    pub closed spec fn one_spec() -> HidpiFactor {
        HidpiFactor { num: 1, den: 1 }
    }

    /// A factor of one: a point is a pixel.
    pub fn normal() -> (r: HidpiFactor)
        ensures
            r == HidpiFactor::one_spec(),
            r.numerator() == 1 && r.denominator() == 1,
    {
        HidpiFactor { num: 1, den: 1 }
    }

    /// The factor `num / den`; `None` when either is zero.
    pub fn new(num: u32, den: u32) -> (r: Option<HidpiFactor>)
        ensures
            (num == 0 || den == 0) <==> r is None,
            r matches Some(f) ==> f.numerator() == num && f.denominator() == den,
    {
        if num == 0 || den == 0 {
            None
        } else {
            Some(HidpiFactor { num, den })
        }
    }

    /// The numerator of the fraction; never zero.
    pub fn num(&self) -> (r: u32)
        ensures
            r == self.numerator(),
            r > 0,
    {
        proof {
            use_type_invariant(self);
        }
        self.num
    }

    /// The denominator of the fraction; never zero.
    pub fn den(&self) -> (r: u32)
        ensures
            r == self.denominator(),
            r > 0,
    {
        proof {
            use_type_invariant(self);
        }
        self.den
    }

    /// Converts a length in points to pixels, truncating toward zero and
    /// saturating at the largest `u32`.
    pub fn to_pixels(&self, points: u32) -> (r: u32)
        ensures
            r == scaled(points, *self),
    {
        proof {
            use_type_invariant(self);
        }
        assert(points as int * self.num as int <= u32::MAX as int * u32::MAX as int)
            by (nonlinear_arith);
        let product: u64 = points as u64 * self.num as u64;
        let exact: u64 = product / self.den as u64;
        if exact > u32::MAX as u64 {
            u32::MAX
        } else {
            exact as u32
        }
    }
}

} // verus!
