use vstd::prelude::*;
use vstd::arithmetic::power2::{lemma2_to64, lemma2_to64_rest, lemma_pow2_unfold, pow2};

verus! {

/// How a tentative step did against the local model: the class of the
/// ratio of the actual reduction of the squared residual to the predicted
/// one.
#[derive(Debug, Clone, Copy, PartialEq, Eq, Structural)]
pub enum StepQuality {
    /// The ratio is negative or is no number: the step is taken back.
    Rejected,
    /// The ratio is at least 0 and below 1/4.
    Poor,
    /// The ratio is between 1/4 and 3/4, both included.
    Fair,
    /// The ratio is above 3/4.
    Good,
}

impl StepQuality {
    /// The class of a ratio, by three comparisons on it: whether it is at
    /// least 0, whether it is below 1/4, and whether it is above 3/4. A ratio
    /// that is no number is not at least 0.
    pub open spec fn class_of(at_least_zero: bool, below_quarter: bool, above_three_quarters: bool) -> StepQuality {
        if !at_least_zero {
            StepQuality::Rejected
        } else if below_quarter {
            StepQuality::Poor
        } else if above_three_quarters {
            StepQuality::Good
        } else {
            StepQuality::Fair
        }
    }

    /// Classifies a ratio by three comparisons on it.
    pub fn from_comparisons(at_least_zero: bool, below_quarter: bool, above_three_quarters: bool) -> (quality:
        StepQuality)
        ensures
            quality == Self::class_of(at_least_zero, below_quarter, above_three_quarters),
    {
        if !at_least_zero {
            StepQuality::Rejected
        } else if below_quarter {
            StepQuality::Poor
        } else if above_three_quarters {
            StepQuality::Good
        } else {
            StepQuality::Fair
        }
    }
}

/// Which step a dog-leg iteration takes.
#[derive(Debug, Clone, Copy, PartialEq, Eq, Structural)]
pub enum StepChoice {
    /// The Gauss-Newton step, whole.
    GaussNewton,
    /// The steepest-descent step, cut back to the trust radius.
    ScaledDescent,
    /// The point of the leg from the steepest-descent step to the
    /// Gauss-Newton step that lies on the border of the trust region.
    DogLeg,
}

/// The step for a trust region: the Gauss-Newton step where it lies within
/// the region; else the steepest-descent step, cut back, where that one
/// reaches the border or lies beyond it; else the dog leg between the two.
pub open spec fn chosen_step(newton_within_radius: bool, descent_reaches_radius: bool) -> StepChoice {
    if newton_within_radius {
        StepChoice::GaussNewton
    } else if descent_reaches_radius {
        StepChoice::ScaledDescent
    } else {
        StepChoice::DogLeg
    }
}

/// Chooses the step from two comparisons of norms with the trust radius:
/// whether the Gauss-Newton step is at most as long as the radius, and
/// whether the steepest-descent step is at least as long.
pub fn select_step(newton_within_radius: bool, descent_reaches_radius: bool) -> (choice: StepChoice)
    ensures
        choice == chosen_step(newton_within_radius, descent_reaches_radius),
{
    if newton_within_radius {
        StepChoice::GaussNewton
    } else if descent_reaches_radius {
        StepChoice::ScaledDescent
    } else {
        StepChoice::DogLeg
    }
}

/// A trust radius, held exactly: `2^exponent`, or `5 * 2^exponent` where
/// `five` is set.
///
/// The radius starts at 1, doubles up to the cap of 10 and halves down to
/// the floor of 10^-8. Every value on the way is a power of two or five
/// times one, so no rounding ever enters the radius.
#[derive(Debug, Clone, Copy, PartialEq, Eq, Structural)]
pub struct TrustRadius {
    pub five: bool,
    pub exponent: i8,
}

impl TrustRadius {
    /// The radius in units of `2^-32`, for exponents from -32 on.
    pub open spec fn units(self) -> int {
        (if self.five {
            5int
        } else {
            1int
        }) * pow2((self.exponent + 32) as nat)
    }

    /// The cap of 10, in units of `2^-32`.
    pub open spec fn cap_units() -> int {
        10int * 0x1_0000_0000int
    }

    /// The least number of units of `2^-32` that is not below 10^-8.
    pub open spec fn floor_units() -> int {
        43int
    }

    /// The radius that a solve starts with: 1.
    pub open spec fn initial_radius() -> TrustRadius {
        TrustRadius { five: false, exponent: 0 }
    }

    /// A radius between the floor and the cap, both included.
    pub open spec fn wf(self) -> bool {
        if self.five {
            -28 <= self.exponent <= 1
        } else {
            -26 <= self.exponent <= 3
        }
    }

    /// Whether the radius is below the floor of 10^-8.
    pub open spec fn below_floor(self) -> bool {
        if self.five {
            self.exponent <= -29
        } else {
            self.exponent <= -27
        }
    }

    /// Twice the radius, or the cap where that is less.
    pub open spec fn grown(self) -> TrustRadius {
        if self.five {
            if self.exponent >= 1 {
                self
            } else {
                TrustRadius { five: true, exponent: (self.exponent + 1) as i8 }
            }
        } else {
            if self.exponent >= 3 {
                TrustRadius { five: true, exponent: 1 }
            } else {
                TrustRadius { five: false, exponent: (self.exponent + 1) as i8 }
            }
        }
    }

    /// Half the radius. A radius that is below the floor already stays as
    /// it is.
    pub open spec fn shrunk(self) -> TrustRadius {
        if self.below_floor() {
            self
        } else {
            TrustRadius { five: self.five, exponent: (self.exponent - 1) as i8 }
        }
    }

    /// The radius after a step of the given quality: doubled, up to the
    /// cap, after a good step; halved after a poor or rejected one; kept
    /// after a fair one.
    pub open spec fn adjusted(self, quality: StepQuality) -> TrustRadius {
        match quality {
            StepQuality::Good => self.grown(),
            StepQuality::Fair => self,
            StepQuality::Poor => self.shrunk(),
            StepQuality::Rejected => self.shrunk(),
        }
    }

    /// The radius that a solve starts with: 1.
    pub fn initial() -> (r: Self)
        ensures
            r == Self::initial_radius(),
            r.wf(),
    {
        TrustRadius { five: false, exponent: 0 }
    }

    /// Adjusts the radius to the quality of the step just taken.
    pub fn adjust(self, quality: StepQuality) -> (r: Self)
        ensures
            r == self.adjusted(quality),
            self.wf() ==> (r.wf() <==> !r.below_floor()),
    {
        match quality {
            StepQuality::Good => {
                if self.five {
                    if self.exponent >= 1 {
                        self
                    } else {
                        TrustRadius { five: true, exponent: self.exponent + 1 }
                    }
                } else {
                    if self.exponent >= 3 {
                        TrustRadius { five: true, exponent: 1 }
                    } else {
                        TrustRadius { five: false, exponent: self.exponent + 1 }
                    }
                }
            },
            StepQuality::Fair => self,
            StepQuality::Poor => self.halve(),
            StepQuality::Rejected => self.halve(),
        }
    }

    /// Half the radius, unless it is below the floor already.
    fn halve(self) -> (r: Self)
        ensures
            r == self.shrunk(),
    {
        if self.is_below_floor() {
            self
        } else {
            TrustRadius { five: self.five, exponent: self.exponent - 1 }
        }
    }

    /// Whether the radius is below the floor of 10^-8.
    pub fn is_below_floor(self) -> (b: bool)
        ensures
            b == self.below_floor(),
    {
        if self.five {
            self.exponent <= -29
        } else {
            self.exponent <= -27
        }
    }

    /// The initial radius is 1: `2^32` units.
    pub proof fn lemma_initial_units()
        ensures
            Self::initial_radius().units() == 0x1_0000_0000,
    {
        lemma2_to64();
    }

    /// Growing doubles the radius, up to the cap.
    pub proof fn lemma_grown_units(self)
        requires
            self.wf(),
        ensures
            self.units() <= Self::cap_units(),
            self.grown().units() == if 2 * self.units() <= Self::cap_units() {
                2 * self.units()
            } else {
                Self::cap_units()
            },
    {
        lemma2_to64();
        lemma2_to64_rest();
        let e = (self.exponent + 32) as nat;
        lemma_pow2_unfold(e + 1);
        Self::lemma_units_bound(self);
    }

    /// Shrinking halves the radius, with nothing lost.
    pub proof fn lemma_shrunk_units(self)
        requires
            self.wf(),
        ensures
            2 * self.shrunk().units() == self.units(),
    {
        let e = (self.exponent + 32) as nat;
        lemma_pow2_unfold(e);
    }

    /// A radius that a solve can reach is below the floor exactly when it
    /// is less than 10^-8.
    pub proof fn lemma_floor_units(self)
        requires
            self.wf() || exists|r: TrustRadius| r.wf() && self == r.shrunk(),
        ensures
            self.below_floor() <==> self.units() < Self::floor_units(),
    {
        lemma2_to64();
        lemma2_to64_rest();
        let e = (self.exponent + 32) as nat;
        assert(3 <= e <= 35);
        if e <= 5 {
            assert(pow2(e) <= 32) by {
                lemma2_to64();
            }
        } else {
            Self::lemma_pow2_at_least(6, e);
        }
        if self.five {
            if e <= 3 {
            } else {
                Self::lemma_pow2_at_least(4, e);
            }
        }
    }

    /// Powers of two do not fall as the exponent grows.
    proof fn lemma_pow2_at_least(low: nat, e: nat)
        requires
            low <= e,
        ensures
            pow2(low) <= pow2(e),
        decreases e - low,
    {
        if low < e {
            Self::lemma_pow2_at_least(low, (e - 1) as nat);
            lemma_pow2_unfold(e);
        }
    }

    /// A radius within the bounds is at most the cap.
    proof fn lemma_units_bound(self)
        requires
            self.wf(),
        ensures
            self.units() <= Self::cap_units(),
            !self.five && self.exponent < 3 ==> 2 * self.units() <= Self::cap_units(),
            self.five && self.exponent < 1 ==> 2 * self.units() <= Self::cap_units(),
            !self.five && self.exponent == 3 ==> 2 * self.units() > Self::cap_units(),
            self.five && self.exponent == 1 ==> self.units() == Self::cap_units(),
    {
        lemma2_to64();
        lemma2_to64_rest();
        let e = (self.exponent + 32) as nat;
        if self.five {
            Self::lemma_pow2_at_least(e, 33);
            if self.exponent < 1 {
                Self::lemma_pow2_at_least(e, 32);
            }
        } else {
            Self::lemma_pow2_at_least(e, 35);
            if self.exponent < 3 {
                Self::lemma_pow2_at_least(e, 34);
            }
        }
    }
}

} // verus!
