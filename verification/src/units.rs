//! Magnitude prefixes: scaling a quantity into the range of a prefix table.
//!
//! Quantities are fixed-point numbers counted in thousandths, so that `1500`
//! stands for `1.5`.

use vstd::prelude::*;
use vstd::arithmetic::div_mod::lemma_div_denominator;
use vstd::arithmetic::power::{lemma_pow0, lemma_pow_positive, pow};

verus! {

/// Number of entries in a prefix table, the empty prefix included.
pub const PREFIX_COUNT: usize = 9;

/// Thousandths in one unit.
pub const MILLI: u128 = 1000;

/// Which table of magnitude prefixes a quantity is scaled with.
#[derive(Clone, Copy, Debug, PartialEq, Eq, Structural)]
pub enum UnitMode {
    /// Powers of 1000: K, M, G, T, P, E, Z, Y.
    Decimal,
    /// Powers of 1024: Ki, Mi, Gi, Ti, Pi, Ei, Zi, Yi.
    Binary,
}

/// A quantity brought into the range of a prefix.
#[derive(Clone, Copy, Debug, PartialEq, Eq, Structural)]
pub struct Scaled {
    /// The scaled value, in thousandths.
    pub milli: u128,
    /// How many times the value was divided: the index of its prefix.
    pub steps: usize,
}

/// The letter of the `index`-th magnitude, for `1 <= index <= 8`.
pub open spec fn magnitude_letter(index: nat) -> char {
    if index == 1 {
        'K'
    } else if index == 2 {
        'M'
    } else if index == 3 {
        'G'
    } else if index == 4 {
        'T'
    } else if index == 5 {
        'P'
    } else if index == 6 {
        'E'
    } else if index == 7 {
        'Z'
    } else {
        'Y'
    }
}

/// How often `milli` is divided by `threshold` before it no longer exceeds
/// `threshold` units, with at most `left` divisions.
pub open spec fn scale_steps(threshold: nat, milli: nat, left: nat) -> nat
    decreases left,
{
    if left == 0 || threshold == 0 || milli <= 1000 * threshold {
        0
    } else {
        1 + scale_steps(threshold, milli / threshold, (left - 1) as nat)
    }
}

impl UnitMode {
    /// The factor between two neighbouring prefixes.
    pub open spec fn spec_threshold(self) -> nat {
        match self {
            UnitMode::Decimal => 1000,
            UnitMode::Binary => 1024,
        }
    }

    /// The text of the prefix at `index`; the prefix at 0 is empty.
    pub open spec fn spec_prefix(self, index: nat) -> Seq<char> {
        if index == 0 {
            Seq::<char>::empty()
        } else {
            match self {
                UnitMode::Decimal => seq![magnitude_letter(index)],
                UnitMode::Binary => seq![magnitude_letter(index), 'i'],
            }
        }
    }

    /// The number of divisions that scaling `milli` takes.
    pub open spec fn spec_steps(self, milli: nat) -> nat {
        scale_steps(self.spec_threshold(), milli, (PREFIX_COUNT - 1) as nat)
    }

    /// The scaled value of `milli`, in thousandths.
    pub open spec fn spec_scaled(self, milli: nat) -> nat {
        (milli as int / pow(self.spec_threshold() as int, self.spec_steps(milli))) as nat
    }

    /// The factor between two neighbouring prefixes.
    pub fn threshold(self) -> (t: u128)
        ensures
            t == self.spec_threshold(),
    {
        match self {
            UnitMode::Decimal => 1000,
            UnitMode::Binary => 1024,
        }
    }

    /// The text of the prefix at `index`.
    pub fn prefix(self, index: usize) -> (s: &'static str)
        requires
            index < PREFIX_COUNT,
        ensures
            s@ == self.spec_prefix(index as nat),
    {
        proof {
            reveal_strlit("");
            reveal_strlit("K");
            reveal_strlit("M");
            reveal_strlit("G");
            reveal_strlit("T");
            reveal_strlit("P");
            reveal_strlit("E");
            reveal_strlit("Z");
            reveal_strlit("Y");
            reveal_strlit("Ki");
            reveal_strlit("Mi");
            reveal_strlit("Gi");
            reveal_strlit("Ti");
            reveal_strlit("Pi");
            reveal_strlit("Ei");
            reveal_strlit("Zi");
            reveal_strlit("Yi");
        }
        let s: &'static str = match self {
            UnitMode::Decimal => {
                if index == 0 {
                    ""
                } else if index == 1 {
                    "K"
                } else if index == 2 {
                    "M"
                } else if index == 3 {
                    "G"
                } else if index == 4 {
                    "T"
                } else if index == 5 {
                    "P"
                } else if index == 6 {
                    "E"
                } else if index == 7 {
                    "Z"
                } else {
                    "Y"
                }
            },
            UnitMode::Binary => {
                if index == 0 {
                    ""
                } else if index == 1 {
                    "Ki"
                } else if index == 2 {
                    "Mi"
                } else if index == 3 {
                    "Gi"
                } else if index == 4 {
                    "Ti"
                } else if index == 5 {
                    "Pi"
                } else if index == 6 {
                    "Ei"
                } else if index == 7 {
                    "Zi"
                } else {
                    "Yi"
                }
            },
        };
        assert(s@ =~= self.spec_prefix(index as nat));
        s
    }

    /// Scales a quantity given in thousandths: divides it by the threshold
    /// while it exceeds one threshold of units and a larger prefix remains.
    pub fn scale(self, milli: u128) -> (r: Scaled)
        ensures
            r.steps == self.spec_steps(milli as nat),
            r.milli == self.spec_scaled(milli as nat),
            r.steps < PREFIX_COUNT,
            r.steps + 1 < PREFIX_COUNT ==> r.milli <= 1000 * self.spec_threshold(),
            forall|j: nat|
                j < r.steps ==> milli as int / #[trigger] pow(self.spec_threshold() as int, j)
                    > 1000 * self.spec_threshold(),
    {
        let t: u128 = self.threshold();
        let mut value: u128 = milli;
        let mut steps: usize = 0;
        proof {
            lemma_pow0(t as int);
        }
        while value > MILLI * t && steps + 1 < PREFIX_COUNT
            invariant
                t == self.spec_threshold(),
                steps < PREFIX_COUNT,
                value as int == milli as int / pow(t as int, steps as nat),
                self.spec_steps(milli as nat) == steps + scale_steps(
                    t as nat,
                    value as nat,
                    (PREFIX_COUNT - 1 - steps) as nat,
                ),
                forall|j: nat|
                    j < steps ==> milli as int / #[trigger] pow(t as int, j) > 1000 * t,
            decreases PREFIX_COUNT - steps,
        {
            proof {
                lemma_pow_positive(t as int, steps as nat);
                lemma_div_denominator(milli as int, pow(t as int, steps as nat), t as int);
                reveal_with_fuel(pow, 2);
                vstd::arithmetic::mul::lemma_mul_is_commutative(
                    pow(t as int, steps as nat),
                    t as int,
                );
                assert(pow(t as int, (steps + 1) as nat) == t as int * pow(
                    t as int,
                    steps as nat,
                ));
            }
            value = value / t;
            steps = steps + 1;
        }
        Scaled { milli: value, steps }
    }
}

/// Scales a quantity given in thousandths with the binary table and hands
/// back the scaled value, in thousandths, with the text of its prefix.
pub fn convert_to_unit(milli: u128) -> (r: (u128, &'static str))
    ensures
        r.0 == UnitMode::Binary.spec_scaled(milli as nat),
        r.1@ == UnitMode::Binary.spec_prefix(UnitMode::Binary.spec_steps(milli as nat)),
{
    let scaled = UnitMode::Binary.scale(milli);
    (scaled.milli, UnitMode::Binary.prefix(scaled.steps))
}

} // verus!
