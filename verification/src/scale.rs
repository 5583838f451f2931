//! The multiplier that counts go through before they are shown.

use vstd::prelude::*;
use crate::text::{decimal, integer_text, lemma_decimal_has_no_point};

verus! {

/// A multiplier for the counts of a bar, and the form of an explicit total.
///
/// A multiplier that is held as an integer multiplies exactly, and what it
/// multiplies stays an integer. One that is held as a double stands here by
/// its IEEE-754 bit pattern: this library carries it, never looks into the
/// bits and never computes with it. Which of the two a number is held as is
/// for the one who makes the scale to say.
#[derive(Clone, Copy, Debug, PartialEq, Eq, Structural)]
pub enum Scale {
    /// A whole number.
    Integer(i64),
    /// A double, by its bits, whatever its value.
    Float(u64),
}

impl Scale {
    /// The whole product of the scale and a count: `k * count` under the
    /// integer `k`, and none under a double.
    pub open spec fn product(self, count: nat) -> Option<int> {
        match self {
            Scale::Integer(k) => Some(k * count),
            Scale::Float(_) => None,
        }
    }

    /// What a count reads as under the scale: the numeral of the whole
    /// product, and none under a double.
    pub open spec fn shown(self, count: nat) -> Option<Seq<char>> {
        match self.product(count) {
            Some(p) => Some(decimal(p)),
            None => None,
        }
    }

    /// Multiplies the scale by a count. The product of an integer scale is
    /// exact, whatever the two numbers are.
    pub fn times(&self, count: u64) -> (r: Option<i128>)
        ensures
            r matches Some(p) ==> self.product(count as nat) == Some(p as int),
            r is None ==> self.product(count as nat) is None,
    {
        match self {
            Scale::Integer(k) => {
                let k: i64 = *k;
                assert(-0x8000_0000_0000_0000 * 0xffff_ffff_ffff_ffff <= k * count
                    <= 0x7fff_ffff_ffff_ffff * 0xffff_ffff_ffff_ffff) by (nonlinear_arith)
                    requires
                        -0x8000_0000_0000_0000 <= k <= 0x7fff_ffff_ffff_ffff,
                        0 <= count <= 0xffff_ffff_ffff_ffff,
                ;
                Some((k as i128) * (count as i128))
            },
            Scale::Float(_) => None,
        }
    }

    /// Writes a count as it reads under the scale.
    pub fn count_text(&self, count: u64) -> (r: Option<String>)
        ensures
            r matches Some(text) ==> self.shown(count as nat) == Some(text@),
            r is None ==> self.shown(count as nat) is None,
    {
        match self.times(count) {
            Some(p) => Some(integer_text(p)),
            None => None,
        }
    }
}

/// Under an integer scale `k` every count `n` has the whole product `k * n`,
/// and what is shown for it is the numeral of that product, which holds no
/// decimal point.
pub proof fn lemma_integer_scale_stays_whole(k: i64, n: u64)
    ensures
        Scale::Integer(k).product(n as nat) == Some(k * n),
        Scale::Integer(k).shown(n as nat) == Some(decimal(k * n)),
        !decimal(k * n).contains('.'),
{
    lemma_decimal_has_no_point(k * n);
}

} // verus!
