//! Parcels: the tier of a box, and what a parcel costs.

use vstd::prelude::*;
use vstd::string::StringExecFns;
use crate::decimal::{decimal, to_decimal};
use crate::tariff::{
    HEAVY_COST, HEAVY_WEIGHT_LIM, LARGE_COST, LARGE_SIZE_LIM, LARGE_WEIGHT_LIM, MEDIUM_COST,
    MEDIUM_SIZE_LIM, MEDIUM_WEIGHT_LIM, OVERWEIGHT_COST_PER_KG, SMALL_COST, SMALL_SIZE_LIM,
    SMALL_WEIGHT_LIM, XL_COST,
};

verus! {

/// The three sides of a box.
#[derive(Debug, Clone, Copy, PartialEq, Eq)]
pub struct Dimensions(pub u32, pub u32, pub u32);

impl Dimensions {
    /// The longest of the three sides.
    pub open spec fn longest(self) -> u32 {
        if self.0 >= self.1 && self.0 >= self.2 {
            self.0
        } else if self.1 >= self.2 {
            self.1
        } else {
            self.2
        }
    }

    /// Computes the longest of the three sides.
    pub fn longest_side(&self) -> (side: u32)
        ensures
            side == self.longest(),
            side >= self.0 && side >= self.1 && side >= self.2,
            side == self.0 || side == self.1 || side == self.2,
    {
        let first: u32 = if self.0 >= self.1 { self.0 } else { self.1 };
        if first >= self.2 { first } else { self.2 }
    }
}

/// No parcel costs more than this: 2^34.
pub const COST_CEILING: u128 = 0x4_0000_0000;

/// A parcel: its tier, and its weight in kilograms.
#[derive(Debug, Clone, Copy, PartialEq, Eq)]
pub enum Parcel {
    Small(u32),
    Medium(u32),
    Large(u32),
    XL(u32),
    Heavy(u32),
}

impl Parcel {
    /// The weight that the parcel carries.
    pub open spec fn weight(self) -> u32 {
        match self {
            Parcel::Small(weight) => weight,
            Parcel::Medium(weight) => weight,
            Parcel::Large(weight) => weight,
            Parcel::XL(weight) => weight,
            Parcel::Heavy(weight) => weight,
        }
    }

    /// The surcharge on `weight` kilograms where the fee covers `weight_limit`:
    /// the rate for each kilogram over the limit.
    pub open spec fn surcharge(weight: u32, weight_limit: u32) -> int {
        if weight > weight_limit {
            OVERWEIGHT_COST_PER_KG * (weight - weight_limit)
        } else {
            0
        }
    }

    /// What the parcel costs: the flat fee of its tier and the surcharge over
    /// the tier's weight limit. A heavy parcel pays half of the surcharge,
    /// rounded down.
    pub open spec fn cost(self) -> int {
        match self {
            Parcel::Small(weight) => SMALL_COST + Parcel::surcharge(weight, SMALL_WEIGHT_LIM),
            Parcel::Medium(weight) => MEDIUM_COST + Parcel::surcharge(weight, MEDIUM_WEIGHT_LIM),
            Parcel::Large(weight) => LARGE_COST + Parcel::surcharge(weight, LARGE_WEIGHT_LIM),
            Parcel::XL(weight) => XL_COST + Parcel::surcharge(weight, LARGE_WEIGHT_LIM),
            Parcel::Heavy(weight) => HEAVY_COST + Parcel::surcharge(weight, HEAVY_WEIGHT_LIM) / 2,
        }
    }

    /// The name of the parcel's tier.
    pub open spec fn tier_name(self) -> Seq<char> {
        match self {
            Parcel::Small(_) => "Small"@,
            Parcel::Medium(_) => "Medium"@,
            Parcel::Large(_) => "Large"@,
            Parcel::XL(_) => "XL"@,
            Parcel::Heavy(_) => "Heavy"@,
        }
    }

    /// The parcel's line on an invoice: the name of its tier, then
    /// ` Parcel: $` and its cost in decimal.
    pub open spec fn line(self) -> Seq<char> {
        self.tier_name() + " Parcel: $"@ + decimal(self.cost() as nat)
    }

    /// The tier by size alone: small below 10, medium from 10 and below 50,
    /// large from 50 and below 100, extra large from 100.
    pub open spec fn sized(longest: u32, weight: u32) -> Parcel {
        if longest < SMALL_SIZE_LIM {
            Parcel::Small(weight)
        } else if longest < MEDIUM_SIZE_LIM {
            Parcel::Medium(weight)
        } else if longest < LARGE_SIZE_LIM {
            Parcel::Large(weight)
        } else {
            Parcel::XL(weight)
        }
    }

    /// The parcel that a box of `dims` and `weight` becomes: the tier of its
    /// longest side, unless that tier costs more than the heavy tier does for
    /// the same weight. At equal cost the tier by size stays.
    pub open spec fn classified(dims: Dimensions, weight: u32) -> Parcel {
        let by_size = Parcel::sized(dims.longest(), weight);
        if by_size.cost() > Parcel::Heavy(weight).cost() {
            Parcel::Heavy(weight)
        } else {
            by_size
        }
    }

    /// Every parcel costs at least the smallest fee and at most the ceiling.
    pub proof fn lemma_cost_bounds(self)
        ensures
            SMALL_COST <= self.cost() <= COST_CEILING,
    {
    }

    /// Puts a box into its tier by size, whatever it weighs.
    pub fn from_size(dims: &Dimensions, weight: u32) -> (parcel: Parcel)
        ensures
            parcel == Parcel::sized(dims.longest(), weight),
            parcel.weight() == weight,
            !(parcel is Heavy),
    {
        let max_dim: u32 = dims.longest_side();
        if max_dim < SMALL_SIZE_LIM {
            Parcel::Small(weight)
        } else if max_dim < MEDIUM_SIZE_LIM {
            Parcel::Medium(weight)
        } else if max_dim < LARGE_SIZE_LIM {
            Parcel::Large(weight)
        } else {
            Parcel::XL(weight)
        }
    }

    /// Creates the parcel for a box of the given sides and weight.
    pub fn new(dims: Dimensions, weight: u32) -> (parcel: Parcel)
        ensures
            parcel == Parcel::classified(dims, weight),
            parcel.weight() == weight,
    {
        let parcel = Parcel::from_size(&dims, weight);
        if parcel.get_cost() > HEAVY_COST + Parcel::weight_fee(&weight, HEAVY_WEIGHT_LIM) / 2 {
            return Parcel::Heavy(weight);
        }
        parcel
    }

    /// Returns the cost of the parcel.
    pub fn get_cost(&self) -> (cost: u128)
        ensures
            cost == self.cost(),
    {
        match self {
            Parcel::Small(weight) => SMALL_COST + Parcel::weight_fee(weight, SMALL_WEIGHT_LIM),
            Parcel::Medium(weight) => MEDIUM_COST + Parcel::weight_fee(weight, MEDIUM_WEIGHT_LIM),
            Parcel::Large(weight) => LARGE_COST + Parcel::weight_fee(weight, LARGE_WEIGHT_LIM),
            Parcel::XL(weight) => XL_COST + Parcel::weight_fee(weight, LARGE_WEIGHT_LIM),
            Parcel::Heavy(weight) => HEAVY_COST + Parcel::weight_fee(weight, HEAVY_WEIGHT_LIM) / 2,
        }
    }

    /// Produces the text that gives the name and the cost of the parcel.
    pub fn display(&self) -> (text: String)
        ensures
            text@ == self.line(),
    {
        let name = match self {
            Parcel::Small(_) => "Small",
            Parcel::Medium(_) => "Medium",
            Parcel::Large(_) => "Large",
            Parcel::XL(_) => "XL",
            Parcel::Heavy(_) => "Heavy",
        };
        let cost = to_decimal(self.get_cost());
        String::from_str(name).concat(" Parcel: $").concat(cost.as_str())
    }

    /// Computes the additional cost of a parcel over its weight limit.
    pub fn weight_fee(weight: &u32, weight_limit: u32) -> (fee: u128)
        ensures
            fee == Parcel::surcharge(*weight, weight_limit),
    {
        if *weight > weight_limit {
            OVERWEIGHT_COST_PER_KG * ((*weight - weight_limit) as u128)
        } else {
            0
        }
    }
}

} // verus!
