//! The tariff: fees, weight limits and size limits of the tiers.

use vstd::prelude::*;

verus! {

/// Flat fee of a small parcel.
pub const SMALL_COST: u128 = 3;

/// Flat fee of a medium parcel.
pub const MEDIUM_COST: u128 = 8;

/// Flat fee of a large parcel.
pub const LARGE_COST: u128 = 15;

/// Flat fee of an extra large parcel.
pub const XL_COST: u128 = 25;

/// Flat fee of a heavy parcel.
pub const HEAVY_COST: u128 = 50;

/// A side of this length or more makes a parcel medium.
pub const SMALL_SIZE_LIM: u32 = 10;

/// A side of this length or more makes a parcel large.
pub const MEDIUM_SIZE_LIM: u32 = 50;

/// A side of this length or more makes a parcel extra large.
pub const LARGE_SIZE_LIM: u32 = 100;

/// Kilograms that the fee of a small parcel covers.
pub const SMALL_WEIGHT_LIM: u32 = 1;

/// Kilograms that the fee of a medium parcel covers.
pub const MEDIUM_WEIGHT_LIM: u32 = 3;

/// Kilograms that the fee of a large parcel covers, and of an extra large one.
pub const LARGE_WEIGHT_LIM: u32 = 6;

/// Kilograms that the fee of a heavy parcel covers.
pub const HEAVY_WEIGHT_LIM: u32 = 50;

/// Surcharge for each kilogram over a tier's weight limit.
pub const OVERWEIGHT_COST_PER_KG: u128 = 2;

/// Factor on the whole order when speedy shipping is chosen.
pub const SPEEDY_SHIPPING_MULT: u128 = 2;

} // verus!
