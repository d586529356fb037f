//! Shipping prices for parcels.
//!
//! A parcel is put into a tier by its longest side, moved to the heavy tier
//! where that is cheaper for its weight, and priced by a flat fee plus a
//! surcharge for each kilogram over the tier's weight limit. An order adds up
//! its parcels, doubles the sum for speedy shipping and renders an itemised
//! invoice as text.
//!
//! Amounts are `u128`: the largest price of one parcel is below 2^34, and no
//! `Vec` holds 2^64 parcels, so no amount in this crate can overflow.

pub mod decimal;
pub mod laws;
pub mod order;
pub mod parcel;
pub mod tariff;

pub use order::Order;
pub use parcel::{Dimensions, Parcel};
pub use tariff::{
    HEAVY_COST, HEAVY_WEIGHT_LIM, LARGE_COST, LARGE_SIZE_LIM, LARGE_WEIGHT_LIM, MEDIUM_COST,
    MEDIUM_SIZE_LIM, MEDIUM_WEIGHT_LIM, OVERWEIGHT_COST_PER_KG, SMALL_COST, SMALL_SIZE_LIM,
    SMALL_WEIGHT_LIM, SPEEDY_SHIPPING_MULT, XL_COST,
};
