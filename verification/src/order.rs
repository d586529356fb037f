//! Orders: the sum over the parcels, the total and the invoice.

use vstd::prelude::*;
use vstd::string::StringExecFns;
use crate::decimal::{decimal, to_decimal};
use crate::parcel::{Parcel, COST_CEILING};
use crate::tariff::SPEEDY_SHIPPING_MULT;

verus! {

/// A collection of parcels that form an order.
pub struct Order {
    pub parcels: Vec<Parcel>,
    pub speedy_shipping: bool,
}

impl Order {
    /// The sum of the costs of `parcels`.
    pub open spec fn sum_of(parcels: Seq<Parcel>) -> int
        decreases parcels.len(),
    {
        if parcels.len() == 0 {
            0
        } else {
            Order::sum_of(parcels.drop_last()) + parcels.last().cost()
        }
    }

    /// The lines of `parcels` on an invoice, in their order, each ended by a
    /// line feed.
    pub open spec fn lines_of(parcels: Seq<Parcel>) -> Seq<char>
        decreases parcels.len(),
    {
        if parcels.len() == 0 {
            Seq::empty()
        } else {
            Order::lines_of(parcels.drop_last()) + parcels.last().line() + "\n"@
        }
    }

    /// The sum of the costs of the order's parcels.
    pub open spec fn subtotal(self) -> int {
        Order::sum_of(self.parcels@)
    }

    /// What the order costs: the subtotal, doubled for speedy shipping.
    pub open spec fn total(self) -> int {
        if self.speedy_shipping {
            self.subtotal() * SPEEDY_SHIPPING_MULT
        } else {
            self.subtotal()
        }
    }

    /// The line that speedy shipping adds to an invoice: its price, which is
    /// the subtotal once more. Empty without speedy shipping.
    pub open spec fn speedy_line(self) -> Seq<char> {
        if self.speedy_shipping {
            "Speedy Shipping: $"@ + decimal(self.subtotal() as nat) + "\n"@
        } else {
            Seq::empty()
        }
    }

    /// The invoice: a line for each parcel, the line of speedy shipping where
    /// it is chosen, an empty line, and the total. No line feed ends it.
    pub open spec fn invoice(self) -> Seq<char> {
        Order::lines_of(self.parcels@) + self.speedy_line() + "\n"@ + "Total Cost: $"@ + decimal(
            self.total() as nat,
        )
    }

    /// A sum of costs is at most the ceiling for each parcel.
    pub proof fn lemma_sum_bounds(parcels: Seq<Parcel>)
        ensures
            0 <= Order::sum_of(parcels) <= parcels.len() * COST_CEILING,
        decreases parcels.len(),
    {
        if parcels.len() > 0 {
            Order::lemma_sum_bounds(parcels.drop_last());
            parcels.last().lemma_cost_bounds();
            assert((parcels.len() - 1) * COST_CEILING + COST_CEILING == parcels.len()
                * COST_CEILING) by (nonlinear_arith);
        }
    }

    /// The sum over as many parcels as a vector can hold, doubled, is within
    /// `u128`.
    pub proof fn lemma_sum_fits(parcels: Seq<Parcel>)
        requires
            parcels.len() <= usize::MAX,
        ensures
            0 <= Order::sum_of(parcels),
            Order::sum_of(parcels) * SPEEDY_SHIPPING_MULT <= u128::MAX,
    {
        Order::lemma_sum_bounds(parcels);
        assert(parcels.len() * COST_CEILING <= 0xffff_ffff_ffff_ffff * COST_CEILING)
            by (nonlinear_arith)
            requires
                parcels.len() <= 0xffff_ffff_ffff_ffff,
        ;
    }

    /// Produces an order of the given parcels, with or without speedy shipping.
    pub fn new(parcels: Vec<Parcel>, speedy_shipping: bool) -> (order: Order)
        ensures
            order.parcels == parcels,
            order.speedy_shipping == speedy_shipping,
    {
        Order { parcels, speedy_shipping }
    }

    /// Calculates the total cost of the order.
    pub fn calculate_order(&self) -> (total: u128)
        ensures
            total == self.total(),
    {
        proof {
            assert(self.parcels@.len() == self.parcels.len());
            Order::lemma_sum_fits(self.parcels@);
        }
        self.parcel_cost() * if self.speedy_shipping { SPEEDY_SHIPPING_MULT } else { 1 }
    }

    /// Calculates the sum of the costs of all parcels.
    pub fn parcel_cost(&self) -> (subtotal: u128)
        ensures
            subtotal == self.subtotal(),
    {
        let mut sum: u128 = 0;
        let mut i: usize = 0;
        while i < self.parcels.len()
            invariant
                i <= self.parcels.len(),
                sum == Order::sum_of(self.parcels@.take(i as int)),
            decreases self.parcels.len() - i,
        {
            proof {
                let next = self.parcels@.take(i + 1);
                assert(next.drop_last() =~= self.parcels@.take(i as int));
                Order::lemma_sum_fits(next);
            }
            sum = sum + self.parcels[i].get_cost();
            i = i + 1;
        }
        assert(self.parcels@.take(i as int) =~= self.parcels@);
        sum
    }

    /// Produces the invoice: an itemised list of all parcels and the total.
    pub fn produce_invoice(&self) -> (invoice: String)
        ensures
            invoice@ == self.invoice(),
    {
        let mut itemised_list = String::new();
        let mut i: usize = 0;
        while i < self.parcels.len()
            invariant
                i <= self.parcels.len(),
                itemised_list@ == Order::lines_of(self.parcels@.take(i as int)),
            decreases self.parcels.len() - i,
        {
            assert(self.parcels@.take(i + 1).drop_last() =~= self.parcels@.take(i as int));
            itemised_list.append(self.parcels[i].display().as_str());
            itemised_list.append("\n");
            i = i + 1;
        }
        assert(self.parcels@.take(i as int) =~= self.parcels@);
        if self.speedy_shipping {
            itemised_list.append("Speedy Shipping: $");
            itemised_list.append(to_decimal(self.parcel_cost()).as_str());
            itemised_list.append("\n");
        }
        itemised_list.append("\n");
        itemised_list.append("Total Cost: $");
        itemised_list.append(to_decimal(self.calculate_order()).as_str());
        assert(itemised_list@ =~= self.invoice());
        itemised_list
    }
}

} // verus!
