//! What holds of every parcel and of every order.

use vstd::prelude::*;
use vstd::seq_lib::{to_multiset_len, to_multiset_remove};
use crate::order::Order;
use crate::parcel::{Dimensions, Parcel};

verus! {

/// The longest side alone decides the tier by size: below 10 small, from 10
/// and below 50 medium, from 50 and below 100 large, from 100 extra large.
/// The limits 10, 50 and 100 belong to the tier above them.
pub proof fn size_decides_tier(dims: Dimensions, weight: u32)
    ensures
        dims.longest() < 10 ==> Parcel::sized(dims.longest(), weight) == Parcel::Small(weight),
        10 <= dims.longest() < 50 ==> Parcel::sized(dims.longest(), weight) == Parcel::Medium(
            weight,
        ),
        50 <= dims.longest() < 100 ==> Parcel::sized(dims.longest(), weight) == Parcel::Large(
            weight,
        ),
        100 <= dims.longest() ==> Parcel::sized(dims.longest(), weight) == Parcel::XL(weight),
{
}

/// A box becomes a heavy parcel exactly where its tier by size would cost more
/// than the heavy tier; either way it is charged the lower of the two prices.
pub proof fn heavy_when_cheaper(dims: Dimensions, weight: u32)
    ensures
        Parcel::classified(dims, weight) is Heavy <==> Parcel::sized(dims.longest(), weight).cost()
            > Parcel::Heavy(weight).cost(),
        Parcel::classified(dims, weight).cost() <= Parcel::sized(dims.longest(), weight).cost(),
        Parcel::classified(dims, weight).cost() <= Parcel::Heavy(weight).cost(),
{
}

/// Two boxes with the same longest side and the same weight become the same
/// parcel, whatever their other sides are.
pub proof fn longest_side_and_weight_decide(one: Dimensions, other: Dimensions, weight: u32)
    requires
        one.longest() == other.longest(),
    ensures
        Parcel::classified(one, weight) == Parcel::classified(other, weight),
{
}

/// Taking one parcel out of a sequence lowers the sum by the cost of that
/// parcel.
proof fn lemma_sum_without(parcels: Seq<Parcel>, i: int)
    requires
        0 <= i < parcels.len(),
    ensures
        Order::sum_of(parcels) == Order::sum_of(parcels.remove(i)) + parcels[i].cost(),
    decreases parcels.len(),
{
    if i == parcels.len() - 1 {
        assert(parcels.remove(i) =~= parcels.drop_last());
    } else {
        lemma_sum_without(parcels.drop_last(), i);
        assert(parcels.remove(i).drop_last() =~= parcels.drop_last().remove(i));
        assert(parcels.remove(i).last() == parcels.last());
    }
}

/// The sum of the costs does not depend on the sequence of the parcels: two
/// sequences that hold the same parcels, each as many times, have the same sum.
pub proof fn sum_ignores_sequence(one: Seq<Parcel>, other: Seq<Parcel>)
    requires
        one.to_multiset() == other.to_multiset(),
    ensures
        Order::sum_of(one) == Order::sum_of(other),
    decreases one.len(),
{
    to_multiset_len(one);
    to_multiset_len(other);
    if one.len() > 0 {
        let last = one.last();
        one.to_multiset_ensures();
        other.to_multiset_ensures();
        assert(one[one.len() - 1] == last);
        assert(one.contains(last));
        assert(one.to_multiset().count(last) > 0);
        assert(other.to_multiset().count(last) > 0);
        assert(other.contains(last));
        let i = choose|i: int| 0 <= i < other.len() && other[i] == last;
        to_multiset_remove(one, one.len() - 1);
        to_multiset_remove(other, i);
        assert(one.remove(one.len() - 1) =~= one.drop_last());
        sum_ignores_sequence(one.drop_last(), other.remove(i));
        lemma_sum_without(other, i);
    }
}

/// Two orders of the same parcels, in whatever sequence, with the same choice
/// of shipping, cost the same.
pub proof fn total_ignores_sequence(one: Order, other: Order)
    requires
        one.parcels@.to_multiset() == other.parcels@.to_multiset(),
        one.speedy_shipping == other.speedy_shipping,
    ensures
        one.subtotal() == other.subtotal(),
        one.total() == other.total(),
{
    sum_ignores_sequence(one.parcels@, other.parcels@);
}

/// Speedy shipping doubles the whole order: an order with it costs twice the
/// order of the same parcels without it.
pub proof fn speedy_shipping_doubles(speedy: Order, plain: Order)
    requires
        speedy.parcels@ == plain.parcels@,
        speedy.speedy_shipping,
        !plain.speedy_shipping,
    ensures
        speedy.total() == 2 * plain.total(),
        speedy.total() - plain.total() == speedy.subtotal(),
{
}

/// Asking a parcel for its cost twice gives the same amount, and its text
/// twice the same text.
pub proof fn parcel_answers_repeat(
    parcel: Parcel,
    first_cost: u128,
    second_cost: u128,
    first_text: String,
    second_text: String,
)
    requires
        call_ensures(Parcel::get_cost, (&parcel,), first_cost),
        call_ensures(Parcel::get_cost, (&parcel,), second_cost),
        call_ensures(Parcel::display, (&parcel,), first_text),
        call_ensures(Parcel::display, (&parcel,), second_text),
    ensures
        first_cost == second_cost,
        first_text@ == second_text@,
{
}

/// Asking an order for the sum over its parcels, for its total or for its
/// invoice twice gives the same amount and the same text.
pub proof fn order_answers_repeat(
    order: Order,
    first_sum: u128,
    second_sum: u128,
    first_total: u128,
    second_total: u128,
    first_invoice: String,
    second_invoice: String,
)
    requires
        call_ensures(Order::parcel_cost, (&order,), first_sum),
        call_ensures(Order::parcel_cost, (&order,), second_sum),
        call_ensures(Order::calculate_order, (&order,), first_total),
        call_ensures(Order::calculate_order, (&order,), second_total),
        call_ensures(Order::produce_invoice, (&order,), first_invoice),
        call_ensures(Order::produce_invoice, (&order,), second_invoice),
    ensures
        first_sum == second_sum,
        first_total == second_total,
        first_invoice@ == second_invoice@,
{
}

} // verus!
