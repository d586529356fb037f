use parcel_pricing::decimal::to_decimal;
use parcel_pricing::{Dimensions, Order, Parcel};

#[test]
fn decimal_text_of_small_numbers() {
    assert_eq!(to_decimal(0), "0");
    assert_eq!(to_decimal(7), "7");
    assert_eq!(to_decimal(9), "9");
    assert_eq!(to_decimal(10), "10");
    assert_eq!(to_decimal(23), "23");
    assert_eq!(to_decimal(100), "100");
    assert_eq!(to_decimal(1090), "1090");
}

#[test]
fn decimal_text_agrees_with_std() {
    let mut n: u128 = 1;
    for _ in 0..38 {
        assert_eq!(to_decimal(n), n.to_string());
        assert_eq!(to_decimal(n - 1), (n - 1).to_string());
        assert_eq!(to_decimal(n + 7), (n + 7).to_string());
        n *= 10;
    }
    assert_eq!(to_decimal(1234567890), "1234567890");
    assert_eq!(to_decimal(u128::MAX), "340282366920938463463374607431768211455");
}

#[test]
fn order_keeps_what_it_was_given() {
    let order = Order::new(vec![Parcel::Small(2), Parcel::Heavy(60)], true);
    assert_eq!(order.parcels, vec![Parcel::Small(2), Parcel::Heavy(60)]);
    assert!(order.speedy_shipping);
    let plain = Order::new(Vec::new(), false);
    assert!(plain.parcels.is_empty());
    assert!(!plain.speedy_shipping);
}

#[test]
fn one_of_each_tier_costs_51_and_102_speedy() {
    let parcels = vec![Parcel::Small(1), Parcel::Medium(1), Parcel::Large(1), Parcel::XL(1)];
    let plain = Order::new(parcels.clone(), false);
    assert_eq!(plain.parcel_cost(), 51);
    assert_eq!(plain.calculate_order(), 51);
    let speedy = Order::new(parcels, true);
    assert_eq!(speedy.parcel_cost(), 51);
    assert_eq!(speedy.calculate_order(), 102);
}

#[test]
fn empty_order_costs_nothing() {
    let plain = Order::new(Vec::new(), false);
    assert_eq!(plain.parcel_cost(), 0);
    assert_eq!(plain.calculate_order(), 0);
    assert_eq!(plain.produce_invoice(), "\nTotal Cost: $0");
    let speedy = Order::new(Vec::new(), true);
    assert_eq!(speedy.calculate_order(), 0);
    assert_eq!(speedy.produce_invoice(), "Speedy Shipping: $0\n\nTotal Cost: $0");
}

#[test]
fn speedy_shipping_doubles_the_sum_not_each_parcel() {
    let order = Order::new(vec![Parcel::Small(3), Parcel::Large(10), Parcel::Heavy(55)], true);
    assert_eq!(order.parcel_cost(), 85);
    assert_eq!(order.calculate_order(), 170);
}

#[test]
fn parcels_in_another_sequence_cost_the_same() {
    let one = Order::new(vec![Parcel::Small(3), Parcel::Large(10), Parcel::XL(1)], false);
    let other = Order::new(vec![Parcel::XL(1), Parcel::Small(3), Parcel::Large(10)], false);
    assert_eq!(one.calculate_order(), 55);
    assert_eq!(other.calculate_order(), 55);
    assert_eq!(
        other.produce_invoice(),
        "XL Parcel: $25\nSmall Parcel: $7\nLarge Parcel: $23\n\nTotal Cost: $55"
    );
}

#[test]
fn invoice_of_two_overweight_parcels() {
    let order = Order::new(vec![Parcel::Small(3), Parcel::Large(10)], false);
    assert_eq!(
        order.produce_invoice(),
        "Small Parcel: $7\nLarge Parcel: $23\n\nTotal Cost: $30"
    );
}

#[test]
fn speedy_invoice_shows_the_subtotal_as_the_price_of_speed() {
    let order = Order::new(
        vec![
            Parcel::new(Dimensions(1, 1, 1), 3),
            Parcel::new(Dimensions(1, 25, 50), 10),
            Parcel::new(Dimensions(1, 1, 1), 55),
        ],
        true,
    );
    assert_eq!(
        order.produce_invoice(),
        "Small Parcel: $7\nLarge Parcel: $23\nHeavy Parcel: $55\nSpeedy Shipping: $85\n\nTotal Cost: $170"
    );
}

#[test]
fn invoice_of_a_single_parcel() {
    let order = Order::new(vec![Parcel::Medium(1)], false);
    assert_eq!(order.produce_invoice(), "Medium Parcel: $8\n\nTotal Cost: $8");
}

#[test]
fn heaviest_parcels_add_up_without_wrapping() {
    let order = Order::new(vec![Parcel::XL(u32::MAX); 4], true);
    assert_eq!(order.parcel_cost(), 34359738412);
    assert_eq!(order.calculate_order(), 68719476824);
    assert_eq!(
        order.produce_invoice(),
        "XL Parcel: $8589934603\nXL Parcel: $8589934603\nXL Parcel: $8589934603\nXL Parcel: $8589934603\nSpeedy Shipping: $34359738412\n\nTotal Cost: $68719476824"
    );
}

#[test]
fn order_answers_the_same_each_time() {
    let order = Order::new(vec![Parcel::Small(3), Parcel::Large(10)], true);
    let total = order.calculate_order();
    let invoice = order.produce_invoice();
    assert_eq!(total, 60);
    assert_eq!(order.calculate_order(), total);
    assert_eq!(order.produce_invoice(), invoice);
    assert_eq!(order.calculate_order(), total);
    assert_eq!(order.parcels, vec![Parcel::Small(3), Parcel::Large(10)]);
    assert!(order.speedy_shipping);
}
