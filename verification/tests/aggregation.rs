//! Cargo aggregation and date rendering.

use novaposhta::models::{cargo_sums_fit, Cargo, CargoSplit, NovaDate, NovaOptionsSeat, NovaTime};
use novaposhta::properties::BackwardDeliveryData;
use novaposhta::text::{i64_to_string, join_with_commas, milli_to_string, u64_to_string};

fn cargo(cost: i32, weight_milli: u64, cod: bool, description: &str) -> Cargo {
    Cargo::new(
        cost,
        NovaOptionsSeat::new(500, 20, 20, 5, weight_milli),
        cod,
        description.to_string(),
    )
}

#[test]
fn aggregate_sums_match_per_field_sums() {
    let cargos = vec![
        cargo(150, 500, true, "first"),
        cargo(200, 1500, false, "second"),
        cargo(50, 250, true, "third"),
    ];
    let (weight, price, to_payment, description) = cargos.into_ttn_values();
    let expected_weight: u64 = cargos.iter().map(|c| c.options_seat.weight_milli).sum();
    let expected_price: i32 = cargos.iter().map(|c| c.cost).sum();
    let expected_cod: i32 = cargos
        .iter()
        .filter(|c| c.payment_on_delivery)
        .map(|c| c.cost)
        .sum();
    assert_eq!(weight, expected_weight);
    assert_eq!(weight, 2250);
    assert_eq!(price, expected_price);
    assert_eq!(price, 400);
    assert_eq!(to_payment, expected_cod);
    assert_eq!(to_payment, 200);
    assert_eq!(description, "third");
}

#[test]
fn aggregate_cod_zero_when_no_cargo_flagged() {
    let cargos = vec![cargo(150, 500, false, "a"), cargo(300, 700, false, "b")];
    let (_, price, to_payment, _) = cargos.into_ttn_values();
    assert_eq!(price, 450);
    assert_eq!(to_payment, 0);
}

#[test]
fn aggregate_empty_list() {
    let cargos: Vec<Cargo> = vec![];
    let (weight, price, to_payment, description) = cargos.into_ttn_values();
    assert_eq!(weight, 0);
    assert_eq!(price, 0);
    assert_eq!(to_payment, 0);
    assert_eq!(description, "");
}

#[test]
fn aggregate_description_last_wins() {
    let cargos = vec![cargo(1, 1, false, "overwritten"), cargo(2, 2, false, "kept")];
    let (_, _, _, description) = cargos.into_ttn_values();
    assert_eq!(description, "kept");
}

#[test]
fn aggregate_negative_costs() {
    let cargos = vec![cargo(-30, 100, true, "refund"), cargo(50, 100, true, "item")];
    let (_, price, to_payment, _) = cargos.into_ttn_values();
    assert_eq!(price, 20);
    assert_eq!(to_payment, 20);
}

#[test]
fn sums_fit_spots_an_overflowing_list() {
    let fine = vec![cargo(150, 500, true, "a"), cargo(200, 700, false, "b")];
    assert!(cargo_sums_fit(&fine));
    let too_much = vec![cargo(i32::MAX, 1, false, "a"), cargo(1, 1, false, "b")];
    assert!(!cargo_sums_fit(&too_much));
    let heavy = vec![cargo(1, u64::MAX, false, "a"), cargo(1, 1, false, "b")];
    assert!(!cargo_sums_fit(&heavy));
}

#[test]
fn date_renders_without_zero_padding() {
    let date = NovaDate::new(2024, 3, 5);
    assert_eq!(date.into_ttn_time(), "5.3.2024");
}

#[test]
fn date_renders_two_digit_parts() {
    let date = NovaDate::new(2021, 12, 31);
    assert_eq!(date.into_ttn_time(), "31.12.2021");
}

#[test]
fn milli_renders_as_trimmed_decimal() {
    assert_eq!(milli_to_string(500), "0.5");
    assert_eq!(milli_to_string(20000), "20");
    assert_eq!(milli_to_string(1234), "1.234");
    assert_eq!(milli_to_string(50), "0.05");
    assert_eq!(milli_to_string(1230), "1.23");
    assert_eq!(milli_to_string(0), "0");
}

#[test]
fn integers_render_in_decimal() {
    assert_eq!(u64_to_string(0), "0");
    assert_eq!(u64_to_string(105), "105");
    assert_eq!(i64_to_string(-7), "-7");
    assert_eq!(i64_to_string(2024), "2024");
}

#[test]
fn join_renders_commas_between_items() {
    assert_eq!(join_with_commas(&vec![]), "");
    assert_eq!(join_with_commas(&vec!["a".to_string()]), "a");
    assert_eq!(
        join_with_commas(&vec!["20450".to_string(), "20451".to_string()]),
        "20450,20451"
    );
}

#[test]
fn backward_delivery_money_renders_amount() {
    let bd = BackwardDeliveryData::money(150);
    assert_eq!(bd.len(), 1);
    assert_eq!(bd[0].redelivery_string, "150");
}
