use product_discount::{
    Cart, CartLine, DiscountApplicationStrategy, FunctionResult, Merchandise, Percentage,
    ProductVariant, Value, evaluate, no_discount_result,
};

fn variant_line(quantity: i64, id: &str) -> CartLine {
    CartLine {
        quantity,
        merchandise: Merchandise::ProductVariant(ProductVariant { id: id.to_string() }),
    }
}

fn custom_line(quantity: i64) -> CartLine {
    CartLine { quantity, merchandise: Merchandise::CustomProduct }
}

fn empty_decision() -> FunctionResult {
    FunctionResult {
        discounts: vec![],
        discount_application_strategy: DiscountApplicationStrategy::First,
    }
}

fn target_ids(result: &FunctionResult) -> Vec<String> {
    result.discounts[0]
        .targets
        .iter()
        .map(|t| t.product_variant.as_ref().expect("variant target").id.clone())
        .collect()
}

#[test]
fn test_result_contains_no_discounts() {
    let result = evaluate(&Cart { lines: vec![] });
    let expected = empty_decision();
    assert_eq!(result, expected);
}

#[test]
fn scenario_single_line_below_threshold() {
    let cart = Cart { lines: vec![variant_line(1, "V1")] };
    assert_eq!(evaluate(&cart), empty_decision());
}

#[test]
fn scenario_one_qualifying_one_below_threshold() {
    let cart = Cart { lines: vec![variant_line(3, "V1"), variant_line(1, "V2")] };
    let result = evaluate(&cart);
    assert_eq!(result.discounts.len(), 1);
    assert_eq!(target_ids(&result), vec!["V1".to_string()]);
    assert_eq!(
        result.discounts[0].value,
        Value::Percentage(Percentage { value: "10.0".to_string() })
    );
    assert_eq!(result.discount_application_strategy, DiscountApplicationStrategy::First);
}

#[test]
fn scenario_two_qualifying_lines_keep_order() {
    let cart = Cart { lines: vec![variant_line(5, "V1"), variant_line(4, "V2")] };
    let result = evaluate(&cart);
    assert_eq!(result.discounts.len(), 1);
    assert_eq!(target_ids(&result), vec!["V1".to_string(), "V2".to_string()]);
    assert_eq!(
        result.discounts[0].value,
        Value::Percentage(Percentage { value: "10.0".to_string() })
    );
}

#[test]
fn scenario_custom_product_never_targetable() {
    let cart = Cart { lines: vec![custom_line(10)] };
    assert_eq!(evaluate(&cart), empty_decision());
}

#[test]
fn scenario_empty_cart() {
    let cart = Cart { lines: vec![] };
    assert_eq!(evaluate(&cart), empty_decision());
}

#[test]
fn all_lines_below_threshold_yield_empty_decision() {
    let cart = Cart { lines: vec![variant_line(1, "V1"), variant_line(0, "V2"), custom_line(1)] };
    assert_eq!(evaluate(&cart), empty_decision());
}

#[test]
fn qualifying_lines_share_one_discount() {
    let cart = Cart {
        lines: vec![variant_line(2, "V1"), variant_line(7, "V2"), variant_line(3, "V3")],
    };
    let result = evaluate(&cart);
    assert_eq!(result.discounts.len(), 1);
    let discount = &result.discounts[0];
    assert_eq!(discount.message, None);
    assert_eq!(target_ids(&result), vec!["V1".to_string(), "V2".to_string(), "V3".to_string()]);
    for target in &discount.targets {
        assert_eq!(target.product_variant.as_ref().expect("variant target").quantity, None);
    }
    assert_eq!(discount.value, Value::Percentage(Percentage { value: "10.0".to_string() }));
    assert_eq!(result.discount_application_strategy, DiscountApplicationStrategy::First);
}

#[test]
fn custom_product_does_not_trigger_discount_for_others() {
    let cart = Cart { lines: vec![custom_line(5), variant_line(3, "V1"), custom_line(2)] };
    let result = evaluate(&cart);
    assert_eq!(result.discounts.len(), 1);
    assert_eq!(target_ids(&result), vec!["V1".to_string()]);
}

#[test]
fn boundary_quantity_two_qualifies() {
    let cart = Cart { lines: vec![variant_line(2, "V1")] };
    let result = evaluate(&cart);
    assert_eq!(result.discounts.len(), 1);
    assert_eq!(target_ids(&result), vec!["V1".to_string()]);
}

#[test]
fn boundary_quantity_one_does_not_qualify() {
    let cart = Cart { lines: vec![variant_line(1, "V1")] };
    assert_eq!(evaluate(&cart), empty_decision());
}

#[test]
fn evaluating_twice_yields_identical_results() {
    let cart = Cart {
        lines: vec![variant_line(2, "V1"), custom_line(9), variant_line(1, "V2")],
    };
    let first = evaluate(&cart);
    let second = evaluate(&cart);
    assert_eq!(first, second);
}

#[test]
fn no_discount_result_is_the_empty_decision() {
    assert_eq!(no_discount_result(), empty_decision());
}
