use vstd::prelude::*;

use crate::model::{
    Cart, CartLine, Discount, DiscountApplicationStrategy, FunctionResult, Merchandise, Percentage,
    ProductVariantTarget, Target, Value,
};

verus! {

/// The quantity a cart line must reach before it qualifies for the volume
/// discount; the bound is inclusive.
pub const MIN_QUALIFYING_QUANTITY: i64 = 2;

/// The flat rate of the volume discount, as the platform's decimal string.
pub open spec fn spec_discount_rate() -> Seq<char> {
    "10.0"@
}

/// A line qualifies when its quantity reaches the bound and it references a
/// product variant; a custom product never qualifies, whatever its quantity.
pub open spec fn line_qualifies(line: CartLine) -> bool {
    line.quantity >= MIN_QUALIFYING_QUANTITY && line.merchandise is ProductVariant
}

/// The variant ID a qualifying line refers to.
pub open spec fn spec_variant_id(line: CartLine) -> Seq<char>
    recommends
        line.merchandise is ProductVariant,
{
    line.merchandise->ProductVariant_0.id@
}

/// The variant IDs of the qualifying lines, in cart order.
pub open spec fn qualifying_ids(lines: Seq<CartLine>) -> Seq<Seq<char>>
    decreases lines.len(),
{
    if lines.len() == 0 {
        Seq::empty()
    } else if line_qualifies(lines.last()) {
        qualifying_ids(lines.drop_last()).push(spec_variant_id(lines.last()))
    } else {
        qualifying_ids(lines.drop_last())
    }
}

/// The target that stands for one qualifying line: it names the given
/// variant ID and leaves the quantity cap unset.
pub open spec fn target_for(t: Target, id: Seq<char>) -> bool {
    &&& t.product_variant matches Some(pv)
    &&& pv.id@ == id
    &&& pv.quantity is None
}

/// The target list stands for exactly the given IDs, in order.
pub open spec fn targets_match(targets: Seq<Target>, ids: Seq<Seq<char>>) -> bool {
    &&& targets.len() == ids.len()
    &&& forall|i: int| 0 <= i < ids.len() ==> target_for(#[trigger] targets[i], ids[i])
}

/// The empty decision: no discounts, strategy `First`. Every return path of
/// `evaluate` that grants nothing goes through this single constructor.
pub fn no_discount_result() -> (r: FunctionResult)
    ensures
        r.discounts@.len() == 0,
        r.discount_application_strategy == DiscountApplicationStrategy::First,
{
    FunctionResult {
        discounts: Vec::new(),
        discount_application_strategy: DiscountApplicationStrategy::First,
    }
}

/// One target per qualifying line, in cart order, each naming the line's
/// variant ID and leaving the quantity cap unset.
pub fn collect_targets(lines: &Vec<CartLine>) -> (targets: Vec<Target>)
    ensures
        targets_match(targets@, qualifying_ids(lines@)),
{
    let mut targets: Vec<Target> = Vec::new();
    let mut i: usize = 0;
    while i < lines.len()
        invariant
            i <= lines.len(),
            targets_match(targets@, qualifying_ids(lines@.take(i as int))),
        decreases lines.len() - i,
    {
        match &lines[i].merchandise {
            Merchandise::ProductVariant(variant) => {
                if lines[i].quantity >= MIN_QUALIFYING_QUANTITY {
                    targets.push(
                        Target {
                            product_variant: Some(
                                ProductVariantTarget { id: variant.id.clone(), quantity: None },
                            ),
                        },
                    );
                }
            },
            Merchandise::CustomProduct => {},
        }
        i = i + 1;
        proof {
            assert(lines@.take(i as int).drop_last() =~= lines@.take(i as int - 1));
        }
    }
    proof {
        assert(lines@.take(lines@.len() as int) =~= lines@);
    }
    targets
}

/// The whole contract of `evaluate`: the strategy is always `First`; with
/// no qualifying line the decision is empty; otherwise it holds exactly one
/// discount, with no message, the flat percentage rate, and one target per
/// qualifying line in cart order.
pub open spec fn evaluate_post(cart: Cart, r: FunctionResult) -> bool {
    let ids = qualifying_ids(cart.lines@);
    &&& r.discount_application_strategy == DiscountApplicationStrategy::First
    &&& (ids.len() == 0 ==> r.discounts@.len() == 0)
    &&& (ids.len() > 0 ==> {
        &&& r.discounts@.len() == 1
        &&& r.discounts@[0].message is None
        &&& (r.discounts@[0].value matches Value::Percentage(p) && p.value@
            == spec_discount_rate())
        &&& targets_match(r.discounts@[0].targets@, ids)
    })
}

/// The discount evaluator: pure and total. Lines with a quantity of at
/// least `MIN_QUALIFYING_QUANTITY` that reference a product variant become
/// the targets of one flat ten-percent discount; a cart with no such line
/// yields the empty decision.
pub fn evaluate(cart: &Cart) -> (r: FunctionResult)
    ensures
        evaluate_post(*cart, r),
{
    let targets = collect_targets(&cart.lines);
    if targets.is_empty() {
        return no_discount_result();
    }
    FunctionResult {
        discounts: vec![
            Discount {
                message: None,
                targets,
                value: Value::Percentage(Percentage { value: String::from_str("10.0") }),
            },
        ],
        discount_application_strategy: DiscountApplicationStrategy::First,
    }
}

/// A cart in which no line qualifies produces no target at all.
pub proof fn lemma_no_qualifier_no_targets(lines: Seq<CartLine>)
    requires
        forall|i: int| 0 <= i < lines.len() ==> !line_qualifies(#[trigger] lines[i]),
    ensures
        qualifying_ids(lines).len() == 0,
    decreases lines.len(),
{
    if lines.len() > 0 {
        lemma_no_qualifier_no_targets(lines.drop_last());
    }
}

/// Law: when every line of the cart stays below the qualifying quantity,
/// the decision is empty — no discounts, strategy `First`.
pub proof fn lemma_below_threshold_empty_decision(cart: Cart, r: FunctionResult)
    requires
        evaluate_post(cart, r),
        forall|i: int| 0 <= i < cart.lines@.len() ==> (#[trigger] cart.lines@[i]).quantity
            < MIN_QUALIFYING_QUANTITY,
    ensures
        r.discounts@.len() == 0,
        r.discount_application_strategy == DiscountApplicationStrategy::First,
{
    lemma_no_qualifier_no_targets(cart.lines@);
}

/// A cart that holds at least one qualifying line produces at least one
/// target.
pub proof fn lemma_qualifier_yields_target(lines: Seq<CartLine>)
    requires
        exists|i: int| 0 <= i < lines.len() && line_qualifies(#[trigger] lines[i]),
    ensures
        qualifying_ids(lines).len() > 0,
    decreases lines.len(),
{
    let i = choose|i: int| 0 <= i < lines.len() && line_qualifies(#[trigger] lines[i]);
    if i < lines.len() - 1 {
        assert(lines.drop_last()[i] == lines[i]);
        lemma_qualifier_yields_target(lines.drop_last());
    }
}

/// Law: a cart with at least one qualifying line yields exactly one
/// discount, whose value is the flat percentage rate and whose targets are
/// the variant IDs of all qualifying lines, in cart order.
pub proof fn lemma_qualifying_line_yields_discount(cart: Cart, r: FunctionResult)
    requires
        evaluate_post(cart, r),
        exists|i: int| 0 <= i < cart.lines@.len() && line_qualifies(#[trigger] cart.lines@[i]),
    ensures
        r.discounts@.len() == 1,
        r.discounts@[0].message is None,
        (r.discounts@[0].value matches Value::Percentage(p) && p.value@ == spec_discount_rate()),
        targets_match(r.discounts@[0].targets@, qualifying_ids(cart.lines@)),
        r.discount_application_strategy == DiscountApplicationStrategy::First,
{
    lemma_qualifier_yields_target(cart.lines@);
}

/// Law: a line that references a custom product contributes no target,
/// whatever its quantity — appending one to a cart leaves the target list
/// unchanged.
pub proof fn lemma_custom_line_adds_no_target(lines: Seq<CartLine>, line: CartLine)
    requires
        line.merchandise is CustomProduct,
    ensures
        qualifying_ids(lines.push(line)) == qualifying_ids(lines),
{
    assert(lines.push(line).drop_last() =~= lines);
    assert(lines.push(line).last() == line);
}

/// Law: custom-product lines never trigger a discount by themselves — when
/// every line at or above the qualifying quantity references a custom
/// product, the decision is empty.
pub proof fn lemma_custom_products_trigger_nothing(cart: Cart, r: FunctionResult)
    requires
        evaluate_post(cart, r),
        forall|i: int| 0 <= i < cart.lines@.len() && (#[trigger] cart.lines@[i]).quantity
            >= MIN_QUALIFYING_QUANTITY ==> cart.lines@[i].merchandise is CustomProduct,
    ensures
        r.discounts@.len() == 0,
        r.discount_application_strategy == DiscountApplicationStrategy::First,
{
    lemma_no_qualifier_no_targets(cart.lines@);
}

/// Law: the qualifying bound is inclusive at a quantity of two — a
/// variant-referencing line with quantity two qualifies, and a line with
/// quantity one never does.
pub proof fn lemma_threshold_boundary(line: CartLine)
    ensures
        line.quantity == 2 && line.merchandise is ProductVariant ==> line_qualifies(line),
        line.quantity == 1 ==> !line_qualifies(line),
{
}

/// Law: the evaluator is a pure function of the cart — any two results that
/// meet its contract on the same cart agree on every observable field, so
/// evaluating the same cart twice yields identical decisions.
pub proof fn lemma_evaluate_deterministic(cart: Cart, r1: FunctionResult, r2: FunctionResult)
    requires
        evaluate_post(cart, r1),
        evaluate_post(cart, r2),
    ensures
        crate::model::result_model(r1) == crate::model::result_model(r2),
{
    let ids = qualifying_ids(cart.lines@);
    let m1 = r1.discounts@.map_values(|d: Discount| crate::model::discount_model(d));
    let m2 = r2.discounts@.map_values(|d: Discount| crate::model::discount_model(d));
    if ids.len() == 0 {
        assert(m1 =~= m2);
    } else {
        let d1 = r1.discounts@[0];
        let d2 = r2.discounts@[0];
        let t1 = d1.targets@.map_values(|t: Target| crate::model::target_model(t));
        let t2 = d2.targets@.map_values(|t: Target| crate::model::target_model(t));
        assert forall|i: int| 0 <= i < ids.len() implies t1[i] == t2[i] by {
            assert(target_for(d1.targets@[i], ids[i]));
            assert(target_for(d2.targets@[i], ids[i]));
        }
        assert(t1 =~= t2);
        assert(crate::model::discount_model(d1) == crate::model::discount_model(d2));
        assert(m1 =~= m2);
    }
}

} // verus!
