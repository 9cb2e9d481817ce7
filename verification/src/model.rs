use vstd::prelude::*;

verus! {

/// A concrete purchasable SKU of a product, identified by an opaque ID.
#[derive(Debug, Clone, PartialEq, Eq)]
pub struct ProductVariant {
    pub id: String,
}

/// What a cart line refers to: either a catalog product variant, or an
/// ad hoc custom product that no variant ID addresses.
#[derive(Debug, Clone, PartialEq, Eq)]
pub enum Merchandise {
    ProductVariant(ProductVariant),
    CustomProduct,
}

/// One row of the shopping cart: a merchandise reference and a quantity.
#[derive(Debug, Clone, PartialEq, Eq)]
pub struct CartLine {
    pub quantity: i64,
    pub merchandise: Merchandise,
}

/// The cart snapshot handed over by the platform; lines keep the
/// platform's presentation order.
#[derive(Debug, Clone, PartialEq, Eq)]
pub struct Cart {
    pub lines: Vec<CartLine>,
}

/// The discountable unit a discount is declared to apply to: a product
/// variant, with an optional quantity cap (unset means the discount covers
/// however many units matched).
#[derive(Debug, Clone, PartialEq, Eq)]
pub struct ProductVariantTarget {
    pub id: String,
    pub quantity: Option<i64>,
}

/// A reference to a discountable unit; here always a product-variant target.
#[derive(Debug, Clone, PartialEq, Eq)]
pub struct Target {
    pub product_variant: Option<ProductVariantTarget>,
}

/// A percentage rate, carried as the platform's decimal string.
#[derive(Debug, Clone, PartialEq, Eq)]
pub struct Percentage {
    pub value: String,
}

/// The value of a discount: a fixed amount or a percentage rate.
#[derive(Debug, Clone, PartialEq, Eq)]
pub enum Value {
    FixedAmount,
    Percentage(Percentage),
}

/// One discount decision: an optional message, the targets it applies to,
/// and its value.
#[derive(Debug, Clone, PartialEq, Eq)]
pub struct Discount {
    pub message: Option<String>,
    pub targets: Vec<Target>,
    pub value: Value,
}

/// How the platform combines several discounts; this evaluator only ever
/// selects `First`.
#[derive(Debug, Clone, Copy, PartialEq, Eq)]
pub enum DiscountApplicationStrategy {
    First,
    Maximum,
    All,
}

/// The complete decision returned to the platform: zero or one discounts,
/// and the application strategy.
#[derive(Debug, Clone, PartialEq, Eq)]
pub struct FunctionResult {
    pub discounts: Vec<Discount>,
    pub discount_application_strategy: DiscountApplicationStrategy,
}

/// The mathematical content of a `Target`: the variant ID and the optional
/// quantity cap, or nothing when no variant is set.
pub type TargetModel = Option<(Seq<char>, Option<i64>)>;

/// The mathematical content of a `Discount`: its message, its targets and
/// its value, each reduced to plain sequences and options.
pub type DiscountModel = (Option<Seq<char>>, Seq<TargetModel>, Option<Seq<char>>);

/// The mathematical content of a `FunctionResult`: every field the platform
/// can observe.
pub type ResultModel = (Seq<DiscountModel>, DiscountApplicationStrategy);

/// Everything the platform can observe of a target.
pub open spec fn target_model(t: Target) -> TargetModel {
    match t.product_variant {
        Some(pv) => Some((pv.id@, pv.quantity)),
        None => None,
    }
}

/// Everything the platform can observe of a discount value: the percentage
/// rate when one is set, nothing for a fixed amount.
pub open spec fn value_model(v: Value) -> Option<Seq<char>> {
    match v {
        Value::Percentage(p) => Some(p.value@),
        Value::FixedAmount => None,
    }
}

/// Everything the platform can observe of a discount.
pub open spec fn discount_model(d: Discount) -> DiscountModel {
    (
        match d.message {
            Some(m) => Some(m@),
            None => None,
        },
        d.targets@.map_values(|t: Target| target_model(t)),
        value_model(d.value),
    )
}

/// Everything the platform can observe of a complete decision.
pub open spec fn result_model(r: FunctionResult) -> ResultModel {
    (r.discounts@.map_values(|d: Discount| discount_model(d)), r.discount_application_strategy)
}

} // verus!
