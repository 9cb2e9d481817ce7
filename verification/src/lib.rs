//! A volume-discount evaluator for a commerce platform's shopping cart.
//!
//! Cart lines with a quantity of two or more that reference a product
//! variant are gathered into the targets of a single flat ten-percent
//! discount, applied with the platform's "first" strategy; a cart with no
//! qualifying line yields the empty decision.

mod evaluator;
mod model;

pub use evaluator::MIN_QUALIFYING_QUANTITY;
pub use evaluator::collect_targets;
pub use evaluator::evaluate;
pub use evaluator::evaluate_post;
pub use evaluator::lemma_below_threshold_empty_decision;
pub use evaluator::lemma_custom_line_adds_no_target;
pub use evaluator::lemma_custom_products_trigger_nothing;
pub use evaluator::lemma_evaluate_deterministic;
pub use evaluator::lemma_no_qualifier_no_targets;
pub use evaluator::lemma_qualifier_yields_target;
pub use evaluator::lemma_qualifying_line_yields_discount;
pub use evaluator::lemma_threshold_boundary;
pub use evaluator::line_qualifies;
pub use evaluator::no_discount_result;
pub use evaluator::qualifying_ids;
pub use evaluator::spec_discount_rate;
pub use evaluator::spec_variant_id;
pub use evaluator::target_for;
pub use evaluator::targets_match;
pub use model::Cart;
pub use model::CartLine;
pub use model::Discount;
pub use model::DiscountApplicationStrategy;
pub use model::DiscountModel;
pub use model::FunctionResult;
pub use model::Merchandise;
pub use model::Percentage;
pub use model::ProductVariant;
pub use model::ProductVariantTarget;
pub use model::ResultModel;
pub use model::Target;
pub use model::TargetModel;
pub use model::Value;
pub use model::discount_model;
pub use model::result_model;
pub use model::target_model;
pub use model::value_model;
