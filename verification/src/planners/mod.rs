//! What the planner hands to the execution core.

pub mod expression_plan;

pub use self::expression_plan::ExpressionPlan;
