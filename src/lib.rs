//! Meal planning over a fixed recipe catalog: rotation of dinners across days,
//! shopping-list aggregation, ingredient overlap analysis and Markdown rendering.
pub mod dataset;
pub mod meal_planner;
pub mod overlap;
pub mod recipes;
pub mod service;
pub mod shopping;
pub mod text;
