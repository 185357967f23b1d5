//! Nutrition-facts computation for recipes.
//!
//! A recipe combines a pantry of products with one dish; resolving it yields
//! the dish's nutrition facts normalized to a 100 gram basis. Product
//! nutrition may be declared directly or come from another recipe document,
//! so resolution is recursive; cycles among documents are detected and
//! reported. All quantities are exact non-negative rationals.

pub mod amount;
pub mod recipe;
pub mod resolve;
