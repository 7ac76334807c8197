pub mod filter;
pub mod flatten;
pub mod model;
pub mod pattern;
