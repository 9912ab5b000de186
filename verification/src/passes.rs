//! Helpers of the compiler passes that build layouts.
pub mod lower_layout;
