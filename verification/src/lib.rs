//! Data structures that the compiler uses to represent layouts, together with
//! the parts of the component tree that they read and write.
pub mod expression_tree;
pub mod object_tree;
pub mod passes;
pub mod layout;
