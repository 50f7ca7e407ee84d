//! Small verified building blocks: a rotating byte filter over any byte
//! source, and a set of little value types and helpers around it.
pub mod rot13;
pub mod text;
pub mod standard_lib;
pub mod pattern_matching;
pub mod arrays;
pub mod generic_min;
pub mod generics;
pub mod logger_exercise;
pub mod methods;
pub mod package_builder;
pub mod traits;
pub mod user_types;
pub mod memory_management;
