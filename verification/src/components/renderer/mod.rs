//! Builders for the markup attributes of the components.

pub mod class_list;

pub use class_list::ClassList;
