//! Verified core of the Radzen component library for Leptos: CSS class
//! building, the value enums of the components, and the decision logic that
//! the components run on user input.

pub mod text;
pub mod components;
