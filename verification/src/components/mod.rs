//! The components' value types and the logic that they run.

pub mod alert;
pub mod alert_size;
pub mod alert_style;
pub mod align_items;
pub mod auto_complete_type;
pub mod badge;
pub mod badge_style;
pub mod base_component;
pub mod button;
pub mod button_size;
pub mod button_style;
pub mod button_type;
pub mod calendar;
pub mod card;
pub mod check_box;
pub mod component_macro;
pub mod date_picker;
pub mod density;
pub mod dropdown;
pub mod dropdown_base;
pub mod flex_wrap;
pub mod horizontal_align;
pub mod icon;
pub mod icon_style;
pub mod image;
pub mod justify_content;
pub mod label;
pub mod link;
pub mod numeric;
pub mod orientation;
pub mod pager;
pub mod pager_position;
pub mod password;
pub mod renderer;
pub mod select_bar;
pub mod selection;
pub mod shade;
pub mod stack;
pub mod tag_name;
pub mod text;
pub mod text_align;
pub mod text_area;
pub mod text_box;
pub mod text_style;
pub mod time_picker;
pub mod variant;

pub use alert_size::AlertSize;
pub use alert_style::AlertStyle;
pub use align_items::AlignItems;
pub use auto_complete_type::AutoCompleteType;
pub use badge_style::BadgeStyle;
pub use button_size::ButtonSize;
pub use button_style::ButtonStyle;
pub use button_type::ButtonType;
pub use density::Density;
pub use flex_wrap::FlexWrap;
pub use horizontal_align::HorizontalAlign;
pub use icon_style::IconStyle;
pub use justify_content::JustifyContent;
pub use orientation::Orientation;
pub use pager_position::PagerPosition;
pub use renderer::ClassList;
pub use shade::Shade;
pub use tag_name::TagName;
pub use text_align::TextAlign;
pub use text_style::TextStyle;
pub use variant::Variant;
