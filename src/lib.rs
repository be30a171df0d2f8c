//! Building blocks of a small set of UI widgets: colour and class mappings,
//! and the index state of a carousel, with and without auto-advance.
pub mod accordion;
pub mod button;
pub mod card;
pub mod carousel;
pub mod carousel_laws;
pub mod carousel_timer;
pub mod custom_button;
pub mod dialog;
pub mod dropdown;
pub mod navbar;
pub mod style;
pub mod tabs;
