use vstd::prelude::*;
use crate::style::{text_or, text_or_spec};

verus! {

/// Colour theme of an accordion.
#[derive(Clone, Copy, Debug, PartialEq)]
pub enum AccordionColor {
    Freyr,
    Black,
}

impl AccordionColor {
    pub open spec fn css_class(self) -> Seq<char> {
        match self {
            AccordionColor::Freyr => "accordion-freyr"@,
            AccordionColor::Black => "accordion-black"@,
        }
    }

    /// The class of the theme.
    pub fn to_css_class(&self) -> (r: &'static str)
        ensures
            r@ == self.css_class(),
    {
        match self {
            AccordionColor::Freyr => "accordion-freyr",
            AccordionColor::Black => "accordion-black",
        }
    }
}

/// Colour of the plus, minus and chevron icons of an accordion.
#[derive(Clone, Copy, Debug, PartialEq)]
pub enum AccordionIconColor {
    Freyr,
    Dark,
    Light,
    Custom(&'static str),
}

impl AccordionIconColor {
    pub open spec fn css_color(self) -> Seq<char> {
        match self {
            AccordionIconColor::Freyr => "#3795BD"@,
            AccordionIconColor::Dark => "#000"@,
            AccordionIconColor::Light => "#fff"@,
            AccordionIconColor::Custom(color) => color@,
        }
    }

    /// The CSS colour of the icons.
    pub fn as_css_class(&self) -> (r: &'static str)
        ensures
            r@ == self.css_color(),
    {
        match self {
            AccordionIconColor::Freyr => "#3795BD",
            AccordionIconColor::Dark => "#000",
            AccordionIconColor::Light => "#fff",
            AccordionIconColor::Custom(color) => color,
        }
    }
}

/// The classes of the parts of an accordion.
#[derive(Clone, Debug, PartialEq)]
pub struct AccordionClasses {
    pub container: String,
    pub title: String,
    pub wrapper: String,
    pub content: String,
}

impl AccordionClasses {
    /// The caller's class for each part, or its default.
    pub fn resolve(
        class: Option<String>,
        title_class: Option<String>,
        accordion_wrapper: Option<String>,
        accordion_content: Option<String>,
    ) -> (r: AccordionClasses)
        ensures
            r.container@ == text_or_spec(class, "accordion"@),
            r.title@ == text_or_spec(title_class, "title-wrapper-default"@),
            r.wrapper@ == text_or_spec(accordion_wrapper, "accordion-wrapper-default"@),
            r.content@ == text_or_spec(accordion_content, "accordion-content-default open-default"@),
    {
        AccordionClasses {
            container: text_or(class, "accordion"),
            title: text_or(title_class, "title-wrapper-default"),
            wrapper: text_or(accordion_wrapper, "accordion-wrapper-default"),
            content: text_or(accordion_content, "accordion-content-default open-default"),
        }
    }
}

pub open spec fn open_class_spec(base: Seq<char>, open: bool) -> Seq<char> {
    base + " "@ + if open { "open"@ } else { Seq::empty() }
}

/// A class followed by `open` while the part is unfolded.
pub fn open_class(base: &str, open: bool) -> (r: String)
    ensures
        r@ == open_class_spec(base@, open),
{
    let mut r = String::from_str(base);
    r.append(" ");
    if open {
        r.append("open");
    }
    proof {
        reveal_strlit("");
    }
    r
}

/// Defaults of the look of an accordion with its chevron on the left.
pub const LEFT_WIDTH: &'static str = "700px";
pub const LEFT_HEADER_BACKGROUND: &'static str = "#f0f9ff";
pub const LEFT_OPEN_MAX_HEIGHT: &'static str = "500px";
pub const LEFT_BOX_SHADOW: &'static str = "";
pub const LEFT_BORDER_RADIUS: &'static str = "10px";
pub const LEFT_TITLE_COLOR: &'static str = "#000000";
pub const LEFT_TITLE_FONT_SIZE: &'static str = "1.25rem";
pub const LEFT_TITLE_FONT_WEIGHT: &'static str = "600";
pub const LEFT_CONTENT_PADDING: &'static str = "1rem";

} // verus!
