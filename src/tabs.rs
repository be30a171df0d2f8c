use vstd::prelude::*;

verus! {

/// Colour theme of a row of tabs; a custom colour is given by inline CSS.
#[derive(Clone, Copy, Debug, PartialEq)]
pub enum TabsColor {
    Freyr,
    Black,
    Light,
    Custom(&'static str),
}

impl TabsColor {
    pub open spec fn css_class(self) -> Seq<char> {
        match self {
            TabsColor::Freyr => "tabs-freyr"@,
            TabsColor::Black => "tabs-black"@,
            TabsColor::Light => "tabs-light"@,
            TabsColor::Custom(_) => Seq::empty(),
        }
    }

    /// The class of the theme; none for a custom colour.
    pub fn to_css_class(&self) -> (r: &'static str)
        ensures
            r@ == self.css_class(),
    {
        match self {
            TabsColor::Freyr => "tabs-freyr",
            TabsColor::Black => "tabs-black",
            TabsColor::Light => "tabs-light",
            TabsColor::Custom(_) => {
                proof {
                    reveal_strlit("");
                }
                ""
            },
        }
    }
}

pub open spec fn tab_item_class_spec(custom_color: Option<TabsColor>, is_active: bool) -> Seq<char> {
    "tab-item "@ + (match custom_color {
        Some(TabsColor::Custom(_)) => "custom-tab-item"@,
        _ => Seq::empty(),
    }) + " "@ + (match custom_color {
        Some(c) => c.css_class(),
        None => Seq::empty(),
    }) + " "@ + if is_active { "active-tab"@ } else { Seq::empty() }
}

/// The class of a tab's header: its theme, and `active-tab` on the open tab.
pub fn tab_item_class(custom_color: Option<TabsColor>, is_active: bool) -> (r: String)
    ensures
        r@ == tab_item_class_spec(custom_color, is_active),
{
    proof {
        reveal_strlit("");
    }
    let mut r = String::from_str("tab-item ");
    match custom_color {
        Some(TabsColor::Custom(_)) => r.append("custom-tab-item"),
        _ => {},
    }
    r.append(" ");
    match custom_color {
        Some(c) => r.append(c.to_css_class()),
        None => {},
    }
    r.append(" ");
    if is_active {
        r.append("active-tab");
    }
    r
}

/// Defaults of the look of the second kind of tabs.
pub const SECONDARY_MAX_WIDTH: &'static str = "700px";
pub const SECONDARY_HEADER_HOVER: &'static str = "#e5e5e5";
pub const SECONDARY_HEADER_BACKGROUND: &'static str = "#e5e5e5";
pub const SECONDARY_HEADER_TEXT: &'static str = "#7f7f7f";
pub const SECONDARY_ACTIVE_BACKGROUND: &'static str = "#ffffff";
pub const SECONDARY_ACTIVE_TEXT: &'static str = "#000000";
pub const SECONDARY_RADIUS: &'static str = "1em 1em 1em 1em)";
pub const SECONDARY_SHADOW: &'static str = "";

} // verus!
