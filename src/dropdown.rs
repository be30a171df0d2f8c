use vstd::prelude::*;

verus! {

/// Background colour of a dropdown.
#[derive(Clone, Copy, Debug, PartialEq)]
pub enum DropdownColorScheme {
    Freyr,
    Dark,
    Light,
    Custom(&'static str),
}

impl DropdownColorScheme {
    pub open spec fn css_color(self) -> Seq<char> {
        match self {
            DropdownColorScheme::Freyr => "#3795BD"@,
            DropdownColorScheme::Dark => "#1E201E"@,
            DropdownColorScheme::Light => "#F7F7F8"@,
            DropdownColorScheme::Custom(color) => color@,
        }
    }

    /// The CSS colour of the background.
    pub fn as_css_class(&self) -> (r: &'static str)
        ensures
            r@ == self.css_color(),
    {
        match self {
            DropdownColorScheme::Freyr => "#3795BD",
            DropdownColorScheme::Dark => "#1E201E",
            DropdownColorScheme::Light => "#F7F7F8",
            DropdownColorScheme::Custom(color) => color,
        }
    }
}

/// Colour of a dropdown's title.
#[derive(Clone, Copy, Debug, PartialEq)]
pub enum DropdownTitleColor {
    Freyr,
    Dark,
    Light,
    Custom(&'static str),
}

impl DropdownTitleColor {
    pub open spec fn css_color(self) -> Seq<char> {
        match self {
            DropdownTitleColor::Freyr => "#3795BD"@,
            DropdownTitleColor::Dark => "#1E201E"@,
            DropdownTitleColor::Light => "#F7F7F8"@,
            DropdownTitleColor::Custom(color) => color@,
        }
    }

    /// The CSS colour of the dropdown title.
    pub fn as_css_class(&self) -> (r: &'static str)
        ensures
            r@ == self.css_color(),
    {
        match self {
            DropdownTitleColor::Freyr => "#3795BD",
            DropdownTitleColor::Dark => "#1E201E",
            DropdownTitleColor::Light => "#F7F7F8",
            DropdownTitleColor::Custom(color) => color,
        }
    }
}

/// Colour of a dropdown's labels.
#[derive(Clone, Copy, Debug, PartialEq)]
pub enum DropdownLabelsColor {
    Freyr,
    Dark,
    Light,
    Custom(&'static str),
}

impl DropdownLabelsColor {
    pub open spec fn css_color(self) -> Seq<char> {
        match self {
            DropdownLabelsColor::Freyr => "#3795BD"@,
            DropdownLabelsColor::Dark => "#1E201E"@,
            DropdownLabelsColor::Light => "#F7F7F8"@,
            DropdownLabelsColor::Custom(color) => color@,
        }
    }

    /// The CSS colour of the dropdown labels.
    pub fn as_css_class(&self) -> (r: &'static str)
        ensures
            r@ == self.css_color(),
    {
        match self {
            DropdownLabelsColor::Freyr => "#3795BD",
            DropdownLabelsColor::Dark => "#1E201E",
            DropdownLabelsColor::Light => "#F7F7F8",
            DropdownLabelsColor::Custom(color) => color,
        }
    }
}

/// Background colour a dropdown label takes under the pointer.
#[derive(Clone, Copy, Debug, PartialEq)]
pub enum DropdownHoverColor {
    Freyr,
    Dark,
    Light,
    Custom(&'static str),
}

impl DropdownHoverColor {
    pub open spec fn css_color(self) -> Seq<char> {
        match self {
            DropdownHoverColor::Freyr => "#3795BD"@,
            DropdownHoverColor::Dark => "#1E201E"@,
            DropdownHoverColor::Light => "#F7F7F8"@,
            DropdownHoverColor::Custom(color) => color@,
        }
    }

    /// The CSS colour of the hover background.
    pub fn as_css_class(&self) -> (r: &'static str)
        ensures
            r@ == self.css_color(),
    {
        match self {
            DropdownHoverColor::Freyr => "#3795BD",
            DropdownHoverColor::Dark => "#1E201E",
            DropdownHoverColor::Light => "#F7F7F8",
            DropdownHoverColor::Custom(color) => color,
        }
    }
}

/// One entry of a dropdown menu: a label, and where it leads if anywhere.
#[derive(Clone, Debug, PartialEq)]
pub struct DropdownItem {
    pub label: String,
    pub url: Option<String>,
}

impl DropdownItem {
    pub fn new(label: &str, url: Option<String>) -> (r: DropdownItem)
        ensures
            r.label@ == label@,
            r.url == url,
    {
        DropdownItem { label: String::from_str(label), url }
    }

    /// An entry that only shows its label.
    pub fn without_url(label: &str) -> (r: DropdownItem)
        ensures
            r.label@ == label@,
            r.url.is_none(),
    {
        DropdownItem { label: String::from_str(label), url: None }
    }
}

/// A dropdown menu: its title, its entries, and its colours.
#[derive(Clone, Debug, PartialEq)]
pub struct DropdownConfig {
    pub title: String,
    pub label: Vec<DropdownItem>,
    pub background_color: DropdownColorScheme,
    pub title_color: DropdownTitleColor,
    pub labels_color: DropdownLabelsColor,
    pub hover_color: DropdownHoverColor,
}

} // verus!
