use vstd::prelude::*;

verus! {

/// Background colour of a navbar.
#[derive(Clone, Copy, Debug, PartialEq)]
pub enum ColorScheme {
    Freyr,
    Dark,
    Light,
    Custom(&'static str),
}

impl ColorScheme {
    pub open spec fn css_color(self) -> Seq<char> {
        match self {
            ColorScheme::Freyr => "#3795BD"@,
            ColorScheme::Dark => "#222"@,
            ColorScheme::Light => "#fff"@,
            ColorScheme::Custom(color) => color@,
        }
    }

    /// The CSS colour of the navbar background.
    pub fn as_css_class(&self) -> (r: &'static str)
        ensures
            r@ == self.css_color(),
    {
        match self {
            ColorScheme::Freyr => "#3795BD",
            ColorScheme::Dark => "#222",
            ColorScheme::Light => "#fff",
            ColorScheme::Custom(color) => color,
        }
    }
}

/// Colour of a navbar's entries and header.
#[derive(Clone, Copy, Debug, PartialEq)]
pub enum NavItemsColor {
    Freyr,
    Dark,
    Light,
    Custom(&'static str),
}

impl NavItemsColor {
    pub open spec fn css_color(self) -> Seq<char> {
        match self {
            NavItemsColor::Freyr => "#3795BD"@,
            NavItemsColor::Dark => "#000"@,
            NavItemsColor::Light => "#fff"@,
            NavItemsColor::Custom(color) => color@,
        }
    }

    /// The CSS colour of the navbar entries.
    pub fn as_css_class(&self) -> (r: &'static str)
        ensures
            r@ == self.css_color(),
    {
        match self {
            NavItemsColor::Freyr => "#3795BD",
            NavItemsColor::Dark => "#000",
            NavItemsColor::Light => "#fff",
            NavItemsColor::Custom(color) => color,
        }
    }
}

/// Colour of the menu icons of a navbar (hamburger and cross).
#[derive(Clone, Copy, Debug, PartialEq)]
pub enum IconColor {
    Freyr,
    White,
    Black,
    Custom(&'static str),
}

impl IconColor {
    pub open spec fn css_color(self) -> Seq<char> {
        match self {
            IconColor::Freyr => "#3795BD"@,
            IconColor::White => "#fff"@,
            IconColor::Black => "#000"@,
            IconColor::Custom(color) => color@,
        }
    }

    /// The CSS colour of the menu icons.
    pub fn as_css_class(&self) -> (r: &'static str)
        ensures
            r@ == self.css_color(),
    {
        match self {
            IconColor::Freyr => "#3795BD",
            IconColor::White => "#fff",
            IconColor::Black => "#000",
            IconColor::Custom(color) => color,
        }
    }
}

/// Colour of a navbar's header.
pub type HeaderColor = NavItemsColor;

/// Where the entries of a navbar stand.
#[derive(Clone, Copy, Debug, PartialEq, Eq, Structural)]
pub enum Orientation {
    Left,
    Center,
    Right,
}

pub open spec fn orientation_class_spec(orientation: Option<Orientation>) -> Seq<char> {
    match orientation {
        Some(Orientation::Left) => "menu-items left"@,
        Some(Orientation::Center) => "menu-items center"@,
        Some(Orientation::Right) | None => "menu-items right"@,
    }
}

/// The class of a navbar's entries; they stand on the right unless told otherwise.
pub fn orientation_class(orientation: Option<Orientation>) -> (r: &'static str)
    ensures
        r@ == orientation_class_spec(orientation),
{
    match orientation {
        Some(Orientation::Left) => "menu-items left",
        Some(Orientation::Center) => "menu-items center",
        Some(Orientation::Right) | None => "menu-items right",
    }
}

pub open spec fn menu_class_spec(open: bool) -> Seq<char> {
    if open { "menu open"@ } else { "menu"@ }
}

/// The class of a navbar's menu, marked `open` while it is unfolded.
pub fn menu_class(open: bool) -> (r: &'static str)
    ensures
        r@ == menu_class_spec(open),
{
    if open { "menu open" } else { "menu" }
}

pub open spec fn navbar_class_spec(has_header: bool) -> Seq<char> {
    if has_header { "navbar"@ } else { "navbar no-header"@ }
}

/// The class of a navbar, marked `no-header` when it has no header.
pub fn navbar_class(has_header: bool) -> (r: &'static str)
    ensures
        r@ == navbar_class_spec(has_header),
{
    if has_header { "navbar" } else { "navbar no-header" }
}

/// The entries of a navbar: each label with the link at the same position, as
/// many as the shorter of the two lists holds.
pub fn nav_entries(items: &Vec<String>, links: &Vec<String>) -> (r: Vec<(String, String)>)
    ensures
        r@.len() == if items@.len() <= links@.len() { items@.len() } else { links@.len() },
        forall|i: int| 0 <= i < r@.len() ==> #[trigger] r@[i] == (items@[i], links@[i]),
{
    let n: usize = if items.len() <= links.len() { items.len() } else { links.len() };
    let mut r: Vec<(String, String)> = Vec::new();
    let mut i: usize = 0;
    while i < n
        invariant
            n <= items@.len(),
            n <= links@.len(),
            i <= n,
            r@.len() == i,
            forall|j: int| 0 <= j < i ==> #[trigger] r@[j] == (items@[j], links@[j]),
        decreases n - i,
    {
        r.push((items[i].clone(), links[i].clone()));
        i = i + 1;
    }
    r
}

/// One dropdown of a navbar: its label, an optional title, its entries as
/// (label, link) pairs, and optional colours.
#[derive(Clone, Debug, PartialEq)]
pub struct DropdownConfigNavBar {
    pub label: String,
    pub title: Option<String>,
    pub items: Vec<(String, String)>,
    pub background_color: Option<ColorScheme>,
    pub title_color: Option<NavItemsColor>,
    pub item_color: Option<NavItemsColor>,
}

impl DropdownConfigNavBar {
    pub fn new(
        label: String,
        items: Vec<(String, String)>,
        title: Option<String>,
        background_color: Option<ColorScheme>,
        title_color: Option<NavItemsColor>,
        item_color: Option<NavItemsColor>,
    ) -> (r: DropdownConfigNavBar)
        ensures
            r.label == label,
            r.items == items,
            r.title == title,
            r.background_color == background_color,
            r.title_color == title_color,
            r.item_color == item_color,
    {
        DropdownConfigNavBar { label, items, title, background_color, title_color, item_color }
    }
}

/// A navbar: colours, an optional header, where its entries stand, and its
/// entries as labels and links at the same positions.
#[derive(Clone, Debug, PartialEq)]
pub struct NavbarConfig {
    pub background_color: ColorScheme,
    pub nav_header: Option<String>,
    pub orientation: Option<Orientation>,
    pub header_color: HeaderColor,
    pub nav_items: Vec<String>,
    pub nav_links: Vec<String>,
    pub nav_item_color: NavItemsColor,
    pub icon_color: IconColor,
}

/// A navbar that shows a logo in place of a header.
#[derive(Clone, Debug, PartialEq)]
pub struct NavbarWithLogoConfig {
    pub background_color: ColorScheme,
    pub nav_items: Vec<String>,
    pub nav_links: Vec<String>,
    pub nav_item_color: NavItemsColor,
    pub icon_color: IconColor,
    pub logo_url: String,
    pub logo_src: String,
    pub logo_alt: String,
}

/// A navbar with dropdowns among its entries.
#[derive(Clone, Debug, PartialEq)]
pub struct NavbarDropdownConfig {
    pub background_color: ColorScheme,
    pub nav_header: String,
    pub nav_items: Vec<String>,
    pub nav_links: Vec<String>,
    pub nav_item_color: NavItemsColor,
    pub icon_color: IconColor,
    pub dropdowns: Vec<DropdownConfigNavBar>,
}

} // verus!
