use vstd::prelude::*;

verus! {

/// Colour theme of a button.
#[derive(Clone, Copy, Debug, PartialEq, Eq, Structural)]
pub enum ButtonColor {
    Freyr,
    Primary,
    Success,
    Danger,
    Black,
    Transparent,
}

impl ButtonColor {
    pub open spec fn css_class(self) -> Seq<char> {
        match self {
            ButtonColor::Freyr => "btn-freyr"@,
            ButtonColor::Primary => "btn-primary"@,
            ButtonColor::Success => "btn-success"@,
            ButtonColor::Danger => "btn-danger"@,
            ButtonColor::Black => "btn-black"@,
            ButtonColor::Transparent => "btn-transparent"@,
        }
    }

    /// The class of the theme.
    pub fn to_css_class(&self) -> (r: &'static str)
        ensures
            r@ == self.css_class(),
    {
        match self {
            ButtonColor::Freyr => "btn-freyr",
            ButtonColor::Primary => "btn-primary",
            ButtonColor::Success => "btn-success",
            ButtonColor::Danger => "btn-danger",
            ButtonColor::Black => "btn-black",
            ButtonColor::Transparent => "btn-transparent",
        }
    }
}

/// Where a button leads.
#[derive(Clone, Debug, PartialEq)]
pub struct ButtonUrl {
    pub url: String,
}

} // verus!
