use vstd::prelude::*;

verus! {

/// Colour theme of the plain custom button.
#[derive(Clone, Copy, Debug, PartialEq, Eq, Structural)]
pub enum ButtonColor {
    Default,
    Primary,
    Success,
    Danger,
}

impl ButtonColor {
    pub open spec fn css_class(self) -> Seq<char> {
        match self {
            ButtonColor::Default => "btn-default"@,
            ButtonColor::Primary => "btn-primary"@,
            ButtonColor::Success => "btn-success"@,
            ButtonColor::Danger => "btn-danger"@,
        }
    }

    /// The class of the theme.
    pub fn to_css_class(&self) -> (r: &'static str)
        ensures
            r@ == self.css_class(),
    {
        match self {
            ButtonColor::Default => "btn-default",
            ButtonColor::Primary => "btn-primary",
            ButtonColor::Success => "btn-success",
            ButtonColor::Danger => "btn-danger",
        }
    }
}

} // verus!
