use vstd::prelude::*;

verus! {

/// The caller's text where there is one, else the default.
pub open spec fn text_or_spec(text: Option<String>, default: Seq<char>) -> Seq<char> {
    match text {
        Some(t) => t@,
        None => default,
    }
}

pub fn text_or(text: Option<String>, default: &str) -> (r: String)
    ensures
        r@ == text_or_spec(text, default@),
{
    match text {
        Some(t) => t,
        None => String::from_str(default),
    }
}

pub open spec fn colors_style_spec(background: Seq<char>, color: Seq<char>) -> Seq<char> {
    "background-color: "@ + background + "; color: "@ + color + ";"@
}

/// Inline CSS that sets a background and a text colour.
pub fn colors_style(background: &str, color: &str) -> (r: String)
    ensures
        r@ == colors_style_spec(background@, color@),
{
    let mut r = String::from_str("background-color: ");
    r.append(background);
    r.append("; color: ");
    r.append(color);
    r.append(";");
    r
}

pub open spec fn background_style_spec(background: Seq<char>) -> Seq<char> {
    "background-color: "@ + background + ";"@
}

/// Inline CSS that sets a background colour.
pub fn background_style(background: &str) -> (r: String)
    ensures
        r@ == background_style_spec(background@),
{
    let mut r = String::from_str("background-color: ");
    r.append(background);
    r.append(";");
    r
}

pub open spec fn color_style_spec(color: Seq<char>) -> Seq<char> {
    "color: "@ + color + ";"@
}

/// Inline CSS that sets a text colour.
pub fn color_style(color: &str) -> (r: String)
    ensures
        r@ == color_style_spec(color@),
{
    let mut r = String::from_str("color: ");
    r.append(color);
    r.append(";");
    r
}

pub open spec fn hover_link_style_spec(color: Seq<char>, hover: Seq<char>) -> Seq<char> {
    "color: "@ + color + "; --custom_color: "@ + hover + ";"@
}

/// Inline CSS of a link: its text colour, and the colour it takes under the pointer.
pub fn hover_link_style(color: &str, hover: &str) -> (r: String)
    ensures
        r@ == hover_link_style_spec(color@, hover@),
{
    let mut r = String::from_str("color: ");
    r.append(color);
    r.append("; --custom_color: ");
    r.append(hover);
    r.append(";");
    r
}

} // verus!
