use vstd::prelude::*;

verus! {

pub open spec fn wrap_class_spec(wrap_class: Seq<char>) -> Seq<char> {
    if wrap_class.len() == 0 { "dialog-wrap"@ } else { wrap_class }
}

/// The class of a dialog's frame: the caller's, or the default where it is empty.
pub fn dialog_wrap_class(wrap_class: &str) -> (r: String)
    ensures
        r@ == wrap_class_spec(wrap_class@),
{
    if wrap_class.is_empty() {
        String::from_str("dialog-wrap")
    } else {
        String::from_str(wrap_class)
    }
}

/// Defaults of the parts of a dialog.
pub const CROSS_SVG_CLASS: &'static str = "dialog-cross-svg";
pub const CLOSE_BUTTON_CLASS: &'static str = "dialog-close-button";
pub const CLOSE_BUTTON_LABEL: &'static str = "Close";

} // verus!
