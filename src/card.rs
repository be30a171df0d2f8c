use vstd::prelude::*;

verus! {

/// Class of a card: `card-wrapper`, with `card-shadow` when the card casts a
/// shadow, followed by the caller's extra classes if any.
pub open spec fn card_class_spec(has_shadow: bool, class: Option<String>) -> Seq<char> {
    let base = if has_shadow { "card-wrapper card-shadow"@ } else { "card-wrapper"@ };
    match class {
        Some(extra) => base + " "@ + extra@,
        None => base,
    }
}

pub fn card_class(has_shadow: bool, class: Option<String>) -> (r: String)
    ensures
        r@ == card_class_spec(has_shadow, class),
{
    let base: &str = if has_shadow { "card-wrapper card-shadow" } else { "card-wrapper" };
    let mut r = String::from_str(base);
    match class {
        Some(extra) => {
            r.append(" ");
            r.append(extra.as_str());
        },
        None => {},
    }
    r
}

} // verus!
