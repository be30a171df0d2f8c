use vstd::prelude::*;

verus! {

/// What a carousel knows of its items: how many there are, and which one is shown.
pub struct CarouselView {
    pub item_count: nat,
    pub current_index: nat,
}

impl CarouselView {
    /// A carousel shows one of a non-empty list of items.
    pub open spec fn wf(self) -> bool {
        0 < self.item_count && self.current_index < self.item_count
    }

    /// Clicking indicator `index`: an existing indicator becomes the shown item,
    /// any other index changes nothing.
    pub open spec fn select(self, index: nat) -> CarouselView {
        if index < self.item_count {
            CarouselView { item_count: self.item_count, current_index: index }
        } else {
            self
        }
    }

    /// One auto-advance step: the next item, wrapping round after the last.
    pub open spec fn advance(self) -> CarouselView {
        CarouselView {
            item_count: self.item_count,
            current_index: ((self.current_index + 1) % self.item_count) as nat,
        }
    }
}

/// The index state of a carousel over a fixed, non-empty list of items.
pub struct CarouselState {
    item_count: usize,
    current_index: usize,
}

impl View for CarouselState {
    type V = CarouselView;

    closed spec fn view(&self) -> CarouselView {
        CarouselView { item_count: self.item_count as nat, current_index: self.current_index as nat }
    }
}

impl CarouselState {
    /// A carousel over `item_count` items showing the first one; `None` for an
    /// empty list, which has nothing to show.
    pub fn new(item_count: usize) -> (r: Option<CarouselState>)
        ensures
            item_count == 0 <==> r.is_none(),
            r matches Some(s) ==> s@ == (CarouselView { item_count: item_count as nat, current_index: 0 }),
            r matches Some(s) ==> s@.wf(),
    {
        if item_count == 0 {
            None
        } else {
            Some(CarouselState { item_count, current_index: 0 })
        }
    }

    pub fn current_index(&self) -> (r: usize)
        ensures
            r == self@.current_index,
    {
        self.current_index
    }

    pub fn item_count(&self) -> (r: usize)
        ensures
            r == self@.item_count,
    {
        self.item_count
    }

    /// Whether indicator `index` is the one marked active.
    pub fn is_active(&self, index: usize) -> (r: bool)
        ensures
            r == (index == self@.current_index),
    {
        index == self.current_index
    }

    /// Clicks indicator `index`; returns whether such an indicator exists.
    pub fn select(&mut self, index: usize) -> (r: bool)
        requires
            old(self)@.wf(),
        ensures
            r == (index < old(self)@.item_count),
            final(self)@ == old(self)@.select(index as nat),
            final(self)@.wf(),
    {
        if index < self.item_count {
            self.current_index = index;
            true
        } else {
            false
        }
    }

    /// Moves to the next item, back to the first after the last.
    pub fn advance(&mut self)
        requires
            old(self)@.wf(),
        ensures
            final(self)@ == old(self)@.advance(),
            final(self)@.wf(),
    {
        self.current_index = (self.current_index + 1) % self.item_count;
    }
}


/// One image of a carousel: where the image is, and an optional caption that
/// also serves as its alternative text.
#[derive(Clone, Debug, PartialEq)]
pub struct CarouselItem {
    pub image_url: String,
    pub caption: Option<String>,
}

/// The text of a caption, empty where there is none.
pub open spec fn caption_text(caption: Option<String>) -> Seq<char> {
    match caption {
        Some(c) => c@,
        None => Seq::empty(),
    }
}

impl CarouselItem {
    pub fn new(image_url: &str, caption: Option<String>) -> (r: CarouselItem)
        ensures
            r.image_url@ == image_url@,
            r.caption == caption,
    {
        CarouselItem { image_url: String::from_str(image_url), caption }
    }

    /// The alternative text of the image: its caption, or nothing.
    pub fn alt_text(&self) -> (r: &str)
        ensures
            r@ == caption_text(self.caption),
    {
        match &self.caption {
            Some(c) => c.as_str(),
            None => {
                proof {
                    reveal_strlit("");
                }
                ""
            },
        }
    }
}

/// The three sizes a carousel comes in.
#[derive(Clone, Copy, Debug, PartialEq, Eq, Structural)]
pub enum CarouselSize {
    Small,
    Medium,
    Large,
}

impl CarouselSize {
    pub open spec fn css_size(self) -> Seq<char> {
        match self {
            CarouselSize::Small => "width: 300px; height: 200px;"@,
            CarouselSize::Medium => "width: 600px; height: 400px;"@,
            CarouselSize::Large => "width: 900px; height: 600px;"@,
        }
    }

    /// The inline CSS that gives a carousel this size.
    pub fn to_css_size(&self) -> (r: &'static str)
        ensures
            r@ == self.css_size(),
    {
        match self {
            CarouselSize::Small => "width: 300px; height: 200px;",
            CarouselSize::Medium => "width: 600px; height: 400px;",
            CarouselSize::Large => "width: 900px; height: 600px;",
        }
    }
}

/// How the indicators under a carousel are drawn.
#[derive(Clone, Copy, Debug, PartialEq, Eq, Structural)]
pub enum IndicatorStyle {
    /// A dot per item.
    Dot,
    /// The item's ordinal, counted from 1.
    Number,
}

pub open spec fn indicator_class_spec(style: IndicatorStyle, is_active: bool) -> Seq<char> {
    match style {
        IndicatorStyle::Dot => if is_active { "carousel-dot active"@ } else { "carousel-dot"@ },
        IndicatorStyle::Number => if is_active { "carousel-number active"@ } else { "carousel-number"@ },
    }
}

/// The class of an indicator, marked `active` when its item is shown.
pub fn indicator_class(style: IndicatorStyle, is_active: bool) -> (r: &'static str)
    ensures
        r@ == indicator_class_spec(style, is_active),
{
    match style {
        IndicatorStyle::Dot => if is_active { "carousel-dot active" } else { "carousel-dot" },
        IndicatorStyle::Number => if is_active { "carousel-number active" } else { "carousel-number" },
    }
}

/// The label of the numbered indicator of item `index`: its ordinal from 1.
pub fn indicator_number(index: usize) -> (r: usize)
    requires
        index < usize::MAX,
    ensures
        r == index + 1,
{
    index + 1
}

pub open spec fn container_class_spec(class: Option<String>) -> Seq<char> {
    "carousel-container "@ + match class {
        Some(c) => c@,
        None => "carousel-container-default"@,
    }
}

/// The class of the carousel's container: the caller's class, or the default one.
pub fn container_class(class: Option<String>) -> (r: String)
    ensures
        r@ == container_class_spec(class),
{
    let mut r = String::from_str("carousel-container ");
    match class {
        Some(c) => r.append(c.as_str()),
        None => r.append("carousel-container-default"),
    }
    r
}

} // verus!
