use vstd::prelude::*;
use crate::carousel::{CarouselState, CarouselView};

verus! {

/// Where the auto-advance timer of a carousel stands.
#[derive(Clone, Copy, PartialEq, Eq, Structural, Debug)]
pub enum TimerPhase {
    /// Built, not mounted yet: no timer runs.
    Idle,
    /// Mounted: the timer named by the carousel's current handle runs.
    Running,
    /// Unmounted: the timer is cancelled and nothing changes any more.
    Unmounted,
}

/// What the host reports to a carousel with auto-advance.
#[derive(Clone, Copy, PartialEq, Eq, Structural, Debug)]
pub enum TimerEvent {
    /// The carousel was mounted.
    Mount,
    /// The timer named `handle` fired.
    Tick { handle: u64 },
    /// The user clicked indicator `index`.
    Select { index: usize },
    /// The carousel was removed.
    Unmount,
}

/// What the host must do in answer to an event.
#[derive(Clone, Copy, PartialEq, Eq, Structural, Debug)]
pub enum TimerAction {
    Nothing,
    /// Start a repeating timer named `handle` with the given period.
    Start { handle: u64, period_ms: u64 },
    /// Cancel the timer named `cancel`, then start one named `start`.
    Restart { cancel: u64, start: u64, period_ms: u64 },
    /// Cancel the timer named `handle`.
    Cancel { handle: u64 },
}

/// What a carousel with auto-advance knows.
pub struct TimerView {
    pub carousel: CarouselView,
    pub period_ms: u64,
    pub phase: TimerPhase,
    /// The name of the last timer started; while `Running`, the live one.
    pub handle: u64,
}

/// The name given to the timer started after the one named `h`; it differs from `h`.
pub open spec fn next_handle(h: u64) -> u64 {
    if h == u64::MAX { 0 } else { (h + 1) as u64 }
}

impl TimerView {
    pub open spec fn wf(self) -> bool {
        self.carousel.wf()
    }

    pub open spec fn with_carousel(self, c: CarouselView) -> TimerView {
        TimerView { carousel: c, period_ms: self.period_ms, phase: self.phase, handle: self.handle }
    }

    pub open spec fn with_phase(self, phase: TimerPhase, handle: u64) -> TimerView {
        TimerView { carousel: self.carousel, period_ms: self.period_ms, phase, handle }
    }

    /// The answer to one event: the next state and the action for the host.
    pub open spec fn step(self, e: TimerEvent) -> (TimerView, TimerAction) {
        match self.phase {
            TimerPhase::Idle => match e {
                TimerEvent::Mount => {
                    let h = next_handle(self.handle);
                    (self.with_phase(TimerPhase::Running, h), TimerAction::Start { handle: h, period_ms: self.period_ms })
                },
                TimerEvent::Tick { handle } => (self, TimerAction::Nothing),
                TimerEvent::Select { index } => (self.with_carousel(self.carousel.select(index as nat)), TimerAction::Nothing),
                TimerEvent::Unmount => (self.with_phase(TimerPhase::Unmounted, self.handle), TimerAction::Nothing),
            },
            TimerPhase::Running => match e {
                TimerEvent::Mount => (self, TimerAction::Nothing),
                TimerEvent::Tick { handle } => {
                    if handle == self.handle {
                        (self.with_carousel(self.carousel.advance()), TimerAction::Nothing)
                    } else {
                        (self, TimerAction::Nothing)
                    }
                },
                TimerEvent::Select { index } => {
                    if (index as nat) < self.carousel.item_count {
                        let h = next_handle(self.handle);
                        (
                            self.with_carousel(self.carousel.select(index as nat)).with_phase(TimerPhase::Running, h),
                            TimerAction::Restart { cancel: self.handle, start: h, period_ms: self.period_ms },
                        )
                    } else {
                        (self, TimerAction::Nothing)
                    }
                },
                TimerEvent::Unmount => (
                    self.with_phase(TimerPhase::Unmounted, self.handle),
                    TimerAction::Cancel { handle: self.handle },
                ),
            },
            TimerPhase::Unmounted => (self, TimerAction::Nothing),
        }
    }

    /// The state after a sequence of events, in order.
    pub open spec fn run(self, events: Seq<TimerEvent>) -> TimerView
        decreases events.len(),
    {
        if events.len() == 0 {
            self
        } else {
            self.run(events.drop_last()).step(events.last()).0
        }
    }
}

/// The state a carousel with auto-advance starts in.
pub open spec fn initial_timer_view(item_count: nat, period_ms: u64) -> TimerView {
    TimerView {
        carousel: CarouselView { item_count, current_index: 0 },
        period_ms,
        phase: TimerPhase::Idle,
        handle: 0,
    }
}

/// A carousel that also advances on a repeating timer.
pub struct TimedCarousel {
    carousel: CarouselState,
    period_ms: u64,
    phase: TimerPhase,
    handle: u64,
}

impl View for TimedCarousel {
    type V = TimerView;

    closed spec fn view(&self) -> TimerView {
        TimerView { carousel: self.carousel@, period_ms: self.period_ms, phase: self.phase, handle: self.handle }
    }
}

/// A period given in seconds, in milliseconds; `None` where that does not fit in a `u64`.
pub fn timer_period_ms(seconds: u64) -> (r: Option<u64>)
    ensures
        seconds * 1000 <= u64::MAX ==> r == Some((seconds * 1000) as u64),
        seconds * 1000 > u64::MAX ==> r.is_none(),
{
    seconds.checked_mul(1000)
}

impl TimedCarousel {
    /// An unmounted carousel over `item_count` items advancing every `period_ms`
    /// milliseconds, showing the first item; `None` for an empty list.
    pub fn new(item_count: usize, period_ms: u64) -> (r: Option<TimedCarousel>)
        ensures
            item_count == 0 <==> r.is_none(),
            r matches Some(t) ==> t@ == initial_timer_view(item_count as nat, period_ms),
            r matches Some(t) ==> t@.wf(),
    {
        match CarouselState::new(item_count) {
            Some(carousel) => Some(TimedCarousel { carousel, period_ms, phase: TimerPhase::Idle, handle: 0 }),
            None => None,
        }
    }

    pub fn current_index(&self) -> (r: usize)
        ensures
            r == self@.carousel.current_index,
    {
        self.carousel.current_index()
    }

    pub fn item_count(&self) -> (r: usize)
        ensures
            r == self@.carousel.item_count,
    {
        self.carousel.item_count()
    }

    /// Whether indicator `index` is the one marked active.
    pub fn is_active(&self, index: usize) -> (r: bool)
        ensures
            r == (index == self@.carousel.current_index),
    {
        self.carousel.is_active(index)
    }

    pub fn phase(&self) -> (r: TimerPhase)
        ensures
            r == self@.phase,
    {
        self.phase
    }

    pub fn period_ms(&self) -> (r: u64)
        ensures
            r == self@.period_ms,
    {
        self.period_ms
    }

    /// The name of the last timer started.
    pub fn handle(&self) -> (r: u64)
        ensures
            r == self@.handle,
    {
        self.handle
    }

    fn fresh_handle(&self) -> (r: u64)
        ensures
            r == next_handle(self.handle),
    {
        if self.handle == u64::MAX { 0 } else { self.handle + 1 }
    }

    /// Takes one event, and returns what the host must do about its timer.
    pub fn step(&mut self, event: TimerEvent) -> (r: TimerAction)
        requires
            old(self)@.wf(),
        ensures
            (final(self)@, r) == old(self)@.step(event),
            final(self)@.wf(),
    {
        match self.phase {
            TimerPhase::Idle => match event {
                TimerEvent::Mount => {
                    let h = self.fresh_handle();
                    self.phase = TimerPhase::Running;
                    self.handle = h;
                    TimerAction::Start { handle: h, period_ms: self.period_ms }
                },
                TimerEvent::Tick { handle: _ } => TimerAction::Nothing,
                TimerEvent::Select { index } => {
                    self.carousel.select(index);
                    TimerAction::Nothing
                },
                TimerEvent::Unmount => {
                    self.phase = TimerPhase::Unmounted;
                    TimerAction::Nothing
                },
            },
            TimerPhase::Running => match event {
                TimerEvent::Mount => TimerAction::Nothing,
                TimerEvent::Tick { handle } => {
                    if handle == self.handle {
                        self.carousel.advance();
                    }
                    TimerAction::Nothing
                },
                TimerEvent::Select { index } => {
                    if index < self.carousel.item_count() {
                        let cancel = self.handle;
                        let h = self.fresh_handle();
                        self.carousel.select(index);
                        self.handle = h;
                        TimerAction::Restart { cancel, start: h, period_ms: self.period_ms }
                    } else {
                        TimerAction::Nothing
                    }
                },
                TimerEvent::Unmount => {
                    self.phase = TimerPhase::Unmounted;
                    TimerAction::Cancel { handle: self.handle }
                },
            },
            TimerPhase::Unmounted => TimerAction::Nothing,
        }
    }
}

} // verus!
