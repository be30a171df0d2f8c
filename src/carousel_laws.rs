//! What holds of every run of a carousel, proved over the step function that
//! `TimedCarousel::step` and the methods of `CarouselState` are held to.
use vstd::prelude::*;
use crate::carousel::CarouselView;
use crate::carousel_timer::{initial_timer_view, TimerAction, TimerEvent, TimerPhase, TimerView};

verus! {

/// `k` firings of the timer named `handle`.
pub open spec fn ticks(handle: u64, k: nat) -> Seq<TimerEvent> {
    Seq::new(k, |j: int| TimerEvent::Tick { handle })
}

/// One event keeps the number of items, and keeps the shown index among them.
pub proof fn lemma_step_keeps_range(s: TimerView, e: TimerEvent)
    requires
        s.wf(),
    ensures
        s.step(e).0.wf(),
        s.step(e).0.carousel.item_count == s.carousel.item_count,
        s.step(e).0.period_ms == s.period_ms,
{
}

/// Events in any number and order keep the number of items, and keep the
/// shown index among them.
pub proof fn lemma_run_keeps_range(s: TimerView, events: Seq<TimerEvent>)
    requires
        s.wf(),
    ensures
        s.run(events).wf(),
        s.run(events).carousel.item_count == s.carousel.item_count,
        s.run(events).period_ms == s.period_ms,
    decreases events.len(),
{
    if events.len() > 0 {
        lemma_run_keeps_range(s, events.drop_last());
        lemma_step_keeps_range(s.run(events.drop_last()), events.last());
    }
}

/// For a non-empty list of `item_count` items, the shown index stays in
/// `[0, item_count)` whatever events arrive.
pub proof fn lemma_index_in_range(item_count: nat, period_ms: u64, events: Seq<TimerEvent>)
    requires
        item_count > 0,
    ensures
        initial_timer_view(item_count, period_ms).run(events).carousel.current_index < item_count,
{
    lemma_run_keeps_range(initial_timer_view(item_count, period_ms), events);
}

/// Clicking indicator `index` shows exactly item `index`; clicking the
/// indicator already active leaves the carousel as it was.
pub proof fn lemma_select_shows_index(c: CarouselView, index: nat)
    requires
        c.wf(),
        index < c.item_count,
    ensures
        c.select(index).current_index == index,
        c.select(index).item_count == c.item_count,
        c.select(c.current_index) == c,
{
}

/// With the timer idle or running, clicking indicator `index` shows exactly
/// item `index`, and a second click on it shows the same item.
pub proof fn lemma_click_shows_index(s: TimerView, index: usize)
    requires
        s.wf(),
        s.phase != TimerPhase::Unmounted,
        (index as nat) < s.carousel.item_count,
    ensures
        s.step(TimerEvent::Select { index }).0.carousel.current_index == index,
        s.step(TimerEvent::Select { index }).0.step(TimerEvent::Select { index }).0.carousel
            == s.step(TimerEvent::Select { index }).0.carousel,
{
}

/// While the timer runs and nobody clicks, `k` firings of it move the shown
/// index from `i` to `(i + k) mod n`, and the same timer keeps running.
pub proof fn lemma_ticks_advance(s: TimerView, k: nat)
    requires
        s.wf(),
        s.phase == TimerPhase::Running,
    ensures
        s.run(ticks(s.handle, k)).carousel.current_index == (s.carousel.current_index + k)
            % s.carousel.item_count,
        s.run(ticks(s.handle, k)).carousel.item_count == s.carousel.item_count,
        s.run(ticks(s.handle, k)).phase == TimerPhase::Running,
        s.run(ticks(s.handle, k)).handle == s.handle,
    decreases k,
{
    let n = s.carousel.item_count as int;
    if k == 0 {
        vstd::arithmetic::div_mod::lemma_small_mod(s.carousel.current_index, s.carousel.item_count);
    } else {
        let evs = ticks(s.handle, k);
        assert(evs.drop_last() =~= ticks(s.handle, (k - 1) as nat));
        lemma_ticks_advance(s, (k - 1) as nat);
        let prev = s.run(ticks(s.handle, (k - 1) as nat));
        vstd::arithmetic::div_mod::lemma_add_mod_noop_right(1, s.carousel.current_index + k - 1, n);
        assert(prev.carousel.current_index == (s.carousel.current_index + k - 1) % n);
        assert(s.run(evs) == prev.step(TimerEvent::Tick { handle: s.handle }).0);
    }
}

/// A click while the timer runs restarts the countdown: the running timer is
/// cancelled and one with a full period starts under a new name, so firings of
/// the cancelled timer change nothing, and the next advance comes one full
/// period after the click, from the new timer.
pub proof fn lemma_click_restarts_timer(s: TimerView, index: usize, k: nat)
    requires
        s.wf(),
        s.phase == TimerPhase::Running,
        (index as nat) < s.carousel.item_count,
    ensures
        ({
            let (t, a) = s.step(TimerEvent::Select { index });
            &&& a == TimerAction::Restart { cancel: s.handle, start: t.handle, period_ms: s.period_ms }
            &&& t.handle != s.handle
            &&& t.phase == TimerPhase::Running
            &&& t.run(ticks(s.handle, k)) == t
            &&& t.step(TimerEvent::Tick { handle: t.handle }).0.carousel.current_index == (index as nat + 1)
                % s.carousel.item_count
        }),
    decreases k,
{
    let t = s.step(TimerEvent::Select { index }).0;
    if k > 0 {
        assert(ticks(s.handle, k).drop_last() =~= ticks(s.handle, (k - 1) as nat));
        lemma_click_restarts_timer(s, index, (k - 1) as nat);
    }
}

/// Once unmounted, a carousel stays as it is whatever events arrive.
pub proof fn lemma_unmounted_stays(u: TimerView, events: Seq<TimerEvent>)
    requires
        u.phase == TimerPhase::Unmounted,
    ensures
        u.run(events) == u,
    decreases events.len(),
{
    if events.len() > 0 {
        lemma_unmounted_stays(u, events.drop_last());
    }
}

/// Unmounting cancels the running timer; after it no event changes the state
/// or asks the host for anything.
pub proof fn lemma_unmount_is_final(s: TimerView, events: Seq<TimerEvent>)
    requires
        s.wf(),
    ensures
        ({
            let (u, a) = s.step(TimerEvent::Unmount);
            &&& u.phase == TimerPhase::Unmounted
            &&& s.phase == TimerPhase::Running ==> a == TimerAction::Cancel { handle: s.handle }
            &&& s.phase != TimerPhase::Running ==> a == TimerAction::Nothing
            &&& u.run(events) == u
            &&& forall|i: int|
                0 <= i < events.len() ==> #[trigger] u.run(events.take(i)).step(events[i]) == (
                u,
                TimerAction::Nothing,
            )
        }),
{
    let u = s.step(TimerEvent::Unmount).0;
    lemma_unmounted_stays(u, events);
    assert forall|i: int| 0 <= i < events.len() implies #[trigger] u.run(events.take(i)).step(events[i]) == (
        u,
        TimerAction::Nothing,
    ) by {
        lemma_unmounted_stays(u, events.take(i));
    }
}

/// Timers never overlap: a timer is started bare only while none runs, and a
/// restart first cancels exactly the timer that runs.
pub proof fn lemma_one_timer_at_a_time(s: TimerView, e: TimerEvent)
    requires
        s.wf(),
    ensures
        s.step(e).1 matches TimerAction::Start { .. } ==> s.phase == TimerPhase::Idle,
        s.step(e).1 matches TimerAction::Restart { cancel, .. } ==> s.phase == TimerPhase::Running
            && cancel == s.handle,
        s.step(e).1 matches TimerAction::Cancel { handle } ==> s.phase == TimerPhase::Running
            && handle == s.handle,
{
}

} // verus!
