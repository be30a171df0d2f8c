use freyr::carousel::{
    container_class, indicator_class, indicator_number, CarouselItem, CarouselSize, CarouselState,
    IndicatorStyle,
};
use freyr::carousel_timer::{timer_period_ms, TimedCarousel, TimerAction, TimerEvent, TimerPhase};

fn mounted(count: usize, period_ms: u64) -> (TimedCarousel, u64) {
    let mut c = TimedCarousel::new(count, period_ms).unwrap();
    match c.step(TimerEvent::Mount) {
        TimerAction::Start { handle, period_ms: p } => {
            assert_eq!(p, period_ms);
            (c, handle)
        }
        other => panic!("mount answered {:?}", other),
    }
}

#[test]
fn empty_list_has_no_carousel() {
    assert!(CarouselState::new(0).is_none());
    assert!(TimedCarousel::new(0, 5000).is_none());
}

#[test]
fn new_carousel_shows_first_item() {
    let c = CarouselState::new(3).unwrap();
    assert_eq!(c.current_index(), 0);
    assert_eq!(c.item_count(), 3);
    assert!(c.is_active(0));
    assert!(!c.is_active(1));
}

#[test]
fn select_sets_exact_index() {
    let mut c = CarouselState::new(4).unwrap();
    assert!(c.select(2));
    assert_eq!(c.current_index(), 2);
    assert!(c.select(2));
    assert_eq!(c.current_index(), 2);
    assert!(c.select(0));
    assert_eq!(c.current_index(), 0);
}

#[test]
fn select_out_of_range_changes_nothing() {
    let mut c = CarouselState::new(3).unwrap();
    c.select(1);
    assert!(!c.select(3));
    assert!(!c.select(usize::MAX));
    assert_eq!(c.current_index(), 1);
}

#[test]
fn advance_wraps_after_last() {
    let mut c = CarouselState::new(3).unwrap();
    c.advance();
    assert_eq!(c.current_index(), 1);
    c.advance();
    assert_eq!(c.current_index(), 2);
    c.advance();
    assert_eq!(c.current_index(), 0);
}

#[test]
fn single_item_stays_on_it() {
    let mut c = CarouselState::new(1).unwrap();
    c.advance();
    c.advance();
    assert_eq!(c.current_index(), 0);
}

#[test]
fn index_stays_in_range_over_many_events() {
    let (mut c, h) = mounted(5, 1000);
    for k in 0..50usize {
        let e = match k % 4 {
            0 => TimerEvent::Tick { handle: c.handle() },
            1 => TimerEvent::Select { index: k % 7 },
            2 => TimerEvent::Tick { handle: h },
            _ => TimerEvent::Mount,
        };
        c.step(e);
        assert!(c.current_index() < 5);
    }
}

#[test]
fn ticks_advance_modulo_count() {
    let (mut c, h) = mounted(3, 5000);
    for k in 1..=10usize {
        assert_eq!(c.step(TimerEvent::Tick { handle: h }), TimerAction::Nothing);
        assert_eq!(c.current_index(), k % 3);
    }
    assert_eq!(c.phase(), TimerPhase::Running);
    assert_eq!(c.handle(), h);
}

#[test]
fn ticks_before_mount_do_nothing() {
    let mut c = TimedCarousel::new(3, 5000).unwrap();
    assert_eq!(c.step(TimerEvent::Tick { handle: 0 }), TimerAction::Nothing);
    assert_eq!(c.step(TimerEvent::Tick { handle: 1 }), TimerAction::Nothing);
    assert_eq!(c.current_index(), 0);
    assert_eq!(c.phase(), TimerPhase::Idle);
}

#[test]
fn second_mount_starts_no_second_timer() {
    let (mut c, h) = mounted(3, 5000);
    assert_eq!(c.step(TimerEvent::Mount), TimerAction::Nothing);
    assert_eq!(c.handle(), h);
}

#[test]
fn click_restarts_countdown() {
    let (mut c, h) = mounted(3, 5000);
    c.step(TimerEvent::Tick { handle: h });
    let a = c.step(TimerEvent::Select { index: 0 });
    let fresh = c.handle();
    assert_ne!(fresh, h);
    assert_eq!(a, TimerAction::Restart { cancel: h, start: fresh, period_ms: 5000 });
    assert_eq!(c.current_index(), 0);
    // a firing of the cancelled timer changes nothing
    c.step(TimerEvent::Tick { handle: h });
    assert_eq!(c.current_index(), 0);
    c.step(TimerEvent::Tick { handle: fresh });
    assert_eq!(c.current_index(), 1);
}

#[test]
fn click_on_active_indicator_keeps_item() {
    let (mut c, _) = mounted(3, 5000);
    c.step(TimerEvent::Select { index: 2 });
    c.step(TimerEvent::Select { index: 2 });
    assert_eq!(c.current_index(), 2);
}

#[test]
fn click_out_of_range_keeps_timer() {
    let (mut c, h) = mounted(3, 5000);
    assert_eq!(c.step(TimerEvent::Select { index: 3 }), TimerAction::Nothing);
    assert_eq!(c.handle(), h);
    assert_eq!(c.current_index(), 0);
}

#[test]
fn unmount_cancels_and_freezes() {
    let (mut c, h) = mounted(3, 5000);
    c.step(TimerEvent::Tick { handle: h });
    assert_eq!(c.step(TimerEvent::Unmount), TimerAction::Cancel { handle: h });
    assert_eq!(c.phase(), TimerPhase::Unmounted);
    for e in [
        TimerEvent::Tick { handle: h },
        TimerEvent::Tick { handle: h },
        TimerEvent::Select { index: 2 },
        TimerEvent::Mount,
        TimerEvent::Unmount,
    ] {
        assert_eq!(c.step(e), TimerAction::Nothing);
        assert_eq!(c.current_index(), 1);
        assert_eq!(c.phase(), TimerPhase::Unmounted);
    }
}

#[test]
fn unmount_before_mount_asks_nothing() {
    let mut c = TimedCarousel::new(2, 100).unwrap();
    assert_eq!(c.step(TimerEvent::Unmount), TimerAction::Nothing);
    assert_eq!(c.step(TimerEvent::Mount), TimerAction::Nothing);
    assert_eq!(c.phase(), TimerPhase::Unmounted);
}

#[test]
fn three_items_five_second_scenario() {
    // t=0: mounted, item A
    let (mut c, h) = mounted(3, 5000);
    assert_eq!(c.current_index(), 0);
    // t=5000: the timer fires, item B
    c.step(TimerEvent::Tick { handle: h });
    assert_eq!(c.current_index(), 1);
    // t=7000: indicator 0 clicked, item A at once, countdown restarted
    let a = c.step(TimerEvent::Select { index: 0 });
    let h2 = c.handle();
    assert_eq!(a, TimerAction::Restart { cancel: h, start: h2, period_ms: 5000 });
    assert_eq!(c.current_index(), 0);
    // t=12000: the restarted timer fires, item B
    c.step(TimerEvent::Tick { handle: h2 });
    assert_eq!(c.current_index(), 1);
}

#[test]
fn period_from_seconds() {
    assert_eq!(timer_period_ms(5), Some(5000));
    assert_eq!(timer_period_ms(0), Some(0));
    assert_eq!(timer_period_ms(u64::MAX / 1000), Some(u64::MAX / 1000 * 1000));
    assert_eq!(timer_period_ms(u64::MAX / 1000 + 1), None);
}

#[test]
fn timed_carousel_accessors() {
    let c = TimedCarousel::new(4, 250).unwrap();
    assert_eq!(c.item_count(), 4);
    assert_eq!(c.period_ms(), 250);
    assert_eq!(c.phase(), TimerPhase::Idle);
    assert!(c.is_active(0));
}

#[test]
fn indicator_classes() {
    assert_eq!(indicator_class(IndicatorStyle::Dot, true), "carousel-dot active");
    assert_eq!(indicator_class(IndicatorStyle::Dot, false), "carousel-dot");
    assert_eq!(indicator_class(IndicatorStyle::Number, true), "carousel-number active");
    assert_eq!(indicator_class(IndicatorStyle::Number, false), "carousel-number");
    assert_eq!(indicator_number(0), 1);
    assert_eq!(indicator_number(2), 3);
}

#[test]
fn container_classes() {
    assert_eq!(container_class(None), "carousel-container carousel-container-default");
    assert_eq!(
        container_class(Some(String::from("w-full rounded-lg"))),
        "carousel-container w-full rounded-lg"
    );
}

#[test]
fn carousel_sizes() {
    assert_eq!(CarouselSize::Small.to_css_size(), "width: 300px; height: 200px;");
    assert_eq!(CarouselSize::Medium.to_css_size(), "width: 600px; height: 400px;");
    assert_eq!(CarouselSize::Large.to_css_size(), "width: 900px; height: 600px;");
}

#[test]
fn carousel_item_alt_text() {
    let a = CarouselItem::new("/assets/one.jpg", Some(String::from("Image 1")));
    assert_eq!(a.image_url, "/assets/one.jpg");
    assert_eq!(a.alt_text(), "Image 1");
    let b = CarouselItem::new("/assets/two.jpg", None);
    assert_eq!(b.alt_text(), "");
    assert_eq!(b.caption, None);
}
