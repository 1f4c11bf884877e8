use swinder::debounce::{settle_samples, ButtonEdge, Debouncer};
use swinder::input::{Button, InputEvent, InputHandler, InputSample, QuadratureDecoder};
use swinder::queue::EventQueue;
use swinder::{BUTTON_DELAY_MS};

fn feed(d: &mut Debouncer, level: bool, n: usize) -> Vec<ButtonEdge> {
    let mut out = Vec::new();
    for _ in 0..n {
        if let Some(e) = d.sample(level) {
            out.push(e);
        }
    }
    out
}

#[test]
fn short_press_reports_nothing() {
    let mut d = Debouncer::new(5);
    assert!(feed(&mut d, true, 4).is_empty());
    assert!(feed(&mut d, false, 10).is_empty());
}

#[test]
fn long_press_reports_one_press_and_one_release() {
    let mut d = Debouncer::new(5);
    assert_eq!(feed(&mut d, true, 12), vec![ButtonEdge::Pressed]);
    assert_eq!(feed(&mut d, false, 12), vec![ButtonEdge::Released]);
}

#[test]
fn bounce_restarts_the_settle_count() {
    let mut d = Debouncer::new(3);
    assert!(feed(&mut d, true, 2).is_empty());
    assert!(feed(&mut d, false, 1).is_empty());
    assert!(feed(&mut d, true, 2).is_empty());
    assert_eq!(feed(&mut d, true, 1), vec![ButtonEdge::Pressed]);
}

#[test]
fn settle_samples_round_up() {
    assert_eq!(settle_samples(BUTTON_DELAY_MS, 10), 20);
    assert_eq!(settle_samples(201, 10), 21);
    assert_eq!(settle_samples(0, 10), 1);
    assert_eq!(settle_samples(5, 10), 1);
}

#[test]
fn encoder_counts_both_ways() {
    let mut q = QuadratureDecoder::new(false, false);
    assert_eq!(q.update(false, true), 1);
    assert_eq!(q.update(true, true), 1);
    assert_eq!(q.update(true, false), 1);
    assert_eq!(q.update(false, false), 1);
    assert_eq!(q.update(true, false), -1);
    assert_eq!(q.update(true, false), 0);
}

#[test]
fn encoder_drops_double_change() {
    let mut q = QuadratureDecoder::new(false, false);
    assert_eq!(q.update(true, true), 0);
    assert_eq!(q, QuadratureDecoder::new(true, true));
}

#[test]
fn handler_reports_events_in_order() {
    let mut h = InputHandler::new(1, false, false);
    let s = InputSample {
        up: true,
        down: false,
        select: true,
        left: false,
        right: false,
        encoder_a: false,
        encoder_b: true,
    };
    assert_eq!(
        h.poll(s),
        vec![
            InputEvent::ButtonPressed(Button::Up),
            InputEvent::ButtonPressed(Button::Select),
            InputEvent::EncoderDelta(1)
        ]
    );
    let s2 = InputSample { up: false, select: true, ..s };
    assert_eq!(h.poll(s2), vec![InputEvent::ButtonReleased(Button::Up)]);
}

#[test]
fn full_queue_drops_oldest() {
    let mut q = EventQueue::new(2);
    q.push(InputEvent::EncoderDelta(1));
    q.push(InputEvent::EncoderDelta(2));
    assert_eq!(q.dropped, 0);
    q.push(InputEvent::EncoderDelta(3));
    assert_eq!(q.dropped, 1);
    assert_eq!(q.len(), 2);
    assert_eq!(q.drain(), vec![InputEvent::EncoderDelta(2), InputEvent::EncoderDelta(3)]);
    assert_eq!(q.len(), 0);
}

#[test]
fn push_all_keeps_arrival_order() {
    let mut q = EventQueue::new(4);
    let es = vec![InputEvent::ButtonPressed(Button::Left), InputEvent::ButtonReleased(Button::Left)];
    q.push_all(&es);
    assert_eq!(q.drain(), es);
}

#[test]
fn push_all_past_capacity_keeps_newest() {
    let mut q = EventQueue::new(2);
    let es = vec![
        InputEvent::EncoderDelta(1),
        InputEvent::EncoderDelta(2),
        InputEvent::EncoderDelta(3),
        InputEvent::EncoderDelta(4),
    ];
    q.push_all(&es);
    assert_eq!(q.dropped, 2);
    assert_eq!(q.drain(), vec![InputEvent::EncoderDelta(3), InputEvent::EncoderDelta(4)]);
}
