use fightstick::inputs::InputMap;
use fightstick::schedule::panic_handler;
use fightstick::schedule::ReportQueue;

#[test]
fn test_queue_drains_in_order_then_resamples() {
    // Eight pressed buttons encode to two reports.
    let (reports, count) = InputMap::new(0b1111_1111).into_keyboard_reports();
    assert_eq!(count, 2);

    let mut queue = ReportQueue::new();
    queue.load(&reports, count);
    assert_eq!(queue.pop(), Some(reports[0]));
    assert_eq!(queue.pop(), Some(reports[1]));
    assert_eq!(queue.pop(), None);

    // The queue is drained, so the next tick takes the fresh sample.
    let out = queue.tick(InputMap::new(0b1));
    assert_eq!(out.keycodes, [0x29, 0, 0, 0, 0, 0]);
}

#[test]
fn test_tick_ignores_samples_while_draining() {
    let mut queue = ReportQueue::new();

    // First tick: queue empty, the sample with eight buttons loads two
    // reports and the first goes out.
    let first = queue.tick(InputMap::new(0b1111_1111));
    assert_eq!(first.keycodes, [0x29, 0x35, 0x1a, 0x16, 0x04, 0x07]);
    assert_eq!(queue.len(), 1);

    // Second tick: a different sample arrives but the old sequence is
    // still draining, so its second report goes out unchanged.
    let second = queue.tick(InputMap::new(0b10));
    assert_eq!(second.keycodes, [0x18, 0x0c, 0, 0, 0, 0]);
    assert!(queue.is_empty());

    // Third tick: drained, so the new sample is taken.
    let third = queue.tick(InputMap::new(0b10));
    assert_eq!(third.keycodes, [0x35, 0, 0, 0, 0, 0]);
    assert!(queue.is_empty());
}

#[test]
fn test_tick_idle_sends_all_zero_report() {
    let mut queue = ReportQueue::new();
    let out = queue.tick(InputMap::new(0));
    assert_eq!(out.modifier, 0);
    assert_eq!(out.reserved, 0);
    assert_eq!(out.leds, 0);
    assert_eq!(out.keycodes, [0, 0, 0, 0, 0, 0]);
    assert!(queue.is_empty());
}

#[test]
fn test_single_report_drains_same_tick() {
    let mut queue = ReportQueue::new();
    let out = queue.tick(InputMap::new(0b1));
    assert_eq!(out.keycodes, [0x29, 0, 0, 0, 0, 0]);
    // count was 1, so the queue is already empty again.
    assert!(queue.is_empty());
}

#[test]
fn test_queue_new_is_empty() {
    let mut queue = ReportQueue::new();
    assert!(queue.is_empty());
    assert_eq!(queue.len(), 0);
    assert_eq!(queue.pop(), None);
}

#[test]
fn test_panic_handler_clears_queue() {
    let mut queue = ReportQueue::new();
    let (reports, count) = InputMap::new(0xffff).into_keyboard_reports();
    queue.load(&reports, count);
    assert_eq!(queue.len(), 3);

    let out = panic_handler(&mut queue);
    assert_eq!(out.keycodes, [0, 0, 0, 0, 0, 0]);
    assert_eq!(out.modifier, 0);
    assert!(queue.is_empty());
    assert_eq!(queue.pop(), None);
}
