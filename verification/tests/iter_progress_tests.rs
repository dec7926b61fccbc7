use prog_rs::prelude::{WithProgress, WithStepProgress};
use prog_rs::IterProgress;

const SECOND: u64 = 1_000_000_000;

#[test]
fn ten_items_finish_once() {
    let mut items = 0..10;
    let mut progress = IterProgress::new(items.size_hint().0).with_display_width(80);
    assert_eq!(progress.max_step(), Some(10));
    let mut lines: Vec<String> = Vec::new();
    let mut pulled = 0;
    let mut now = 0;
    loop {
        let item = items.next();
        now += SECOND;
        if let Some(text) = progress.next_at(item.is_some(), items.size_hint().0, now, None) {
            lines.push(text);
        }
        if item.is_none() {
            break;
        }
        pulled += 1;
        assert_eq!(progress.cur_step(), pulled);
        assert_eq!(progress.max_step(), Some(10));
        assert!(!progress.is_finished());
    }
    assert_eq!(pulled, 10);
    assert!(progress.is_finished());
    assert_eq!(lines.len(), 11);
    let last = lines.pop().unwrap();
    let expected = format!(
        "\r {}% [{}] {}{}\n",
        "100.0",
        "=".repeat(41),
        "10/10, 11.0s (0.9 /s)",
        " ".repeat(6)
    );
    assert_eq!(last, expected);
    assert!(lines.iter().all(|line| !line.contains('\n')));
    assert_eq!(lines[4], format!(
        "\r {}% [{}>{}] {}{}",
        " 50.0",
        "=".repeat(21),
        " ".repeat(19),
        "5/10, 4.2s (1.2 /s)",
        " ".repeat(8)
    ));

    // Pulls after the end change nothing and write nothing.
    assert_eq!(progress.next_at(false, 0, now + SECOND, None), None);
    assert_eq!(progress.next_at(true, 3, now + 2 * SECOND, None), None);
    assert_eq!(progress.cur_step(), 10);
    assert_eq!(progress.max_step(), Some(10));
    assert!(progress.is_finished());
}

#[test]
fn the_expected_total_follows_the_hint() {
    // A filtered sequence knows of no item that it has left.
    let mut items = (0..6).filter(|n| n % 2 == 0);
    let mut progress = IterProgress::new(items.size_hint().0).with_display_width(0);
    assert_eq!(progress.max_step(), Some(0));
    let item = items.next();
    assert_eq!(item, Some(0));
    let line = progress.next_at(true, items.size_hint().0, SECOND, None).unwrap();
    assert_eq!(progress.max_step(), Some(1));
    assert_eq!(progress.cur_step(), 1);
    assert!(line.starts_with("\r 100.0% ["));
    assert!(line.ends_with("] 1/1, 0.0ns (2.0 /s)"));
    assert!(progress.next_at(true, 7, 2 * SECOND, None).is_some());
    assert_eq!(progress.max_step(), Some(9));
    assert_eq!(progress.cur_step(), 2);
}

#[test]
fn an_empty_sequence_finishes_at_the_first_pull() {
    let mut progress = IterProgress::new(0).with_display_width(0).with_bar_width(1);
    let text = progress.next_at(false, 0, 0, None).unwrap();
    assert_eq!(text, "\r 100.0% [==] 0/0, 0.0ns (0.0 /s)\n");
    assert!(progress.is_finished());
    assert_eq!(progress.next_at(false, 0, SECOND, None), None);
}

#[test]
fn pulls_read_the_clock_of_the_bar() {
    let mut progress = IterProgress::new(2)
        .with_display_width(0)
        .with_refresh_delay(3_600_000_000_000);
    assert!(progress.next(true, 1).is_some());
    assert_eq!(progress.next(true, 0), None);
    assert_eq!(progress.cur_step(), 2);
    let last = progress.next(false, 0).unwrap();
    assert!(last.ends_with('\n'));
    assert_eq!(progress.next(false, 0), None);
    let copy = progress.clone();
    assert!(copy.is_finished());
}
