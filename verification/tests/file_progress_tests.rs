use prog_rs::file_progress::FileProgress;
use prog_rs::progress::WithProgress;
use prog_rs::step_progress::WithStepProgress;

const SECOND: u64 = 1_000_000_000;

#[test]
fn an_empty_source_finishes_at_the_first_read() {
    let mut progress = FileProgress::new(0).with_display_width(0).with_bar_width(1);
    assert!(!progress.is_finished());
    let text = progress.read_at(0, 0, None).unwrap();
    assert_eq!(text, "\r 100.0% [==] 0.00B/0.00B, 0.0ns (0.0 B/s)\n");
    assert!(progress.is_finished());
    assert_eq!(progress.cur_step(), 0);
}

#[test]
fn reads_count_bytes() {
    let mut progress = FileProgress::new(2_048).with_display_width(0).with_bar_width(2);
    assert_eq!(progress.max_step(), Some(2_048));
    let line = progress.read_at(1_024, SECOND, None).unwrap();
    assert_eq!(line, "\r  50.0% [==>] 1024.00B/2.00KiB, 999.0ms (1.0 KiB/s)");
    assert_eq!(progress.read_at(512, SECOND + 1, None), None);
    assert_eq!(progress.cur_step(), 1_536);
    assert!(progress.read_at(512, 2 * SECOND, None).is_some());
    assert_eq!(progress.cur_step(), 2_048);
    let last = progress.read_at(0, 3 * SECOND, None).unwrap();
    assert!(last.starts_with("\r 100.0% [===] 2.00KiB/2.00KiB, 3.0s ("));
    assert!(last.ends_with(")\n"));
    assert!(progress.is_finished());
}

#[test]
fn reads_after_the_end_change_nothing() {
    let mut progress = FileProgress::new(10).with_display_width(0);
    assert!(progress.read_at(10, SECOND, None).is_some());
    assert!(progress.read_at(0, 2 * SECOND, None).is_some());
    assert_eq!(progress.read_at(0, 3 * SECOND, None), None);
    assert_eq!(progress.read_at(5, 4 * SECOND, None), None);
    assert_eq!(progress.seek_at(100, 5 * SECOND, None), None);
    assert_eq!(progress.cur_step(), 10);
    assert!(progress.is_finished());
}

#[test]
fn a_seek_forward_counts_the_bytes_skipped() {
    let mut progress = FileProgress::new(1_000).with_display_width(0).with_bar_width(2);
    assert!(progress.read_at(100, SECOND, None).is_some());
    let line = progress.seek_at(600, 2 * SECOND, None).unwrap();
    assert_eq!(progress.cur_step(), 600);
    assert!(line.starts_with("\r  60.0% [==>] 600.00B/1000.00B, "));
}

#[test]
fn a_seek_backward_takes_nothing_back() {
    let mut progress = FileProgress::new(1_000).with_display_width(0);
    assert!(progress.read_at(500, SECOND, None).is_some());
    assert_eq!(progress.seek_at(100, 2 * SECOND, None), None);
    assert_eq!(progress.cur_step(), 500);
    assert_eq!(progress.seek_at(500, 3 * SECOND, None), None);
    assert_eq!(progress.cur_step(), 500);
    // Reading on from there counts again.
    assert!(progress.read_at(100, 4 * SECOND, None).is_some());
    assert_eq!(progress.cur_step(), 600);
}

#[test]
fn reads_and_seeks_read_the_clock_of_the_bar() {
    let mut progress = FileProgress::new(100)
        .with_display_width(0)
        .with_refresh_delay(3_600_000_000_000);
    assert!(progress.read(10).is_some());
    assert_eq!(progress.read(10), None);
    assert_eq!(progress.seek(50), None);
    assert_eq!(progress.seek(5), None);
    assert_eq!(progress.cur_step(), 50);
    let last = progress.read(0).unwrap();
    assert!(last.ends_with('\n'));
    assert_eq!(progress.read(0), None);
    assert_eq!(progress.seek(70), None);
}
