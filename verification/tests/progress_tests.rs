use prog_rs::clock::{saturate_nanos, Clock};
use prog_rs::progress::{
    columns_of, resolve_display_width, BarPosition, Fraction, OutputStream, Progress,
    WithProgress,
};

fn percent(part: u64, whole: u64) -> String {
    let mut out = String::new();
    Fraction::new(part, whole).push_percent(&mut out);
    out
}

#[test]
fn empty_bar_of_ten_cells() {
    let progress = Progress::new().with_bar_width(10);
    let (body, void, head) = progress.bar_shape(Fraction::new(0, 1));
    assert_eq!((body, head, void), (0, 1, 10));
}

#[test]
fn full_bar_of_ten_cells() {
    let progress = Progress::new().with_bar_width(10);
    let (body, void, head) = progress.bar_shape(Fraction::complete());
    assert_eq!((body, head, void), (11, 0, 0));
}

#[test]
fn the_runs_of_a_bar_fill_its_cells() {
    for bar_width in [0usize, 1, 2, 10, 40, 77] {
        let progress = Progress::new().with_bar_width(bar_width);
        for whole in [1u64, 3, 7, 100, 1000] {
            for part in 0..=whole {
                let (body, void, head) = progress.bar_shape(Fraction::new(part, whole));
                assert_eq!(body + head + void, bar_width + 1);
                assert!(head <= 1);
                assert_eq!(head == 0, body == bar_width + 1);
            }
        }
    }
}

#[test]
fn the_body_is_the_nearest_number_of_cells() {
    let progress = Progress::new().with_bar_width(10);
    assert_eq!(progress.bar_shape(Fraction::new(1, 2)), (6, 4, 1));
    assert_eq!(progress.bar_shape(Fraction::new(1, 3)), (4, 6, 1));
    assert_eq!(progress.bar_shape(Fraction::new(1, 100)), (0, 10, 1));
    assert_eq!(progress.bar_shape(Fraction::new(95, 100)), (10, 0, 1));
    assert_eq!(progress.bar_shape(Fraction::new(96, 100)), (11, 0, 0));
    assert_eq!(Fraction::new(1, 2).fill(11), 6);
    assert_eq!(Fraction::new(u64::MAX, u64::MAX).fill(usize::MAX), usize::MAX);
}

#[test]
fn a_fraction_beyond_one_fills_the_bar() {
    let progress = Progress::new().with_bar_width(10);
    assert_eq!(progress.bar_shape(Fraction::new(5, 2)), (11, 0, 0));
    assert_eq!(progress.bar_shape(Fraction::new(u64::MAX, 1)), (11, 0, 0));
}

#[test]
fn a_fraction_of_nothing() {
    let progress = Progress::new().with_bar_width(10);
    assert_eq!(progress.bar_shape(Fraction::new(0, 0)), (0, 10, 1));
    assert_eq!(progress.bar_shape(Fraction::new(3, 0)), (11, 0, 0));
    assert_eq!(percent(0, 0), "  NaN");
    assert_eq!(percent(3, 0), "  inf");
}

#[test]
fn a_bar_without_width_has_one_cell() {
    let progress = Progress::new().with_bar_width(0).with_display_width(13);
    assert_eq!(progress.bar_shape(Fraction::new(0, 1)), (0, 0, 1));
    assert_eq!(progress.bar_shape(Fraction::new(1, 1)), (1, 0, 0));
    assert_eq!(progress.render(Fraction::new(0, 1), 13), "\r   0.0% [>] ");
}

#[test]
fn percentages() {
    assert_eq!(percent(0, 1), "  0.0");
    assert_eq!(percent(1, 2), " 50.0");
    assert_eq!(percent(1, 3), " 33.3");
    assert_eq!(percent(2, 3), " 66.7");
    assert_eq!(percent(1, 1), "100.0");
    assert_eq!(percent(1, 2000), "  0.1");
    assert_eq!(percent(1, 2001), "  0.0");
    assert_eq!(percent(3, 2), "150.0");
    assert_eq!(percent(12, 1), "1200.0");
}

#[test]
fn a_new_bar_has_the_default_settings() {
    let progress = Progress::new();
    assert_eq!(progress.output_stream(), OutputStream::StdOut);
    let expected = format!("\r {}% [{}{}] {}", "  0.0", ">", " ".repeat(40), " ".repeat(27));
    assert_eq!(progress.render(Fraction::new(0, 1), 80), expected);
    assert_eq!(expected.chars().count(), 80);
}

#[test]
fn line_with_the_bar_on_the_left() {
    let progress = Progress::new()
        .with_bar_width(10)
        .with_prefix("load")
        .with_extra_infos("3/6")
        .with_bar_position(BarPosition::Left);
    let text = progress.render(Fraction::new(1, 2), 40);
    assert_eq!(text, "\rload  50.0% [======>    ] 3/6          ");
    assert_eq!(text.chars().count(), 40);
}

#[test]
fn line_with_the_bar_on_the_right() {
    let progress = Progress::new()
        .with_bar_width(10)
        .with_prefix("load")
        .with_extra_infos("3/6")
        .with_bar_position(BarPosition::Right);
    let text = progress.render(Fraction::new(1, 2), 40);
    assert_eq!(text, "\rload           3/6 [======>    ]  50.0%");
    assert_eq!(text.chars().count(), 40);
}

#[test]
fn line_with_other_shapes() {
    let progress = Progress::new()
        .with_bar_width(4)
        .with_shape_body('#')
        .with_shape_head('@')
        .with_shape_void('.');
    assert_eq!(progress.render(Fraction::new(2, 5), 17), "\r  40.0% [##@..] ");
    assert_eq!(progress.render(Fraction::new(1, 1), 17), "\r 100.0% [#####] ");
}

#[test]
fn a_long_prefix_is_cut_from_the_right() {
    let progress = Progress::new().with_bar_width(10).with_prefix("Processing");
    // The whole line takes 33 columns.
    assert_eq!(progress.render(Fraction::new(0, 1), 33), "\rProcessing   0.0% [>          ] ");
    let cut = progress.render(Fraction::new(0, 1), 28);
    assert_eq!(cut, "\rProce   0.0% [>          ] ");
    assert_eq!(cut.chars().count(), 28);
    let bare = progress.render(Fraction::new(0, 1), 23);
    assert_eq!(bare, "\r   0.0% [>          ] ");
    assert_eq!(bare.chars().count(), 23);
}

#[test]
fn a_prefix_that_is_too_short_to_cut_is_dropped() {
    let progress = Progress::new().with_bar_width(10).with_prefix("Processing");
    let text = progress.render(Fraction::new(0, 1), 22);
    assert_eq!(text, "\r   0.0% [>          ] ");
    let narrow = progress.render(Fraction::new(0, 1), 0);
    assert_eq!(narrow, "\r   0.0% [>          ] ");
}

#[test]
fn the_extra_informations_are_never_cut() {
    let progress = Progress::new()
        .with_bar_width(2)
        .with_prefix("ab")
        .with_extra_infos("a long annotation");
    assert_eq!(progress.render(Fraction::new(1, 1), 5), "\r 100.0% [===] a long annotation");
}

#[test]
fn the_line_fills_the_display_when_it_fits() {
    for position in [BarPosition::Left, BarPosition::Right] {
        let progress = Progress::new()
            .with_bar_width(12)
            .with_prefix("prefix")
            .with_extra_infos("extra")
            .with_bar_position(position);
        // 12 + 6 + 5 + 13 columns with the whole prefix, 30 without it.
        for display in 0..80usize {
            let text = progress.render(Fraction::new(1, 4), display);
            let expected = if display >= 30 { display } else { 30 };
            assert_eq!(text.chars().count(), expected);
        }
    }
}

#[test]
fn lengths_are_counted_in_characters() {
    let progress = Progress::new().with_bar_width(2).with_prefix("\u{e9}t\u{e9}");
    let text = progress.render(Fraction::new(0, 1), 17);
    assert_eq!(text, "\r\u{e9}t   0.0% [>  ] ");
    assert_eq!(text.chars().count(), 17);
}

#[test]
fn display_width_falls_back_to_the_detected_width_then_to_eighty() {
    assert_eq!(resolve_display_width(Some(120), Some(100)), 120);
    assert_eq!(resolve_display_width(Some(120), None), 120);
    assert_eq!(resolve_display_width(None, Some(100)), 100);
    assert_eq!(resolve_display_width(None, None), 80);
    assert_eq!(Progress::new().with_display_width(33).display_width(), 33);
    assert_eq!(Progress::new().with_display_width(33).detect_width(), None);
}

#[test]
fn a_new_bar_needs_a_refresh() {
    let progress = Progress::new();
    assert!(progress.need_refresh());
    assert!(progress.need_refresh_at(0));
    assert!(progress.need_refresh_at(u64::MAX));
}

#[test]
fn a_drawn_bar_needs_no_refresh_until_the_delay_has_passed() {
    let mut progress = Progress::new().with_display_width(60);
    let drawn = progress.update_at(Fraction::new(1, 4), 1_000, None);
    assert!(drawn.is_some());
    assert!(!progress.need_refresh_at(1_000));
    assert!(!progress.need_refresh_at(200_000_999));
    assert!(progress.need_refresh_at(200_001_000));
    assert!(progress.need_refresh_at(900_000_000));
    // A clock that runs backwards makes no time pass.
    assert!(!progress.need_refresh_at(5));
}

#[test]
fn an_update_within_the_delay_gives_no_line() {
    let mut progress = Progress::new().with_display_width(30).with_bar_width(5);
    let first = progress.update_at(Fraction::new(0, 1), 10, None);
    assert_eq!(first, Some(String::from("\r   0.0% [>     ]             ")));
    assert_eq!(progress.update_at(Fraction::new(1, 2), 20, None), None);
    // The time of the last redraw has not moved.
    assert!(progress.need_refresh_at(200_000_010));
    let third = progress.update_at(Fraction::new(1, 2), 200_000_010, None);
    assert_eq!(third, Some(String::from("\r  50.0% [===>  ]             ")));
    assert!(!progress.need_refresh_at(200_000_020));
}

#[test]
fn an_update_uses_the_detected_width_without_a_fixed_one() {
    let mut progress = Progress::new().with_bar_width(5).with_refresh_delay(0);
    let detected = progress.update_at(Fraction::new(0, 1), 0, Some(20)).unwrap();
    assert_eq!(detected.chars().count(), 20);
    let default = progress.update_at(Fraction::new(0, 1), 0, None).unwrap();
    assert_eq!(default.chars().count(), 80);
    let mut fixed = progress.with_display_width(25);
    let text = fixed.update_at(Fraction::new(0, 1), 0, Some(20)).unwrap();
    assert_eq!(text.chars().count(), 25);
}

#[test]
fn finishing_draws_the_full_bar_and_one_end_of_line() {
    let mut progress = Progress::new().with_display_width(30).with_bar_width(5);
    assert!(progress.update_at(Fraction::new(1, 2), 100, None).is_some());
    // No redraw is due, but finishing draws all the same.
    let text = progress.finished_at(150, None);
    assert_eq!(text, "\r 100.0% [======]             \n");
    assert!(!progress.need_refresh_at(200));
    // Finishing again draws again.
    assert_eq!(progress.finished_at(160, None), text);
}

#[test]
fn set_extra_infos_replaces_the_text() {
    let mut progress = Progress::new().with_bar_width(1).with_extra_infos("one");
    progress.set_extra_infos("two");
    assert_eq!(progress.render(Fraction::new(1, 1), 0), "\r 100.0% [==] two");
}

#[test]
fn update_and_finished_read_the_clock_of_the_bar() {
    let mut progress = Progress::new()
        .with_display_width(30)
        .with_bar_width(5)
        .with_refresh_delay(3_600_000_000_000);
    let first = progress.update(Fraction::new(0, 1));
    assert_eq!(first, Some(String::from("\r   0.0% [>     ]             ")));
    assert_eq!(progress.update(Fraction::new(1, 2)), None);
    assert!(!progress.need_refresh());
    assert_eq!(progress.finished(), "\r 100.0% [======]             \n");
    let mut eager = Progress::new().with_display_width(30).with_refresh_delay(0);
    assert!(eager.update(Fraction::new(0, 1)).is_some());
    assert!(eager.update(Fraction::new(0, 1)).is_some());
}

#[test]
fn a_clone_has_the_same_settings() {
    let progress = Progress::new().with_bar_width(3).with_prefix("p").with_output_stream(
        OutputStream::StdErr,
    );
    let copy = progress.clone();
    assert_eq!(copy.output_stream(), OutputStream::StdErr);
    assert_eq!(copy.render(Fraction::new(1, 2), 0), progress.render(Fraction::new(1, 2), 0));
    assert_eq!(copy.render(Fraction::new(1, 2), 17), "\rp  50.0% [==> ] ");
}

#[test]
fn of_a_terminal_size_the_columns_count() {
    assert_eq!(columns_of(Some((120, 40))), Some(120));
    assert_eq!(columns_of(Some((0, 7))), Some(0));
    assert_eq!(columns_of(None), None);
    assert_eq!(resolve_display_width(None, columns_of(Some((132, 50)))), 132);
}

#[test]
fn a_clock_reading_fits_in_64_bits() {
    assert_eq!(saturate_nanos(0), 0);
    assert_eq!(saturate_nanos(1_500_000_000), 1_500_000_000);
    assert_eq!(saturate_nanos(u64::MAX as u128), u64::MAX);
    assert_eq!(saturate_nanos(u64::MAX as u128 + 1), u64::MAX);
    assert_eq!(saturate_nanos(u128::MAX), u64::MAX);
    let clock = Clock::start();
    let first = clock.now();
    let second = clock.now();
    assert!(first <= second);
}
