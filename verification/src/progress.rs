//! A progress bar that is updated by hand.
//!
//! [`Progress`] holds the display settings and the time of the last redraw.
//! A redraw computes the text of one line, which the caller writes to the
//! stream named by the settings.

use vstd::prelude::*;
use vstd::string::*;
use crate::clock::Clock;
use crate::text::{
    lemma_decimal_short, pad_left, push_padded, push_repeat, push_tenths, repeat, round_div,
    rounded_div, tenths,
};

verus! {

/// Width that the fixed parts of a line take: the carriage return, the
/// spaces, the brackets, the percentage with its sign, and the one cell that
/// a bar has more than its width.
pub const DECORATION_WIDTH: usize = 13;

/// Display width that is used where none is set and none is detected.
pub const DEFAULT_DISPLAY_WIDTH: usize = 80;

/// Width of the percentage field, the percent sign not counted.
pub const PERCENT_WIDTH: usize = 5;

/// Where the bar stands in the line.
#[derive(Clone, Copy, Debug, PartialEq, Eq, Structural)]
pub enum BarPosition {
    /// The bar floats right, with the extra informations on its left.
    Right,
    /// The bar stands on the left, just behind the prefix.
    Left,
}

/// The stream that a line is meant for.
#[derive(Clone, Copy, Debug, PartialEq, Eq, Structural)]
pub enum OutputStream {
    /// Standard output.
    StdOut,
    /// Standard error.
    StdErr,
}

/// Progress as a part of a whole: `part / whole`, meant to lie between 0
/// and 1.  A fraction with `whole == 0` has no value; it is drawn as an empty
/// bar where `part` is 0 too, and as a full bar otherwise.
#[derive(Clone, Copy, Debug, PartialEq, Eq, Structural)]
pub struct Fraction {
    pub part: u64,
    pub whole: u64,
}

impl Fraction {
    /// The number of cells, out of `cells`, that the fraction fills: the
    /// nearest integer to `part / whole * cells`, and at most `cells`.
    pub open spec fn filled(self, cells: nat) -> nat {
        if self.whole == 0 {
            if self.part == 0 {
                0
            } else {
                cells
            }
        } else {
            let exact = round_div(self.part as nat * cells, self.whole as nat);
            if exact <= cells {
                exact
            } else {
                cells
            }
        }
    }

    /// The fraction in tenths of a percent, rounded to the nearest.
    pub open spec fn per_mille(self) -> nat
        recommends
            self.whole > 0,
    {
        round_div(1000 * self.part as nat, self.whole as nat)
    }

    /// The percentage with one decimal place, right-aligned in its field.
    pub open spec fn percent_text(self) -> Seq<char> {
        if self.whole == 0 {
            if self.part == 0 {
                pad_left(seq!['N', 'a', 'N'], PERCENT_WIDTH as nat)
            } else {
                pad_left(seq!['i', 'n', 'f'], PERCENT_WIDTH as nat)
            }
        } else {
            pad_left(tenths(self.per_mille()), PERCENT_WIDTH as nat)
        }
    }

    /// Whether the fraction lies between 0 and 1.
    pub open spec fn in_unit_range(self) -> bool {
        self.whole > 0 && self.part <= self.whole
    }

    /// The fraction `part / whole`.
    pub fn new(part: u64, whole: u64) -> (f: Fraction)
        ensures
            f == (Fraction { part, whole }),
    {
        Fraction { part, whole }
    }

    /// The fraction 1: all done.
    pub fn complete() -> (f: Fraction)
        ensures
            f == (Fraction { part: 1, whole: 1 }),
    {
        Fraction { part: 1, whole: 1 }
    }

    /// The number of cells, out of `cells`, that the fraction fills.
    pub fn fill(self, cells: usize) -> (n: usize)
        ensures
            n == self.filled(cells as nat),
            n <= cells,
    {
        if self.whole == 0 {
            if self.part == 0 {
                0
            } else {
                cells
            }
        } else {
            assert(self.part as nat * cells as nat <= 0xffff_ffff_ffff_ffff
                * 0xffff_ffff_ffff_ffff) by (nonlinear_arith)
                requires
                    self.part <= 0xffff_ffff_ffff_ffff,
                    cells <= 0xffff_ffff_ffff_ffff,
            ;
            let exact: u128 = rounded_div(self.part as u128 * cells as u128, self.whole as u128);
            if exact <= cells as u128 {
                exact as usize
            } else {
                cells
            }
        }
    }

    /// Appends the percentage with one decimal place, right-aligned in its
    /// field.
    pub fn push_percent(self, out: &mut String)
        ensures
            final(out)@ == old(out)@ + self.percent_text(),
    {
        if self.whole == 0 {
            proof {
                reveal_strlit("NaN");
                reveal_strlit("inf");
                assert("NaN"@ =~= seq!['N', 'a', 'N']);
                assert("inf"@ =~= seq!['i', 'n', 'f']);
            }
            if self.part == 0 {
                push_padded(out, "NaN", PERCENT_WIDTH);
            } else {
                push_padded(out, "inf", PERCENT_WIDTH);
            }
        } else {
            let mut number = String::new();
            push_tenths(&mut number, rounded_div(1000 * (self.part as u128), self.whole as u128));
            assert(number@ =~= tenths(self.per_mille()));
            push_padded(out, number.as_str(), PERCENT_WIDTH);
        }
    }
}

/// The lengths of the three runs of a bar of `bar_width` cells at `fraction`:
/// the body, the void and the head, in this order.  The bar has one cell more
/// than its width; the head takes the first cell that the body leaves.
pub open spec fn bar_shape_of(bar_width: nat, fraction: Fraction) -> (nat, nat, nat) {
    let cells = bar_width + 1;
    let body = fraction.filled(cells);
    if body < cells {
        (body, (cells - body - 1) as nat, 1)
    } else {
        (body, 0, 0)
    }
}

/// `term_size::dimensions_stdout`: the columns and rows of the terminal behind
/// standard output, or nothing where it is no terminal or the query fails.
/// Nothing is claimed of the value, which depends on the environment.
pub assume_specification[ term_size::dimensions_stdout ]() -> (size: Option<(usize, usize)>)
;

/// The columns of the terminal behind standard output, where it is one.
fn terminal_columns() -> (columns: Option<usize>) {
    let size: Option<(usize, usize)> = term_size::dimensions_stdout();
    // A line is laid out in one row: of the size only the columns count.
    let columns: Option<usize> = columns_of(size);
    columns
}

/// The width that a line is laid out for: the configured width, else the
/// detected one, else the default.
pub open spec fn resolved_width(configured: Option<usize>, detected: Option<usize>) -> usize {
    match configured {
        Some(width) => width,
        None => match detected {
            Some(width) => width,
            None => DEFAULT_DISPLAY_WIDTH,
        },
    }
}

/// The width that a line is laid out for: the configured width, else the
/// detected one, else the default.
pub fn resolve_display_width(configured: Option<usize>, detected: Option<usize>) -> (width: usize)
    ensures
        width == resolved_width(configured, detected),
{
    match configured {
        Some(width) => width,
        None => match detected {
            Some(width) => width,
            None => DEFAULT_DISPLAY_WIDTH,
        },
    }
}

/// The time from `since` to `now`, and nothing where `now` lies before it.
pub open spec fn elapsed_between(since: u64, now: u64) -> nat {
    if now >= since {
        (now - since) as nat
    } else {
        0
    }
}

/// The display settings of a bar.
#[derive(Debug)]
pub struct ProgressConfig {
    bar_position: BarPosition,
    bar_width: usize,
    display_width: Option<usize>,
    extra_infos: String,
    output_stream: OutputStream,
    prefix: String,
    refresh_delay: u64,
    shape_body: char,
    shape_head: char,
    shape_void: char,
}

impl ProgressConfig {
    /// Whether these are the default settings: a bar of 40 cells on the
    /// left, drawn with `=`, `>` and spaces on standard output at most every
    /// 200 milliseconds, with no texts and no fixed display width.
    pub closed spec fn is_default(&self) -> bool {
        &&& self.bar_position == BarPosition::Left
        &&& self.bar_width == 40
        &&& self.display_width == None::<usize>
        &&& self.extra_infos@ == Seq::<char>::empty()
        &&& self.output_stream == OutputStream::StdOut
        &&& self.prefix@ == Seq::<char>::empty()
        &&& self.refresh_delay == 200_000_000
        &&& self.shape_body == '='
        &&& self.shape_head == '>'
        &&& self.shape_void == ' '
    }
}

impl Clone for ProgressConfig {
    fn clone(&self) -> (config: Self)
        ensures
            config == *self,
    {
        Self {
            bar_position: self.bar_position,
            bar_width: self.bar_width,
            display_width: self.display_width,
            extra_infos: self.extra_infos.clone(),
            output_stream: self.output_stream,
            prefix: self.prefix.clone(),
            refresh_delay: self.refresh_delay,
            shape_body: self.shape_body,
            shape_head: self.shape_head,
            shape_void: self.shape_void,
        }
    }
}

impl Default for ProgressConfig {
    fn default() -> (config: Self)
        ensures
            config.is_default(),
    {
        Self {
            bar_position: BarPosition::Left,
            bar_width: 40,
            display_width: None,
            extra_infos: String::new(),
            output_stream: OutputStream::StdOut,
            prefix: String::new(),
            refresh_delay: 200_000_000,
            shape_body: '=',
            shape_head: '>',
            shape_void: ' ',
        }
    }
}

/// A progress bar that is updated by hand.  Times are nanoseconds on the
/// bar's own clock, which starts when the bar is made.
#[derive(Debug)]
pub struct Progress {
    config: ProgressConfig,
    clock: Clock,
    last_update_time: Option<u64>,
}

/// What a [`Progress`] holds.
pub struct ProgressView {
    pub bar_position: BarPosition,
    pub bar_width: usize,
    pub display_width: Option<usize>,
    pub extra_infos: Seq<char>,
    pub output_stream: OutputStream,
    pub prefix: Seq<char>,
    /// The least time between two redraws, in nanoseconds.
    pub refresh_delay: u64,
    pub shape_body: char,
    pub shape_head: char,
    pub shape_void: char,
    /// When the bar was last drawn, if it ever was.
    pub last_update_time: Option<u64>,
    pub clock: Clock,
}

impl ProgressView {
    /// The settings of a new bar on `clock`, which was never drawn.
    pub open spec fn initial(clock: Clock) -> ProgressView {
        ProgressView {
            bar_position: BarPosition::Left,
            bar_width: 40,
            display_width: None,
            extra_infos: Seq::empty(),
            output_stream: OutputStream::StdOut,
            prefix: Seq::empty(),
            refresh_delay: 200_000_000,
            shape_body: '=',
            shape_head: '>',
            shape_void: ' ',
            last_update_time: None,
            clock,
        }
    }

    /// These settings with `bar_position` replaced.
    pub open spec fn with_bar_position(self, bar_position: BarPosition) -> ProgressView {
        ProgressView { bar_position, ..self }
    }

    /// These settings with `bar_width` replaced.
    pub open spec fn with_bar_width(self, bar_width: usize) -> ProgressView {
        ProgressView { bar_width, ..self }
    }

    /// These settings with `extra_infos` replaced.
    pub open spec fn with_extra_infos(self, extra_infos: Seq<char>) -> ProgressView {
        ProgressView { extra_infos, ..self }
    }

    /// These settings with `output_stream` replaced.
    pub open spec fn with_output_stream(self, output_stream: OutputStream) -> ProgressView {
        ProgressView { output_stream, ..self }
    }

    /// These settings with `prefix` replaced.
    pub open spec fn with_prefix(self, prefix: Seq<char>) -> ProgressView {
        ProgressView { prefix, ..self }
    }

    /// These settings with `refresh_delay` replaced.
    pub open spec fn with_refresh_delay(self, refresh_delay: u64) -> ProgressView {
        ProgressView { refresh_delay, ..self }
    }

    /// These settings with `shape_body` replaced.
    pub open spec fn with_shape_body(self, shape_body: char) -> ProgressView {
        ProgressView { shape_body, ..self }
    }

    /// These settings with `shape_head` replaced.
    pub open spec fn with_shape_head(self, shape_head: char) -> ProgressView {
        ProgressView { shape_head, ..self }
    }

    /// These settings with `shape_void` replaced.
    pub open spec fn with_shape_void(self, shape_void: char) -> ProgressView {
        ProgressView { shape_void, ..self }
    }

    /// These settings with a fixed display width.
    pub open spec fn with_display_width(self, display_width: usize) -> ProgressView {
        ProgressView { display_width: Some(display_width), ..self }
    }

    /// Whether a bar can be drawn: its cells, one more than its width, can be
    /// counted.
    pub open spec fn wf(self) -> bool {
        self.bar_width < usize::MAX
    }

    /// Whether a redraw is due at `now`: the bar was never drawn, or the
    /// refresh delay has passed since it last was.
    pub open spec fn refresh_due(self, now: u64) -> bool {
        match self.last_update_time {
            Some(last) => elapsed_between(last, now) >= self.refresh_delay,
            None => true,
        }
    }

    /// The bar after a redraw at `now`.
    pub open spec fn drawn_at(self, now: u64) -> ProgressView {
        ProgressView { last_update_time: Some(now), ..self }
    }

    /// The width that a line takes with its whole prefix and no padding.
    pub open spec fn required_width(self) -> nat {
        self.bar_width as nat + self.prefix.len() + self.extra_infos.len()
            + DECORATION_WIDTH as nat
    }

    /// How much of the prefix is shown in `display` columns: all of it where
    /// the line fits; the prefix cut from the right by what the line exceeds
    /// the display, where the prefix is that long; else nothing.
    pub open spec fn shown_prefix(self, display: nat) -> Seq<char> {
        let required = self.required_width();
        if display >= required {
            self.prefix
        } else if self.prefix.len() >= required - display {
            self.prefix.subrange(0, self.prefix.len() - (required - display))
        } else {
            Seq::empty()
        }
    }

    /// The number of spaces that fill the line up to `display` columns.
    pub open spec fn padding(self, display: nat) -> nat {
        let required = self.required_width();
        if display >= required {
            (display - required) as nat
        } else {
            0
        }
    }

    /// The bar at `fraction`: the body, the head, then the void.
    pub open spec fn bar(self, fraction: Fraction) -> Seq<char> {
        let shape = bar_shape_of(self.bar_width as nat, fraction);
        repeat(self.shape_body, shape.0) + repeat(self.shape_head, shape.2) + repeat(
            self.shape_void,
            shape.1,
        )
    }

    /// The line at `fraction`, laid out for `display` columns.
    pub open spec fn line(self, fraction: Fraction, display: nat) -> Seq<char> {
        let head = seq!['\r'] + self.shown_prefix(display) + seq![' '];
        let bar = seq!['['] + self.bar(fraction) + seq![']'];
        let percent = fraction.percent_text() + seq!['%'];
        let padding = repeat(' ', self.padding(display));
        match self.bar_position {
            BarPosition::Left => head + percent + seq![' '] + bar + seq![' '] + self.extra_infos
                + padding,
            BarPosition::Right => head + padding + self.extra_infos + seq![' '] + bar + seq![' ']
                + percent,
        }
    }

    /// The bar after an update at `now`: drawn at `now` where a redraw is
    /// due, else as it was.
    pub open spec fn after_update(self, now: u64) -> ProgressView {
        if self.refresh_due(now) {
            self.drawn_at(now)
        } else {
            self
        }
    }

    /// The line that an update at `now` gives: where a redraw is due, the
    /// line at `fraction`, laid out for the configured width, else for the
    /// `detected` one, else for the default; no line where none is due.
    pub open spec fn update_line(self, fraction: Fraction, now: u64, detected: Option<usize>)
        -> Option<Seq<char>> {
        if self.refresh_due(now) {
            Some(self.line(fraction, resolved_width(self.display_width, detected) as nat))
        } else {
            None
        }
    }

    /// The text that finishing gives: the line of the full bar, and behind it
    /// one end of line.
    pub open spec fn finish_line(self, detected: Option<usize>) -> Seq<char> {
        self.line(
            Fraction { part: 1, whole: 1 },
            resolved_width(self.display_width, detected) as nat,
        ) + seq!['\n']
    }
}

/// The characters of a line, where there is one.
pub open spec fn shown(out: Option<String>) -> Option<Seq<char>> {
    match out {
        Some(text) => Some(text@),
        None => None,
    }
}

impl View for Progress {
    type V = ProgressView;

    closed spec fn view(&self) -> ProgressView {
        ProgressView {
            bar_position: self.config.bar_position,
            bar_width: self.config.bar_width,
            display_width: self.config.display_width,
            extra_infos: self.config.extra_infos@,
            output_stream: self.config.output_stream,
            prefix: self.config.prefix@,
            refresh_delay: self.config.refresh_delay,
            shape_body: self.config.shape_body,
            shape_head: self.config.shape_head,
            shape_void: self.config.shape_void,
            last_update_time: self.last_update_time,
            clock: self.clock,
        }
    }
}

impl Clone for Progress {
    fn clone(&self) -> (progress: Self)
        ensures
            progress == *self,
    {
        proof {
            use_type_invariant(self);
        }
        Self {
            config: self.config.clone(),
            clock: self.clock,
            last_update_time: self.last_update_time,
        }
    }
}

impl Default for Progress {
    fn default() -> (progress: Self)
        ensures
            progress@ == ProgressView::initial(progress@.clock),
    {
        Self { config: ProgressConfig::default(), clock: Clock::start(), last_update_time: None }
    }
}

impl Progress {
    /// Holds of every bar: it can be drawn.
    #[verifier::type_invariant]
    pub open spec fn inv(&self) -> bool {
        self@.wf()
    }

    /// A new progress bar with the default display settings.
    pub fn new() -> (progress: Self)
        ensures
            progress@ == ProgressView::initial(progress@.clock),
    {
        Self::default()
    }

    /// Replaces the extra informations shown next to the bar.
    pub fn set_extra_infos(&mut self, extra_infos: &str)
        ensures
            final(self)@ == (ProgressView { extra_infos: extra_infos@, ..old(self)@ }),
    {
        proof {
            use_type_invariant(&*self);
        }
        self.config.extra_infos = extra_infos.to_owned();
    }

    /// Whether a redraw is due at `now`.
    pub fn need_refresh_at(&self, now: u64) -> (due: bool)
        ensures
            due == self@.refresh_due(now),
    {
        match self.last_update_time {
            Some(last) => {
                let elapsed: u64 = if now >= last {
                    now - last
                } else {
                    0
                };
                elapsed >= self.config.refresh_delay
            },
            None => true,
        }
    }

    /// Whether a redraw is due now, by the bar's clock.
    pub fn need_refresh(&self) -> (due: bool)
        ensures
            exists|now: u64| due == self@.refresh_due(now),
            self@.last_update_time is None ==> due,
    {
        let now: u64 = self.clock.now();
        let due = self.need_refresh_at(now);
        assert(due == self@.refresh_due(now));
        due
    }

    /// The lengths of the body, the void and the head of the bar at
    /// `fraction`, in this order.
    pub fn bar_shape(&self, fraction: Fraction) -> (shape: (usize, usize, usize))
        ensures
            shape.0 == bar_shape_of(self@.bar_width as nat, fraction).0,
            shape.1 == bar_shape_of(self@.bar_width as nat, fraction).1,
            shape.2 == bar_shape_of(self@.bar_width as nat, fraction).2,
            shape.0 + shape.2 + shape.1 == self@.bar_width + 1,
            shape.2 <= 1,
    {
        proof {
            use_type_invariant(self);
        }
        let body_length: usize = fraction.fill(self.config.bar_width + 1);
        let mut void_length: usize = (self.config.bar_width + 1) - body_length;
        let mut head_length: usize = 0;

        if void_length > 0 {
            void_length = void_length - 1;
            head_length = head_length + 1;
        }
        (body_length, void_length, head_length)
    }

    /// The clock of this bar.
    pub fn clock(&self) -> (clock: Clock)
        ensures
            clock == self@.clock,
    {
        self.clock
    }

    /// The width of the terminal, where this bar has no fixed display width
    /// and a terminal is found behind standard output.
    pub fn detect_width(&self) -> (detected: Option<usize>)
        ensures
            self@.display_width is Some ==> detected is None,
    {
        match self.config.display_width {
            Some(_) => None,
            None => terminal_columns(),
        }
    }

    /// The stream that the lines of this bar are meant for.
    pub fn output_stream(&self) -> (stream: OutputStream)
        ensures
            stream == self@.output_stream,
    {
        self.config.output_stream
    }

    /// The width that a line is laid out for: the configured width, else
    /// that of the terminal behind standard output, else the default.
    pub fn display_width(&self) -> (width: usize)
        ensures
            exists|detected: Option<usize>|
                width == resolved_width(self@.display_width, detected),
            self@.display_width is Some ==> width == self@.display_width->0,
    {
        match self.config.display_width {
            Some(width) => {
                assert(width == resolved_width(self@.display_width, None));
                width
            },
            None => {
                let detected = terminal_columns();
                resolve_display_width(None, detected)
            },
        }
    }

    /// How a line is laid out for `display_width` columns: the number of
    /// characters of the prefix that are shown, and the number of spaces of
    /// padding.
    pub fn layout(&self, display_width: usize) -> (r: (usize, usize))
        ensures
            r.0 <= self@.prefix.len(),
            self@.prefix.subrange(0, r.0 as int) == self@.shown_prefix(display_width as nat),
            r.1 == self@.padding(display_width as nat),
    {
        let prefix_len: usize = self.config.prefix.as_str().unicode_len();
        let extra_len: usize = self.config.extra_infos.as_str().unicode_len();
        let required: u128 = self.config.bar_width as u128 + prefix_len as u128 + extra_len as u128
            + DECORATION_WIDTH as u128;
        let display: u128 = display_width as u128;

        if display >= required {
            assert(self@.prefix.subrange(0, prefix_len as int) =~= self@.prefix);
            (prefix_len, (display - required) as usize)
        } else if prefix_len as u128 >= required - display {
            (prefix_len - ((required - display) as usize), 0)
        } else {
            assert(self@.prefix.subrange(0, 0) =~= Seq::<char>::empty());
            (0, 0)
        }
    }

    /// Appends the bar at `fraction` between its brackets.
    fn push_bar(&self, out: &mut String, fraction: Fraction)
        ensures
            final(out)@ == old(out)@ + (seq!['['] + self@.bar(fraction) + seq![']']),
    {
        let (body, void, head): (usize, usize, usize) = self.bar_shape(fraction);
        out.push('[');
        push_repeat(out, self.config.shape_body, body);
        push_repeat(out, self.config.shape_head, head);
        push_repeat(out, self.config.shape_void, void);
        out.push(']');
        assert(out@ =~= old(out)@ + (seq!['['] + self@.bar(fraction) + seq![']']));
    }

    /// The line at `fraction`, laid out for `display_width` columns.
    pub fn render(&self, fraction: Fraction, display_width: usize) -> (text: String)
        ensures
            text@ == self@.line(fraction, display_width as nat),
    {
        let (shown, padding): (usize, usize) = self.layout(display_width);
        let prefix: &str = self.config.prefix.as_str().substring_char(0, shown);

        let mut text = String::new();
        text.push('\r');
        text.append(prefix);
        text.push(' ');
        let ghost head = seq!['\r'] + self@.shown_prefix(display_width as nat) + seq![' '];
        let ghost bar = seq!['['] + self@.bar(fraction) + seq![']'];
        let ghost percent = fraction.percent_text() + seq!['%'];
        let ghost spaces = repeat(' ', self@.padding(display_width as nat));
        assert(text@ =~= head);
        match self.config.bar_position {
            BarPosition::Left => {
                fraction.push_percent(&mut text);
                text.push('%');
                assert(text@ =~= head + percent);
                text.push(' ');
                self.push_bar(&mut text, fraction);
                assert(text@ =~= head + percent + seq![' '] + bar);
                text.push(' ');
                text.append(self.config.extra_infos.as_str());
                assert(text@ =~= head + percent + seq![' '] + bar + seq![' ']
                    + self@.extra_infos);
                push_repeat(&mut text, ' ', padding);
            },
            BarPosition::Right => {
                push_repeat(&mut text, ' ', padding);
                text.append(self.config.extra_infos.as_str());
                assert(text@ =~= head + spaces + self@.extra_infos);
                text.push(' ');
                self.push_bar(&mut text, fraction);
                assert(text@ =~= head + spaces + self@.extra_infos + seq![' '] + bar);
                text.push(' ');
                fraction.push_percent(&mut text);
                text.push('%');
                assert(text@ =~= head + spaces + self@.extra_infos + seq![' '] + bar + seq![' ']
                    + percent);
            },
        }
        text
    }

    /// Redraws the bar at `fraction` if a redraw is due at `now`, and hands
    /// back the line to write; `detected` is the width of the terminal, where
    /// one was found.
    pub fn update_at(&mut self, fraction: Fraction, now: u64, detected: Option<usize>) -> (out:
        Option<String>)
        ensures
            final(self)@ == old(self)@.after_update(now),
            shown(out) == old(self)@.update_line(fraction, now, detected),
    {
        if !self.need_refresh_at(now) {
            return None;
        }
        proof {
            use_type_invariant(&*self);
        }
        self.last_update_time = Some(now);
        let width: usize = resolve_display_width(self.config.display_width, detected);
        Some(self.render(fraction, width))
    }

    /// Redraws the bar at `fraction` if the refresh delay has passed, by the
    /// bar's clock, and hands back the line to write.
    pub fn update(&mut self, fraction: Fraction) -> (out: Option<String>)
        ensures
            exists|now: u64, detected: Option<usize>|
                {
                    &&& final(self)@ == old(self)@.after_update(now)
                    &&& shown(out) == old(self)@.update_line(fraction, now, detected)
                },
            old(self)@.last_update_time is None ==> out is Some,
    {
        let now: u64 = self.clock.now();
        let detected: Option<usize> = self.detect_width();
        let out = self.update_at(fraction, now, detected);
        assert(self@ == old(self)@.after_update(now) && shown(out) == old(self)@.update_line(
            fraction,
            now,
            detected,
        ));
        out
    }

    /// Draws the full bar at `now`, whether or not a redraw is due, and
    /// hands back its line with an end of line behind it.
    pub fn finished_at(&mut self, now: u64, detected: Option<usize>) -> (out: String)
        ensures
            final(self)@ == old(self)@.drawn_at(now),
            out@ == old(self)@.finish_line(detected),
    {
        proof {
            use_type_invariant(&*self);
        }
        self.last_update_time = None;
        let ghost cleared = self@;
        let ghost width = resolved_width(cleared.display_width, detected) as nat;
        let mut text: String = match self.update_at(Fraction::complete(), now, detected) {
            Some(line) => line,
            None => String::new(),
        };
        assert(cleared.line(Fraction { part: 1, whole: 1 }, width) == old(self)@.line(
            Fraction { part: 1, whole: 1 },
            width,
        ));
        text.push('\n');
        text
    }

    /// Draws the full bar for the last time and hands back its line with an
    /// end of line behind it.
    pub fn finished(&mut self) -> (out: String)
        ensures
            exists|now: u64, detected: Option<usize>|
                {
                    &&& final(self)@ == old(self)@.drawn_at(now)
                    &&& out@ == old(self)@.finish_line(detected)
                },
    {
        let now: u64 = self.clock.now();
        let detected: Option<usize> = self.detect_width();
        let out = self.finished_at(now, detected);
        assert(self@ == old(self)@.drawn_at(now) && out@ == old(self)@.finish_line(detected));
        out
    }
}

/// The columns of a terminal whose size is given as columns and rows, where
/// there is one.
pub fn columns_of(size: Option<(usize, usize)>) -> (columns: Option<usize>)
    ensures
        columns == (match size {
            Some(size) => Some(size.0),
            None => None,
        }),
{
    match size {
        Some((columns, _)) => Some(columns),
        None => None,
    }
}

/// The three runs of a bar fill its cells, one more than its width, and the
/// head takes one cell or none, whatever the fraction.  A bar has no head
/// exactly when the body fills all cells.
pub proof fn lemma_bar_shape(bar_width: nat, fraction: Fraction)
    ensures
        ({
            let (body, void, head) = bar_shape_of(bar_width, fraction);
            &&& body + head + void == bar_width + 1
            &&& head == 0 || head == 1
            &&& head == 0 <==> body == bar_width + 1
        }),
{
}

/// A bar that was never drawn is due for a redraw at any time.  A bar drawn
/// at `now` is due again at a `later` time exactly when the refresh delay has
/// passed since.
pub proof fn lemma_refresh_cycle(bar: ProgressView, now: u64, later: u64)
    requires
        now <= later,
    ensures
        bar.last_update_time is None ==> bar.refresh_due(now),
        bar.drawn_at(now).refresh_due(later) <==> later - now >= bar.refresh_delay,
        bar.refresh_delay > 0 ==> !bar.drawn_at(now).refresh_due(now),
{
}

/// An update that is due redraws the bar, and the next update within the
/// refresh delay gives no line and changes nothing.
pub proof fn lemma_update_then_wait(
    bar: ProgressView,
    fraction: Fraction,
    now: u64,
    later: u64,
    detected: Option<usize>,
)
    requires
        bar.refresh_due(now),
        now <= later < now + bar.refresh_delay,
    ensures
        bar.update_line(fraction, now, detected) is Some,
        bar.after_update(now).update_line(fraction, later, detected) is None,
        bar.after_update(now).after_update(later) == bar.after_update(now),
{
}

/// A fraction between 0 and 1 makes between 0 and 100 percent, and its text
/// fills the percentage field exactly.
pub proof fn lemma_percent_width(fraction: Fraction)
    requires
        fraction.in_unit_range(),
    ensures
        fraction.per_mille() <= 1000,
        fraction.percent_text().len() == PERCENT_WIDTH,
{
    let part = fraction.part as nat;
    let whole = fraction.whole as nat;
    assert((2 * (1000 * part) + whole) / (2 * whole) <= 1000) by (nonlinear_arith)
        requires
            part <= whole,
            whole > 0,
    ;
    let t = fraction.per_mille();
    lemma_decimal_short(t / 10);
}

/// The length of a line for a fraction between 0 and 1: the display width,
/// where the line fits into it once the prefix is cut or dropped; else what
/// the line takes without its prefix.
pub proof fn lemma_line_len(bar: ProgressView, fraction: Fraction, display: nat)
    requires
        fraction.in_unit_range(),
    ensures
        display + bar.prefix.len() >= bar.required_width() ==> bar.line(fraction, display).len()
            == display,
        display + bar.prefix.len() < bar.required_width() ==> bar.line(fraction, display).len()
            == bar.required_width() - bar.prefix.len(),
{
    lemma_percent_width(fraction);
    lemma_bar_shape(bar.bar_width as nat, fraction);
}

/// A value that holds a progress bar whose settings can be changed in a chain
/// of `with_` calls, each of which takes the value and hands it back.
pub trait WithProgress: Sized {
    /// The bar that the value holds.
    spec fn progress_bar(&self) -> Progress;

    /// The value with `progress` in the place of its bar.
    spec fn replace_progress_bar(self, progress: Progress) -> Self;

    /// Applies `update` to the bar and leaves the rest of the value as it
    /// was.
    fn update_progress<U>(self, update: U) -> (r: Self) where U: FnOnce(Progress) -> Progress
        requires
            update.requires((self.progress_bar(),)),
        ensures
            update.ensures((self.progress_bar(),), r.progress_bar()),
            r == self.replace_progress_bar(r.progress_bar()),
    ;

    /// Changes where the bar stands in the line.
    fn with_bar_position(self, bar_position: BarPosition) -> (r: Self)
        ensures
            r.progress_bar()@ == self.progress_bar()@.with_bar_position(bar_position),
            r == self.replace_progress_bar(r.progress_bar()),
    {
        self.update_progress(
            move |p: Progress| -> (q: Progress)
                ensures
                    q@ == p@.with_bar_position(bar_position)
                {
                    let mut p = p;
                    proof {
                        use_type_invariant(&p);
                    }
                    p.config.bar_position = bar_position;
                    p
                },
        )
    }

    /// Changes the width of the bar.  The bar has one cell more than its
    /// width, which has to be countable.
    fn with_bar_width(self, bar_width: usize) -> (r: Self)
        requires
            bar_width < usize::MAX,
        ensures
            r.progress_bar()@ == self.progress_bar()@.with_bar_width(bar_width),
            r == self.replace_progress_bar(r.progress_bar()),
    {
        self.update_progress(
            move |p: Progress| -> (q: Progress)
                ensures
                    q@ == p@.with_bar_width(bar_width)
                {
                    let mut p = p;
                    proof {
                        use_type_invariant(&p);
                    }
                    p.config.bar_width = bar_width;
                    p
                },
        )
    }

    /// Fixes the width that the line is laid out for.  Without it the
    /// width of the terminal is detected at each redraw.
    fn with_display_width(self, display_width: usize) -> (r: Self)
        ensures
            r.progress_bar()@ == self.progress_bar()@.with_display_width(display_width),
            r == self.replace_progress_bar(r.progress_bar()),
    {
        self.update_progress(
            move |p: Progress| -> (q: Progress)
                ensures
                    q@ == p@.with_display_width(display_width)
                {
                    let mut p = p;
                    proof {
                        use_type_invariant(&p);
                    }
                    p.config.display_width = Some(display_width);
                    p
                },
        )
    }

    /// Sets the extra informations shown next to the bar.
    fn with_extra_infos(self, extra_infos: &str) -> (r: Self)
        ensures
            r.progress_bar()@ == self.progress_bar()@.with_extra_infos(extra_infos@),
            r == self.replace_progress_bar(r.progress_bar()),
    {
        self.update_progress(
            move |p: Progress| -> (q: Progress)
                ensures
                    q@ == p@.with_extra_infos(extra_infos@)
                {
                    let mut p = p;
                    proof {
                        use_type_invariant(&p);
                    }
                    p.config.extra_infos = extra_infos.to_owned();
                    p
                },
        )
    }

    /// Changes the stream that the lines are meant for.
    fn with_output_stream(self, output_stream: OutputStream) -> (r: Self)
        ensures
            r.progress_bar()@ == self.progress_bar()@.with_output_stream(output_stream),
            r == self.replace_progress_bar(r.progress_bar()),
    {
        self.update_progress(
            move |p: Progress| -> (q: Progress)
                ensures
                    q@ == p@.with_output_stream(output_stream)
                {
                    let mut p = p;
                    proof {
                        use_type_invariant(&p);
                    }
                    p.config.output_stream = output_stream;
                    p
                },
        )
    }

    /// Changes the text in front of the line.
    fn with_prefix(self, prefix: &str) -> (r: Self)
        ensures
            r.progress_bar()@ == self.progress_bar()@.with_prefix(prefix@),
            r == self.replace_progress_bar(r.progress_bar()),
    {
        self.update_progress(
            move |p: Progress| -> (q: Progress)
                ensures
                    q@ == p@.with_prefix(prefix@)
                {
                    let mut p = p;
                    proof {
                        use_type_invariant(&p);
                    }
                    p.config.prefix = prefix.to_owned();
                    p
                },
        )
    }

    /// Changes the least time between two redraws, in nanoseconds.
    fn with_refresh_delay(self, refresh_delay: u64) -> (r: Self)
        ensures
            r.progress_bar()@ == self.progress_bar()@.with_refresh_delay(refresh_delay),
            r == self.replace_progress_bar(r.progress_bar()),
    {
        self.update_progress(
            move |p: Progress| -> (q: Progress)
                ensures
                    q@ == p@.with_refresh_delay(refresh_delay)
                {
                    let mut p = p;
                    proof {
                        use_type_invariant(&p);
                    }
                    p.config.refresh_delay = refresh_delay;
                    p
                },
        )
    }

    /// Changes the character that draws the body of the bar.
    fn with_shape_body(self, shape_body: char) -> (r: Self)
        ensures
            r.progress_bar()@ == self.progress_bar()@.with_shape_body(shape_body),
            r == self.replace_progress_bar(r.progress_bar()),
    {
        self.update_progress(
            move |p: Progress| -> (q: Progress)
                ensures
                    q@ == p@.with_shape_body(shape_body)
                {
                    let mut p = p;
                    proof {
                        use_type_invariant(&p);
                    }
                    p.config.shape_body = shape_body;
                    p
                },
        )
    }

    /// Changes the character that draws the head of the bar.
    fn with_shape_head(self, shape_head: char) -> (r: Self)
        ensures
            r.progress_bar()@ == self.progress_bar()@.with_shape_head(shape_head),
            r == self.replace_progress_bar(r.progress_bar()),
    {
        self.update_progress(
            move |p: Progress| -> (q: Progress)
                ensures
                    q@ == p@.with_shape_head(shape_head)
                {
                    let mut p = p;
                    proof {
                        use_type_invariant(&p);
                    }
                    p.config.shape_head = shape_head;
                    p
                },
        )
    }

    /// Changes the character that draws the background of the bar.
    fn with_shape_void(self, shape_void: char) -> (r: Self)
        ensures
            r.progress_bar()@ == self.progress_bar()@.with_shape_void(shape_void),
            r == self.replace_progress_bar(r.progress_bar()),
    {
        self.update_progress(
            move |p: Progress| -> (q: Progress)
                ensures
                    q@ == p@.with_shape_void(shape_void)
                {
                    let mut p = p;
                    proof {
                        use_type_invariant(&p);
                    }
                    p.config.shape_void = shape_void;
                    p
                },
        )
    }
}

impl WithProgress for Progress {
    open spec fn progress_bar(&self) -> Progress {
        *self
    }

    open spec fn replace_progress_bar(self, progress: Progress) -> Self {
        progress
    }

    fn update_progress<U>(self, update: U) -> (r: Self) where U: FnOnce(Progress) -> Progress {
        update(self)
    }
}

} // verus!
