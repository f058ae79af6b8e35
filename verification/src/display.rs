//! The display engine: a 10-row by 16-column bitmap, a mapping from a time
//! value to the word tokens it lights, and the refresh logic that turns the
//! bitmap into the exact sequence of shift-register pin operations.
//!
//! A row whose value is all-ones is the blank sentinel and is skipped during
//! refresh. Word masks are applied by XOR so stacked corner indicators
//! toggle correctly.

pub mod corner;
pub mod words;

use vstd::prelude::*;
use crate::time::Time;

verus! {

/// On-time of one lit row at the dimmest usable brightness, microseconds.
pub const MAX_TIME_ON: u16 = 20_000;

/// On-time floor of one lit row at full brightness, microseconds.
pub const MIN_TIME_ON: u16 = 1_000;

/// The all-ones sentinel marking a row as blank.
pub const BLANK_ROW: u16 = 0xFFFF;

/// Number of rows of the physical matrix.
pub const NUM_ROWS: usize = 10;

/// The bitmap of a fresh render: every row blank.
pub open spec fn blank_rows() -> Seq<u16> {
    Seq::new(NUM_ROWS as nat, |i: int| BLANK_ROW)
}

/// One word token XOR-ed onto the bitmap.
pub open spec fn apply_word(rows: Seq<u16>, w: (usize, u16)) -> Seq<u16> {
    rows.update(w.0 as int, rows[w.0 as int] ^ w.1)
}

/// A sequence of word tokens XOR-ed onto the bitmap, left to right.
pub open spec fn apply_words(rows: Seq<u16>, ws: Seq<(usize, u16)>) -> Seq<u16>
    decreases ws.len(),
{
    if ws.len() == 0 {
        rows
    } else {
        apply_words(apply_word(rows, ws[0]), ws.drop_first())
    }
}

/// The hour value the clock face shows: the hour reduced to its
/// twelve-hour alias first (zero and twelve both keep the twelve word),
/// then rounded up by one once the half hour is reached, wrapping to one
/// past eleven.
pub open spec fn displayed_hour(hour: int, min: int) -> int {
    let reduced = if hour >= 13 {
        hour - 12
    } else {
        hour
    };
    if min >= 30 {
        if reduced + 1 >= 12 {
            1int
        } else {
            reduced + 1
        }
    } else {
        reduced
    }
}

/// The word token of a displayed hour; zero and twelve share one word.
pub open spec fn hour_word(h: int) -> (usize, u16) {
    if h == 1 {
        words::EINS_HOUR
    } else if h == 2 {
        words::ZWEI_HOUR
    } else if h == 3 {
        words::DREI_HOUR
    } else if h == 4 {
        words::VIER_HOUR
    } else if h == 5 {
        words::FUENF_HOUR
    } else if h == 6 {
        words::SECHS_HOUR
    } else if h == 7 {
        words::SIEBEN_HOUR
    } else if h == 8 {
        words::ACHT_HOUR
    } else if h == 9 {
        words::NEUN_HOUR
    } else if h == 10 {
        words::ZEHN_HOUR
    } else if h == 11 {
        words::ELF_HOUR
    } else {
        words::ZWOELF_HOUR
    }
}

/// The word tokens of the minute phrase. The minute is floored to its
/// five-minute bucket; each bucket lights one to three words.
pub open spec fn minute_phrase(min: int) -> Seq<(usize, u16)> {
    let bucket = min - min % 5;
    if bucket == 0 {
        seq![words::UHR]
    } else if bucket == 5 {
        seq![words::FUENF, words::NACH]
    } else if bucket == 10 {
        seq![words::ZEHN, words::NACH]
    } else if bucket == 15 {
        seq![words::VIERTEL, words::NACH]
    } else if bucket == 20 {
        seq![words::ZWANZIG, words::NACH]
    } else if bucket == 25 {
        seq![words::FUENF, words::VOR, words::HALB]
    } else if bucket == 30 {
        seq![words::HALB]
    } else if bucket == 35 {
        seq![words::FUENF, words::NACH, words::HALB]
    } else if bucket == 40 {
        seq![words::ZWANZIG, words::VOR]
    } else if bucket == 45 {
        seq![words::VIERTEL, words::VOR]
    } else if bucket == 50 {
        seq![words::ZEHN, words::VOR]
    } else {
        seq![words::FUENF, words::VOR]
    }
}

/// The corner dots lit for `c` minutes past the five-minute boundary:
/// the first `c` corners in the fixed order top-left, top-right,
/// bottom-left, bottom-right.
pub open spec fn corner_words(c: int) -> Seq<(usize, u16)> {
    if c >= 4 {
        seq![corner::TOP_LEFT, corner::TOP_RIGHT, corner::BOTTOM_LEFT, corner::BOTTOM_RIGHT]
    } else if c == 3 {
        seq![corner::TOP_LEFT, corner::TOP_RIGHT, corner::BOTTOM_LEFT]
    } else if c == 2 {
        seq![corner::TOP_LEFT, corner::TOP_RIGHT]
    } else if c == 1 {
        seq![corner::TOP_LEFT]
    } else {
        Seq::empty()
    }
}

/// Every word token a given hour and minute light, in application order.
pub open spec fn words_for(hour: int, min: int) -> Seq<(usize, u16)> {
    seq![words::ESIST] + corner_words(min % 5) + seq![hour_word(displayed_hour(hour, min))]
        + minute_phrase(min)
}

/// The bitmap a time value renders to: the blank bitmap with every token
/// of [`words_for`] applied. `update_data` produces exactly this, so the
/// rendering is a pure function of the hour and minute.
pub open spec fn rendered(hour: int, min: int) -> Seq<u16> {
    apply_words(blank_rows(), words_for(hour, min))
}

/// Law: flooring the minute to its five-minute bucket is idempotent —
/// the phrase of the floored minute is the phrase of the minute itself.
pub proof fn lemma_minute_phrase_idempotent(min: int)
    requires
        0 <= min < 60,
    ensures
        minute_phrase(min - min % 5) == minute_phrase(min),
{
    let b = min - min % 5;
    vstd::arithmetic::div_mod::lemma_fundamental_div_mod(min, 5);
    vstd::arithmetic::div_mod::lemma_mod_multiples_basic(min / 5, 5);
    assert(b == 5 * (min / 5));
    assert(b % 5 == 0);
}

/// Law: applying the minute phrase to a bitmap gives the same bitmap as
/// applying the phrase of the minute floored to its five-minute bucket —
/// two displays with equal buffers stay equal when one is given the
/// minute and the other its bucket floor.
pub proof fn lemma_minute_words_rounding_idempotent(rows: Seq<u16>, min: u8)
    requires
        min < 60,
    ensures
        apply_words(rows, minute_phrase(min as int)) == apply_words(
            rows,
            minute_phrase(min as int - min as int % 5),
        ),
{
    lemma_minute_phrase_idempotent(min as int);
}

proof fn lemma_apply_one(rows: Seq<u16>, a: (usize, u16))
    ensures
        apply_words(rows, seq![a]) == apply_word(rows, a),
{
    let s = seq![a];
    assert(s.drop_first() =~= Seq::<(usize, u16)>::empty());
    assert(apply_words(apply_word(rows, a), Seq::<(usize, u16)>::empty()) == apply_word(rows, a));
    assert(apply_words(rows, s) == apply_words(apply_word(rows, s[0]), s.drop_first()));
}

proof fn lemma_apply_concat(rows: Seq<u16>, s1: Seq<(usize, u16)>, s2: Seq<(usize, u16)>)
    ensures
        apply_words(rows, s1 + s2) == apply_words(apply_words(rows, s1), s2),
    decreases s1.len(),
{
    if s1.len() == 0 {
        assert(s1 + s2 =~= s2);
    } else {
        assert((s1 + s2).drop_first() =~= s1.drop_first() + s2);
        assert((s1 + s2)[0] == s1[0]);
        lemma_apply_concat(apply_word(rows, s1[0]), s1.drop_first(), s2);
    }
}

proof fn lemma_apply_two(rows: Seq<u16>, a: (usize, u16), b: (usize, u16))
    ensures
        apply_words(rows, seq![a, b]) == apply_word(apply_word(rows, a), b),
{
    assert(seq![a, b] =~= seq![a] + seq![b]);
    lemma_apply_concat(rows, seq![a], seq![b]);
    lemma_apply_one(rows, a);
    lemma_apply_one(apply_word(rows, a), b);
}

proof fn lemma_apply_three(rows: Seq<u16>, a: (usize, u16), b: (usize, u16), c: (usize, u16))
    ensures
        apply_words(rows, seq![a, b, c]) == apply_word(apply_word(apply_word(rows, a), b), c),
{
    assert(seq![a, b, c] =~= seq![a, b] + seq![c]);
    lemma_apply_concat(rows, seq![a, b], seq![c]);
    lemma_apply_two(rows, a, b);
    lemma_apply_one(apply_word(apply_word(rows, a), b), c);
}

proof fn lemma_apply_four(
    rows: Seq<u16>,
    a: (usize, u16),
    b: (usize, u16),
    c: (usize, u16),
    d: (usize, u16),
)
    ensures
        apply_words(rows, seq![a, b, c, d]) == apply_word(
            apply_word(apply_word(apply_word(rows, a), b), c),
            d,
        ),
{
    assert(seq![a, b, c, d] =~= seq![a, b, c] + seq![d]);
    lemma_apply_concat(rows, seq![a, b, c], seq![d]);
    lemma_apply_three(rows, a, b, c);
    lemma_apply_one(apply_word(apply_word(apply_word(rows, a), b), c), d);
}

/// One primitive operation of the shift-register refresh: an edge on the
/// clock, data or latch line, or a dwell keeping the current row lit.
#[derive(PartialEq, Eq, Structural, Clone, Copy, Debug)]
pub enum PinOp {
    LatchLow,
    LatchHigh,
    ClockLow,
    ClockHigh,
    DataLow,
    DataHigh,
    DelayUs(u16),
}

/// Whether bit `k` of a row is set.
pub open spec fn row_bit(row: u16, k: u16) -> bool {
    (row >> k) & 1 == 1
}

/// Shifting one bit into the register: clock low, data level, clock high.
pub open spec fn shift_ops(level: bool) -> Seq<PinOp> {
    seq![
        PinOp::ClockLow,
        if level {
            PinOp::DataHigh
        } else {
            PinOp::DataLow
        },
        PinOp::ClockHigh,
    ]
}

/// The shift operations of the first `k` data bits of a row, in order.
pub open spec fn row_data_ops(row: u16, k: int) -> Seq<PinOp>
    decreases k,
{
    if k <= 0 {
        Seq::empty()
    } else {
        row_data_ops(row, k - 1) + shift_ops(row_bit(row, (k - 1) as u16))
    }
}

/// The shift operations of the first `k` row-select bits: a single high
/// bit at the position of the driven row.
pub open spec fn select_ops(line: int, k: int) -> Seq<PinOp>
    decreases k,
{
    if k <= 0 {
        Seq::empty()
    } else {
        select_ops(line, k - 1) + shift_ops(line == k - 1)
    }
}

/// Driving one row: latch low, the 16 data bits, the 16 row-select bits,
/// latch high.
pub open spec fn row_ops(line: int, row: u16) -> Seq<PinOp> {
    seq![PinOp::LatchLow] + row_data_ops(row, 16) + select_ops(line, 16) + seq![PinOp::LatchHigh]
}

/// The on-time of one lit row in microseconds: the floor plus a share that
/// shrinks as the brightness level grows. Meaningful only for a non-zero
/// brightness — zero is intercepted before this divisor is ever reached.
pub open spec fn on_time_us(b: u8) -> u16
    recommends
        b > 0,
{
    (MIN_TIME_ON + (MAX_TIME_ON - MIN_TIME_ON) / (b as int)) as u16
}

/// The refresh operations of the first `k` rows: blank rows are skipped
/// outright, every lit row is driven and then left on for the on-time.
pub open spec fn lit_ops(rows: Seq<u16>, b: u8, k: int) -> Seq<PinOp>
    decreases k,
{
    if k <= 0 {
        Seq::empty()
    } else {
        lit_ops(rows, b, k - 1) + (if rows[k - 1] == BLANK_ROW {
            Seq::empty()
        } else {
            row_ops(k - 1, rows[k - 1]) + seq![PinOp::DelayUs(on_time_us(b))]
        })
    }
}

/// The whole refresh: nothing at brightness zero, otherwise the lit rows
/// in order.
pub open spec fn display_ops(rows: Seq<u16>, b: u8) -> Seq<PinOp> {
    if b == 0 {
        Seq::empty()
    } else {
        lit_ops(rows, b, NUM_ROWS as int)
    }
}

/// How many bits a refresh shifts out: one per rising clock edge.
pub open spec fn count_shift_pulses(ops: Seq<PinOp>) -> int
    decreases ops.len(),
{
    if ops.len() == 0 {
        0
    } else {
        (if ops.last() is ClockHigh {
            1int
        } else {
            0
        }) + count_shift_pulses(ops.drop_last())
    }
}

/// How many of the first `k` rows are lit (not the blank sentinel).
pub open spec fn lit_row_count(rows: Seq<u16>, k: int) -> int
    decreases k,
{
    if k <= 0 {
        0
    } else {
        lit_row_count(rows, k - 1) + (if rows[k - 1] == BLANK_ROW {
            0int
        } else {
            1int
        })
    }
}

proof fn lemma_count_concat(a: Seq<PinOp>, b: Seq<PinOp>)
    ensures
        count_shift_pulses(a + b) == count_shift_pulses(a) + count_shift_pulses(b),
    decreases b.len(),
{
    if b.len() == 0 {
        assert(a + b =~= a);
    } else {
        assert((a + b).drop_last() =~= a + b.drop_last());
        assert((a + b).last() == b.last());
        lemma_count_concat(a, b.drop_last());
    }
}

proof fn lemma_count_shift_ops(level: bool)
    ensures
        count_shift_pulses(shift_ops(level)) == 1,
{
    reveal_with_fuel(count_shift_pulses, 4);
    if level {
        assert(count_shift_pulses(seq![PinOp::ClockLow, PinOp::DataHigh, PinOp::ClockHigh]) == 1);
    } else {
        assert(count_shift_pulses(seq![PinOp::ClockLow, PinOp::DataLow, PinOp::ClockHigh]) == 1);
    }
}

proof fn lemma_count_row_data_ops(row: u16, k: int)
    requires
        k >= 0,
    ensures
        count_shift_pulses(row_data_ops(row, k)) == k,
    decreases k,
{
    if k > 0 {
        lemma_count_row_data_ops(row, k - 1);
        lemma_count_shift_ops(row_bit(row, (k - 1) as u16));
        lemma_count_concat(row_data_ops(row, k - 1), shift_ops(row_bit(row, (k - 1) as u16)));
    }
}

proof fn lemma_count_select_ops(line: int, k: int)
    requires
        k >= 0,
    ensures
        count_shift_pulses(select_ops(line, k)) == k,
    decreases k,
{
    if k > 0 {
        lemma_count_select_ops(line, k - 1);
        lemma_count_shift_ops(line == k - 1);
        lemma_count_concat(select_ops(line, k - 1), shift_ops(line == k - 1));
    }
}

proof fn lemma_count_row_ops(line: int, row: u16)
    ensures
        count_shift_pulses(row_ops(line, row)) == 32,
{
    reveal_with_fuel(count_shift_pulses, 2);
    lemma_count_row_data_ops(row, 16);
    lemma_count_select_ops(line, 16);
    lemma_count_concat(seq![PinOp::LatchLow], row_data_ops(row, 16));
    lemma_count_concat(seq![PinOp::LatchLow] + row_data_ops(row, 16), select_ops(line, 16));
    lemma_count_concat(
        seq![PinOp::LatchLow] + row_data_ops(row, 16) + select_ops(line, 16),
        seq![PinOp::LatchHigh],
    );
}

proof fn lemma_count_lit_ops(rows: Seq<u16>, b: u8, k: int)
    requires
        k >= 0,
    ensures
        count_shift_pulses(lit_ops(rows, b, k)) == 32 * lit_row_count(rows, k),
    decreases k,
{
    reveal_with_fuel(count_shift_pulses, 2);
    if k > 0 {
        lemma_count_lit_ops(rows, b, k - 1);
        if rows[k - 1] == BLANK_ROW {
            lemma_count_concat(lit_ops(rows, b, k - 1), Seq::empty());
        } else {
            lemma_count_row_ops(k - 1, rows[k - 1]);
            lemma_count_concat(row_ops(k - 1, rows[k - 1]), seq![PinOp::DelayUs(on_time_us(b))]);
            lemma_count_concat(
                lit_ops(rows, b, k - 1),
                row_ops(k - 1, rows[k - 1]) + seq![PinOp::DelayUs(on_time_us(b))],
            );
        }
    }
}

/// Law: a refresh shifts out exactly 32 bits for every lit row and none
/// for a blank row — a row left at the blank sentinel is never shifted
/// out, and the refresh cost is proportional to the number of lit rows.
pub proof fn lemma_refresh_shifts_lit_rows_only(rows: Seq<u16>, b: u8)
    requires
        b > 0,
        rows.len() == NUM_ROWS,
    ensures
        count_shift_pulses(display_ops(rows, b)) == 32 * lit_row_count(rows, NUM_ROWS as int),
{
    lemma_count_lit_ops(rows, b, NUM_ROWS as int);
}

/// Law: full brightness yields the minimum configured on-time, and the
/// floor-plus-share formula is shortest there among all usable levels.
pub proof fn lemma_full_brightness_shortest_on_time()
    ensures
        on_time_us(255) == MIN_TIME_ON + (MAX_TIME_ON - MIN_TIME_ON) / 255,
        forall|b: u8| 1 <= b ==> on_time_us(255) <= #[trigger] on_time_us(b),
{
    assert forall|b: u8| 1 <= b implies on_time_us(255) <= #[trigger] on_time_us(b) by {
        vstd::arithmetic::div_mod::lemma_div_is_ordered_by_denominator(
            (MAX_TIME_ON - MIN_TIME_ON) as int,
            b as int,
            255,
        );
    }
}

/// The display engine state: the 10-row bitmap, the user brightness level,
/// and the mirror of the output-enable line (the physical line is active
/// low; `output_enabled` is true when output is on).
pub struct Display {
    pub data: Vec<u16>,
    pub brightness: u8,
    pub output_enabled: bool,
}

impl Display {
    /// The bitmap always holds exactly one row value per matrix row.
    pub open spec fn wf(self) -> bool {
        self.data@.len() == NUM_ROWS
    }

    /// A fresh display: all rows dark (all-zero), full brightness, output
    /// off until [`Display::enable_output`] is called.
    pub fn new() -> (d: Display)
        ensures
            d.wf(),
            d.data@ == Seq::new(NUM_ROWS as nat, |i: int| 0u16),
            d.brightness == 255,
            !d.output_enabled,
    {
        let mut data: Vec<u16> = Vec::new();
        let mut i: usize = 0;
        while i < NUM_ROWS
            invariant
                i <= NUM_ROWS,
                data@.len() == i,
                forall|j: int| 0 <= j < i ==> data@[j] == 0u16,
            decreases NUM_ROWS - i,
        {
            data.push(0u16);
            i += 1;
        }
        assert(data@ =~= Seq::new(NUM_ROWS as nat, |j: int| 0u16));
        Display { data, brightness: 255, output_enabled: false }
    }

    /// Turns the LED output on (the physical enable line is driven low).
    pub fn enable_output(&mut self)
        ensures
            final(self).output_enabled,
            final(self).data == old(self).data,
            final(self).brightness == old(self).brightness,
    {
        self.output_enabled = true;
    }

    /// Turns the LED output off (the physical enable line is driven high).
    pub fn disable_output(&mut self)
        ensures
            !final(self).output_enabled,
            final(self).data == old(self).data,
            final(self).brightness == old(self).brightness,
    {
        self.output_enabled = false;
    }

    /// Whether the LED output is currently on.
    pub fn enabled(&self) -> (r: bool)
        ensures
            r == self.output_enabled,
    {
        self.output_enabled
    }

    /// The level the physical output-enable line must be driven to: the
    /// line is active low, so it is low exactly when output is enabled.
    pub fn output_enable_level(&self) -> (r: bool)
        ensures
            r == !self.output_enabled,
    {
        !self.output_enabled
    }

    /// The current brightness level.
    pub fn brightness(&self) -> (r: u8)
        ensures
            r == self.brightness,
    {
        self.brightness
    }

    /// Sets the brightness level. Zero blanks the display during refresh
    /// while leaving the bitmap intact.
    pub fn set_brightness(&mut self, brightness: u8)
        ensures
            final(self).brightness == brightness,
            final(self).data == old(self).data,
            final(self).output_enabled == old(self).output_enabled,
    {
        self.brightness = brightness;
    }

    /// Clears the bitmap: every row becomes the blank sentinel.
    pub fn clear(&mut self)
        ensures
            final(self).wf(),
            final(self).data@ == blank_rows(),
            final(self).brightness == old(self).brightness,
            final(self).output_enabled == old(self).output_enabled,
    {
        let mut data: Vec<u16> = Vec::new();
        let mut i: usize = 0;
        while i < NUM_ROWS
            invariant
                i <= NUM_ROWS,
                data@.len() == i,
                forall|j: int| 0 <= j < i ==> data@[j] == BLANK_ROW,
            decreases NUM_ROWS - i,
        {
            data.push(BLANK_ROW);
            i += 1;
        }
        assert(data@ =~= blank_rows());
        self.data = data;
    }

    /// XOR-s one word token onto the bitmap.
    pub fn set_line(&mut self, line: (usize, u16))
        requires
            old(self).wf(),
            line.0 < NUM_ROWS,
        ensures
            final(self).wf(),
            final(self).data@ == apply_word(old(self).data@, line),
            final(self).brightness == old(self).brightness,
            final(self).output_enabled == old(self).output_enabled,
    {
        self.data[line.0] ^= line.1;
    }

    /// Renders a time value: clears the bitmap, then applies the fixed
    /// "it is" phrase, the corner dots, the hour word and the minute
    /// phrase. The result depends only on the hour and minute of `time`.
    pub fn update_data(&mut self, time: &Time)
        requires
            old(self).wf(),
            time.wf(),
        ensures
            final(self).wf(),
            final(self).data@ == rendered(time.hour as int, time.min as int),
            final(self).brightness == old(self).brightness,
            final(self).output_enabled == old(self).output_enabled,
    {
        let ghost hour = time.hour as int;
        let ghost min = time.min as int;
        self.clear();
        self.set_line(words::ESIST);
        proof {
            lemma_apply_one(blank_rows(), words::ESIST);
        }
        self.set_sub_minutes(time.minutes());
        self.set_hours(time.hour(), time.minutes());
        self.set_minutes(time.minutes());
        proof {
            let s_esist = seq![words::ESIST];
            let s_corner = corner_words(min % 5);
            let s_hour = seq![hour_word(displayed_hour(hour, min))];
            let s_minute = minute_phrase(min);
            lemma_apply_one(apply_words(apply_words(blank_rows(), s_esist), s_corner), hour_word(displayed_hour(hour, min)));
            lemma_apply_concat(blank_rows(), s_esist, s_corner);
            lemma_apply_concat(blank_rows(), s_esist + s_corner, s_hour);
            lemma_apply_concat(blank_rows(), s_esist + s_corner + s_hour, s_minute);
        }
    }

    /// Computes the pin operations that drive one row of the bitmap onto
    /// the shift registers: the 16 data bits, the 16 row-select bits, and
    /// the latch strobe around them. The caller performs the operations
    /// on the physical pins.
    pub fn display_line(&self, line: usize) -> (ops: Vec<PinOp>)
        requires
            self.wf(),
            line < NUM_ROWS,
        ensures
            ops@ == row_ops(line as int, self.data@[line as int]),
    {
        let row = self.data[line];
        let mut ops: Vec<PinOp> = Vec::new();
        ops.push(PinOp::LatchLow);
        assert(ops@ =~= seq![PinOp::LatchLow] + row_data_ops(row, 0));
        let mut mask: u16 = 0x0001;
        let mut i: usize = 0;
        proof {
            assert(1u16 << 0u16 == 1u16) by (bit_vector);
        }
        while i < 16
            invariant
                i <= 16,
                mask == if i < 16 {
                    1u16 << (i as u16)
                } else {
                    0u16
                },
                ops@ == seq![PinOp::LatchLow] + row_data_ops(row, i as int),
            decreases 16 - i,
        {
            let ghost iu = i as u16;
            ops.push(PinOp::ClockLow);
            proof {
                assert((row & (1u16 << iu) != 0) == row_bit(row, iu)) by (bit_vector)
                    requires
                        iu < 16,
                ;
            }
            if (row & mask) != 0 {
                ops.push(PinOp::DataHigh);
            } else {
                ops.push(PinOp::DataLow);
            }
            ops.push(PinOp::ClockHigh);
            proof {
                assert(row_data_ops(row, i + 1) == row_data_ops(row, i as int) + shift_ops(
                    row_bit(row, iu),
                ));
                assert(ops@ =~= seq![PinOp::LatchLow] + row_data_ops(row, i + 1));
                assert((1u16 << iu) << 1 == if iu + 1 < 16 {
                    1u16 << (iu + 1)
                } else {
                    0u16
                }) by (bit_vector)
                    requires
                        iu < 16,
                ;
            }
            mask <<= 1;
            i += 1;
        }
        let mut line_bit: usize = 0;
        while line_bit < 16
            invariant
                line_bit <= 16,
                line < NUM_ROWS,
                ops@ == seq![PinOp::LatchLow] + row_data_ops(row, 16) + select_ops(
                    line as int,
                    line_bit as int,
                ),
            decreases 16 - line_bit,
        {
            ops.push(PinOp::ClockLow);
            if line == line_bit {
                ops.push(PinOp::DataHigh);
            } else {
                ops.push(PinOp::DataLow);
            }
            ops.push(PinOp::ClockHigh);
            proof {
                assert(select_ops(line as int, line_bit + 1) == select_ops(
                    line as int,
                    line_bit as int,
                ) + shift_ops(line as int == line_bit as int));
                assert(ops@ =~= seq![PinOp::LatchLow] + row_data_ops(row, 16) + select_ops(
                    line as int,
                    line_bit + 1,
                ));
            }
            line_bit += 1;
        }
        ops.push(PinOp::LatchHigh);
        assert(ops@ =~= row_ops(line as int, self.data@[line as int]));
        ops
    }

    /// Computes the pin operations of one full refresh of the bitmap:
    /// every lit row is driven and dwelt on for the brightness-dependent
    /// on-time, blank rows are skipped, and brightness zero yields no
    /// operations at all (it never reaches the on-time divisor).
    pub fn update_display(&self) -> (ops: Vec<PinOp>)
        requires
            self.wf(),
        ensures
            ops@ == display_ops(self.data@, self.brightness),
            self.brightness == 0 ==> ops@ == Seq::<PinOp>::empty(),
    {
        if self.brightness == 0 {
            let ops: Vec<PinOp> = Vec::new();
            assert(ops@ =~= display_ops(self.data@, self.brightness));
            return ops;
        }
        proof {
            vstd::arithmetic::div_mod::lemma_div_is_ordered_by_denominator(
                (MAX_TIME_ON - MIN_TIME_ON) as int,
                1,
                self.brightness as int,
            );
        }
        let time_on: u16 = MIN_TIME_ON + (MAX_TIME_ON - MIN_TIME_ON) / (self.brightness as u16);
        assert(time_on == on_time_us(self.brightness));
        let mut ops: Vec<PinOp> = Vec::new();
        assert(ops@ =~= lit_ops(self.data@, self.brightness, 0));
        let mut line: usize = 0;
        while line < NUM_ROWS
            invariant
                self.wf(),
                line <= NUM_ROWS,
                self.brightness > 0,
                time_on == on_time_us(self.brightness),
                ops@ == lit_ops(self.data@, self.brightness, line as int),
            decreases NUM_ROWS - line,
        {
            if self.data[line] != BLANK_ROW {
                let mut row: Vec<PinOp> = self.display_line(line);
                ops.append(&mut row);
                ops.push(PinOp::DelayUs(time_on));
                assert(ops@ =~= lit_ops(self.data@, self.brightness, line + 1));
            } else {
                assert(ops@ =~= lit_ops(self.data@, self.brightness, line + 1));
            }
            line += 1;
        }
        ops
    }

    /// Applies the word of the displayed hour: the hour is reduced to its
    /// twelve-hour alias, then rounded up once minutes reach thirty
    /// (wrapping to one past eleven); zero and twelve share the twelve
    /// word.
    fn set_hours(&mut self, hour: u8, min: u8)
        requires
            old(self).wf(),
            hour < 24,
            min < 60,
        ensures
            final(self).wf(),
            final(self).data@ == apply_word(
                old(self).data@,
                hour_word(displayed_hour(hour as int, min as int)),
            ),
            final(self).brightness == old(self).brightness,
            final(self).output_enabled == old(self).output_enabled,
    {
        let mut hours_display = hour;
        if hours_display >= 13 {
            hours_display -= 12;
        }
        if min >= 30 {
            hours_display += 1;
            if hours_display >= 12 {
                hours_display = 1;
            }
        }
        match hours_display {
            0 => self.set_line(words::ZWOELF_HOUR),
            1 => self.set_line(words::EINS_HOUR),
            2 => self.set_line(words::ZWEI_HOUR),
            3 => self.set_line(words::DREI_HOUR),
            4 => self.set_line(words::VIER_HOUR),
            5 => self.set_line(words::FUENF_HOUR),
            6 => self.set_line(words::SECHS_HOUR),
            7 => self.set_line(words::SIEBEN_HOUR),
            8 => self.set_line(words::ACHT_HOUR),
            9 => self.set_line(words::NEUN_HOUR),
            10 => self.set_line(words::ZEHN_HOUR),
            11 => self.set_line(words::ELF_HOUR),
            _ => {
                proof {
                    assert(hours_display == 12);
                }
                self.set_line(words::ZWOELF_HOUR)
            },
        }
    }

    /// Applies the one-to-three words of the minute phrase for the
    /// five-minute bucket the minute falls into.
    fn set_minutes(&mut self, min: u8)
        requires
            old(self).wf(),
            min < 60,
        ensures
            final(self).wf(),
            final(self).data@ == apply_words(old(self).data@, minute_phrase(min as int)),
            final(self).brightness == old(self).brightness,
            final(self).output_enabled == old(self).output_enabled,
    {
        let ghost rows0 = self.data@;
        let minutes_round = min - (min % 5);
        proof {
            vstd::arithmetic::div_mod::lemma_fundamental_div_mod(min as int, 5);
            assert(minutes_round == 5 * (min as int / 5));
            assert(min as int / 5 < 12) by (nonlinear_arith)
                requires
                    min < 60,
            ;
        }
        match minutes_round {
            0 => {
                self.set_line(words::UHR);
                proof {
                    lemma_apply_one(rows0, words::UHR);
                }
            },
            5 => {
                self.set_line(words::FUENF);
                self.set_line(words::NACH);
                proof {
                    lemma_apply_two(rows0, words::FUENF, words::NACH);
                }
            },
            10 => {
                self.set_line(words::ZEHN);
                self.set_line(words::NACH);
                proof {
                    lemma_apply_two(rows0, words::ZEHN, words::NACH);
                }
            },
            15 => {
                self.set_line(words::VIERTEL);
                self.set_line(words::NACH);
                proof {
                    lemma_apply_two(rows0, words::VIERTEL, words::NACH);
                }
            },
            20 => {
                self.set_line(words::ZWANZIG);
                self.set_line(words::NACH);
                proof {
                    lemma_apply_two(rows0, words::ZWANZIG, words::NACH);
                }
            },
            25 => {
                self.set_line(words::FUENF);
                self.set_line(words::VOR);
                self.set_line(words::HALB);
                proof {
                    lemma_apply_three(rows0, words::FUENF, words::VOR, words::HALB);
                }
            },
            30 => {
                self.set_line(words::HALB);
                proof {
                    lemma_apply_one(rows0, words::HALB);
                }
            },
            35 => {
                self.set_line(words::FUENF);
                self.set_line(words::NACH);
                self.set_line(words::HALB);
                proof {
                    lemma_apply_three(rows0, words::FUENF, words::NACH, words::HALB);
                }
            },
            40 => {
                self.set_line(words::ZWANZIG);
                self.set_line(words::VOR);
                proof {
                    lemma_apply_two(rows0, words::ZWANZIG, words::VOR);
                }
            },
            45 => {
                self.set_line(words::VIERTEL);
                self.set_line(words::VOR);
                proof {
                    lemma_apply_two(rows0, words::VIERTEL, words::VOR);
                }
            },
            50 => {
                self.set_line(words::ZEHN);
                self.set_line(words::VOR);
                proof {
                    lemma_apply_two(rows0, words::ZEHN, words::VOR);
                }
            },
            _ => {
                proof {
                    assert(minutes_round == 55);
                }
                self.set_line(words::FUENF);
                self.set_line(words::VOR);
                proof {
                    lemma_apply_two(rows0, words::FUENF, words::VOR);
                }
            },
        }
    }

    /// Lights one corner dot per minute past the five-minute boundary,
    /// in the fixed order top-left, top-right, bottom-left, bottom-right.
    fn set_sub_minutes(&mut self, min: u8)
        requires
            old(self).wf(),
        ensures
            final(self).wf(),
            final(self).data@ == apply_words(old(self).data@, corner_words(min as int % 5)),
            final(self).brightness == old(self).brightness,
            final(self).output_enabled == old(self).output_enabled,
    {
        let ghost rows0 = self.data@;
        let corner_count = min % 5;
        if corner_count >= 1 {
            self.set_line(corner::TOP_LEFT);
        }
        if corner_count >= 2 {
            self.set_line(corner::TOP_RIGHT);
        }
        if corner_count >= 3 {
            self.set_line(corner::BOTTOM_LEFT);
        }
        if corner_count >= 4 {
            self.set_line(corner::BOTTOM_RIGHT);
        }
        proof {
            if corner_count == 1 {
                lemma_apply_one(rows0, corner::TOP_LEFT);
            } else if corner_count == 2 {
                lemma_apply_two(rows0, corner::TOP_LEFT, corner::TOP_RIGHT);
            } else if corner_count == 3 {
                lemma_apply_three(
                    rows0,
                    corner::TOP_LEFT,
                    corner::TOP_RIGHT,
                    corner::BOTTOM_LEFT,
                );
            } else if corner_count == 4 {
                lemma_apply_four(
                    rows0,
                    corner::TOP_LEFT,
                    corner::TOP_RIGHT,
                    corner::BOTTOM_LEFT,
                    corner::BOTTOM_RIGHT,
                );
            }
        }
    }
}

} // verus!
