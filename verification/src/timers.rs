//! Microsecond instants, the time-of-day ticker and the periodic timer.

use vstd::prelude::*;

verus! {

/// Number of values a 64-bit tick counter can take.
pub open spec fn tick_modulus() -> int {
    0x1_0000_0000_0000_0000
}

/// Sum of an instant's ticks and a span, reduced to 64 bits.
pub open spec fn wrapped_sum(start: u64, span: u64) -> u64 {
    ((start as int + span as int) % tick_modulus()) as u64
}

/// Distance from `b` forward to `a` on the 64-bit tick circle.
pub open spec fn wrapped_gap(a: u64, b: u64) -> u64 {
    ((a as int - b as int) % tick_modulus()) as u64
}

/// Whether tick count `a` lies strictly after `b`, wrap-around allowed for:
/// `a` is after `b` when it is less than half the counter's range ahead.
pub open spec fn ticks_after(a: u64, b: u64) -> bool {
    a != b && wrapped_gap(a, b) < 0x7FFF_FFFF_FFFF_FFFF
}

/// `fugit::Instant::<u64, 1, 1_000_000>` plus `fugit::Duration` of the same
/// base, on raw tick counts. With equal bases the sum is the wrapping sum of
/// the two counts and the addition never fails.
#[verifier::external_body]
fn instant_plus(start: u64, span: u64) -> (sum: u64)
    ensures
        sum == wrapped_sum(start, span),
{
    let at = fugit::Instant::<u64, 1, 1_000_000>::from_ticks(start);
    let by = fugit::Duration::<u64, 1, 1_000_000>::from_ticks(span);
    (at + by).ticks()
}

/// The `>` of `fugit::Instant::<u64, 1, 1_000_000>`, on raw tick counts. It is
/// true when the counts differ and the wrapping difference `a - b` is below
/// half the counter's range.
#[verifier::external_body]
fn instant_after(a: u64, b: u64) -> (after: bool)
    ensures
        after == ticks_after(a, b),
{
    let left = fugit::Instant::<u64, 1, 1_000_000>::from_ticks(a);
    let right = fugit::Instant::<u64, 1, 1_000_000>::from_ticks(b);
    left > right
}

/// `fugit::Duration::<u64, 1, 1_000_000>::micros`, read back as ticks. One
/// tick of this base is one microsecond, so the count is handed through.
#[verifier::external_body]
fn micros_to_ticks(micros: u64) -> (ticks: u64)
    ensures
        ticks == micros,
{
    fugit::Duration::<u64, 1, 1_000_000>::micros(micros).ticks()
}

/// A point in time, in microsecond ticks.
#[derive(Copy, Clone, Debug, PartialEq, Eq, Structural)]
pub struct TickInstant {
    pub ticks: u64,
}

/// A span of time, in microsecond ticks.
#[derive(Copy, Clone, Debug, PartialEq, Eq, Structural)]
pub struct TickDuration {
    pub ticks: u64,
}

impl TickDuration {
    pub fn from_ticks(ticks: u64) -> (d: Self)
        ensures
            d.ticks == ticks,
    {
        TickDuration { ticks }
    }

    /// A span of `micros` microseconds.
    pub fn micros(micros: u64) -> (d: Self)
        ensures
            d.ticks == micros,
    {
        TickDuration { ticks: micros_to_ticks(micros) }
    }

    pub fn ticks(&self) -> (t: u64)
        ensures
            t == self.ticks,
    {
        self.ticks
    }
}

impl TickInstant {
    /// The instant a span after this one; the tick count wraps at 64 bits.
    pub open spec fn plus_spec(self, span: TickDuration) -> TickInstant {
        TickInstant { ticks: wrapped_sum(self.ticks, span.ticks) }
    }

    /// Whether this instant lies strictly after `other`.
    pub open spec fn after_spec(self, other: TickInstant) -> bool {
        ticks_after(self.ticks, other.ticks)
    }

    pub fn from_ticks(ticks: u64) -> (i: Self)
        ensures
            i.ticks == ticks,
    {
        TickInstant { ticks }
    }

    pub fn ticks(&self) -> (t: u64)
        ensures
            t == self.ticks,
    {
        self.ticks
    }

    pub fn plus(self, span: TickDuration) -> (later: Self)
        ensures
            later == self.plus_spec(span),
    {
        TickInstant { ticks: instant_plus(self.ticks, span.ticks) }
    }

    pub fn is_after(self, other: TickInstant) -> (after: bool)
        ensures
            after == self.after_spec(other),
    {
        instant_after(self.ticks, other.ticks)
    }
}

/// Microseconds in one day: the ticker's readings stay below this.
pub const MICROS_PER_DAY: u64 = 86_400_000_000;

/// One reading of the real-time clock's time of day.
#[derive(Copy, Clone, Debug, PartialEq, Eq, Structural)]
pub struct ClockReading {
    pub hours: u8,
    pub minutes: u8,
    pub seconds: u8,
    pub micros: u32,
}

impl ClockReading {
    /// A reading that a clock can show: every field within its unit.
    pub open spec fn is_valid(self) -> bool {
        self.hours < 24 && self.minutes < 60 && self.seconds < 60 && self.micros < 1_000_000
    }

    /// Microseconds since midnight.
    pub open spec fn micros_of_day(self) -> int {
        self.hours as int * 3_600_000_000 + self.minutes as int * 60_000_000 + self.seconds as int
            * 1_000_000 + self.micros as int
    }

    /// `self` shows the same time as `later` or an earlier one, fields
    /// compared from hours down to microseconds.
    pub open spec fn not_later_than(self, later: ClockReading) -> bool {
        self.hours < later.hours || (self.hours == later.hours && (self.minutes < later.minutes || (
        self.minutes == later.minutes && (self.seconds < later.seconds || (self.seconds
            == later.seconds && self.micros <= later.micros)))))
    }

    pub fn new(hours: u8, minutes: u8, seconds: u8, micros: u32) -> (r: Self)
        ensures
            r == (ClockReading { hours, minutes, seconds, micros }),
    {
        ClockReading { hours, minutes, seconds, micros }
    }

    /// Folds the reading into a microsecond count since midnight.
    pub fn to_ticks(&self) -> (t: u64)
        ensures
            t == self.micros_of_day(),
            self.is_valid() ==> t < MICROS_PER_DAY,
    {
        let h: u64 = self.hours as u64;
        let m: u64 = self.minutes as u64;
        let s: u64 = self.seconds as u64;
        let us: u64 = self.micros as u64;
        h * 3_600_000_000u64 + m * 60_000_000u64 + s * 1_000_000u64 + us
    }
}

/// Keeps the time of day as last read from the real-time clock. The owner of
/// the clock latches a fresh reading before each query; nothing is cached
/// beyond that reading and no date is kept, so the count starts over at
/// midnight.
pub struct Ticker {
    rtc: ClockReading,
}

impl Ticker {
    /// The reading that `now` folds.
    pub closed spec fn reading(&self) -> ClockReading {
        self.rtc
    }

    /// The instant that `now` returns.
    pub open spec fn now_spec(&self) -> TickInstant {
        TickInstant { ticks: self.reading().micros_of_day() as u64 }
    }

    pub fn new(nrtc: ClockReading) -> (t: Self)
        ensures
            t.reading() == nrtc,
    {
        Ticker { rtc: nrtc }
    }

    /// Replaces the held reading by a fresh one.
    pub fn latch(&mut self, reading: ClockReading)
        ensures
            final(self).reading() == reading,
    {
        self.rtc = reading;
    }

    /// The held reading as microseconds since midnight:
    /// `h * 3_600_000_000 + m * 60_000_000 + s * 1_000_000 + micro`.
    pub fn now(&self) -> (t: TickInstant)
        ensures
            t.ticks == self.reading().micros_of_day(),
            t == self.now_spec(),
            self.reading().is_valid() ==> t.ticks < MICROS_PER_DAY,
    {
        TickInstant { ticks: self.rtc.to_ticks() }
    }
}

/// What a timer is: its pending deadline and the period of the next advance.
pub ghost struct TimerView {
    pub end_time: TickInstant,
    pub period: TickDuration,
}

impl TimerView {
    /// A timer started at `now`.
    pub open spec fn started(now: TickInstant, period: TickDuration) -> TimerView {
        TimerView { end_time: now.plus_spec(period), period }
    }

    /// Whether the deadline has passed at `now`.
    pub open spec fn is_due(self, now: TickInstant) -> bool {
        now.after_spec(self.end_time)
    }

    /// The timer with its deadline moved to one period after `now`.
    pub open spec fn restarted(self, now: TickInstant) -> TimerView {
        TimerView { end_time: now.plus_spec(self.period), period: self.period }
    }

    /// The timer after a poll at `now`: restarted if due, else unchanged.
    pub open spec fn polled(self, now: TickInstant) -> TimerView {
        if self.is_due(now) {
            self.restarted(now)
        } else {
            self
        }
    }

    /// The timer with another period and the same pending deadline.
    pub open spec fn with_period(self, period: TickDuration) -> TimerView {
        TimerView { end_time: self.end_time, period }
    }
}

/// A periodic deadline that forgets missed periods: each time it fires, the
/// next deadline is one period after the instant of the check, not after the
/// old deadline.
pub struct MyTimer {
    end_time: TickInstant,
    dur: TickDuration,
}

impl View for MyTimer {
    type V = TimerView;

    closed spec fn view(&self) -> TimerView {
        TimerView { end_time: self.end_time, period: self.dur }
    }
}

impl MyTimer {
    pub fn new(duration: TickDuration, ticker: &Ticker) -> (t: Self)
        ensures
            t@ == TimerView::started(ticker.now_spec(), duration),
    {
        MyTimer { end_time: ticker.now().plus(duration), dur: duration }
    }

    /// A timer with a period of half a second.
    pub fn new_default(ticker: &Ticker) -> (t: Self)
        ensures
            t@ == TimerView::started(ticker.now_spec(), TickDuration { ticks: 500_000 }),
    {
        let half_second = TickDuration::micros(500_000);
        MyTimer { end_time: ticker.now().plus(half_second), dur: half_second }
    }

    /// Sets the period of the next advance; the pending deadline stays.
    pub fn set_duration(&mut self, new_dur: TickDuration)
        ensures
            final(self)@ == old(self)@.with_period(new_dur),
    {
        self.dur = new_dur;
    }

    /// As `set_duration`, with the period given in microseconds.
    pub fn set_duration_u8(&mut self, new_dur: u64)
        ensures
            final(self)@ == old(self)@.with_period(TickDuration { ticks: new_dur }),
    {
        self.dur = TickDuration::micros(new_dur);
    }

    pub fn end_time(&self) -> (t: TickInstant)
        ensures
            t == self@.end_time,
    {
        self.end_time
    }

    pub fn duration(&self) -> (d: TickDuration)
        ensures
            d == self@.period,
    {
        self.dur
    }

    /// Whether the ticker's time has passed the deadline. Changes nothing.
    pub fn is_due(&self, ticker: &Ticker) -> (due: bool)
        ensures
            due == self@.is_due(ticker.now_spec()),
    {
        ticker.now().is_after(self.end_time)
    }

    /// Polls the timer. It is ready if and only if the ticker's time is
    /// strictly after the deadline; the deadline then moves to one period
    /// after the ticker's time. Otherwise nothing changes.
    pub fn is_ready(&mut self, ticker: &Ticker) -> (ready: bool)
        ensures
            ready == old(self)@.is_due(ticker.now_spec()),
            final(self)@ == old(self)@.polled(ticker.now_spec()),
    {
        let now = ticker.now();
        if now.is_after(self.end_time) {
            self.end_time = now.plus(self.dur);
            return true;
        }
        false
    }

    /// Ends a blocking wait. The caller spins, latching fresh readings into
    /// the ticker, until `is_due` holds; this call then moves the deadline to
    /// one period after the ticker's time. It always reports ready.
    pub fn blocking_is_ready(&mut self, ticker: &Ticker) -> (ready: bool)
        ensures
            ready,
            final(self)@ == old(self)@.restarted(ticker.now_spec()),
    {
        self.end_time = ticker.now().plus(self.dur);
        true
    }
}

/// Between two tick counts less than half the counter's range apart, "after"
/// is the order of the counts.
pub proof fn lemma_after_is_order_of_counts(a: u64, b: u64)
    requires
        a - b < 0x7FFF_FFFF_FFFF_FFFF,
        b - a < 0x7FFF_FFFF_FFFF_FFFF,
    ensures
        ticks_after(a, b) == (a > b),
{
}

/// Of two valid readings of one day, the one that shows the later time gives
/// the later instant: the count of the earlier is not above the count of the
/// later, and the earlier instant is not after the later one.
pub proof fn lemma_now_is_monotonic(earlier: ClockReading, later: ClockReading)
    requires
        earlier.is_valid(),
        later.is_valid(),
        earlier.not_later_than(later),
    ensures
        earlier.micros_of_day() <= later.micros_of_day(),
        later.micros_of_day() < MICROS_PER_DAY,
        !ticks_after(earlier.micros_of_day() as u64, later.micros_of_day() as u64),
        earlier != later ==> earlier.micros_of_day() < later.micros_of_day() && ticks_after(
            later.micros_of_day() as u64,
            earlier.micros_of_day() as u64,
        ),
{
}

/// A poll at or before the deadline changes nothing. A poll after it moves
/// the deadline to one period after the instant of the poll, whatever the old
/// deadline was, and a second poll at that instant finds the timer not due,
/// for a period of up to half the counter's range.
pub proof fn lemma_poll_fires_once(v: TimerView, now: TickInstant)
    ensures
        !v.is_due(now) ==> v.polled(now) == v,
        v.is_due(now) ==> v.polled(now).end_time == now.plus_spec(v.period),
        v.polled(now).period == v.period,
        v.is_due(now) && v.period.ticks <= 0x8000_0000_0000_0001 ==> !v.polled(now).is_due(now),
{
}

/// A new period leaves the pending deadline alone and governs the next
/// advance: the poll that fires after the change sets the deadline one new
/// period after its instant.
pub proof fn lemma_new_period_governs_next_advance(
    v: TimerView,
    period: TickDuration,
    now: TickInstant,
)
    ensures
        v.with_period(period).end_time == v.end_time,
        v.with_period(period).is_due(now) == v.is_due(now),
        v.is_due(now) ==> v.with_period(period).polled(now) == TimerView::started(now, period),
        v.with_period(period).restarted(now) == TimerView::started(now, period),
{
}

} // verus!
