//! The displayed month and its automatic cycling through the year.

use vstd::prelude::*;
use vstd::string::StringExecFns;
use bevy_time::{Timer, TimerMode};
use std::time::Duration;

verus! {

/// Months in a year, and textures of the globe.
pub const MONTHS: i8 = 12;

/// Longest time between two steps of the cycle, in milliseconds.
pub const MAX_CYCLE_DURATION: u64 = 1000;

/// Nanoseconds in a millisecond.
pub const NANOS_PER_MILLI: u64 = 1_000_000;

/// What a [`MonthState`] holds, as plain numbers.
pub struct MonthSettings {
    /// The displayed month, from 1 for January to 12 for December.
    pub month: int,
    /// Whether the month advances by itself.
    pub cycle_month: bool,
    /// Milliseconds between two steps of the cycle, from 1 to 1000.
    pub cycle_duration: int,
}

impl MonthSettings {
    /// The month is one of the twelve and the cycle duration is in range.
    pub open spec fn wf(self) -> bool {
        &&& 1 <= self.month <= MONTHS
        &&& 1 <= self.cycle_duration <= MAX_CYCLE_DURATION
    }

    /// The settings one month later, December being followed by January.
    pub open spec fn next(self) -> MonthSettings {
        MonthSettings { month: self.month % (MONTHS as int) + 1, ..self }
    }

    /// The settings `n` months later.
    pub open spec fn advanced(self, n: nat) -> MonthSettings
        decreases n,
    {
        if n == 0 {
            self
        } else {
            self.advanced((n - 1) as nat).next()
        }
    }

    /// The position of the month's texture among `loaded` textures held in
    /// calendar order, if that texture is there.
    pub open spec fn texture_index(self, loaded: int) -> Option<int> {
        if self.month - 1 < loaded {
            Some(self.month - 1)
        } else {
            None
        }
    }
}

/// The displayed month and how it cycles.
#[derive(Clone, Copy, Debug)]
pub struct MonthState {
    month: i8,
    cycle_month: bool,
    cycle_duration: u64,
}

impl View for MonthState {
    type V = MonthSettings;

    closed spec fn view(&self) -> MonthSettings {
        MonthSettings {
            month: self.month as int,
            cycle_month: self.cycle_month,
            cycle_duration: self.cycle_duration as int,
        }
    }
}

impl Default for MonthState {
    /// January, cycling once a second.
    fn default() -> (r: MonthState)
        ensures
            r@ == (MonthSettings { month: 1, cycle_month: true, cycle_duration: 1000 }),
            r@.wf(),
    {
        MonthState { month: 1, cycle_month: true, cycle_duration: 1000 }
    }
}

impl MonthState {
    #[verifier::type_invariant]
    closed spec fn inv(self) -> bool {
        self@.wf()
    }

    /// Builds a state, or `None` when `month` is not one of the twelve or
    /// `cycle_duration` is not from 1 to 1000 milliseconds.
    pub fn new(month: i8, cycle_month: bool, cycle_duration: u64) -> (r: Option<MonthState>)
        ensures
            r is Some <==> 1 <= month <= MONTHS && 1 <= cycle_duration <= MAX_CYCLE_DURATION,
            r matches Some(state) ==> state@ == (MonthSettings {
                month: month as int,
                cycle_month,
                cycle_duration: cycle_duration as int,
            }),
    {
        if 1 <= month && month <= MONTHS && 1 <= cycle_duration && cycle_duration
            <= MAX_CYCLE_DURATION {
            Some(MonthState { month, cycle_month, cycle_duration })
        } else {
            None
        }
    }

    /// The displayed month, from 1 to 12.
    pub fn month(&self) -> (m: i8)
        ensures
            m == self@.month,
            self@.wf(),
    {
        proof {
            use_type_invariant(self);
        }
        self.month
    }

    /// Whether the month advances by itself.
    pub fn cycle_month(&self) -> (b: bool)
        ensures
            b == self@.cycle_month,
    {
        self.cycle_month
    }

    /// Milliseconds between two steps of the cycle, from 1 to 1000.
    pub fn cycle_duration(&self) -> (d: u64)
        ensures
            d == self@.cycle_duration,
            self@.wf(),
    {
        proof {
            use_type_invariant(self);
        }
        self.cycle_duration
    }

    /// Shows `month` if it is one of the twelve, and says whether it did.
    pub fn set_month(&mut self, month: i8) -> (accepted: bool)
        ensures
            accepted == (1 <= month <= MONTHS),
            accepted ==> final(self)@ == (MonthSettings { month: month as int, ..old(self)@ }),
            !accepted ==> final(self)@ == old(self)@,
            final(self)@.wf(),
    {
        proof {
            use_type_invariant(&*self);
        }
        if 1 <= month && month <= MONTHS {
            self.month = month;
            true
        } else {
            false
        }
    }

    /// Switches the automatic cycling on or off.
    pub fn set_cycle_month(&mut self, cycle_month: bool)
        ensures
            final(self)@ == (MonthSettings { cycle_month, ..old(self)@ }),
            final(self)@.wf(),
    {
        proof {
            use_type_invariant(&*self);
        }
        self.cycle_month = cycle_month;
    }

    /// Sets the time between two steps of the cycle if it is from 1 to 1000
    /// milliseconds, and says whether it did.
    pub fn set_cycle_duration(&mut self, millis: u64) -> (accepted: bool)
        ensures
            accepted == (1 <= millis <= MAX_CYCLE_DURATION),
            accepted ==> final(self)@ == (MonthSettings {
                cycle_duration: millis as int,
                ..old(self)@
            }),
            !accepted ==> final(self)@ == old(self)@,
            final(self)@.wf(),
    {
        proof {
            use_type_invariant(&*self);
        }
        if 1 <= millis && millis <= MAX_CYCLE_DURATION {
            self.cycle_duration = millis;
            true
        } else {
            false
        }
    }

    /// Moves on to the next month, December being followed by January.
    pub fn cycle_through_months(&mut self)
        ensures
            final(self)@ == old(self)@.next(),
            final(self)@.wf(),
    {
        proof {
            use_type_invariant(&*self);
        }
        self.month = (self.month % MONTHS) + 1;
    }

    /// The position of the displayed month's texture among `loaded` textures
    /// held in calendar order, or `None` while that texture is missing.
    pub fn texture_index(&self, loaded: usize) -> (r: Option<usize>)
        ensures
            r matches Some(i) ==> self@.texture_index(loaded as int) == Some(i as int),
            r is None ==> self@.texture_index(loaded as int) is None,
    {
        proof {
            use_type_invariant(self);
        }
        let index: usize = (self.month - 1) as usize;
        if index < loaded {
            Some(index)
        } else {
            None
        }
    }
}

/// After `n` steps the month has moved `n` places round the year, and
/// nothing else has changed.
pub proof fn lemma_advanced_month(settings: MonthSettings, n: nat)
    requires
        settings.wf(),
    ensures
        settings.advanced(n) == (MonthSettings {
            month: (settings.month - 1 + n) % (MONTHS as int) + 1,
            ..settings
        }),
        settings.advanced(n).wf(),
    decreases n,
{
    if n > 0 {
        lemma_advanced_month(settings, (n - 1) as nat);
    }
}

/// A year of steps brings the same month back.
pub proof fn lemma_year_is_a_cycle(settings: MonthSettings)
    requires
        settings.wf(),
    ensures
        settings.advanced(MONTHS as nat) == settings,
{
    lemma_advanced_month(settings, MONTHS as nat);
}

/// Stepping keeps the settings well formed and changes only the month.
pub proof fn lemma_next_is_well_formed(settings: MonthSettings)
    requires
        settings.wf(),
    ensures
        settings.next().wf(),
        settings.next().cycle_month == settings.cycle_month,
        settings.next().cycle_duration == settings.cycle_duration,
        settings.next().month != settings.month,
{
}

/// The character for a decimal digit.
pub open spec fn digit_char(d: int) -> char {
    ('0' as int + d) as char
}

/// The path of the globe's texture for `month`: the month's number in two
/// digits between a fixed prefix and the file extension.
pub open spec fn texture_path_of(month: int) -> Seq<char> {
    "globe/earth_"@ + seq![digit_char(month / 10), digit_char(month % 10)] + ".png"@
}

fn digit_str(d: i8) -> (r: &'static str)
    requires
        0 <= d <= 9,
    ensures
        r@ == seq![digit_char(d as int)],
{
    proof {
        reveal_strlit("0");
        reveal_strlit("1");
        reveal_strlit("2");
        reveal_strlit("3");
        reveal_strlit("4");
        reveal_strlit("5");
        reveal_strlit("6");
        reveal_strlit("7");
        reveal_strlit("8");
        reveal_strlit("9");
    }
    let r = if d == 0 {
        "0"
    } else if d == 1 {
        "1"
    } else if d == 2 {
        "2"
    } else if d == 3 {
        "3"
    } else if d == 4 {
        "4"
    } else if d == 5 {
        "5"
    } else if d == 6 {
        "6"
    } else if d == 7 {
        "7"
    } else if d == 8 {
        "8"
    } else {
        "9"
    };
    assert(r@ =~= seq![digit_char(d as int)]);
    r
}

/// The path of the globe's texture for `month`, or `None` when `month` is
/// not one of the twelve.
pub fn texture_path(month: i8) -> (r: Option<String>)
    ensures
        r is Some <==> 1 <= month <= MONTHS,
        r matches Some(path) ==> path@ == texture_path_of(month as int),
{
    if month < 1 || month > MONTHS {
        return None;
    }
    let mut path = String::from_str("globe/earth_");
    path.append(digit_str(month / 10));
    path.append(digit_str(month % 10));
    path.append(".png");
    assert(path@ =~= texture_path_of(month as int));
    Some(path)
}

/// The paths of the twelve textures, in calendar order.
pub fn texture_paths() -> (r: Vec<String>)
    ensures
        r.len() == MONTHS,
        forall|i: int| 0 <= i < MONTHS ==> (#[trigger] r[i])@ == texture_path_of(i + 1),
{
    let mut paths: Vec<String> = Vec::new();
    let mut month: i8 = 1;
    while month <= MONTHS
        invariant
            1 <= month <= MONTHS + 1,
            paths.len() == month - 1,
            forall|i: int| 0 <= i < month - 1 ==> (#[trigger] paths[i])@ == texture_path_of(i + 1),
        decreases MONTHS + 1 - month,
    {
        match texture_path(month) {
            Some(path) => {
                paths.push(path);
            },
            None => {},
        }
        month = month + 1;
    }
    paths
}

/// Nanoseconds that a repeating timer with a positive `period` holds after a
/// tick of `delta` that found it at `elapsed`: whole periods are taken out.
pub open spec fn cycle_elapsed(elapsed: int, period: int, delta: int) -> int {
    (elapsed + delta) % period
}

/// Whether that tick completed the period: the count of completed periods,
/// kept in 32 bits, is not zero.
pub open spec fn cycle_fires(elapsed: int, period: int, delta: int) -> bool {
    ((elapsed + delta) / period) % 0x1_0000_0000 != 0
}

/// One tick of `bevy_time::Timer` in repeating mode, from plain numbers to
/// plain numbers: a timer with the period `period_nanos` that has
/// `elapsed_nanos` on it is ticked by `delta_nanos`. Returns the time then
/// on the timer, in nanoseconds, and `Timer::just_finished`. Taken from the
/// source of `Timer::tick`: the time adds up, whole periods are taken out of
/// it, and their count is kept as a `u32`.
#[verifier::external_body]
fn repeating_timer_tick(elapsed_nanos: u64, period_nanos: u64, delta_nanos: u64) -> (r: (
    u128,
    bool,
))
    requires
        period_nanos > 0,
    ensures
        r.0 == cycle_elapsed(elapsed_nanos as int, period_nanos as int, delta_nanos as int),
        r.1 == cycle_fires(elapsed_nanos as int, period_nanos as int, delta_nanos as int),
{
    let mut timer = Timer::new(Duration::from_nanos(period_nanos), TimerMode::Repeating);
    timer.set_elapsed(Duration::from_nanos(elapsed_nanos));
    timer.tick(Duration::from_nanos(delta_nanos));
    (timer.elapsed().as_nanos(), timer.just_finished())
}

/// The time gathered toward the next step of the month cycle.
#[derive(Clone, Copy, Debug)]
pub struct CycleTimer {
    elapsed_nanos: u64,
}

impl View for CycleTimer {
    type V = nat;

    /// Nanoseconds gathered since the cycle last fired.
    closed spec fn view(&self) -> nat {
        self.elapsed_nanos as nat
    }
}

impl Default for CycleTimer {
    /// A timer with no time on it.
    fn default() -> (r: CycleTimer)
        ensures
            r@ == 0,
    {
        CycleTimer { elapsed_nanos: 0 }
    }
}

impl CycleTimer {
    /// Nanoseconds gathered since the cycle last fired.
    pub fn elapsed_nanos(&self) -> (r: u64)
        ensures
            r == self@,
    {
        self.elapsed_nanos
    }

    /// Accounts for a frame of `delta_nanos` nanoseconds and says whether the
    /// month is due to advance. While cycling is switched off the timer
    /// stands still. Otherwise frame times add up until they reach the cycle
    /// duration; the timer then fires and keeps what went beyond it.
    pub fn tick(&mut self, state: &MonthState, delta_nanos: u64) -> (fired: bool)
        ensures
            !state@.cycle_month ==> !fired && final(self)@ == old(self)@,
            state@.cycle_month ==> {
                let period = state@.cycle_duration * NANOS_PER_MILLI;
                &&& final(self)@ == cycle_elapsed(old(self)@ as int, period, delta_nanos as int)
                &&& fired == cycle_fires(old(self)@ as int, period, delta_nanos as int)
            },
    {
        if !state.cycle_month() {
            return false;
        }
        let period: u64 = state.cycle_duration() * NANOS_PER_MILLI;
        let (elapsed, fired) = repeating_timer_tick(self.elapsed_nanos, period, delta_nanos);
        assert(0 <= (self.elapsed_nanos + delta_nanos) % (period as int) < period)
            by (nonlinear_arith)
            requires
                period > 0,
                self.elapsed_nanos + delta_nanos >= 0,
        ;
        self.elapsed_nanos = elapsed as u64;
        fired
    }
}

/// The cycle timer gathers frame times and starts over when it fires: short
/// of the period it keeps the sum and stays silent; from the period on, and
/// short of 2^32 periods, it fires; and it never holds a whole period.
pub proof fn lemma_cycle_accumulates(elapsed: int, period: int, delta: int)
    requires
        0 <= elapsed,
        0 <= delta,
        0 < period,
    ensures
        0 <= cycle_elapsed(elapsed, period, delta) < period,
        elapsed + delta < period ==> !cycle_fires(elapsed, period, delta) && cycle_elapsed(
            elapsed,
            period,
            delta,
        ) == elapsed + delta,
        period <= elapsed + delta < 0x1_0000_0000 * period ==> cycle_fires(elapsed, period, delta),
{
    let total = elapsed + delta;
    vstd::arithmetic::div_mod::lemma_fundamental_div_mod(total, period);
    vstd::arithmetic::div_mod::lemma_mod_bound(total, period);
    if total < period {
        vstd::arithmetic::div_mod::lemma_small_mod(total as nat, period as nat);
        vstd::arithmetic::div_mod::lemma_basic_div(total, period);
    } else if total < 0x1_0000_0000 * period {
        let q = total / period;
        assert(1 <= q < 0x1_0000_0000) by (nonlinear_arith)
            requires
                total == period * q + total % period,
                0 <= total % period < period,
                period <= total < 0x1_0000_0000 * period,
        ;
    }
}

} // verus!
