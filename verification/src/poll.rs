//! When to look for new data, and how long to sleep until then.

use vstd::prelude::*;

verus! {

/// The base interval between polls, in seconds.
pub const BASE_INTERVAL_SECS: u64 = 60;

/// The longest interval that failures lead to, in seconds.
pub const MAX_INTERVAL_SECS: u64 = 300;

/// The longest interval whose milliseconds can be counted.
pub const COUNTABLE_SECS: u64 = 18_446_744_073_709_551;

/// Milliseconds from `then` to `now`; none where the clock has not moved on.
pub open spec fn elapsed_ms(then: int, now: int) -> int {
    if now > then { now - then } else { 0 }
}

/// Milliseconds from `then` to `now`; none where the clock has not moved on.
pub fn elapsed(then: u64, now: u64) -> (r: u64)
    ensures
        r == elapsed_ms(then as int, now as int),
{
    if now > then { now - then } else { 0 }
}

/// What is left of an interval of seconds, in milliseconds.
pub open spec fn rest_ms(interval_secs: int, then: int, now: int) -> int {
    let left = interval_secs * 1000 - elapsed_ms(then, now);
    if left > 0 { left } else { 0 }
}

/// What is left of an interval of seconds, in milliseconds.
pub fn rest(interval_secs: u64, then: u64, now: u64) -> (r: u64)
    requires
        interval_secs <= COUNTABLE_SECS,
    ensures
        r == rest_ms(interval_secs as int, then as int, now as int),
{
    let whole: u64 = interval_secs * 1000;
    let gone: u64 = elapsed(then, now);
    if whole > gone { whole - gone } else { 0 }
}

/// The interval after one more failure: twice as long, up to the longest.
pub open spec fn backed_off(interval: u64) -> u64 {
    if interval * 2 < MAX_INTERVAL_SECS {
        (interval * 2) as u64
    } else {
        MAX_INTERVAL_SECS
    }
}

/// Auto-polling timer state. Instants are milliseconds on the monotonic clock.
pub struct AutoPollState {
    pub last_fetch_time: Option<u64>,
    pub enabled: bool,
    pub initial_fetch_done: bool,
    pub interval_secs: u64,
}

impl AutoPollState {
    /// A timer that has not started.
    pub fn new() -> (r: Self)
        ensures
            r == (AutoPollState {
                last_fetch_time: None,
                enabled: true,
                initial_fetch_done: false,
                interval_secs: BASE_INTERVAL_SECS,
            }),
    {
        AutoPollState {
            last_fetch_time: None,
            enabled: true,
            initial_fetch_done: false,
            interval_secs: BASE_INTERVAL_SECS,
        }
    }

    /// Whether the timer has run out at `now`.
    pub open spec fn due(self, now: int) -> bool {
        self.last_fetch_time matches Some(then) && elapsed_ms(then as int, now) / 1000
            >= self.interval_secs
    }

    /// The number of seconds the countdown shows at `now`, while a timer runs.
    pub open spec fn countdown(self, now: int) -> int {
        let gone = elapsed_ms(self.last_fetch_time->0 as int, now) / 1000;
        if self.interval_secs > gone {
            self.interval_secs - gone
        } else {
            0
        }
    }

    /// Whether the countdown is still to show another number.
    pub open spec fn ticking(self, now: int) -> bool {
        self.last_fetch_time is Some && !self.due(now)
    }

    /// Milliseconds from `now` until the countdown shows another number.
    pub open spec fn tick(self, now: int) -> int {
        1000 - elapsed_ms(self.last_fetch_time->0 as int, now) % 1000
    }

    /// Record that a fetch was dispatched at `now`.
    pub fn record_fetch(&mut self, now: u64)
        ensures
            *final(self) == (AutoPollState { last_fetch_time: Some(now), ..*old(self) }),
    {
        self.last_fetch_time = Some(now);
    }

    /// A scan loaded: back to the base interval.
    pub fn on_success(&mut self)
        ensures
            *final(self) == (AutoPollState { interval_secs: BASE_INTERVAL_SECS, ..*old(self) }),
    {
        self.interval_secs = BASE_INTERVAL_SECS;
    }

    /// A fetch failed: twice the interval, up to five minutes.
    pub fn on_error(&mut self)
        ensures
            *final(self) == (AutoPollState {
                interval_secs: backed_off(old(self).interval_secs),
                ..*old(self)
            }),
    {
        self.interval_secs =
        if self.interval_secs < 150 {
            self.interval_secs * 2
        } else {
            MAX_INTERVAL_SECS
        };
    }

    /// Whether the poll timer has elapsed and a new check should fire.
    pub fn should_poll(&self, now: u64) -> (r: bool)
        ensures
            r == (self.enabled && self.due(now as int)),
    {
        self.enabled && match self.last_fetch_time {
            Some(then) => elapsed(then, now) / 1000 >= self.interval_secs,
            None => false,
        }
    }

    /// Seconds remaining until the next poll, if a timer is running.
    pub fn time_until_next(&self, now: u64) -> (r: Option<u64>)
        ensures
            r is Some <==> self.last_fetch_time is Some,
            r matches Some(left) ==> left == self.countdown(now as int),
            r matches Some(left) ==> {
                let gone = elapsed_ms(self.last_fetch_time->0 as int, now as int) / 1000;
                left == if self.interval_secs > gone {
                    self.interval_secs - gone
                } else {
                    0
                }
            },
    {
        match self.last_fetch_time {
            Some(then) => {
                let gone: u64 = elapsed(then, now) / 1000;
                Some(if self.interval_secs > gone { self.interval_secs - gone } else { 0 })
            },
            None => None,
        }
    }

    /// Milliseconds until the poll fires, if a timer is running.
    pub fn poll_delay(&self, now: u64) -> (r: Option<u64>)
        requires
            self.interval_secs <= COUNTABLE_SECS,
        ensures
            r is Some <==> self.last_fetch_time is Some,
            r matches Some(delay) ==> delay == rest_ms(
                self.interval_secs as int,
                self.last_fetch_time->0 as int,
                now as int,
            ),
            r matches Some(delay) ==> (delay == 0 <==> self.due(now as int)),
    {
        match self.last_fetch_time {
            Some(then) => Some(rest(self.interval_secs, then, now)),
            None => None,
        }
    }

    /// Milliseconds until the printed countdown shows another number, or `None`
    /// once it has stopped at zero or where no timer is running.
    pub fn countdown_tick_delay(&self, now: u64) -> (r: Option<u64>)
        ensures
            r is Some <==> self.ticking(now as int),
            r is Some <==> self.last_fetch_time is Some && !self.due(now as int),
            r matches Some(tick) ==> tick == self.tick(now as int),
            r matches Some(tick) ==> tick == 1000 - elapsed_ms(
                self.last_fetch_time->0 as int,
                now as int,
            ) % 1000,
            r matches Some(tick) ==> 0 < tick <= 1000,
    {
        match self.last_fetch_time {
            Some(then) => {
                let gone: u64 = elapsed(then, now);
                if gone / 1000 >= self.interval_secs {
                    None
                } else {
                    Some(1000 - gone % 1000)
                }
            },
            None => None,
        }
    }

    /// Whether auto-poll has started and is enabled.
    pub fn is_active(&self) -> (r: bool)
        ensures
            r == (self.enabled && self.initial_fetch_done),
    {
        self.enabled && self.initial_fetch_done
    }

    /// The countdown ticks exactly when its number changes: just before the tick
    /// as many whole seconds have passed as now, and at the tick one more.
    pub proof fn law_tick_lands_on_change(self, now: int, tick: int)
        requires
            self.last_fetch_time matches Some(then) && now >= then,
            tick == 1000 - elapsed_ms(self.last_fetch_time->0 as int, now) % 1000,
        ensures
            ({
                let then = self.last_fetch_time->0 as int;
                &&& elapsed_ms(then, now + tick) / 1000 == elapsed_ms(then, now) / 1000 + 1
                &&& forall|t: int|
                    now <= t < now + tick ==> #[trigger] elapsed_ms(then, t) / 1000 == elapsed_ms(
                        then,
                        now,
                    ) / 1000
            }),
    {
    }

    /// Until the tick the countdown shows what it shows now, and at the tick it
    /// shows one less.
    pub proof fn law_countdown_changes_at_the_tick(self, now: int, later: int)
        requires
            self.last_fetch_time matches Some(then) && now >= then,
            self.countdown(now) > 0,
            now <= later <= now + self.tick(now),
        ensures
            self.tick(now) > 0,
            later < now + self.tick(now) ==> self.countdown(later) == self.countdown(now),
            later == now + self.tick(now) ==> self.countdown(later) == self.countdown(now) - 1,
    {
    }

    /// The countdown shows the time that is left, in seconds begun, and reaches
    /// zero exactly when the timer runs out.
    pub proof fn law_countdown_shows_what_is_left(self, now: int)
        requires
            self.last_fetch_time matches Some(then) && now >= then,
        ensures
            ({
                let left = self.last_fetch_time->0 + self.interval_secs * 1000 - now;
                &&& left > 0 ==> left <= self.countdown(now) * 1000 < left + 1000
                &&& left <= 0 ==> self.countdown(now) == 0
                &&& self.countdown(now) == 0 <==> self.due(now)
            }),
    {
    }

    /// However many fetches fail or succeed, the interval stays between the base
    /// and the longest one.
    pub proof fn law_backoff_is_bounded(interval: u64)
        requires
            BASE_INTERVAL_SECS <= interval <= MAX_INTERVAL_SECS,
        ensures
            interval <= backed_off(interval) <= MAX_INTERVAL_SECS,
    {
    }
}

/// The sooner of two delays, where either may be missing.
pub open spec fn sooner(a: Option<u64>, b: Option<u64>) -> Option<u64> {
    match (a, b) {
        (Some(x), Some(y)) => Some(if x <= y { x } else { y }),
        (Some(x), None) => Some(x),
        (None, y) => y,
    }
}

/// The sooner of two delays, where either may be missing.
pub fn sooner_of(a: Option<u64>, b: Option<u64>) -> (r: Option<u64>)
    ensures
        r == sooner(a, b),
{
    match (a, b) {
        (Some(x), Some(y)) => Some(if x <= y { x } else { y }),
        (Some(x), None) => Some(x),
        (None, y) => y,
    }
}

/// Time passes from `then` to `now`, and never backwards.
pub proof fn law_elapsed_time_is_the_difference(then: int, now: int)
    ensures
        now >= then ==> then + elapsed_ms(then, now) == now,
        now <= then ==> elapsed_ms(then, now) == 0,
{
}

/// What has passed of an interval and what is left of it make up the interval,
/// until it has passed whole.
pub proof fn law_rest_completes_the_interval(interval_secs: int, then: int, now: int)
    requires
        interval_secs >= 0,
        then <= now,
    ensures
        now - then <= interval_secs * 1000 ==> (now - then) + rest_ms(interval_secs, then, now)
            == interval_secs * 1000,
        now - then >= interval_secs * 1000 ==> rest_ms(interval_secs, then, now) == 0,
{
}

/// A failure doubles the interval until that would pass five minutes, and from
/// then on it is five minutes.
pub proof fn law_failure_doubles_the_interval(interval: u64)
    ensures
        interval <= 150 ==> backed_off(interval) == 2 * interval,
        interval >= 150 ==> backed_off(interval) == 300,
{
}

/// The timer has run out exactly when it was started and the interval, in whole
/// seconds, has passed since.
pub proof fn law_timer_runs_out_after_the_interval(timer: AutoPollState, now: int)
    ensures
        timer.last_fetch_time is None ==> !timer.due(now),
        timer.last_fetch_time matches Some(then) ==> now >= then ==> (timer.due(now) <==> now - then
            >= timer.interval_secs * 1000),
{
}

/// Once a timer has run out it stays so, however long nobody looks.
pub proof fn law_timer_stays_due(timer: AutoPollState, now: int, later: int)
    requires
        timer.due(now),
        now <= later,
    ensures
        timer.due(later),
{
}

/// The sooner of two delays is one of them and no later than either, and there is
/// one wherever there is either.
pub proof fn law_sooner_is_the_least(a: Option<u64>, b: Option<u64>)
    ensures
        sooner(a, b) == a || sooner(a, b) == b,
        sooner(a, b) is Some <==> a is Some || b is Some,
        a is Some ==> sooner(a, b)->0 <= a->0,
        b is Some ==> sooner(a, b)->0 <= b->0,
{
}

/// The countdown ticks while it shows a number, and stops at zero.
pub proof fn law_countdown_ticks_until_zero(timer: AutoPollState, now: int)
    ensures
        timer.last_fetch_time is None ==> !timer.ticking(now),
        timer.last_fetch_time is Some ==> (timer.ticking(now) <==> timer.countdown(now) > 0),
{
}

} // verus!
