//! The decisions of the two producers. Each runs in a loop of its own
//! outside this library: the keyboard reader hands each read to
//! `input_step`, the ticker hands each reading of its clock to
//! `TickClock::step`; both stop once the step says so.
use vstd::prelude::*;

use crate::channel::EventSender;
use crate::host::Event;
use crate::interval::Interval;
use crate::keys::{ends_input, is_exit_key, Key};

verus! {

/// Whether the keyboard reader goes on after forwarding `key`: only where the
/// key was delivered and is neither the quit key nor escape.
pub fn input_continues(key: &Key, delivered: bool) -> (go_on: bool)
    ensures
        go_on == (delivered && !ends_input(*key)),
{
    delivered && !is_exit_key(key)
}

/// One step of the keyboard reader on what it read: `None` is a failed or
/// closed input stream, which ends the reader at once and hands over
/// nothing; a key is handed over as an input event, and the reader goes on
/// only where it was delivered and is neither the quit key nor escape.
pub fn input_step(tx: &mut EventSender, read: Option<Key>) -> (go_on: bool)
    ensures
        read is None ==> !go_on && final(tx)@ == old(tx)@,
        read matches Some(k) ==> ({
            &&& final(tx)@ == old(tx)@.push((Event::Input(k), final(tx)@.last().1))
            &&& go_on == (final(tx)@.last().1 && !ends_input(k))
        }),
{
    match read {
        Some(key) => {
            let delivered = tx.hand_over(Event::Input(key));
            input_continues(&key, delivered)
        },
        None => false,
    }
}

/// A tick is due at `now` where a whole interval has passed since `last`.
pub open spec fn tick_due(rate: int, last: int, now: int) -> bool {
    now >= last && now - last >= rate
}

/// Tick times, from a start at time zero, that are each a whole interval
/// after the one before.
pub open spec fn spaced(rate: int, ticks: Seq<int>) -> bool {
    &&& ticks.len() > 0 ==> ticks[0] >= rate
    &&& forall|i: int| 0 < i < ticks.len() ==> #[trigger] ticks[i] - ticks[i - 1] >= rate
}

/// What a ticker's clock holds: the interval, the time of the last tick, and
/// the times of all delivered ticks, in nanoseconds from the ticker's start.
pub struct ClockState {
    pub rate: int,
    pub last_tick: int,
    pub ticks: Seq<int>,
}

/// The ticker's clock.
pub struct TickClock {
    rate: u128,
    last_tick: u128,
    ticks: Ghost<Seq<int>>,
}

impl View for TickClock {
    type V = ClockState;

    closed spec fn view(&self) -> ClockState {
        ClockState { rate: self.rate as int, last_tick: self.last_tick as int, ticks: self.ticks@ }
    }
}

/// Ticks are never closer than the interval: the first comes a whole
/// interval after the ticker's start, each next one a whole interval after
/// the one before.
pub proof fn lemma_ticks_spaced(clock: &TickClock, i: int)
    requires
        clock.wf(),
        0 <= i < clock@.ticks.len(),
    ensures
        i == 0 ==> clock@.ticks[i] >= clock@.rate,
        i > 0 ==> clock@.ticks[i] - clock@.ticks[i - 1] >= clock@.rate,
{
}

impl TickClock {
    /// The last tick is the last delivered one (time zero before any), and
    /// the delivered ticks are spaced by the interval.
    pub open spec fn wf(&self) -> bool {
        &&& self@.last_tick == if self@.ticks.len() == 0 {
            0
        } else {
            self@.ticks.last()
        }
        &&& spaced(self@.rate, self@.ticks)
    }

    /// A clock that ticks every `rate`, started at time zero.
    pub fn new(rate: Interval) -> (r: TickClock)
        requires
            rate.wf(),
        ensures
            r.wf(),
            r@.rate == rate.nanos_total(),
            r@.last_tick == 0,
            r@.ticks == Seq::<int>::empty(),
    {
        TickClock { rate: rate.as_nanos(), last_tick: 0, ticks: Ghost(Seq::empty()) }
    }

    /// The interval in nanoseconds.
    pub fn rate(&self) -> (r: u128)
        ensures
            r == self@.rate,
    {
        self.rate
    }

    /// The time of the last tick in nanoseconds.
    pub fn last_tick(&self) -> (r: u128)
        ensures
            r == self@.last_tick,
    {
        self.last_tick
    }

    /// Whether a tick is due at `now`.
    pub fn is_due(&self, now: u128) -> (r: bool)
        ensures
            r == tick_due(self@.rate, self@.last_tick, now as int),
    {
        now >= self.last_tick && now - self.last_tick >= self.rate
    }

    /// What follows a tick that was due and sent at `now`: where it was
    /// delivered the clock starts over from `now` and the ticker goes on;
    /// else the ticker ends, its clock unchanged.
    pub fn after_tick(&mut self, now: u128, delivered: bool) -> (go_on: bool)
        requires
            old(self).wf(),
            tick_due(old(self)@.rate, old(self)@.last_tick, now as int),
        ensures
            go_on == delivered,
            final(self).wf(),
            final(self)@ == if delivered {
                ClockState {
                    rate: old(self)@.rate,
                    last_tick: now as int,
                    ticks: old(self)@.ticks.push(now as int),
                }
            } else {
                old(self)@
            },
    {
        if delivered {
            self.last_tick = now;
            self.ticks = Ghost(self.ticks@.push(now as int));
        }
        delivered
    }

    /// One check of the clock at `now`. Where no tick is due it hands over
    /// nothing and goes on. Where one is due it hands over exactly one tick;
    /// if delivered, the clock starts over from `now` and the ticker goes
    /// on, else the ticker ends.
    pub fn step(&mut self, tx: &mut EventSender, now: u128) -> (go_on: bool)
        requires
            old(self).wf(),
        ensures
            final(self).wf(),
            !tick_due(old(self)@.rate, old(self)@.last_tick, now as int) ==> {
                &&& go_on
                &&& final(self)@ == old(self)@
                &&& final(tx)@ == old(tx)@
            },
            tick_due(old(self)@.rate, old(self)@.last_tick, now as int) ==> {
                &&& final(tx)@ == old(tx)@.push((Event::Tick, go_on))
                &&& final(self)@ == if go_on {
                    ClockState {
                        rate: old(self)@.rate,
                        last_tick: now as int,
                        ticks: old(self)@.ticks.push(now as int),
                    }
                } else {
                    old(self)@
                }
            },
    {
        if self.is_due(now) {
            let delivered = tx.hand_over(Event::Tick);
            self.after_tick(now, delivered)
        } else {
            true
        }
    }
}

} // verus!
