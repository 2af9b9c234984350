//! The consuming end of the event stream: pulls events and classifies them
//! into control signals, keeping the last significant key.
use vstd::prelude::*;

use std::sync::mpsc::Receiver;

use crate::channel::{open_channel, receive_value, share_sender, EventSender};
use crate::config::{option_view, resolved, ConfigError, EventConfig};
use crate::keys::{fallback_key, quit_key, Key};

verus! {

/// Something that happened: a unit of input, or a timer tick.
#[derive(PartialEq, Eq, Structural, Clone, Copy, Debug)]
pub enum Event<I> {
    Input(I),
    Tick,
}

/// What the interface loop should do after an event.
#[derive(PartialEq, Eq, Structural, Clone, Copy, Debug)]
pub enum Signal {
    Finish,
    Other,
}

/// Every producer is gone and no event is left: none will ever arrive.
#[derive(PartialEq, Eq, Structural, Clone, Copy, Debug)]
pub struct Disconnected;

/// The signal that an event gives: the quit key finishes, all else goes on.
pub open spec fn signal_of(e: Event<Key>) -> Signal {
    match e {
        Event::Input(k) => if k == quit_key() {
            Signal::Finish
        } else {
            Signal::Other
        },
        Event::Tick => Signal::Other,
    }
}

/// The last significant key after an event: the quit key is kept, another
/// key clears it, a tick leaves it as it was.
pub open spec fn last_input_after(last: Option<Key>, e: Event<Key>) -> Option<Key> {
    match e {
        Event::Input(k) => if k == quit_key() {
            Some(quit_key())
        } else {
            None
        },
        Event::Tick => last,
    }
}

/// The sending ends handed to the two producers: one for keyboard input,
/// one for ticks.
pub struct Producers {
    pub input: EventSender,
    pub tick: EventSender,
}

/// The receiving end of the event stream.
pub struct EventStream {
    rx: Receiver<Event<Key>>,
}

/// Owns the receiving end of the event stream and the last significant key.
pub struct EventHost {
    pub events: EventStream,
    pub config: EventConfig,
    pub last_input: Option<Key>,
}

impl EventHost {
    /// This host is `before` after handling `e`: the settings stay, the last
    /// significant key moves as `last_input_after` says.
    pub open spec fn handled(&self, before: &EventHost, e: Event<Key>) -> bool {
        &&& self.events == before.events
        &&& self.config == before.config
        &&& self.last_input == last_input_after(before.last_input, e)
    }

    /// A fresh host on a new stream, with the producers' sending ends. The
    /// last significant key starts as the quit key.
    pub fn start(config: EventConfig) -> (r: (EventHost, Producers))
        ensures
            r.0.config == config,
            r.0.last_input == Some(quit_key()),
            r.1.input@ == Seq::<(Event<Key>, bool)>::empty(),
            r.1.tick@ == Seq::<(Event<Key>, bool)>::empty(),
    {
        let (tx, rx) = open_channel();
        let input = EventSender::new(share_sender(&tx));
        let tick = EventSender::new(tx);
        (EventHost { events: EventStream { rx }, config, last_input: Some(Key::Char('q')) }, Producers { input, tick })
    }

    /// Resolves the settings from an optional interval text and starts a
    /// host; fails, and starts nothing, where the text is no duration.
    pub fn new(tick_rate: &Option<String>) -> (r: Result<(EventHost, Producers), ConfigError>)
        ensures
            r is Ok <==> resolved(option_view(tick_rate)) is Some,
            r matches Ok(p) ==> p.0.config.wf() && resolved(option_view(tick_rate)) == Some(
                p.0.config,
            ) && p.0.last_input == Some(quit_key()) && p.1.input@ == Seq::<
                (Event<Key>, bool),
            >::empty() && p.1.tick@ == Seq::<(Event<Key>, bool)>::empty(),
            r matches Err(e) ==> e == ConfigError::InvalidInterval,
    {
        let config = EventConfig::resolve(tick_rate)?;
        Ok(EventHost::start(config))
    }

    /// The last significant key, or the home key where none is kept.
    pub fn get_input(&mut self) -> (r: Key)
        ensures
            *final(self) == *old(self),
            r == match old(self).last_input {
                Some(k) => k,
                None => fallback_key(),
            },
    {
        match self.last_input {
            Some(v) => v,
            None => Key::Home,
        }
    }

    /// Waits for the next event; fails once every producer is gone and the
    /// stream is drained.
    pub fn next(&mut self) -> (r: Result<Event<Key>, Disconnected>)
        ensures
            *final(self) == *old(self),
    {
        match receive_value(&self.events.rx) {
            Ok(e) => Ok(e),
            Err(_) => Err(Disconnected),
        }
    }

    /// Classifies one event: the quit key finishes and is kept, another key
    /// goes on and clears the kept key, a tick goes on and changes nothing.
    pub fn handle(&mut self, e: Event<Key>) -> (r: Signal)
        ensures
            final(self).handled(old(self), e),
            r == signal_of(e),
            e == Event::Input(quit_key()) ==> r == Signal::Finish
                && final(self).last_input == Some(quit_key()),
            e matches Event::Input(k) && k != quit_key() ==> r == Signal::Other
                && final(self).last_input is None,
            e is Tick ==> r == Signal::Other
                && final(self).last_input == old(self).last_input,
    {
        match e {
            Event::Input(key) => match key {
                Key::Char('q') => {
                    self.last_input = Some(Key::Char('q'));
                    Signal::Finish
                },
                _ => {
                    self.last_input = None;
                    Signal::Other
                },
            },
            Event::Tick => Signal::Other,
        }
    }

    /// Waits for the next event and classifies it as `handle` does; fails,
    /// changing nothing, once the stream is drained and has no producer.
    pub fn on_event(&mut self) -> (r: Result<Signal, Disconnected>)
        ensures
            r is Err ==> *final(self) == *old(self),
            r matches Ok(s) ==> exists|e: Event<Key>|
                #![auto]
                final(self).handled(old(self), e) && s == signal_of(e),
    {
        match self.next() {
            Ok(e) => Ok(self.handle(e)),
            Err(d) => Err(d),
        }
    }
}

} // verus!
