use tui_events::config::{ConfigError, EventConfig};
use tui_events::host::{Disconnected, Event, EventHost, Signal};
use tui_events::interval::{count_digits, Interval};
use tui_events::keys::{is_exit_key, Key};
use tui_events::producers::{input_continues, input_step, TickClock};

fn started() -> (EventHost, tui_events::host::Producers) {
    EventHost::new(&None).unwrap()
}

#[test]
fn default_config_ticks_every_second() {
    let c = EventConfig::default();
    assert_eq!(c.tick_rate, Interval { secs: 1, nanos: 0 });
    assert_eq!(c.exit_key, Key::Ctrl('c'));
}

#[test]
fn config_new_keeps_interval() {
    let c = EventConfig::new(Interval::new(0, 250_000_000));
    assert_eq!(c.tick_rate, Interval { secs: 0, nanos: 250_000_000 });
    assert_eq!(c.exit_key, Key::Ctrl('c'));
}

#[test]
fn resolve_reads_milliseconds() {
    let c = EventConfig::resolve(&Some("500ms".to_string())).unwrap();
    assert_eq!(c.tick_rate, Interval { secs: 0, nanos: 500_000_000 });
}

#[test]
fn resolve_reads_seconds_and_hours() {
    let c = EventConfig::resolve(&Some("2s".to_string())).unwrap();
    assert_eq!(c.tick_rate, Interval { secs: 2, nanos: 0 });
    let c = EventConfig::resolve(&Some("1h 5ms".to_string())).unwrap();
    assert_eq!(c.tick_rate, Interval { secs: 3600, nanos: 5_000_000 });
}

#[test]
fn resolve_without_text_is_default() {
    assert_eq!(EventConfig::resolve(&None), Ok(EventConfig::default()));
}

#[test]
fn malformed_interval_refused() {
    assert_eq!(
        EventConfig::resolve(&Some("not-a-duration".to_string())),
        Err(ConfigError::InvalidInterval)
    );
    assert_eq!(Interval::parse(""), Err(ConfigError::InvalidInterval));
}

#[test]
fn malformed_interval_starts_no_host() {
    let r = EventHost::new(&Some("not-a-duration".to_string()));
    assert!(matches!(r, Err(ConfigError::InvalidInterval)));
}

#[test]
fn interval_in_nanoseconds() {
    assert_eq!(Interval::new(2, 5).as_nanos(), 2_000_000_005);
    assert_eq!(Interval::from_secs(0).as_nanos(), 0);
    assert_eq!(Interval::new(u64::MAX, 999_999_999).as_nanos(), u64::MAX as u128 * 1_000_000_000 + 999_999_999);
}

#[test]
fn host_starts_with_quit_key_kept() {
    let (mut host, _p) = started();
    assert_eq!(host.last_input, Some(Key::Char('q')));
    assert_eq!(host.get_input(), Key::Char('q'));
    assert_eq!(host.config, EventConfig::default());
}

#[test]
fn host_new_with_interval_text() {
    let (host, _p) = EventHost::new(&Some("250ms".to_string())).unwrap();
    assert_eq!(host.config.tick_rate, Interval { secs: 0, nanos: 250_000_000 });
}

#[test]
fn get_input_falls_back_to_home() {
    let (mut host, _p) = started();
    host.last_input = None;
    assert_eq!(host.get_input(), Key::Home);
    host.last_input = Some(Key::Alt('x'));
    assert_eq!(host.get_input(), Key::Alt('x'));
}

#[test]
fn quit_key_finishes() {
    let (mut host, _p) = started();
    host.last_input = None;
    assert_eq!(host.handle(Event::Input(Key::Char('q'))), Signal::Finish);
    assert_eq!(host.last_input, Some(Key::Char('q')));
}

#[test]
fn other_key_clears_last_input() {
    let (mut host, _p) = started();
    assert_eq!(host.handle(Event::Input(Key::Char('a'))), Signal::Other);
    assert_eq!(host.last_input, None);
    assert_eq!(host.get_input(), Key::Home);
    host.last_input = Some(Key::Char('q'));
    assert_eq!(host.handle(Event::Input(Key::Esc)), Signal::Other);
    assert_eq!(host.last_input, None);
    host.last_input = Some(Key::Char('q'));
    assert_eq!(host.handle(Event::Input(Key::Ctrl('c'))), Signal::Other);
    assert_eq!(host.last_input, None);
}

#[test]
fn tick_keeps_last_input() {
    let (mut host, _p) = started();
    assert_eq!(host.handle(Event::Tick), Signal::Other);
    assert_eq!(host.last_input, Some(Key::Char('q')));
    host.last_input = None;
    assert_eq!(host.handle(Event::Tick), Signal::Other);
    assert_eq!(host.last_input, None);
}

#[test]
fn events_arrive_in_send_order() {
    let (mut host, mut p) = started();
    let mut clock = TickClock::new(Interval::from_secs(1));
    assert!(input_step(&mut p.input, Some(Key::Char('a'))));
    assert!(clock.step(&mut p.tick, 1_000_000_000));
    assert!(input_step(&mut p.input, Some(Key::Up)));
    assert!(input_step(&mut p.input, Some(Key::Char('b'))));
    assert!(clock.step(&mut p.tick, 2_500_000_000));
    assert_eq!(host.next(), Ok(Event::Input(Key::Char('a'))));
    assert_eq!(host.next(), Ok(Event::Tick));
    assert_eq!(host.next(), Ok(Event::Input(Key::Up)));
    assert_eq!(host.next(), Ok(Event::Input(Key::Char('b'))));
    assert_eq!(host.next(), Ok(Event::Tick));
}

#[test]
fn tick_after_one_second_without_input() {
    let (mut host, mut p) = started();
    let mut clock = TickClock::new(host.config.tick_rate);
    assert_eq!(clock.rate(), 1_000_000_000);
    assert!(clock.step(&mut p.tick, 500_000_000));
    assert_eq!(clock.last_tick(), 0);
    assert!(clock.step(&mut p.tick, 1_050_000_000));
    assert_eq!(clock.last_tick(), 1_050_000_000);
    assert_eq!(host.next(), Ok(Event::Tick));
    assert!(clock.step(&mut p.tick, 2_050_000_000));
    assert_eq!(host.on_event(), Ok(Signal::Other));
}

#[test]
fn ticks_never_closer_than_interval() {
    let (mut host, mut p) = started();
    let mut clock = TickClock::new(Interval::from_secs(1));
    assert!(!clock.is_due(999_999_999));
    assert!(clock.is_due(1_000_000_000));
    assert!(clock.step(&mut p.tick, 1_700_000_000));
    assert_eq!(clock.last_tick(), 1_700_000_000);
    assert!(!clock.is_due(2_600_000_000));
    assert!(clock.step(&mut p.tick, 2_600_000_000));
    assert!(clock.step(&mut p.tick, 2_650_000_000));
    assert_eq!(clock.last_tick(), 1_700_000_000);
    assert!(clock.is_due(2_700_000_000));
    assert!(!clock.is_due(1_000_000_000));
    assert!(clock.step(&mut p.tick, 2_700_000_000));
    assert_eq!(clock.last_tick(), 2_700_000_000);
    drop(p);
    assert_eq!(host.next(), Ok(Event::Tick));
    assert_eq!(host.next(), Ok(Event::Tick));
    assert_eq!(host.next(), Err(Disconnected));
}

#[test]
fn quit_input_ends_reader_and_finishes() {
    let (mut host, mut p) = started();
    assert!(!input_step(&mut p.input, Some(Key::Char('q'))));
    assert_eq!(host.on_event(), Ok(Signal::Finish));
    assert_eq!(host.get_input(), Key::Char('q'));
}

#[test]
fn escape_ends_reader_and_goes_on() {
    let (mut host, mut p) = started();
    assert!(!input_step(&mut p.input, Some(Key::Esc)));
    assert_eq!(host.on_event(), Ok(Signal::Other));
    assert_eq!(host.last_input, None);
}

#[test]
fn closed_input_drains_then_disconnects() {
    let (mut host, mut p) = started();
    assert!(input_step(&mut p.input, Some(Key::Char('a'))));
    assert!(!input_step(&mut p.input, None));
    drop(p);
    assert_eq!(host.next(), Ok(Event::Input(Key::Char('a'))));
    assert_eq!(host.next(), Err(Disconnected));
    assert_eq!(host.on_event(), Err(Disconnected));
    assert_eq!(host.last_input, Some(Key::Char('q')));
}

#[test]
fn producers_stop_without_consumer() {
    let (host, mut p) = started();
    drop(host);
    assert!(!input_step(&mut p.input, Some(Key::Char('a'))));
    let mut clock = TickClock::new(Interval::from_secs(1));
    assert!(clock.step(&mut p.tick, 10));
    assert!(!clock.step(&mut p.tick, 1_000_000_000));
    assert_eq!(clock.last_tick(), 0);
}

#[test]
fn exit_keys() {
    assert!(is_exit_key(&Key::Char('q')));
    assert!(is_exit_key(&Key::Esc));
    assert!(!is_exit_key(&Key::Char('Q')));
    assert!(!is_exit_key(&Key::Ctrl('c')));
    assert!(input_continues(&Key::Char('a'), true));
    assert!(!input_continues(&Key::Char('a'), false));
    assert!(!input_continues(&Key::Esc, true));
}

#[test]
fn after_tick_resets_only_when_delivered() {
    let mut clock = TickClock::new(Interval::new(0, 100));
    assert!(clock.after_tick(150, true));
    assert_eq!(clock.last_tick(), 150);
    assert!(!clock.after_tick(300, false));
    assert_eq!(clock.last_tick(), 150);
    assert_eq!(clock.rate(), 100);
    assert!(clock.after_tick(300, true));
    assert_eq!(clock.last_tick(), 300);
}

#[test]
fn quit_then_more_input_sends_only_quit() {
    let (mut host, mut p) = started();
    assert!(!input_step(&mut p.input, Some(Key::Char('q'))));
    drop(p);
    assert_eq!(host.next(), Ok(Event::Input(Key::Char('q'))));
    assert_eq!(host.next(), Err(Disconnected));
}

#[test]
fn duration_overflowing_seconds_refused() {
    assert_eq!(
        Interval::parse("18446744073709551615s 1000000000ns"),
        Err(ConfigError::InvalidInterval)
    );
    assert_eq!(Interval::parse("100000000000s"), Err(ConfigError::InvalidInterval));
    assert_eq!(Interval::parse("99999999999s"), Ok(Interval { secs: 99_999_999_999, nanos: 0 }));
    assert_eq!(Interval::parse("1.5s"), Ok(Interval { secs: 1, nanos: 500_000_000 }));
}

#[test]
fn digits_counted() {
    assert_eq!(count_digits(""), 0);
    assert_eq!(count_digits("1h 30min"), 3);
    assert_eq!(count_digits("µs 42"), 2);
}
