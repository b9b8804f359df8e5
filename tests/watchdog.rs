use water::watchdog::{
    advance_watchdog, disable_watchdog, enable_watchdog, feed_watchdog, get_watchdog_stats,
    init_watchdog, is_watchdog_enabled, TimerCommand, Watchdog, WatchdogError,
    WATCHDOG_TIMEOUT_MS,
};

/// A stand-in for the hardware timer: it performs commands and remembers them.
#[derive(Default)]
struct FakeTimer {
    window_ms: Option<u32>,
    running: bool,
    feeds: u32,
    log: Vec<TimerCommand>,
}

impl FakeTimer {
    fn perform(&mut self, commands: Vec<TimerCommand>) {
        for c in commands {
            match c {
                TimerCommand::SetWindow(ms) => self.window_ms = Some(ms),
                TimerCommand::Start => self.running = true,
                TimerCommand::Stop => self.running = false,
                TimerCommand::Feed => self.feeds += 1,
            }
            self.log.push(c);
        }
    }
}

#[test]
fn init_arms_the_timer_once() {
    let mut timer = FakeTimer::default();
    let mut wd = Watchdog::new();
    assert!(!is_watchdog_enabled(&wd));
    timer.perform(init_watchdog(&mut wd).unwrap());
    assert!(is_watchdog_enabled(&wd));
    assert_eq!(timer.log, vec![TimerCommand::SetWindow(60_000), TimerCommand::Start]);
    assert_eq!(timer.window_ms, Some(WATCHDOG_TIMEOUT_MS));
    assert!(timer.running);
    assert_eq!(init_watchdog(&mut wd), Err(WatchdogError::AlreadyInitialized));
    assert_eq!(timer.log.len(), 2);
    assert_eq!(WATCHDOG_TIMEOUT_MS, 60_000);
}

#[test]
fn feeding_counts_and_restarts_the_window() {
    let mut timer = FakeTimer::default();
    let mut wd = Watchdog::new();
    timer.perform(init_watchdog(&mut wd).unwrap());
    assert!(!advance_watchdog(&mut wd, 59_999));
    timer.perform(feed_watchdog(&mut wd));
    assert!(!advance_watchdog(&mut wd, 59_999));
    timer.perform(feed_watchdog(&mut wd));
    timer.perform(feed_watchdog(&mut wd));
    assert_eq!(get_watchdog_stats(&wd), (true, 3));
    assert_eq!(timer.feeds, 3);
    assert!(advance_watchdog(&mut wd, 60_000));
    assert_eq!(
        timer.log,
        vec![
            TimerCommand::SetWindow(60_000),
            TimerCommand::Start,
            TimerCommand::Feed,
            TimerCommand::Feed,
            TimerCommand::Feed,
        ]
    );
}

#[test]
fn withheld_feeds_reset_the_device() {
    let mut wd = Watchdog::new();
    init_watchdog(&mut wd).unwrap();
    assert!(!advance_watchdog(&mut wd, 30_000));
    assert!(advance_watchdog(&mut wd, 30_000));
    assert!(advance_watchdog(&mut wd, u32::MAX));
}

#[test]
fn nothing_reaches_the_timer_before_init() {
    let mut wd = Watchdog::new();
    assert!(feed_watchdog(&mut wd).is_empty());
    assert_eq!(get_watchdog_stats(&wd), (false, 0));
    assert!(!advance_watchdog(&mut wd, u32::MAX));
    assert!(enable_watchdog(&mut wd).is_empty());
    assert!(!is_watchdog_enabled(&wd));
    assert!(disable_watchdog(&mut wd).is_empty());
    assert!(!is_watchdog_enabled(&wd));
}

#[test]
fn disabled_watchdog_is_neither_fed_nor_expiring() {
    let mut timer = FakeTimer::default();
    let mut wd = Watchdog::new();
    timer.perform(init_watchdog(&mut wd).unwrap());
    timer.perform(disable_watchdog(&mut wd));
    assert!(!is_watchdog_enabled(&wd));
    assert!(!timer.running);
    assert!(feed_watchdog(&mut wd).is_empty());
    assert_eq!(get_watchdog_stats(&wd), (false, 0));
    assert!(!advance_watchdog(&mut wd, 120_000));
    timer.perform(enable_watchdog(&mut wd));
    assert!(is_watchdog_enabled(&wd));
    assert!(timer.running);
    assert_eq!(timer.window_ms, Some(60_000));
    timer.perform(feed_watchdog(&mut wd));
    assert_eq!(get_watchdog_stats(&wd), (true, 1));
    assert_eq!(
        timer.log,
        vec![
            TimerCommand::SetWindow(60_000),
            TimerCommand::Start,
            TimerCommand::Stop,
            TimerCommand::Start,
            TimerCommand::Feed,
        ]
    );
}
