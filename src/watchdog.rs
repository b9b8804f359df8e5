//! Bookkeeping around the hardware watchdog: arming it once, feeding it while
//! enabled, the disable/enable escape hatch, and a simulated countdown that
//! tells when the device would be reset.
use vstd::prelude::*;

verus! {

/// The window within which the watchdog must be fed, in milliseconds.
pub const WATCHDOG_TIMEOUT_MS: u32 = 60_000;

/// An operation that the hardware liveness timer must perform.
#[derive(Debug, Clone, Copy, PartialEq, Eq, Structural)]
pub enum TimerCommand {
    /// Set the countdown window, in milliseconds.
    SetWindow(u32),
    /// Start the countdown.
    Start,
    /// Stop the countdown.
    Stop,
    /// Restart the countdown from the full window.
    Feed,
}

/// The configuration of the hardware timer: its window, if one was set, and
/// whether its countdown runs.
#[derive(Debug, Clone, Copy, PartialEq, Eq, Structural)]
pub struct TimerState {
    pub window_ms: Option<u32>,
    pub running: bool,
}

impl TimerState {
    /// The timer after performing `c`.
    pub open spec fn after(self, c: TimerCommand) -> TimerState {
        match c {
            TimerCommand::SetWindow(ms) => TimerState { window_ms: Some(ms), ..self },
            TimerCommand::Start => TimerState { running: true, ..self },
            TimerCommand::Stop => TimerState { running: false, ..self },
            TimerCommand::Feed => self,
        }
    }

    /// The timer after performing `cs` in order.
    pub open spec fn perform(self, cs: Seq<TimerCommand>) -> TimerState
        decreases cs.len(),
    {
        if cs.len() == 0 {
            self
        } else {
            self.after(cs[0]).perform(cs.drop_first())
        }
    }
}

/// How many feeds `cs` holds.
pub open spec fn feeds_in(cs: Seq<TimerCommand>) -> nat
    decreases cs.len(),
{
    if cs.len() == 0 {
        0
    } else {
        (if cs[0] == TimerCommand::Feed {
            1nat
        } else {
            0nat
        }) + feeds_in(cs.drop_first())
    }
}

/// Refused watchdog operations.
#[derive(Debug, Clone, Copy, PartialEq, Eq, Structural)]
pub enum WatchdogError {
    /// The watchdog was armed already; it is armed once per boot.
    AlreadyInitialized,
}

/// What the supervisor knows of the watchdog.
#[derive(Debug, Clone, Copy, PartialEq, Eq, Structural)]
pub struct WatchdogView {
    /// A timer has been handed over and armed.
    pub initialized: bool,
    /// The countdown runs.
    pub enabled: bool,
    /// Feeds so far, wrapping.
    pub feed_count: u32,
    /// Simulated milliseconds since the last feed, saturating.
    pub elapsed_ms: u32,
}

/// `n + 1`, wrapping to 0 past `u32::MAX`.
pub open spec fn wrapping_inc(n: u32) -> u32 {
    if n == u32::MAX {
        0
    } else {
        (n + 1) as u32
    }
}

/// `a + b`, capped at `u32::MAX`.
pub open spec fn saturating_sum(a: u32, b: u32) -> u32 {
    if a + b > u32::MAX {
        u32::MAX
    } else {
        (a + b) as u32
    }
}

impl WatchdogView {
    /// The countdown runs only on an armed timer.
    pub open spec fn wf(self) -> bool {
        self.enabled ==> self.initialized
    }

    /// The configuration the hardware timer has when it follows the
    /// bookkeeping: the fixed window once armed, running while enabled.
    pub open spec fn timer_state(self) -> TimerState {
        TimerState {
            window_ms: if self.initialized {
                Some(WATCHDOG_TIMEOUT_MS)
            } else {
                None
            },
            running: self.enabled,
        }
    }

    /// What arming asks of the timer: the fixed window, then the start.
    pub open spec fn arm_commands(self) -> Seq<TimerCommand> {
        seq![TimerCommand::SetWindow(WATCHDOG_TIMEOUT_MS), TimerCommand::Start]
    }

    /// What a feed asks of the timer: one feed while enabled, nothing
    /// otherwise.
    pub open spec fn feed_commands(self) -> Seq<TimerCommand> {
        if self.enabled {
            seq![TimerCommand::Feed]
        } else {
            seq![]
        }
    }

    /// What disabling asks of the timer: a stop once armed.
    pub open spec fn disable_commands(self) -> Seq<TimerCommand> {
        if self.initialized {
            seq![TimerCommand::Stop]
        } else {
            seq![]
        }
    }

    /// What enabling asks of the timer: a start once armed.
    pub open spec fn enable_commands(self) -> Seq<TimerCommand> {
        if self.initialized {
            seq![TimerCommand::Start]
        } else {
            seq![]
        }
    }

    /// The state after disabling.
    pub open spec fn disabled(self) -> WatchdogView {
        WatchdogView { enabled: false, ..self }
    }

    /// The state after enabling: the countdown runs once armed.
    pub open spec fn enabled_again(self) -> WatchdogView {
        WatchdogView { enabled: self.initialized, ..self }
    }

    /// The state after arming a fresh timer.
    pub open spec fn armed(self) -> WatchdogView {
        WatchdogView { initialized: true, enabled: true, elapsed_ms: 0, ..self }
    }

    /// The state after a feed: counted and restarted while enabled,
    /// unchanged otherwise.
    pub open spec fn fed(self) -> WatchdogView {
        if self.enabled {
            WatchdogView { feed_count: wrapping_inc(self.feed_count), elapsed_ms: 0, ..self }
        } else {
            self
        }
    }

    /// The state after `dt_ms` milliseconds without a feed; a disabled
    /// countdown stands still.
    pub open spec fn advanced(self, dt_ms: u32) -> WatchdogView {
        if self.enabled {
            WatchdogView { elapsed_ms: saturating_sum(self.elapsed_ms, dt_ms), ..self }
        } else {
            self
        }
    }

    /// The device is reset: the countdown runs and has reached the window.
    pub open spec fn expired(self) -> bool {
        self.enabled && self.elapsed_ms >= WATCHDOG_TIMEOUT_MS
    }
}

/// The bookkeeping of the hardware watchdog. The timer itself belongs to
/// the caller, who performs the commands that each operation returns.
pub struct Watchdog {
    initialized: bool,
    enabled: bool,
    feed_count: u32,
    elapsed_ms: u32,
}

impl View for Watchdog {
    type V = WatchdogView;

    closed spec fn view(&self) -> WatchdogView {
        WatchdogView {
            initialized: self.initialized,
            enabled: self.enabled,
            feed_count: self.feed_count,
            elapsed_ms: self.elapsed_ms,
        }
    }
}

impl Watchdog {
    /// The countdown runs only on an armed timer.
    pub open spec fn wf(&self) -> bool {
        self@.wf()
    }

    /// A watchdog whose timer has not been armed yet.
    pub fn new() -> (r: Watchdog)
        ensures
            r.wf(),
            r@ == (WatchdogView { initialized: false, enabled: false, feed_count: 0, elapsed_ms: 0 }),
            r@.timer_state() == (TimerState { window_ms: None, running: false }),
    {
        Watchdog { initialized: false, enabled: false, feed_count: 0, elapsed_ms: 0 }
    }
}

fn one_command(c: TimerCommand) -> (r: Vec<TimerCommand>)
    ensures
        r@ == seq![c],
{
    let mut r: Vec<TimerCommand> = Vec::new();
    r.push(c);
    r
}

/// Arms the watchdog with the fixed window and starts it, returning the
/// commands for the timer. A second arming is refused, and the timer is
/// left as it is: the watchdog is armed once per boot.
pub fn init_watchdog(wd: &mut Watchdog) -> (r: Result<Vec<TimerCommand>, WatchdogError>)
    requires
        old(wd).wf(),
    ensures
        final(wd).wf(),
        old(wd)@.initialized ==> r == Err::<Vec<TimerCommand>, WatchdogError>(
            WatchdogError::AlreadyInitialized,
        ) && final(wd)@ == old(wd)@,
        !old(wd)@.initialized ==> (r matches Ok(cs) && cs@ == old(wd)@.arm_commands())
            && final(wd)@ == old(wd)@.armed(),
{
    if wd.initialized {
        return Err(WatchdogError::AlreadyInitialized);
    }
    wd.initialized = true;
    wd.enabled = true;
    wd.elapsed_ms = 0;
    let mut cs: Vec<TimerCommand> = Vec::new();
    cs.push(TimerCommand::SetWindow(WATCHDOG_TIMEOUT_MS));
    cs.push(TimerCommand::Start);
    assert(cs@ =~= old(wd)@.arm_commands());
    Ok(cs)
}

/// Restarts the countdown and counts the feed when the watchdog is enabled,
/// returning the one feed for the timer; does nothing otherwise.
pub fn feed_watchdog(wd: &mut Watchdog) -> (r: Vec<TimerCommand>)
    requires
        old(wd).wf(),
    ensures
        final(wd).wf(),
        final(wd)@ == old(wd)@.fed(),
        r@ == old(wd)@.feed_commands(),
{
    if wd.enabled {
        wd.feed_count = wd.feed_count.wrapping_add(1);
        wd.elapsed_ms = 0;
        one_command(TimerCommand::Feed)
    } else {
        Vec::new()
    }
}

/// Whether the countdown runs.
pub fn is_watchdog_enabled(wd: &Watchdog) -> (r: bool)
    ensures
        r == (wd@.enabled && wd@.initialized),
{
    wd.enabled && wd.initialized
}

/// Whether the countdown runs, and how many feeds were counted (wrapping).
pub fn get_watchdog_stats(wd: &Watchdog) -> (r: (bool, u32))
    ensures
        r.0 == (wd@.enabled && wd@.initialized),
        r.1 == wd@.feed_count,
{
    let enabled = is_watchdog_enabled(wd);
    (enabled, wd.feed_count)
}

/// Stops the countdown of an armed watchdog, for an operation that cannot
/// feed on schedule, returning the stop for the timer; must be paired with
/// `enable_watchdog`. An unarmed watchdog is left as it is.
pub fn disable_watchdog(wd: &mut Watchdog) -> (r: Vec<TimerCommand>)
    requires
        old(wd).wf(),
    ensures
        final(wd).wf(),
        final(wd)@ == old(wd)@.disabled(),
        r@ == old(wd)@.disable_commands(),
{
    wd.enabled = false;
    if wd.initialized {
        one_command(TimerCommand::Stop)
    } else {
        Vec::new()
    }
}

/// Starts the countdown of an armed watchdog again, returning the start for
/// the timer; an unarmed watchdog is left as it is.
pub fn enable_watchdog(wd: &mut Watchdog) -> (r: Vec<TimerCommand>)
    requires
        old(wd).wf(),
    ensures
        final(wd).wf(),
        final(wd)@ == old(wd)@.enabled_again(),
        r@ == old(wd)@.enable_commands(),
{
    if wd.initialized {
        wd.enabled = true;
        one_command(TimerCommand::Start)
    } else {
        Vec::new()
    }
}

/// Lets `dt_ms` milliseconds pass on the simulated countdown, and tells
/// whether the device is then reset for want of a feed.
pub fn advance_watchdog(wd: &mut Watchdog, dt_ms: u32) -> (r: bool)
    requires
        old(wd).wf(),
    ensures
        final(wd).wf(),
        final(wd)@ == old(wd)@.advanced(dt_ms),
        r == final(wd)@.expired(),
{
    if wd.enabled {
        wd.elapsed_ms = wd.elapsed_ms.saturating_add(dt_ms);
    }
    wd.enabled && wd.elapsed_ms >= WATCHDOG_TIMEOUT_MS
}

/// A feed restarts the countdown at zero; after it, the device is reset
/// exactly when feeds are withheld for the whole window or longer.
pub proof fn lemma_feed_restarts_window(v: WatchdogView, dt_ms: u32)
    requires
        v.enabled,
    ensures
        v.fed().elapsed_ms == 0,
        !v.fed().expired(),
        v.fed().advanced(dt_ms).expired() <==> dt_ms >= WATCHDOG_TIMEOUT_MS,
{
}

/// While the watchdog is disabled, neither feeds nor time change it: it is
/// fed only while enabled, and never expires.
pub proof fn lemma_disabled_is_inert(v: WatchdogView, dt_ms: u32)
    requires
        !v.enabled,
    ensures
        v.fed() == v,
        v.advanced(dt_ms) == v,
        !v.advanced(dt_ms).expired(),
{
}

/// A timer that follows the bookkeeping keeps following it when it performs
/// the commands of each operation: arming sets the fixed window and starts
/// it, a feed reaches the timer exactly once and only while enabled, and
/// disabling or enabling only stops or starts it, keeping the window.
pub proof fn lemma_commands_keep_timer_in_step(v: WatchdogView)
    requires
        v.wf(),
    ensures
        !v.initialized ==> v.timer_state().perform(v.arm_commands()) == v.armed().timer_state(),
        v.armed().timer_state() == (TimerState {
            window_ms: Some(WATCHDOG_TIMEOUT_MS),
            running: true,
        }),
        v.timer_state().perform(v.feed_commands()) == v.fed().timer_state(),
        feeds_in(v.feed_commands()) == (if v.enabled {
            1nat
        } else {
            0nat
        }),
        v.timer_state().perform(v.disable_commands()) == v.disabled().timer_state(),
        v.timer_state().perform(v.enable_commands()) == v.enabled_again().timer_state(),
        v.disabled().enabled_again().timer_state().window_ms == v.timer_state().window_ms,
{
    reveal_with_fuel(TimerState::perform, 3);
    reveal_with_fuel(feeds_in, 2);
    let arm = v.arm_commands();
    assert(arm.drop_first() =~= seq![TimerCommand::Start]);
    assert(arm.drop_first().drop_first() =~= Seq::<TimerCommand>::empty());
    assert(v.feed_commands().len() > 0 ==> v.feed_commands().drop_first() =~= Seq::<
        TimerCommand,
    >::empty());
    assert(v.disable_commands().len() > 0 ==> v.disable_commands().drop_first() =~= Seq::<
        TimerCommand,
    >::empty());
    assert(v.enable_commands().len() > 0 ==> v.enable_commands().drop_first() =~= Seq::<
        TimerCommand,
    >::empty());
}

} // verus!
