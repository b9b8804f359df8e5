//! Liveness tracking: each subsystem reports heartbeats, and health queries
//! judge whether the last one is recent enough on a wrapping millisecond clock.
use vstd::prelude::*;

verus! {

/// Span of the wrapping millisecond clock.
pub const CLOCK_SPAN: u64 = 0x1_0000_0000;

/// Silence allowed for the WiFi supervisor, in milliseconds.
pub const WIFI_HEALTH_TIMEOUT_MS: u32 = 120_000;

/// Silence allowed for the MQTT client, in milliseconds.
pub const MQTT_HEALTH_TIMEOUT_MS: u32 = 240_000;

/// Silence allowed for the display task, in milliseconds.
pub const DISPLAY_HEALTH_TIMEOUT_MS: u32 = 30_000;

/// Silence allowed for the ADC sampling task, in milliseconds.
pub const ADC_HEALTH_TIMEOUT_MS: u32 = 60_000;

/// A monitored component.
#[derive(Debug, Clone, Copy, PartialEq, Eq, Structural)]
pub enum Subsystem {
    Wifi,
    Mqtt,
    Display,
    Adc,
}

impl Subsystem {
    /// Human-readable name of the subsystem.
    pub open spec fn spec_name(self) -> Seq<char> {
        match self {
            Subsystem::Wifi => "WiFi"@,
            Subsystem::Mqtt => "MQTT"@,
            Subsystem::Display => "Display"@,
            Subsystem::Adc => "ADC"@,
        }
    }

    /// Allowed silence between two heartbeats, in milliseconds.
    pub open spec fn spec_timeout_ms(self) -> u32 {
        match self {
            Subsystem::Wifi => WIFI_HEALTH_TIMEOUT_MS,
            Subsystem::Mqtt => MQTT_HEALTH_TIMEOUT_MS,
            Subsystem::Display => DISPLAY_HEALTH_TIMEOUT_MS,
            Subsystem::Adc => ADC_HEALTH_TIMEOUT_MS,
        }
    }

    pub fn name(&self) -> (r: &'static str)
        ensures
            r@ == self.spec_name(),
    {
        match self {
            Subsystem::Wifi => "WiFi",
            Subsystem::Mqtt => "MQTT",
            Subsystem::Display => "Display",
            Subsystem::Adc => "ADC",
        }
    }

    pub fn timeout_ms(&self) -> (r: u32)
        ensures
            r == self.spec_timeout_ms(),
    {
        match self {
            Subsystem::Wifi => WIFI_HEALTH_TIMEOUT_MS,
            Subsystem::Mqtt => MQTT_HEALTH_TIMEOUT_MS,
            Subsystem::Display => DISPLAY_HEALTH_TIMEOUT_MS,
            Subsystem::Adc => ADC_HEALTH_TIMEOUT_MS,
        }
    }
}

/// Milliseconds from `since` to `now` on the wrapping clock.
pub open spec fn elapsed_ms(now: u32, since: u32) -> nat {
    if now >= since {
        (now - since) as nat
    } else {
        (now + CLOCK_SPAN - since) as nat
    }
}


/// What is kept per subsystem: when it last reported, if ever, and the
/// verdict of the last health query.
#[derive(Debug, Clone, Copy)]
pub struct HeartbeatRecord {
    pub last_seen: Option<u32>,
    pub healthy: bool,
}

/// A flip of a subsystem's health verdict, as seen by a health query.
#[derive(Debug, Clone, Copy, PartialEq, Eq, Structural)]
pub enum HealthEvent {
    /// The subsystem reported again after having been judged unhealthy.
    Recovered(Subsystem),
    /// The subsystem has been silent for `silent_ms`, at least its timeout.
    Unhealthy { subsystem: Subsystem, silent_ms: u32 },
}

impl HeartbeatRecord {
    /// The record of a subsystem that has never reported.
    pub open spec fn never() -> HeartbeatRecord {
        HeartbeatRecord { last_seen: None, healthy: true }
    }

    /// A subsystem that never reported keeps the healthy verdict it starts
    /// with.
    pub open spec fn wf(self) -> bool {
        self.last_seen is None ==> self.healthy
    }

    /// The record right after a heartbeat at `now`.
    pub open spec fn fresh(now: u32) -> HeartbeatRecord {
        HeartbeatRecord { last_seen: Some(now), healthy: true }
    }

    /// The verdict at `now`: never reported, or reported less than the
    /// subsystem's timeout ago.
    pub open spec fn judged_healthy(self, s: Subsystem, now: u32) -> bool {
        match self.last_seen {
            None => true,
            Some(t) => elapsed_ms(now, t) < s.spec_timeout_ms(),
        }
    }

    /// The record once a query at `now` has cached its verdict.
    pub open spec fn after_query(self, s: Subsystem, now: u32) -> HeartbeatRecord {
        HeartbeatRecord { last_seen: self.last_seen, healthy: self.judged_healthy(s, now) }
    }

    /// The events that a query at `now` emits: one when the verdict differs
    /// from the cached one, none otherwise.
    pub open spec fn query_events(self, s: Subsystem, now: u32) -> Seq<HealthEvent> {
        if self.judged_healthy(s, now) == self.healthy {
            seq![]
        } else if self.judged_healthy(s, now) {
            seq![HealthEvent::Recovered(s)]
        } else {
            seq![
                HealthEvent::Unhealthy {
                    subsystem: s,
                    silent_ms: elapsed_ms(now, self.last_seen.unwrap()) as u32,
                },
            ]
        }
    }
}

/// The heartbeat records of all subsystems, with the health events that
/// queries emitted and nobody has taken yet.
pub struct HealthMonitor {
    wifi: HeartbeatRecord,
    mqtt: HeartbeatRecord,
    display: HeartbeatRecord,
    adc: HeartbeatRecord,
    events: Vec<HealthEvent>,
}

impl HealthMonitor {
    pub closed spec fn record(self, s: Subsystem) -> HeartbeatRecord {
        match s {
            Subsystem::Wifi => self.wifi,
            Subsystem::Mqtt => self.mqtt,
            Subsystem::Display => self.display,
            Subsystem::Adc => self.adc,
        }
    }

    /// Events emitted and not yet taken, oldest first.
    pub closed spec fn pending_events(self) -> Seq<HealthEvent> {
        self.events@
    }

    /// Every record is well formed.
    pub open spec fn wf(self) -> bool {
        &&& self.record(Subsystem::Wifi).wf()
        &&& self.record(Subsystem::Mqtt).wf()
        &&& self.record(Subsystem::Display).wf()
        &&& self.record(Subsystem::Adc).wf()
    }

    /// The conjunction of the verdicts of all subsystems at `now`.
    pub open spec fn system_healthy(self, now: u32) -> bool {
        &&& self.record(Subsystem::Wifi).judged_healthy(Subsystem::Wifi, now)
        &&& self.record(Subsystem::Mqtt).judged_healthy(Subsystem::Mqtt, now)
        &&& self.record(Subsystem::Display).judged_healthy(Subsystem::Display, now)
        &&& self.record(Subsystem::Adc).judged_healthy(Subsystem::Adc, now)
    }

    /// The events that querying every subsystem at `now` emits, in the order
    /// WiFi, MQTT, display, ADC.
    pub open spec fn events_of_full_query(self, now: u32) -> Seq<HealthEvent> {
        self.record(Subsystem::Wifi).query_events(Subsystem::Wifi, now) + self.record(
            Subsystem::Mqtt,
        ).query_events(Subsystem::Mqtt, now) + self.record(Subsystem::Display).query_events(
            Subsystem::Display,
            now,
        ) + self.record(Subsystem::Adc).query_events(Subsystem::Adc, now)
    }

    /// A monitor in which no subsystem has reported yet.
    pub fn new() -> (r: HealthMonitor)
        ensures
            forall|s: Subsystem| #[trigger] r.record(s) == HeartbeatRecord::never(),
            r.pending_events() == Seq::<HealthEvent>::empty(),
            r.wf(),
    {
        HealthMonitor {
            wifi: HeartbeatRecord { last_seen: None, healthy: true },
            mqtt: HeartbeatRecord { last_seen: None, healthy: true },
            display: HeartbeatRecord { last_seen: None, healthy: true },
            adc: HeartbeatRecord { last_seen: None, healthy: true },
            events: Vec::new(),
        }
    }

    /// The record kept for `s`.
    pub fn record_of(&self, s: Subsystem) -> (r: HeartbeatRecord)
        ensures
            r == self.record(s),
    {
        match s {
            Subsystem::Wifi => self.wifi,
            Subsystem::Mqtt => self.mqtt,
            Subsystem::Display => self.display,
            Subsystem::Adc => self.adc,
        }
    }

    fn set_record(&mut self, s: Subsystem, rec: HeartbeatRecord)
        ensures
            final(self).record(s) == rec,
            forall|o: Subsystem| o != s ==> #[trigger] final(self).record(o) == old(self).record(o),
            final(self).pending_events() == old(self).pending_events(),
    {
        match s {
            Subsystem::Wifi => self.wifi = rec,
            Subsystem::Mqtt => self.mqtt = rec,
            Subsystem::Display => self.display = rec,
            Subsystem::Adc => self.adc = rec,
        }
    }

    fn emit(&mut self, event: HealthEvent)
        ensures
            final(self).pending_events() == old(self).pending_events().push(event),
            forall|s: Subsystem| #[trigger] final(self).record(s) == old(self).record(s),
    {
        self.events.push(event);
    }

    /// Hands out the pending events, oldest first, and forgets them.
    pub fn take_events(&mut self) -> (r: Vec<HealthEvent>)
        ensures
            r@ == old(self).pending_events(),
            final(self).pending_events() == Seq::<HealthEvent>::empty(),
            forall|s: Subsystem| #[trigger] final(self).record(s) == old(self).record(s),
    {
        let mut taken: Vec<HealthEvent> = Vec::new();
        std::mem::swap(&mut taken, &mut self.events);
        taken
    }
}

/// The verdict of `rec` for `s` at `now`, on the wrapping clock.
fn judge(rec: HeartbeatRecord, s: Subsystem, now: u32) -> (r: bool)
    ensures
        r == rec.judged_healthy(s, now),
{
    match rec.last_seen {
        None => true,
        Some(t) => now.wrapping_sub(t) < s.timeout_ms(),
    }
}

/// Notes a heartbeat of `subsystem` at `now_ms`: it is seen now, and healthy.
pub fn record_heartbeat(monitor: &mut HealthMonitor, subsystem: Subsystem, now_ms: u32)
    requires
        old(monitor).wf(),
    ensures
        final(monitor).wf(),
        final(monitor).record(subsystem) == HeartbeatRecord::fresh(now_ms),
        forall|o: Subsystem|
            o != subsystem ==> #[trigger] final(monitor).record(o) == old(monitor).record(o),
        final(monitor).pending_events() == old(monitor).pending_events(),
{
    monitor.set_record(subsystem, HeartbeatRecord { last_seen: Some(now_ms), healthy: true });
}

/// Judges `subsystem` at `now_ms`, caches the verdict, and emits one event
/// when the verdict differs from the cached one.
pub fn is_subsystem_healthy(monitor: &mut HealthMonitor, subsystem: Subsystem, now_ms: u32) -> (r:
    bool)
    requires
        old(monitor).wf(),
    ensures
        final(monitor).wf(),
        r == old(monitor).record(subsystem).judged_healthy(subsystem, now_ms),
        final(monitor).record(subsystem) == old(monitor).record(subsystem).after_query(
            subsystem,
            now_ms,
        ),
        forall|o: Subsystem|
            o != subsystem ==> #[trigger] final(monitor).record(o) == old(monitor).record(o),
        final(monitor).pending_events() == old(monitor).pending_events() + old(monitor).record(
            subsystem,
        ).query_events(subsystem, now_ms),
{
    let rec = monitor.record_of(subsystem);
    let healthy = judge(rec, subsystem, now_ms);
    if healthy != rec.healthy {
        monitor.set_record(subsystem, HeartbeatRecord { last_seen: rec.last_seen, healthy });
        let event = if healthy {
            HealthEvent::Recovered(subsystem)
        } else {
            let t = rec.last_seen.unwrap();
            HealthEvent::Unhealthy { subsystem, silent_ms: now_ms.wrapping_sub(t) }
        };
        monitor.emit(event);
        assert(monitor.pending_events() =~= old(monitor).pending_events() + old(monitor).record(
            subsystem,
        ).query_events(subsystem, now_ms));
    } else {
        assert(old(monitor).record(subsystem).query_events(subsystem, now_ms) =~= seq![]);
        assert(monitor.pending_events() =~= old(monitor).pending_events() + old(monitor).record(
            subsystem,
        ).query_events(subsystem, now_ms));
    }
    healthy
}

/// Queries every subsystem at `now_ms` (each verdict cached, each flip
/// reported) and tells whether all of them are healthy.
pub fn is_system_healthy(monitor: &mut HealthMonitor, now_ms: u32) -> (r: bool)
    requires
        old(monitor).wf(),
    ensures
        final(monitor).wf(),
        r == old(monitor).system_healthy(now_ms),
        forall|s: Subsystem| #[trigger]
            final(monitor).record(s) == old(monitor).record(s).after_query(s, now_ms),
        final(monitor).pending_events() == old(monitor).pending_events() + old(
            monitor,
        ).events_of_full_query(now_ms),
{
    let (wifi_ok, mqtt_ok, display_ok, adc_ok) = get_health_status(monitor, now_ms);
    wifi_ok && mqtt_ok && display_ok && adc_ok
}

/// Queries every subsystem at `now_ms` and returns the verdicts of WiFi,
/// MQTT, display and ADC, in that order.
pub fn get_health_status(monitor: &mut HealthMonitor, now_ms: u32) -> (r: (bool, bool, bool, bool))
    requires
        old(monitor).wf(),
    ensures
        final(monitor).wf(),
        r.0 == old(monitor).record(Subsystem::Wifi).judged_healthy(Subsystem::Wifi, now_ms),
        r.1 == old(monitor).record(Subsystem::Mqtt).judged_healthy(Subsystem::Mqtt, now_ms),
        r.2 == old(monitor).record(Subsystem::Display).judged_healthy(Subsystem::Display, now_ms),
        r.3 == old(monitor).record(Subsystem::Adc).judged_healthy(Subsystem::Adc, now_ms),
        forall|s: Subsystem| #[trigger]
            final(monitor).record(s) == old(monitor).record(s).after_query(s, now_ms),
        final(monitor).pending_events() == old(monitor).pending_events() + old(
            monitor,
        ).events_of_full_query(now_ms),
{
    let ghost before = *monitor;
    let wifi_ok = is_subsystem_healthy(monitor, Subsystem::Wifi, now_ms);
    let mqtt_ok = is_subsystem_healthy(monitor, Subsystem::Mqtt, now_ms);
    let display_ok = is_subsystem_healthy(monitor, Subsystem::Display, now_ms);
    let adc_ok = is_subsystem_healthy(monitor, Subsystem::Adc, now_ms);
    assert forall|s: Subsystem| #[trigger]
        monitor.record(s) == before.record(s).after_query(s, now_ms) by {
        match s {
            Subsystem::Wifi => {},
            Subsystem::Mqtt => {},
            Subsystem::Display => {},
            Subsystem::Adc => {},
        }
    }
    assert(monitor.pending_events() =~= before.pending_events() + before.events_of_full_query(
        now_ms,
    ));
    (wifi_ok, mqtt_ok, display_ok, adc_ok)
}

/// Starts the timeout of `s` at `now_ms`; the cached verdict stays as it was.
fn restart_timeout(monitor: &mut HealthMonitor, s: Subsystem, now_ms: u32)
    ensures
        final(monitor).record(s) == (HeartbeatRecord {
            last_seen: Some(now_ms),
            healthy: old(monitor).record(s).healthy,
        }),
        forall|o: Subsystem| o != s ==> #[trigger] final(monitor).record(o) == old(monitor).record(o),
        final(monitor).pending_events() == old(monitor).pending_events(),
{
    let rec = monitor.record_of(s);
    monitor.set_record(s, HeartbeatRecord { last_seen: Some(now_ms), healthy: rec.healthy });
}

/// Starts every subsystem's timeout at `now_ms`, as if each had just
/// reported; the cached verdicts stay as they were, so a later query still
/// reports each flip.
pub fn init_health_monitoring(monitor: &mut HealthMonitor, now_ms: u32)
    requires
        old(monitor).wf(),
    ensures
        final(monitor).wf(),
        forall|s: Subsystem| #[trigger]
            final(monitor).record(s) == (HeartbeatRecord {
                last_seen: Some(now_ms),
                healthy: old(monitor).record(s).healthy,
            }),
        final(monitor).pending_events() == old(monitor).pending_events(),
{
    let ghost before = *monitor;
    restart_timeout(monitor, Subsystem::Wifi, now_ms);
    restart_timeout(monitor, Subsystem::Mqtt, now_ms);
    restart_timeout(monitor, Subsystem::Display, now_ms);
    restart_timeout(monitor, Subsystem::Adc, now_ms);
    assert forall|s: Subsystem| #[trigger]
        monitor.record(s) == (HeartbeatRecord {
            last_seen: Some(now_ms),
            healthy: before.record(s).healthy,
        }) by {
        match s {
            Subsystem::Wifi => {},
            Subsystem::Mqtt => {},
            Subsystem::Display => {},
            Subsystem::Adc => {},
        }
    }
}

/// A heartbeat at `t` keeps its subsystem healthy at every instant of
/// `[t, t + timeout)`, read on the wrapping clock, whatever queries came in
/// between: they leave the time of the last heartbeat as it is.
pub proof fn lemma_heartbeat_keeps_healthy(rec: HeartbeatRecord, s: Subsystem, t: u32, d: nat)
    requires
        rec.last_seen == Some(t),
        d < s.spec_timeout_ms(),
    ensures
        rec.judged_healthy(s, ((t + d) % (CLOCK_SPAN as int)) as u32),
        forall|now: u32| #[trigger] rec.after_query(s, now).last_seen == Some(t),
{
    let now = ((t + d) % (CLOCK_SPAN as int)) as u32;
    if t + d < CLOCK_SPAN {
        assert(now == t + d);
    } else {
        assert(now == t + d - CLOCK_SPAN);
    }
}

/// A subsystem that has never reported is judged healthy at any time, and
/// querying it changes nothing and emits no event.
pub proof fn lemma_never_reported_is_healthy(m: HealthMonitor, s: Subsystem, now: u32)
    requires
        m.wf(),
        m.record(s).last_seen is None,
    ensures
        m.record(s).judged_healthy(s, now),
        m.record(s).after_query(s, now) == m.record(s),
        m.record(s).query_events(s, now) == Seq::<HealthEvent>::empty(),
{
    match s {
        Subsystem::Wifi => {},
        Subsystem::Mqtt => {},
        Subsystem::Display => {},
        Subsystem::Adc => {},
    }
    assert(m.record(s).query_events(s, now) =~= Seq::<HealthEvent>::empty());
}

/// Two queries at `n1` and then `n2` with no heartbeat between them and the
/// same verdict at both instants emit at most one event, and the second
/// emits none.
pub proof fn lemma_one_event_per_flip(rec: HeartbeatRecord, s: Subsystem, n1: u32, n2: u32)
    requires
        rec.judged_healthy(s, n1) == rec.judged_healthy(s, n2),
    ensures
        rec.after_query(s, n1).query_events(s, n2) == Seq::<HealthEvent>::empty(),
        rec.query_events(s, n1).len() + rec.after_query(s, n1).query_events(s, n2).len() <= 1,
{
    assert(rec.after_query(s, n1).query_events(s, n2) =~= Seq::<HealthEvent>::empty());
}

/// A heartbeat at `t` shortly before the clock wraps is still fresh at an
/// instant `now` after the wrap, while less than the timeout has passed.
pub proof fn lemma_heartbeat_survives_wrap(s: Subsystem, t: u32, now: u32)
    requires
        now < t,
        now + CLOCK_SPAN - t < s.spec_timeout_ms(),
    ensures
        HeartbeatRecord::fresh(t).judged_healthy(s, now),
{
}

} // verus!
