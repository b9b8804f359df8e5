//! The WiFi station supervisor: a state machine from connectivity phase and
//! radio event to the next phase and the action to perform, with a constant
//! backoff between failed attempts; and the one-shot wait for link and
//! address that follows an association.
use vstd::prelude::*;

verus! {

/// Delay before retrying after a failed attempt or a lost association, in
/// milliseconds. It never grows.
pub const RECONNECT_DELAY_MS: u32 = 5000;

/// Polling interval while waiting for link and address, in milliseconds.
pub const NET_REFRESH_MS: u32 = 500;

/// While associated, the supervisor wakes at this interval to report that it
/// is alive, in milliseconds.
pub const WIFI_ALIVE_MS: u32 = 30_000;

/// Heartbeat blink interval while the network is up, in milliseconds.
pub const HEARTBEAT_DEFAULT_MS: u32 = 5000;

/// Heartbeat blink interval while waiting for the network, in milliseconds.
pub const HEARTBEAT_NET_AWAIT_MS: u32 = 1000;

/// Heartbeat blink interval at boot, in milliseconds.
pub const HEARTBEAT_INIT_MS: u32 = 500;

/// Phase of the WiFi association.
#[derive(Debug, Clone, Copy, PartialEq, Eq, Structural)]
pub enum ConnectivityState {
    Disconnected,
    Starting,
    Scanning,
    Connecting,
    Connected,
}

/// What happened to the radio, as the driving task reports it.
#[derive(Debug, Clone, Copy, PartialEq, Eq, Structural)]
pub enum NetEvent {
    /// The task begins, or a backoff delay has passed.
    Resume,
    /// The radio was configured with the credentials and started.
    StartSucceeded,
    /// Configuring or starting the radio failed.
    StartFailed,
    /// The access-point scan ended; its outcome does not matter.
    ScanFinished,
    /// The station associated with the access point.
    ConnectSucceeded,
    /// The association attempt failed.
    ConnectFailed,
    /// The association was lost.
    LinkLost,
    /// The association still holds after the wait that `AwaitDisconnect`
    /// asked for.
    StillAssociated,
}

/// What the driving task must do next.
#[derive(Debug, Clone, Copy, PartialEq, Eq, Structural)]
pub enum NetAction {
    /// Configure the radio with the credentials and start it.
    StartRadio,
    /// Scan for access points.
    Scan,
    /// Try to associate.
    Connect,
    /// Wait until the association is lost, for at most this many
    /// milliseconds; report `LinkLost` or `StillAssociated`.
    AwaitDisconnect(u32),
    /// Wait this many milliseconds, then report `Resume`.
    Backoff(u32),
    /// The event does not apply to the current phase; nothing to do.
    Ignore,
}

/// The status line to publish.
#[derive(Debug, Clone, Copy, PartialEq, Eq, Structural)]
pub enum NetStatus {
    StartingWifi,
    Scanning,
    Connecting,
    Connected,
    Disconnected,
    /// An attempt failed; the reason follows the text.
    Failed,
}

impl NetStatus {
    pub open spec fn spec_text(self) -> Seq<char> {
        match self {
            NetStatus::StartingWifi => "Starting WiFi"@,
            NetStatus::Scanning => "WiFi scan"@,
            NetStatus::Connecting => "Connecting to WiFi"@,
            NetStatus::Connected => "Wifi connected!"@,
            NetStatus::Disconnected => "WiFi disconnected"@,
            NetStatus::Failed => "WiFi fail: "@,
        }
    }

    /// The status text; for `Failed`, the prefix before the reason.
    pub fn text(&self) -> (r: &'static str)
        ensures
            r@ == self.spec_text(),
    {
        match self {
            NetStatus::StartingWifi => "Starting WiFi",
            NetStatus::Scanning => "WiFi scan",
            NetStatus::Connecting => "Connecting to WiFi",
            NetStatus::Connected => "Wifi connected!",
            NetStatus::Disconnected => "WiFi disconnected",
            NetStatus::Failed => "WiFi fail: ",
        }
    }
}

/// The outcome of one event: the action to perform and the status line to
/// publish, if any.
#[derive(Debug, Clone, Copy, PartialEq, Eq, Structural)]
pub struct NetStep {
    pub action: NetAction,
    pub status: Option<NetStatus>,
}

/// What the supervisor knows.
#[derive(Debug, Clone, Copy, PartialEq, Eq, Structural)]
pub struct NetView {
    pub state: ConnectivityState,
    /// The radio has been started.
    pub radio_started: bool,
    /// The shared connectivity flag.
    pub connected: bool,
    /// The heartbeat blink interval to show, in milliseconds.
    pub cadence_ms: u32,
}

impl NetView {
    /// The flag follows the phase, and past `Starting` the radio runs.
    pub open spec fn wf(self) -> bool {
        &&& self.connected == (self.state == ConnectivityState::Connected)
        &&& (self.state == ConnectivityState::Scanning || self.state
            == ConnectivityState::Connecting || self.state == ConnectivityState::Connected)
            ==> self.radio_started
    }

    /// The phase reached after a failure or a lost association: flag down,
    /// fast blink, and a wait of the constant delay.
    pub open spec fn fall_back(self, status: NetStatus) -> (NetView, NetStep) {
        (
            NetView {
                state: ConnectivityState::Disconnected,
                connected: false,
                cadence_ms: HEARTBEAT_NET_AWAIT_MS,
                ..self
            },
            NetStep { action: NetAction::Backoff(RECONNECT_DELAY_MS), status: Some(status) },
        )
    }

    /// The transition of the state machine on `ev`.
    pub open spec fn next(self, ev: NetEvent) -> (NetView, NetStep) {
        match (self.state, ev) {
            (ConnectivityState::Disconnected, NetEvent::Resume) => if self.radio_started {
                (
                    NetView { state: ConnectivityState::Connecting, ..self },
                    NetStep { action: NetAction::Connect, status: Some(NetStatus::Connecting) },
                )
            } else {
                (
                    NetView { state: ConnectivityState::Starting, ..self },
                    NetStep {
                        action: NetAction::StartRadio,
                        status: Some(NetStatus::StartingWifi),
                    },
                )
            },
            (ConnectivityState::Starting, NetEvent::StartSucceeded) => (
                NetView { state: ConnectivityState::Scanning, radio_started: true, ..self },
                NetStep { action: NetAction::Scan, status: Some(NetStatus::Scanning) },
            ),
            (ConnectivityState::Starting, NetEvent::StartFailed) => self.fall_back(
                NetStatus::Failed,
            ),
            (ConnectivityState::Scanning, NetEvent::ScanFinished) => (
                NetView { state: ConnectivityState::Connecting, ..self },
                NetStep { action: NetAction::Connect, status: Some(NetStatus::Connecting) },
            ),
            (ConnectivityState::Connecting, NetEvent::ConnectSucceeded) => (
                NetView {
                    state: ConnectivityState::Connected,
                    connected: true,
                    cadence_ms: HEARTBEAT_DEFAULT_MS,
                    ..self
                },
                NetStep {
                    action: NetAction::AwaitDisconnect(WIFI_ALIVE_MS),
                    status: Some(NetStatus::Connected),
                },
            ),
            (ConnectivityState::Connecting, NetEvent::ConnectFailed) => self.fall_back(
                NetStatus::Failed,
            ),
            (ConnectivityState::Connected, NetEvent::LinkLost) => self.fall_back(
                NetStatus::Disconnected,
            ),
            (ConnectivityState::Connected, NetEvent::StillAssociated) => (
                self,
                NetStep { action: NetAction::AwaitDisconnect(WIFI_ALIVE_MS), status: None },
            ),
            _ => (self, NetStep { action: NetAction::Ignore, status: None }),
        }
    }
}

/// The WiFi association supervisor.
pub struct NetworkSupervisor {
    state: ConnectivityState,
    radio_started: bool,
    connected: bool,
    cadence_ms: u32,
}

impl View for NetworkSupervisor {
    type V = NetView;

    closed spec fn view(&self) -> NetView {
        NetView {
            state: self.state,
            radio_started: self.radio_started,
            connected: self.connected,
            cadence_ms: self.cadence_ms,
        }
    }
}

impl NetworkSupervisor {
    /// A supervisor at boot: disconnected, radio off, boot blink.
    pub fn new() -> (r: NetworkSupervisor)
        ensures
            r@ == (NetView {
                state: ConnectivityState::Disconnected,
                radio_started: false,
                connected: false,
                cadence_ms: HEARTBEAT_INIT_MS,
            }),
            r@.wf(),
    {
        NetworkSupervisor {
            state: ConnectivityState::Disconnected,
            radio_started: false,
            connected: false,
            cadence_ms: HEARTBEAT_INIT_MS,
        }
    }

    /// The current phase.
    pub fn state(&self) -> (r: ConnectivityState)
        ensures
            r == self@.state,
    {
        self.state
    }

    /// The heartbeat blink interval to show, in milliseconds.
    pub fn cadence_ms(&self) -> (r: u32)
        ensures
            r == self@.cadence_ms,
    {
        self.cadence_ms
    }

    fn fall_back(&mut self, status: NetStatus) -> (r: NetStep)
        ensures
            (final(self)@, r) == old(self)@.fall_back(status),
    {
        self.state = ConnectivityState::Disconnected;
        self.connected = false;
        self.cadence_ms = HEARTBEAT_NET_AWAIT_MS;
        NetStep { action: NetAction::Backoff(RECONNECT_DELAY_MS), status: Some(status) }
    }

    /// Takes `ev` into account and tells what to do next.
    pub fn on_event(&mut self, ev: NetEvent) -> (r: NetStep)
        requires
            old(self)@.wf(),
        ensures
            (final(self)@, r) == old(self)@.next(ev),
            final(self)@.wf(),
    {
        match (self.state, ev) {
            (ConnectivityState::Disconnected, NetEvent::Resume) => {
                if self.radio_started {
                    self.state = ConnectivityState::Connecting;
                    NetStep { action: NetAction::Connect, status: Some(NetStatus::Connecting) }
                } else {
                    self.state = ConnectivityState::Starting;
                    NetStep { action: NetAction::StartRadio, status: Some(NetStatus::StartingWifi) }
                }
            },
            (ConnectivityState::Starting, NetEvent::StartSucceeded) => {
                self.state = ConnectivityState::Scanning;
                self.radio_started = true;
                NetStep { action: NetAction::Scan, status: Some(NetStatus::Scanning) }
            },
            (ConnectivityState::Starting, NetEvent::StartFailed) => self.fall_back(
                NetStatus::Failed,
            ),
            (ConnectivityState::Scanning, NetEvent::ScanFinished) => {
                self.state = ConnectivityState::Connecting;
                NetStep { action: NetAction::Connect, status: Some(NetStatus::Connecting) }
            },
            (ConnectivityState::Connecting, NetEvent::ConnectSucceeded) => {
                self.state = ConnectivityState::Connected;
                self.connected = true;
                self.cadence_ms = HEARTBEAT_DEFAULT_MS;
                NetStep {
                    action: NetAction::AwaitDisconnect(WIFI_ALIVE_MS),
                    status: Some(NetStatus::Connected),
                }
            },
            (ConnectivityState::Connecting, NetEvent::ConnectFailed) => self.fall_back(
                NetStatus::Failed,
            ),
            (ConnectivityState::Connected, NetEvent::LinkLost) => self.fall_back(
                NetStatus::Disconnected,
            ),
            (ConnectivityState::Connected, NetEvent::StillAssociated) => NetStep {
                action: NetAction::AwaitDisconnect(WIFI_ALIVE_MS),
                status: None,
            },
            _ => NetStep { action: NetAction::Ignore, status: None },
        }
    }
}

/// Where the wait for link and address stands.
#[derive(Debug, Clone, Copy, PartialEq, Eq, Structural)]
pub enum AddressPhase {
    AwaitingLink,
    AwaitingAddress,
    Ready,
}

/// What the waiting task does after one look at the link and the lease.
#[derive(Debug, Clone, Copy, PartialEq, Eq, Structural)]
pub enum WaitStep {
    /// Look again after this many milliseconds.
    Retry(u32),
    /// The link is up: publish the new phase and look for the lease at once.
    Proceed,
    /// The lease is there: publish the address; the wait is over.
    Done,
}

impl AddressPhase {
    /// The transition on one look: the link is up, a lease is held.
    pub open spec fn next(self, link_up: bool, leased: bool) -> (AddressPhase, WaitStep) {
        match self {
            AddressPhase::AwaitingLink => if link_up {
                (AddressPhase::AwaitingAddress, WaitStep::Proceed)
            } else {
                (AddressPhase::AwaitingLink, WaitStep::Retry(NET_REFRESH_MS))
            },
            AddressPhase::AwaitingAddress => if leased {
                (AddressPhase::Ready, WaitStep::Done)
            } else {
                (AddressPhase::AwaitingAddress, WaitStep::Retry(NET_REFRESH_MS))
            },
            AddressPhase::Ready => (AddressPhase::Ready, WaitStep::Done),
        }
    }

    /// The heartbeat blink interval of the phase: the awaiting-network rate
    /// while waiting, the default rate once an address is held.
    pub open spec fn spec_cadence_ms(self) -> u32 {
        match self {
            AddressPhase::Ready => HEARTBEAT_DEFAULT_MS,
            _ => HEARTBEAT_NET_AWAIT_MS,
        }
    }

    pub fn cadence_ms(&self) -> (r: u32)
        ensures
            r == self.spec_cadence_ms(),
    {
        match self {
            AddressPhase::Ready => HEARTBEAT_DEFAULT_MS,
            _ => HEARTBEAT_NET_AWAIT_MS,
        }
    }

    pub open spec fn spec_status_text(self) -> Seq<char> {
        match self {
            AddressPhase::AwaitingLink => "Waiting for net"@,
            AddressPhase::AwaitingAddress => "Waiting for IP"@,
            AddressPhase::Ready => "IP: "@,
        }
    }

    /// The status text of the phase; for `Ready`, the prefix before the
    /// address.
    pub fn status_text(&self) -> (r: &'static str)
        ensures
            r@ == self.spec_status_text(),
    {
        match self {
            AddressPhase::AwaitingLink => "Waiting for net",
            AddressPhase::AwaitingAddress => "Waiting for IP",
            AddressPhase::Ready => "IP: ",
        }
    }
}

/// The one-shot wait, after an association, for the link and then for an
/// address lease; it polls at a fixed interval, without backoff.
pub struct AddressWait {
    phase: AddressPhase,
}

impl View for AddressWait {
    type V = AddressPhase;

    closed spec fn view(&self) -> AddressPhase {
        self.phase
    }
}

impl AddressWait {
    /// A wait that begins with the link.
    pub fn new() -> (r: AddressWait)
        ensures
            r@ == AddressPhase::AwaitingLink,
    {
        AddressWait { phase: AddressPhase::AwaitingLink }
    }

    /// The current phase.
    pub fn phase(&self) -> (r: AddressPhase)
        ensures
            r == self@,
    {
        self.phase
    }

    /// Takes one look at the link and the lease into account.
    pub fn poll(&mut self, link_up: bool, leased: bool) -> (r: WaitStep)
        ensures
            (final(self)@, r) == old(self)@.next(link_up, leased),
    {
        match self.phase {
            AddressPhase::AwaitingLink => {
                if link_up {
                    self.phase = AddressPhase::AwaitingAddress;
                    WaitStep::Proceed
                } else {
                    WaitStep::Retry(NET_REFRESH_MS)
                }
            },
            AddressPhase::AwaitingAddress => {
                if leased {
                    self.phase = AddressPhase::Ready;
                    WaitStep::Done
                } else {
                    WaitStep::Retry(NET_REFRESH_MS)
                }
            },
            AddressPhase::Ready => WaitStep::Done,
        }
    }
}

/// The shared connectivity flag: associated or not.
pub fn is_wifi_connected(sup: &NetworkSupervisor) -> (r: bool)
    ensures
        r == sup@.connected,
{
    sup.connected
}

/// The phase reached and the actions taken when the events `evs` arrive one
/// after another from `v`.
pub open spec fn run(v: NetView, evs: Seq<NetEvent>) -> (NetView, Seq<NetAction>)
    decreases evs.len(),
{
    if evs.len() == 0 {
        (v, Seq::<NetAction>::empty())
    } else {
        let (v1, step) = v.next(evs[0]);
        let (v2, acts) = run(v1, evs.drop_first());
        (v2, seq![step.action] + acts)
    }
}

/// `n` rounds of a failed association followed by the end of the backoff.
pub open spec fn failed_rounds(n: nat) -> Seq<NetEvent>
    decreases n,
{
    if n == 0 {
        Seq::<NetEvent>::empty()
    } else {
        seq![NetEvent::ConnectFailed, NetEvent::Resume] + failed_rounds((n - 1) as nat)
    }
}

/// `n` rounds of a constant backoff followed by a new attempt.
pub open spec fn retry_rounds(n: nat) -> Seq<NetAction>
    decreases n,
{
    if n == 0 {
        Seq::<NetAction>::empty()
    } else {
        seq![NetAction::Backoff(RECONNECT_DELAY_MS), NetAction::Connect] + retry_rounds(
            (n - 1) as nat,
        )
    }
}

/// From `Disconnected` with the radio off, a successful start, a scan
/// (whatever it found) and a successful association end in `Connected`, with
/// the flag up and the default blink.
pub proof fn lemma_successful_bring_up(v: NetView)
    requires
        v.wf(),
        v.state == ConnectivityState::Disconnected,
        !v.radio_started,
    ensures
        ({
            let (w, acts) = run(
                v,
                seq![
                    NetEvent::Resume,
                    NetEvent::StartSucceeded,
                    NetEvent::ScanFinished,
                    NetEvent::ConnectSucceeded,
                ],
            );
            &&& w.state == ConnectivityState::Connected
            &&& w.connected
            &&& w.cadence_ms == HEARTBEAT_DEFAULT_MS
            &&& w.wf()
            &&& acts == seq![
                NetAction::StartRadio,
                NetAction::Scan,
                NetAction::Connect,
                NetAction::AwaitDisconnect(WIFI_ALIVE_MS),
            ]
        }),
{
    let evs = seq![
        NetEvent::Resume,
        NetEvent::StartSucceeded,
        NetEvent::ScanFinished,
        NetEvent::ConnectSucceeded,
    ];
    assert(evs.drop_first() =~= seq![
        NetEvent::StartSucceeded,
        NetEvent::ScanFinished,
        NetEvent::ConnectSucceeded,
    ]);
    assert(evs.drop_first().drop_first() =~= seq![
        NetEvent::ScanFinished,
        NetEvent::ConnectSucceeded,
    ]);
    assert(evs.drop_first().drop_first().drop_first() =~= seq![NetEvent::ConnectSucceeded]);
    assert(evs.drop_first().drop_first().drop_first().drop_first() =~= Seq::<NetEvent>::empty());
    reveal_with_fuel(run, 5);
    let (w, acts) = run(v, evs);
    assert(acts =~= seq![
        NetAction::StartRadio,
        NetAction::Scan,
        NetAction::Connect,
        NetAction::AwaitDisconnect(WIFI_ALIVE_MS),
    ]);
}

/// A failed association, whatever came before it, brings the supervisor back
/// to `Disconnected` with the flag down and asks for exactly one wait of the
/// constant delay; when it ends, exactly one new attempt follows.
pub proof fn lemma_failure_backs_off_once(v: NetView)
    requires
        v.wf(),
        v.state == ConnectivityState::Connecting,
    ensures
        ({
            let (w, step) = v.next(NetEvent::ConnectFailed);
            let (u, again) = w.next(NetEvent::Resume);
            &&& w.state == ConnectivityState::Disconnected
            &&& !w.connected
            &&& w.wf()
            &&& step.action == NetAction::Backoff(RECONNECT_DELAY_MS)
            &&& u.state == ConnectivityState::Connecting
            &&& u.wf()
            &&& again.action == NetAction::Connect
        }),
{
}

/// However many associations fail in a row, each failure is followed by the
/// same constant delay and then one new attempt.
pub proof fn lemma_retries_never_escalate(v: NetView, n: nat)
    requires
        v.wf(),
        v.state == ConnectivityState::Connecting,
    ensures
        run(v, failed_rounds(n)).0.state == ConnectivityState::Connecting,
        run(v, failed_rounds(n)).0.wf(),
        run(v, failed_rounds(n)).1 == retry_rounds(n),
    decreases n,
{
    if n > 0 {
        let evs = failed_rounds(n);
        let rest = failed_rounds((n - 1) as nat);
        assert(evs.drop_first() =~= seq![NetEvent::Resume] + rest);
        assert(evs.drop_first().drop_first() =~= rest);
        let (w, _) = v.next(NetEvent::ConnectFailed);
        let (u, _) = w.next(NetEvent::Resume);
        lemma_retries_never_escalate(u, (n - 1) as nat);
        assert(run(w, evs.drop_first()).1 =~= seq![NetAction::Connect] + run(u, rest).1);
        assert(run(v, evs).1 =~= retry_rounds(n));
    }
}

} // verus!
