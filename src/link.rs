use vstd::prelude::*;

verus! {

/// Default number of retries after a failed attempt before a lost link is fatal.
pub const DEFAULT_RETRY_CAP: u32 = 10;

/// Default pause between two liveness checks of an established link.
pub const DEFAULT_POLL_INTERVAL_MS: u32 = 1000;

/// Network credentials of the device.
#[derive(Debug)]
pub struct Config {
    pub wifi_ssid: String,
    pub wifi_psk: String,
}

/// Authentication of the network to join.
#[derive(Clone, Copy, Debug, PartialEq, Eq, Structural)]
pub enum AuthMethod {
    Open,
    WPA2Personal,
}

/// One network announcement seen while scanning.
#[derive(Debug)]
pub struct AccessPoint {
    pub ssid: String,
    pub channel: u8,
}

/// What the radio is told when it joins the configured network.
#[derive(Debug)]
pub struct ClientSettings {
    pub ssid: String,
    pub password: String,
    pub channel: Option<u8>,
    pub auth_method: AuthMethod,
}

/// Stages of the wireless link.
#[derive(Clone, Copy, Debug, PartialEq, Eq, Structural)]
pub enum LinkState {
    Down,
    Connecting,
    Scanning,
    Associating,
    WaitingForLease,
    Up,
    Failed,
}

/// How failed attempts are retried: without end at bring-up, or up to the cap once
/// an established link was lost.
#[derive(Clone, Copy, Debug, PartialEq, Eq, Structural)]
pub enum RetryPolicy {
    Unbounded,
    Bounded,
}

/// Why the link cannot be supervised at all.
#[derive(Clone, Copy, Debug, PartialEq, Eq, Structural)]
pub enum LinkConfigError {
    MissingNetworkName,
}

/// What the platform reports to the supervisor.
#[derive(Debug)]
pub enum LinkEvent {
    /// Bring the link up for the first time.
    Start,
    /// The radio was configured as a client and started.
    RadioStarted,
    /// The scan finished with these announcements.
    ScanDone(Vec<AccessPoint>),
    /// The radio joined the network.
    Associated,
    /// An address was leased.
    LeaseAcquired,
    /// The step in progress failed or timed out.
    StepFailed,
    /// Result of a liveness check of an established link.
    Liveness(bool),
}

/// What the platform must do next for the supervisor.
#[derive(Debug)]
pub enum LinkAction {
    /// Configure the radio as a client with no network and start it.
    StartRadio,
    /// Scan for network announcements.
    Scan,
    /// Join with these settings.
    Associate(ClientSettings),
    /// Wait for an address lease.
    AwaitLease,
    /// Sleep this many milliseconds, then check liveness.
    Sleep(u32),
    /// The retry budget is spent: restart the device.
    Escalate,
    /// The event does not fit the current state and was dropped.
    Nothing,
}

/// Abstract state of the supervisor.
pub struct LinkView {
    pub config: Config,
    pub retry_cap: u32,
    pub poll_interval_ms: u32,
    pub state: LinkState,
    pub policy: RetryPolicy,
    pub attempts: u64,
}

/// Whether a connect attempt is under way.
pub open spec fn in_progress(st: LinkState) -> bool {
    st is Connecting || st is Scanning || st is Associating || st is WaitingForLease
}

/// Channel of the first announcement at or after `i` whose name is `ssid`.
pub open spec fn channel_from(aps: Seq<AccessPoint>, ssid: Seq<char>, i: int) -> Option<u8>
    decreases aps.len() - i,
{
    if i < 0 || i >= aps.len() {
        None
    } else if aps[i].ssid@ == ssid {
        Some(aps[i].channel)
    } else {
        channel_from(aps, ssid, i + 1)
    }
}

/// Open network for an empty pass-phrase, WPA2-personal otherwise.
pub open spec fn auth_for(pass: Seq<char>) -> AuthMethod {
    if pass.len() == 0 {
        AuthMethod::Open
    } else {
        AuthMethod::WPA2Personal
    }
}

/// The settings to join the configured network after a scan saw `aps`.
pub open spec fn settings_for(c: Config, aps: Seq<AccessPoint>) -> ClientSettings {
    ClientSettings {
        ssid: c.wifi_ssid,
        password: c.wifi_psk,
        channel: channel_from(aps, c.wifi_ssid@, 0),
        auth_method: auth_for(c.wifi_psk@),
    }
}

/// One transition of the supervisor: the next state and the action for the platform.
/// A failed step takes the link down; when the retry policy allows another attempt
/// it begins at once, so the state seen after the failure is connecting again.
pub open spec fn link_step(s: LinkView, e: LinkEvent) -> (LinkView, LinkAction) {
    match (s.state, e) {
        (LinkState::Down, LinkEvent::Start) => (
            LinkView {
                state: LinkState::Connecting,
                policy: RetryPolicy::Unbounded,
                attempts: 1,
                ..s
            },
            LinkAction::StartRadio,
        ),
        (LinkState::Up, LinkEvent::Liveness(true)) => (s, LinkAction::Sleep(s.poll_interval_ms)),
        (LinkState::Up, LinkEvent::Liveness(false)) => (
            LinkView {
                state: LinkState::Connecting,
                policy: RetryPolicy::Bounded,
                attempts: 1,
                ..s
            },
            LinkAction::StartRadio,
        ),
        (LinkState::Connecting, LinkEvent::RadioStarted) => (
            LinkView { state: LinkState::Scanning, ..s },
            LinkAction::Scan,
        ),
        (LinkState::Scanning, LinkEvent::ScanDone(aps)) => (
            LinkView { state: LinkState::Associating, ..s },
            LinkAction::Associate(settings_for(s.config, aps@)),
        ),
        (LinkState::Associating, LinkEvent::Associated) => (
            LinkView { state: LinkState::WaitingForLease, ..s },
            LinkAction::AwaitLease,
        ),
        (LinkState::WaitingForLease, LinkEvent::LeaseAcquired) => (
            LinkView { state: LinkState::Up, ..s },
            LinkAction::Sleep(s.poll_interval_ms),
        ),
        (st, LinkEvent::StepFailed) => if !in_progress(st) {
            (s, LinkAction::Nothing)
        } else if s.policy is Bounded && s.attempts > s.retry_cap as u64 {
            (LinkView { state: LinkState::Failed, ..s }, LinkAction::Escalate)
        } else {
            (
                LinkView {
                    state: LinkState::Connecting,
                    attempts: if s.attempts < u64::MAX { (s.attempts + 1) as u64 } else { s.attempts },
                    ..s
                },
                LinkAction::StartRadio,
            )
        },
        _ => (s, LinkAction::Nothing),
    }
}

/// Channel of the first announcement of the network named `ssid`, if any.
pub fn select_channel(aps: &Vec<AccessPoint>, ssid: &String) -> (r: Option<u8>)
    ensures
        r == channel_from(aps@, ssid@, 0),
{
    let mut i: usize = 0;
    while i < aps.len()
        invariant
            0 <= i <= aps.len(),
            channel_from(aps@, ssid@, 0) == channel_from(aps@, ssid@, i as int),
        decreases aps.len() - i,
    {
        if aps[i].ssid == *ssid {
            return Some(aps[i].channel);
        }
        i = i + 1;
    }
    None
}

/// Authentication that a pass-phrase selects.
pub fn auth_method_for(pass: &String) -> (r: AuthMethod)
    ensures
        r == auth_for(pass@),
{
    if pass.as_str().is_empty() {
        AuthMethod::Open
    } else {
        AuthMethod::WPA2Personal
    }
}

/// Supervises the wireless link: it decides each step of connecting, scanning,
/// joining and leasing, and when to retry or give up. The platform performs the
/// steps and reports back.
pub struct LinkSupervisor {
    config: Config,
    retry_cap: u32,
    poll_interval_ms: u32,
    state: LinkState,
    policy: RetryPolicy,
    attempts: u64,
}

impl View for LinkSupervisor {
    type V = LinkView;

    closed spec fn view(&self) -> LinkView {
        LinkView {
            config: self.config,
            retry_cap: self.retry_cap,
            poll_interval_ms: self.poll_interval_ms,
            state: self.state,
            policy: self.policy,
            attempts: self.attempts,
        }
    }
}

impl LinkSupervisor {
    /// A supervisor for `config`, with the link down. A missing network name is a
    /// fatal misconfiguration: no supervisor is made, so no attempt is ever made.
    pub fn new(config: Config, retry_cap: u32, poll_interval_ms: u32) -> (r: Result<
        LinkSupervisor,
        LinkConfigError,
    >)
        ensures
            r is Ok <==> config.wifi_ssid@.len() > 0,
            r matches Err(e) ==> e == LinkConfigError::MissingNetworkName,
            r matches Ok(sup) ==> {
                &&& sup@.config == config
                &&& sup@.retry_cap == retry_cap
                &&& sup@.poll_interval_ms == poll_interval_ms
                &&& sup@.state == LinkState::Down
                &&& sup@.attempts == 0
            },
    {
        if config.wifi_ssid.as_str().is_empty() {
            return Err(LinkConfigError::MissingNetworkName);
        }
        Ok(LinkSupervisor {
            config,
            retry_cap,
            poll_interval_ms,
            state: LinkState::Down,
            policy: RetryPolicy::Unbounded,
            attempts: 0,
        })
    }

    /// A supervisor with the default retry cap and polling interval.
    pub fn with_defaults(config: Config) -> (r: Result<LinkSupervisor, LinkConfigError>)
        ensures
            r is Ok <==> config.wifi_ssid@.len() > 0,
            r matches Err(e) ==> e == LinkConfigError::MissingNetworkName,
            r matches Ok(sup) ==> {
                &&& sup@.config == config
                &&& sup@.retry_cap == DEFAULT_RETRY_CAP
                &&& sup@.poll_interval_ms == DEFAULT_POLL_INTERVAL_MS
                &&& sup@.state == LinkState::Down
                &&& sup@.attempts == 0
            },
    {
        LinkSupervisor::new(config, DEFAULT_RETRY_CAP, DEFAULT_POLL_INTERVAL_MS)
    }

    pub fn state(&self) -> (r: LinkState)
        ensures
            r == self@.state,
    {
        self.state
    }

    /// Number of connect attempts begun since the link was last started or lost.
    pub fn attempts(&self) -> (r: u64)
        ensures
            r == self@.attempts,
    {
        self.attempts
    }

    pub fn config(&self) -> (r: &Config)
        ensures
            *r == self@.config,
    {
        &self.config
    }

    /// Feeds one event to the supervisor and returns what the platform must do next.
    pub fn step(&mut self, event: LinkEvent) -> (r: LinkAction)
        ensures
            (final(self)@, r) == link_step(old(self)@, event),
    {
        match (self.state, event) {
            (LinkState::Down, LinkEvent::Start) => {
                self.state = LinkState::Connecting;
                self.policy = RetryPolicy::Unbounded;
                self.attempts = 1;
                LinkAction::StartRadio
            },
            (LinkState::Up, LinkEvent::Liveness(true)) => LinkAction::Sleep(self.poll_interval_ms),
            (LinkState::Up, LinkEvent::Liveness(false)) => {
                self.state = LinkState::Connecting;
                self.policy = RetryPolicy::Bounded;
                self.attempts = 1;
                LinkAction::StartRadio
            },
            (LinkState::Connecting, LinkEvent::RadioStarted) => {
                self.state = LinkState::Scanning;
                LinkAction::Scan
            },
            (LinkState::Scanning, LinkEvent::ScanDone(aps)) => {
                self.state = LinkState::Associating;
                let settings = ClientSettings {
                    ssid: self.config.wifi_ssid.clone(),
                    password: self.config.wifi_psk.clone(),
                    channel: select_channel(&aps, &self.config.wifi_ssid),
                    auth_method: auth_method_for(&self.config.wifi_psk),
                };
                LinkAction::Associate(settings)
            },
            (LinkState::Associating, LinkEvent::Associated) => {
                self.state = LinkState::WaitingForLease;
                LinkAction::AwaitLease
            },
            (LinkState::WaitingForLease, LinkEvent::LeaseAcquired) => {
                self.state = LinkState::Up;
                LinkAction::Sleep(self.poll_interval_ms)
            },
            (st, LinkEvent::StepFailed) => {
                let busy = match st {
                    LinkState::Connecting | LinkState::Scanning | LinkState::Associating
                    | LinkState::WaitingForLease => true,
                    _ => false,
                };
                if !busy {
                    LinkAction::Nothing
                } else if self.policy == RetryPolicy::Bounded && self.attempts > self.retry_cap as u64 {
                    self.state = LinkState::Failed;
                    LinkAction::Escalate
                } else {
                    self.state = LinkState::Connecting;
                    if self.attempts < u64::MAX {
                        self.attempts = self.attempts + 1;
                    }
                    LinkAction::StartRadio
                }
            },
            _ => LinkAction::Nothing,
        }
    }
}

/// The final state and the actions of a supervisor fed `evs` one by one from `s`.
pub open spec fn link_run(s: LinkView, evs: Seq<LinkEvent>) -> (LinkView, Seq<LinkAction>)
    decreases evs.len(),
{
    if evs.len() == 0 {
        (s, Seq::empty())
    } else {
        let (t, a) = link_step(s, evs[0]);
        let (u, rest) = link_run(t, evs.drop_first());
        (u, seq![a] + rest)
    }
}

/// How many times the link comes up while `evs` are fed from `s`.
pub open spec fn ups(s: LinkView, evs: Seq<LinkEvent>) -> nat
    decreases evs.len(),
{
    if evs.len() == 0 {
        0
    } else {
        let t = link_step(s, evs[0]).0;
        (if s.state != LinkState::Up && t.state == LinkState::Up { 1nat } else { 0nat }) + ups(
            t,
            evs.drop_first(),
        )
    }
}

/// Number of full connect attempts that `acts` begin.
pub open spec fn starts(acts: Seq<LinkAction>) -> nat
    decreases acts.len(),
{
    if acts.len() == 0 {
        0
    } else {
        (if acts[0] is StartRadio { 1nat } else { 0nat }) + starts(acts.drop_first())
    }
}

/// Number of fatal escalations among `acts`.
pub open spec fn escalations(acts: Seq<LinkAction>) -> nat
    decreases acts.len(),
{
    if acts.len() == 0 {
        0
    } else {
        (if acts[0] is Escalate { 1nat } else { 0nat }) + escalations(acts.drop_first())
    }
}

/// The platform's reports of an attempt that succeeds at every step.
pub open spec fn join_events(aps: Vec<AccessPoint>) -> Seq<LinkEvent> {
    seq![
        LinkEvent::RadioStarted,
        LinkEvent::ScanDone(aps),
        LinkEvent::Associated,
        LinkEvent::LeaseAcquired,
    ]
}

/// The platform's reports of an attempt whose step number `stage` fails: starting
/// the radio, scanning, joining, or leasing an address.
pub open spec fn failed_attempt(aps: Vec<AccessPoint>, stage: nat) -> Seq<LinkEvent> {
    if stage == 0 {
        seq![LinkEvent::StepFailed]
    } else if stage == 1 {
        seq![LinkEvent::RadioStarted, LinkEvent::StepFailed]
    } else if stage == 2 {
        seq![LinkEvent::RadioStarted, LinkEvent::ScanDone(aps), LinkEvent::StepFailed]
    } else {
        seq![
            LinkEvent::RadioStarted,
            LinkEvent::ScanDone(aps),
            LinkEvent::Associated,
            LinkEvent::StepFailed,
        ]
    }
}

/// Failed attempts in a row, one for each stage of `stages`.
pub open spec fn failed_attempts(aps: Vec<AccessPoint>, stages: Seq<nat>) -> Seq<LinkEvent>
    decreases stages.len(),
{
    if stages.len() == 0 {
        Seq::empty()
    } else {
        failed_attempt(aps, stages[0]) + failed_attempts(aps, stages.drop_first())
    }
}

proof fn lemma_counts_append(x: Seq<LinkAction>, y: Seq<LinkAction>)
    ensures
        starts(x + y) == starts(x) + starts(y),
        escalations(x + y) == escalations(x) + escalations(y),
    decreases x.len(),
{
    if x.len() == 0 {
        assert(x + y =~= y);
    } else {
        assert((x + y).drop_first() =~= x.drop_first() + y);
        lemma_counts_append(x.drop_first(), y);
    }
}

proof fn lemma_link_run_append(s: LinkView, a: Seq<LinkEvent>, b: Seq<LinkEvent>)
    ensures
        link_run(s, a + b).0 == link_run(link_run(s, a).0, b).0,
        link_run(s, a + b).1 == link_run(s, a).1 + link_run(link_run(s, a).0, b).1,
        ups(s, a + b) == ups(s, a) + ups(link_run(s, a).0, b),
    decreases a.len(),
{
    if a.len() == 0 {
        assert(a + b =~= b);
        assert(link_run(s, a).1 + link_run(s, b).1 =~= link_run(s, b).1);
    } else {
        let (t, x) = link_step(s, a[0]);
        assert((a + b).drop_first() =~= a.drop_first() + b);
        assert((a + b)[0] == a[0]);
        lemma_link_run_append(t, a.drop_first(), b);
        let p = link_run(t, a.drop_first()).1;
        let q = link_run(link_run(t, a.drop_first()).0, b).1;
        assert(seq![x] + (p + q) =~= (seq![x] + p) + q);
    }
}

proof fn lemma_one_step(s: LinkView, e: LinkEvent, rest: Seq<LinkEvent>)
    ensures
        link_run(s, seq![e] + rest).0 == link_run(link_step(s, e).0, rest).0,
        link_run(s, seq![e] + rest).1 == seq![link_step(s, e).1] + link_run(
            link_step(s, e).0,
            rest,
        ).1,
        ups(s, seq![e] + rest) == (if s.state != LinkState::Up && link_step(s, e).0.state
            == LinkState::Up { 1nat } else { 0nat }) + ups(link_step(s, e).0, rest),
{
    assert((seq![e] + rest).drop_first() =~= rest);
    assert((seq![e] + rest)[0] == e);
}

proof fn lemma_counts_one(a: LinkAction, y: Seq<LinkAction>)
    ensures
        starts(seq![a] + y) == (if a is StartRadio { 1nat } else { 0nat }) + starts(y),
        escalations(seq![a] + y) == (if a is Escalate { 1nat } else { 0nat }) + escalations(y),
{
    assert((seq![a] + y).drop_first() =~= y);
}

/// Once failed, the supervisor ignores every report.
proof fn lemma_failed_absorbs(s: LinkView, evs: Seq<LinkEvent>)
    requires
        s.state == LinkState::Failed,
    ensures
        link_run(s, evs).0 == s,
        starts(link_run(s, evs).1) == 0,
        escalations(link_run(s, evs).1) == 0,
        ups(s, evs) == 0,
    decreases evs.len(),
{
    if evs.len() > 0 {
        lemma_failed_absorbs(s, evs.drop_first());
        lemma_counts_one(LinkAction::Nothing, link_run(s, evs.drop_first()).1);
    }
}

/// The steps of a successful attempt bring the link from connecting to up, once.
proof fn lemma_join(c: LinkView, aps: Vec<AccessPoint>)
    requires
        c.state == LinkState::Connecting,
    ensures
        link_run(c, join_events(aps)).0.state == LinkState::Up,
        starts(link_run(c, join_events(aps)).1) == 0,
        escalations(link_run(c, join_events(aps)).1) == 0,
        ups(c, join_events(aps)) == 1,
{
    let e = join_events(aps);
    let c1 = link_step(c, e[0]).0;
    let c2 = link_step(c1, e[1]).0;
    let c3 = link_step(c2, e[2]).0;
    let c4 = link_step(c3, e[3]).0;
    let nil = Seq::<LinkEvent>::empty();
    assert(e =~= seq![e[0]] + (seq![e[1]] + (seq![e[2]] + (seq![e[3]] + nil))));
    lemma_one_step(c3, e[3], nil);
    lemma_one_step(c2, e[2], seq![e[3]] + nil);
    lemma_one_step(c1, e[1], seq![e[2]] + (seq![e[3]] + nil));
    lemma_one_step(c, e[0], seq![e[1]] + (seq![e[2]] + (seq![e[3]] + nil)));
    lemma_counts_one(link_step(c3, e[3]).1, Seq::empty());
    lemma_counts_one(link_step(c2, e[2]).1, link_run(c3, seq![e[3]] + nil).1);
    lemma_counts_one(link_step(c1, e[1]).1, link_run(c2, seq![e[2]] + (seq![e[3]] + nil)).1);
    lemma_counts_one(
        link_step(c, e[0]).1,
        link_run(c1, seq![e[1]] + (seq![e[2]] + (seq![e[3]] + nil))).1,
    );
}

/// The outcome of one failed attempt started from connecting.
spec fn after_failure(c: LinkView) -> LinkView {
    link_step(LinkView { state: LinkState::WaitingForLease, ..c }, LinkEvent::StepFailed).0
}

/// A failed attempt, at whatever step, ends as a failure reported while connecting:
/// a retry, or the fatal escalation when the bounded budget is spent.
proof fn lemma_failed_attempt(c: LinkView, aps: Vec<AccessPoint>, stage: nat)
    requires
        c.state == LinkState::Connecting,
    ensures
        link_run(c, failed_attempt(aps, stage)).0 == after_failure(c),
        starts(link_run(c, failed_attempt(aps, stage)).1) == (if after_failure(c).state
            == LinkState::Connecting { 1nat } else { 0nat }),
        escalations(link_run(c, failed_attempt(aps, stage)).1) == (if after_failure(c).state
            == LinkState::Failed { 1nat } else { 0nat }),
        ups(c, failed_attempt(aps, stage)) == 0,
{
    let e = failed_attempt(aps, stage);
    let nil = Seq::<LinkEvent>::empty();
    let n = e.len();
    if stage == 0 {
        assert(e =~= seq![e[0]] + nil);
        lemma_one_step(c, e[0], nil);
        lemma_counts_one(link_step(c, e[0]).1, Seq::empty());
    } else if stage == 1 {
        let c1 = link_step(c, e[0]).0;
        assert(e =~= seq![e[0]] + (seq![e[1]] + nil));
        lemma_one_step(c1, e[1], nil);
        lemma_one_step(c, e[0], seq![e[1]] + nil);
        lemma_counts_one(link_step(c1, e[1]).1, Seq::empty());
        lemma_counts_one(link_step(c, e[0]).1, link_run(c1, seq![e[1]] + nil).1);
    } else if stage == 2 {
        let c1 = link_step(c, e[0]).0;
        let c2 = link_step(c1, e[1]).0;
        assert(e =~= seq![e[0]] + (seq![e[1]] + (seq![e[2]] + nil)));
        lemma_one_step(c2, e[2], nil);
        lemma_one_step(c1, e[1], seq![e[2]] + nil);
        lemma_one_step(c, e[0], seq![e[1]] + (seq![e[2]] + nil));
        lemma_counts_one(link_step(c2, e[2]).1, Seq::empty());
        lemma_counts_one(link_step(c1, e[1]).1, link_run(c2, seq![e[2]] + nil).1);
        lemma_counts_one(link_step(c, e[0]).1, link_run(c1, seq![e[1]] + (seq![e[2]] + nil)).1);
    } else {
        let c1 = link_step(c, e[0]).0;
        let c2 = link_step(c1, e[1]).0;
        let c3 = link_step(c2, e[2]).0;
        assert(e =~= seq![e[0]] + (seq![e[1]] + (seq![e[2]] + (seq![e[3]] + nil))));
        lemma_one_step(c3, e[3], nil);
        lemma_one_step(c2, e[2], seq![e[3]] + nil);
        lemma_one_step(c1, e[1], seq![e[2]] + (seq![e[3]] + nil));
        lemma_one_step(c, e[0], seq![e[1]] + (seq![e[2]] + (seq![e[3]] + nil)));
        lemma_counts_one(link_step(c3, e[3]).1, Seq::empty());
        lemma_counts_one(link_step(c2, e[2]).1, link_run(c3, seq![e[3]] + nil).1);
        lemma_counts_one(link_step(c1, e[1]).1, link_run(c2, seq![e[2]] + (seq![e[3]] + nil)).1);
        lemma_counts_one(
            link_step(c, e[0]).1,
            link_run(c1, seq![e[1]] + (seq![e[2]] + (seq![e[3]] + nil))).1,
        );
    }
}

/// Failed attempts that are all retried leave the supervisor connecting again, one
/// attempt begun for each failure.
proof fn lemma_retries(c: LinkView, aps: Vec<AccessPoint>, stages: Seq<nat>)
    requires
        c.state == LinkState::Connecting,
        c.policy is Bounded ==> c.attempts + stages.len() <= c.retry_cap + 1,
    ensures
        ({
            let (t, acts) = link_run(c, failed_attempts(aps, stages));
            &&& t.state == LinkState::Connecting
            &&& t.policy == c.policy
            &&& t.config == c.config
            &&& t.retry_cap == c.retry_cap
            &&& t.poll_interval_ms == c.poll_interval_ms
            &&& (c.policy is Bounded ==> t.attempts == c.attempts + stages.len())
            &&& starts(acts) == stages.len()
            &&& escalations(acts) == 0
        }),
        ups(c, failed_attempts(aps, stages)) == 0,
    decreases stages.len(),
{
    if stages.len() == 0 {
        assert(failed_attempts(aps, stages) =~= Seq::<LinkEvent>::empty());
    } else {
        let e = failed_attempt(aps, stages[0]);
        let tail = failed_attempts(aps, stages.drop_first());
        lemma_failed_attempt(c, aps, stages[0]);
        let c1 = after_failure(c);
        lemma_retries(c1, aps, stages.drop_first());
        lemma_link_run_append(c, e, tail);
        lemma_counts_append(link_run(c, e).1, link_run(c1, tail).1);
    }
}

/// Failed attempts beyond the bounded budget end in one fatal escalation, after
/// which every further report is ignored.
proof fn lemma_exhausted(
    c: LinkView,
    aps: Vec<AccessPoint>,
    stages: Seq<nat>,
    rest: Seq<LinkEvent>,
)
    requires
        c.state == LinkState::Connecting,
        c.policy is Bounded,
        1 <= c.attempts <= c.retry_cap + 1,
        c.attempts + stages.len() > c.retry_cap + 1,
    ensures
        ({
            let (t, acts) = link_run(c, failed_attempts(aps, stages) + rest);
            &&& t.state == LinkState::Failed
            &&& starts(acts) == c.retry_cap + 1 - c.attempts
            &&& escalations(acts) == 1
        }),
        ups(c, failed_attempts(aps, stages) + rest) == 0,
    decreases stages.len(),
{
    let e = failed_attempt(aps, stages[0]);
    let tail = failed_attempts(aps, stages.drop_first());
    assert(failed_attempts(aps, stages) + rest =~= e + (tail + rest));
    lemma_failed_attempt(c, aps, stages[0]);
    let c1 = after_failure(c);
    lemma_link_run_append(c, e, tail + rest);
    lemma_counts_append(link_run(c, e).1, link_run(c1, tail + rest).1);
    if c.attempts > c.retry_cap {
        lemma_failed_absorbs(c1, tail + rest);
    } else {
        lemma_exhausted(c1, aps, stages.drop_first(), rest);
    }
}

/// Bring-up retries without end: when the first `stages.len()` attempts fail, at
/// whatever step, and the next one succeeds, the link comes up exactly once, after
/// exactly one attempt more than there were failures.
pub proof fn lemma_startup_retry(s: LinkView, aps: Vec<AccessPoint>, stages: Seq<nat>)
    requires
        s.state == LinkState::Down,
    ensures
        ({
            let evs = seq![LinkEvent::Start] + failed_attempts(aps, stages) + join_events(aps);
            let (t, acts) = link_run(s, evs);
            &&& t.state == LinkState::Up
            &&& ups(s, evs) == 1
            &&& starts(acts) == stages.len() + 1
            &&& escalations(acts) == 0
        }),
{
    let f = failed_attempts(aps, stages);
    let j = join_events(aps);
    let (c, a0) = link_step(s, LinkEvent::Start);
    assert(seq![LinkEvent::Start] + f + j =~= seq![LinkEvent::Start] + (f + j));
    lemma_one_step(s, LinkEvent::Start, f + j);
    lemma_retries(c, aps, stages);
    let c1 = link_run(c, f).0;
    lemma_join(c1, aps);
    lemma_link_run_append(c, f, j);
    lemma_counts_append(link_run(c, f).1, link_run(c1, j).1);
    lemma_counts_one(a0, link_run(c, f + j).1);
}

/// Once an established link is lost, failed attempts are retried up to the cap:
/// with at most `retry_cap` failures before a success the link comes up exactly once,
/// after one attempt more than there were failures; with more failures than the
/// cap the supervisor escalates once, after exactly `retry_cap + 1` attempts, and
/// never comes up.
pub proof fn lemma_bounded_recovery(s: LinkView, aps: Vec<AccessPoint>, stages: Seq<nat>)
    requires
        s.state == LinkState::Up,
    ensures
        ({
            let evs = seq![LinkEvent::Liveness(false)] + failed_attempts(aps, stages) + join_events(
                aps,
            );
            let (t, acts) = link_run(s, evs);
            &&& stages.len() <= s.retry_cap ==> {
                &&& t.state == LinkState::Up
                &&& ups(s, evs) == 1
                &&& starts(acts) == stages.len() + 1
                &&& escalations(acts) == 0
            }
            &&& stages.len() > s.retry_cap ==> {
                &&& t.state == LinkState::Failed
                &&& ups(s, evs) == 0
                &&& starts(acts) == s.retry_cap + 1
                &&& escalations(acts) == 1
            }
        }),
{
    let lost = LinkEvent::Liveness(false);
    let f = failed_attempts(aps, stages);
    let j = join_events(aps);
    let (c, a0) = link_step(s, lost);
    assert(seq![lost] + f + j =~= seq![lost] + (f + j));
    lemma_one_step(s, lost, f + j);
    lemma_counts_one(a0, link_run(c, f + j).1);
    if stages.len() <= s.retry_cap {
        lemma_retries(c, aps, stages);
        let c1 = link_run(c, f).0;
        lemma_join(c1, aps);
        lemma_link_run_append(c, f, j);
        lemma_counts_append(link_run(c, f).1, link_run(c1, j).1);
    } else {
        lemma_exhausted(c, aps, stages, j);
    }
}

} // verus!
