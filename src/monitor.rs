use vstd::prelude::*;
use crate::config::{Config, MonitorConfig};
use crate::gateway::MonitorError;
use crate::state::{client_key, tracker_key, StateTracker};
use crate::types::{
    count_kind, CheckResult, ClientStatus, MonitorResult, Span, Status, StatusKind, Summary,
    Timestamp,
};

verus! {

/// The value reported as a client's hours until expiry: the hours left, the
/// negated hours since expiry for an expired client, zero for an error.
pub open spec fn metric_hours(s: Status) -> int {
    match s {
        Status::Healthy { hours_until_expiry } => hours_until_expiry as int,
        Status::Warning { hours_until_expiry } => hours_until_expiry as int,
        Status::Critical { hours_until_expiry } => hours_until_expiry as int,
        Status::Expired { hours_since_expiry } => -hours_since_expiry,
        Status::Error { .. } => 0,
    }
}

/// The hours until expiry reported for a status; see [`metric_hours`].
pub fn hours_for_metrics(s: &Status) -> (r: i128)
    ensures
        r == metric_hours(*s),
{
    match s {
        Status::Healthy { hours_until_expiry } => *hours_until_expiry as i128,
        Status::Warning { hours_until_expiry } => *hours_until_expiry as i128,
        Status::Critical { hours_until_expiry } => *hours_until_expiry as i128,
        Status::Expired { hours_since_expiry } => -(*hours_since_expiry as i128),
        Status::Error { .. } => 0,
    }
}

/// A client outcome that goes to the metrics sink.
#[derive(Clone, Debug)]
pub struct Observation {
    pub counterparty: String,
    pub hours: i128,
}

/// What to do about one client status once it has been produced.
#[derive(Clone, Debug)]
pub struct Assessment {
    /// The observation to record for the metrics sink.
    pub observation: Observation,
    /// The status kind differs from the one last seen for the client.
    pub changed: bool,
    /// An alert is to be sent: the kind changed, and not to healthy.
    pub dispatch: bool,
}

/// The monitor: its configuration, where alerts go, and the last status kind
/// seen for each client.
pub struct Monitor {
    config: Config,
    webhook_url: Option<String>,
    state: StateTracker,
}

impl Monitor {
    pub closed spec fn wf(&self) -> bool {
        self.state.wf()
    }

    /// The last status kind seen for each client key.
    pub closed spec fn seen(&self) -> Map<Seq<char>, StatusKind> {
        self.state@
    }

    pub closed spec fn configuration(&self) -> Config {
        self.config
    }

    pub closed spec fn alert_url(&self) -> Option<String> {
        self.webhook_url
    }

    /// A monitor over `config` that has seen no client yet.
    pub fn new(config: Config, webhook_url: Option<String>) -> (r: Monitor)
        ensures
            r.wf(),
            r.seen() == Map::<Seq<char>, StatusKind>::empty(),
            r.configuration() == config,
            r.alert_url() == webhook_url,
    {
        Monitor { config, webhook_url, state: StateTracker::new() }
    }

    pub fn config(&self) -> (r: &Config)
        ensures
            *r == self.configuration(),
    {
        &self.config
    }

    pub fn webhook_url(&self) -> (r: &Option<String>)
        ensures
            *r == self.alert_url(),
    {
        &self.webhook_url
    }

    /// The status of a target whose evaluation failed with `error`.
    pub fn error_status(&self, cfg: &MonitorConfig, error: String) -> (r: ClientStatus)
        ensures
            is_error_status(r, *cfg, error@),
    {
        let client_id = match &cfg.client_id {
            Some(id) => id.clone(),
            None => String::from_str("unknown"),
        };
        ClientStatus {
            chain_id: cfg.chain_id.clone(),
            client_id,
            status: Status::Error { reason: error },
            last_update: None,
            trusting_period: Span::zero(),
            unbonding_period: Span::zero(),
            latest_height: None,
            counterparty_chain_id: None,
            channel: cfg.channel.clone(),
        }
    }

    /// The status of a target once its evaluation is over: a produced status
    /// is labelled with the target's channel; a failure becomes an `Error`
    /// status carrying the failure's reason.
    pub fn settle(&self, cfg: &MonitorConfig, outcome: Result<ClientStatus, MonitorError>) -> (r:
        ClientStatus)
        ensures
            outcome matches Ok(s) ==> {
                &&& r.chain_id == s.chain_id
                &&& r.client_id == s.client_id
                &&& r.status == s.status
                &&& r.last_update == s.last_update
                &&& r.trusting_period == s.trusting_period
                &&& r.unbonding_period == s.unbonding_period
                &&& r.latest_height == s.latest_height
                &&& r.counterparty_chain_id == s.counterparty_chain_id
                &&& r.channel@ == cfg.channel@
            },
            outcome matches Err(e) ==> is_error_status(r, *cfg, e.reason_text()),
    {
        match outcome {
            Ok(s) => ClientStatus { channel: cfg.channel.clone(), ..s },
            Err(e) => self.error_status(cfg, e.reason()),
        }
    }

    /// Decides what follows from `status`: an observation for the metrics
    /// sink, under the client's counterparty (`"?"` when unknown), and a
    /// comparison of its kind with the last one seen for the client, which is
    /// stored when it differs. An alert is due on a change to any kind but
    /// healthy; so the first failure of a client alerts, and repeated
    /// failures stay quiet until the kind changes.
    pub fn assess(&mut self, status: &ClientStatus) -> (r: Assessment)
        requires
            old(self).wf(),
        ensures
            final(self).wf(),
            final(self).configuration() == old(self).configuration(),
            final(self).alert_url() == old(self).alert_url(),
            assessed(old(self).seen(), final(self).seen(), *status, r),
    {
        let hours = hours_for_metrics(&status.status);
        let counterparty = match &status.counterparty_chain_id {
            Some(c) => c.clone(),
            None => String::from_str("?"),
        };
        let observation = Observation { counterparty, hours };
        let key = client_key(status.chain_id.as_str(), status.client_id.as_str());
        let changed = self.state.has_changed(key.as_str(), &status.status);
        let dispatch = changed && !matches!(status.status, Status::Healthy { .. });
        Assessment { observation, changed, dispatch }
    }

    /// Puts the statuses of one cycle together, one monitor result each, with
    /// their counts by kind.
    pub fn conclude(timestamp: Timestamp, statuses: Vec<ClientStatus>) -> (r: CheckResult)
        ensures
            r.timestamp == timestamp,
            r.monitors@.len() == statuses@.len(),
            forall|i: int|
                0 <= i < statuses@.len() ==> #[trigger] r.monitors@[i].clients@ == seq![statuses@[i]],
            r.summary.total == statuses@.len(),
            r.summary.healthy == count_kind(statuses@, StatusKind::Healthy),
            r.summary.warning == count_kind(statuses@, StatusKind::Warning),
            r.summary.critical == count_kind(statuses@, StatusKind::Critical),
            r.summary.expired == count_kind(statuses@, StatusKind::Expired),
            r.summary.error == count_kind(statuses@, StatusKind::Error),
    {
        let summary = Summary::from_statuses(statuses.as_slice());
        let ghost all = statuses@;
        let mut rest = statuses;
        let mut monitors: Vec<MonitorResult> = Vec::new();
        while rest.len() > 0
            invariant
                monitors@.len() + rest@.len() == all.len(),
                rest@ == all.subrange(monitors@.len() as int, all.len() as int),
                forall|j: int|
                    0 <= j < monitors@.len() ==> #[trigger] monitors@[j].clients@ == seq![all[j]],
            decreases rest@.len(),
        {
            let s = rest.remove(0);
            let mut clients: Vec<ClientStatus> = Vec::new();
            clients.push(s);
            monitors.push(MonitorResult { clients });
        }
        CheckResult { timestamp, monitors, summary }
    }
}

/// The status that stands for a target whose evaluation failed.
pub open spec fn is_error_status(r: ClientStatus, cfg: MonitorConfig, reason: Seq<char>) -> bool {
    &&& r.chain_id@ == cfg.chain_id@
    &&& match cfg.client_id {
        Some(id) => r.client_id@ == id@,
        None => r.client_id@ == "unknown"@,
    }
    &&& r.status matches Status::Error { reason: t } && t@ == reason
    &&& r.last_update is None
    &&& r.trusting_period == Span { seconds: 0, nanos: 0 }
    &&& r.unbonding_period == Span { seconds: 0, nanos: 0 }
    &&& r.latest_height is None
    &&& r.counterparty_chain_id is None
    &&& r.channel@ == cfg.channel@
}

/// What [`Monitor::assess`] decides for `status`, seen against the tracker
/// contents `before`, leaving them as `after`.
pub open spec fn assessed(
    before: Map<Seq<char>, StatusKind>,
    after: Map<Seq<char>, StatusKind>,
    status: ClientStatus,
    r: Assessment,
) -> bool {
    let key = tracker_key(status.chain_id@, status.client_id@);
    let kind = status.status.kind_of();
    &&& r.observation.counterparty@ == match status.counterparty_chain_id {
        Some(c) => c@,
        None => "?"@,
    }
    &&& r.observation.hours == metric_hours(status.status)
    &&& r.changed == !(before.contains_key(key) && before[key] == kind)
    &&& r.changed ==> after == before.insert(key, kind)
    &&& !r.changed ==> after == before
    &&& r.dispatch == (r.changed && kind != StatusKind::Healthy)
}

} // verus!

verus! {

/// Assessing a status whose kind is the one already stored for its client
/// leaves the tracker as it was and asks for no alert; so a second
/// assessment with an unchanged kind, whatever its payload, is silent.
pub proof fn lemma_unchanged_kind_is_quiet(
    m0: Map<Seq<char>, StatusKind>,
    m1: Map<Seq<char>, StatusKind>,
    m2: Map<Seq<char>, StatusKind>,
    s1: ClientStatus,
    s2: ClientStatus,
    r1: Assessment,
    r2: Assessment,
)
    requires
        assessed(m0, m1, s1, r1),
        assessed(m1, m2, s2, r2),
        s1.chain_id@ == s2.chain_id@,
        s1.client_id@ == s2.client_id@,
        s1.status.kind_of() == s2.status.kind_of(),
    ensures
        m2 == m1,
        !r2.changed,
        !r2.dispatch,
{
    let key = tracker_key(s1.chain_id@, s1.client_id@);
    assert(m1.contains_key(key) && m1[key] == s1.status.kind_of());
}

/// The first assessment of a client is a change,
/// and asks for an alert unless the client is healthy.
pub proof fn lemma_first_sighting_alerts(
    before: Map<Seq<char>, StatusKind>,
    after: Map<Seq<char>, StatusKind>,
    s: ClientStatus,
    r: Assessment,
)
    requires
        assessed(before, after, s, r),
        !before.contains_key(tracker_key(s.chain_id@, s.client_id@)),
    ensures
        r.changed,
        r.dispatch == (s.status.kind_of() != StatusKind::Healthy),
        after == before.insert(tracker_key(s.chain_id@, s.client_id@), s.status.kind_of()),
{
}

} // verus!
