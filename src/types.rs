use vstd::prelude::*;

verus! {

/// The tag of a [`Status`], without its payload.
#[derive(Clone, Copy, Debug, PartialEq, Eq, Structural)]
pub enum StatusKind {
    Healthy,
    Warning,
    Critical,
    Expired,
    Error,
}

/// Health of one light client at one check.
///
/// Hours are whole hours relative to the instant of the check. An
/// `Expired` status with `hours_since_expiry == -1` marks a client that the
/// chain itself reports as pruned or expired.
#[derive(Clone, Debug, PartialEq, Eq)]
pub enum Status {
    Healthy { hours_until_expiry: i64 },
    Warning { hours_until_expiry: i64 },
    Critical { hours_until_expiry: i64 },
    Expired { hours_since_expiry: i64 },
    Error { reason: String },
}

impl Status {
    pub open spec fn kind_of(&self) -> StatusKind {
        match self {
            Status::Healthy { .. } => StatusKind::Healthy,
            Status::Warning { .. } => StatusKind::Warning,
            Status::Critical { .. } => StatusKind::Critical,
            Status::Expired { .. } => StatusKind::Expired,
            Status::Error { .. } => StatusKind::Error,
        }
    }

    /// The variant tag of this status.
    pub fn kind(&self) -> (r: StatusKind)
        ensures
            r == self.kind_of(),
    {
        match self {
            Status::Healthy { .. } => StatusKind::Healthy,
            Status::Warning { .. } => StatusKind::Warning,
            Status::Critical { .. } => StatusKind::Critical,
            Status::Expired { .. } => StatusKind::Expired,
            Status::Error { .. } => StatusKind::Error,
        }
    }
}

/// A signed span of time, as seconds plus a nanosecond adjustment.
#[derive(Clone, Copy, Debug, PartialEq, Eq, Structural)]
pub struct Span {
    pub seconds: i64,
    pub nanos: i32,
}

impl Span {
    pub open spec fn total_nanos(self) -> int {
        self.seconds * 1_000_000_000 + self.nanos
    }

    /// A span of length zero.
    pub fn zero() -> (r: Span)
        ensures
            r.total_nanos() == 0,
            r.seconds == 0 && r.nanos == 0,
    {
        Span { seconds: 0, nanos: 0 }
    }
}

/// An instant, as seconds and nanoseconds since the Unix epoch.
#[derive(Clone, Copy, Debug, PartialEq, Eq, Structural)]
pub struct Timestamp {
    pub seconds: i64,
    pub nanos: u32,
}

impl Timestamp {
    pub open spec fn unix_nanos(self) -> int {
        self.seconds * 1_000_000_000 + self.nanos
    }
}

/// A block height: revision number and height within that revision.
#[derive(Clone, Copy, Debug, PartialEq, Eq, Structural)]
pub struct Height {
    pub revision_number: u64,
    pub revision_height: u64,
}

/// What one check learned about one light client.
#[derive(Clone, Debug)]
pub struct ClientStatus {
    pub chain_id: String,
    pub client_id: String,
    pub status: Status,
    pub last_update: Option<Timestamp>,
    pub trusting_period: Span,
    pub unbonding_period: Span,
    pub latest_height: Option<(u64, u64)>,
    pub counterparty_chain_id: Option<String>,
    pub channel: String,
}

/// The statuses of one configured monitor.
#[derive(Clone, Debug)]
pub struct MonitorResult {
    pub clients: Vec<ClientStatus>,
}

/// The outcome of one check cycle.
#[derive(Clone, Debug)]
pub struct CheckResult {
    pub timestamp: Timestamp,
    pub monitors: Vec<MonitorResult>,
    pub summary: Summary,
}

/// Number of statuses of the given kind.
pub open spec fn count_kind(s: Seq<ClientStatus>, k: StatusKind) -> nat
    decreases s.len(),
{
    if s.len() == 0 {
        0
    } else {
        count_kind(s.drop_last(), k) + if s.last().status.kind_of() == k {
            1nat
        } else {
            0nat
        }
    }
}

/// Counts of statuses per kind.
#[derive(Clone, Copy, Debug, PartialEq, Eq, Structural)]
pub struct Summary {
    pub total: usize,
    pub healthy: usize,
    pub warning: usize,
    pub critical: usize,
    pub expired: usize,
    pub error: usize,
}

impl Summary {
    /// Counts `statuses` by kind.
    pub fn from_statuses(statuses: &[ClientStatus]) -> (r: Summary)
        ensures
            r.total == statuses@.len(),
            r.healthy == count_kind(statuses@, StatusKind::Healthy),
            r.warning == count_kind(statuses@, StatusKind::Warning),
            r.critical == count_kind(statuses@, StatusKind::Critical),
            r.expired == count_kind(statuses@, StatusKind::Expired),
            r.error == count_kind(statuses@, StatusKind::Error),
    {
        let mut s = Summary { total: statuses.len(), healthy: 0, warning: 0, critical: 0, expired: 0, error: 0 };
        let mut i: usize = 0;
        while i < statuses.len()
            invariant
                i <= statuses@.len(),
                s.total == statuses@.len(),
                s.healthy == count_kind(statuses@.take(i as int), StatusKind::Healthy),
                s.warning == count_kind(statuses@.take(i as int), StatusKind::Warning),
                s.critical == count_kind(statuses@.take(i as int), StatusKind::Critical),
                s.expired == count_kind(statuses@.take(i as int), StatusKind::Expired),
                s.error == count_kind(statuses@.take(i as int), StatusKind::Error),
                s.healthy + s.warning + s.critical + s.expired + s.error == i,
            decreases statuses@.len() - i,
        {
            assert(statuses@.take(i + 1).drop_last() =~= statuses@.take(i as int));
            match &statuses[i].status {
                Status::Healthy { .. } => s.healthy = s.healthy + 1,
                Status::Warning { .. } => s.warning = s.warning + 1,
                Status::Critical { .. } => s.critical = s.critical + 1,
                Status::Expired { .. } => s.expired = s.expired + 1,
                Status::Error { .. } => s.error = s.error + 1,
            }
            i = i + 1;
        }
        assert(statuses@.take(i as int) =~= statuses@);
        s
    }
}

} // verus!
