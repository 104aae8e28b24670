use vstd::prelude::*;
use crate::monitor::{hours_for_metrics, metric_hours};
use crate::types::{Status, StatusKind};
use crate::alert::{kind_label, label};

verus! {

/// How a metric aggregates its observations.
#[derive(Clone, Copy, Debug, PartialEq, Eq, Structural)]
pub enum MetricKind {
    Gauge,
    Counter,
}

/// A metric that the monitor publishes, with its help text.
#[derive(Clone, Debug)]
pub struct MetricDescription {
    pub name: String,
    pub kind: MetricKind,
    pub help: String,
}

fn described(name: &str, kind: MetricKind, help: &str) -> (r: MetricDescription)
    ensures
        r.name@ == name@,
        r.kind == kind,
        r.help@ == help@,
{
    MetricDescription { name: String::from_str(name), kind, help: String::from_str(help) }
}

/// The metrics that the monitor publishes, to be described to the metrics
/// sink once at start-up.
pub fn init() -> (r: Vec<MetricDescription>)
    ensures
        r@.len() == 4,
        r@[0].name@ == "ibc_client_hours_until_expiry"@ && r@[0].kind == MetricKind::Gauge
            && r@[0].help@ == "Hours until IBC client expires"@,
        r@[1].name@ == "ibc_client_checks_total"@ && r@[1].kind == MetricKind::Counter
            && r@[1].help@ == "Total number of client checks"@,
        r@[2].name@ == "ibc_client_status"@ && r@[2].kind == MetricKind::Gauge
            && r@[2].help@ == "Current status of IBC client (1=active, 0=inactive)"@,
        r@[3].name@ == "ibc_monitor_check_duration_seconds"@ && r@[3].kind == MetricKind::Gauge
            && r@[3].help@ == "Duration of monitor check in seconds"@,
{
    let mut r: Vec<MetricDescription> = Vec::new();
    r.push(described("ibc_client_hours_until_expiry", MetricKind::Gauge, "Hours until IBC client expires"));
    r.push(described("ibc_client_checks_total", MetricKind::Counter, "Total number of client checks"));
    r.push(
        described(
            "ibc_client_status",
            MetricKind::Gauge,
            "Current status of IBC client (1=active, 0=inactive)",
        ),
    );
    r.push(
        described(
            "ibc_monitor_check_duration_seconds",
            MetricKind::Gauge,
            "Duration of monitor check in seconds",
        ),
    );
    r
}

/// The observations that one client check makes.
#[derive(Clone, Debug)]
pub struct ClientCheckRecord {
    /// The value of `ibc_client_hours_until_expiry`, left unset for an error.
    pub hours_until_expiry: Option<i128>,
    /// The value of `ibc_client_status`: whether the client is still usable.
    pub active: bool,
    /// The `status` label of the `ibc_client_checks_total` increment.
    pub status_label: String,
}

/// The observations for one client check: the hours until expiry (negative
/// once expired, unset on error), whether the client is active (healthy,
/// warning or critical), and the kind that the check counter is tagged with.
pub fn record_client_check(status: &Status) -> (r: ClientCheckRecord)
    ensures
        r.hours_until_expiry == if status is Error {
            None::<i128>
        } else {
            Some(metric_hours(*status) as i128)
        },
        r.active == (status is Healthy || status is Warning || status is Critical),
        r.status_label@ == kind_label(status.kind_of()),
{
    let kind = status.kind();
    let hours = hours_for_metrics(status);
    let (hours_until_expiry, active) = match kind {
        StatusKind::Healthy | StatusKind::Warning | StatusKind::Critical => (Some(hours), true),
        StatusKind::Expired => (Some(hours), false),
        StatusKind::Error => (None, false),
    };
    ClientCheckRecord { hours_until_expiry, active, status_label: label(kind) }
}

} // verus!
