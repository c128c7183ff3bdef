//! The health report sent downstream when a leak alert is raised.

use vstd::prelude::*;
use vstd::string::StringExecFns;

use crate::messages::{LeakMetadata, LeakPointType};

verus! {

/// Source identifier for health report overrides from this consumer.
pub const HEALTH_REPORT_SOURCE: &'static str = "dsx-exchange-consumer";

/// A point in time: seconds and nanoseconds since the Unix epoch, in UTC.
#[derive(Debug, Clone, Copy, PartialEq, Eq, Structural)]
pub struct Timestamp {
    /// Non-leap seconds since January 1, 1970 0:00:00 UTC.
    pub secs: i64,
    /// Nanoseconds since the last second boundary.
    pub nanos: u32,
}

/// How an alert is classified by the consumers of a health report.
#[derive(Debug, Clone, Copy, PartialEq, Eq, Structural)]
pub enum HealthAlertClassification {
    /// The rack must not receive new allocations.
    PreventAllocations,
    /// A sensor reports a critical reading.
    SensorCritical,
    /// The alert concerns hardware.
    Hardware,
}

impl HealthAlertClassification {
    /// The name of this classification.
    pub open spec fn name(self) -> Seq<char> {
        match self {
            HealthAlertClassification::PreventAllocations => "PreventAllocations"@,
            HealthAlertClassification::SensorCritical => "SensorCritical"@,
            HealthAlertClassification::Hardware => "Hardware"@,
        }
    }

    /// The name of this classification.
    pub fn as_str(&self) -> (r: &'static str)
        ensures
            r@ == self.name(),
    {
        match self {
            HealthAlertClassification::PreventAllocations => "PreventAllocations",
            HealthAlertClassification::SensorCritical => "SensorCritical",
            HealthAlertClassification::Hardware => "Hardware",
        }
    }
}

/// The classifications of every leak alert, in the order in which they are
/// reported.
pub open spec fn leak_alert_classifications() -> Seq<HealthAlertClassification> {
    seq![
        HealthAlertClassification::PreventAllocations,
        HealthAlertClassification::SensorCritical,
        HealthAlertClassification::Hardware,
    ]
}

/// The stable identifier of a health probe.
#[derive(Debug)]
pub struct HealthProbeId {
    id: String,
}

impl View for HealthProbeId {
    type V = Seq<char>;

    closed spec fn view(&self) -> Seq<char> {
        self.id@
    }
}

impl HealthProbeId {
    /// The text of the identifier.
    pub fn as_str(&self) -> (r: &str)
        ensures
            r@ == self@,
    {
        self.id.as_str()
    }
}

impl LeakPointType {
    /// Returns the health probe ID for this leak type.
    pub fn probe_id(&self) -> (r: HealthProbeId)
        ensures
            r@ == self.probe_id_text(),
    {
        let id = match self {
            LeakPointType::LeakDetectRack => "BmsLeakDetectRack",
            LeakPointType::LeakSensorFaultRack => "BmsLeakSensorFaultRack",
            LeakPointType::LeakDetectRackTray => "BmsLeakDetectRackTray",
        };
        HealthProbeId { id: id.to_owned() }
    }
}

/// The view of an optional string.
pub open spec fn opt_string_view(s: Option<String>) -> Option<Seq<char>> {
    match s {
        Some(t) => Some(t@),
        None => None,
    }
}

/// A probe that found its target healthy.
#[derive(Debug)]
pub struct HealthProbeSuccess {
    /// The probe that succeeded.
    pub id: HealthProbeId,
    /// What the probe looked at.
    pub target: Option<String>,
}

/// A probe that found its target in alert.
#[derive(Debug)]
pub struct HealthProbeAlert {
    /// The probe that raised the alert.
    pub id: HealthProbeId,
    /// What the probe looked at.
    pub target: Option<String>,
    /// When the alert was first seen.
    pub in_alert_since: Option<Timestamp>,
    /// Free text for operators.
    pub message: String,
    /// Free text for tenants.
    pub tenant_message: Option<String>,
    /// How the alert is to be treated.
    pub classifications: Vec<HealthAlertClassification>,
}

/// A health report: what a source observed of one target at one time.
#[derive(Debug)]
pub struct HealthReport {
    /// Who made the report.
    pub source: String,
    /// When the report was made.
    pub observed_at: Option<Timestamp>,
    /// The probes that succeeded.
    pub successes: Vec<HealthProbeSuccess>,
    /// The probes in alert.
    pub alerts: Vec<HealthProbeAlert>,
}

/// A successful probe as plain values.
pub struct HealthProbeSuccessView {
    pub id: Seq<char>,
    pub target: Option<Seq<char>>,
}

/// An alert as plain values.
pub struct HealthProbeAlertView {
    pub id: Seq<char>,
    pub target: Option<Seq<char>>,
    pub in_alert_since: Option<Timestamp>,
    pub message: Seq<char>,
    pub tenant_message: Option<Seq<char>>,
    pub classifications: Seq<HealthAlertClassification>,
}

/// A health report as plain values.
pub struct HealthReportView {
    pub source: Seq<char>,
    pub observed_at: Option<Timestamp>,
    pub successes: Seq<HealthProbeSuccessView>,
    pub alerts: Seq<HealthProbeAlertView>,
}

impl View for HealthProbeSuccess {
    type V = HealthProbeSuccessView;

    open spec fn view(&self) -> HealthProbeSuccessView {
        HealthProbeSuccessView { id: self.id@, target: opt_string_view(self.target) }
    }
}

impl View for HealthProbeAlert {
    type V = HealthProbeAlertView;

    open spec fn view(&self) -> HealthProbeAlertView {
        HealthProbeAlertView {
            id: self.id@,
            target: opt_string_view(self.target),
            in_alert_since: self.in_alert_since,
            message: self.message@,
            tenant_message: opt_string_view(self.tenant_message),
            classifications: self.classifications@,
        }
    }
}

impl View for HealthReport {
    type V = HealthReportView;

    open spec fn view(&self) -> HealthReportView {
        HealthReportView {
            source: self.source@,
            observed_at: self.observed_at,
            successes: self.successes@.map_values(|s: HealthProbeSuccess| s@),
            alerts: self.alerts@.map_values(|a: HealthProbeAlert| a@),
        }
    }
}

/// The message of a leak alert: `"<description> on rack <rack_name> (<rack_id>)"`.
pub open spec fn leak_alert_message(
    leak_type: LeakPointType,
    rack_name: Seq<char>,
    rack_id: Seq<char>,
) -> Seq<char> {
    leak_type.description_text() + " on rack "@ + rack_name + " ("@ + rack_id + ")"@
}

/// The report of a leak alert of kind `leak_type` on the rack that `rack_name`
/// and `rack_id` identify, first seen at `in_alert_since` and reported at
/// `observed_at`: one alert that targets the rack, no successes.
pub open spec fn leak_alert_report(
    leak_type: LeakPointType,
    rack_name: Seq<char>,
    rack_id: Seq<char>,
    in_alert_since: Timestamp,
    observed_at: Timestamp,
) -> HealthReportView {
    HealthReportView {
        source: HEALTH_REPORT_SOURCE@,
        observed_at: Some(observed_at),
        successes: Seq::empty(),
        alerts: seq![
            HealthProbeAlertView {
                id: leak_type.probe_id_text(),
                target: Some(rack_id),
                in_alert_since: Some(in_alert_since),
                message: leak_alert_message(leak_type, rack_name, rack_id),
                tenant_message: None,
                classifications: leak_alert_classifications(),
            },
        ],
    }
}

/// `report` is the leak alert report for this leak type and rack, whatever
/// its two times are.
pub open spec fn is_leak_alert_report(
    report: HealthReportView,
    leak_type: LeakPointType,
    rack_name: Seq<char>,
    rack_id: Seq<char>,
) -> bool {
    exists|in_alert_since: Timestamp, observed_at: Timestamp|
        report == #[trigger] leak_alert_report(
            leak_type,
            rack_name,
            rack_id,
            in_alert_since,
            observed_at,
        )
}

/// `chrono::Utc::now`, as the seconds and nanoseconds since the Unix epoch that
/// `DateTime::timestamp` and `DateTime::timestamp_subsec_nanos` give for it.
/// Nothing is claimed of the reading. chrono panics where the system clock
/// stands before the Unix epoch.
#[verifier::external_body]
fn utc_now() -> Timestamp {
    let now = chrono::Utc::now();
    Timestamp { secs: now.timestamp(), nanos: now.timestamp_subsec_nanos() }
}

/// Build the health report for a leak alert with the given times.
pub fn leak_alert_report_at(
    metadata: &LeakMetadata,
    leak_type: LeakPointType,
    in_alert_since: Timestamp,
    observed_at: Timestamp,
) -> (report: HealthReport)
    ensures
        report@ == leak_alert_report(
            leak_type,
            metadata.rack_name@,
            metadata.rack_id@,
            in_alert_since,
            observed_at,
        ),
{
    let mut message = leak_type.description().to_owned();
    message.append(" on rack ");
    message.append(metadata.rack_name.as_str());
    message.append(" (");
    message.append(metadata.rack_id.as_str());
    message.append(")");

    let mut classifications: Vec<HealthAlertClassification> = Vec::new();
    classifications.push(HealthAlertClassification::PreventAllocations);
    classifications.push(HealthAlertClassification::SensorCritical);
    classifications.push(HealthAlertClassification::Hardware);
    assert(classifications@ =~= leak_alert_classifications());

    let alert = HealthProbeAlert {
        id: leak_type.probe_id(),
        target: Some(metadata.rack_id.clone()),
        in_alert_since: Some(in_alert_since),
        message,
        tenant_message: None,
        classifications,
    };
    let mut alerts: Vec<HealthProbeAlert> = Vec::new();
    alerts.push(alert);

    let report = HealthReport {
        source: HEALTH_REPORT_SOURCE.to_owned(),
        observed_at: Some(observed_at),
        successes: Vec::new(),
        alerts,
    };
    proof {
        let want = leak_alert_report(
            leak_type,
            metadata.rack_name@,
            metadata.rack_id@,
            in_alert_since,
            observed_at,
        );
        assert(report@.alerts =~= want.alerts);
        assert(report@.successes =~= want.successes);
    }
    report
}

/// Build a health report for a leak alert that is seen now.
pub fn build_leak_alert_report(metadata: &LeakMetadata, leak_type: LeakPointType) -> (report:
    HealthReport)
    ensures
        is_leak_alert_report(report@, leak_type, metadata.rack_name@, metadata.rack_id@),
{
    let in_alert_since = utc_now();
    let observed_at = utc_now();
    leak_alert_report_at(metadata, leak_type, in_alert_since, observed_at)
}

} // verus!
