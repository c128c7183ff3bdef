//! The downstream sink for rack health reports.

use vstd::prelude::*;
use vstd::string::StringExecFns;

use crate::report::HealthReport;

verus! {

/// What can go wrong in the service around the processor.
#[derive(Debug)]
pub enum DsxConsumerError {
    /// The downstream call failed; the text is the status that came back.
    Api(String),
    /// The configuration is invalid.
    Config(String),
    /// An operation on the event bus failed.
    Mqtt(String),
    /// The metrics could not be set up.
    Metrics(String),
}

impl DsxConsumerError {
    /// The text of this error: what failed, a colon, and the detail.
    pub open spec fn message_text(&self) -> Seq<char> {
        match self {
            DsxConsumerError::Api(detail) => "API call failed: "@ + detail@,
            DsxConsumerError::Config(detail) => "Configuration invalid: "@ + detail@,
            DsxConsumerError::Mqtt(detail) => "MQTT operation failed: "@ + detail@,
            DsxConsumerError::Metrics(detail) => "Metrics setup failed: "@ + detail@,
        }
    }

    /// The text of this error.
    pub fn message(&self) -> (r: String)
        ensures
            r@ == self.message_text(),
    {
        match self {
            DsxConsumerError::Api(detail) => "API call failed: ".to_owned().concat(
                detail.as_str(),
            ),
            DsxConsumerError::Config(detail) => "Configuration invalid: ".to_owned().concat(
                detail.as_str(),
            ),
            DsxConsumerError::Mqtt(detail) => "MQTT operation failed: ".to_owned().concat(
                detail.as_str(),
            ),
            DsxConsumerError::Metrics(detail) => "Metrics setup failed: ".to_owned().concat(
                detail.as_str(),
            ),
        }
    }
}

/// Trait for submitting rack health reports.
///
/// The processor hands each call what the sink is to apply and learns from
/// the result only whether it was applied. Nothing is assumed of an
/// implementation.
pub trait RackHealthReportSink {
    /// Inserts (or replaces) the health override of the rack with `report`.
    fn insert_rack_health_report(&self, rack_id: &str, report: HealthReport) -> Result<
        (),
        DsxConsumerError,
    >;

    /// Removes the health override that this service holds on the rack.
    fn remove_rack_health_report(&self, rack_id: &str) -> Result<(), DsxConsumerError>;
}

/// A sink that applies nothing and reports success, for running without a
/// downstream API.
#[derive(Debug, Clone, Copy)]
pub struct ConsoleRackHealthSink;

impl RackHealthReportSink for ConsoleRackHealthSink {
    fn insert_rack_health_report(&self, rack_id: &str, report: HealthReport) -> (r: Result<
        (),
        DsxConsumerError,
    >)
        ensures
            r is Ok,
    {
        Ok(())
    }

    fn remove_rack_health_report(&self, rack_id: &str) -> (r: Result<(), DsxConsumerError>)
        ensures
            r is Ok,
    {
        Ok(())
    }
}

} // verus!
