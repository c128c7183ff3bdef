use std::sync::{Arc, Mutex};

use dsx_exchange_consumer::api_client::{
    ConsoleRackHealthSink, DsxConsumerError, RackHealthReportSink,
};
use dsx_exchange_consumer::config::CacheConfig;
use dsx_exchange_consumer::health_updater::{
    extract_point_path, Arrival, CallKind, Correlator, DropReason, HealthUpdater,
    MetadataOutcome, Outcome, SinkCall, ValueOutcome, ValuePlan,
};
use dsx_exchange_consumer::messages::{
    FaultValue, LeakMetadata, LeakPointType, MqttMessage, ValueMessage,
};
use dsx_exchange_consumer::report::{
    build_leak_alert_report, leak_alert_report_at, HealthReport, Timestamp,
    HEALTH_REPORT_SOURCE,
};

const TEST_PREFIX: &str = "cronus/v1/";
const HOUR: u64 = 3_600_000;

fn test_cache_config() -> CacheConfig {
    CacheConfig {
        metadata_ttl: HOUR,
        value_state_ttl: HOUR,
    }
}

fn test_metadata(point_type: &str, rack_id: &str) -> LeakMetadata {
    LeakMetadata {
        point_type: point_type.to_string(),
        object_type: "Rack".to_string(),
        rack_name: format!("Rack-{}", rack_id),
        rack_id: rack_id.to_string(),
    }
}

fn test_value_message(value: FaultValue) -> ValueMessage {
    ValueMessage {
        value,
        timestamp: 1706284800,
    }
}

/// Mock sink that records all API calls for verification.
#[derive(Default)]
struct RecordingSink {
    inserts: Mutex<Vec<(String, HealthReport)>>,
    removes: Mutex<Vec<String>>,
    order: Mutex<Vec<CallKind>>,
}

impl RecordingSink {
    fn new() -> Arc<Self> {
        Arc::new(Self::default())
    }

    fn take_insert_calls(&self) -> Vec<(String, HealthReport)> {
        std::mem::take(&mut *self.inserts.lock().expect("lock poisoned"))
    }

    fn take_remove_calls(&self) -> Vec<String> {
        std::mem::take(&mut *self.removes.lock().expect("lock poisoned"))
    }

    fn take_order(&self) -> Vec<CallKind> {
        std::mem::take(&mut *self.order.lock().expect("lock poisoned"))
    }
}

impl RackHealthReportSink for RecordingSink {
    fn insert_rack_health_report(
        &self,
        rack_id: &str,
        report: HealthReport,
    ) -> Result<(), DsxConsumerError> {
        self.inserts
            .lock()
            .unwrap()
            .push((rack_id.to_string(), report));
        self.order.lock().unwrap().push(CallKind::Insert);
        Ok(())
    }

    fn remove_rack_health_report(&self, rack_id: &str) -> Result<(), DsxConsumerError> {
        self.removes.lock().unwrap().push(rack_id.to_string());
        self.order.lock().unwrap().push(CallKind::Remove);
        Ok(())
    }
}

/// Mock sink that always fails, and counts how often it was asked.
#[derive(Default)]
struct FailingSink {
    asked: Mutex<usize>,
}

impl RackHealthReportSink for FailingSink {
    fn insert_rack_health_report(
        &self,
        _rack_id: &str,
        _report: HealthReport,
    ) -> Result<(), DsxConsumerError> {
        *self.asked.lock().unwrap() += 1;
        Err(DsxConsumerError::Api("test error".to_string()))
    }

    fn remove_rack_health_report(&self, _rack_id: &str) -> Result<(), DsxConsumerError> {
        *self.asked.lock().unwrap() += 1;
        Err(DsxConsumerError::Api("test error".to_string()))
    }
}

fn updater_with(sink: Arc<RecordingSink>) -> HealthUpdater<RecordingSink> {
    HealthUpdater::new(TEST_PREFIX.to_string(), test_cache_config(), sink)
}

#[test]
fn test_extract_point_path_metadata() {
    let topic = "cronus/v1/some/point/path/Metadata";
    assert_eq!(
        extract_point_path(topic, TEST_PREFIX),
        Some("some/point/path")
    );
}

#[test]
fn test_extract_point_path_value() {
    let topic = "cronus/v1/some/point/path/Value";
    assert_eq!(
        extract_point_path(topic, TEST_PREFIX),
        Some("some/point/path")
    );
}

#[test]
fn test_extract_point_path_unknown() {
    let topic = "cronus/v1/some/point/path/Unknown";
    assert_eq!(extract_point_path(topic, TEST_PREFIX), None);
}

#[test]
fn test_extract_point_path_custom_prefix() {
    let topic = "custom/prefix/some/point/path/Value";
    assert_eq!(
        extract_point_path(topic, "custom/prefix/"),
        Some("some/point/path")
    );
}

#[test]
fn test_extract_point_path_wrong_prefix() {
    let topic = "cronus/v1/some/point/path/Value";
    assert_eq!(extract_point_path(topic, "wrong/prefix/"), None);
}

#[test]
fn extract_point_path_edge_cases() {
    // The prefix is removed after the suffix, so a topic that is only prefix and suffix
    // names the empty path.
    assert_eq!(extract_point_path("cronus/v1//Value", TEST_PREFIX), Some(""));
    assert_eq!(extract_point_path("cronus/v1/Value", "cronus/v1"), Some(""));
    // The suffix must be whole and last.
    assert_eq!(extract_point_path("cronus/v1/a/Value/", TEST_PREFIX), None);
    assert_eq!(extract_point_path("cronus/v1/a/value", TEST_PREFIX), None);
    assert_eq!(extract_point_path("cronus/v1/aValue", TEST_PREFIX), None);
    // `/Metadata` is tried first and removed once.
    assert_eq!(
        extract_point_path("cronus/v1/a/Value/Metadata", TEST_PREFIX),
        Some("a/Value")
    );
    // An empty prefix removes nothing.
    assert_eq!(extract_point_path("a/b/Metadata", ""), Some("a/b"));
    // A prefix longer than what is left names no path.
    assert_eq!(extract_point_path("cron/Value", TEST_PREFIX), None);
    assert_eq!(extract_point_path("", TEST_PREFIX), None);
    // Text outside ASCII is compared character by character.
    assert_eq!(
        extract_point_path("zähler/süd/raum/Value", "zähler/"),
        Some("süd/raum")
    );
}

#[test]
fn test_build_leak_alert_report_structure() {
    let metadata = test_metadata("LeakDetectRack", "rack-001");
    let report = build_leak_alert_report(&metadata, LeakPointType::LeakDetectRack);

    assert_eq!(report.source, HEALTH_REPORT_SOURCE);
    assert!(report.observed_at.is_some());
    assert!(report.successes.is_empty());
    assert_eq!(report.alerts.len(), 1);

    let alert = &report.alerts[0];
    assert_eq!(alert.id.as_str(), "BmsLeakDetectRack");
    assert_eq!(alert.target.as_deref(), Some("rack-001"));
    assert!(alert.message.contains("Leak detected"));
    assert!(alert.message.contains("Rack-rack-001"));

    let classification_strs: Vec<&str> =
        alert.classifications.iter().map(|c| c.as_str()).collect();
    assert_eq!(
        classification_strs,
        vec!["PreventAllocations", "SensorCritical", "Hardware"]
    );
}

#[test]
fn test_build_leak_alert_report_sensor_fault() {
    let metadata = test_metadata("LeakSensorFaultRack", "rack-002");
    let report = build_leak_alert_report(&metadata, LeakPointType::LeakSensorFaultRack);

    let alert = &report.alerts[0];
    assert_eq!(alert.id.as_str(), "BmsLeakSensorFaultRack");
    assert!(alert.message.contains("Leak sensor fault"));
}

#[test]
fn test_build_leak_alert_report_rack_tray() {
    let metadata = test_metadata("LeakDetectRackTray", "rack-003");
    let report = build_leak_alert_report(&metadata, LeakPointType::LeakDetectRackTray);

    let alert = &report.alerts[0];
    assert_eq!(alert.id.as_str(), "BmsLeakDetectRackTray");
    assert!(alert.message.contains("Rack tray leak detected"));
}

#[test]
fn leak_alert_report_at_is_exact() {
    let metadata = test_metadata("LeakDetectRackTray", "rack-003");
    let seen = Timestamp {
        secs: 1706284800,
        nanos: 250,
    };
    let observed = Timestamp {
        secs: 1706284801,
        nanos: 0,
    };
    let report = leak_alert_report_at(&metadata, LeakPointType::LeakDetectRackTray, seen, observed);
    assert_eq!(report.source, "dsx-exchange-consumer");
    assert_eq!(report.observed_at, Some(observed));
    assert!(report.successes.is_empty());
    assert_eq!(report.alerts.len(), 1);
    let alert = &report.alerts[0];
    assert_eq!(alert.id.as_str(), "BmsLeakDetectRackTray");
    assert_eq!(alert.target.as_deref(), Some("rack-003"));
    assert_eq!(alert.in_alert_since, Some(seen));
    assert_eq!(
        alert.message,
        "Rack tray leak detected on rack Rack-rack-003 (rack-003)"
    );
    assert_eq!(alert.tenant_message, None);
    assert_eq!(alert.classifications.len(), 3);
}

#[test]
fn build_leak_alert_report_reads_the_clock() {
    let metadata = test_metadata("LeakDetectRack", "rack-001");
    let report = build_leak_alert_report(&metadata, LeakPointType::LeakDetectRack);
    let observed = report.observed_at.unwrap();
    let seen = report.alerts[0].in_alert_since.unwrap();
    // Both readings lie after 2024-01-26 and in their order.
    assert!(seen.secs >= 1706284800);
    assert!((seen.secs, seen.nanos) <= (observed.secs, observed.nanos));
    assert_eq!(
        report.alerts[0].message,
        "Leak detected on rack Rack-rack-001 (rack-001)"
    );
}

#[test]
fn test_faulting_value_triggers_insert() {
    let sink = RecordingSink::new();
    let mut updater = updater_with(sink.clone());

    // First, cache metadata
    let metadata = test_metadata("LeakDetectRack", "rack-001");
    updater.handle_metadata_message("cronus/v1/site/rack/point/Metadata", metadata, 0);

    // Now send a faulting value
    let value = test_value_message(FaultValue::Faulting);
    updater.handle_value_message("cronus/v1/site/rack/point/Value", value, 0);

    let inserts = sink.take_insert_calls();
    assert_eq!(inserts.len(), 1);
    assert_eq!(inserts[0].0, "rack-001");
    assert_eq!(inserts[0].1.alerts.len(), 1);

    let removes = sink.take_remove_calls();
    assert!(removes.is_empty());
}

#[test]
fn test_clear_value_triggers_remove() {
    let sink = RecordingSink::new();
    let mut updater = updater_with(sink.clone());

    // Cache metadata
    let metadata = test_metadata("LeakDetectRack", "rack-001");
    updater.handle_metadata_message("cronus/v1/site/rack/point/Metadata", metadata, 0);

    // Send a clear value
    let value = test_value_message(FaultValue::Clear);
    updater.handle_value_message("cronus/v1/site/rack/point/Value", value, 0);

    let removes = sink.take_remove_calls();
    assert_eq!(removes.len(), 1);
    assert_eq!(removes[0], "rack-001");

    let inserts = sink.take_insert_calls();
    assert!(inserts.is_empty());
}

#[test]
fn test_value_without_metadata_is_skipped() {
    let sink = RecordingSink::new();
    let mut updater = updater_with(sink.clone());

    // Send value without caching metadata first
    let value = test_value_message(FaultValue::Faulting);
    let outcome = updater.handle_value_message("cronus/v1/site/rack/point/Value", value, 0);

    // No API calls should be made
    assert_eq!(sink.take_insert_calls().len(), 0);
    assert_eq!(sink.take_remove_calls().len(), 0);
    assert_eq!(outcome, ValueOutcome::Dropped(DropReason::NoMetadata));
}

#[test]
fn test_unsupported_point_type_metadata_not_cached() {
    let sink = RecordingSink::new();
    let mut updater = updater_with(sink.clone());

    // Cache unsupported metadata
    let metadata = test_metadata("UnsupportedType", "rack-001");
    let cached =
        updater.handle_metadata_message("cronus/v1/site/rack/point/Metadata", metadata, 0);
    assert_eq!(
        cached,
        MetadataOutcome::Dropped(DropReason::UnsupportedType)
    );

    // Send value - should be skipped because metadata wasn't cached
    let value = test_value_message(FaultValue::Faulting);
    updater.handle_value_message("cronus/v1/site/rack/point/Value", value, 0);

    assert_eq!(sink.take_insert_calls().len(), 0);
    assert!(updater.correlator().metadata("site/rack/point", 0).is_none());
    assert_eq!(updater.correlator().metadata_cache_size(), 0);
}

#[test]
fn test_deduplication_same_value_skipped() {
    let sink = RecordingSink::new();
    let mut updater = updater_with(sink.clone());

    // Cache metadata
    let metadata = test_metadata("LeakDetectRack", "rack-001");
    updater.handle_metadata_message("cronus/v1/site/rack/point/Metadata", metadata, 0);

    // Send faulting value twice
    let value1 = test_value_message(FaultValue::Faulting);
    updater.handle_value_message("cronus/v1/site/rack/point/Value", value1, 0);

    let value2 = test_value_message(FaultValue::Faulting);
    let second = updater.handle_value_message("cronus/v1/site/rack/point/Value", value2, 0);

    // Only one insert should have been made
    assert_eq!(sink.take_insert_calls().len(), 1);
    assert_eq!(second, ValueOutcome::Deduplicated);
}

#[test]
fn test_value_change_not_deduplicated() {
    let sink = RecordingSink::new();
    let mut updater = updater_with(sink.clone());

    // Cache metadata
    let metadata = test_metadata("LeakDetectRack", "rack-001");
    updater.handle_metadata_message("cronus/v1/site/rack/point/Metadata", metadata, 0);

    // Send faulting, then clear, then faulting again
    updater.handle_value_message(
        "cronus/v1/site/rack/point/Value",
        test_value_message(FaultValue::Faulting),
        1,
    );
    updater.handle_value_message(
        "cronus/v1/site/rack/point/Value",
        test_value_message(FaultValue::Clear),
        2,
    );
    updater.handle_value_message(
        "cronus/v1/site/rack/point/Value",
        test_value_message(FaultValue::Faulting),
        3,
    );

    // Should have 2 inserts and 1 remove
    assert_eq!(sink.take_insert_calls().len(), 2);
    assert_eq!(sink.take_remove_calls().len(), 1);
    assert_eq!(
        sink.take_order(),
        vec![CallKind::Insert, CallKind::Remove, CallKind::Insert]
    );
}

#[test]
fn test_api_failure_does_not_cache_state() {
    let sink = Arc::new(FailingSink::default());
    let mut updater = HealthUpdater::new(TEST_PREFIX.to_string(), test_cache_config(), sink.clone());

    // Cache metadata
    let metadata = test_metadata("LeakDetectRack", "rack-001");
    updater.handle_metadata_message("cronus/v1/site/rack/point/Metadata", metadata, 0);

    // Send value - will fail
    let first = updater.handle_value_message(
        "cronus/v1/site/rack/point/Value",
        test_value_message(FaultValue::Faulting),
        0,
    );
    assert_eq!(first, ValueOutcome::Failed(CallKind::Insert));

    // Value state should not be cached, so next call should retry
    assert!(updater
        .correlator()
        .value_state("site/rack/point", 0)
        .is_none());

    let second = updater.handle_value_message(
        "cronus/v1/site/rack/point/Value",
        test_value_message(FaultValue::Faulting),
        1,
    );
    assert_eq!(second, ValueOutcome::Failed(CallKind::Insert));
    assert_eq!(*sink.asked.lock().unwrap(), 2);
}

#[test]
fn api_failure_keeps_the_earlier_state() {
    // A clear was accepted; the fault that follows is refused; the clear stays committed.
    let mut correlator = Correlator::new(TEST_PREFIX.to_string(), test_cache_config());
    correlator.record_metadata(
        "cronus/v1/site/rack/point/Metadata",
        test_metadata("LeakDetectRack", "rack-001"),
        0,
    );
    correlator.commit_value("site/rack/point".to_string(), FaultValue::Clear, 5);
    let outcome = correlator.settle_value(
        "site/rack/point".to_string(),
        FaultValue::Faulting,
        false,
        6,
    );
    assert_eq!(outcome, ValueOutcome::Failed(CallKind::Insert));
    assert_eq!(
        correlator.value_state("site/rack/point", 6),
        Some(FaultValue::Clear)
    );
    // The fault is planned again, the clear is deduplicated.
    let again = correlator.plan_value(
        "cronus/v1/site/rack/point/Value",
        &test_value_message(FaultValue::Faulting),
        7,
    );
    assert!(matches!(again, ValuePlan::Send { .. }));
    let clear = correlator.plan_value(
        "cronus/v1/site/rack/point/Value",
        &test_value_message(FaultValue::Clear),
        7,
    );
    assert!(matches!(clear, ValuePlan::Deduplicate));
}

#[test]
fn test_multiple_racks_independent() {
    let sink = RecordingSink::new();
    let mut updater = updater_with(sink.clone());

    // Cache metadata for two racks
    updater.handle_metadata_message(
        "cronus/v1/site/rack1/point/Metadata",
        test_metadata("LeakDetectRack", "rack-001"),
        0,
    );
    updater.handle_metadata_message(
        "cronus/v1/site/rack2/point/Metadata",
        test_metadata("LeakDetectRack", "rack-002"),
        0,
    );

    // Send faulting to rack1
    updater.handle_value_message(
        "cronus/v1/site/rack1/point/Value",
        test_value_message(FaultValue::Faulting),
        0,
    );

    // Send faulting to rack2
    updater.handle_value_message(
        "cronus/v1/site/rack2/point/Value",
        test_value_message(FaultValue::Faulting),
        0,
    );

    // Both should have triggered inserts
    let inserts = sink.take_insert_calls();
    assert_eq!(inserts.len(), 2);

    let rack_ids: Vec<_> = inserts.iter().map(|(id, _)| id.as_str()).collect();
    assert!(rack_ids.contains(&"rack-001"));
    assert!(rack_ids.contains(&"rack-002"));
    assert_eq!(inserts[0].1.alerts[0].target.as_deref(), Some("rack-001"));
    assert_eq!(inserts[1].1.alerts[0].target.as_deref(), Some("rack-002"));
}

#[test]
fn test_run_processes_messages_until_channel_closed() {
    let sink = RecordingSink::new();
    let mut updater = updater_with(sink.clone());

    let arrivals = vec![
        Arrival {
            message: MqttMessage::Metadata {
                topic: "cronus/v1/site/rack/point/Metadata".to_string(),
                metadata: test_metadata("LeakDetectRack", "rack-001"),
            },
            at: 0,
        },
        Arrival {
            message: MqttMessage::Value {
                topic: "cronus/v1/site/rack/point/Value".to_string(),
                value: test_value_message(FaultValue::Faulting),
            },
            at: 1,
        },
    ];

    // Run updater - should process both messages and return
    let outcomes = updater.run(&arrivals);

    assert_eq!(sink.take_insert_calls().len(), 1);
    assert_eq!(
        outcomes,
        vec![
            Outcome::Metadata(MetadataOutcome::Cached),
            Outcome::Value(ValueOutcome::Applied(CallKind::Insert)),
        ]
    );
}

#[test]
fn run_of_no_messages_does_nothing() {
    let sink = RecordingSink::new();
    let mut updater = updater_with(sink.clone());
    assert!(updater.run(&Vec::new()).is_empty());
    assert!(sink.take_order().is_empty());
}

#[test]
fn same_value_many_times_is_sent_once() {
    let sink = RecordingSink::new();
    let mut updater = updater_with(sink.clone());
    updater.handle_metadata_message(
        "cronus/v1/site/rack/point/Metadata",
        test_metadata("LeakSensorFaultRack", "rack-007"),
        10,
    );
    let mut outcomes = Vec::new();
    for at in 10..20u64 {
        outcomes.push(updater.handle_value_message(
            "cronus/v1/site/rack/point/Value",
            test_value_message(FaultValue::Clear),
            at,
        ));
    }
    assert_eq!(outcomes[0], ValueOutcome::Applied(CallKind::Remove));
    assert!(outcomes[1..]
        .iter()
        .all(|o| *o == ValueOutcome::Deduplicated));
    assert_eq!(sink.take_remove_calls(), vec!["rack-007".to_string()]);
    assert!(sink.take_insert_calls().is_empty());
}

#[test]
fn malformed_topics_are_dropped() {
    let sink = RecordingSink::new();
    let mut updater = updater_with(sink.clone());
    assert_eq!(
        updater.handle_metadata_message(
            "cronus/v1/site/rack/point/Unknown",
            test_metadata("LeakDetectRack", "rack-001"),
            0
        ),
        MetadataOutcome::Dropped(DropReason::MalformedTopic)
    );
    assert_eq!(
        updater.handle_metadata_message(
            "other/site/rack/point/Metadata",
            test_metadata("LeakDetectRack", "rack-001"),
            0
        ),
        MetadataOutcome::Dropped(DropReason::MalformedTopic)
    );
    assert_eq!(
        updater.handle_value_message(
            "cronus/v1/site/rack/point",
            test_value_message(FaultValue::Faulting),
            0
        ),
        ValueOutcome::Dropped(DropReason::MalformedTopic)
    );
    assert_eq!(updater.correlator().metadata_cache_size(), 0);
    assert!(sink.take_order().is_empty());
}

#[test]
fn metadata_and_value_topics_of_one_path_correlate() {
    // The value arrives on the `/Value` topic, the metadata on the `/Metadata` topic.
    let sink = RecordingSink::new();
    let mut updater = updater_with(sink.clone());
    updater.handle_metadata_message(
        "cronus/v1/a/Value",
        test_metadata("LeakDetectRack", "rack-001"),
        0,
    );
    let outcome = updater.handle_value_message(
        "cronus/v1/a/Metadata",
        test_value_message(FaultValue::Faulting),
        0,
    );
    assert_eq!(outcome, ValueOutcome::Applied(CallKind::Insert));
}

#[test]
fn metadata_is_overwritten_by_the_last_write() {
    let sink = RecordingSink::new();
    let mut updater = updater_with(sink.clone());
    updater.handle_metadata_message(
        "cronus/v1/site/rack/point/Metadata",
        test_metadata("LeakDetectRack", "rack-001"),
        0,
    );
    updater.handle_metadata_message(
        "cronus/v1/site/rack/point/Metadata",
        test_metadata("LeakDetectRackTray", "rack-009"),
        1,
    );
    assert_eq!(updater.correlator().metadata_cache_size(), 1);
    updater.handle_value_message(
        "cronus/v1/site/rack/point/Value",
        test_value_message(FaultValue::Faulting),
        2,
    );
    let inserts = sink.take_insert_calls();
    assert_eq!(inserts.len(), 1);
    assert_eq!(inserts[0].0, "rack-009");
    assert_eq!(inserts[0].1.alerts[0].id.as_str(), "BmsLeakDetectRackTray");
    assert_eq!(
        inserts[0].1.alerts[0].message,
        "Rack tray leak detected on rack Rack-rack-009 (rack-009)"
    );
}

#[test]
fn unsupported_metadata_does_not_replace_supported_metadata() {
    let sink = RecordingSink::new();
    let mut updater = updater_with(sink.clone());
    updater.handle_metadata_message(
        "cronus/v1/site/rack/point/Metadata",
        test_metadata("LeakDetectRack", "rack-001"),
        0,
    );
    updater.handle_metadata_message(
        "cronus/v1/site/rack/point/Metadata",
        test_metadata("UnsupportedType", "rack-002"),
        1,
    );
    let found = updater.correlator().metadata("site/rack/point", 2).unwrap();
    assert_eq!(found.point_type, "LeakDetectRack");
    assert_eq!(found.rack_id, "rack-001");
}

#[test]
fn metadata_expires_after_its_time_to_live() {
    let sink = RecordingSink::new();
    let mut updater = HealthUpdater::new(
        TEST_PREFIX.to_string(),
        CacheConfig {
            metadata_ttl: 100,
            value_state_ttl: HOUR,
        },
        sink.clone(),
    );
    updater.handle_metadata_message(
        "cronus/v1/site/rack/point/Metadata",
        test_metadata("LeakDetectRack", "rack-001"),
        1000,
    );
    // Live until just before 1100.
    assert!(updater.correlator().metadata("site/rack/point", 1099).is_some());
    assert!(updater.correlator().metadata("site/rack/point", 1100).is_none());
    let late = updater.handle_value_message(
        "cronus/v1/site/rack/point/Value",
        test_value_message(FaultValue::Faulting),
        1100,
    );
    assert_eq!(late, ValueOutcome::Dropped(DropReason::NoMetadata));
    assert!(sink.take_order().is_empty());
    // A new write makes the path live again, from the time of that write.
    updater.handle_metadata_message(
        "cronus/v1/site/rack/point/Metadata",
        test_metadata("LeakDetectRack", "rack-001"),
        1150,
    );
    let fresh = updater.handle_value_message(
        "cronus/v1/site/rack/point/Value",
        test_value_message(FaultValue::Faulting),
        1249,
    );
    assert_eq!(fresh, ValueOutcome::Applied(CallKind::Insert));
}

#[test]
fn value_state_expires_after_its_time_to_live() {
    let sink = RecordingSink::new();
    let mut updater = HealthUpdater::new(
        TEST_PREFIX.to_string(),
        CacheConfig {
            metadata_ttl: HOUR,
            value_state_ttl: 50,
        },
        sink.clone(),
    );
    updater.handle_metadata_message(
        "cronus/v1/site/rack/point/Metadata",
        test_metadata("LeakDetectRack", "rack-001"),
        0,
    );
    let topic = "cronus/v1/site/rack/point/Value";
    let fault = test_value_message(FaultValue::Faulting);
    assert_eq!(
        updater.handle_value_message(topic, fault, 10),
        ValueOutcome::Applied(CallKind::Insert)
    );
    assert_eq!(
        updater.handle_value_message(topic, fault, 59),
        ValueOutcome::Deduplicated
    );
    // A deduplicated value does not extend the life of the entry.
    assert_eq!(
        updater.handle_value_message(topic, fault, 60),
        ValueOutcome::Applied(CallKind::Insert)
    );
    assert_eq!(sink.take_insert_calls().len(), 2);
}

#[test]
fn eviction_drops_expired_entries_only() {
    let mut correlator = Correlator::new(
        TEST_PREFIX.to_string(),
        CacheConfig {
            metadata_ttl: 100,
            value_state_ttl: 10,
        },
    );
    correlator.record_metadata(
        "cronus/v1/a/Metadata",
        test_metadata("LeakDetectRack", "rack-a"),
        0,
    );
    correlator.record_metadata(
        "cronus/v1/b/Metadata",
        test_metadata("LeakDetectRack", "rack-b"),
        50,
    );
    correlator.commit_value("a".to_string(), FaultValue::Faulting, 0);
    correlator.commit_value("b".to_string(), FaultValue::Clear, 95);
    assert_eq!(correlator.metadata_cache_size(), 2);
    assert_eq!(correlator.value_state_cache_size(), 2);

    correlator.evict_expired(100);
    assert_eq!(correlator.metadata_cache_size(), 1);
    assert_eq!(correlator.value_state_cache_size(), 1);
    assert!(correlator.metadata("a", 100).is_none());
    assert_eq!(correlator.metadata("b", 100).unwrap().rack_id, "rack-b");
    assert_eq!(correlator.value_state("a", 100), None);
    assert_eq!(correlator.value_state("b", 100), Some(FaultValue::Clear));

    correlator.evict_expired(150);
    assert_eq!(correlator.metadata_cache_size(), 0);
    assert_eq!(correlator.value_state_cache_size(), 0);
}

#[test]
fn plan_names_the_call_and_changes_nothing() {
    let mut correlator = Correlator::new(TEST_PREFIX.to_string(), test_cache_config());
    correlator.record_metadata(
        "cronus/v1/site/rack/point/Metadata",
        test_metadata("LeakSensorFaultRack", "rack-002"),
        0,
    );
    let plan = correlator.plan_value(
        "cronus/v1/site/rack/point/Value",
        &test_value_message(FaultValue::Faulting),
        1,
    );
    match plan {
        ValuePlan::Send { path, value, call } => {
            assert_eq!(path, "site/rack/point");
            assert_eq!(value, FaultValue::Faulting);
            match call {
                SinkCall::Insert { rack_id, report } => {
                    assert_eq!(rack_id, "rack-002");
                    assert_eq!(report.alerts[0].id.as_str(), "BmsLeakSensorFaultRack");
                    assert_eq!(
                        report.alerts[0].message,
                        "Leak sensor fault on rack Rack-rack-002 (rack-002)"
                    );
                }
                other => panic!("expected an insert, got {:?}", other),
            }
        }
        other => panic!("expected a call, got {:?}", other),
    }
    assert_eq!(correlator.value_state("site/rack/point", 1), None);

    let plan = correlator.plan_value(
        "cronus/v1/site/rack/point/Value",
        &test_value_message(FaultValue::Clear),
        1,
    );
    match plan {
        ValuePlan::Send {
            call: SinkCall::Remove { rack_id },
            value,
            ..
        } => {
            assert_eq!(rack_id, "rack-002");
            assert_eq!(value, FaultValue::Clear);
        }
        other => panic!("expected a remove, got {:?}", other),
    }
}

#[test]
fn console_sink_accepts_every_call() {
    let sink = Arc::new(ConsoleRackHealthSink);
    let mut updater = HealthUpdater::new(TEST_PREFIX.to_string(), test_cache_config(), sink);
    updater.handle_metadata_message(
        "cronus/v1/site/rack/point/Metadata",
        test_metadata("LeakDetectRack", "rack-001"),
        0,
    );
    let topic = "cronus/v1/site/rack/point/Value";
    assert_eq!(
        updater.handle_value_message(topic, test_value_message(FaultValue::Faulting), 0),
        ValueOutcome::Applied(CallKind::Insert)
    );
    assert_eq!(
        updater.handle_value_message(topic, test_value_message(FaultValue::Clear), 0),
        ValueOutcome::Applied(CallKind::Remove)
    );
    assert_eq!(
        updater.correlator().value_state("site/rack/point", 0),
        Some(FaultValue::Clear)
    );
}

#[test]
fn updater_eviction_is_not_observed() {
    let sink = RecordingSink::new();
    let mut updater = HealthUpdater::new(
        TEST_PREFIX.to_string(),
        CacheConfig {
            metadata_ttl: 100,
            value_state_ttl: 100,
        },
        sink.clone(),
    );
    updater.handle_metadata_message(
        "cronus/v1/old/Metadata",
        test_metadata("LeakDetectRack", "rack-old"),
        0,
    );
    updater.handle_metadata_message(
        "cronus/v1/new/Metadata",
        test_metadata("LeakDetectRack", "rack-new"),
        90,
    );
    updater.handle_value_message(
        "cronus/v1/new/Value",
        test_value_message(FaultValue::Faulting),
        95,
    );
    updater.evict_expired(120);
    assert_eq!(updater.correlator().metadata_cache_size(), 1);
    assert_eq!(updater.correlator().value_state_cache_size(), 1);
    assert_eq!(
        updater.handle_value_message(
            "cronus/v1/new/Value",
            test_value_message(FaultValue::Faulting),
            130
        ),
        ValueOutcome::Deduplicated
    );
    assert_eq!(
        updater.handle_value_message(
            "cronus/v1/old/Value",
            test_value_message(FaultValue::Faulting),
            130
        ),
        ValueOutcome::Dropped(DropReason::NoMetadata)
    );
    assert_eq!(sink.take_insert_calls().len(), 1);
}
