//! The processor that turns leak detection events into calls on the
//! downstream sink.
//!
//! Metadata and values arrive on separate topics of one sensor path. The
//! processor remembers the last metadata of every path and the last value that
//! the sink accepted for it, each for a limited time, and asks the sink to act
//! only where a value differs from the one it last accepted.

use std::sync::Arc;
use vstd::prelude::*;

use crate::api_client::RackHealthReportSink;
use crate::cache::{lookup, unexpired, Stamped, TtlCache};
use crate::config::CacheConfig;
use crate::messages::{
    leak_point_type_of,
    FaultValue,
    LeakMetadata,
    LeakPointType,
    MqttMessage,
    ValueMessage,
};
use crate::report::{build_leak_alert_report, is_leak_alert_report, HealthReport};
use crate::text::{opt_view, strip_prefix, strip_suffix, without_prefix, without_suffix};

verus! {

/// The sensor path that a topic names: the topic without its trailing
/// `/Metadata` or `/Value` and without the leading `prefix`. A topic that
/// lacks either names no path.
pub open spec fn point_path(topic: Seq<char>, prefix: Seq<char>) -> Option<Seq<char>> {
    let stem = match without_suffix(topic, "/Metadata"@) {
        Some(s) => Some(s),
        None => without_suffix(topic, "/Value"@),
    };
    match stem {
        Some(s) => without_prefix(s, prefix),
        None => None,
    }
}

/// Extract the point path from a topic.
///
/// Topics are in the format `{prefix}{pointPath}/Metadata` or
/// `{prefix}{pointPath}/Value`.
pub fn extract_point_path<'a>(topic: &'a str, prefix: &str) -> (r: Option<&'a str>)
    ensures
        opt_view(r) == point_path(topic@, prefix@),
{
    let stem = match strip_suffix(topic, "/Metadata") {
        Some(s) => Some(s),
        None => strip_suffix(topic, "/Value"),
    };
    match stem {
        Some(s) => strip_prefix(s, prefix),
        None => None,
    }
}

/// Why a message was dropped without effect.
#[derive(Debug, Clone, Copy, PartialEq, Eq, Structural)]
pub enum DropReason {
    /// The topic names no sensor path.
    MalformedTopic,
    /// No live metadata is known for the path of a value.
    NoMetadata,
    /// The point type of the metadata is no supported leak type.
    UnsupportedType,
}

/// What became of a metadata message.
#[derive(Debug, Clone, Copy, PartialEq, Eq, Structural)]
pub enum MetadataOutcome {
    /// The metadata is now the metadata of its path.
    Cached,
    /// The message was dropped.
    Dropped(DropReason),
}

/// The two kinds of call on the sink.
#[derive(Debug, Clone, Copy, PartialEq, Eq, Structural)]
pub enum CallKind {
    /// Insert a health override.
    Insert,
    /// Remove a health override.
    Remove,
}

/// The kind of call that reconciles a value: a fault inserts an override,
/// a clear removes it.
pub open spec fn call_kind(value: FaultValue) -> CallKind {
    match value {
        FaultValue::Faulting => CallKind::Insert,
        FaultValue::Clear => CallKind::Remove,
    }
}

/// A call that the sink is to make.
#[derive(Debug)]
pub enum SinkCall {
    /// Insert the health override `report` on the rack.
    Insert { rack_id: String, report: HealthReport },
    /// Remove the health override of this service from the rack.
    Remove { rack_id: String },
}

impl SinkCall {
    /// This call reconciles `value` for a point of type `leak_type` on the
    /// rack that `rack_name` and `rack_id` identify: for a fault, the insert of
    /// the leak alert report on that rack; for a clear, the remove on that
    /// rack.
    pub open spec fn reconciles(
        &self,
        value: FaultValue,
        leak_type: LeakPointType,
        rack_name: Seq<char>,
        rack_id: Seq<char>,
    ) -> bool {
        match self {
            SinkCall::Insert { rack_id: target, report } => value == FaultValue::Faulting
                && target@ == rack_id && is_leak_alert_report(
                report@,
                leak_type,
                rack_name,
                rack_id,
            ),
            SinkCall::Remove { rack_id: target } => value == FaultValue::Clear && target@
                == rack_id,
        }
    }
}

/// What a value message asks for, before anything is sent.
#[derive(Debug)]
pub enum ValuePlan {
    /// Drop the message.
    Drop(DropReason),
    /// The value is the one that the sink last accepted: nothing to do.
    Deduplicate,
    /// Make `call`, and if the sink accepts it, commit `value` for `path`.
    Send { path: String, value: FaultValue, call: SinkCall },
}

/// What became of a value message.
#[derive(Debug, Clone, Copy, PartialEq, Eq, Structural)]
pub enum ValueOutcome {
    /// The message was dropped.
    Dropped(DropReason),
    /// The value was the one that the sink last accepted.
    Deduplicated,
    /// The sink accepted the call, and the value was committed.
    Applied(CallKind),
    /// The sink refused the call, and nothing was committed.
    Failed(CallKind),
}

impl ValueOutcome {
    /// The call that was made on the sink for the message, if one was made.
    pub open spec fn call(self) -> Option<CallKind> {
        match self {
            ValueOutcome::Applied(kind) => Some(kind),
            ValueOutcome::Failed(kind) => Some(kind),
            _ => None,
        }
    }

    /// Whether the sink accepted a call for the message.
    pub open spec fn delivered(self) -> bool {
        self is Applied
    }
}

/// What became of a message.
#[derive(Debug, Clone, Copy, PartialEq, Eq, Structural)]
pub enum Outcome {
    /// The message carried metadata.
    Metadata(MetadataOutcome),
    /// The message carried a value.
    Value(ValueOutcome),
}

/// The calls that were made on the sink for the messages whose outcomes are
/// `outcomes`, in the order in which they were made.
pub open spec fn calls_of(outcomes: Seq<Outcome>) -> Seq<CallKind>
    decreases outcomes.len(),
{
    if outcomes.len() == 0 {
        Seq::empty()
    } else {
        let before = calls_of(outcomes.drop_last());
        match outcomes.last() {
            Outcome::Value(ValueOutcome::Applied(kind)) => before.push(kind),
            Outcome::Value(ValueOutcome::Failed(kind)) => before.push(kind),
            _ => before,
        }
    }
}

/// A message together with the clock reading at which it arrived.
#[derive(Debug)]
pub struct Arrival {
    /// The message.
    pub message: MqttMessage,
    /// When it arrived.
    pub at: u64,
}

/// What the processor remembers, as plain values.
pub struct CorrelatorView {
    /// The prefix that every topic carries.
    pub prefix: Seq<char>,
    /// How long metadata is remembered after it was written.
    pub metadata_ttl: u64,
    /// How long an accepted value is remembered after it was committed.
    pub value_state_ttl: u64,
    /// The last metadata of each path, with the time it arrived.
    pub metadata: Map<Seq<char>, Stamped<LeakMetadata>>,
    /// The last value that the sink accepted for each path, with the time it
    /// was committed.
    pub values: Map<Seq<char>, Stamped<FaultValue>>,
}

/// What a value message asks for, as plain values.
pub enum PlanView {
    /// Drop the message.
    Drop(DropReason),
    /// Nothing to do.
    Deduplicate,
    /// Call the sink for this rack, and commit `value` for `path` if it
    /// accepts.
    Send {
        path: Seq<char>,
        value: FaultValue,
        leak_type: LeakPointType,
        rack_name: Seq<char>,
        rack_id: Seq<char>,
    },
}

impl CorrelatorView {
    /// The live metadata of `path` at `now`.
    pub open spec fn metadata_at(self, path: Seq<char>, now: u64) -> Option<LeakMetadata> {
        lookup(self.metadata, self.metadata_ttl, path, now)
    }

    /// The value that the sink last accepted for `path`, if that is still
    /// remembered at `now`.
    pub open spec fn value_at(self, path: Seq<char>, now: u64) -> Option<FaultValue> {
        lookup(self.values, self.value_state_ttl, path, now)
    }

    /// Every remembered metadata has a supported leak type.
    pub open spec fn all_supported(self) -> bool {
        forall|path: Seq<char>| #[trigger]
            self.metadata.contains_key(path) ==> leak_point_type_of(
                self.metadata[path].value.point_type@,
            ) is Some
    }

    /// What a metadata message on `topic` at `now` does: nothing where the
    /// topic names no path or the point type is unsupported, and otherwise it
    /// replaces the metadata of the path.
    pub open spec fn metadata_outcome(self, topic: Seq<char>, metadata: LeakMetadata)
        -> MetadataOutcome {
        match point_path(topic, self.prefix) {
            None => MetadataOutcome::Dropped(DropReason::MalformedTopic),
            Some(path) => if leak_point_type_of(metadata.point_type@) is None {
                MetadataOutcome::Dropped(DropReason::UnsupportedType)
            } else {
                MetadataOutcome::Cached
            },
        }
    }

    /// The state after a metadata message on `topic` at `now`.
    pub open spec fn after_metadata(self, topic: Seq<char>, metadata: LeakMetadata, now: u64)
        -> CorrelatorView {
        if self.metadata_outcome(topic, metadata) == MetadataOutcome::Cached {
            CorrelatorView {
                metadata: self.metadata.insert(
                    point_path(topic, self.prefix)->0,
                    Stamped { value: metadata, written_at: now },
                ),
                ..self
            }
        } else {
            self
        }
    }

    /// What a message with `value` on `topic` at `now` asks for.
    pub open spec fn plan(self, topic: Seq<char>, value: FaultValue, now: u64) -> PlanView {
        match point_path(topic, self.prefix) {
            None => PlanView::Drop(DropReason::MalformedTopic),
            Some(path) => match self.metadata_at(path, now) {
                None => PlanView::Drop(DropReason::NoMetadata),
                Some(metadata) => match leak_point_type_of(metadata.point_type@) {
                    None => PlanView::Drop(DropReason::UnsupportedType),
                    Some(leak_type) => if self.value_at(path, now) == Some(value) {
                        PlanView::Deduplicate
                    } else {
                        PlanView::Send {
                            path,
                            value,
                            leak_type,
                            rack_name: metadata.rack_name@,
                            rack_id: metadata.rack_id@,
                        }
                    },
                },
            },
        }
    }

    /// The state after `value` was committed for `path` at `now`.
    pub open spec fn committed(self, path: Seq<char>, value: FaultValue, now: u64)
        -> CorrelatorView {
        CorrelatorView {
            values: self.values.insert(path, Stamped { value, written_at: now }),
            ..self
        }
    }

    /// What becomes of a message with `value` on `topic` at `now`, where
    /// `delivered` says whether the sink accepts the call, if one is made.
    pub open spec fn value_outcome(
        self,
        topic: Seq<char>,
        value: FaultValue,
        now: u64,
        delivered: bool,
    ) -> ValueOutcome {
        match self.plan(topic, value, now) {
            PlanView::Drop(reason) => ValueOutcome::Dropped(reason),
            PlanView::Deduplicate => ValueOutcome::Deduplicated,
            PlanView::Send { .. } => if delivered {
                ValueOutcome::Applied(call_kind(value))
            } else {
                ValueOutcome::Failed(call_kind(value))
            },
        }
    }

    /// The state after a message with `value` on `topic` at `now`: the value
    /// is committed for the path where a call was made and the sink accepted
    /// it, and nothing changes otherwise.
    pub open spec fn after_value(
        self,
        topic: Seq<char>,
        value: FaultValue,
        now: u64,
        delivered: bool,
    ) -> CorrelatorView {
        match self.plan(topic, value, now) {
            PlanView::Send { path, .. } => if delivered {
                self.committed(path, value, now)
            } else {
                self
            },
            _ => self,
        }
    }

    /// `outcome` is what can become of `message` at `now`: for metadata, the
    /// one outcome there is; for a value, the outcome with either answer of
    /// the sink.
    pub open spec fn admits(self, message: MqttMessage, now: u64, outcome: Outcome) -> bool {
        match message {
            MqttMessage::Metadata { topic, metadata } => outcome == Outcome::Metadata(
                self.metadata_outcome(topic@, metadata),
            ),
            MqttMessage::Value { topic, value } => outcome matches Outcome::Value(o) && o
                == self.value_outcome(topic@, value.value, now, o.delivered()),
        }
    }

    /// The state after `message` at `now`, where `outcome` tells what the
    /// sink answered.
    pub open spec fn step(self, message: MqttMessage, now: u64, outcome: Outcome)
        -> CorrelatorView {
        match message {
            MqttMessage::Metadata { topic, metadata } => self.after_metadata(
                topic@,
                metadata,
                now,
            ),
            MqttMessage::Value { topic, value } => self.after_value(
                topic@,
                value.value,
                now,
                outcome matches Outcome::Value(o) && o.delivered(),
            ),
        }
    }

    /// The state after the messages of `arrivals` in their order, where
    /// `outcomes` holds what became of each.
    pub open spec fn replay(self, arrivals: Seq<Arrival>, outcomes: Seq<Outcome>)
        -> CorrelatorView
        decreases arrivals.len(),
    {
        if arrivals.len() == 0 || outcomes.len() != arrivals.len() {
            self
        } else {
            self.replay(arrivals.drop_last(), outcomes.drop_last()).step(
                arrivals.last().message,
                arrivals.last().at,
                outcomes.last(),
            )
        }
    }

    /// `outcomes` holds, for each message of `arrivals` in turn, an outcome
    /// that the state reached before it admits.
    pub open spec fn admits_all(self, arrivals: Seq<Arrival>, outcomes: Seq<Outcome>) -> bool
        decreases arrivals.len(),
    {
        if outcomes.len() != arrivals.len() {
            false
        } else if arrivals.len() == 0 {
            true
        } else {
            &&& self.admits_all(arrivals.drop_last(), outcomes.drop_last())
            &&& self.replay(arrivals.drop_last(), outcomes.drop_last()).admits(
                arrivals.last().message,
                arrivals.last().at,
                outcomes.last(),
            )
        }
    }

    /// The state after every entry that is not live at `now` was evicted.
    pub open spec fn evicted(self, now: u64) -> CorrelatorView {
        CorrelatorView {
            metadata: unexpired(self.metadata, self.metadata_ttl, now),
            values: unexpired(self.values, self.value_state_ttl, now),
            ..self
        }
    }
}

impl ValuePlan {
    /// This plan is the plan `want`, with the call that reconciles its
    /// value where it sends one.
    pub open spec fn matches(&self, want: PlanView) -> bool {
        match self {
            ValuePlan::Drop(reason) => want == PlanView::Drop(*reason),
            ValuePlan::Deduplicate => want == PlanView::Deduplicate,
            ValuePlan::Send { path, value, call } => {
                &&& want matches PlanView::Send {
                    path: want_path,
                    value: want_value,
                    leak_type,
                    rack_name,
                    rack_id,
                }
                &&& path@ == want_path
                &&& *value == want_value
                &&& call.reconciles(want_value, leak_type, rack_name, rack_id)
            },
        }
    }
}

/// The correlation state of the processor: the topic prefix and the two
/// caches, one of metadata and one of accepted values, each with its own
/// time-to-live.
///
/// The correlator decides and remembers; it calls nothing. All times are
/// readings of one monotonic clock, in milliseconds.
pub struct Correlator {
    topic_prefix: String,
    metadata_cache: TtlCache<LeakMetadata>,
    value_state_cache: TtlCache<FaultValue>,
}

impl View for Correlator {
    type V = CorrelatorView;

    closed spec fn view(&self) -> CorrelatorView {
        CorrelatorView {
            prefix: self.topic_prefix@,
            metadata_ttl: self.metadata_cache.ttl(),
            value_state_ttl: self.value_state_cache.ttl(),
            metadata: self.metadata_cache@,
            values: self.value_state_cache@,
        }
    }
}

impl Correlator {
    /// Creates a correlator that remembers nothing yet.
    pub fn new(topic_prefix: String, cache_config: CacheConfig) -> (r: Self)
        ensures
            r@ == (CorrelatorView {
                prefix: topic_prefix@,
                metadata_ttl: cache_config.metadata_ttl,
                value_state_ttl: cache_config.value_state_ttl,
                metadata: Map::empty(),
                values: Map::empty(),
            }),
    {
        Correlator {
            topic_prefix,
            metadata_cache: TtlCache::new(cache_config.metadata_ttl),
            value_state_cache: TtlCache::new(cache_config.value_state_ttl),
        }
    }

    /// Takes in a metadata message: remembers the metadata for the path of
    /// the topic, unless the topic names no path or the point type is no
    /// supported leak type.
    pub fn record_metadata(&mut self, topic: &str, metadata: LeakMetadata, now: u64) -> (r:
        MetadataOutcome)
        ensures
            r == old(self)@.metadata_outcome(topic@, metadata),
            final(self)@ == old(self)@.after_metadata(topic@, metadata, now),
            old(self)@.all_supported() ==> final(self)@.all_supported(),
    {
        let path = match extract_point_path(topic, self.topic_prefix.as_str()) {
            Some(path) => path,
            None => {
                return MetadataOutcome::Dropped(DropReason::MalformedTopic);
            },
        };
        if !metadata.is_supported_leak_type() {
            return MetadataOutcome::Dropped(DropReason::UnsupportedType);
        }
        self.metadata_cache.insert(path.to_owned(), metadata, now);
        MetadataOutcome::Cached
    }

    /// Decides what a value message asks for. Nothing is changed and nothing
    /// is sent: where the plan is to send, the caller makes the call and
    /// commits the value if the sink accepts.
    pub fn plan_value(&self, topic: &str, msg: &ValueMessage, now: u64) -> (r: ValuePlan)
        ensures
            r.matches(self@.plan(topic@, msg.value, now)),
    {
        let path = match extract_point_path(topic, self.topic_prefix.as_str()) {
            Some(path) => path,
            None => {
                return ValuePlan::Drop(DropReason::MalformedTopic);
            },
        };
        let metadata = match self.metadata_cache.get(path, now) {
            Some(metadata) => metadata,
            None => {
                return ValuePlan::Drop(DropReason::NoMetadata);
            },
        };
        let leak_type = match metadata.leak_point_type() {
            Some(leak_type) => leak_type,
            None => {
                return ValuePlan::Drop(DropReason::UnsupportedType);
            },
        };
        match decide_update(self.value_state(path, now), msg.value) {
            None => ValuePlan::Deduplicate,
            Some(kind) => {
                let call = match kind {
                    CallKind::Insert => SinkCall::Insert {
                        rack_id: metadata.rack_id.clone(),
                        report: build_leak_alert_report(metadata, leak_type),
                    },
                    CallKind::Remove => SinkCall::Remove { rack_id: metadata.rack_id.clone() },
                };
                ValuePlan::Send { path: path.to_owned(), value: msg.value, call }
            },
        }
    }

    /// The live metadata of `path` at `now`.
    pub fn metadata(&self, path: &str, now: u64) -> (r: Option<&LeakMetadata>)
        ensures
            match r {
                Some(metadata) => self@.metadata_at(path@, now) == Some(*metadata),
                None => self@.metadata_at(path@, now) is None,
            },
    {
        self.metadata_cache.get(path, now)
    }

    /// The value that the sink last accepted for `path`, if that is still
    /// remembered at `now`.
    pub fn value_state(&self, path: &str, now: u64) -> (r: Option<FaultValue>)
        ensures
            r == self@.value_at(path@, now),
    {
        match self.value_state_cache.get(path, now) {
            Some(value) => Some(*value),
            None => None,
        }
    }

    /// Commits `value` as the value that the sink last accepted for `path`.
    pub fn commit_value(&mut self, path: String, value: FaultValue, now: u64)
        ensures
            final(self)@ == old(self)@.committed(path@, value, now),
    {
        self.value_state_cache.insert(path, value, now);
    }

    /// Takes in what the sink answered to the call for `value` on `path`:
    /// commits the value if the call was delivered, and changes nothing if it
    /// was not, so that the next value for the path is sent again.
    pub fn settle_value(&mut self, path: String, value: FaultValue, delivered: bool, now: u64)
        -> (r: ValueOutcome)
        ensures
            r == if delivered {
                ValueOutcome::Applied(call_kind(value))
            } else {
                ValueOutcome::Failed(call_kind(value))
            },
            final(self)@ == if delivered {
                old(self)@.committed(path@, value, now)
            } else {
                old(self)@
            },
    {
        let kind = match value {
            FaultValue::Faulting => CallKind::Insert,
            FaultValue::Clear => CallKind::Remove,
        };
        if delivered {
            self.commit_value(path, value, now);
            ValueOutcome::Applied(kind)
        } else {
            ValueOutcome::Failed(kind)
        }
    }

    /// Drops what is no longer live at `now` from both caches.
    pub fn evict_expired(&mut self, now: u64)
        ensures
            final(self)@ == old(self)@.evicted(now),
    {
        self.metadata_cache.evict_expired(now);
        self.value_state_cache.evict_expired(now);
    }

    /// The number of entries that the metadata cache holds.
    pub fn metadata_cache_size(&self) -> (r: usize)
        ensures
            self@.metadata.dom().finite(),
            r == self@.metadata.len(),
    {
        self.metadata_cache.entry_count()
    }

    /// The number of entries that the value state cache holds.
    pub fn value_state_cache_size(&self) -> (r: usize)
        ensures
            self@.values.dom().finite(),
            r == self@.values.len(),
    {
        self.value_state_cache.entry_count()
    }
}

/// Health status updater that processes event bus messages and updates the
/// sink.
///
/// Messages are processed one at a time: a message is fully resolved, the
/// call on the sink included, before the next is taken.
pub struct HealthUpdater<S: RackHealthReportSink> {
    api: Arc<S>,
    correlator: Correlator,
}

impl<S: RackHealthReportSink> View for HealthUpdater<S> {
    type V = CorrelatorView;

    closed spec fn view(&self) -> CorrelatorView {
        self.correlator@
    }
}

impl<S: RackHealthReportSink> HealthUpdater<S> {
    /// Creates an updater that remembers nothing yet and sends to `api`.
    pub fn new(topic_prefix: String, cache_config: CacheConfig, api: Arc<S>) -> (r: Self)
        ensures
            r@ == (CorrelatorView {
                prefix: topic_prefix@,
                metadata_ttl: cache_config.metadata_ttl,
                value_state_ttl: cache_config.value_state_ttl,
                metadata: Map::empty(),
                values: Map::empty(),
            }),
    {
        HealthUpdater { api, correlator: Correlator::new(topic_prefix, cache_config) }
    }

    /// The correlation state of the updater.
    pub fn correlator(&self) -> (r: &Correlator)
        ensures
            r@ == self@,
    {
        &self.correlator
    }

    /// Drops what is no longer live at `now` from both caches. No later
    /// message is answered differently for it.
    pub fn evict_expired(&mut self, now: u64)
        ensures
            final(self)@ == old(self)@.evicted(now),
    {
        self.correlator.evict_expired(now);
    }

    /// Takes in a metadata message.
    pub fn handle_metadata_message(&mut self, topic: &str, metadata: LeakMetadata, now: u64)
        -> (r: MetadataOutcome)
        ensures
            r == old(self)@.metadata_outcome(topic@, metadata),
            final(self)@ == old(self)@.after_metadata(topic@, metadata, now),
            old(self)@.all_supported() ==> final(self)@.all_supported(),
    {
        self.correlator.record_metadata(topic, metadata, now)
    }

    /// Takes in a value message: decides whether the sink is to be called,
    /// calls it, and commits the value if and only if the sink accepted the
    /// call.
    pub fn handle_value_message(&mut self, topic: &str, msg: ValueMessage, now: u64) -> (r:
        ValueOutcome)
        ensures
            r == old(self)@.value_outcome(topic@, msg.value, now, r.delivered()),
            final(self)@ == old(self)@.after_value(topic@, msg.value, now, r.delivered()),
    {
        match self.correlator.plan_value(topic, &msg, now) {
            ValuePlan::Drop(reason) => ValueOutcome::Dropped(reason),
            ValuePlan::Deduplicate => ValueOutcome::Deduplicated,
            ValuePlan::Send { path, value, call } => {
                let sent = match call {
                    SinkCall::Insert { rack_id, report } => self.api.insert_rack_health_report(
                        rack_id.as_str(),
                        report,
                    ),
                    SinkCall::Remove { rack_id } => self.api.remove_rack_health_report(
                        rack_id.as_str(),
                    ),
                };
                self.correlator.settle_value(path, value, sent.is_ok(), now)
            },
        }
    }

    /// Takes in one message of either kind.
    pub fn handle_message(&mut self, message: &MqttMessage, now: u64) -> (r: Outcome)
        ensures
            old(self)@.admits(*message, now, r),
            final(self)@ == old(self)@.step(*message, now, r),
    {
        match message {
            MqttMessage::Metadata { topic, metadata } => Outcome::Metadata(
                self.handle_metadata_message(topic.as_str(), metadata.clone(), now),
            ),
            MqttMessage::Value { topic, value } => Outcome::Value(
                self.handle_value_message(topic.as_str(), *value, now),
            ),
        }
    }

    /// Run the health updater over the messages of `arrivals`, in their
    /// order, and return what became of each.
    pub fn run(&mut self, arrivals: &Vec<Arrival>) -> (outcomes: Vec<Outcome>)
        ensures
            old(self)@.admits_all(arrivals@, outcomes@),
            final(self)@ == old(self)@.replay(arrivals@, outcomes@),
    {
        let ghost start = self@;
        let mut outcomes: Vec<Outcome> = Vec::new();
        let mut i: usize = 0;
        while i < arrivals.len()
            invariant
                i <= arrivals@.len(),
                outcomes@.len() == i,
                start.admits_all(arrivals@.take(i as int), outcomes@),
                self@ == start.replay(arrivals@.take(i as int), outcomes@),
            decreases arrivals@.len() - i,
        {
            let ghost done = outcomes@;
            let arrival = &arrivals[i];
            let outcome = self.handle_message(&arrival.message, arrival.at);
            outcomes.push(outcome);
            i = i + 1;
            proof {
                assert(arrivals@.take(i as int).drop_last() =~= arrivals@.take(i - 1));
                assert(outcomes@.drop_last() =~= done);
            }
        }
        assert(arrivals@.take(i as int) =~= arrivals@);
        outcomes
    }
}

/// The transition rule: a value that equals the one last accepted needs no
/// call; any other value needs an insert if it is a fault and a remove if it
/// is a clear.
pub fn decide_update(current: Option<FaultValue>, incoming: FaultValue) -> (r: Option<CallKind>)
    ensures
        r == if current == Some(incoming) {
            None
        } else {
            Some(call_kind(incoming))
        },
{
    let unchanged = match current {
        Some(value) => value == incoming,
        None => false,
    };
    if unchanged {
        None
    } else {
        match incoming {
            FaultValue::Faulting => Some(CallKind::Insert),
            FaultValue::Clear => Some(CallKind::Remove),
        }
    }
}

} // verus!
