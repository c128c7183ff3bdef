//! What holds of the processor over whole sequences of messages.

use vstd::prelude::*;

use crate::cache::lemma_expiry_is_final;
use crate::health_updater::{
    call_kind,
    calls_of,
    point_path,
    Arrival,
    CallKind,
    CorrelatorView,
    DropReason,
    Outcome,
    PlanView,
    ValueOutcome,
};
use crate::messages::{leak_point_type_of, FaultValue, LeakMetadata, MqttMessage};
use crate::text::without_suffix;

verus! {

/// `arrival` carries `value` on `topic`.
pub open spec fn carries(arrival: Arrival, topic: Seq<char>, value: FaultValue) -> bool {
    arrival.message matches MqttMessage::Value { topic: t, value: m } && t@ == topic && m.value
        == value
}

/// The sink refused none of the calls behind `outcomes`.
pub open spec fn none_failed(outcomes: Seq<Outcome>) -> bool {
    forall|i: int|
        0 <= i < outcomes.len() ==> !(#[trigger] outcomes[i] matches Outcome::Value(
            ValueOutcome::Failed(_),
        ))
}

/// `s` holds live metadata of a supported leak type for `path` at `now`.
pub open spec fn correlates(s: CorrelatorView, path: Seq<char>, now: u64) -> bool {
    s.metadata_at(path, now) matches Some(metadata) && leak_point_type_of(metadata.point_type@)
        is Some
}

/// The topic `prefix + path + "/Value"` names `path`, and so does
/// `prefix + path + "/Metadata"`, whatever the prefix and the path are.
pub proof fn lemma_topic_names_its_path(prefix: Seq<char>, path: Seq<char>)
    ensures
        point_path(prefix + path + "/Value"@, prefix) == Some(path),
        point_path(prefix + path + "/Metadata"@, prefix) == Some(path),
{
    reveal_strlit("/Value");
    reveal_strlit("/Metadata");
    let stem = prefix + path;
    let value_topic = stem + "/Value"@;
    let metadata_topic = stem + "/Metadata"@;
    assert(value_topic.subrange(value_topic.len() - 6, value_topic.len() as int) =~= "/Value"@);
    assert(value_topic.subrange(0, value_topic.len() - 6) =~= stem);
    assert(without_suffix(value_topic, "/Metadata"@) is None) by {
        if value_topic.len() >= 9 {
            let tail = value_topic.subrange(value_topic.len() - 9, value_topic.len() as int);
            assert(tail[8] == value_topic[value_topic.len() - 1]);
            assert(value_topic[value_topic.len() - 1] == "/Value"@[5]);
            assert("/Metadata"@[8] == 'a');
        }
    }
    assert(metadata_topic.subrange(metadata_topic.len() - 9, metadata_topic.len() as int)
        =~= "/Metadata"@);
    assert(metadata_topic.subrange(0, metadata_topic.len() - 9) =~= stem);
    assert(stem.subrange(0, prefix.len() as int) =~= prefix);
    assert(stem.subrange(prefix.len() as int, stem.len() as int) =~= path);
}

/// A topic that ends in neither `/Metadata` nor `/Value` names no path,
/// whatever the prefix is.
pub proof fn lemma_other_suffixes_name_no_path(topic: Seq<char>, prefix: Seq<char>)
    requires
        without_suffix(topic, "/Metadata"@) is None,
        without_suffix(topic, "/Value"@) is None,
    ensures
        point_path(topic, prefix) is None,
{
}

/// A value for a path without live metadata is dropped: it causes no call
/// and changes nothing.
pub proof fn lemma_value_without_metadata_is_dropped(
    s: CorrelatorView,
    topic: Seq<char>,
    value: FaultValue,
    now: u64,
    delivered: bool,
)
    requires
        point_path(topic, s.prefix) matches Some(path) && s.metadata_at(path, now) is None,
    ensures
        s.value_outcome(topic, value, now, delivered) == ValueOutcome::Dropped(
            DropReason::NoMetadata,
        ),
        s.value_outcome(topic, value, now, delivered).call() is None,
        s.after_value(topic, value, now, delivered) == s,
{
}

/// Metadata of an unsupported point type is dropped and changes nothing, so
/// whatever follows goes as if it had never arrived.
pub proof fn lemma_unsupported_metadata_changes_nothing(
    s: CorrelatorView,
    topic: Seq<char>,
    metadata: LeakMetadata,
    now: u64,
)
    requires
        leak_point_type_of(metadata.point_type@) is None,
    ensures
        s.metadata_outcome(topic, metadata) is Dropped,
        s.after_metadata(topic, metadata, now) == s,
{
}

/// Whatever messages arrive and whatever the sink answers, no metadata of an
/// unsupported point type is ever found in the state.
pub proof fn lemma_only_supported_metadata_is_kept(
    s: CorrelatorView,
    arrivals: Seq<Arrival>,
    outcomes: Seq<Outcome>,
)
    requires
        s.all_supported(),
    ensures
        s.replay(arrivals, outcomes).all_supported(),
    decreases arrivals.len(),
{
    if arrivals.len() == 0 || outcomes.len() != arrivals.len() {
    } else {
        lemma_only_supported_metadata_is_kept(s, arrivals.drop_last(), outcomes.drop_last());
    }
}

/// Where a path has no live metadata, metadata of an unsupported point type
/// leaves a later value for the path without any, and the value is dropped.
pub proof fn lemma_value_after_unsupported_metadata_is_dropped(
    s: CorrelatorView,
    metadata_topic: Seq<char>,
    metadata: LeakMetadata,
    arrived: u64,
    value_topic: Seq<char>,
    value: FaultValue,
    now: u64,
    delivered: bool,
)
    requires
        leak_point_type_of(metadata.point_type@) is None,
        point_path(value_topic, s.prefix) matches Some(path) && s.metadata_at(path, now) is None,
    ensures
        s.after_metadata(metadata_topic, metadata, arrived).value_outcome(
            value_topic,
            value,
            now,
            delivered,
        ) == ValueOutcome::Dropped(DropReason::NoMetadata),
{
}

/// Where the sink refuses the call, nothing changes. The value state of the
/// path is what it was, and the same value, arriving again while the metadata
/// is live, is sent again and not deduplicated.
pub proof fn lemma_refused_call_commits_nothing(
    s: CorrelatorView,
    topic: Seq<char>,
    value: FaultValue,
    now: u64,
    later: u64,
    delivered_later: bool,
)
    requires
        s.value_outcome(topic, value, now, false) is Failed,
        now <= later,
        correlates(s, point_path(topic, s.prefix)->0, later),
    ensures
        s.after_value(topic, value, now, false) == s,
        s.after_value(topic, value, now, false).value_outcome(
            topic,
            value,
            later,
            delivered_later,
        ).call() == Some(call_kind(value)),
{
    let path = point_path(topic, s.prefix)->0;
    if s.values.contains_key(path) {
        let entry = s.values[path];
        if entry.value == value {
            lemma_expiry_is_final(entry.written_at, s.value_state_ttl, now, later);
        }
    }
}

/// Where the sink refuses the call for a path that had no accepted value, the
/// path has none afterwards either.
pub proof fn lemma_refused_call_leaves_path_without_value(
    s: CorrelatorView,
    topic: Seq<char>,
    value: FaultValue,
    now: u64,
    at: u64,
)
    requires
        point_path(topic, s.prefix) matches Some(path) && s.value_at(path, at) is None,
    ensures
        s.after_value(topic, value, now, false).value_at(point_path(topic, s.prefix)->0, at)
            is None,
{
}

/// Eviction cannot be observed: a value that arrives at the time of an
/// eviction or later is planned as it would have been without it.
pub proof fn lemma_eviction_changes_no_plan(
    s: CorrelatorView,
    evicted_at: u64,
    topic: Seq<char>,
    value: FaultValue,
    now: u64,
)
    requires
        evicted_at <= now,
    ensures
        s.evicted(evicted_at).plan(topic, value, now) == s.plan(topic, value, now),
{
}

/// A message for one path changes nothing that a message for another path
/// reads. What is planned for the other path, and so the call
/// made for it and the rack it names, is the same before and after.
pub proof fn lemma_paths_are_independent(
    s: CorrelatorView,
    message: MqttMessage,
    arrived: u64,
    outcome: Outcome,
    other_topic: Seq<char>,
    value: FaultValue,
    now: u64,
)
    requires
        point_path(other_topic, s.prefix) != point_path(
            match message {
                MqttMessage::Metadata { topic, .. } => topic@,
                MqttMessage::Value { topic, .. } => topic@,
            },
            s.prefix,
        ),
    ensures
        s.step(message, arrived, outcome).plan(other_topic, value, now) == s.plan(
            other_topic,
            value,
            now,
        ),
{
}

/// Where the same value arrives any number of times in a row for one path, with metadata live throughout, no call refused, and all arrivals
/// within the time that an accepted value is remembered, the first arrival
/// causes the one call and every later one is deduplicated. This is stated
/// for a path whose remembered value is not already the arriving one; where it
/// is, the first arrival is deduplicated too.
pub proof fn lemma_repeated_value_is_sent_once(
    s: CorrelatorView,
    arrivals: Seq<Arrival>,
    outcomes: Seq<Outcome>,
    topic: Seq<char>,
    value: FaultValue,
)
    requires
        arrivals.len() >= 1,
        s.admits_all(arrivals, outcomes),
        none_failed(outcomes),
        point_path(topic, s.prefix) is Some,
        forall|i: int|
            0 <= i < arrivals.len() ==> carries(#[trigger] arrivals[i], topic, value)
                && correlates(s, point_path(topic, s.prefix)->0, arrivals[i].at),
        forall|i: int|
            0 <= i < arrivals.len() ==> arrivals[0].at <= (#[trigger] arrivals[i]).at
                < arrivals[0].at + s.value_state_ttl,
        s.value_at(point_path(topic, s.prefix)->0, arrivals[0].at) != Some(value),
    ensures
        outcomes[0] == Outcome::Value(ValueOutcome::Applied(call_kind(value))),
        forall|i: int|
            1 <= i < outcomes.len() ==> #[trigger] outcomes[i] == Outcome::Value(
                ValueOutcome::Deduplicated,
            ),
        calls_of(outcomes) == seq![call_kind(value)],
        s.replay(arrivals, outcomes) == s.committed(
            point_path(topic, s.prefix)->0,
            value,
            arrivals[0].at,
        ),
    decreases arrivals.len(),
{
    let path = point_path(topic, s.prefix)->0;
    let last = arrivals.last();
    let front = arrivals.drop_last();
    let done = outcomes.drop_last();
    assert(last == arrivals[arrivals.len() - 1]);
    assert(carries(last, topic, value));
    assert(outcomes.last() == outcomes[outcomes.len() - 1]);
    if arrivals.len() == 1 {
        assert(front.len() == 0);
        assert(s.replay(front, done) == s);
        assert(calls_of(done) =~= Seq::<CallKind>::empty());
        assert(calls_of(outcomes) =~= seq![call_kind(value)]);
    } else {
        assert forall|i: int| 0 <= i < front.len() implies carries(
            #[trigger] front[i],
            topic,
            value,
        ) && correlates(s, path, front[i].at) by {
            assert(front[i] == arrivals[i]);
        }
        assert forall|i: int| 0 <= i < front.len() implies front[0].at <= (#[trigger] front[i]).at
            < front[0].at + s.value_state_ttl by {
            assert(front[i] == arrivals[i]);
            assert(front[0] == arrivals[0]);
        }
        assert(none_failed(done)) by {
            assert forall|i: int| 0 <= i < done.len() implies !(#[trigger] done[i]
                matches Outcome::Value(ValueOutcome::Failed(_))) by {
                assert(done[i] == outcomes[i]);
            }
        }
        assert(front[0] == arrivals[0]);
        lemma_repeated_value_is_sent_once(s, front, done, topic, value);
        let reached = s.replay(front, done);
        assert(reached.value_at(path, last.at) == Some(value));
        assert(reached.plan(topic, value, last.at) == PlanView::Deduplicate);
        assert(outcomes.last() == Outcome::Value(ValueOutcome::Deduplicated));
        assert(s.replay(arrivals, outcomes) == reached);
        assert forall|i: int| 1 <= i < outcomes.len() implies #[trigger] outcomes[i]
            == Outcome::Value(ValueOutcome::Deduplicated) by {
            if i < done.len() {
                assert(done[i] == outcomes[i]);
            }
        }
        assert(outcomes[0] == done[0]);
    }
}

/// Fault, clear, fault for one path, with metadata live
/// throughout and no call refused, causes an insert, a remove and an insert, in
/// that order. This is stated for a path whose remembered value is not already
/// a fault; where it is, the first insert is deduplicated.
pub proof fn lemma_fault_clear_fault_is_insert_remove_insert(
    s: CorrelatorView,
    arrivals: Seq<Arrival>,
    outcomes: Seq<Outcome>,
    topic: Seq<char>,
)
    requires
        arrivals.len() == 3,
        s.admits_all(arrivals, outcomes),
        none_failed(outcomes),
        point_path(topic, s.prefix) is Some,
        carries(arrivals[0], topic, FaultValue::Faulting),
        carries(arrivals[1], topic, FaultValue::Clear),
        carries(arrivals[2], topic, FaultValue::Faulting),
        forall|i: int|
            0 <= i < 3 ==> correlates(s, point_path(topic, s.prefix)->0, (#[trigger] arrivals[i]).at),
        s.value_at(point_path(topic, s.prefix)->0, arrivals[0].at) != Some(FaultValue::Faulting),
    ensures
        calls_of(outcomes) == seq![CallKind::Insert, CallKind::Remove, CallKind::Insert],
{
    let path = point_path(topic, s.prefix)->0;
    let two = arrivals.drop_last();
    let one = two.drop_last();
    let none = one.drop_last();
    let outs_two = outcomes.drop_last();
    let outs_one = outs_two.drop_last();
    let outs_none = outs_one.drop_last();
    assert(two.last() == arrivals[1] && one.last() == arrivals[0]);
    assert(arrivals.last() == arrivals[2]);
    assert(outcomes.last() == outcomes[2] && outs_two.last() == outcomes[1] && outs_one.last()
        == outcomes[0]);
    assert(correlates(s, path, arrivals[0].at));
    assert(correlates(s, path, arrivals[1].at));
    assert(correlates(s, path, arrivals[2].at));
    assert(s.admits_all(two, outs_two));
    assert(s.admits_all(one, outs_one));
    let s0 = s.replay(none, outs_none);
    assert(s0 == s);
    let s1 = s.replay(one, outs_one);
    assert(s0.admits(arrivals[0].message, arrivals[0].at, outcomes[0]));
    assert(outcomes[0] == Outcome::Value(ValueOutcome::Applied(CallKind::Insert)));
    assert(s1 == s.committed(path, FaultValue::Faulting, arrivals[0].at));
    let s2 = s.replay(two, outs_two);
    assert(s1.admits(arrivals[1].message, arrivals[1].at, outcomes[1]));
    assert(s1.value_at(path, arrivals[1].at) != Some(FaultValue::Clear));
    assert(outcomes[1] == Outcome::Value(ValueOutcome::Applied(CallKind::Remove)));
    assert(s2 == s1.committed(path, FaultValue::Clear, arrivals[1].at));
    assert(s2.admits(arrivals[2].message, arrivals[2].at, outcomes[2]));
    assert(s2.value_at(path, arrivals[2].at) != Some(FaultValue::Faulting));
    assert(outcomes[2] == Outcome::Value(ValueOutcome::Applied(CallKind::Insert)));
    assert(calls_of(outs_none) =~= Seq::<CallKind>::empty());
    assert(calls_of(outs_one) =~= seq![CallKind::Insert]);
    assert(calls_of(outs_two) =~= seq![CallKind::Insert, CallKind::Remove]);
    assert(calls_of(outcomes) =~= seq![CallKind::Insert, CallKind::Remove, CallKind::Insert]);
}

} // verus!
