//! Message types for leak detection events published on the event bus.

use vstd::prelude::*;

use vstd::string::StringExecFns;

use crate::text::{decimal, decimal_text, signed_decimal, signed_decimal_text, str_eq};

verus! {

/// Point type identifier for leak detection events.
///
/// Variant names match the point type strings of the event bus exactly.
#[derive(Debug, Clone, Copy, PartialEq, Eq, Structural)]
#[allow(clippy::enum_variant_names)]
pub enum LeakPointType {
    /// Rack-level leak detection. Binary value: 0 = no leak, 1 = leak detected.
    LeakDetectRack,
    /// Rack-level leak sensor fault. Binary value: 0 = OK, 1 = fault.
    LeakSensorFaultRack,
    /// Rack tray leak detection. Binary value: 0 = no leak, 1 = leak detected.
    LeakDetectRackTray,
}

/// The leak point type that a point type string names, if it names one.
pub open spec fn leak_point_type_of(point_type: Seq<char>) -> Option<LeakPointType> {
    if point_type == "LeakDetectRack"@ {
        Some(LeakPointType::LeakDetectRack)
    } else if point_type == "LeakSensorFaultRack"@ {
        Some(LeakPointType::LeakSensorFaultRack)
    } else if point_type == "LeakDetectRackTray"@ {
        Some(LeakPointType::LeakDetectRackTray)
    } else {
        None
    }
}

impl LeakPointType {
    /// The point type string of this variant.
    pub open spec fn name(self) -> Seq<char> {
        match self {
            LeakPointType::LeakDetectRack => "LeakDetectRack"@,
            LeakPointType::LeakSensorFaultRack => "LeakSensorFaultRack"@,
            LeakPointType::LeakDetectRackTray => "LeakDetectRackTray"@,
        }
    }

    /// The text of the stable alert identifier of this leak type.
    pub open spec fn probe_id_text(self) -> Seq<char> {
        match self {
            LeakPointType::LeakDetectRack => "BmsLeakDetectRack"@,
            LeakPointType::LeakSensorFaultRack => "BmsLeakSensorFaultRack"@,
            LeakPointType::LeakDetectRackTray => "BmsLeakDetectRackTray"@,
        }
    }

    /// The text that describes this leak type in alert messages.
    pub open spec fn description_text(self) -> Seq<char> {
        match self {
            LeakPointType::LeakDetectRack => "Leak detected"@,
            LeakPointType::LeakSensorFaultRack => "Leak sensor fault"@,
            LeakPointType::LeakDetectRackTray => "Rack tray leak detected"@,
        }
    }

    /// Returns a human-readable description for alert messages.
    pub fn description(&self) -> (r: &'static str)
        ensures
            r@ == self.description_text(),
    {
        match self {
            LeakPointType::LeakDetectRack => "Leak detected",
            LeakPointType::LeakSensorFaultRack => "Leak sensor fault",
            LeakPointType::LeakDetectRackTray => "Rack tray leak detected",
        }
    }
}

/// Fault value of a binary point.
///
/// - For leak detection: `Clear` = no leak, `Faulting` = leak detected.
/// - For sensor fault: `Clear` = OK, `Faulting` = fault.
#[derive(Debug, Clone, Copy, PartialEq, Eq, Structural)]
pub enum FaultValue {
    /// Value is 0 (no leak / OK).
    Clear,
    /// Value is 1 (leak detected / fault).
    Faulting,
}

/// A number as it arrives on the wire, before it is known to be binary.
#[derive(Debug, Clone, Copy, PartialEq, Eq, Structural)]
pub enum WireNumber {
    /// A non-negative integer.
    Unsigned(u64),
    /// A signed integer.
    Signed(i64),
    /// A double-precision float, given by its IEEE 754 bit pattern.
    Float { bits: u64 },
}

/// The wire number was neither zero nor one.
#[derive(Debug, Clone, Copy, PartialEq, Eq, Structural)]
pub struct DecodeError {
    /// The number that was rejected.
    pub got: WireNumber,
}

impl WireNumber {
    /// How the number is named in messages: an integer in decimal notation,
    /// a float by its bits.
    pub open spec fn text(self) -> Seq<char> {
        match self {
            WireNumber::Unsigned(v) => decimal_text(v as nat),
            WireNumber::Signed(v) => signed_decimal_text(v as int),
            WireNumber::Float { bits } => "a float with bits "@ + decimal_text(bits as nat),
        }
    }
}

impl DecodeError {
    /// The text of this error.
    pub open spec fn message_text(self) -> Seq<char> {
        "invalid binary value: expected 0 or 1, got "@ + self.got.text()
    }

    /// The text of this error: what was expected and what came. The library
    /// does not write floats; it names one by its bits.
    pub fn message(&self) -> (r: String)
        ensures
            r@ == self.message_text(),
    {
        let mut r = "invalid binary value: expected 0 or 1, got ".to_owned();
        match self.got {
            WireNumber::Unsigned(v) => {
                r.append(decimal(v).as_str());
            },
            WireNumber::Signed(v) => {
                r.append(signed_decimal(v).as_str());
            },
            WireNumber::Float { bits } => {
                r.append("a float with bits ");
                r.append(decimal(bits).as_str());
                assert(r@ =~= self.message_text());
            },
        }
        r
    }
}

/// Bit pattern of the double `0.0`.
pub const POSITIVE_ZERO_BITS: u64 = 0x0000_0000_0000_0000;

/// Bit pattern of the double `-0.0`, which compares equal to `0.0`.
pub const NEGATIVE_ZERO_BITS: u64 = 0x8000_0000_0000_0000;

/// Bit pattern of the double `1.0`.
pub const ONE_BITS: u64 = 0x3FF0_0000_0000_0000;

/// The fault value that a wire number stands for, if it stands for one.
pub open spec fn decoded(n: WireNumber) -> Option<FaultValue> {
    match n {
        WireNumber::Unsigned(v) => if v == 0 {
            Some(FaultValue::Clear)
        } else if v == 1 {
            Some(FaultValue::Faulting)
        } else {
            None
        },
        WireNumber::Signed(v) => if v == 0 {
            Some(FaultValue::Clear)
        } else if v == 1 {
            Some(FaultValue::Faulting)
        } else {
            None
        },
        WireNumber::Float { bits } => if bits == POSITIVE_ZERO_BITS || bits == NEGATIVE_ZERO_BITS {
            Some(FaultValue::Clear)
        } else if bits == ONE_BITS {
            Some(FaultValue::Faulting)
        } else {
            None
        },
    }
}

impl FaultValue {
    /// The integer written on the wire for this value: 0 for `Clear`, 1 for
    /// `Faulting`.
    pub open spec fn wire(self) -> u8 {
        match self {
            FaultValue::Clear => 0,
            FaultValue::Faulting => 1,
        }
    }

    /// Encodes the value as it is written on the wire.
    pub fn to_wire(self) -> (r: u8)
        ensures
            r == self.wire(),
    {
        match self {
            FaultValue::Clear => 0,
            FaultValue::Faulting => 1,
        }
    }

    /// Decodes a wire number: zero is `Clear`, one is `Faulting`, and every
    /// other number is rejected with the number in the error.
    pub fn decode(n: WireNumber) -> (r: Result<FaultValue, DecodeError>)
        ensures
            match r {
                Ok(v) => decoded(n) == Some(v),
                Err(e) => decoded(n) is None && e.got == n,
            },
    {
        match n {
            WireNumber::Unsigned(v) => {
                if v == 0 {
                    Ok(FaultValue::Clear)
                } else if v == 1 {
                    Ok(FaultValue::Faulting)
                } else {
                    Err(DecodeError { got: n })
                }
            },
            WireNumber::Signed(v) => {
                if v == 0 {
                    Ok(FaultValue::Clear)
                } else if v == 1 {
                    Ok(FaultValue::Faulting)
                } else {
                    Err(DecodeError { got: n })
                }
            },
            WireNumber::Float { bits } => {
                if bits == POSITIVE_ZERO_BITS || bits == NEGATIVE_ZERO_BITS {
                    Ok(FaultValue::Clear)
                } else if bits == ONE_BITS {
                    Ok(FaultValue::Faulting)
                } else {
                    Err(DecodeError { got: n })
                }
            },
        }
    }
}

/// Value message for all binary points.
///
/// Published on `{prefix}{pointPath}/Value` topics.
#[derive(Debug, Clone, Copy, PartialEq, Eq, Structural)]
pub struct ValueMessage {
    /// Binary value for the point.
    pub value: FaultValue,
    /// Time of the event, in seconds since the Unix epoch.
    pub timestamp: i64,
}

/// Metadata of a leak detection point.
///
/// Published on `{prefix}{pointPath}/Metadata` topics.
#[derive(Debug)]
pub struct LeakMetadata {
    /// Canonical point type identifier.
    pub point_type: String,
    /// Canonical object type.
    pub object_type: String,
    /// Human-readable rack name as defined by the building management system.
    pub rack_name: String,
    /// Stable unique identifier for the rack.
    pub rack_id: String,
}

impl Clone for LeakMetadata {
    fn clone(&self) -> (r: Self)
        ensures
            r == *self,
    {
        LeakMetadata {
            point_type: self.point_type.clone(),
            object_type: self.object_type.clone(),
            rack_name: self.rack_name.clone(),
            rack_id: self.rack_id.clone(),
        }
    }
}

impl LeakMetadata {
    /// Check if this is a leak detection point type we care about.
    pub fn is_supported_leak_type(&self) -> (r: bool)
        ensures
            r == leak_point_type_of(self.point_type@).is_some(),
    {
        self.leak_point_type().is_some()
    }

    /// Get the leak point type enum variant.
    pub fn leak_point_type(&self) -> (r: Option<LeakPointType>)
        ensures
            r == leak_point_type_of(self.point_type@),
    {
        let point_type = self.point_type.as_str();
        if str_eq(point_type, "LeakDetectRack") {
            Some(LeakPointType::LeakDetectRack)
        } else if str_eq(point_type, "LeakSensorFaultRack") {
            Some(LeakPointType::LeakSensorFaultRack)
        } else if str_eq(point_type, "LeakDetectRackTray") {
            Some(LeakPointType::LeakDetectRackTray)
        } else {
            None
        }
    }
}

/// A message of the event bus, already told apart by its topic.
#[derive(Debug)]
pub enum MqttMessage {
    /// Metadata of the point that the topic names.
    Metadata { topic: String, metadata: LeakMetadata },
    /// A value of the point that the topic names.
    Value { topic: String, value: ValueMessage },
}

/// Every leak point type is named by its own point type string, and by no
/// other variant's.
pub proof fn lemma_name_round_trip(t: LeakPointType)
    ensures
        leak_point_type_of(t.name()) == Some(t),
{
    reveal_strlit("LeakDetectRack");
    reveal_strlit("LeakSensorFaultRack");
    reveal_strlit("LeakDetectRackTray");
    assert("LeakDetectRack"@.len() == 14);
    assert("LeakSensorFaultRack"@.len() == 19);
    assert("LeakDetectRackTray"@.len() == 18);
}

/// Encoding a fault value for the wire and decoding it again gives it back.
pub proof fn lemma_wire_round_trip(v: FaultValue)
    ensures
        decoded(WireNumber::Unsigned(v.wire() as u64)) == Some(v),
{
}

} // verus!
