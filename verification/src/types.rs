//! The values that the device reports and accepts.
use vstd::prelude::*;
use crate::gestures::{action_label, action_name, device_label, device_name, gesture_type_label, gesture_type_name};
use crate::models::ModelBase;
use crate::text::{ascii_lower, lower_eq};

verus! {

/// Charge of one battery: absent, or a percentage and whether it charges.
#[derive(Debug, Clone, Copy, PartialEq, Eq, Structural)]
pub enum BatteryReading {
    Disconnected,
    Level { percent: u8, charging: bool },
}

/// Charge of the left bud, the right bud and the case.
#[derive(Debug, Clone, Copy, PartialEq, Eq, Structural)]
pub struct BatteryStatus {
    pub left: BatteryReading,
    pub right: BatteryReading,
    pub case: BatteryReading,
}

impl BatteryStatus {
    /// All three batteries absent.
    pub open spec fn spec_empty() -> BatteryStatus {
        BatteryStatus {
            left: BatteryReading::Disconnected,
            right: BatteryReading::Disconnected,
            case: BatteryReading::Disconnected,
        }
    }

    pub fn empty() -> (s: Self)
        ensures
            s == Self::spec_empty(),
    {
        Self {
            left: BatteryReading::Disconnected,
            right: BatteryReading::Disconnected,
            case: BatteryReading::Disconnected,
        }
    }
}

#[derive(Debug, Clone, Copy, PartialEq, Eq, Structural)]
pub enum EarSide {
    Left,
    Right,
    Case,
}

/// Noise-control modes.
#[derive(Debug, Clone, Copy, PartialEq, Eq, Structural)]
pub enum AncLevel {
    Off,
    Transparency,
    NoiseCancellationLow,
    NoiseCancellationHigh,
    NoiseCancellationMid,
    NoiseCancellationAdaptive,
}

impl AncLevel {
    /// The byte the device uses for each mode.
    pub open spec fn device_byte(self) -> u8 {
        match self {
            AncLevel::Off => 0x05,
            AncLevel::Transparency => 0x07,
            AncLevel::NoiseCancellationLow => 0x03,
            AncLevel::NoiseCancellationHigh => 0x01,
            AncLevel::NoiseCancellationMid => 0x02,
            AncLevel::NoiseCancellationAdaptive => 0x04,
        }
    }

    /// The mode a device byte stands for, if any.
    pub open spec fn of_device_byte(value: u8) -> Option<AncLevel> {
        if value == 0x05 {
            Some(AncLevel::Off)
        } else if value == 0x07 {
            Some(AncLevel::Transparency)
        } else if value == 0x03 {
            Some(AncLevel::NoiseCancellationLow)
        } else if value == 0x01 {
            Some(AncLevel::NoiseCancellationHigh)
        } else if value == 0x02 {
            Some(AncLevel::NoiseCancellationMid)
        } else if value == 0x04 {
            Some(AncLevel::NoiseCancellationAdaptive)
        } else {
            None
        }
    }

    pub fn from_device(value: u8) -> (r: Option<Self>)
        ensures
            r == Self::of_device_byte(value),
    {
        match value {
            0x05 => Some(Self::Off),
            0x07 => Some(Self::Transparency),
            0x03 => Some(Self::NoiseCancellationLow),
            0x01 => Some(Self::NoiseCancellationHigh),
            0x02 => Some(Self::NoiseCancellationMid),
            0x04 => Some(Self::NoiseCancellationAdaptive),
            _ => None,
        }
    }

    pub fn to_device(self) -> (r: u8)
        ensures
            r == self.device_byte(),
    {
        match self {
            AncLevel::Off => 0x05,
            AncLevel::Transparency => 0x07,
            AncLevel::NoiseCancellationLow => 0x03,
            AncLevel::NoiseCancellationHigh => 0x01,
            AncLevel::NoiseCancellationMid => 0x02,
            AncLevel::NoiseCancellationAdaptive => 0x04,
        }
    }

    /// The short name of each mode, as it is shown to users.
    pub open spec fn spec_label(self) -> &'static str {
        match self {
            AncLevel::Off => "off",
            AncLevel::Transparency => "transparency",
            AncLevel::NoiseCancellationLow => "nc-low",
            AncLevel::NoiseCancellationHigh => "nc-high",
            AncLevel::NoiseCancellationMid => "nc-mid",
            AncLevel::NoiseCancellationAdaptive => "adaptive",
        }
    }

    /// The short name of the mode, as it is shown to users.
    pub fn label(self) -> (r: &'static str)
        ensures
            r == self.spec_label(),
    {
        match self {
            AncLevel::Off => "off",
            AncLevel::Transparency => "transparency",
            AncLevel::NoiseCancellationLow => "nc-low",
            AncLevel::NoiseCancellationHigh => "nc-high",
            AncLevel::NoiseCancellationMid => "nc-mid",
            AncLevel::NoiseCancellationAdaptive => "adaptive",
        }
    }

    /// The mode a user-given name stands for, compared without regard to the
    /// case of ASCII letters. (No character outside ASCII lower-cases to the
    /// letters of these names, so Unicode lower-casing accepts the same
    /// names.)
    pub open spec fn of_name(s: Seq<char>) -> Option<AncLevel> {
        let l = ascii_lower(s);
        if l == "off"@ {
            Some(AncLevel::Off)
        } else if l == "transparency"@ || l == "transparent"@ {
            Some(AncLevel::Transparency)
        } else if l == "nc-low"@ || l == "low"@ {
            Some(AncLevel::NoiseCancellationLow)
        } else if l == "nc-high"@ || l == "high"@ {
            Some(AncLevel::NoiseCancellationHigh)
        } else if l == "nc-mid"@ || l == "mid"@ {
            Some(AncLevel::NoiseCancellationMid)
        } else if l == "adaptive"@ {
            Some(AncLevel::NoiseCancellationAdaptive)
        } else {
            None
        }
    }

    /// Parses a user-given mode name; letters may be in either case.
    pub fn parse_name(s: &str) -> (r: Result<AncLevel, &'static str>)
        ensures
            r == (match Self::of_name(s@) {
                Some(l) => Ok(l),
                None => Err("invalid ANC level"),
            }),
    {
        if lower_eq(s, "off") {
            Ok(AncLevel::Off)
        } else if lower_eq(s, "transparency") || lower_eq(s, "transparent") {
            Ok(AncLevel::Transparency)
        } else if lower_eq(s, "nc-low") || lower_eq(s, "low") {
            Ok(AncLevel::NoiseCancellationLow)
        } else if lower_eq(s, "nc-high") || lower_eq(s, "high") {
            Ok(AncLevel::NoiseCancellationHigh)
        } else if lower_eq(s, "nc-mid") || lower_eq(s, "mid") {
            Ok(AncLevel::NoiseCancellationMid)
        } else if lower_eq(s, "adaptive") {
            Ok(AncLevel::NoiseCancellationAdaptive)
        } else {
            Err("invalid ANC level")
        }
    }
}

impl core::str::FromStr for AncLevel {
    type Err = &'static str;

    fn from_str(s: &str) -> (r: Result<Self, Self::Err>)
        ensures
            r == (match AncLevel::of_name(s@) {
                Some(l) => Ok(l),
                None => Err("invalid ANC level"),
            }),
    {
        AncLevel::parse_name(s)
    }
}

/// Every mode is read back from its device byte, and every byte that names a
/// mode is that mode's byte.
pub proof fn lemma_anc_device_byte_round_trip(level: AncLevel, value: u8)
    ensures
        AncLevel::of_device_byte(level.device_byte()) == Some(level),
        AncLevel::of_device_byte(value) matches Some(l) ==> l.device_byte() == value,
{
}

/// The noise-control bytes of the protocol: 0x01 high, 0x02 middle and 0x03
/// low noise cancellation, 0x04 adaptive, 0x05 off and 0x07 transparency;
/// every other byte names no mode. Each mode is sent as its own byte, and a
/// mode that a user names is sent as the byte of that name.
pub proof fn lemma_anc_device_table(value: u8, level: AncLevel, name: Seq<char>)
    ensures
        AncLevel::of_device_byte(value) == (if value == 0x01 {
            Some(AncLevel::NoiseCancellationHigh)
        } else if value == 0x02 {
            Some(AncLevel::NoiseCancellationMid)
        } else if value == 0x03 {
            Some(AncLevel::NoiseCancellationLow)
        } else if value == 0x04 {
            Some(AncLevel::NoiseCancellationAdaptive)
        } else if value == 0x05 {
            Some(AncLevel::Off)
        } else if value == 0x07 {
            Some(AncLevel::Transparency)
        } else {
            None
        }),
        (level.device_byte() == 0x05u8) == (level == AncLevel::Off),
        (level.device_byte() == 0x07u8) == (level == AncLevel::Transparency),
        (level.device_byte() == 0x03u8) == (level == AncLevel::NoiseCancellationLow),
        (level.device_byte() == 0x01u8) == (level == AncLevel::NoiseCancellationHigh),
        (level.device_byte() == 0x02u8) == (level == AncLevel::NoiseCancellationMid),
        (level.device_byte() == 0x04u8) == (level == AncLevel::NoiseCancellationAdaptive),
        (ascii_lower(name) == "off"@) ==> (AncLevel::of_name(name) matches Some(l) && l.device_byte() == 0x05u8),
        (ascii_lower(name) == "transparency"@ || ascii_lower(name) == "transparent"@) ==> (AncLevel::of_name(name) matches Some(l) && l.device_byte() == 0x07u8),
        (ascii_lower(name) == "nc-low"@ || ascii_lower(name) == "low"@) ==> (AncLevel::of_name(name) matches Some(l) && l.device_byte() == 0x03u8),
        (ascii_lower(name) == "nc-high"@ || ascii_lower(name) == "high"@) ==> (AncLevel::of_name(name) matches Some(l) && l.device_byte() == 0x01u8),
        (ascii_lower(name) == "nc-mid"@ || ascii_lower(name) == "mid"@) ==> (AncLevel::of_name(name) matches Some(l) && l.device_byte() == 0x02u8),
        (ascii_lower(name) == "adaptive"@) ==> (AncLevel::of_name(name) matches Some(l) && l.device_byte() == 0x04u8),
{
    reveal_strlit("off");
    reveal_strlit("transparency");
    reveal_strlit("transparent");
    reveal_strlit("nc-low");
    reveal_strlit("low");
    reveal_strlit("nc-high");
    reveal_strlit("high");
    reveal_strlit("nc-mid");
    reveal_strlit("mid");
    reveal_strlit("adaptive");
    assert("off"@[0] != "transparency"@[0]);
    assert("off"@[0] != "transparent"@[0]);
    assert("off"@[0] != "nc-low"@[0]);
    assert("off"@[0] != "low"@[0]);
    assert("off"@[0] != "nc-high"@[0]);
    assert("off"@[0] != "high"@[0]);
    assert("off"@[0] != "nc-mid"@[0]);
    assert("off"@[0] != "mid"@[0]);
    assert("off"@[0] != "adaptive"@[0]);
    assert("transparency"@[10] != "transparent"@[10]);
    assert("transparency"@[0] != "nc-low"@[0]);
    assert("transparency"@[0] != "low"@[0]);
    assert("transparency"@[0] != "nc-high"@[0]);
    assert("transparency"@[0] != "high"@[0]);
    assert("transparency"@[0] != "nc-mid"@[0]);
    assert("transparency"@[0] != "mid"@[0]);
    assert("transparency"@[0] != "adaptive"@[0]);
    assert("transparent"@[0] != "nc-low"@[0]);
    assert("transparent"@[0] != "low"@[0]);
    assert("transparent"@[0] != "nc-high"@[0]);
    assert("transparent"@[0] != "high"@[0]);
    assert("transparent"@[0] != "nc-mid"@[0]);
    assert("transparent"@[0] != "mid"@[0]);
    assert("transparent"@[0] != "adaptive"@[0]);
    assert("nc-low"@[0] != "low"@[0]);
    assert("nc-low"@[3] != "nc-high"@[3]);
    assert("nc-low"@[0] != "high"@[0]);
    assert("nc-low"@[3] != "nc-mid"@[3]);
    assert("nc-low"@[0] != "mid"@[0]);
    assert("nc-low"@[0] != "adaptive"@[0]);
    assert("low"@[0] != "nc-high"@[0]);
    assert("low"@[0] != "high"@[0]);
    assert("low"@[0] != "nc-mid"@[0]);
    assert("low"@[0] != "mid"@[0]);
    assert("low"@[0] != "adaptive"@[0]);
    assert("nc-high"@[0] != "high"@[0]);
    assert("nc-high"@[3] != "nc-mid"@[3]);
    assert("nc-high"@[0] != "mid"@[0]);
    assert("nc-high"@[0] != "adaptive"@[0]);
    assert("high"@[0] != "nc-mid"@[0]);
    assert("high"@[0] != "mid"@[0]);
    assert("high"@[0] != "adaptive"@[0]);
    assert("nc-mid"@[0] != "mid"@[0]);
    assert("nc-mid"@[0] != "adaptive"@[0]);
    assert("mid"@[0] != "adaptive"@[0]);
}

impl EarSide {
    /// The name of each side, as it is shown to users.
    pub open spec fn spec_label(self) -> &'static str {
        match self {
            EarSide::Left => "left",
            EarSide::Right => "right",
            EarSide::Case => "case",
        }
    }

    /// The name of the side, as it is shown to users.
    pub fn label(self) -> (r: &'static str)
        ensures
            r == self.spec_label(),
    {
        match self {
            EarSide::Left => "left",
            EarSide::Right => "right",
            EarSide::Case => "case",
        }
    }

    /// The side a user-given name stands for, compared without regard to the
    /// case of ASCII letters.
    pub open spec fn of_name(s: Seq<char>) -> Option<EarSide> {
        let l = ascii_lower(s);
        if l == "left"@ {
            Some(EarSide::Left)
        } else if l == "right"@ {
            Some(EarSide::Right)
        } else if l == "case"@ {
            Some(EarSide::Case)
        } else {
            None
        }
    }

    /// Parses a user-given side name; letters may be in either case.
    pub fn parse_name(s: &str) -> (r: Result<EarSide, &'static str>)
        ensures
            r == (match Self::of_name(s@) {
                Some(side) => Ok(side),
                None => Err("invalid ear side"),
            }),
    {
        if lower_eq(s, "left") {
            Ok(EarSide::Left)
        } else if lower_eq(s, "right") {
            Ok(EarSide::Right)
        } else if lower_eq(s, "case") {
            Ok(EarSide::Case)
        } else {
            Err("invalid ear side")
        }
    }
}

/// The sides are named "left", "right" and "case", read back in either case
/// of ASCII letters; no other name stands for a side.
pub proof fn lemma_side_names(side: EarSide, name: Seq<char>)
    ensures
        (EarSide::of_name(name) == Some(EarSide::Left)) == (ascii_lower(name) == "left"@),
        (EarSide::of_name(name) == Some(EarSide::Right)) == (ascii_lower(name) == "right"@),
        (EarSide::of_name(name) == Some(EarSide::Case)) == (ascii_lower(name) == "case"@),
        (side.spec_label() == "left") == (side == EarSide::Left),
        (side.spec_label() == "right") == (side == EarSide::Right),
        (side.spec_label() == "case") == (side == EarSide::Case),
{
    reveal_strlit("left");
    reveal_strlit("right");
    reveal_strlit("case");
    assert("left"@[0] != "right"@[0]);
    assert("left"@[0] != "case"@[0]);
    assert("right"@[0] != "case"@[0]);
}

impl core::str::FromStr for EarSide {
    type Err = &'static str;

    fn from_str(s: &str) -> (r: Result<Self, Self::Err>)
        ensures
            r == (match EarSide::of_name(s@) {
                Some(side) => Ok(side),
                None => Err("invalid ear side"),
            }),
    {
        EarSide::parse_name(s)
    }
}


/// A label is its own lower-case form.
proof fn lemma_lower_label(s: Seq<char>)
    requires
        forall|i: int| 0 <= i < s.len() ==> !('A' <= #[trigger] s[i] && s[i] <= 'Z'),
    ensures
        ascii_lower(s) == s,
{
    assert(ascii_lower(s) =~= s);
}

/// The name under which each mode is shown is read back as that mode.
pub proof fn lemma_anc_label_round_trip(level: AncLevel)
    ensures
        AncLevel::of_name(level.spec_label()@) == Some(level),
{
    reveal_strlit("off");
    reveal_strlit("transparency");
    reveal_strlit("transparent");
    reveal_strlit("nc-low");
    reveal_strlit("low");
    reveal_strlit("nc-high");
    reveal_strlit("high");
    reveal_strlit("nc-mid");
    reveal_strlit("mid");
    reveal_strlit("adaptive");
    lemma_lower_label("off"@);
    lemma_lower_label("transparency"@);
    lemma_lower_label("nc-low"@);
    lemma_lower_label("nc-high"@);
    lemma_lower_label("nc-mid"@);
    lemma_lower_label("adaptive"@);
    assert("off"@[0] != "transparency"@[0]);
    assert("off"@[0] != "transparent"@[0]);
    assert("off"@[0] != "nc-low"@[0]);
    assert("off"@[0] != "low"@[0]);
    assert("off"@[0] != "nc-high"@[0]);
    assert("off"@[0] != "high"@[0]);
    assert("off"@[0] != "nc-mid"@[0]);
    assert("off"@[0] != "mid"@[0]);
    assert("off"@[0] != "adaptive"@[0]);
    assert("transparency"@[10] != "transparent"@[10]);
    assert("transparency"@[0] != "nc-low"@[0]);
    assert("transparency"@[0] != "low"@[0]);
    assert("transparency"@[0] != "nc-high"@[0]);
    assert("transparency"@[0] != "high"@[0]);
    assert("transparency"@[0] != "nc-mid"@[0]);
    assert("transparency"@[0] != "mid"@[0]);
    assert("transparency"@[0] != "adaptive"@[0]);
    assert("transparent"@[0] != "nc-low"@[0]);
    assert("transparent"@[0] != "low"@[0]);
    assert("transparent"@[0] != "nc-high"@[0]);
    assert("transparent"@[0] != "high"@[0]);
    assert("transparent"@[0] != "nc-mid"@[0]);
    assert("transparent"@[0] != "mid"@[0]);
    assert("transparent"@[0] != "adaptive"@[0]);
    assert("nc-low"@[0] != "low"@[0]);
    assert("nc-low"@[3] != "nc-high"@[3]);
    assert("nc-low"@[0] != "high"@[0]);
    assert("nc-low"@[3] != "nc-mid"@[3]);
    assert("nc-low"@[0] != "mid"@[0]);
    assert("nc-low"@[0] != "adaptive"@[0]);
    assert("low"@[0] != "nc-high"@[0]);
    assert("low"@[0] != "high"@[0]);
    assert("low"@[0] != "nc-mid"@[0]);
    assert("low"@[0] != "mid"@[0]);
    assert("low"@[0] != "adaptive"@[0]);
    assert("nc-high"@[0] != "high"@[0]);
    assert("nc-high"@[3] != "nc-mid"@[3]);
    assert("nc-high"@[0] != "mid"@[0]);
    assert("nc-high"@[0] != "adaptive"@[0]);
    assert("high"@[0] != "nc-mid"@[0]);
    assert("high"@[0] != "mid"@[0]);
    assert("high"@[0] != "adaptive"@[0]);
    assert("nc-mid"@[0] != "mid"@[0]);
    assert("nc-mid"@[0] != "adaptive"@[0]);
    assert("mid"@[0] != "adaptive"@[0]);
}

/// The name under which each side is shown is read back as that side.
pub proof fn lemma_side_label_round_trip(side: EarSide)
    ensures
        EarSide::of_name(side.spec_label()@) == Some(side),
{
    reveal_strlit("left");
    reveal_strlit("right");
    reveal_strlit("case");
    lemma_lower_label("left"@);
    lemma_lower_label("right"@);
    lemma_lower_label("case"@);
    assert("left"@[0] != "right"@[0]);
    assert("left"@[0] != "case"@[0]);
    assert("right"@[0] != "case"@[0]);
}

#[derive(Debug, Clone, Copy, PartialEq, Eq, Structural)]
pub struct EqMode {
    pub mode: u8,
}

#[derive(Debug, Clone, Copy, PartialEq, Eq, Structural)]
pub struct EnhancedBassState {
    pub enabled: bool,
    pub level: u8,
}

#[derive(Debug, Clone, Copy, PartialEq, Eq, Structural)]
pub struct PersonalizedAncState {
    pub enabled: bool,
}

#[derive(Debug, Clone, Copy, PartialEq, Eq, Structural)]
pub struct LatencyState {
    pub low_latency_enabled: bool,
}

#[derive(Debug, Clone, Copy, PartialEq, Eq, Structural)]
pub struct InEarState {
    pub detection_enabled: bool,
}

#[derive(Debug, Clone)]
pub struct FirmwareInfo {
    pub version: String,
}

#[derive(Debug, Clone, Copy, PartialEq, Eq, Structural)]
pub struct EarFitResult {
    pub left: u8,
    pub right: u8,
}

#[derive(Debug, Clone, Copy, PartialEq, Eq, Structural)]
pub struct GestureSlot {
    pub device: u8,
    pub common: u8,
    pub gesture_type: u8,
    pub action: u8,
}

/// A gesture slot decorated with decoded names. Unknown codes carry no name,
/// so new devices degrade to the raw fields.
#[derive(Debug, Clone, Copy)]
pub struct GestureSlotNamed {
    pub slot: GestureSlot,
    pub device_name: Option<&'static str>,
    pub gesture_name: Option<&'static str>,
    pub action_name: Option<&'static str>,
}

impl GestureSlotNamed {
    /// `slot` with the names of its codes.
    pub open spec fn spec_named(slot: GestureSlot) -> GestureSlotNamed {
        GestureSlotNamed {
            slot,
            device_name: device_label(slot.device),
            gesture_name: gesture_type_label(slot.gesture_type),
            action_name: action_label(slot.action),
        }
    }
}

impl From<GestureSlot> for GestureSlotNamed {
    fn from(slot: GestureSlot) -> (r: Self) {
        Self {
            device_name: device_name(slot.device),
            gesture_name: gesture_type_name(slot.gesture_type),
            action_name: action_name(slot.action),
            slot,
        }
    }
}

impl vstd::std_specs::convert::FromSpecImpl<GestureSlot> for GestureSlotNamed {
    open spec fn obeys_from_spec() -> bool {
        true
    }

    open spec fn from_spec(slot: GestureSlot) -> GestureSlotNamed {
        GestureSlotNamed::spec_named(slot)
    }
}

#[derive(Debug, Clone, Copy)]
pub struct LedColor(pub [u8; 3]);

#[derive(Debug, Clone)]
pub struct LedColorSet {
    pub pixels: Vec<LedColor>,
}

#[derive(Debug, Clone)]
pub struct SerialIdentity {
    pub serial_number: Option<String>,
    pub sku: Option<String>,
    pub model_id: Option<String>,
}

#[derive(Debug, Clone)]
pub struct ModelSummary {
    pub id: Option<String>,
    pub name: Option<String>,
    pub sku: Option<String>,
    pub serial_number: Option<String>,
    pub base: ModelBase,
}

} // verus!
