//! Command codes of the frames the device answers with.
use vstd::prelude::*;

verus! {

pub const SERIAL: u16 = 0x4006;
pub const BATTERY_PRIMARY: u16 = 0xE001;
pub const BATTERY_SECONDARY: u16 = 0x4007;
pub const ANC_PRIMARY: u16 = 0xE003;
pub const ANC_SECONDARY: u16 = 0x401E;
pub const EQ_PRIMARY: u16 = 0x401F;
pub const EQ_LISTENING_MODE: u16 = 0x4050;
pub const FIRMWARE: u16 = 0x4042;
pub const CUSTOM_EQ: u16 = 0x4044;
pub const ADVANCED_EQ: u16 = 0x404C;
pub const ENHANCED_BASS: u16 = 0x404E;
pub const LED_CASE_COLORS: u16 = 0x4017;
pub const GESTURES: u16 = 0x4018;
pub const PERSONALIZED_ANC: u16 = 0x4020;
pub const IN_EAR: u16 = 0x400E;
pub const LATENCY: u16 = 0x4041;
pub const EAR_FIT_RESULT: u16 = 0xE00D;

} // verus!
