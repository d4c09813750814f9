//! Command codes sent to the device.
use vstd::prelude::*;

verus! {

pub const REQUEST_SERIAL: u16 = 0xC006;
pub const REQUEST_BATTERY: u16 = 0xC007;
pub const REQUEST_LED_CASE_COLORS: u16 = 0xC017;
pub const REQUEST_GESTURES: u16 = 0xC018;
pub const REQUEST_ANC: u16 = 0xC01E;
pub const REQUEST_EQ: u16 = 0xC01F;
pub const REQUEST_PERSONALIZED_ANC: u16 = 0xC020;
pub const REQUEST_IN_EAR_STATUS: u16 = 0xC00E;
pub const REQUEST_LATENCY_STATUS: u16 = 0xC041;
pub const REQUEST_FIRMWARE: u16 = 0xC042;
pub const REQUEST_CUSTOM_EQ: u16 = 0xC044;
pub const REQUEST_ADVANCED_EQ: u16 = 0xC04C;
pub const REQUEST_ENHANCED_BASS: u16 = 0xC04E;
pub const REQUEST_LISTENING_MODE: u16 = 0xC050;

pub const CMD_RING: u16 = 0xF002;
pub const CMD_SET_GESTURE: u16 = 0xF003;
pub const CMD_SET_IN_EAR: u16 = 0xF004;
pub const CMD_SET_LED_CASE_COLORS: u16 = 0xF00D;
pub const CMD_SET_ANC: u16 = 0xF00F;
pub const CMD_SET_EQ: u16 = 0xF010;
pub const CMD_SET_PERSONALIZED_ANC: u16 = 0xF011;
pub const CMD_START_EAR_FIT_TEST: u16 = 0xF014;
pub const CMD_SET_LISTENING_MODE: u16 = 0xF01D;
pub const CMD_SET_LATENCY: u16 = 0xF040;
pub const CMD_SET_CUSTOM_EQ: u16 = 0xF041;
pub const CMD_SET_ADVANCED_EQ_ENABLED: u16 = 0xF04F;
pub const CMD_SET_ENHANCED_BASS: u16 = 0xF051;
pub const CMD_SET_SPATIAL_AUDIO: u16 = 0xF052;

} // verus!
