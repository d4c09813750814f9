//! Human-readable names for the raw gesture codes.
//!
//! The gesture_type codes are shared across tap- and pinch-based models, so
//! the names here stay neutral ("double" rather than "double pinch").
use vstd::prelude::*;
use crate::text::str_eq;

verus! {

/// Name of the device byte of a gesture slot (the same ids as the battery
/// device ids).
pub open spec fn device_label(device: u8) -> Option<&'static str> {
    if device == 0x02 {
        Some("left")
    } else if device == 0x03 {
        Some("right")
    } else if device == 0x04 {
        Some("case")
    } else {
        None
    }
}

/// Device byte named by `name`.
pub open spec fn device_of_label(name: Seq<char>) -> Option<u8> {
    if name == "left"@ {
        Some(0x02u8)
    } else if name == "right"@ {
        Some(0x03u8)
    } else if name == "case"@ {
        Some(0x04u8)
    } else {
        None
    }
}

/// device byte in a gesture slot; matches the battery device ids.
pub fn device_name(device: u8) -> (r: Option<&'static str>)
    ensures
        r == device_label(device),
{
    match device {
        0x02 => Some("left"),
        0x03 => Some("right"),
        0x04 => Some("case"),
        _ => None,
    }
}

pub fn device_code(name: &str) -> (r: Option<u8>)
    ensures
        r == device_of_label(name@),
{
    if str_eq(name, "left") {
        Some(0x02)
    } else if str_eq(name, "right") {
        Some(0x03)
    } else if str_eq(name, "case") {
        Some(0x04)
    } else {
        None
    }
}


/// Name of a gesture type code.
pub open spec fn gesture_type_label(gesture_type: u8) -> Option<&'static str> {
    if gesture_type == 2 {
        Some("double")
    } else if gesture_type == 3 {
        Some("triple")
    } else if gesture_type == 7 {
        Some("hold")
    } else if gesture_type == 9 {
        Some("double_hold")
    } else {
        None
    }
}

/// Gesture type code named by `name`.
pub open spec fn gesture_type_of_label(name: Seq<char>) -> Option<u8> {
    if name == "double"@ {
        Some(2u8)
    } else if name == "triple"@ {
        Some(3u8)
    } else if name == "hold"@ {
        Some(7u8)
    } else if name == "double_hold"@ {
        Some(9u8)
    } else {
        None
    }
}

/// Name of an action code. Actions 10/20/21/22 are all "noise control"; the
/// suffix says which modes the gesture cycles through (anc / transparency / off).
pub open spec fn action_label(action: u8) -> Option<&'static str> {
    if action == 1 {
        Some("none")
    } else if action == 8 {
        Some("skip_back")
    } else if action == 9 {
        Some("skip_forward")
    } else if action == 10 {
        Some("noise_control_all")
    } else if action == 11 {
        Some("voice_assistant")
    } else if action == 18 {
        Some("volume_up")
    } else if action == 19 {
        Some("volume_down")
    } else if action == 20 {
        Some("noise_control_anc_off")
    } else if action == 21 {
        Some("noise_control_transparency_off")
    } else if action == 22 {
        Some("noise_control_anc_transparency")
    } else {
        None
    }
}

/// Action code named by `name`.
pub open spec fn action_of_label(name: Seq<char>) -> Option<u8> {
    if name == "none"@ {
        Some(1u8)
    } else if name == "skip_back"@ {
        Some(8u8)
    } else if name == "skip_forward"@ {
        Some(9u8)
    } else if name == "noise_control_all"@ {
        Some(10u8)
    } else if name == "voice_assistant"@ {
        Some(11u8)
    } else if name == "volume_up"@ {
        Some(18u8)
    } else if name == "volume_down"@ {
        Some(19u8)
    } else if name == "noise_control_anc_off"@ {
        Some(20u8)
    } else if name == "noise_control_transparency_off"@ {
        Some(21u8)
    } else if name == "noise_control_anc_transparency"@ {
        Some(22u8)
    } else {
        None
    }
}

pub fn gesture_type_name(gesture_type: u8) -> (r: Option<&'static str>)
    ensures
        r == gesture_type_label(gesture_type),
{
    match gesture_type {
        2 => Some("double"),
        3 => Some("triple"),
        7 => Some("hold"),
        9 => Some("double_hold"),
        _ => None,
    }
}

pub fn gesture_type_code(name: &str) -> (r: Option<u8>)
    ensures
        r == gesture_type_of_label(name@),
{
    if str_eq(name, "double") {
        Some(2)
    } else if str_eq(name, "triple") {
        Some(3)
    } else if str_eq(name, "hold") {
        Some(7)
    } else if str_eq(name, "double_hold") {
        Some(9)
    } else {
        None
    }
}

/// Actions 10/20/21/22 are all "noise control"; the suffix says which modes
/// the gesture cycles through (anc / transparency / off).
pub fn action_name(action: u8) -> (r: Option<&'static str>)
    ensures
        r == action_label(action),
{
    match action {
        1 => Some("none"),
        8 => Some("skip_back"),
        9 => Some("skip_forward"),
        10 => Some("noise_control_all"),
        11 => Some("voice_assistant"),
        18 => Some("volume_up"),
        19 => Some("volume_down"),
        20 => Some("noise_control_anc_off"),
        21 => Some("noise_control_transparency_off"),
        22 => Some("noise_control_anc_transparency"),
        _ => None,
    }
}

pub fn action_code(name: &str) -> (r: Option<u8>)
    ensures
        r == action_of_label(name@),
{
    if str_eq(name, "none") {
        Some(1)
    } else if str_eq(name, "skip_back") {
        Some(8)
    } else if str_eq(name, "skip_forward") {
        Some(9)
    } else if str_eq(name, "noise_control_all") {
        Some(10)
    } else if str_eq(name, "voice_assistant") {
        Some(11)
    } else if str_eq(name, "volume_up") {
        Some(18)
    } else if str_eq(name, "volume_down") {
        Some(19)
    } else if str_eq(name, "noise_control_anc_off") {
        Some(20)
    } else if str_eq(name, "noise_control_transparency_off") {
        Some(21)
    } else if str_eq(name, "noise_control_anc_transparency") {
        Some(22)
    } else {
        None
    }
}

/// Every named device byte is found again from its name, and every name that
/// is found names that byte.
pub proof fn lemma_device_names_round_trip(device: u8, name: Seq<char>)
    ensures
        device_label(device) matches Some(n) ==> device_of_label(n@) == Some(device),
        device_of_label(name) matches Some(d) ==> device_label(d) matches Some(n) && n@ == name,
{
    reveal_strlit("left");
    reveal_strlit("right");
    reveal_strlit("case");
    assert("left"@[0] != "right"@[0]);
    assert("left"@[0] != "case"@[0]);
    assert("right"@[0] != "case"@[0]);
}

/// Every named gesture type is found again from its name, and every name
/// that is found names that gesture type.
pub proof fn lemma_gesture_type_names_round_trip(gesture_type: u8, name: Seq<char>)
    ensures
        gesture_type_label(gesture_type) matches Some(n) ==> gesture_type_of_label(n@) == Some(
            gesture_type,
        ),
        gesture_type_of_label(name) matches Some(g) ==> gesture_type_label(g) matches Some(n)
            && n@ == name,
{
    reveal_strlit("double");
    reveal_strlit("triple");
    reveal_strlit("hold");
    reveal_strlit("double_hold");
    assert("double"@[0] != "triple"@[0]);
    assert("double"@[0] != "hold"@[0]);
    assert("double"@.len() != "double_hold"@.len());
    assert("triple"@[0] != "hold"@[0]);
    assert("triple"@[0] != "double_hold"@[0]);
    assert("hold"@[0] != "double_hold"@[0]);
}

/// Every named action is found again from its name, and every name that is
/// found names that action.
pub proof fn lemma_action_names_round_trip(action: u8, name: Seq<char>)
    ensures
        action_label(action) matches Some(n) ==> action_of_label(n@) == Some(action),
        action_of_label(name) matches Some(a) ==> action_label(a) matches Some(n) && n@ == name,
{
    reveal_strlit("none");
    reveal_strlit("skip_back");
    reveal_strlit("skip_forward");
    reveal_strlit("noise_control_all");
    reveal_strlit("voice_assistant");
    reveal_strlit("volume_up");
    reveal_strlit("volume_down");
    reveal_strlit("noise_control_anc_off");
    reveal_strlit("noise_control_transparency_off");
    reveal_strlit("noise_control_anc_transparency");
    assert("none"@[0] != "skip_back"@[0]);
    assert("none"@[0] != "skip_forward"@[0]);
    assert("none"@[2] != "noise_control_all"@[2]);
    assert("none"@[0] != "voice_assistant"@[0]);
    assert("none"@[0] != "volume_up"@[0]);
    assert("none"@[0] != "volume_down"@[0]);
    assert("none"@[2] != "noise_control_anc_off"@[2]);
    assert("none"@[2] != "noise_control_transparency_off"@[2]);
    assert("none"@[2] != "noise_control_anc_transparency"@[2]);
    assert("skip_back"@[5] != "skip_forward"@[5]);
    assert("skip_back"@[0] != "noise_control_all"@[0]);
    assert("skip_back"@[0] != "voice_assistant"@[0]);
    assert("skip_back"@[0] != "volume_up"@[0]);
    assert("skip_back"@[0] != "volume_down"@[0]);
    assert("skip_back"@[0] != "noise_control_anc_off"@[0]);
    assert("skip_back"@[0] != "noise_control_transparency_off"@[0]);
    assert("skip_back"@[0] != "noise_control_anc_transparency"@[0]);
    assert("skip_forward"@[0] != "noise_control_all"@[0]);
    assert("skip_forward"@[0] != "voice_assistant"@[0]);
    assert("skip_forward"@[0] != "volume_up"@[0]);
    assert("skip_forward"@[0] != "volume_down"@[0]);
    assert("skip_forward"@[0] != "noise_control_anc_off"@[0]);
    assert("skip_forward"@[0] != "noise_control_transparency_off"@[0]);
    assert("skip_forward"@[0] != "noise_control_anc_transparency"@[0]);
    assert("noise_control_all"@[0] != "voice_assistant"@[0]);
    assert("noise_control_all"@[0] != "volume_up"@[0]);
    assert("noise_control_all"@[0] != "volume_down"@[0]);
    assert("noise_control_all"@[15] != "noise_control_anc_off"@[15]);
    assert("noise_control_all"@[14] != "noise_control_transparency_off"@[14]);
    assert("noise_control_all"@[15] != "noise_control_anc_transparency"@[15]);
    assert("voice_assistant"@[2] != "volume_up"@[2]);
    assert("voice_assistant"@[2] != "volume_down"@[2]);
    assert("voice_assistant"@[0] != "noise_control_anc_off"@[0]);
    assert("voice_assistant"@[0] != "noise_control_transparency_off"@[0]);
    assert("voice_assistant"@[0] != "noise_control_anc_transparency"@[0]);
    assert("volume_up"@[7] != "volume_down"@[7]);
    assert("volume_up"@[0] != "noise_control_anc_off"@[0]);
    assert("volume_up"@[0] != "noise_control_transparency_off"@[0]);
    assert("volume_up"@[0] != "noise_control_anc_transparency"@[0]);
    assert("volume_down"@[0] != "noise_control_anc_off"@[0]);
    assert("volume_down"@[0] != "noise_control_transparency_off"@[0]);
    assert("volume_down"@[0] != "noise_control_anc_transparency"@[0]);
    assert("noise_control_anc_off"@[14] != "noise_control_transparency_off"@[14]);
    assert("noise_control_anc_off"@[18] != "noise_control_anc_transparency"@[18]);
    assert("noise_control_transparency_off"@[14] != "noise_control_anc_transparency"@[14]);
}

/// The device bytes of a gesture slot: 2 the left bud, 3 the right bud, 4 the case; no other byte has a name.
/// A name is read back as exactly its code.
pub proof fn lemma_device_table(device: u8, name: Seq<char>)
    ensures
        device_label(device) == (if device == 2 {
            Some("left")
        } else if device == 3 {
            Some("right")
        } else if device == 4 {
            Some("case")
        } else {
            None
        }),
        name == "left"@ ==> device_of_label(name) == Some(2u8),
        name == "right"@ ==> device_of_label(name) == Some(3u8),
        name == "case"@ ==> device_of_label(name) == Some(4u8),
        (name != "left"@ && name != "right"@ && name != "case"@) ==> device_of_label(name) is None,
{
    reveal_strlit("left");
    reveal_strlit("right");
    reveal_strlit("case");
    assert("left"@[0] != "right"@[0]);
    assert("left"@[0] != "case"@[0]);
    assert("right"@[0] != "case"@[0]);
}

/// The gesture type codes: 2 double, 3 triple, 7 hold, 9 double hold; no other code has a name.
/// A name is read back as exactly its code.
pub proof fn lemma_gesture_type_table(gesture_type: u8, name: Seq<char>)
    ensures
        gesture_type_label(gesture_type) == (if gesture_type == 2 {
            Some("double")
        } else if gesture_type == 3 {
            Some("triple")
        } else if gesture_type == 7 {
            Some("hold")
        } else if gesture_type == 9 {
            Some("double_hold")
        } else {
            None
        }),
        name == "double"@ ==> gesture_type_of_label(name) == Some(2u8),
        name == "triple"@ ==> gesture_type_of_label(name) == Some(3u8),
        name == "hold"@ ==> gesture_type_of_label(name) == Some(7u8),
        name == "double_hold"@ ==> gesture_type_of_label(name) == Some(9u8),
        (name != "double"@ && name != "triple"@ && name != "hold"@ && name != "double_hold"@) ==> gesture_type_of_label(name) is None,
{
    reveal_strlit("double");
    reveal_strlit("triple");
    reveal_strlit("hold");
    reveal_strlit("double_hold");
    assert("double"@[0] != "triple"@[0]);
    assert("double"@[0] != "hold"@[0]);
    assert("double"@.len() != "double_hold"@.len());
    assert("triple"@[0] != "hold"@[0]);
    assert("triple"@[0] != "double_hold"@[0]);
    assert("hold"@[0] != "double_hold"@[0]);
}

/// The action codes: 1 none, 8 skip back, 9 skip forward, 10 cycle all noise-control modes, 11 voice assistant, 18 volume up, 19 volume down, 20 cycle ANC and off, 21 cycle transparency and off, 22 cycle ANC and transparency; no other code has a name.
/// A name is read back as exactly its code.
pub proof fn lemma_action_table(action: u8, name: Seq<char>)
    ensures
        action_label(action) == (if action == 1 {
            Some("none")
        } else if action == 8 {
            Some("skip_back")
        } else if action == 9 {
            Some("skip_forward")
        } else if action == 10 {
            Some("noise_control_all")
        } else if action == 11 {
            Some("voice_assistant")
        } else if action == 18 {
            Some("volume_up")
        } else if action == 19 {
            Some("volume_down")
        } else if action == 20 {
            Some("noise_control_anc_off")
        } else if action == 21 {
            Some("noise_control_transparency_off")
        } else if action == 22 {
            Some("noise_control_anc_transparency")
        } else {
            None
        }),
        name == "none"@ ==> action_of_label(name) == Some(1u8),
        name == "skip_back"@ ==> action_of_label(name) == Some(8u8),
        name == "skip_forward"@ ==> action_of_label(name) == Some(9u8),
        name == "noise_control_all"@ ==> action_of_label(name) == Some(10u8),
        name == "voice_assistant"@ ==> action_of_label(name) == Some(11u8),
        name == "volume_up"@ ==> action_of_label(name) == Some(18u8),
        name == "volume_down"@ ==> action_of_label(name) == Some(19u8),
        name == "noise_control_anc_off"@ ==> action_of_label(name) == Some(20u8),
        name == "noise_control_transparency_off"@ ==> action_of_label(name) == Some(21u8),
        name == "noise_control_anc_transparency"@ ==> action_of_label(name) == Some(22u8),
        (name != "none"@ && name != "skip_back"@ && name != "skip_forward"@ && name != "noise_control_all"@ && name != "voice_assistant"@ && name != "volume_up"@ && name != "volume_down"@ && name != "noise_control_anc_off"@ && name != "noise_control_transparency_off"@ && name != "noise_control_anc_transparency"@) ==> action_of_label(name) is None,
{
    reveal_strlit("none");
    reveal_strlit("skip_back");
    reveal_strlit("skip_forward");
    reveal_strlit("noise_control_all");
    reveal_strlit("voice_assistant");
    reveal_strlit("volume_up");
    reveal_strlit("volume_down");
    reveal_strlit("noise_control_anc_off");
    reveal_strlit("noise_control_transparency_off");
    reveal_strlit("noise_control_anc_transparency");
    assert("none"@[0] != "skip_back"@[0]);
    assert("none"@[0] != "skip_forward"@[0]);
    assert("none"@[2] != "noise_control_all"@[2]);
    assert("none"@[0] != "voice_assistant"@[0]);
    assert("none"@[0] != "volume_up"@[0]);
    assert("none"@[0] != "volume_down"@[0]);
    assert("none"@[2] != "noise_control_anc_off"@[2]);
    assert("none"@[2] != "noise_control_transparency_off"@[2]);
    assert("none"@[2] != "noise_control_anc_transparency"@[2]);
    assert("skip_back"@[5] != "skip_forward"@[5]);
    assert("skip_back"@[0] != "noise_control_all"@[0]);
    assert("skip_back"@[0] != "voice_assistant"@[0]);
    assert("skip_back"@[0] != "volume_up"@[0]);
    assert("skip_back"@[0] != "volume_down"@[0]);
    assert("skip_back"@[0] != "noise_control_anc_off"@[0]);
    assert("skip_back"@[0] != "noise_control_transparency_off"@[0]);
    assert("skip_back"@[0] != "noise_control_anc_transparency"@[0]);
    assert("skip_forward"@[0] != "noise_control_all"@[0]);
    assert("skip_forward"@[0] != "voice_assistant"@[0]);
    assert("skip_forward"@[0] != "volume_up"@[0]);
    assert("skip_forward"@[0] != "volume_down"@[0]);
    assert("skip_forward"@[0] != "noise_control_anc_off"@[0]);
    assert("skip_forward"@[0] != "noise_control_transparency_off"@[0]);
    assert("skip_forward"@[0] != "noise_control_anc_transparency"@[0]);
    assert("noise_control_all"@[0] != "voice_assistant"@[0]);
    assert("noise_control_all"@[0] != "volume_up"@[0]);
    assert("noise_control_all"@[0] != "volume_down"@[0]);
    assert("noise_control_all"@[15] != "noise_control_anc_off"@[15]);
    assert("noise_control_all"@[14] != "noise_control_transparency_off"@[14]);
    assert("noise_control_all"@[15] != "noise_control_anc_transparency"@[15]);
    assert("voice_assistant"@[2] != "volume_up"@[2]);
    assert("voice_assistant"@[2] != "volume_down"@[2]);
    assert("voice_assistant"@[0] != "noise_control_anc_off"@[0]);
    assert("voice_assistant"@[0] != "noise_control_transparency_off"@[0]);
    assert("voice_assistant"@[0] != "noise_control_anc_transparency"@[0]);
    assert("volume_up"@[7] != "volume_down"@[7]);
    assert("volume_up"@[0] != "noise_control_anc_off"@[0]);
    assert("volume_up"@[0] != "noise_control_transparency_off"@[0]);
    assert("volume_up"@[0] != "noise_control_anc_transparency"@[0]);
    assert("volume_down"@[0] != "noise_control_anc_off"@[0]);
    assert("volume_down"@[0] != "noise_control_transparency_off"@[0]);
    assert("volume_down"@[0] != "noise_control_anc_transparency"@[0]);
    assert("noise_control_anc_off"@[14] != "noise_control_transparency_off"@[14]);
    assert("noise_control_anc_off"@[18] != "noise_control_anc_transparency"@[18]);
    assert("noise_control_transparency_off"@[14] != "noise_control_anc_transparency"@[14]);
}

} // verus!
