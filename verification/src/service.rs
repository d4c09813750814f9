//! Decoding of the device's answers and building of the commands sent to it.
use vstd::prelude::*;
use crate::text::{
    chars_of, decode_utf8_lossy, find_char, is_first_of, lemma_split_at_first,
    lemma_split_nonempty, lemma_split_without_sep, split_on, trim, trim_bounds, utf8_lossy,
};
use crate::error::EarError;
use crate::models::{
    model_by_id, model_by_sku, model_from_id, model_from_sku, model_table, ModelBase, ModelInfo,
};
use crate::protocol::{response, EarPacket};
use crate::types::{
    AncLevel, BatteryReading, BatteryStatus, EarFitResult, EarSide, EnhancedBassState, EqMode,
    FirmwareInfo, GestureSlot, InEarState, LatencyState, LedColor, LedColorSet, ModelSummary,
    PersonalizedAncState, SerialIdentity,
};
use vstd::slice::slice_subrange;
use vstd::string::StringSliceAdditionalSpecFns;
use vstd::utf8::{decode_utf8, encode_utf8, is_char_boundary};
use crate::text::str_eq;

verus! {

/// `status` after one battery entry: the device byte (2 left, 3 right,
/// 4 case; others are ignored) gets the level in the low seven bits of
/// `level_byte` and charges when its high bit is set.
pub open spec fn battery_entry(status: BatteryStatus, device: u8, level_byte: u8) -> BatteryStatus {
    let reading = BatteryReading::Level {
        percent: level_byte & 0x7fu8,
        charging: level_byte & 0x80u8 == 0x80u8,
    };
    if device == 0x02 {
        BatteryStatus { left: reading, right: status.right, case: status.case }
    } else if device == 0x03 {
        BatteryStatus { left: status.left, right: reading, case: status.case }
    } else if device == 0x04 {
        BatteryStatus { left: status.left, right: status.right, case: reading }
    } else {
        status
    }
}

/// How many battery entries are read: the count in the first byte, but no
/// more than the two-byte entries that follow it in full.
pub open spec fn battery_entries_read(payload: Seq<u8>) -> nat {
    if payload.len() == 0 {
        0
    } else if (payload[0] as int) < (payload.len() - 1) / 2 {
        payload[0] as nat
    } else {
        ((payload.len() - 1) / 2) as nat
    }
}

/// The status after the first `n` battery entries, starting from all absent.
pub open spec fn battery_after(payload: Seq<u8>, n: nat) -> BatteryStatus
    decreases n,
{
    if n == 0 {
        BatteryStatus::spec_empty()
    } else {
        battery_entry(
            battery_after(payload, (n - 1) as nat),
            payload[2 * n - 1],
            payload[2 * n as int],
        )
    }
}

/// The battery status that a battery payload reports.
pub open spec fn battery_of_payload(payload: Seq<u8>) -> BatteryStatus {
    battery_after(payload, battery_entries_read(payload))
}

pub fn parse_battery_payload(payload: &[u8]) -> (status: BatteryStatus)
    ensures
        status == battery_of_payload(payload@),
{
    let mut status = BatteryStatus::empty();
    if payload.len() == 0 {
        return status;
    }
    let count = payload[0] as usize;
    let mut i: usize = 0;
    while i < count
        invariant_except_break
            i <= count,
        invariant
            count == payload@[0],
            payload@.len() > 0,
            i <= battery_entries_read(payload@),
            status == battery_after(payload@, i as nat),
        ensures
            i == battery_entries_read(payload@),
        decreases count - i,
    {
        let idx = 1 + i * 2;
        if idx + 1 >= payload.len() {
            break;
        }
        let device_id = payload[idx];
        let level_byte = payload[idx + 1];
        let level = level_byte & 0x7F;
        let charging = (level_byte & 0x80) == 0x80;
        let reading = BatteryReading::Level { percent: level, charging };
        match device_id {
            0x02 => status.left = reading,
            0x03 => status.right = reading,
            0x04 => status.case = reading,
            _ => {},
        }
        i = i + 1;
    }
    status
}

/// How many gesture slots are read: the count in the first byte, but no more
/// than the four-byte slots that follow it in full.
pub open spec fn gesture_slots_read(payload: Seq<u8>) -> nat {
    if payload.len() == 0 {
        0
    } else if (payload[0] as int) < (payload.len() - 1) / 4 {
        payload[0] as nat
    } else {
        ((payload.len() - 1) / 4) as nat
    }
}

/// The `k`-th gesture slot of a gesture payload.
pub open spec fn gesture_slot_at(payload: Seq<u8>, k: int) -> GestureSlot {
    GestureSlot {
        device: payload[1 + 4 * k],
        common: payload[2 + 4 * k],
        gesture_type: payload[3 + 4 * k],
        action: payload[4 + 4 * k],
    }
}

/// The gesture slots that a gesture payload reports.
pub open spec fn gestures_of_payload(payload: Seq<u8>) -> Seq<GestureSlot> {
    Seq::new(gesture_slots_read(payload), |k: int| gesture_slot_at(payload, k))
}

pub fn parse_gestures(payload: &[u8]) -> (gestures: Vec<GestureSlot>)
    ensures
        gestures@ == gestures_of_payload(payload@),
{
    if payload.len() == 0 {
        let empty: Vec<GestureSlot> = Vec::new();
        assert(empty@ =~= gestures_of_payload(payload@));
        return empty;
    }
    let count = payload[0] as usize;
    let mut gestures: Vec<GestureSlot> = Vec::with_capacity(count);
    let mut i: usize = 0;
    while i < count
        invariant_except_break
            i <= count,
        invariant
            count == payload@[0],
            payload@.len() > 0,
            i <= gesture_slots_read(payload@),
            gestures@ =~= gestures_of_payload(payload@).take(i as int),
        ensures
            i == gesture_slots_read(payload@),
        decreases count - i,
    {
        let base = 1 + i * 4;
        if base + 3 >= payload.len() {
            break;
        }
        gestures.push(
            GestureSlot {
                device: payload[base],
                common: payload[base + 1],
                gesture_type: payload[base + 2],
                action: payload[base + 3],
            },
        );
        i = i + 1;
    }
    assert(gestures_of_payload(payload@).take(i as int) =~= gestures_of_payload(payload@));
    gestures
}

/// How many case LED colours are read: the count in the first byte, but no
/// more than the colours that follow it in full (each colour is three bytes
/// after an index byte, the first index byte being the second byte).
pub open spec fn led_colors_read(payload: Seq<u8>) -> nat {
    if payload.len() == 0 {
        0
    } else if (payload[0] as int) < (payload.len() - 1) / 4 {
        payload[0] as nat
    } else {
        ((payload.len() - 1) / 4) as nat
    }
}

/// The `k`-th colour of a case LED payload.
pub open spec fn led_color_at(payload: Seq<u8>, k: int) -> Seq<u8> {
    seq![payload[2 + 4 * k], payload[3 + 4 * k], payload[4 + 4 * k]]
}

/// `colors` holds exactly the colours that the case LED payload reports.
pub open spec fn led_colors_match(payload: Seq<u8>, colors: Seq<LedColor>) -> bool {
    &&& colors.len() == led_colors_read(payload)
    &&& forall|k: int| 0 <= k < colors.len() ==> (#[trigger] colors[k]).0@ == led_color_at(payload, k)
}

pub fn parse_led_colors(payload: &[u8]) -> (set: LedColorSet)
    ensures
        led_colors_match(payload@, set.pixels@),
{
    if payload.len() == 0 {
        return LedColorSet { pixels: Vec::new() };
    }
    let count = payload[0] as usize;
    let mut colors: Vec<LedColor> = Vec::with_capacity(count);
    let mut index: usize = 0;
    while index < count
        invariant_except_break
            index <= count,
        invariant
            count == payload@[0],
            payload@.len() > 0,
            index <= led_colors_read(payload@),
            colors@.len() == index,
            forall|k: int| 0 <= k < index ==> (#[trigger] colors@[k]).0@ == led_color_at(payload@, k),
        ensures
            index == led_colors_read(payload@),
        decreases count - index,
    {
        let base = 2 + index * 4;
        if base + 2 >= payload.len() {
            break;
        }
        let color = LedColor([payload[base], payload[base + 1], payload[base + 2]]);
        assert(color.0@ =~= led_color_at(payload@, index as int));
        colors.push(color);
        index = index + 1;
    }
    LedColorSet { pixels: colors }
}


/// One battery entry: device byte 2 is the left bud, 3 the right bud and 4
/// the case, any other device byte changes nothing; the level is the byte
/// modulo 128 and the battery charges when the byte is 128 or more.
pub proof fn lemma_battery_entry_meaning(status: BatteryStatus, device: u8, level_byte: u8)
    ensures
        ({
            let reading = BatteryReading::Level {
                percent: (level_byte % 128) as u8,
                charging: level_byte >= 128,
            };
            let after = battery_entry(status, device, level_byte);
            &&& device == 2 ==> after == BatteryStatus {
                left: reading,
                right: status.right,
                case: status.case,
            }
            &&& device == 3 ==> after == BatteryStatus {
                left: status.left,
                right: reading,
                case: status.case,
            }
            &&& device == 4 ==> after == BatteryStatus {
                left: status.left,
                right: status.right,
                case: reading,
            }
            &&& (device != 2 && device != 3 && device != 4) ==> after == status
        }),
{
    assert(level_byte & 0x7fu8 == level_byte % 128) by (bit_vector);
    assert((level_byte & 0x80u8 == 0x80u8) == (level_byte >= 128)) by (bit_vector);
}

/// A battery payload is its entry count followed by two-byte entries
/// (device, level); when it holds exactly the entries it announces, every
/// entry is read, in order, starting from all batteries absent.
pub proof fn lemma_battery_payload_meaning(payload: Seq<u8>)
    requires
        payload.len() >= 1,
        payload.len() == 1 + 2 * payload[0],
    ensures
        battery_entries_read(payload) == payload[0],
        battery_of_payload(payload) == battery_after(payload, payload[0] as nat),
        payload[0] > 0 ==> battery_of_payload(payload) == battery_entry(
            battery_after(payload, (payload[0] - 1) as nat),
            payload[2 * payload[0] - 1],
            payload[2 * payload[0] as int],
        ),
{
}

/// A gesture payload is its slot count followed by four-byte slots (device,
/// common byte, gesture type, action); when it holds exactly the slots it
/// announces, all of them are read, in order.
pub proof fn lemma_gesture_payload_meaning(payload: Seq<u8>)
    requires
        payload.len() >= 1,
        payload.len() == 1 + 4 * payload[0],
    ensures
        gestures_of_payload(payload).len() == payload[0],
        forall|k: int|
            0 <= k < payload[0] ==> #[trigger] gestures_of_payload(payload)[k] == (GestureSlot {
                device: payload[1 + 4 * k],
                common: payload[2 + 4 * k],
                gesture_type: payload[3 + 4 * k],
                action: payload[4 + 4 * k],
            }),
{
}

/// A case LED payload is its colour count followed by four-byte entries (an
/// index byte, then red, green, blue); when it holds exactly the entries it
/// announces, all colours are read, in order.
pub proof fn lemma_led_payload_meaning(payload: Seq<u8>, colors: Seq<LedColor>)
    requires
        payload.len() >= 1,
        payload.len() == 1 + 4 * payload[0],
        led_colors_match(payload, colors),
    ensures
        colors.len() == payload[0],
        forall|k: int|
            0 <= k < payload[0] ==> (#[trigger] colors[k]).0@ == (seq![
                payload[2 + 4 * k],
                payload[3 + 4 * k],
                payload[4 + 4 * k],
            ]),
{
}

/// The serial number that one line of the serial report gives, if any: the
/// line must have exactly three comma-separated fields, the second of which
/// is `4` apart from white space; the serial number is the third field
/// without its surrounding white space, and it must not be empty.
pub open spec fn serial_in_line(line: Seq<char>) -> Option<Seq<char>> {
    let parts = split_on(line, ',');
    if parts.len() == 3 && trim(parts[1]) == seq!['4'] && trim(parts[2]).len() > 0 {
        Some(trim(parts[2]))
    } else {
        None
    }
}

/// The serial number of the first line that gives one.
pub open spec fn serial_in_lines(lines: Seq<Seq<char>>) -> Option<Seq<char>>
    decreases lines.len(),
{
    if lines.len() == 0 {
        None
    } else if serial_in_line(lines[0]) is Some {
        serial_in_line(lines[0])
    } else {
        serial_in_lines(lines.drop_first())
    }
}

/// The serial number that the text of a serial report gives. The report is
/// read line by line; a carriage return before a line feed ends up in the
/// last field of its line, where it is trimmed as white space.
pub open spec fn serial_in_text(text: Seq<char>) -> Option<Seq<char>> {
    serial_in_lines(split_on(text, '\n'))
}

/// A report line `<anything>,4,<value>` (the first and last field without
/// commas) gives its value without surrounding white space, unless that is
/// empty; as a whole report of one line it gives the same.
pub proof fn lemma_serial_line(first: Seq<char>, value: Seq<char>)
    requires
        forall|j: int| 0 <= j < first.len() ==> first[j] != ',' && first[j] != '\n',
        forall|j: int| 0 <= j < value.len() ==> value[j] != ',' && value[j] != '\n',
    ensures
        ({
            let line = first + seq![',', '4', ','] + value;
            let expected = if trim(value).len() > 0 {
                Some(trim(value))
            } else {
                None
            };
            &&& serial_in_line(line) == expected
            &&& serial_in_text(line) == expected
        }),
{
    let line = first + seq![',', '4', ','] + value;
    let k = first.len() as int;
    assert(crate::text::is_first_of(line, ',', k));
    lemma_split_at_first(line, ',', k);
    let rest1 = line.skip(k + 1);
    assert(rest1 =~= seq!['4', ','] + value);
    assert(crate::text::is_first_of(rest1, ',', 1));
    lemma_split_at_first(rest1, ',', 1);
    let rest2 = rest1.skip(2);
    assert(rest2 =~= value);
    lemma_split_without_sep(rest2, ',');
    assert(line.take(k) =~= first);
    assert(rest1.take(1) =~= seq!['4']);
    let four = seq!['4'];
    assert(crate::text::is_first_text(four, 0));
    assert(crate::text::is_last_text(four, 0));
    let f = choose|i: int| crate::text::is_first_text(four, i);
    let l = choose|i: int| crate::text::is_last_text(four, i);
    assert(f == 0);
    assert(l == 0);
    assert(trim(four) =~= four);
    assert forall|j: int| 0 <= j < line.len() implies line[j] != '\n' by {
        if j < k {
            assert(line[j] == first[j]);
        } else if j >= k + 3 {
            assert(line[j] == value[j - k - 3]);
        }
    }
    lemma_split_without_sep(line, '\n');
    assert(serial_in_lines(split_on(line, '\n').drop_first()) is None);
}

/// The bounds, within `line`, of the serial number that it gives.
fn serial_bounds_in_line(line: &[char]) -> (r: Option<(usize, usize)>)
    ensures
        r is None <==> serial_in_line(line@) is None,
        r matches Some(b) ==> b.0 <= b.1 <= line@.len() && serial_in_line(line@) == Some(
            line@.subrange(b.0 as int, b.1 as int),
        ),
{
    let n = line.len();
    let c1 = find_char(line, ',');
    if c1 == n {
        proof {
            lemma_split_without_sep(line@, ',');
        }
        return None;
    }
    let rest1 = slice_subrange(line, c1 + 1, n);
    let c2r = find_char(rest1, ',');
    proof {
        lemma_split_at_first(line@, ',', c1 as int);
        assert(line@.skip(c1 + 1) =~= rest1@);
    }
    if c2r == rest1.len() {
        proof {
            lemma_split_without_sep(rest1@, ',');
        }
        return None;
    }
    let c2 = c1 + 1 + c2r;
    let rest2 = slice_subrange(line, c2 + 1, n);
    let c3r = find_char(rest2, ',');
    proof {
        lemma_split_at_first(rest1@, ',', c2r as int);
        assert(rest1@.skip(c2r + 1) =~= rest2@);
    }
    if c3r < rest2.len() {
        proof {
            lemma_split_at_first(rest2@, ',', c3r as int);
            lemma_split_nonempty(rest2@.skip(c3r + 1), ',');
        }
        return None;
    }
    proof {
        lemma_split_without_sep(rest2@, ',');
    }
    let p1 = slice_subrange(line, c1 + 1, c2);
    assert(p1@ =~= rest1@.take(c2r as int));
    let (a1, b1) = trim_bounds(p1);
    if !(b1 == a1 + 1 && p1[a1] == '4') {
        proof {
            let t = p1@.subrange(a1 as int, b1 as int);
            if t == seq!['4'] {
                assert(t.len() == 1);
                assert(t[0] == '4');
            }
        }
        return None;
    }
    assert(p1@.subrange(a1 as int, b1 as int) =~= seq!['4']);
    let (a2, b2) = trim_bounds(rest2);
    if a2 == b2 {
        return None;
    }
    assert(line@.subrange(c2 + 1 + a2, c2 + 1 + b2) =~= rest2@.subrange(a2 as int, b2 as int));
    Some((c2 + 1 + a2, c2 + 1 + b2))
}

/// The serial number that the text of a serial report gives.
pub fn serial_from_text(text: &str) -> (r: Option<String>)
    ensures
        r matches Some(v) ==> serial_in_text(text@) == Some(v@),
        r is None ==> serial_in_text(text@) is None,
{
    let chars = chars_of(text);
    let all = chars.as_slice();
    let n = all.len();
    let mut start: usize = 0;
    assert(text@.skip(0) =~= text@);
    loop
        invariant
            0 <= start <= n,
            n == text@.len(),
            all@ == text@,
            serial_in_text(text@) == serial_in_lines(split_on(text@.skip(start as int), '\n')),
        decreases n - start,
    {
        let rest = slice_subrange(all, start, n);
        assert(rest@ =~= text@.skip(start as int));
        let e = find_char(rest, '\n');
        let line = slice_subrange(rest, 0, e);
        assert(line@ =~= rest@.take(e as int));
        let found = serial_bounds_in_line(line);
        if e == rest.len() {
            proof {
                lemma_split_without_sep(rest@, '\n');
                assert(line@ =~= rest@);
                let lines = split_on(rest@, '\n');
                assert(lines.drop_first() =~= Seq::<Seq<char>>::empty());
                assert(serial_in_lines(lines.drop_first()) is None);
            }
        } else {
            proof {
                lemma_split_at_first(rest@, '\n', e as int);
                let lines = split_on(rest@, '\n');
                assert(lines[0] == line@);
                assert(lines.drop_first() =~= split_on(rest@.skip(e + 1), '\n'));
                assert(rest@.skip(e + 1) =~= text@.skip(start + e + 1));
            }
        }
        match found {
            Some((a, b)) => {
                assert(text@.subrange(start + a, start + b) =~= line@.subrange(a as int, b as int));
                let v = text.substring_char(start + a, start + b);
                return Some(v.to_string());
            },
            None => {},
        }
        if e == rest.len() {
            return None;
        }
        start = start + e + 1;
    }
}

/// The serial number reported in a serial payload: its text starts at the
/// eighth byte and is read as UTF-8 with invalid sequences replaced.
pub open spec fn serial_of_payload(payload: Seq<u8>) -> Option<Seq<char>> {
    if payload.len() < 8 {
        None
    } else {
        serial_in_text(utf8_lossy(payload.skip(7)))
    }
}

pub fn parse_serial_number(payload: &[u8]) -> (r: Option<String>)
    ensures
        r matches Some(v) ==> serial_of_payload(payload@) == Some(v@),
        r is None ==> serial_of_payload(payload@) is None,
{
    if payload.len() < 8 {
        return None;
    }
    let tail = slice_subrange(payload, 7, payload.len());
    assert(tail@ =~= payload@.skip(7));
    let text = decode_utf8_lossy(tail);
    serial_from_text(text.as_str())
}


/// The serial number that stands for the first Ear (1) units.
pub open spec fn is_reference_serial(serial: Seq<char>) -> bool {
    serial == "12345678901234567"@
}

/// The serial's UTF-8 bytes begin with the two ASCII letters `a`, `b`.
pub open spec fn starts_with_pair(bytes: Seq<u8>, a: u8, b: u8) -> bool {
    bytes.len() >= 2 && bytes[0] == a && bytes[1] == b
}

/// Whether the SKU can be read from `serial` without slicing it outside its
/// character boundaries: the reference serial, serials of fewer than six
/// bytes, and otherwise those with a boundary after the second byte whose
/// `MA` form also holds the year bytes 6..8 on boundaries.
pub open spec fn sku_readable(serial: Seq<char>) -> bool {
    let b = encode_utf8(serial);
    ||| is_reference_serial(serial)
    ||| b.len() < 6
    ||| {
        &&& is_char_boundary(b, 2)
        &&& starts_with_pair(b, 0x4d, 0x41) ==> b.len() >= 8 && is_char_boundary(b, 6)
            && is_char_boundary(b, 8)
    }
}

/// The SKU that a serial number encodes, where it encodes one: `01` for the
/// reference serial; for `MA` serials `14` when bytes 6..8 read `22` or `23`
/// and `11200005` when they read `24`; for `SH` and `13` serials the text of
/// bytes 4..6, when they lie on character boundaries.
pub open spec fn sku_of_serial(serial: Seq<char>) -> Option<Seq<char>> {
    let b = encode_utf8(serial);
    if is_reference_serial(serial) {
        Some("01"@)
    } else if b.len() < 6 {
        None
    } else if starts_with_pair(b, 0x4d, 0x41) {
        if b.subrange(6, 8) == seq![0x32u8, 0x32u8] || b.subrange(6, 8) == seq![0x32u8, 0x33u8] {
            Some("14"@)
        } else if b.subrange(6, 8) == seq![0x32u8, 0x34u8] {
            Some("11200005"@)
        } else {
            None
        }
    } else if starts_with_pair(b, 0x53, 0x48) || starts_with_pair(b, 0x31, 0x33) {
        if is_char_boundary(b, 4) && is_char_boundary(b, 6) {
            Some(decode_utf8(b.subrange(4, 6)))
        } else {
            None
        }
    } else {
        None
    }
}

/// What SKU a serial number of ASCII characters stands for: a serial
/// starting with "MA" (eight characters or more) stands for "14" when its
/// characters 6..8 read "22" or "23", for "11200005" when they read "24", and
/// for none otherwise; one of six characters or more starting with "SH" or
/// "13" stands for the SKU written in its characters 4..6; any other serial
/// (but the reference serial, which stands for "01") stands for none. The SKU
/// of any such serial can be read without slicing inside a character.
pub proof fn lemma_sku_of_ascii_serial(serial: Seq<char>)
    requires
        vstd::utf8::is_ascii_chars(serial),
        !is_reference_serial(serial),
    ensures
        (serial.len() >= 6 && serial[0] == 'M' && serial[1] == 'A') ==> (serial.len() >= 8
            <==> sku_readable(serial)),
        !(serial.len() >= 6 && serial[0] == 'M' && serial[1] == 'A' && serial.len() < 8)
            ==> sku_readable(serial),
        (serial.len() >= 8 && serial[0] == 'M' && serial[1] == 'A') ==> sku_of_serial(serial) == (
        if serial.subrange(6, 8) == seq!['2', '2'] || serial.subrange(6, 8) == seq!['2', '3'] {
            Some(seq!['1', '4'])
        } else if serial.subrange(6, 8) == seq!['2', '4'] {
            Some(seq!['1', '1', '2', '0', '0', '0', '0', '5'])
        } else {
            None
        }),
        (serial.len() >= 6 && ((serial[0] == 'S' && serial[1] == 'H') || (serial[0] == '1'
            && serial[1] == '3'))) ==> sku_of_serial(serial) == Some(serial.subrange(4, 6)),
        (serial.len() >= 6 && !(serial[0] == 'M' && serial[1] == 'A') && !(serial[0] == 'S'
            && serial[1] == 'H') && !(serial[0] == '1' && serial[1] == '3')) ==> sku_of_serial(
            serial,
        ) is None,
        serial.len() < 6 ==> sku_of_serial(serial) is None,
{
    let b = encode_utf8(serial);
    vstd::utf8::is_ascii_chars_encode_utf8(serial);
    vstd::utf8::encode_utf8_valid_utf8(serial);
    reveal_strlit("14");
    reveal_strlit("11200005");
    assert forall|i: int| 0 <= i <= b.len() implies is_char_boundary(b, i) by {
        if i < b.len() {
            vstd::utf8::is_char_boundary_iff_not_is_continuation_byte(b, i);
            assert(serial[i] as u8 == b[i]);
        } else {
            vstd::utf8::is_char_boundary_start_end_of_seq(b);
        }
    }
    if serial.len() >= 2 {
        assert(serial[0] as u8 == b[0]);
        assert(serial[1] as u8 == b[1]);
    }
    if serial.len() >= 8 {
        assert(serial[6] as u8 == b[6]);
        assert(serial[7] as u8 == b[7]);
        if serial.subrange(6, 8) == seq!['2', '2'] || serial.subrange(6, 8) == seq!['2', '3']
            || serial.subrange(6, 8) == seq!['2', '4'] {
            assert(serial[6] == serial.subrange(6, 8)[0]);
            assert(serial[7] == serial.subrange(6, 8)[1]);
        }
        if b.subrange(6, 8) == seq![0x32u8, 0x32u8] || b.subrange(6, 8) == seq![0x32u8, 0x33u8]
            || b.subrange(6, 8) == seq![0x32u8, 0x34u8] {
            assert(b[6] == b.subrange(6, 8)[0]);
            assert(b[7] == b.subrange(6, 8)[1]);
        }
        assert(serial.subrange(6, 8) =~= seq![serial[6], serial[7]]);
        assert(b.subrange(6, 8) =~= seq![b[6], b[7]]);
    }
    if serial.len() >= 6 {
        let mid = serial.subrange(4, 6);
        vstd::utf8::is_ascii_chars_encode_utf8(mid);
        assert(vstd::utf8::is_ascii_chars(mid));
        assert(encode_utf8(mid) =~= b.subrange(4, 6)) by {
            assert(serial[4] as u8 == b[4]);
            assert(serial[5] as u8 == b[5]);
            assert(mid[0] == serial[4]);
            assert(mid[1] == serial[5]);
        }
        vstd::utf8::encode_utf8_decode_utf8(mid);
    }
}

/// Whether the SKU can be read from `serial` (see [`sku_readable`]).
pub fn serial_sku_readable(serial: &str) -> (r: bool)
    ensures
        r == sku_readable(serial@),
{
    if str_eq(serial, "12345678901234567") {
        return true;
    }
    let b = serial.as_bytes();
    if b.len() < 6 {
        return true;
    }
    if !serial.is_char_boundary(2) {
        return false;
    }
    if b[0] == 0x4d && b[1] == 0x41 {
        b.len() >= 8 && serial.is_char_boundary(6) && serial.is_char_boundary(8)
    } else {
        true
    }
}

/// The SKU that a serial number encodes, where it encodes one.
pub fn derive_sku_from_serial(serial: &str) -> (r: Option<String>)
    requires
        sku_readable(serial@),
    ensures
        r matches Some(v) ==> sku_of_serial(serial@) == Some(v@),
        r is None ==> sku_of_serial(serial@) is None,
{
    if str_eq(serial, "12345678901234567") {
        return Some("01".to_string());
    }
    let b = serial.as_bytes();
    if b.len() < 6 {
        return None;
    }
    if b[0] == 0x4d && b[1] == 0x41 {
        let y0 = b[6];
        let y1 = b[7];
        proof {
            assert(serial.spec_bytes().subrange(6, 8) =~= seq![y0, y1]);
        }
        if y0 == 0x32 && (y1 == 0x32 || y1 == 0x33) {
            return Some("14".to_string());
        } else if y0 == 0x32 && y1 == 0x34 {
            return Some("11200005".to_string());
        }
        return None;
    } else if (b[0] == 0x53 && b[1] == 0x48) || (b[0] == 0x31 && b[1] == 0x33) {
        if serial.is_char_boundary(4) && serial.is_char_boundary(6) {
            let (_, tail) = serial.split_at(4);
            proof {
                let tb = tail.spec_bytes();
                vstd::utf8::encode_utf8_valid_utf8(serial@);
                vstd::utf8::encode_utf8_valid_utf8(tail@);
                assert(tb =~= serial.spec_bytes().subrange(4, serial.spec_bytes().len() as int));
                if tb.len() == 2 {
                    vstd::utf8::is_char_boundary_start_end_of_seq(tb);
                } else {
                    vstd::utf8::is_char_boundary_iff_not_is_continuation_byte(serial.spec_bytes(), 6);
                    vstd::utf8::is_char_boundary_iff_not_is_continuation_byte(tb, 2);
                }
            }
            let (mid, _) = tail.split_at(2);
            proof {
                assert(mid.spec_bytes() =~= serial.spec_bytes().subrange(4, 6));
                vstd::utf8::encode_utf8_decode_utf8(mid@);
            }
            return Some(mid.to_string());
        }
        return None;
    }
    None
}


/// The text of an optional string.
pub open spec fn opt_view(o: Option<String>) -> Option<Seq<char>> {
    match o {
        Some(s) => Some(s@),
        None => None,
    }
}

/// A copy of an optional string.
pub fn clone_opt(o: &Option<String>) -> (r: Option<String>)
    ensures
        opt_view(r) == opt_view(*o),
{
    match o {
        Some(s) => Some(s.clone()),
        None => None,
    }
}

/// What a session knows of the connected model.
#[derive(Debug, Clone)]
pub struct ModelDescriptor {
    pub base: ModelBase,
    pub model_id: Option<String>,
    pub name: Option<String>,
    pub sku: Option<String>,
    pub serial: Option<String>,
}

impl ModelDescriptor {
    /// The descriptor names catalogue entry `info`, with the given SKU and
    /// serial number.
    pub open spec fn describes(
        self,
        info: ModelInfo,
        sku: Option<Seq<char>>,
        serial: Option<Seq<char>>,
    ) -> bool {
        &&& self.base == info.base
        &&& opt_view(self.model_id) == Some(info.id@)
        &&& opt_view(self.name) == Some(info.name@)
        &&& opt_view(self.sku) == sku
        &&& opt_view(self.serial) == serial
    }

    /// The descriptor knows only the family `base`.
    pub open spec fn only_base(self, base: ModelBase) -> bool {
        &&& self.base == base
        &&& self.model_id is None
        &&& self.name is None
        &&& self.sku is None
        &&& self.serial is None
    }

    /// A descriptor of catalogue entry `info`.
    pub fn for_model(info: ModelInfo, sku: Option<String>, serial: Option<String>) -> (d: Self)
        ensures
            d.describes(info, opt_view(sku), opt_view(serial)),
    {
        ModelDescriptor {
            base: info.base,
            model_id: Some(info.id.to_string()),
            name: Some(info.name.to_string()),
            sku,
            serial,
        }
    }

    /// A descriptor that knows only the family `base`.
    pub fn for_base(base: ModelBase) -> (d: Self)
        ensures
            d.only_base(base),
    {
        ModelDescriptor { base, model_id: None, name: None, sku: None, serial: None }
    }

    /// The summary that a session reports.
    pub fn summary(&self) -> (s: ModelSummary)
        ensures
            opt_view(s.id) == opt_view(self.model_id),
            opt_view(s.name) == opt_view(self.name),
            opt_view(s.sku) == opt_view(self.sku),
            opt_view(s.serial_number) == opt_view(self.serial),
            s.base == self.base,
    {
        ModelSummary {
            id: clone_opt(&self.model_id),
            name: clone_opt(&self.name),
            sku: clone_opt(&self.sku),
            serial_number: clone_opt(&self.serial),
            base: self.base,
        }
    }
}

impl Default for ModelDescriptor {
    fn default() -> (d: Self)
        ensures
            d.only_base(ModelBase::Unknown),
    {
        ModelDescriptor::for_base(ModelBase::Unknown)
    }
}

/// The family of the session's model, `Unknown` when no model is set.
pub fn model_base(model: &Option<ModelDescriptor>) -> (b: ModelBase)
    ensures
        b == (match model {
            Some(m) => m.base,
            None => ModelBase::Unknown,
        }),
{
    match model {
        Some(m) => m.base,
        None => ModelBase::Unknown,
    }
}

/// The descriptor for the catalogue model with the given id.
pub fn descriptor_for_id(id: &str) -> (r: Result<ModelDescriptor, EarError>)
    ensures
        match model_by_id(id@) {
            Some(info) => r matches Ok(d) && d.describes(info, None, None),
            None => r matches Err(EarError::UnknownModel),
        },
{
    match model_from_id(id) {
        Some(info) => Ok(ModelDescriptor::for_model(info, None, None)),
        None => Err(EarError::UnknownModel),
    }
}

/// The descriptor for the model that a SKU stands for, with the SKU and the
/// given serial number.
pub fn descriptor_for_sku(sku: &str, serial: Option<String>) -> (r: Result<ModelDescriptor, EarError>)
    ensures
        match model_by_sku(sku@) {
            Some(info) => r matches Ok(d) && d.describes(info, Some(sku@), opt_view(serial)),
            None => r matches Err(EarError::UnknownModel),
        },
{
    match model_from_sku(sku) {
        Some(info) => Ok(ModelDescriptor::for_model(info, Some(sku.to_string()), serial)),
        None => Err(EarError::UnknownModel),
    }
}

/// The SKU read from the serial number of a serial payload.
pub open spec fn detected_sku(payload: Seq<u8>) -> Option<Seq<char>> {
    match serial_of_payload(payload) {
        Some(s) => sku_of_serial(s),
        None => None,
    }
}

/// The catalogue model of the SKU read from a serial payload.
pub open spec fn detected_model(payload: Seq<u8>) -> Option<ModelInfo> {
    match detected_sku(payload) {
        Some(k) => model_by_sku(k),
        None => None,
    }
}

/// What a serial report tells: the identity to report, and the model to
/// record for the session when the SKU is in the catalogue.
#[derive(Debug, Clone)]
pub struct SerialDetection {
    pub identity: SerialIdentity,
    pub model: Option<ModelDescriptor>,
}

/// Reads the serial number, its SKU and the catalogue model from a serial
/// payload. Returns `None` exactly when the serial number is one from which
/// the SKU cannot be read within character boundaries (see
/// [`sku_readable`]).
pub fn detect_serial_identity(payload: &[u8]) -> (r: Option<SerialDetection>)
    ensures
        r is None <==> (serial_of_payload(payload@) matches Some(s) && !sku_readable(s)),
        r matches Some(d) ==> {
            &&& opt_view(d.identity.serial_number) == serial_of_payload(payload@)
            &&& opt_view(d.identity.sku) == detected_sku(payload@)
            &&& opt_view(d.identity.model_id) == (match detected_model(payload@) {
                Some(info) => Some(info.id@),
                None => None,
            })
            &&& match detected_model(payload@) {
                Some(info) => d.model matches Some(m) && m.describes(
                    info,
                    detected_sku(payload@),
                    serial_of_payload(payload@),
                ),
                None => d.model is None,
            }
        },
{
    let serial = parse_serial_number(payload);
    let mut sku: Option<String> = None;
    let mut model: Option<ModelInfo> = None;
    if let Some(serial_number) = &serial {
        if !serial_sku_readable(serial_number.as_str()) {
            return None;
        }
        if let Some(detected) = derive_sku_from_serial(serial_number.as_str()) {
            model = model_from_sku(detected.as_str());
            sku = Some(detected);
        }
    }
    let descriptor = match model {
        Some(info) => Some(ModelDescriptor::for_model(info, clone_opt(&sku), clone_opt(&serial))),
        None => None,
    };
    let model_id = match model {
        Some(info) => Some(info.id.to_string()),
        None => None,
    };
    Some(
        SerialDetection {
            identity: SerialIdentity { serial_number: serial, sku, model_id },
            model: descriptor,
        },
    )
}

/// The firmware version in a firmware payload: its text, read as UTF-8 with
/// invalid sequences replaced, without surrounding white space.
pub fn firmware_version(payload: &[u8]) -> (v: String)
    ensures
        v@ == trim(utf8_lossy(payload@)),
{
    let text = decode_utf8_lossy(payload);
    let chars = chars_of(text.as_str());
    let (a, b) = trim_bounds(chars.as_slice());
    text.as_str().substring_char(a, b).to_string()
}


/// The byte at `i` of `payload`, or 0 when it is too short.
pub open spec fn byte_or_zero(payload: Seq<u8>, i: int) -> u8 {
    if 0 <= i < payload.len() {
        payload[i]
    } else {
        0
    }
}

fn get_or_zero(payload: &[u8], i: usize) -> (b: u8)
    ensures
        b == byte_or_zero(payload@, i as int),
{
    if i < payload.len() {
        payload[i]
    } else {
        0
    }
}

/// The battery status in a battery answer (either of its two commands).
pub fn battery_from_packet(packet: &EarPacket) -> (r: Option<BatteryStatus>)
    ensures
        r == (if packet.command == response::BATTERY_PRIMARY || packet.command
            == response::BATTERY_SECONDARY {
            Some(battery_of_payload(packet.payload@))
        } else {
            None
        }),
{
    if packet.command == response::BATTERY_PRIMARY || packet.command == response::BATTERY_SECONDARY {
        Some(parse_battery_payload(packet.payload.as_slice()))
    } else {
        None
    }
}

/// The noise-control mode in an ANC answer: the mode of its second byte.
pub fn anc_from_packet(packet: &EarPacket) -> (r: Option<AncLevel>)
    ensures
        r == (if (packet.command == response::ANC_PRIMARY || packet.command
            == response::ANC_SECONDARY) && packet.payload@.len() > 1 {
            AncLevel::of_device_byte(packet.payload@[1])
        } else {
            None
        }),
{
    if (packet.command == response::ANC_PRIMARY || packet.command == response::ANC_SECONDARY)
        && packet.payload.len() > 1 {
        AncLevel::from_device(packet.payload[1])
    } else {
        None
    }
}

/// The equaliser mode in an EQ answer: its first byte.
pub fn eq_from_packet(packet: &EarPacket) -> (r: Option<EqMode>)
    ensures
        r == (if (packet.command == response::EQ_PRIMARY || packet.command
            == response::EQ_LISTENING_MODE) && packet.payload@.len() > 0 {
            Some(EqMode { mode: packet.payload@[0] })
        } else {
            None
        }),
{
    if (packet.command == response::EQ_PRIMARY || packet.command == response::EQ_LISTENING_MODE)
        && packet.payload.len() > 0 {
        Some(EqMode { mode: packet.payload[0] })
    } else {
        None
    }
}

/// The enhanced-bass state in its answer: on when the first byte is not 0,
/// the level is half the second byte (missing bytes count as 0).
pub fn enhanced_bass_from_packet(packet: &EarPacket) -> (r: Option<EnhancedBassState>)
    ensures
        r == (if packet.command == response::ENHANCED_BASS {
            Some(
                EnhancedBassState {
                    enabled: byte_or_zero(packet.payload@, 0) > 0,
                    level: (byte_or_zero(packet.payload@, 1) / 2) as u8,
                },
            )
        } else {
            None
        }),
{
    if packet.command == response::ENHANCED_BASS {
        let enabled = get_or_zero(packet.payload.as_slice(), 0) > 0;
        let level = get_or_zero(packet.payload.as_slice(), 1) / 2;
        Some(EnhancedBassState { enabled, level })
    } else {
        None
    }
}

/// The personalised-ANC state in its answer: on when the first byte is 1.
pub fn personalized_anc_from_packet(packet: &EarPacket) -> (r: Option<PersonalizedAncState>)
    ensures
        r == (if packet.command == response::PERSONALIZED_ANC && packet.payload@.len() > 0 {
            Some(PersonalizedAncState { enabled: packet.payload@[0] == 1 })
        } else {
            None
        }),
{
    if packet.command == response::PERSONALIZED_ANC && packet.payload.len() > 0 {
        Some(PersonalizedAncState { enabled: packet.payload[0] == 1 })
    } else {
        None
    }
}

/// The in-ear detection state in its answer: on when the third byte is 1.
pub fn in_ear_from_packet(packet: &EarPacket) -> (r: Option<InEarState>)
    ensures
        r == (if packet.command == response::IN_EAR && packet.payload@.len() > 2 {
            Some(InEarState { detection_enabled: packet.payload@[2] == 1 })
        } else {
            None
        }),
{
    if packet.command == response::IN_EAR && packet.payload.len() > 2 {
        Some(InEarState { detection_enabled: packet.payload[2] == 1 })
    } else {
        None
    }
}

/// The low-latency state in its answer: on when the first byte is 1.
pub fn latency_from_packet(packet: &EarPacket) -> (r: Option<LatencyState>)
    ensures
        r == (if packet.command == response::LATENCY && packet.payload@.len() > 0 {
            Some(LatencyState { low_latency_enabled: packet.payload@[0] == 1 })
        } else {
            None
        }),
{
    if packet.command == response::LATENCY && packet.payload.len() > 0 {
        Some(LatencyState { low_latency_enabled: packet.payload[0] == 1 })
    } else {
        None
    }
}

/// The firmware version in a firmware answer.
pub fn firmware_from_packet(packet: &EarPacket) -> (r: Option<FirmwareInfo>)
    ensures
        r is Some <==> packet.command == response::FIRMWARE,
        r matches Some(f) ==> f.version@ == trim(utf8_lossy(packet.payload@)),
{
    if packet.command == response::FIRMWARE {
        Some(FirmwareInfo { version: firmware_version(packet.payload.as_slice()) })
    } else {
        None
    }
}

/// The ear-fit result in its answer: the first byte for the left bud, the
/// second for the right (missing bytes count as 0).
pub fn ear_fit_from_packet(packet: &EarPacket) -> (r: Option<EarFitResult>)
    ensures
        r == (if packet.command == response::EAR_FIT_RESULT {
            Some(
                EarFitResult {
                    left: byte_or_zero(packet.payload@, 0),
                    right: byte_or_zero(packet.payload@, 1),
                },
            )
        } else {
            None
        }),
{
    if packet.command == response::EAR_FIT_RESULT {
        let left = get_or_zero(packet.payload.as_slice(), 0);
        let right = get_or_zero(packet.payload.as_slice(), 1);
        Some(EarFitResult { left, right })
    } else {
        None
    }
}

/// The gesture slots in a gesture answer.
pub fn gestures_from_packet(packet: &EarPacket) -> (r: Option<Vec<GestureSlot>>)
    ensures
        r is Some <==> packet.command == response::GESTURES,
        r matches Some(g) ==> g@ == gestures_of_payload(packet.payload@),
{
    if packet.command == response::GESTURES {
        Some(parse_gestures(packet.payload.as_slice()))
    } else {
        None
    }
}

/// The case LED colours in their answer.
pub fn led_colors_from_packet(packet: &EarPacket) -> (r: Option<LedColorSet>)
    ensures
        r is Some <==> packet.command == response::LED_CASE_COLORS,
        r matches Some(c) ==> led_colors_match(packet.payload@, c.pixels@),
{
    if packet.command == response::LED_CASE_COLORS {
        Some(parse_led_colors(packet.payload.as_slice()))
    } else {
        None
    }
}

/// The payload of a serial answer.
pub fn serial_payload_from_packet(packet: &EarPacket) -> (r: Option<Vec<u8>>)
    ensures
        r is Some <==> packet.command == response::SERIAL,
        r matches Some(p) ==> p@ == packet.payload@,
{
    if packet.command == response::SERIAL {
        Some(vstd::slice::slice_to_vec(packet.payload.as_slice()))
    } else {
        None
    }
}

/// Payload that sets the noise-control mode.
pub fn anc_payload(level: AncLevel) -> (p: [u8; 3])
    ensures
        p@ == seq![0x01u8, level.device_byte(), 0x00u8],
{
    let mut payload = [0x01u8, 0x01, 0x00];
    payload[1] = level.to_device();
    assert(payload@ =~= seq![0x01u8, level.device_byte(), 0x00u8]);
    payload
}

/// Payload that selects an equaliser preset.
pub fn eq_mode_payload(mode: u8) -> (p: [u8; 2])
    ensures
        p@ == seq![mode, 0x00u8],
{
    let p = [mode, 0x00];
    assert(p@ =~= seq![mode, 0x00u8]);
    p
}

/// Payload that sets enhanced bass: 1 or 0, then twice the level, at most
/// 255.
pub fn enhanced_bass_payload(enabled: bool, level: u8) -> (p: [u8; 2])
    ensures
        p@ == seq![
            if enabled {
                1u8
            } else {
                0u8
            },
            if 2 * level <= 255 {
                (2 * level) as u8
            } else {
                255u8
            },
        ],
{
    let mut payload = [0u8, 0u8];
    if enabled {
        payload[0] = 0x01;
    }
    payload[1] = if level <= 127 {
        level * 2
    } else {
        255
    };
    assert(payload@ =~= seq![
        if enabled {
            1u8
        } else {
            0u8
        },
        if 2 * level <= 255 {
            (2 * level) as u8
        } else {
            255u8
        },
    ]);
    payload
}

/// Payload that switches personalised ANC on (1) or off (0).
pub fn personalized_anc_payload(enabled: bool) -> (p: [u8; 1])
    ensures
        p@ == seq![
            if enabled {
                1u8
            } else {
                0u8
            },
        ],
{
    let value = if enabled {
        0x01
    } else {
        0x00
    };
    let p = [value];
    assert(p@ =~= seq![value]);
    p
}

/// Payload that switches in-ear detection on or off.
pub fn in_ear_payload(enabled: bool) -> (p: [u8; 3])
    ensures
        p@ == seq![
            0x01u8,
            0x01u8,
            if enabled {
                1u8
            } else {
                0u8
            },
        ],
{
    let p = [0x01, 0x01, if enabled {
        0x01
    } else {
        0x00
    }];
    assert(p@ =~= seq![0x01u8, 0x01u8, p[2]]);
    p
}

/// Payload that switches low-latency mode on (1 0) or off (2 0).
pub fn latency_payload(enabled: bool) -> (p: [u8; 2])
    ensures
        p@ == (if enabled {
            seq![0x01u8, 0x00u8]
        } else {
            seq![0x02u8, 0x00u8]
        }),
{
    let p = if enabled {
        [0x01, 0x00]
    } else {
        [0x02, 0x00]
    };
    assert(p@ =~= seq![p[0], 0x00u8]);
    p
}

/// Payload that assigns the action of a gesture slot.
pub fn gesture_payload(slot: &GestureSlot) -> (p: [u8; 5])
    ensures
        p@ == seq![0x01u8, slot.device, slot.common, slot.gesture_type, slot.action],
{
    let p = [0x01, slot.device, slot.common, slot.gesture_type, slot.action];
    assert(p@ =~= seq![0x01u8, slot.device, slot.common, slot.gesture_type, slot.action]);
    p
}

/// Entry `k` of a case LED payload holds colour `color`: its 1-based index
/// (modulo 256), then its three bytes.
pub open spec fn led_entry_holds(p: Seq<u8>, k: int, color: LedColor) -> bool {
    &&& p[1 + 4 * k] == ((k + 1) % 256) as u8
    &&& p.subrange(2 + 4 * k, 5 + 4 * k) == color.0@
}

/// Payload that sets the case LED colours: the number of colours (modulo
/// 256), then an entry for each colour.
pub open spec fn led_payload_matches(pixels: Seq<LedColor>, p: Seq<u8>) -> bool {
    &&& p.len() == 1 + 4 * pixels.len()
    &&& p[0] == (pixels.len() % 256) as u8
    &&& forall|k: int| 0 <= k < pixels.len() ==> led_entry_holds(p, k, #[trigger] pixels[k])
}

pub fn led_colors_payload(colors: &LedColorSet) -> (p: Vec<u8>)
    ensures
        led_payload_matches(colors.pixels@, p@),
{
    let n = colors.pixels.len();
    let mut payload: Vec<u8> = Vec::new();
    payload.push((n % 256) as u8);
    let mut index: usize = 0;
    while index < n
        invariant
            n == colors.pixels@.len(),
            0 <= index <= n,
            payload@.len() == 1 + 4 * index,
            payload@[0] == (n % 256) as u8,
            forall|k: int|
                0 <= k < index ==> led_entry_holds(payload@, k, #[trigger] colors.pixels@[k]),
        decreases n - index,
    {
        let rgb = colors.pixels[index].0;
        let ghost before = payload@;
        payload.push(((index + 1) % 256) as u8);
        payload.push(rgb[0]);
        payload.push(rgb[1]);
        payload.push(rgb[2]);
        proof {
            assert forall|k: int| 0 <= k < index + 1 implies led_entry_holds(
                payload@,
                k,
                #[trigger] colors.pixels@[k],
            ) by {
                if k < index {
                    assert(led_entry_holds(before, k, colors.pixels@[k]));
                    assert(payload@.subrange(2 + 4 * k, 5 + 4 * k) =~= before.subrange(
                        2 + 4 * k,
                        5 + 4 * k,
                    ));
                } else {
                    assert(payload@.subrange(2 + 4 * k, 5 + 4 * k) =~= rgb@);
                }
            }
        }
        index = index + 1;
    }
    payload
}

/// Payload that makes the buds ring: Ear (1) takes one on/off byte; other
/// models take the bud (2 left; 3 otherwise) and then the on/off byte.
pub fn ring_payload(base: ModelBase, enable: bool, side: Option<EarSide>) -> (p: Vec<u8>)
    ensures
        p@ == (if base == ModelBase::B181 {
            seq![
                if enable {
                    1u8
                } else {
                    0u8
                },
            ]
        } else {
            seq![
                if side == Some(EarSide::Left) {
                    2u8
                } else {
                    3u8
                },
                if enable {
                    1u8
                } else {
                    0u8
                },
            ]
        }),
{
    let on: u8 = if enable {
        0x01
    } else {
        0x00
    };
    let mut p: Vec<u8> = Vec::new();
    if base == ModelBase::B181 {
        p.push(on);
    } else {
        let device: u8 = match side {
            Some(EarSide::Left) => 0x02,
            _ => 0x03,
        };
        p.push(device);
        p.push(on);
    }
    p
}

/// Features that only some model families offer.
#[derive(Debug, Clone, Copy, PartialEq, Eq, Structural)]
pub enum Feature {
    AncRead,
    AncWrite,
    CustomEq,
    EnhancedBass,
    PersonalizedAnc,
    SuperMic,
    InEarDetection,
    CaseLed,
}

impl Feature {
    /// Whether family `base` offers the feature.
    pub open spec fn offered_by(self, base: ModelBase) -> bool {
        match self {
            Feature::AncRead => base != ModelBase::B157,
            Feature::AncWrite => base != ModelBase::B157,
            Feature::CustomEq => base != ModelBase::B181,
            Feature::EnhancedBass => base == ModelBase::B171 || base == ModelBase::B172 || base
                == ModelBase::B168 || base == ModelBase::B162 || base == ModelBase::B173,
            Feature::PersonalizedAnc => base == ModelBase::B155,
            Feature::SuperMic => base == ModelBase::B173,
            Feature::InEarDetection => base != ModelBase::B174,
            Feature::CaseLed => base == ModelBase::B181,
        }
    }

    /// The name under which a missing feature is reported.
    pub open spec fn spec_label(self) -> &'static str {
        match self {
            Feature::AncRead => "ANC read",
            Feature::AncWrite => "ANC write",
            Feature::CustomEq => "custom EQ",
            Feature::EnhancedBass => "enhanced bass",
            Feature::PersonalizedAnc => "personalized ANC",
            Feature::SuperMic => "super mic",
            Feature::InEarDetection => "in-ear detection",
            Feature::CaseLed => "case led color",
        }
    }

    /// `Ok` when family `base` offers the feature, otherwise the error that
    /// names it.
    pub fn require(self, base: ModelBase) -> (r: Result<(), EarError>)
        ensures
            self.offered_by(base) ==> r is Ok,
            !self.offered_by(base) ==> (r matches Err(EarError::Unsupported(l)) && l
                == self.spec_label()),
    {
        let (offered, label) = match self {
            Feature::AncRead => (base != ModelBase::B157, "ANC read"),
            Feature::AncWrite => (base != ModelBase::B157, "ANC write"),
            Feature::CustomEq => (base.supports_custom_eq(), "custom EQ"),
            Feature::EnhancedBass => (base.supports_enhanced_bass(), "enhanced bass"),
            Feature::PersonalizedAnc => (base.supports_personalized_anc(), "personalized ANC"),
            Feature::SuperMic => (base.supports_super_mic(), "super mic"),
            Feature::InEarDetection => (base.supports_in_ear_detection(), "in-ear detection"),
            Feature::CaseLed => (base.supports_case_led(), "case led color"),
        };
        if offered {
            Ok(())
        } else {
            Err(EarError::Unsupported(label))
        }
    }
}


/// The three custom equaliser levels, each as the bits of an IEEE-754
/// single-precision number.
#[derive(Debug, Clone, Copy, PartialEq, Eq, Structural)]
pub struct CustomEqBits {
    pub bass: u32,
    pub mid: u32,
    pub treble: u32,
}

/// The 32-bit value whose little-endian bytes start at `offset`.
pub open spec fn le_u32_at(p: Seq<u8>, offset: int) -> u32 {
    (p[offset] as int + 256 * p[offset + 1] as int + 65536 * p[offset + 2] as int + 16777216
        * p[offset + 3] as int) as u32
}

/// The bits of a level stored in four little-endian bytes; fewer bytes stand
/// for 0. Three zero high bytes and a low byte of 0x80 or more stand for the
/// negated level of the low byte's seven bits: its bits are those with the
/// sign bit set.
pub open spec fn eq_level_bits_of(b: Seq<u8>) -> u32 {
    if b.len() < 4 {
        0
    } else if b[3] == 0 && b[2] == 0 && b[1] == 0 && b[0] >= 0x80 {
        (0x8000_0000 + (b[0] - 0x80)) as u32
    } else {
        le_u32_at(b, 0)
    }
}

/// The bits of a level stored in four little-endian bytes.
pub fn eq_level_bits(bytes: &[u8]) -> (bits: u32)
    ensures
        bits == eq_level_bits_of(bytes@),
{
    if bytes.len() < 4 {
        return 0;
    }
    if bytes[3] == 0 && bytes[2] == 0 && bytes[1] == 0 && bytes[0] >= 0x80 {
        0x8000_0000 + ((bytes[0] - 0x80) as u32)
    } else {
        (bytes[0] as u32) + 256 * (bytes[1] as u32) + 65536 * (bytes[2] as u32) + 16777216 * (
        bytes[3] as u32)
    }
}

/// The four little-endian bytes that store a level with the given bits; for
/// a non-zero level whose bits fit in the low byte, that byte gets its top
/// bit set.
pub open spec fn eq_level_bytes_of(bits: u32, nonzero: bool) -> Seq<u8> {
    let low = if nonzero && bits < 256 {
        ((bits % 256) as u8) | 0x80u8
    } else {
        (bits % 256) as u8
    };
    seq![low, ((bits / 256) % 256) as u8, ((bits / 65536) % 256) as u8, (bits / 16777216) as u8]
}

/// A level is stored little-endian, low byte first; a level of 256 or more
/// (every non-zero level but the very smallest) is read back as it was
/// stored.
pub proof fn lemma_eq_level_storage(bits: u32, nonzero: bool)
    requires
        bits >= 256,
    ensures
        ({
            let b = eq_level_bytes_of(bits, nonzero);
            &&& b.len() == 4
            &&& b[0] as int + 256 * b[1] as int + 65536 * b[2] as int + 16777216 * b[3] as int
                == bits as int
            &&& eq_level_bits_of(b) == bits
        }),
{
    let b0: u32 = bits % 256;
    let b1: u32 = (bits / 256) % 256;
    let b2: u32 = (bits / 65536) % 256;
    let b3: u32 = bits / 16777216;
    assert(b0 + 256 * b1 + 65536 * b2 + 16777216 * b3 == bits) by (nonlinear_arith)
        requires
            b0 == bits % 256,
            b1 == (bits / 256) % 256,
            b2 == (bits / 65536) % 256,
            b3 == bits / 16777216,
    ;
    let b = eq_level_bytes_of(bits, nonzero);
    assert(b[1] == b1 && b[2] == b2 && b[3] == b3);
    assert(b[0] == b0);
}

/// The four little-endian bytes that store a level with the given bits.
pub fn eq_level_bytes(bits: u32, nonzero: bool) -> (b: [u8; 4])
    ensures
        b@ == eq_level_bytes_of(bits, nonzero),
{
    let mut low = (bits % 256) as u8;
    if nonzero && bits < 256 {
        low = low | 0x80;
    }
    let b = [low, ((bits / 256) % 256) as u8, ((bits / 65536) % 256) as u8, (bits / 16777216) as u8];
    assert(b@ =~= eq_level_bytes_of(bits, nonzero));
    b
}

/// The levels of a custom equaliser answer of at least 45 bytes: the
/// middle, treble and bass levels are stored at bytes 6, 19 and 32.
pub open spec fn custom_eq_of_payload(p: Seq<u8>) -> Option<CustomEqBits> {
    if p.len() < 45 {
        None
    } else {
        Some(
            CustomEqBits {
                mid: eq_level_bits_of(p.subrange(6, 10)),
                treble: eq_level_bits_of(p.subrange(19, 23)),
                bass: eq_level_bits_of(p.subrange(32, 36)),
            },
        )
    }
}

pub fn decode_custom_eq(payload: &[u8]) -> (r: Option<CustomEqBits>)
    ensures
        r == custom_eq_of_payload(payload@),
        payload@.len() < 45 ==> r is None,
        payload@.len() >= 45 ==> r == Some(
            CustomEqBits {
                mid: eq_level_bits_of(payload@.subrange(6, 10)),
                treble: eq_level_bits_of(payload@.subrange(19, 23)),
                bass: eq_level_bits_of(payload@.subrange(32, 36)),
            },
        ),
{
    if payload.len() < 45 {
        return None;
    }
    let mid = eq_level_bits(slice_subrange(payload, 6, 10));
    let treble = eq_level_bits(slice_subrange(payload, 19, 23));
    let bass = eq_level_bits(slice_subrange(payload, 32, 36));
    Some(CustomEqBits { bass, mid, treble })
}

/// The fixed frame of a custom equaliser command.
pub open spec fn custom_eq_template() -> Seq<u8> {
    seq![
        0x03u8, 0x00u8, 0x00u8, 0x00u8, 0x00u8, 0x01u8, 0x00u8, 0x00u8, 0x00u8, 0x00u8, 0x00u8,
        0x00u8, 0x75u8, 0x44u8, 0xc3u8, 0xf5u8, 0x28u8, 0x3fu8, 0x02u8, 0x00u8, 0x00u8, 0x00u8,
        0x00u8, 0x00u8, 0xc0u8, 0x5au8, 0x45u8, 0x00u8, 0x00u8, 0x80u8, 0x3fu8, 0x00u8, 0x00u8,
        0x00u8, 0x00u8, 0x00u8, 0x00u8, 0x00u8, 0x0cu8, 0x43u8, 0xcdu8, 0xccu8, 0x4cu8, 0x3fu8,
        0x00u8, 0x00u8, 0x00u8, 0x00u8, 0x00u8, 0x00u8, 0x00u8, 0x00u8, 0x00u8,
    ]
}

/// The custom equaliser command: the fixed frame with the overall gain at
/// bytes 1..5 and the middle, treble and bass levels at bytes 6, 19 and 32.
pub open spec fn custom_eq_payload_of(total: Seq<u8>, mid: Seq<u8>, treble: Seq<u8>, bass: Seq<u8>) -> Seq<u8> {
    let t = custom_eq_template();
    t.subrange(0, 1) + total + t.subrange(5, 6) + mid + t.subrange(10, 19) + treble + t.subrange(23, 32) + bass + t.subrange(36, 53)
}

pub fn encode_custom_eq(total: [u8; 4], mid: [u8; 4], treble: [u8; 4], bass: [u8; 4]) -> (p: Vec<u8>)
    ensures
        p@ == custom_eq_payload_of(total@, mid@, treble@, bass@),
        p@.len() == 53,
        p@.subrange(1, 5) == total@,
        p@.subrange(6, 10) == mid@,
        p@.subrange(19, 23) == treble@,
        p@.subrange(32, 36) == bass@,
{
    let frame: [u8; 53] = [
        0x03u8, 0x00u8, 0x00u8, 0x00u8, 0x00u8, 0x01u8, 0x00u8, 0x00u8, 0x00u8, 0x00u8, 0x00u8,
        0x00u8, 0x75u8, 0x44u8, 0xc3u8, 0xf5u8, 0x28u8, 0x3fu8, 0x02u8, 0x00u8, 0x00u8, 0x00u8,
        0x00u8, 0x00u8, 0xc0u8, 0x5au8, 0x45u8, 0x00u8, 0x00u8, 0x80u8, 0x3fu8, 0x00u8, 0x00u8,
        0x00u8, 0x00u8, 0x00u8, 0x00u8, 0x00u8, 0x0cu8, 0x43u8, 0xcdu8, 0xccu8, 0x4cu8, 0x3fu8,
        0x00u8, 0x00u8, 0x00u8, 0x00u8, 0x00u8, 0x00u8, 0x00u8, 0x00u8, 0x00u8,
    ];
    let mut payload = vstd::slice::slice_to_vec(frame.as_slice());
    assert(payload@ =~= custom_eq_template());
    let mut i: usize = 0;
    while i < 4
        invariant
            0 <= i <= 4,
            payload@.len() == 53,
            forall|j: int| 0 <= j < 53 && !(1 <= j < 1 + i || 6 <= j < 6 + i || 19 <= j < 19 + i
                || 32 <= j < 32 + i) ==> payload@[j] == custom_eq_template()[j],
            forall|j: int| 0 <= j < i ==> payload@[1 + j] == total@[j] && payload@[6 + j] == mid@[j]
                && payload@[19 + j] == treble@[j] && payload@[32 + j] == bass@[j],
        decreases 4 - i,
    {
        payload.set(1 + i, total[i]);
        payload.set(6 + i, mid[i]);
        payload.set(19 + i, treble[i]);
        payload.set(32 + i, bass[i]);
        i = i + 1;
    }
    assert(payload@ =~= custom_eq_payload_of(total@, mid@, treble@, bass@));
    payload
}


/// The custom equaliser command places its levels where the answer is read
/// from: the overall gain at bytes 1..5, the middle level at 6..10, treble at
/// 19..23 and bass at 32..36, the other bytes being the fixed frame; and the
/// levels written are the levels read back, each in its own band.
pub proof fn lemma_custom_eq_layout(total: Seq<u8>, mid: Seq<u8>, treble: Seq<u8>, bass: Seq<u8>)
    requires
        total.len() == 4,
        mid.len() == 4,
        treble.len() == 4,
        bass.len() == 4,
    ensures
        ({
            let p = custom_eq_payload_of(total, mid, treble, bass);
            &&& p.len() == 53
            &&& p.subrange(1, 5) == total
            &&& p.subrange(6, 10) == mid
            &&& p.subrange(19, 23) == treble
            &&& p.subrange(32, 36) == bass
            &&& forall|j: int|
                0 <= j < 53 && !(1 <= j < 5 || 6 <= j < 10 || 19 <= j < 23 || 32 <= j < 36) ==> p[j]
                    == custom_eq_template()[j]
            &&& custom_eq_of_payload(p) == Some(
                CustomEqBits {
                    mid: eq_level_bits_of(mid),
                    treble: eq_level_bits_of(treble),
                    bass: eq_level_bits_of(bass),
                },
            )
        }),
{
    let p = custom_eq_payload_of(total, mid, treble, bass);
    assert(p.subrange(1, 5) =~= total);
    assert(p.subrange(6, 10) =~= mid);
    assert(p.subrange(19, 23) =~= treble);
    assert(p.subrange(32, 36) =~= bass);
}

/// A custom equaliser answer is read at fixed places: the middle level from
/// bytes 6..10, treble from 19..23 and bass from 32..36; answers shorter than
/// 45 bytes give nothing.
pub proof fn lemma_custom_eq_answer_layout(p: Seq<u8>)
    ensures
        p.len() < 45 ==> custom_eq_of_payload(p) is None,
        p.len() >= 45 ==> custom_eq_of_payload(p) == Some(
            CustomEqBits {
                mid: eq_level_bits_of(p.subrange(6, 10)),
                treble: eq_level_bits_of(p.subrange(19, 23)),
                bass: eq_level_bits_of(p.subrange(32, 36)),
            },
        ),
{
}

/// Which families offer which feature: the noise-control mode can be read
/// and set on every family but the Ear (stick) (B157); the custom equaliser
/// on every family but the Ear (1) (B181); enhanced bass on B162, B168,
/// B171, B172 and B173; personalised ANC on B155 only; Super Mic on B173
/// only; in-ear detection on every family but the Ear (open) (B174); the
/// case LEDs on B181 only.
pub proof fn lemma_feature_families(base: ModelBase)
    ensures
        Feature::AncRead.offered_by(base) == (base != ModelBase::B157),
        Feature::AncWrite.offered_by(base) == (base != ModelBase::B157),
        Feature::CustomEq.offered_by(base) == (base != ModelBase::B181),
        Feature::EnhancedBass.offered_by(base) == (base == ModelBase::B162 || base == ModelBase::B168
            || base == ModelBase::B171 || base == ModelBase::B172 || base == ModelBase::B173),
        Feature::PersonalizedAnc.offered_by(base) == (base == ModelBase::B155),
        Feature::SuperMic.offered_by(base) == (base == ModelBase::B173),
        Feature::InEarDetection.offered_by(base) == (base != ModelBase::B174),
        Feature::CaseLed.offered_by(base) == (base == ModelBase::B181),
{
}

/// Every catalogue model that has active noise cancellation can read and set
/// its noise-control mode.
pub proof fn lemma_anc_models_offer_anc(i: int)
    requires
        0 <= i < model_table().len(),
        model_table()[i].anc_capable,
    ensures
        Feature::AncRead.offered_by(model_table()[i].base),
        Feature::AncWrite.offered_by(model_table()[i].base),
{
    assert(model_table()[i].base != ModelBase::B157);
}

/// The custom equaliser levels in their answer.
pub fn custom_eq_from_packet(packet: &EarPacket) -> (r: Option<CustomEqBits>)
    ensures
        r == (if packet.command == response::CUSTOM_EQ {
            custom_eq_of_payload(packet.payload@)
        } else {
            None
        }),
{
    if packet.command == response::CUSTOM_EQ {
        decode_custom_eq(packet.payload.as_slice())
    } else {
        None
    }
}

/// What becomes of the open session when a new one is opened: a slot that
/// holds one refuses (and keeps it); an empty slot takes the new one.
pub open spec fn after_open<T>(current: Option<T>, session: T) -> (Option<T>, Result<(), EarError>) {
    match current {
        Some(s) => (Some(s), Err(EarError::AlreadyConnected)),
        None => (Some(session), Ok(())),
    }
}

/// What becomes of the open session when it is closed: it is dropped; with
/// no session there is nothing to close.
pub open spec fn after_close<T>(current: Option<T>) -> (Option<T>, Result<(), EarError>) {
    match current {
        Some(_) => (None, Ok(())),
        None => (None, Err(EarError::NoSession)),
    }
}

/// The one device session that may be open at a time.
pub struct SessionSlot<T> {
    current: Option<T>,
}

impl<T> View for SessionSlot<T> {
    type V = Option<T>;

    closed spec fn view(&self) -> Option<T> {
        self.current
    }
}

impl<T> SessionSlot<T> {
    /// A slot with no session.
    pub fn new() -> (s: Self)
        ensures
            s@ is None,
    {
        SessionSlot { current: None }
    }

    /// Opens `session` unless one is open already.
    pub fn open(&mut self, session: T) -> (r: Result<(), EarError>)
        ensures
            (final(self)@, r) == after_open(old(self)@, session),
    {
        if self.current.is_some() {
            return Err(EarError::AlreadyConnected);
        }
        self.current = Some(session);
        Ok(())
    }

    /// The open session.
    pub fn current(&self) -> (r: Result<&T, EarError>)
        ensures
            match self@ {
                Some(s) => r matches Ok(x) && *x == s,
                None => r matches Err(EarError::NoSession),
            },
    {
        match &self.current {
            Some(s) => Ok(s),
            None => Err(EarError::NoSession),
        }
    }

    /// Closes the open session.
    pub fn close(&mut self) -> (r: Result<(), EarError>)
        ensures
            (final(self)@, r) == after_close(old(self)@),
    {
        if self.current.is_none() {
            return Err(EarError::NoSession);
        }
        self.current = None;
        Ok(())
    }
}

/// Only one session is open at a time: once one is open, opening another
/// fails and leaves the first in place; closing then empties the slot, after
/// which a new session can be opened.
pub proof fn lemma_one_session_at_a_time<T>(first: T, second: T)
    ensures
        after_open(None, first) == (Some(first), Ok::<(), EarError>(())),
        after_open(Some(first), second).0 == Some(first),
        after_open(Some(first), second).1 matches Err(EarError::AlreadyConnected),
        after_close(Some(first)).0 is None,
        after_close(Some(first)).1 is Ok,
        after_close(None::<T>).1 matches Err(EarError::NoSession),
        after_open(after_close(Some(first)).0, second).0 == Some(second),
{
}

} // verus!
